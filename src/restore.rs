use vstd::prelude::*;
use crate::catalog::ArtifactPair;
use crate::domain::VirtualMachineState;
use crate::engine::{transition, Action, BackupRun, Event, Limits};

verus! {

/// The step of a restore that failed.
#[derive(Clone, Copy, Debug, PartialEq, Eq, Structural)]
pub enum RestoreStep {
    /// The existing domain did not reach ShutOff, even after a forced stop.
    Stop,
    Undefine,
    Copy,
    Import,
    Start,
}

/// Where a restore stands: the step whose outcome it waits for, or its end.
#[derive(Clone, Copy, Debug, PartialEq, Eq, Structural)]
pub enum RestorePhase {
    Idle,
    /// Waiting for ShutOff after a graceful stop request.
    Stopping,
    /// Waiting for ShutOff after a forced stop request.
    ForcedStopping,
    Undefining,
    CopyingImage,
    Importing,
    Starting,
    Restored,
    Failed(RestoreStep),
}

/// What a restore asks of the world next. A stop or a poll is answered by
/// `RestoreEvent::Power` (the state observed after waiting `wait_secs`), the
/// other requests but `Finish` by `RestoreEvent::Done`.
pub enum RestoreAction {
    GracefulStop { domain: String, wait_secs: u32 },
    ForcedStop { domain: String, wait_secs: u32 },
    PollPower { domain: String, wait_secs: u32 },
    Undefine { domain: String },
    CopyImage { source: String, dest: String },
    ImportConfig { path: String },
    StartDomain { domain: String },
    Finish { phase: RestorePhase },
}

pub enum RestoreEvent {
    Begin,
    Power { state: VirtualMachineState },
    Done { ok: bool },
}

/// One restore of a domain from a cataloged artifact pair.
pub struct RestoreRun {
    pub domain: String,
    /// The image artifact to copy back.
    pub image_source: String,
    /// The configuration artifact to import.
    pub config_source: String,
    /// The domain's conventional image path, where the image is copied.
    pub image_dest: String,
    /// The domain exists now and has to be stopped first.
    pub exists: bool,
    /// The operator confirmed that the existing domain is to be undefined.
    pub undefine: bool,
    /// The poll bounds of the stop, as for a backup run.
    pub limits: Limits,
    pub phase: RestorePhase,
    /// Power observations left in the current wait, the awaited one included.
    pub polls_left: u32,
    /// The image has been copied into place.
    pub image_copied: bool,
}

pub open spec fn restore_accepts(p: RestorePhase, e: RestoreEvent) -> bool {
    match (p, e) {
        (RestorePhase::Idle, RestoreEvent::Begin) => true,
        (RestorePhase::Stopping, RestoreEvent::Power { .. }) => true,
        (RestorePhase::ForcedStopping, RestoreEvent::Power { .. }) => true,
        (RestorePhase::Undefining, RestoreEvent::Done { .. }) => true,
        (RestorePhase::CopyingImage, RestoreEvent::Done { .. }) => true,
        (RestorePhase::Importing, RestoreEvent::Done { .. }) => true,
        (RestorePhase::Starting, RestoreEvent::Done { .. }) => true,
        _ => false,
    }
}

pub open spec fn to_copy(r: RestoreRun) -> (RestoreRun, RestoreAction) {
    (
        RestoreRun { phase: RestorePhase::CopyingImage, ..r },
        RestoreAction::CopyImage { source: r.image_source, dest: r.image_dest },
    )
}

/// Once the domain is off: undefine it where that was confirmed, else copy.
pub open spec fn after_stop(r: RestoreRun) -> (RestoreRun, RestoreAction) {
    if r.undefine {
        (RestoreRun { phase: RestorePhase::Undefining, ..r }, RestoreAction::Undefine { domain: r.domain })
    } else {
        to_copy(r)
    }
}

pub open spec fn fail(r: RestoreRun, s: RestoreStep) -> (RestoreRun, RestoreAction) {
    (
        RestoreRun { phase: RestorePhase::Failed(s), ..r },
        RestoreAction::Finish { phase: RestorePhase::Failed(s) },
    )
}

pub open spec fn restore_poll(r: RestoreRun, wait_secs: u32) -> (RestoreRun, RestoreAction) {
    (
        RestoreRun { polls_left: (r.polls_left - 1) as u32, ..r },
        RestoreAction::PollPower { domain: r.domain, wait_secs },
    )
}

/// The next state of a restore and its next request, on event `e`. An event
/// the restore does not wait for changes nothing. An existing domain is
/// stopped gracefully and, only where it is not seen ShutOff within the
/// shutdown bound, forcibly; where even that does not stop it within the
/// forced bound, the restore ends before anything is changed.
pub open spec fn restore_transition(r: RestoreRun, e: RestoreEvent) -> (RestoreRun, RestoreAction) {
    match (r.phase, e) {
        (RestorePhase::Idle, RestoreEvent::Begin) => if r.exists {
            (
                RestoreRun { phase: RestorePhase::Stopping, polls_left: r.limits.shutdown_polls, ..r },
                RestoreAction::GracefulStop { domain: r.domain, wait_secs: r.limits.shutdown_interval_secs },
            )
        } else {
            to_copy(r)
        },
        (RestorePhase::Stopping, RestoreEvent::Power { state }) => if state == VirtualMachineState::ShutOff {
            after_stop(r)
        } else if r.polls_left > 1 {
            restore_poll(r, r.limits.shutdown_interval_secs)
        } else {
            (
                RestoreRun { phase: RestorePhase::ForcedStopping, polls_left: r.limits.forced_polls, ..r },
                RestoreAction::ForcedStop { domain: r.domain, wait_secs: r.limits.forced_interval_secs },
            )
        },
        (RestorePhase::ForcedStopping, RestoreEvent::Power { state }) => if state == VirtualMachineState::ShutOff {
            after_stop(r)
        } else if r.polls_left > 1 {
            restore_poll(r, r.limits.forced_interval_secs)
        } else {
            fail(r, RestoreStep::Stop)
        },
        (RestorePhase::Undefining, RestoreEvent::Done { ok }) => if ok {
            to_copy(r)
        } else {
            fail(r, RestoreStep::Undefine)
        },
        (RestorePhase::CopyingImage, RestoreEvent::Done { ok }) => if ok {
            (
                RestoreRun { phase: RestorePhase::Importing, image_copied: true, ..r },
                RestoreAction::ImportConfig { path: r.config_source },
            )
        } else {
            fail(r, RestoreStep::Copy)
        },
        (RestorePhase::Importing, RestoreEvent::Done { ok }) => if ok {
            (RestoreRun { phase: RestorePhase::Starting, ..r }, RestoreAction::StartDomain { domain: r.domain })
        } else {
            fail(r, RestoreStep::Import)
        },
        (RestorePhase::Starting, RestoreEvent::Done { ok }) => if ok {
            (RestoreRun { phase: RestorePhase::Restored, ..r }, RestoreAction::Finish { phase: RestorePhase::Restored })
        } else {
            fail(r, RestoreStep::Start)
        },
        _ => (r, RestoreAction::Finish { phase: r.phase }),
    }
}

impl RestoreRun {
    /// A restore of `pair`'s domain that copies its image to `image_dest`.
    pub fn new(pair: &ArtifactPair, image_dest: String, exists: bool, undefine: bool, limits: Limits) -> (r: Self)
        ensures
            r.domain == pair.domain,
            r.image_source == pair.image_path,
            r.config_source == pair.config_path,
            r.image_dest == image_dest,
            r.exists == exists,
            r.undefine == undefine,
            r.limits == limits,
            r.phase == RestorePhase::Idle,
            !r.image_copied,
    {
        RestoreRun {
            domain: pair.domain.clone(),
            image_source: pair.image_path.clone(),
            config_source: pair.config_path.clone(),
            image_dest,
            exists,
            undefine,
            limits,
            phase: RestorePhase::Idle,
            polls_left: 0,
            image_copied: false,
        }
    }

    /// Whether `e` answers what the restore waits for.
    pub fn accepts(&self, e: &RestoreEvent) -> (r: bool)
        ensures
            r == restore_accepts(self.phase, *e),
    {
        match (self.phase, e) {
            (RestorePhase::Idle, RestoreEvent::Begin) => true,
            (RestorePhase::Stopping, RestoreEvent::Power { .. }) => true,
            (RestorePhase::ForcedStopping, RestoreEvent::Power { .. }) => true,
            (RestorePhase::Undefining, RestoreEvent::Done { .. }) => true,
            (RestorePhase::CopyingImage, RestoreEvent::Done { .. }) => true,
            (RestorePhase::Importing, RestoreEvent::Done { .. }) => true,
            (RestorePhase::Starting, RestoreEvent::Done { .. }) => true,
            _ => false,
        }
    }

    fn to_copy(&mut self) -> (a: RestoreAction)
        ensures
            (*final(self), a) == to_copy(*old(self)),
    {
        self.phase = RestorePhase::CopyingImage;
        RestoreAction::CopyImage { source: self.image_source.clone(), dest: self.image_dest.clone() }
    }

    fn after_stop(&mut self) -> (a: RestoreAction)
        ensures
            (*final(self), a) == after_stop(*old(self)),
    {
        if self.undefine {
            self.phase = RestorePhase::Undefining;
            RestoreAction::Undefine { domain: self.domain.clone() }
        } else {
            self.to_copy()
        }
    }

    fn fail(&mut self, s: RestoreStep) -> (a: RestoreAction)
        ensures
            (*final(self), a) == fail(*old(self), s),
    {
        self.phase = RestorePhase::Failed(s);
        RestoreAction::Finish { phase: RestorePhase::Failed(s) }
    }

    fn poll(&mut self, wait_secs: u32) -> (a: RestoreAction)
        requires
            old(self).polls_left > 0,
        ensures
            (*final(self), a) == restore_poll(*old(self), wait_secs),
    {
        self.polls_left = self.polls_left - 1;
        RestoreAction::PollPower { domain: self.domain.clone(), wait_secs }
    }

    /// Takes in the answer to the last request and returns the next request.
    pub fn step(&mut self, e: RestoreEvent) -> (a: RestoreAction)
        requires
            restore_accepts(old(self).phase, e),
        ensures
            (*final(self), a) == restore_transition(*old(self), e),
    {
        match (self.phase, e) {
            (RestorePhase::Idle, RestoreEvent::Begin) => {
                if self.exists {
                    self.phase = RestorePhase::Stopping;
                    self.polls_left = self.limits.shutdown_polls;
                    RestoreAction::GracefulStop {
                        domain: self.domain.clone(),
                        wait_secs: self.limits.shutdown_interval_secs,
                    }
                } else {
                    self.to_copy()
                }
            },
            (RestorePhase::Stopping, RestoreEvent::Power { state }) => {
                if state == VirtualMachineState::ShutOff {
                    self.after_stop()
                } else if self.polls_left > 1 {
                    self.poll(self.limits.shutdown_interval_secs)
                } else {
                    self.phase = RestorePhase::ForcedStopping;
                    self.polls_left = self.limits.forced_polls;
                    RestoreAction::ForcedStop {
                        domain: self.domain.clone(),
                        wait_secs: self.limits.forced_interval_secs,
                    }
                }
            },
            (RestorePhase::ForcedStopping, RestoreEvent::Power { state }) => {
                if state == VirtualMachineState::ShutOff {
                    self.after_stop()
                } else if self.polls_left > 1 {
                    self.poll(self.limits.forced_interval_secs)
                } else {
                    self.fail(RestoreStep::Stop)
                }
            },
            (RestorePhase::Undefining, RestoreEvent::Done { ok }) => {
                if ok {
                    self.to_copy()
                } else {
                    self.fail(RestoreStep::Undefine)
                }
            },
            (RestorePhase::CopyingImage, RestoreEvent::Done { ok }) => {
                if ok {
                    self.phase = RestorePhase::Importing;
                    self.image_copied = true;
                    RestoreAction::ImportConfig { path: self.config_source.clone() }
                } else {
                    self.fail(RestoreStep::Copy)
                }
            },
            (RestorePhase::Importing, RestoreEvent::Done { ok }) => {
                if ok {
                    self.phase = RestorePhase::Starting;
                    RestoreAction::StartDomain { domain: self.domain.clone() }
                } else {
                    self.fail(RestoreStep::Import)
                }
            },
            (RestorePhase::Starting, RestoreEvent::Done { ok }) => {
                if ok {
                    self.phase = RestorePhase::Restored;
                    RestoreAction::Finish { phase: RestorePhase::Restored }
                } else {
                    self.fail(RestoreStep::Start)
                }
            },
            _ => RestoreAction::Finish { phase: self.phase },
        }
    }
}

/// A restore forces the existing domain off only where it was not seen
/// ShutOff on the last observation that the shutdown bound allows.
pub proof fn lemma_restore_forced_stop_only_after_bound(r: RestoreRun, e: RestoreEvent)
    ensures
        restore_transition(r, e).1 is ForcedStop ==> {
            &&& r.phase is Stopping
            &&& r.polls_left <= 1
            &&& e matches RestoreEvent::Power { state } && state != VirtualMachineState::ShutOff
        },
{
}

/// A restore imports a configuration only once the disk image has been copied
/// into place, so no domain is ever defined over a missing disk.
pub proof fn lemma_import_after_copy(r: RestoreRun, e: RestoreEvent)
    ensures
        restore_transition(r, e).1 is ImportConfig ==> restore_transition(r, e).0.image_copied,
{
}

/// A restore copies back exactly the cataloged image, to the domain's
/// conventional path, and imports exactly the cataloged configuration.
pub proof fn lemma_restore_uses_artifact(r: RestoreRun, e: RestoreEvent)
    ensures
        restore_transition(r, e).1 is CopyImage ==> restore_transition(r, e).1 == (RestoreAction::CopyImage {
            source: r.image_source,
            dest: r.image_dest,
        }),
        restore_transition(r, e).1 is ImportConfig ==> restore_transition(r, e).1 == (RestoreAction::ImportConfig {
            path: r.config_source,
        }),
{
}

/// A backup then a restore: a restore of the pair that a backup run entered
/// in the catalog copies back the very image file that the run wrote and
/// measured, and defines the domain from the very configuration file that the
/// run exported.
pub proof fn lemma_backup_restore_round_trip(r: BackupRun, e: Event, rr: RestoreRun, e2: RestoreEvent)
    requires
        transition(r, e).1 == (Action::Register { domain: rr.domain, image: rr.image_source, config: rr.config_source }),
    ensures
        rr.domain == r.domain,
        transition(r, e).0.validated,
        restore_transition(rr, e2).1 is CopyImage ==> restore_transition(rr, e2).1 == (RestoreAction::CopyImage {
            source: r.image_dest,
            dest: rr.image_dest,
        }),
        restore_transition(rr, e2).1 is ImportConfig ==> restore_transition(rr, e2).1 == (RestoreAction::ImportConfig {
            path: r.config_dest,
        }),
{
}

} // verus!
