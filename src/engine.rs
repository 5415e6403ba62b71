use vstd::prelude::*;
use crate::domain::VirtualMachineState;

verus! {

/// Why a backup run ended without completing.
#[derive(Clone, Copy, Debug, PartialEq, Eq, Structural)]
pub enum FailReason {
    /// The configuration could not be exported; the domain was not touched.
    ConfigExportFailed,
    /// The domain did not reach ShutOff, even after a forced stop; nothing was copied.
    ShutdownTimeout,
    /// No disk image could be found for the domain.
    SourceMissing,
    /// Copying the disk image failed.
    CopyError,
    /// The copied image was below the minimum size; it and its config were deleted.
    ArtifactTooSmall,
    /// The domain was not seen running again after the restart request.
    RestartTimeout,
    /// The operator cancelled the run while it waited for the domain to stop;
    /// the domain was restarted.
    Cancelled,
}

/// Bounds and thresholds that govern one run.
#[derive(Clone, Copy, Debug, PartialEq, Eq, Structural)]
pub struct Limits {
    /// Power observations after a graceful stop request, its own answer counted
    /// as the first, before escalating to a forced stop.
    pub shutdown_polls: u32,
    /// Seconds between polls while waiting for a graceful stop.
    pub shutdown_interval_secs: u32,
    /// Power observations after a forced stop request, its own answer counted
    /// as the first, before giving up.
    pub forced_polls: u32,
    /// Seconds between polls while waiting for a forced stop.
    pub forced_interval_secs: u32,
    /// Power observations after a start request, its own answer counted as the
    /// first, before reporting a restart timeout.
    pub restart_polls: u32,
    /// Seconds between polls while waiting for the domain to run again.
    pub restart_interval_secs: u32,
    /// An image artifact below this many bytes is taken to be truncated.
    pub min_artifact_bytes: u64,
}

impl Limits {
    /// Thirty polls ten seconds apart for a graceful stop, twelve five seconds
    /// apart for a forced stop and for a restart, and a 1 MiB minimum artifact.
    pub fn standard() -> (r: Limits)
        ensures
            r.shutdown_polls == 30 && r.shutdown_interval_secs == 10,
            r.forced_polls == 12 && r.forced_interval_secs == 5,
            r.restart_polls == 12 && r.restart_interval_secs == 5,
            r.min_artifact_bytes == 1048576,
    {
        Limits {
            shutdown_polls: 30,
            shutdown_interval_secs: 10,
            forced_polls: 12,
            forced_interval_secs: 5,
            restart_polls: 12,
            restart_interval_secs: 5,
            min_artifact_bytes: 1048576,
        }
    }
}

/// Where a run stands: the step whose outcome it waits for, or its end.
#[derive(Clone, Copy, Debug, PartialEq, Eq, Structural)]
pub enum Phase {
    /// Nothing done yet.
    Idle,
    /// Waiting for the configuration export.
    Exporting,
    /// Waiting for ShutOff after a graceful stop request.
    Stopping,
    /// Waiting for ShutOff after a forced stop request.
    ForcedStopping,
    /// The domain is off; waiting for its disk image to be located.
    Locating,
    /// Waiting for the image copy.
    Copying,
    /// Waiting for the size of the copied image.
    Validating,
    /// Waiting for a too-small artifact pair to be deleted.
    Discarding,
    /// Waiting for the domain to run again after a start request.
    Restarting,
    /// Waiting for the artifact pair to be entered in the catalog.
    Registering,
    /// The backup was made and cataloged and the domain runs again.
    Completed,
    /// The run ended without completing.
    Failed(FailReason),
}

/// What the run asks of the world next. Each request but `Finish` is answered
/// by one event: an export by `Exported`, a stop, start or poll by `Power`
/// (the state observed after waiting `wait_secs`), a lookup by `Located`, a
/// copy by `Copied`, a measurement by `Measured`, a deletion by `Deleted`, a
/// registration by `Registered`.
pub enum Action {
    ExportConfig { domain: String, dest: String },
    GracefulStop { domain: String, wait_secs: u32 },
    ForcedStop { domain: String, wait_secs: u32 },
    PollPower { domain: String, wait_secs: u32 },
    LocateDisk { domain: String },
    CopyImage { source: String, dest: String },
    MeasureArtifact { path: String },
    DeleteArtifacts { image: String, config: String },
    Start { domain: String, wait_secs: u32 },
    Register { domain: String, image: String, config: String },
    Finish { phase: Phase },
}

/// What the world reports back.
pub enum Event {
    Begin,
    Exported { ok: bool },
    Power { state: VirtualMachineState },
    Located { path: Option<String> },
    Copied { ok: bool },
    Measured { bytes: u64 },
    Deleted,
    Registered,
    /// The operator cancels the run while it waits on the domain's power state.
    Cancel,
}

/// One backup run of one domain: stop, copy, validate, restart, catalog.
pub struct BackupRun {
    pub domain: String,
    /// Where the image artifact is written.
    pub image_dest: String,
    /// Where the exported configuration is written.
    pub config_dest: String,
    pub limits: Limits,
    pub phase: Phase,
    /// Power observations left in the current wait, the awaited one included.
    pub polls_left: u32,
    /// A stop of the domain has been requested.
    pub stop_requested: bool,
    /// The domain was seen running after the restart request.
    pub restart_confirmed: bool,
    /// The image artifact reached the minimum size.
    pub validated: bool,
    /// The size measured for the image artifact.
    pub artifact_bytes: u64,
    /// The first failure of the run, kept through the restart that follows it.
    pub failure: Option<FailReason>,
    /// A copy of the disk image has been requested.
    pub copy_requested: bool,
    /// The artifact pair has been entered in the catalog.
    pub registered: bool,
}

/// Whether `e` answers what a run in phase `p` waits for.
pub open spec fn accepts(p: Phase, e: Event) -> bool {
    match (p, e) {
        (Phase::Idle, Event::Begin) => true,
        (Phase::Exporting, Event::Exported { .. }) => true,
        (Phase::Stopping, Event::Power { .. }) => true,
        (Phase::ForcedStopping, Event::Power { .. }) => true,
        (Phase::Locating, Event::Located { .. }) => true,
        (Phase::Copying, Event::Copied { .. }) => true,
        (Phase::Validating, Event::Measured { .. }) => true,
        (Phase::Discarding, Event::Deleted) => true,
        (Phase::Restarting, Event::Power { .. }) => true,
        (Phase::Registering, Event::Registered) => true,
        (Phase::Stopping, Event::Cancel) => true,
        (Phase::ForcedStopping, Event::Cancel) => true,
        (Phase::Restarting, Event::Cancel) => true,
        _ => false,
    }
}

pub open spec fn is_terminal(p: Phase) -> bool {
    p is Completed || p is Failed
}

/// Move to the restart after the domain has been stopped.
pub open spec fn restart(r: BackupRun, failure: Option<FailReason>) -> (BackupRun, Action) {
    (
        BackupRun { phase: Phase::Restarting, polls_left: r.limits.restart_polls, failure, ..r },
        Action::Start { domain: r.domain, wait_secs: r.limits.restart_interval_secs },
    )
}

/// End the run in phase `p`.
pub open spec fn finish(r: BackupRun, p: Phase) -> (BackupRun, Action) {
    (BackupRun { phase: p, ..r }, Action::Finish { phase: p })
}

/// The next state of a run and its next request, on event `e`. An event the
/// run does not wait for changes nothing. A cancellation while the domain is
/// being stopped still restarts it; one while the restart is awaited ends the
/// wait as a restart timeout would.
pub open spec fn transition(r: BackupRun, e: Event) -> (BackupRun, Action) {
    match (r.phase, e) {
        (Phase::Idle, Event::Begin) => (
            BackupRun { phase: Phase::Exporting, ..r },
            Action::ExportConfig { domain: r.domain, dest: r.config_dest },
        ),
        (Phase::Exporting, Event::Exported { ok }) => if ok {
            (
                BackupRun {
                    phase: Phase::Stopping,
                    polls_left: r.limits.shutdown_polls,
                    stop_requested: true,
                    ..r
                },
                Action::GracefulStop { domain: r.domain, wait_secs: r.limits.shutdown_interval_secs },
            )
        } else {
            finish(r, Phase::Failed(FailReason::ConfigExportFailed))
        },
        (Phase::Stopping, Event::Power { state }) => if state == VirtualMachineState::ShutOff {
            (BackupRun { phase: Phase::Locating, ..r }, Action::LocateDisk { domain: r.domain })
        } else if r.polls_left > 1 {
            (
                BackupRun { polls_left: (r.polls_left - 1) as u32, ..r },
                Action::PollPower { domain: r.domain, wait_secs: r.limits.shutdown_interval_secs },
            )
        } else {
            (
                BackupRun { phase: Phase::ForcedStopping, polls_left: r.limits.forced_polls, ..r },
                Action::ForcedStop { domain: r.domain, wait_secs: r.limits.forced_interval_secs },
            )
        },
        (Phase::ForcedStopping, Event::Power { state }) => if state == VirtualMachineState::ShutOff {
            (BackupRun { phase: Phase::Locating, ..r }, Action::LocateDisk { domain: r.domain })
        } else if r.polls_left > 1 {
            (
                BackupRun { polls_left: (r.polls_left - 1) as u32, ..r },
                Action::PollPower { domain: r.domain, wait_secs: r.limits.forced_interval_secs },
            )
        } else {
            finish(r, Phase::Failed(FailReason::ShutdownTimeout))
        },
        (Phase::Locating, Event::Located { path }) => match path {
            Some(source) => (
                BackupRun { phase: Phase::Copying, copy_requested: true, ..r },
                Action::CopyImage { source, dest: r.image_dest },
            ),
            None => restart(r, Some(FailReason::SourceMissing)),
        },
        (Phase::Copying, Event::Copied { ok }) => if ok {
            (BackupRun { phase: Phase::Validating, ..r }, Action::MeasureArtifact { path: r.image_dest })
        } else {
            restart(r, Some(FailReason::CopyError))
        },
        (Phase::Validating, Event::Measured { bytes }) => if bytes < r.limits.min_artifact_bytes {
            (
                BackupRun {
                    phase: Phase::Discarding,
                    artifact_bytes: bytes,
                    failure: Some(FailReason::ArtifactTooSmall),
                    ..r
                },
                Action::DeleteArtifacts { image: r.image_dest, config: r.config_dest },
            )
        } else {
            restart(BackupRun { validated: true, artifact_bytes: bytes, ..r }, r.failure)
        },
        (Phase::Discarding, Event::Deleted) => restart(r, r.failure),
        (Phase::Restarting, Event::Power { state }) => if state == VirtualMachineState::Running {
            let c = BackupRun { restart_confirmed: true, ..r };
            if r.validated {
                (
                    BackupRun { phase: Phase::Registering, ..c },
                    Action::Register { domain: r.domain, image: r.image_dest, config: r.config_dest },
                )
            } else {
                match r.failure {
                    Some(f) => finish(c, Phase::Failed(f)),
                    None => finish(c, Phase::Completed),
                }
            }
        } else if r.polls_left > 1 {
            (
                BackupRun { polls_left: (r.polls_left - 1) as u32, ..r },
                Action::PollPower { domain: r.domain, wait_secs: r.limits.restart_interval_secs },
            )
        } else if r.validated {
            (
                BackupRun { phase: Phase::Registering, ..r },
                Action::Register { domain: r.domain, image: r.image_dest, config: r.config_dest },
            )
        } else {
            finish(r, Phase::Failed(FailReason::RestartTimeout))
        },
        (Phase::Registering, Event::Registered) => if r.restart_confirmed {
            finish(BackupRun { registered: true, ..r }, Phase::Completed)
        } else {
            finish(BackupRun { registered: true, ..r }, Phase::Failed(FailReason::RestartTimeout))
        },
        (Phase::Stopping, Event::Cancel) => restart(r, Some(FailReason::Cancelled)),
        (Phase::ForcedStopping, Event::Cancel) => restart(r, Some(FailReason::Cancelled)),
        (Phase::Restarting, Event::Cancel) => if r.validated {
            (
                BackupRun { phase: Phase::Registering, ..r },
                Action::Register { domain: r.domain, image: r.image_dest, config: r.config_dest },
            )
        } else {
            finish(r, Phase::Failed(FailReason::RestartTimeout))
        },
        _ => (r, Action::Finish { phase: r.phase }),
    }
}

} // verus!

verus! {

impl BackupRun {
    /// A run that has done nothing yet.
    pub open spec fn is_fresh(&self) -> bool {
        &&& self.phase == Phase::Idle
        &&& !self.stop_requested
        &&& !self.restart_confirmed
        &&& !self.validated
        &&& self.failure is None
        &&& !self.copy_requested
        &&& !self.registered
    }

    /// A new run on `domain` that writes its artifacts to `image_dest` and
    /// `config_dest`.
    pub fn new(domain: String, image_dest: String, config_dest: String, limits: Limits) -> (r: Self)
        ensures
            r.is_fresh(),
            r.domain == domain,
            r.image_dest == image_dest,
            r.config_dest == config_dest,
            r.limits == limits,
    {
        BackupRun {
            domain,
            image_dest,
            config_dest,
            limits,
            phase: Phase::Idle,
            polls_left: 0,
            stop_requested: false,
            restart_confirmed: false,
            validated: false,
            artifact_bytes: 0,
            failure: None,
            copy_requested: false,
            registered: false,
        }
    }

    /// Whether the run has ended.
    pub fn is_done(&self) -> (r: bool)
        ensures
            r == is_terminal(self.phase),
    {
        match self.phase {
            Phase::Completed | Phase::Failed(_) => true,
            _ => false,
        }
    }

    /// Whether `e` answers what the run waits for.
    pub fn accepts(&self, e: &Event) -> (r: bool)
        ensures
            r == accepts(self.phase, *e),
    {
        match (self.phase, e) {
            (Phase::Idle, Event::Begin) => true,
            (Phase::Exporting, Event::Exported { .. }) => true,
            (Phase::Stopping, Event::Power { .. }) => true,
            (Phase::ForcedStopping, Event::Power { .. }) => true,
            (Phase::Locating, Event::Located { .. }) => true,
            (Phase::Copying, Event::Copied { .. }) => true,
            (Phase::Validating, Event::Measured { .. }) => true,
            (Phase::Discarding, Event::Deleted) => true,
            (Phase::Restarting, Event::Power { .. }) => true,
            (Phase::Registering, Event::Registered) => true,
            (Phase::Stopping, Event::Cancel) => true,
            (Phase::ForcedStopping, Event::Cancel) => true,
            (Phase::Restarting, Event::Cancel) => true,
            _ => false,
        }
    }

    fn restart(&mut self, failure: Option<FailReason>) -> (a: Action)
        ensures
            (*final(self), a) == restart(*old(self), failure),
    {
        self.phase = Phase::Restarting;
        self.polls_left = self.limits.restart_polls;
        self.failure = failure;
        Action::Start { domain: self.domain.clone(), wait_secs: self.limits.restart_interval_secs }
    }

    fn finish(&mut self, p: Phase) -> (a: Action)
        ensures
            (*final(self), a) == finish(*old(self), p),
    {
        self.phase = p;
        Action::Finish { phase: p }
    }

    fn register(&mut self) -> (a: Action)
        ensures
            *final(self) == (BackupRun { phase: Phase::Registering, ..*old(self) }),
            a == (Action::Register { domain: old(self).domain, image: old(self).image_dest, config: old(self).config_dest }),
    {
        self.phase = Phase::Registering;
        Action::Register {
            domain: self.domain.clone(),
            image: self.image_dest.clone(),
            config: self.config_dest.clone(),
        }
    }

    fn poll(&mut self, wait_secs: u32) -> (a: Action)
        requires
            old(self).polls_left > 0,
        ensures
            *final(self) == (BackupRun { polls_left: (old(self).polls_left - 1) as u32, ..*old(self) }),
            a == (Action::PollPower { domain: old(self).domain, wait_secs }),
    {
        self.polls_left = self.polls_left - 1;
        Action::PollPower { domain: self.domain.clone(), wait_secs }
    }

    /// Takes in the answer to the last request and returns the next request.
    pub fn step(&mut self, e: Event) -> (a: Action)
        requires
            accepts(old(self).phase, e),
        ensures
            (*final(self), a) == transition(*old(self), e),
    {
        match (self.phase, e) {
            (Phase::Idle, Event::Begin) => {
                self.phase = Phase::Exporting;
                Action::ExportConfig { domain: self.domain.clone(), dest: self.config_dest.clone() }
            },
            (Phase::Exporting, Event::Exported { ok }) => {
                if ok {
                    self.phase = Phase::Stopping;
                    self.polls_left = self.limits.shutdown_polls;
                    self.stop_requested = true;
                    Action::GracefulStop {
                        domain: self.domain.clone(),
                        wait_secs: self.limits.shutdown_interval_secs,
                    }
                } else {
                    self.finish(Phase::Failed(FailReason::ConfigExportFailed))
                }
            },
            (Phase::Stopping, Event::Power { state }) => {
                if state == VirtualMachineState::ShutOff {
                    self.phase = Phase::Locating;
                    Action::LocateDisk { domain: self.domain.clone() }
                } else if self.polls_left > 1 {
                    self.poll(self.limits.shutdown_interval_secs)
                } else {
                    self.phase = Phase::ForcedStopping;
                    self.polls_left = self.limits.forced_polls;
                    Action::ForcedStop {
                        domain: self.domain.clone(),
                        wait_secs: self.limits.forced_interval_secs,
                    }
                }
            },
            (Phase::ForcedStopping, Event::Power { state }) => {
                if state == VirtualMachineState::ShutOff {
                    self.phase = Phase::Locating;
                    Action::LocateDisk { domain: self.domain.clone() }
                } else if self.polls_left > 1 {
                    self.poll(self.limits.forced_interval_secs)
                } else {
                    self.finish(Phase::Failed(FailReason::ShutdownTimeout))
                }
            },
            (Phase::Locating, Event::Located { path }) => {
                match path {
                    Some(source) => {
                        self.phase = Phase::Copying;
                        self.copy_requested = true;
                        Action::CopyImage { source, dest: self.image_dest.clone() }
                    },
                    None => self.restart(Some(FailReason::SourceMissing)),
                }
            },
            (Phase::Copying, Event::Copied { ok }) => {
                if ok {
                    self.phase = Phase::Validating;
                    Action::MeasureArtifact { path: self.image_dest.clone() }
                } else {
                    self.restart(Some(FailReason::CopyError))
                }
            },
            (Phase::Validating, Event::Measured { bytes }) => {
                self.artifact_bytes = bytes;
                if bytes < self.limits.min_artifact_bytes {
                    self.phase = Phase::Discarding;
                    self.failure = Some(FailReason::ArtifactTooSmall);
                    Action::DeleteArtifacts {
                        image: self.image_dest.clone(),
                        config: self.config_dest.clone(),
                    }
                } else {
                    self.validated = true;
                    let f = self.failure;
                    self.restart(f)
                }
            },
            (Phase::Discarding, Event::Deleted) => {
                let f = self.failure;
                self.restart(f)
            },
            (Phase::Restarting, Event::Power { state }) => {
                if state == VirtualMachineState::Running {
                    self.restart_confirmed = true;
                    if self.validated {
                        self.register()
                    } else {
                        match self.failure {
                            Some(f) => self.finish(Phase::Failed(f)),
                            None => self.finish(Phase::Completed),
                        }
                    }
                } else if self.polls_left > 1 {
                    self.poll(self.limits.restart_interval_secs)
                } else if self.validated {
                    self.register()
                } else {
                    self.finish(Phase::Failed(FailReason::RestartTimeout))
                }
            },
            (Phase::Registering, Event::Registered) => {
                self.registered = true;
                if self.restart_confirmed {
                    self.finish(Phase::Completed)
                } else {
                    self.finish(Phase::Failed(FailReason::RestartTimeout))
                }
            },
            (Phase::Stopping, Event::Cancel) => self.restart(Some(FailReason::Cancelled)),
            (Phase::ForcedStopping, Event::Cancel) => self.restart(Some(FailReason::Cancelled)),
            (Phase::Restarting, Event::Cancel) => {
                if self.validated {
                    self.register()
                } else {
                    self.finish(Phase::Failed(FailReason::RestartTimeout))
                }
            },
            _ => Action::Finish { phase: self.phase },
        }
    }
}

} // verus!

verus! {

/// The state of a run after the events `es`, in order.
pub open spec fn run_after(r: BackupRun, es: Seq<Event>) -> BackupRun
    decreases es.len(),
{
    if es.len() == 0 {
        r
    } else {
        run_after(transition(r, es[0]).0, es.drop_first())
    }
}

/// The requests a run makes on the events `es`, in order.
pub open spec fn actions_after(r: BackupRun, es: Seq<Event>) -> Seq<Action>
    decreases es.len(),
{
    if es.len() == 0 {
        Seq::empty()
    } else {
        seq![transition(r, es[0]).1] + actions_after(transition(r, es[0]).0, es.drop_first())
    }
}

/// The phases before the restart request.
pub open spec fn before_restart(p: Phase) -> bool {
    p is Idle || p is Exporting || p is Stopping || p is ForcedStopping || p is Locating
        || p is Copying || p is Validating
}

/// A run that ended, for a reason other than a shutdown or restart timeout.
pub open spec fn ends_without_timeout(p: Phase) -> bool {
    match p {
        Phase::Completed => true,
        Phase::Failed(f) => f != FailReason::ShutdownTimeout && f != FailReason::RestartTimeout,
        _ => false,
    }
}

/// What holds of every state that a fresh run reaches.
pub open spec fn run_inv(r: BackupRun) -> bool {
    &&& (r.phase is Idle || r.phase is Exporting) ==> !r.stop_requested
    &&& before_restart(r.phase) ==> r.failure is None && !r.validated
    &&& r.phase is Discarding ==> !r.validated
    &&& r.phase is Registering ==> r.validated
    &&& r.phase is Completed ==> r.restart_confirmed
    &&& ends_without_timeout(r.phase) ==> !r.stop_requested || r.restart_confirmed
    &&& r.validated ==> r.failure is None && r.artifact_bytes >= r.limits.min_artifact_bytes
    &&& (r.phase is Idle || r.phase is Exporting || r.phase is Stopping || r.phase is ForcedStopping
        || r.phase is Locating) ==> !r.copy_requested
    &&& r.phase == Phase::Failed(FailReason::ShutdownTimeout) ==> !r.copy_requested
    &&& r.failure != Some(FailReason::ShutdownTimeout)
    &&& r.registered ==> is_terminal(r.phase) && r.validated
    &&& !is_terminal(r.phase) ==> !r.registered
    &&& r.phase is Completed ==> r.validated && r.registered
    &&& ((r.phase is Restarting || r.phase is Discarding) && !r.validated) ==> r.failure is Some
    &&& (r.phase == Phase::Failed(FailReason::RestartTimeout) && r.validated) ==> r.registered
}

proof fn lemma_step_keeps_inv(r: BackupRun, e: Event)
    requires
        run_inv(r),
    ensures
        run_inv(transition(r, e).0),
{
}

proof fn lemma_run_keeps_inv(r: BackupRun, es: Seq<Event>)
    requires
        run_inv(r),
    ensures
        run_inv(run_after(r, es)),
    decreases es.len(),
{
    if es.len() > 0 {
        lemma_step_keeps_inv(r, es[0]);
        lemma_run_keeps_inv(transition(r, es[0]).0, es.drop_first());
    }
}

/// A backup run never leaves a domain down that it stopped: whatever the
/// control plane reports, once the run has ended, other than by a shutdown
/// timeout (no copy was made) or a restart timeout (reported apart), either it
/// never asked the domain to stop or it has seen the domain running again.
pub proof fn lemma_domain_not_left_down(r: BackupRun, es: Seq<Event>)
    requires
        r.is_fresh(),
    ensures
        ends_without_timeout(run_after(r, es).phase) ==> !run_after(r, es).stop_requested
            || run_after(r, es).restart_confirmed,
{
    lemma_run_keeps_inv(r, es);
}

/// A run whose artifact was found too small.
pub open spec fn discarded(r: BackupRun) -> bool {
    &&& !r.validated
    &&& r.phase is Discarding || r.phase is Restarting || is_terminal(r.phase)
}

proof fn lemma_discarded_never_registers(r: BackupRun, es: Seq<Event>)
    requires
        discarded(r),
    ensures
        forall|k: int| 0 <= k < actions_after(r, es).len() ==> !(#[trigger] actions_after(r, es)[k] is Register),
    decreases es.len(),
{
    if es.len() > 0 {
        let (n, a) = transition(r, es[0]);
        lemma_discarded_never_registers(n, es.drop_first());
        let tail = actions_after(n, es.drop_first());
        assert(actions_after(r, es) == seq![a] + tail);
        assert forall|k: int| 0 <= k < actions_after(r, es).len() implies !(#[trigger] actions_after(r, es)[k] is Register) by {
            if k > 0 {
                assert(actions_after(r, es)[k] == tail[k - 1]);
            }
        }
    }
}

/// An image artifact below the minimum size is deleted together with its
/// configuration, and is never entered in the catalog, whatever follows.
pub proof fn lemma_small_artifact_discarded(r: BackupRun, bytes: u64, es: Seq<Event>)
    requires
        run_inv(r),
        r.phase == Phase::Validating,
        bytes < r.limits.min_artifact_bytes,
    ensures
        transition(r, Event::Measured { bytes }).1 == (Action::DeleteArtifacts { image: r.image_dest, config: r.config_dest }),
        forall|k: int| 0 <= k < actions_after(transition(r, Event::Measured { bytes }).0, es).len()
            ==> !(#[trigger] actions_after(transition(r, Event::Measured { bytes }).0, es)[k] is Register),
{
    lemma_discarded_never_registers(transition(r, Event::Measured { bytes }).0, es);
}

/// Every state that a fresh run reaches satisfies the run invariant.
pub proof fn lemma_reachable_inv(r: BackupRun, es: Seq<Event>)
    requires
        r.is_fresh(),
    ensures
        run_inv(run_after(r, es)),
{
    lemma_run_keeps_inv(r, es);
}

/// How a run ends, over whole runs: a shutdown timeout ends it with no copy
/// of the image ever requested; a completed run has a validated artifact pair
/// entered in the catalog; a restart timeout after a validated copy still
/// leaves that pair in the catalog; and a run that catalogs a pair validated it.
pub proof fn lemma_run_endings(r: BackupRun, es: Seq<Event>)
    requires
        r.is_fresh(),
    ensures
        run_after(r, es).phase == Phase::Failed(FailReason::ShutdownTimeout) ==> !run_after(r, es).copy_requested,
        run_after(r, es).phase is Completed ==> run_after(r, es).validated && run_after(r, es).registered,
        (run_after(r, es).phase == Phase::Failed(FailReason::RestartTimeout) && run_after(r, es).validated)
            ==> run_after(r, es).registered,
        run_after(r, es).registered ==> run_after(r, es).artifact_bytes >= r.limits.min_artifact_bytes,
{
    lemma_run_keeps_inv(r, es);
    lemma_run_keeps_limits(r, es);
}

proof fn lemma_run_keeps_limits(r: BackupRun, es: Seq<Event>)
    ensures
        run_after(r, es).limits == r.limits,
    decreases es.len(),
{
    if es.len() > 0 {
        lemma_run_keeps_limits(transition(r, es[0]).0, es.drop_first());
    }
}

} // verus!

verus! {

/// A run forces the domain off only where it was not seen ShutOff on the last
/// observation that the shutdown bound allows; it starts each wait with the
/// bound's count, and every further poll uses one up.
pub proof fn lemma_forced_stop_only_after_bound(r: BackupRun, e: Event)
    ensures
        transition(r, e).1 is ForcedStop ==> {
            &&& r.phase is Stopping
            &&& r.polls_left <= 1
            &&& e matches Event::Power { state } && state != VirtualMachineState::ShutOff
        },
        transition(r, e).1 is GracefulStop ==> transition(r, e).0.polls_left == r.limits.shutdown_polls,
        transition(r, e).1 is ForcedStop ==> transition(r, e).0.polls_left == r.limits.forced_polls,
        transition(r, e).1 is Start ==> transition(r, e).0.polls_left == r.limits.restart_polls,
        transition(r, e).1 is PollPower ==> transition(r, e).0.polls_left == r.polls_left - 1 && r.polls_left > 1,
{
}

} // verus!
