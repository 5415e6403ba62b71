use vstd::prelude::*;
use crate::calendar::CivilDate;
use crate::capacity::CapacityReport;
use crate::catalog::{artifact_file_name, artifact_file_name_of, find, in_dir, join, ArtifactPair};
use crate::domain::VirtualMachineState;
use crate::engine::{BackupRun, Limits};
use crate::registry::{acquire, RunRegistry};
use crate::text::text_eq;

verus! {

/// Where things live and the policies that govern a batch.
pub struct Settings {
    /// Where live disk images live.
    pub image_root: String,
    /// Where live domain configurations live.
    pub config_root: String,
    /// Where image artifacts are written.
    pub backup_image_dir: String,
    /// Where configuration artifacts are written.
    pub backup_config_dir: String,
    /// The extension of disk images.
    pub image_ext: String,
    /// Artifacts strictly older than this many days are pruned.
    pub retention_days: u32,
    /// Retention windows, in days, that replace the default for some domains.
    pub retention_overrides: Vec<(String, u32)>,
    pub limits: Limits,
}

/// The retention window of `domain`: that of its first override, else the default.
pub open spec fn retention_of(overrides: Seq<(String, u32)>, default_days: u32, domain: Seq<char>) -> u32 {
    if exists|i: int| 0 <= i < overrides.len() && (#[trigger] overrides[i]).0@ == domain {
        let i = choose|i: int| 0 <= i < overrides.len() && (#[trigger] overrides[i]).0@ == domain
            && forall|j: int| 0 <= j < i ==> (#[trigger] overrides[j]).0@ != domain;
        overrides[i].1
    } else {
        default_days
    }
}

impl Settings {
    /// How many days the artifacts of `domain` are kept.
    pub fn retention_days_for(&self, domain: &str) -> (r: u32)
        ensures
            r == retention_of(self.retention_overrides@, self.retention_days, domain@),
    {
        let o = &self.retention_overrides;
        let mut i: usize = 0;
        while i < o.len()
            invariant
                o@ == self.retention_overrides@,
                i <= o.len(),
                forall|j: int| 0 <= j < i ==> (#[trigger] o@[j]).0@ != domain@,
            decreases o.len() - i,
        {
            if text_eq(o[i].0.as_str(), domain) {
                proof {
                    assert(0 <= i < o@.len() && o@[i as int].0@ == domain@
                        && forall|j: int| 0 <= j < i ==> (#[trigger] o@[j]).0@ != domain@);
                    let k = choose|k: int| 0 <= k < o@.len() && (#[trigger] o@[k]).0@ == domain@
                        && forall|j: int| 0 <= j < k ==> (#[trigger] o@[j]).0@ != domain@;
                    if k < i {
                        assert(o@[k].0@ != domain@);
                    } else if k > i {
                        assert(o@[i as int].0@ != domain@);
                    }
                }
                let days = o[i].1;
                assert(days == o@[i as int].1);
                return days;
            }
            i = i + 1;
        }
        self.retention_days
    }

    /// Where the image artifact of `domain` on `date` goes.
    pub fn image_artifact_path(&self, domain: &str, date: &CivilDate) -> (r: String)
        ensures
            r@ == in_dir(self.backup_image_dir@, artifact_file_name_of(domain@, date.year as int, date.month as int, date.day as int, self.image_ext@)),
    {
        let name = artifact_file_name(domain, date, self.image_ext.as_str());
        join(self.backup_image_dir.as_str(), name.as_str())
    }

    /// Where the configuration artifact of `domain` on `date` goes.
    pub fn config_artifact_path(&self, domain: &str, date: &CivilDate) -> (r: String)
        ensures
            r@ == in_dir(self.backup_config_dir@, artifact_file_name_of(domain@, date.year as int, date.month as int, date.day as int, "xml"@)),
    {
        let name = artifact_file_name(domain, date, "xml");
        join(self.backup_config_dir.as_str(), name.as_str())
    }
}

/// A batch that cannot start.
#[derive(Clone, Copy, Debug, PartialEq, Eq, Structural)]
pub enum BatchError {
    /// The destination lacks room for all the candidate images.
    InsufficientSpace { required_bytes: u64, available_bytes: u64 },
}

/// Whether a batch with this report may start.
pub open spec fn batch_admitted(report: CapacityReport) -> bool {
    report.required_bytes <= report.available_bytes
}

/// Hands back the domains to back up, in order, or refuses the whole batch,
/// before any domain is touched, where the destination lacks room.
pub fn plan_batch(domains: Vec<String>, report: &CapacityReport) -> (r: Result<Vec<String>, BatchError>)
    ensures
        r is Ok <==> batch_admitted(*report),
        r matches Ok(d) ==> d@ == domains@,
        r matches Err(e) ==> e == (BatchError::InsufficientSpace {
            required_bytes: report.required_bytes,
            available_bytes: report.available_bytes,
        }),
{
    if report.is_sufficient() {
        Ok(domains)
    } else {
        Err(BatchError::InsufficientSpace {
            required_bytes: report.required_bytes,
            available_bytes: report.available_bytes,
        })
    }
}

/// A batch whose images need more room than the destination has is refused
/// as a whole: no domain of it is handed out, so none is stopped.
pub proof fn lemma_insufficient_space_refused(report: CapacityReport)
    requires
        report.required_bytes > report.available_bytes,
    ensures
        !batch_admitted(report),
{
}

/// A backup run that could not begin; nothing was changed.
#[derive(Clone, Copy, Debug, PartialEq, Eq, Structural)]
pub enum BeginError {
    /// A run on the same domain is under way.
    AlreadyInProgress,
    /// The domain already has a backup of today: a second one the same day is refused.
    AlreadyBackedUpToday,
}

/// Whether the catalog holds a pair of `domain` on the day numbered `ordinal`.
pub open spec fn has_pair_on(pairs: Seq<ArtifactPair>, domain: Seq<char>, ordinal: i32) -> bool {
    exists|i: int| 0 <= i < pairs.len() && #[trigger] pairs[i].domain@ == domain && pairs[i].date.ordinal == ordinal
}

/// Begins a backup of `domain` on `today`, holding its lock for the run.
/// Refused at once, with nothing changed, where a run on the domain is under
/// way or the domain already has a backup of today.
pub fn begin_backup(
    settings: &Settings,
    registry: &mut RunRegistry,
    catalog: &Vec<ArtifactPair>,
    domain: String,
    today: &CivilDate,
) -> (r: Result<BackupRun, BeginError>)
    requires
        old(registry).wf(),
    ensures
        final(registry).wf(),
        old(registry).held().contains(domain@) ==> r == Err::<BackupRun, BeginError>(BeginError::AlreadyInProgress),
        !old(registry).held().contains(domain@) && has_pair_on(catalog@, domain@, today.ordinal)
            ==> r == Err::<BackupRun, BeginError>(BeginError::AlreadyBackedUpToday),
        !old(registry).held().contains(domain@) && !has_pair_on(catalog@, domain@, today.ordinal) ==> r is Ok,
        r is Err ==> final(registry).held() == old(registry).held(),
        r matches Ok(run) ==> {
            &&& !old(registry).held().contains(domain@)
            &&& !has_pair_on(catalog@, domain@, today.ordinal)
            &&& final(registry).held() == acquire(old(registry).held(), domain@).0
            &&& run.is_fresh()
            &&& run.domain == domain
            &&& run.limits == settings.limits
            &&& run.image_dest@ == in_dir(settings.backup_image_dir@, artifact_file_name_of(domain@,
                today.year as int, today.month as int, today.day as int, settings.image_ext@))
            &&& run.config_dest@ == in_dir(settings.backup_config_dir@, artifact_file_name_of(domain@,
                today.year as int, today.month as int, today.day as int, "xml"@))
        },
{
    if registry.is_active(domain.as_str()) {
        return Err(BeginError::AlreadyInProgress);
    }
    if find(catalog, domain.as_str(), today.ordinal).is_some() {
        return Err(BeginError::AlreadyBackedUpToday);
    }
    let image = settings.image_artifact_path(domain.as_str(), today);
    let config = settings.config_artifact_path(domain.as_str(), today);
    let held = registry.try_acquire(domain.clone());
    assert(held is Ok);
    Ok(BackupRun::new(domain, image, config, settings.limits))
}

/// How a batch ended, as the process reports it: 0 when every domain was
/// backed up, 1 when some failed, 2 when the batch could not start.
pub fn exit_code(batch_refused: bool, failed_domains: usize) -> (r: u8)
    ensures
        r == (if batch_refused { 2u8 } else if failed_domains > 0 { 1u8 } else { 0u8 }),
{
    if batch_refused {
        2
    } else if failed_domains > 0 {
        1
    } else {
        0
    }
}

/// Whether a domain that was running before the batch is not running after
/// it: raised as a high-priority alert, apart from ordinary backup failures.
pub fn left_down(before: VirtualMachineState, after: VirtualMachineState) -> (r: bool)
    ensures
        r == (before == VirtualMachineState::Running && after != VirtualMachineState::Running),
{
    before == VirtualMachineState::Running && after != VirtualMachineState::Running
}

} // verus!
