//! Backup and restore of virtual machines: the decisions behind stopping a
//! domain, copying its disk image, validating the copy, restarting the domain,
//! cataloguing the result and pruning old artifacts. The work itself (control
//! plane calls, copies, file system) is done by the caller, which feeds the
//! outcome of each request back into the state machines here.
pub mod calendar;
pub mod capacity;
pub mod catalog;
pub mod domain;
pub mod engine;
pub mod locator;
pub mod metadata;
pub mod orchestrator;
pub mod registry;
pub mod restore;
pub mod retention;
pub mod text;

pub use calendar::CivilDate;
pub use capacity::CapacityReport;
pub use catalog::{artifact_file_name, catalog_entry, find, latest, list, list_for_domain, parse_artifact_file_name, ArtifactPair};
pub use domain::{VirtualMachineState, VM};
pub use engine::{Action, BackupRun, Event, FailReason, Limits, Phase};
pub use locator::DiskLocator;
pub use metadata::{first_element_text, BackupXMLParser, XmlNode};
pub use orchestrator::{begin_backup, exit_code, left_down, plan_batch, BatchError, BeginError, Settings};
pub use registry::{AlreadyInProgress, RunRegistry};
pub use restore::{RestoreAction, RestoreEvent, RestorePhase, RestoreRun, RestoreStep};
pub use retention::{deletion_paths, expired_pairs};
