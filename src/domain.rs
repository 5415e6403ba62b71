use vstd::prelude::*;
use crate::metadata::{field_of, BackupXMLParser};

verus! {

/// The power state of a domain, as the control plane reports it.
#[derive(Clone, Copy, Debug, PartialEq, Eq, Structural)]
pub enum VirtualMachineState {
    Running,
    Idle,
    Paused,
    Shutdown,
    ShutOff,
    Crashed,
    Dying,
    PmSuspended,
    Undefined,
}

/// A virtual machine known by its unique name.
pub struct VM {
    pub name: String,
    pub state: VirtualMachineState,
}

impl VM {
    /// A domain with the given name and power state.
    pub fn new(name: String, state: VirtualMachineState) -> (r: Self)
        ensures
            r.name@ == name@,
            r.state == state,
    {
        VM { name, state }
    }

    /// The domain that a configuration document describes, known by the name
    /// the document gives (empty where it gives none), in a state not yet known.
    pub fn from_config(doc: &BackupXMLParser) -> (r: Self)
        ensures
            r.name@ == match field_of(doc.document(), "name"@) {
                Some(n) => n,
                None => Seq::<char>::empty(),
            },
            r.state == VirtualMachineState::Undefined,
    {
        let name = match doc.get_name() {
            Some(n) => n,
            None => String::new(),
        };
        VM::new(name, VirtualMachineState::Undefined)
    }

    /// Whether the domain was last seen running.
    pub fn is_running(&self) -> (r: bool)
        ensures
            r == (self.state == VirtualMachineState::Running),
    {
        self.state == VirtualMachineState::Running
    }
}

impl From<String> for VM {
    /// A domain known only by its name, in a state not yet known.
    fn from(name: String) -> (r: Self) {
        VM { name, state: VirtualMachineState::Undefined }
    }
}

impl vstd::std_specs::convert::FromSpecImpl<String> for VM {
    open spec fn obeys_from_spec() -> bool {
        true
    }

    open spec fn from_spec(name: String) -> VM {
        VM { name, state: VirtualMachineState::Undefined }
    }
}

} // verus!
