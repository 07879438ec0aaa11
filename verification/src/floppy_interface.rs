use vstd::prelude::*;

use crate::Hxcfe;

verus! {

/// A floppy interface mode of libhxcfe: its number, its name (such as
/// `IBMPC_DD_FLOPPYMODE`) and its description, as libhxcfe's mode table gives
/// them.
#[derive(Debug)]
pub struct InterfaceMode {
    id: i32,
    name: String,
    description: String,
}

impl InterfaceMode {
    /// A mode with the given number, name and description.
    pub fn new(id: i32, name: String, description: String) -> (r: Self)
        ensures
            r.spec_id() == id,
            r.spec_name() == name@,
            r.spec_description() == description@,
    {
        InterfaceMode { id, name, description }
    }

    /// The mode's number.
    pub closed spec fn spec_id(&self) -> i32 {
        self.id
    }

    /// The mode's name.
    pub closed spec fn spec_name(&self) -> Seq<char> {
        self.name@
    }

    /// The mode's description.
    pub closed spec fn spec_description(&self) -> Seq<char> {
        self.description@
    }

    /// The mode's number, as `mode as i32` gives it.
    pub fn id(&self) -> (r: i32)
        ensures
            r == self.spec_id(),
    {
        self.id
    }

    /// The mode's name.
    pub fn mode_name(&self) -> (r: &str)
        ensures
            r@ == self.spec_name(),
    {
        self.name.as_str()
    }

    /// The mode's description.
    pub fn description(&self) -> (r: &str)
        ensures
            r@ == self.spec_description(),
    {
        self.description.as_str()
    }
}

impl Clone for InterfaceMode {
    fn clone(&self) -> (r: Self)
        ensures
            r == *self,
    {
        InterfaceMode { id: self.id, name: self.name.clone(), description: self.description.clone() }
    }
}

/// A floppy interface of the libhxcfe context, for one interface mode.
pub struct FloppyInterface<'hfe> {
    mode: InterfaceMode,
    hfe: &'hfe Hxcfe,
}

impl<'hfe> FloppyInterface<'hfe> {
    /// The interface for `mode`. Every mode has one, so the result is always
    /// `Some`.
    pub fn new(hfe: &'hfe Hxcfe, mode: InterfaceMode) -> (r: Option<FloppyInterface<'hfe>>)
        ensures
            r matches Some(i) && i.spec_mode() == mode,
    {
        Some(FloppyInterface { mode, hfe })
    }

    /// The interface's mode.
    pub closed spec fn spec_mode(&self) -> InterfaceMode {
        self.mode
    }

    /// The interface's mode.
    pub fn mode(&self) -> (r: InterfaceMode)
        ensures
            r == self.spec_mode(),
    {
        self.mode.clone()
    }

    /// The name of the interface's mode.
    pub fn name(&self) -> (r: &str)
        ensures
            r@ == self.spec_mode().spec_name(),
    {
        self.mode.mode_name()
    }

    /// The description of the interface's mode.
    pub fn description(&self) -> (r: &str)
        ensures
            r@ == self.spec_mode().spec_description(),
    {
        self.mode.description()
    }
}

} // verus!
