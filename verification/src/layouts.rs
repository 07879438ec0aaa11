use vstd::prelude::*;

verus! {

/// A libhxcfe disk-layout loader, known by the address of its context.
pub struct LayoutManager {
    handler: usize,
}

impl LayoutManager {
    /// A manager for the layout context that libhxcfe made (`None` when it
    /// returned none, 0).
    pub fn new(handler: usize) -> (r: Option<Self>)
        ensures
            r is Some <==> handler != 0,
            r matches Some(m) ==> m.spec_handler() == handler,
    {
        if handler == 0 {
            None
        } else {
            Some(LayoutManager { handler })
        }
    }

    /// The address of the libhxcfe layout context.
    pub closed spec fn spec_handler(&self) -> usize {
        self.handler
    }

    /// The address of the libhxcfe layout context.
    pub fn handler(&self) -> (r: usize)
        ensures
            r == self.spec_handler(),
    {
        self.handler
    }
}

} // verus!
