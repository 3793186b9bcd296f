//! The identifier of a Kratos self-service flow.
use vstd::prelude::*;

verus! {

/// The identifier of a self-service flow.
#[derive(Debug)]
pub struct FlowId {
    value: String,
}

impl View for FlowId {
    type V = Seq<char>;

    closed spec fn view(&self) -> Seq<char> {
        self.value@
    }
}

impl FlowId {
    pub fn new(value: &str) -> (r: FlowId)
        ensures
            r@ == value@,
    {
        FlowId { value: String::from_str(value) }
    }

    pub fn as_str(&self) -> (r: &str)
        ensures
            r@ == self@,
    {
        self.value.as_str()
    }
}

} // verus!
