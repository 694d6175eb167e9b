use vstd::prelude::*;

verus! {

/// The one error kind of this library: building or changing a tray or its
/// menu failed.
#[derive(Debug, PartialEq, Eq)]
pub struct TIError {
    msg: String,
}

impl TIError {
    pub closed spec fn spec_message(&self) -> Seq<char> {
        self.msg@
    }

    pub fn new(msg: &str) -> (r: TIError)
        ensures
            r.spec_message() == msg@,
    {
        TIError { msg: msg.to_owned() }
    }

    /// The text that says what went wrong.
    pub fn message(&self) -> (r: String)
        ensures
            r@ == self.spec_message(),
    {
        self.msg.clone()
    }
}

} // verus!
