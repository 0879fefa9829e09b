use vstd::prelude::*;

verus! {

/// The error type reported by every operation of the messaging core: worker
/// construction, message delivery, upkeep ticks and teardown all fail with a
/// `NetError` carrying a human-readable description.
#[derive(Debug)]
pub struct NetError {
    msg: String,
}

/// The result type of every operation of the messaging core.
pub type NetResult<T> = Result<T, NetError>;

impl View for NetError {
    type V = Seq<char>;

    closed spec fn view(&self) -> Seq<char> {
        self.msg@
    }
}

impl NetError {
    /// Builds an error whose description is exactly `msg`.
    pub fn from_str(msg: &str) -> (r: NetError)
        ensures
            r@ == msg@,
    {
        NetError { msg: msg.to_string() }
    }

    /// The error's description, unchanged from construction.
    pub fn message(&self) -> (r: &str)
        ensures
            r@ == self@,
    {
        self.msg.as_str()
    }
}

impl Clone for NetError {
    fn clone(&self) -> (r: Self)
        ensures
            r == *self,
    {
        NetError { msg: self.msg.clone() }
    }
}

} // verus!
