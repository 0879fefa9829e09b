use vstd::prelude::*;

verus! {

/// The message envelope carried across every interface boundary of the
/// messaging core. The core treats the payload as an opaque value: it is
/// moved, never inspected, and a relay forwards it without mutation. The
/// payload is kept in its serialized (JSON string) form.
#[derive(Debug)]
pub struct Protocol {
    json: String,
}

impl View for Protocol {
    type V = Seq<char>;

    closed spec fn view(&self) -> Seq<char> {
        self.json@
    }
}

impl Protocol {
    /// Wraps the given serialized payload in a message envelope.
    pub fn from_str(json: &str) -> (r: Protocol)
        ensures
            r@ == json@,
    {
        Protocol { json: json.to_string() }
    }

    /// The serialized payload, unchanged from construction.
    pub fn as_json_string(&self) -> (r: String)
        ensures
            r@ == self@,
    {
        self.json.clone()
    }
}

impl Clone for Protocol {
    fn clone(&self) -> (r: Self)
        ensures
            r == *self,
    {
        Protocol { json: self.json.clone() }
    }
}

} // verus!
