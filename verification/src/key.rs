use vstd::prelude::*;

verus! {

/// The name under which a handler is registered and by which a message is
/// routed to it.
#[derive(Debug, Hash)]
pub struct MessageKey(pub String);

impl View for MessageKey {
    type V = Seq<char>;

    open spec fn view(&self) -> Seq<char> {
        self.0@
    }
}

impl MessageKey {
    /// A key with the given name.
    pub fn new(key: &str) -> (r: Self)
        ensures
            r@ == key@,
    {
        MessageKey(key.to_string())
    }

    /// The key's name.
    pub fn as_str(&self) -> (r: &str)
        ensures
            r@ == self@,
    {
        self.0.as_str()
    }

    /// Whether two keys name the same handler.
    pub fn same(&self, other: &MessageKey) -> (r: bool)
        ensures
            r == (self@ == other@),
    {
        self.0 == other.0
    }
}

impl Clone for MessageKey {
    fn clone(&self) -> (r: Self)
        ensures
            r@ == self@,
    {
        MessageKey(self.0.clone())
    }
}

impl PartialEq for MessageKey {
    fn eq(&self, other: &Self) -> (r: bool) {
        self.0 == other.0
    }
}

impl vstd::std_specs::cmp::PartialEqSpecImpl for MessageKey {
    open spec fn obeys_eq_spec() -> bool {
        true
    }

    open spec fn eq_spec(&self, other: &MessageKey) -> bool {
        self@ == other@
    }
}

impl Eq for MessageKey {}

} // verus!
