//! The Honeycomb API key.
use vstd::prelude::*;

verus! {

/// Honeycomb API key.
///
/// Its debugging text redacts the key, so it is safe to embed in other data structures.
pub struct HoneycombApiKey(String);

impl View for HoneycombApiKey {
    type V = Seq<char>;

    closed spec fn view(&self) -> Seq<char> {
        self.0@
    }
}

/// The debugging text of a key: it tells only whether the key is empty.
pub open spec fn redacted(key: Seq<char>) -> Seq<char> {
    if key.len() == 0 {
        "HoneycombApiKey(\"\")"@
    } else {
        "HoneycombApiKey(\"...\")"@
    }
}

impl HoneycombApiKey {
    pub fn new(api_key: String) -> (r: Self)
        ensures
            r@ == api_key@,
    {
        Self(api_key)
    }

    pub fn into_inner(self) -> (r: String)
        ensures
            r@ == self@,
    {
        self.0
    }

    pub fn secret(&self) -> (r: &str)
        ensures
            r@ == self@,
    {
        self.0.as_str()
    }

    /// The debugging text, which redacts the key.
    pub fn debug_text(&self) -> (r: &'static str)
        ensures
            r@ == redacted(self@),
    {
        let empty = String::new();
        assert(self@.len() == 0 ==> self@ =~= empty@);
        if self.0 == empty {
            "HoneycombApiKey(\"\")"
        } else {
            "HoneycombApiKey(\"...\")"
        }
    }
}

impl Clone for HoneycombApiKey {
    fn clone(&self) -> (r: Self)
        ensures
            r@ == self@,
    {
        HoneycombApiKey(self.0.clone())
    }
}

/// No two keys can be told apart by their debugging text, unless one of them is empty.
pub proof fn debug_text_keeps_the_secret(key: Seq<char>, other: Seq<char>)
    requires
        key.len() > 0,
        other.len() > 0,
    ensures
        redacted(key) == redacted(other),
        redacted(key) == "HoneycombApiKey(\"...\")"@,
{
}

} // verus!
