//! An API key that never shows its value in formatted output.

use vstd::prelude::*;

use crate::error::{ErrorLocation, RedactError};
use crate::text::{contains_seq, occurs_at};

verus! {

broadcast use vstd::string::group_string_axioms;

/// An API key whose value is reachable only through `as_str`.
#[derive(Clone)]
pub struct RedactedApiKey {
    inner: String,
}

/// What the debug form of every key reads.
pub open spec fn redacted_debug() -> Seq<char> {
    "RedactedApiKey([REDACTED])"@
}

/// What the display form of every key reads.
pub open spec fn redacted_display() -> Seq<char> {
    "[REDACTED API KEY]"@
}

impl View for RedactedApiKey {
    type V = Seq<char>;

    closed spec fn view(&self) -> Seq<char> {
        self.inner@
    }
}

/// Relies on zeroize's `Zeroize` for `String`: every byte of the buffer,
/// spare capacity included, is overwritten with zero and the length set to 0.
/// It only writes zeroes and clears, so it does not unwind.
#[verifier::external_body]
fn zeroize_text(s: &mut String)
    ensures
        final(s)@.len() == 0,
    opens_invariants none
    no_unwind
{
    zeroize::Zeroize::zeroize(s)
}

impl RedactedApiKey {
    /// Create a new redacted API key.
    pub fn new(key: String) -> (r: Self)
        ensures
            r@ == key@,
    {
        RedactedApiKey { inner: key }
    }

    /// The key's value, for sending it to the server.
    pub fn as_str(&self) -> (r: &str)
        ensures
            r@ == self@,
    {
        self.inner.as_str()
    }

    /// The key's length in bytes (safe to log).
    pub fn len(&self) -> (r: usize)
        ensures
            r == vstd::utf8::encode_utf8(self@).len() as usize,
    {
        self.inner.as_str().len()
    }

    /// Check if the key is empty.
    pub fn is_empty(&self) -> (r: bool)
        ensures
            r == (self@.len() == 0),
    {
        self.inner.as_str().is_empty()
    }

    /// The debug form: never the value.
    pub fn debug_text(&self) -> (r: String)
        ensures
            r@ == redacted_debug(),
    {
        "RedactedApiKey([REDACTED])".to_string()
    }

    /// The display form: never the value.
    pub fn display_text(&self) -> (r: String)
        ensures
            r@ == redacted_display(),
    {
        "[REDACTED API KEY]".to_string()
    }

    /// Serialization always fails: the value must be taken out through
    /// `as_str` on purpose.
    pub fn serialize(&self) -> (r: Result<(), RedactError>)
        ensures
            r matches Err(RedactError::Serialization { message, .. })
                && message@ == "RedactedApiKey cannot be serialized - use as_str() explicitly"@,
    {
        Err(RedactError::Serialization {
            message: "RedactedApiKey cannot be serialized - use as_str() explicitly".to_string(),
            location: ErrorLocation::raised_in("redacted_key"),
        })
    }

    /// Overwrite the key's storage with zeroes and leave it empty.
    pub fn wipe(&mut self)
        ensures
            final(self)@.len() == 0,
    {
        zeroize_text(&mut self.inner);
    }
}

impl Drop for RedactedApiKey {
    /// The storage is overwritten with zeroes before it is released.
    fn drop(&mut self)
        opens_invariants none
        no_unwind
    {
        zeroize_text(&mut self.inner);
    }
}

/// Every window of four characters of `s` is absent from `text`.
pub open spec fn no_window_of(s: Seq<char>, text: Seq<char>) -> bool {
    forall|i: int| 0 <= i && i + 4 <= s.len() ==> !contains_seq(text, #[trigger] s.subrange(i, i + 4))
}

/// The debug and display forms of a key hold no piece of the key that is
/// four characters or longer, whenever no four characters of the key spell
/// a piece of those fixed forms.
pub proof fn lemma_redaction(key: RedactedApiKey, i: int, j: int)
    requires
        no_window_of(key@, redacted_debug()),
        no_window_of(key@, redacted_display()),
        0 <= i,
        i + 4 <= j <= key@.len(),
    ensures
        !contains_seq(redacted_debug(), key@.subrange(i, j)),
        !contains_seq(redacted_display(), key@.subrange(i, j)),
{
    let w = key@.subrange(i, j);
    let w4 = key@.subrange(i, i + 4);
    assert forall|t: Seq<char>, p: int| occurs_at(t, w, p) implies occurs_at(t, w4, p) by {
        assert(t.subrange(p, p + 4) =~= t.subrange(p, p + w.len()).subrange(0, 4));
        assert(w4 =~= w.subrange(0, 4));
    }
    assert(!contains_seq(redacted_debug(), w4));
    assert(!contains_seq(redacted_display(), w4));
}

} // verus!
