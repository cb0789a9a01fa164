//! A validated ticket title: a wrapper around text that can only be built
//! through a checked constructor, so that every value satisfies the title
//! invariant — its UTF-8 byte length is strictly positive and at most
//! `MAX_TITLE_BYTES` — for as long as it lives.

use vstd::prelude::*;

verus! {

use vstd::utf8::encode_utf8;
use vstd::utf8::encode_scalar;

/// The largest number of bytes a title may hold.
pub const MAX_TITLE_BYTES: usize = 50;

/// The number of bytes in the UTF-8 encoding of a character sequence.
/// This is the length that `str::len` reports, as opposed to the number
/// of characters.
pub open spec fn byte_len(s: Seq<char>) -> nat {
    encode_utf8(s).len()
}

/// A character sequence is acceptable as a title when its UTF-8 encoding
/// is non-empty and no longer than `MAX_TITLE_BYTES` bytes.
pub open spec fn is_valid_title(s: Seq<char>) -> bool {
    0 < byte_len(s) <= MAX_TITLE_BYTES
}

/// The diagnostic for an empty title.
pub open spec fn empty_message() -> Seq<char> {
    "The title cannot be empty"@
}

/// The diagnostic for a title over the byte bound.
pub open spec fn too_long_message() -> Seq<char> {
    "The title cannot be longer than 50 bytes"@
}

/// The message that construction reports for a rejected character
/// sequence: emptiness is diagnosed first, excessive length second.
pub open spec fn rejection_message(s: Seq<char>) -> Seq<char> {
    if byte_len(s) == 0 {
        empty_message()
    } else {
        too_long_message()
    }
}

/// The UTF-8 encoding of a character sequence is empty exactly when the
/// sequence itself is: every character encodes to at least one byte.
proof fn lemma_byte_len_zero_iff_empty(s: Seq<char>)
    ensures
        byte_len(s) == 0 <==> s.len() == 0,
{
    if s.len() > 0 {
        assert(encode_utf8(s) == encode_scalar(s[0] as u32) + encode_utf8(s.drop_first()));
        assert(encode_scalar(s[0] as u32).len() >= 1);
    }
}

/// The reason a construction attempt was rejected. Carries nothing but a
/// human-readable message naming the invariant that was violated.
#[derive(Debug)]
pub struct TicketTitleError {
    message: String,
}

impl View for TicketTitleError {
    type V = Seq<char>;

    closed spec fn view(&self) -> Seq<char> {
        self.message@
    }
}

impl TicketTitleError {
    /// The diagnostic message.
    pub fn message(&self) -> (r: &str)
        ensures
            r@ == self@,
    {
        self.message.as_str()
    }
}

/// A title whose byte length has been checked. The checked constructors
/// `try_from` and `try_from_str` are the only way to obtain a value, so
/// the invariant holds for the lifetime of every instance.
#[derive(Debug)]
pub struct TicketTitle {
    text: String,
}

impl View for TicketTitle {
    type V = Seq<char>;

    closed spec fn view(&self) -> Seq<char> {
        self.text@
    }
}

impl TicketTitle {
    /// Every `TicketTitle` wraps text within the byte bounds.
    #[verifier::type_invariant]
    pub open spec fn wf(self) -> bool {
        is_valid_title(self@)
    }

    /// Checked construction from an owned text value: the single place
    /// where the invariant is enforced. The input is wrapped verbatim on
    /// success; an empty input is rejected before an overlong one.
    pub fn try_from(value: String) -> (r: Result<TicketTitle, TicketTitleError>)
        ensures
            r is Ok <==> is_valid_title(value@),
            r matches Ok(t) ==> t@ == value@,
            r matches Err(e) ==> e@ == rejection_message(value@),
    {
        proof {
            lemma_byte_len_zero_iff_empty(value@);
        }
        if value.as_str().is_empty() {
            Err(TicketTitleError { message: "The title cannot be empty".to_owned() })
        } else if value.as_str().as_bytes().len() > MAX_TITLE_BYTES {
            Err(TicketTitleError { message: "The title cannot be longer than 50 bytes".to_owned() })
        } else {
            Ok(TicketTitle { text: value })
        }
    }

    /// Checked construction from borrowed text: converts to an owned value
    /// and delegates to `try_from`, so the two entry points can never
    /// disagree on the same content.
    pub fn try_from_str(value: &str) -> (r: Result<TicketTitle, TicketTitleError>)
        ensures
            r is Ok <==> is_valid_title(value@),
            r matches Ok(t) ==> t@ == value@,
            r matches Err(e) ==> e@ == rejection_message(value@),
    {
        TicketTitle::try_from(value.to_owned())
    }

    /// The underlying text, exactly as it was given to the constructor.
    pub fn as_str(&self) -> (r: &str)
        ensures
            r@ == self@,
    {
        self.text.as_str()
    }
}

impl Clone for TicketTitle {
    /// Copies are structural: the clone duplicates the text.
    fn clone(&self) -> (r: TicketTitle)
        ensures
            r == *self,
    {
        proof {
            use_type_invariant(self);
        }
        TicketTitle { text: self.text.clone() }
    }
}

impl PartialEq for TicketTitle {
    /// Equality is structural: titles are equal when their text is.
    fn eq(&self, other: &TicketTitle) -> (r: bool) {
        self.text == other.text
    }
}

impl vstd::std_specs::cmp::PartialEqSpecImpl for TicketTitle {
    open spec fn obeys_eq_spec() -> bool {
        true
    }

    open spec fn eq_spec(&self, other: &TicketTitle) -> bool {
        self@ == other@
    }
}

} // verus!
