//! Types shared by every backend: surrounding text, cursors, capabilities
//! and the platform error.
use vstd::prelude::*;
use vstd::utf8::*;
use vstd::string::*;
use crate::text::{char_len, owned, push_decimal, push_str, spec_decimal};

verus! {

/// `std::io::Error`, carried by [`PlatformError::Io`].
#[verifier::external_type_specification]
#[verifier::external_body]
pub struct ExIoError(std::io::Error);

/// Errors a backend reports to the daemon.
#[derive(Debug)]
pub enum PlatformError {
    DBus(String),
    Wayland(String),
    X11(String),
    ConnectionLost,
    NotSupported,
    Io(std::io::Error),
    Serialize(String),
    InvalidSurroundingText(String),
    SurroundingTextUnavailable,
    BadCursorOffset,
}

/// Text surrounding the current cursor position, as reported by the application.
#[derive(Debug, Clone, Default)]
pub struct SurroundingText {
    /// The text surrounding the cursor in the focused widget.
    pub text: String,
    /// UTF-8 byte offset into `text`.
    pub cursor_pos: u32,
    /// UTF-8 byte offset of the selection anchor.
    pub anchor_pos: u32,
}

/// The UTF-8 bytes of a character sequence.
pub open spec fn utf8_bytes(s: Seq<char>) -> Seq<u8> {
    encode_utf8(s)
}

/// `off` is a byte offset into `s` that lands on a character boundary.
pub open spec fn is_boundary_offset(s: Seq<char>, off: int) -> bool {
    &&& off <= utf8_bytes(s).len()
    &&& is_char_boundary(utf8_bytes(s), off)
}

/// Both offsets of a surrounding-text report are in range and on boundaries.
pub open spec fn surrounding_valid(st: SurroundingText) -> bool {
    &&& is_boundary_offset(st.text@, st.cursor_pos as int)
    &&& is_boundary_offset(st.text@, st.anchor_pos as int)
}

/// The message of the error for an offset past the end of the text.
pub open spec fn exceeds_message(what: Seq<char>, off: nat, len: nat) -> Seq<char> {
    what + " "@ + spec_decimal(off) + " exceeds text length "@ + spec_decimal(len)
}

/// The message of the error for an offset inside a character.
pub open spec fn not_boundary_message(what: Seq<char>, off: nat) -> Seq<char> {
    what + " "@ + spec_decimal(off) + " is not a UTF-8 character boundary"@
}

/// The error `validate` reports for one offset, if any.
pub open spec fn offset_error(what: Seq<char>, text: Seq<char>, off: nat) -> Option<Seq<char>> {
    if off > utf8_bytes(text).len() {
        Some(exceeds_message(what, off, utf8_bytes(text).len()))
    } else if !is_char_boundary(utf8_bytes(text), off as int) {
        Some(not_boundary_message(what, off))
    } else {
        None
    }
}

fn offset_message(what: &str, off: u64, len: u64, exceeds: bool) -> (m: String)
    ensures
        exceeds ==> m@ == exceeds_message(what@, off as nat, len as nat),
        !exceeds ==> m@ == not_boundary_message(what@, off as nat),
{
    let mut m = owned(what);
    push_str(&mut m, " ");
    push_decimal(&mut m, off);
    if exceeds {
        push_str(&mut m, " exceeds text length ");
        push_decimal(&mut m, len);
    } else {
        push_str(&mut m, " is not a UTF-8 character boundary");
    }
    m
}

impl SurroundingText {
    /// Check that `cursor_pos` and `anchor_pos` are within bounds and on valid
    /// UTF-8 character boundaries; the cursor is checked first.
    pub fn validate(&self) -> (r: Result<(), PlatformError>)
        ensures
            r is Ok <==> surrounding_valid(*self),
            offset_error("cursor_pos"@, self.text@, self.cursor_pos as nat) is Some ==> (r matches Err(
                PlatformError::InvalidSurroundingText(e))
                && e@ == offset_error("cursor_pos"@, self.text@, self.cursor_pos as nat)->0),
            (offset_error("cursor_pos"@, self.text@, self.cursor_pos as nat) is None
                && offset_error("anchor_pos"@, self.text@, self.anchor_pos as nat) is Some) ==> (
            r matches Err(PlatformError::InvalidSurroundingText(e))
                && e@ == offset_error("anchor_pos"@, self.text@, self.anchor_pos as nat)->0),
    {
        let text = self.text.as_str();
        let len = text.as_bytes().len();
        proof {
            assert(text.spec_bytes() == utf8_bytes(text@));
        }
        let cursor = self.cursor_pos as usize;
        let anchor = self.anchor_pos as usize;
        if cursor > len {
            return Err(PlatformError::InvalidSurroundingText(
                offset_message("cursor_pos", cursor as u64, len as u64, true)));
        }
        if !text.is_char_boundary(cursor) {
            return Err(PlatformError::InvalidSurroundingText(
                offset_message("cursor_pos", cursor as u64, len as u64, false)));
        }
        if anchor > len {
            return Err(PlatformError::InvalidSurroundingText(
                offset_message("anchor_pos", anchor as u64, len as u64, true)));
        }
        if !text.is_char_boundary(anchor) {
            return Err(PlatformError::InvalidSurroundingText(
                offset_message("anchor_pos", anchor as u64, len as u64, false)));
        }
        Ok(())
    }
}

/// Character-count cursor position passed to a backend's preedit update:
/// the number of Unicode scalar values before the insertion point.
#[derive(Debug, Clone, Copy, PartialEq, Eq, Default, Structural)]
pub struct CharCursor(pub usize);

/// The [`CharCursor`] for the end of `s`.
pub fn char_cursor(s: &str) -> (c: CharCursor)
    ensures
        c.0 == s@.len(),
{
    CharCursor(char_len(s))
}

/// Capabilities advertised by or requested from the application / compositor.
#[derive(Debug, Clone, Copy, PartialEq, Eq, Default, Structural)]
pub struct Capabilities {
    pub surrounding_text: bool,
    pub preedit: bool,
    pub lookup_table: bool,
}

} // verus!
