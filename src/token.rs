//! The validated bearer credential.

use vstd::prelude::*;
use crate::error::{is_invalid_request, Auth0Error, Result};
use crate::text::has_substring;

verus! {

/// Characters with the Unicode `White_Space` property.
pub open spec fn is_white_space(c: char) -> bool {
    ('\u{9}' <= c && c <= '\u{d}') || c == ' ' || c == '\u{85}' || c == '\u{a0}'
        || c == '\u{1680}' || ('\u{2000}' <= c && c <= '\u{200a}') || c == '\u{2028}'
        || c == '\u{2029}' || c == '\u{202f}' || c == '\u{205f}' || c == '\u{3000}'
}

/// Some character of `s` is white space.
pub open spec fn has_white_space(s: Seq<char>) -> bool {
    exists|i: int| 0 <= i < s.len() && is_white_space(#[trigger] s[i])
}

/// Whether `c` is white space in the sense of `char::is_whitespace`.
fn char_is_white_space(c: char) -> (r: bool)
    ensures
        r == is_white_space(c),
{
    ('\u{9}' <= c && c <= '\u{d}') || c == ' ' || c == '\u{85}' || c == '\u{a0}' || c == '\u{1680}'
        || ('\u{2000}' <= c && c <= '\u{200a}') || c == '\u{2028}' || c == '\u{2029}'
        || c == '\u{202f}' || c == '\u{205f}' || c == '\u{3000}'
}

/// The text that stands for a credential in every debug rendering.
pub open spec fn redacted_debug_text() -> Seq<char> {
    "BearerToken { inner: \"[REDACTED]\" }"@
}

/// The text that stands for a credential wherever it is displayed.
pub open spec fn redaction_marker() -> Seq<char> {
    "[REDACTED]"@
}

/// The first rule that `t` breaks, as the message that reports it.
pub open spec fn token_rejection(t: Seq<char>) -> Option<Seq<char>> {
    if t.len() == 0 {
        Some("Bearer token cannot be empty"@)
    } else if has_white_space(t) {
        Some("Bearer token cannot contain whitespace"@)
    } else {
        None
    }
}

/// The debug rendering of every credential is the same fixed text (see
/// `to_debug_string`), which holds the redaction marker; a credential
/// longer than that text never shows in it. (One that is itself part of
/// the fixed text, such as `REDACTED`, does.)
pub proof fn lemma_debug_rendering_redacted(t: BearerToken)
    ensures
        has_substring(redacted_debug_text(), redaction_marker()),
        t@.len() > redacted_debug_text().len() ==> !has_substring(redacted_debug_text(), t@),
{
    reveal_strlit("BearerToken { inner: \"[REDACTED]\" }");
    reveal_strlit("[REDACTED]");
    assert(redacted_debug_text().subrange(22, 22 + redaction_marker().len() as int) =~= redaction_marker());
}

/// A non-empty bearer token without white space. It never shows its value
/// when rendered.
#[derive(Clone)]
pub struct BearerToken {
    inner: String,
}

impl View for BearerToken {
    type V = Seq<char>;

    closed spec fn view(&self) -> Seq<char> {
        self.inner@
    }
}

impl<'a> TryFrom<&'a str> for BearerToken {
    type Error = Auth0Error;

    /// Validates the text, as [`BearerToken::new`] does.
    fn try_from(value: &'a str) -> (r: Result<BearerToken>)
        ensures
            match token_rejection(value@) {
                Some(msg) => is_invalid_request(r, msg),
                None => r matches Ok(t) && t@ == value@,
            },
    {
        BearerToken::new(value)
    }
}

/// The exact result is stated on `try_from` itself: its error message is a
/// `String`, which no spec function can build.
impl<'a> vstd::std_specs::convert::TryFromSpecImpl<&'a str> for BearerToken {
    open spec fn obeys_try_from_spec() -> bool {
        false
    }

    open spec fn try_from_spec(value: &'a str) -> Result<BearerToken> {
        arbitrary()
    }
}

impl TryFrom<String> for BearerToken {
    type Error = Auth0Error;

    /// Validates the text, as [`BearerToken::new`] does.
    fn try_from(value: String) -> (r: Result<BearerToken>)
        ensures
            match token_rejection(value@) {
                Some(msg) => is_invalid_request(r, msg),
                None => r matches Ok(t) && t@ == value@,
            },
    {
        BearerToken::new(value.as_str())
    }
}

/// The exact result is stated on `try_from` itself: its error message is a
/// `String`, which no spec function can build.
impl vstd::std_specs::convert::TryFromSpecImpl<String> for BearerToken {
    open spec fn obeys_try_from_spec() -> bool {
        false
    }

    open spec fn try_from_spec(value: String) -> Result<BearerToken> {
        arbitrary()
    }
}

impl BearerToken {
    pub fn new(token: &str) -> (r: Result<BearerToken>)
        ensures
            match token_rejection(token@) {
                Some(msg) => is_invalid_request(r, msg),
                None => r matches Ok(t) && t@ == token@,
            },
    {
        let n = token.unicode_len();
        if n == 0 {
            return Err(Auth0Error::InvalidRequest(String::from_str("Bearer token cannot be empty")));
        }
        let mut i: usize = 0;
        while i < n
            invariant
                n == token@.len(),
                i <= n,
                forall|j: int| 0 <= j < i ==> !is_white_space(#[trigger] token@[j]),
            decreases n - i,
        {
            if char_is_white_space(token.get_char(i)) {
                return Err(
                    Auth0Error::InvalidRequest(String::from_str("Bearer token cannot contain whitespace")),
                );
            }
            i = i + 1;
        }
        Ok(BearerToken { inner: String::from_str(token) })
    }

    pub fn as_str(&self) -> (r: &str)
        ensures
            r@ == self@,
    {
        self.inner.as_str()
    }

    /// The debug rendering: the same fixed text for every credential.
    pub fn to_debug_string(&self) -> (r: String)
        ensures
            r@ == redacted_debug_text(),
    {
        String::from_str("BearerToken { inner: \"[REDACTED]\" }")
    }

    /// The display rendering: the redaction marker alone.
    pub fn to_string(&self) -> (r: String)
        ensures
            r@ == redaction_marker(),
    {
        String::from_str("[REDACTED]")
    }
}

} // verus!
