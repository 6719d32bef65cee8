//! Redaction of sensitive values in logs and debug output.

use vstd::prelude::*;
use vstd::string::StringSliceAdditionalSpecFns;
use vstd::utf8::{decode_utf8, encode_utf8, encode_utf8_decode_utf8, is_char_boundary};
use crate::text::{push_char, push_str};

verus! {

/// A wrapper that redacts sensitive values in logs and debug output.
///
/// The actual value is preserved for runtime use but hidden when displayed.
#[derive(Clone)]
pub struct RedactedValue<T> {
    inner: T,
}

/// What a redacted value displays as.
pub open spec fn redacted_text() -> Seq<char> {
    "[REDACTED]"@
}

impl<T> RedactedValue<T> {
    /// The value held.
    pub closed spec fn value(&self) -> T {
        self.inner
    }

    pub fn new(value: T) -> (r: Self)
        ensures
            r.value() == value,
    {
        Self { inner: value }
    }

    pub fn into_inner(self) -> (r: T)
        ensures
            r == self.value(),
    {
        self.inner
    }

    pub fn as_ref(&self) -> (r: &T)
        ensures
            *r == self.value(),
    {
        &self.inner
    }

    /// What the value displays as: always `[REDACTED]`.
    pub fn to_string(&self) -> (r: String)
        ensures
            r@ == redacted_text(),
    {
        String::from_str("[REDACTED]")
    }

    /// What the value's debug form is: always `[REDACTED]`.
    pub fn to_debug_string(&self) -> (r: String)
        ensures
            r@ == redacted_text(),
    {
        String::from_str("[REDACTED]")
    }
}

/// The text that a card number is redacted to: `****` for numbers shorter
/// than four bytes, otherwise `****` followed by the text of the last four
/// bytes.
pub open spec fn redacted_card(number: Seq<char>) -> Seq<char> {
    let bytes = encode_utf8(number);
    if bytes.len() < 4 {
        "****"@
    } else {
        "****"@ + decode_utf8(bytes.subrange(bytes.len() - 4, bytes.len() as int))
    }
}

/// Redact a card number, showing only last 4 digits. The last four bytes
/// must start on a character boundary (slicing there would panic otherwise).
pub fn redact_card(number: &str) -> (r: String)
    requires
        number.spec_bytes().len() < 4 || is_char_boundary(
            number.spec_bytes(),
            number.spec_bytes().len() - 4,
        ),
    ensures
        r@ == redacted_card(number@),
{
    let n = number.as_bytes().len();
    if n < 4 {
        return String::from_str("****");
    }
    let (_hidden, visible) = number.split_at(n - 4);
    proof {
        encode_utf8_decode_utf8(visible@);
    }
    let mut r = String::from_str("****");
    push_str(&mut r, visible);
    r
}

/// The position of the first `@` in `s`, if any.
pub open spec fn first_at(s: Seq<char>, i: int) -> bool {
    &&& 0 <= i < s.len()
    &&& s[i] == '@'
    &&& forall|j: int| 0 <= j < i ==> s[j] != '@'
}

/// The text that an e-mail address is redacted to: `***@` and what follows
/// the first `@`, or `***` when there is none.
pub open spec fn redacted_email(email: Seq<char>) -> Seq<char> {
    if exists|i: int| first_at(email, i) {
        let i = choose|i: int| first_at(email, i);
        "***@"@ + email.subrange(i + 1, email.len() as int)
    } else {
        "***"@
    }
}

/// Redact an email address, showing only domain.
pub fn redact_email(email: &str) -> (r: String)
    ensures
        r@ == redacted_email(email@),
{
    let n = email.unicode_len();
    let mut i: usize = 0;
    while i < n
        invariant
            n == email@.len(),
            i <= n,
            forall|j: int| 0 <= j < i ==> email@[j] != '@',
        decreases n - i,
    {
        if email.get_char(i) == '@' {
            proof {
                assert(first_at(email@, i as int));
                let k = choose|k: int| first_at(email@, k);
                if k < i {
                    assert(email@[k] != '@');
                }
                if k > i {
                    assert(email@[i as int] != '@');
                }
            }
            let domain = email.substring_char(i + 1, n);
            let mut r = String::from_str("***@");
            push_str(&mut r, domain);
            return r;
        }
        i = i + 1;
    }
    proof {
        if exists|k: int| first_at(email@, k) {
            let k = choose|k: int| first_at(email@, k);
            assert(email@[k] != '@');
        }
    }
    String::from_str("***")
}

} // verus!
