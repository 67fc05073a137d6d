//! Phantom-typed identifiers whose text is a ULID.

use std::marker::PhantomData;
use vstd::prelude::*;

verus! {

/// The value of one ULID character (Crockford base32, either case), or -1.
pub open spec fn ulid_digit(c: char) -> int {
    if '0' <= c && c <= '9' {
        c as int - '0' as int
    } else if 'A' <= c && c <= 'Z' {
        ulid_letter_digit(c as int - 'A' as int)
    } else if 'a' <= c && c <= 'z' {
        ulid_letter_digit(c as int - 'a' as int)
    } else {
        -1
    }
}

/// The value of the letter at offset `k` from 'A' (I, L, O and U are not digits).
pub open spec fn ulid_letter_digit(k: int) -> int {
    if 0 <= k && k <= 7 {
        k + 10
    } else if k == 9 || k == 10 {
        k + 9
    } else if k == 12 || k == 13 {
        k + 8
    } else if 15 <= k && k <= 19 {
        k + 7
    } else if 21 <= k && k <= 25 {
        k + 6
    } else {
        -1
    }
}

/// The upper-case character that encodes the digit `d` (0 to 31).
pub open spec fn ulid_char(d: int) -> char {
    let code: int = if d < 10 {
        '0' as int + d
    } else if d < 18 {
        'A' as int + d - 10
    } else if d < 20 {
        'A' as int + d - 9
    } else if d < 22 {
        'A' as int + d - 8
    } else if d < 27 {
        'A' as int + d - 7
    } else {
        'A' as int + d - 6
    };
    code as u32 as char
}

/// Text that decodes as a ULID: 26 base32 characters.
pub open spec fn is_ulid_text(s: Seq<char>) -> bool {
    s.len() == 26 && forall|i: int| 0 <= i < 26 ==> ulid_digit(#[trigger] s[i]) >= 0
}

/// The canonical text of the 128-bit value that `s` decodes to: upper case,
/// and the first digit reduced to the three bits that fit above the other 125.
pub open spec fn ulid_canonical(s: Seq<char>) -> Seq<char> {
    Seq::new(
        26,
        |i: int|
            if i == 0 {
                ulid_char(ulid_digit(s[0]) % 8)
            } else {
                ulid_char(ulid_digit(s[i]))
            },
    )
}

/// Text in the form that a generated or parsed identifier has.
pub open spec fn is_canonical_ulid(s: Seq<char>) -> bool {
    is_ulid_text(s) && ulid_canonical(s) == s
}

/// Relies on `ulid::Ulid::new` and `Ulid::to_string`: a fresh ULID from the
/// clock and the OS random source, written as 26 upper-case base32 digits
/// whose first digit holds the top three bits.
#[verifier::external_body]
fn fresh_ulid_text() -> (r: String)
    ensures
        is_canonical_ulid(r@),
{
    ulid::Ulid::new().to_string()
}

/// Relies on `ulid::Ulid::from_string` (base32 decoding of exactly 26
/// characters, either case, high bits beyond 128 dropped) and `Ulid::to_string`.
#[verifier::external_body]
fn canonical_ulid_text(s: &str) -> (r: Option<String>)
    ensures
        r is Some <==> is_ulid_text(s@),
        r is Some ==> r->0@ == ulid_canonical(s@),
{
    match ulid::Ulid::from_string(s) {
        Ok(u) => Some(u.to_string()),
        Err(_) => None,
    }
}

/// An identifier of a `T` record.
pub struct Id<T> {
    pub value: String,
    pub marker: PhantomData<T>,
}

impl<T> View for Id<T> {
    type V = Seq<char>;

    open spec fn view(&self) -> Seq<char> {
        self.value@
    }
}

/// The identifier text was not a ULID.
#[derive(Debug, Clone, Copy, PartialEq, Eq, Structural)]
pub struct InvalidId;

impl<T> Id<T> {
    /// The well-formedness of an identifier: canonical ULID text.
    pub open spec fn wf(&self) -> bool {
        is_canonical_ulid(self.value@)
    }

    /// A fresh identifier.
    pub fn gen() -> (r: Id<T>)
        ensures
            r.wf(),
    {
        Id { value: fresh_ulid_text(), marker: PhantomData }
    }

    /// Parses identifier text; both cases of the base32 letters are accepted.
    pub fn parse(s: &str) -> (r: Result<Id<T>, InvalidId>)
        ensures
            r is Ok <==> is_ulid_text(s@),
            r is Ok ==> r->Ok_0.value@ == ulid_canonical(s@) && r->Ok_0.wf(),
    {
        match canonical_ulid_text(s) {
            Some(text) => {
                proof {
                    lemma_canonical_is_canonical(s@);
                }
                Ok(Id { value: text, marker: PhantomData })
            },
            None => Err(InvalidId),
        }
    }

    pub fn as_str(&self) -> (r: &str)
        ensures
            r@ == self.value@,
    {
        self.value.as_str()
    }

    pub fn clone_id(&self) -> (r: Id<T>)
        ensures
            r.value@ == self.value@,
    {
        Id { value: self.value.clone(), marker: PhantomData }
    }
}

/// Canonical text is a fixed point of canonicalisation.
pub proof fn lemma_canonical_is_canonical(s: Seq<char>)
    requires
        is_ulid_text(s),
    ensures
        is_canonical_ulid(ulid_canonical(s)),
{
    let c = ulid_canonical(s);
    assert forall|i: int| 0 <= i < 26 implies ulid_digit(#[trigger] c[i]) >= 0 by {
        lemma_char_digit(if i == 0 { ulid_digit(s[0]) % 8 } else { ulid_digit(s[i]) });
    }
    assert forall|i: int| 0 <= i < 26 implies #[trigger] ulid_canonical(c)[i] == c[i] by {
        let d = if i == 0 { ulid_digit(s[0]) % 8 } else { ulid_digit(s[i]) };
        lemma_char_digit(d);
    }
    assert(ulid_canonical(c) =~= c);
}

/// Encoding a digit and decoding the character gives the digit back.
pub proof fn lemma_char_digit(d: int)
    requires
        0 <= d < 32,
    ensures
        ulid_digit(ulid_char(d)) == d,
{
}

} // verus!
