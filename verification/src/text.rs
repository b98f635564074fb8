//! Small verified string primitives shared by the closed-set parsers,
//! the selector globs and the diagnostic composers.

use vstd::prelude::*;
use vstd::string::StringSliceAdditionalSpecFns;
use vstd::utf8::*;

verus! {

broadcast use encode_utf8_decode_utf8;

/// Exact equality of two string slices, decided byte by byte over
/// their UTF-8 encodings.
pub fn str_eq(a: &str, b: &str) -> (r: bool)
    ensures
        r == (a@ == b@),
{
    let ab = a.as_bytes();
    let bb = b.as_bytes();
    if ab.len() != bb.len() {
        proof {
            if a@ == b@ {
                assert(a.spec_bytes() == b.spec_bytes());
            }
        }
        return false;
    }
    let n = ab.len();
    let mut i: usize = 0;
    while i < n
        invariant
            n == ab@.len(),
            n == bb@.len(),
            ab@ == a.spec_bytes(),
            bb@ == b.spec_bytes(),
            0 <= i <= n,
            forall|j: int| 0 <= j < i ==> ab@[j] == bb@[j],
        decreases n - i,
    {
        if ab[i] != bb[i] {
            proof {
                if a@ == b@ {
                    assert(a.spec_bytes() == b.spec_bytes());
                    assert(false);
                }
            }
            return false;
        }
        i = i + 1;
    }
    proof {
        assert(ab@ =~= bb@);
        assert(decode_utf8(encode_utf8(a@)) == a@);
        assert(decode_utf8(encode_utf8(b@)) == b@);
    }
    true
}

/// The characters of `s`, in order.
pub fn chars_of(s: &str) -> (v: Vec<char>)
    ensures
        v@ == s@,
{
    let n = s.unicode_len();
    let mut v: Vec<char> = Vec::new();
    let mut i: usize = 0;
    while i < n
        invariant
            n == s@.len(),
            0 <= i <= n,
            v@ == s@.subrange(0, i as int),
        decreases n - i,
    {
        let c = s.get_char(i);
        v.push(c);
        i = i + 1;
        assert(v@ =~= s@.subrange(0, i as int));
    }
    assert(v@ =~= s@);
    v
}

/// `value` begins with the characters of `prefix`.
pub open spec fn seq_starts_with(value: Seq<char>, prefix: Seq<char>) -> bool {
    prefix.len() <= value.len() && value.subrange(0, prefix.len() as int) =~= prefix
}

/// Decides whether the characters of `value` begin with the first
/// `plen` characters of `pattern`.
pub fn chars_start_with(value: &Vec<char>, pattern: &Vec<char>, plen: usize) -> (r: bool)
    requires
        plen <= pattern@.len(),
    ensures
        r == seq_starts_with(value@, pattern@.subrange(0, plen as int)),
{
    if plen > value.len() {
        return false;
    }
    let mut i: usize = 0;
    while i < plen
        invariant
            plen <= pattern@.len(),
            plen <= value@.len(),
            0 <= i <= plen,
            forall|j: int| 0 <= j < i ==> value@[j] == pattern@[j],
        decreases plen - i,
    {
        if value[i] != pattern[i] {
            proof {
                assert(value@.subrange(0, plen as int)[i as int] != pattern@.subrange(
                    0,
                    plen as int,
                )[i as int]);
            }
            return false;
        }
        i = i + 1;
    }
    assert(value@.subrange(0, plen as int) =~= pattern@.subrange(0, plen as int));
    true
}

/// An owned copy of `s`.
pub fn owned(s: &str) -> (r: String)
    ensures
        r@ == s@,
{
    s.to_owned()
}

/// `c` is an ASCII lowercase letter.
pub open spec fn is_ascii_lower(c: char) -> bool {
    'a' <= c && c <= 'z'
}

/// ASCII upper-casing of one character; every other character is kept.
pub open spec fn ascii_upper_char(c: char) -> char {
    if is_ascii_lower(c) {
        ((c as int) - 32) as char
    } else {
        c
    }
}

/// ASCII upper-casing of a character sequence.
pub open spec fn ascii_upper(s: Seq<char>) -> Seq<char> {
    s.map_values(|c: char| ascii_upper_char(c))
}

/// `str::to_ascii_uppercase`: a copy of `s` in which `'a'..='z'` are
/// mapped to `'A'..='Z'` and every other character, non-ASCII letters
/// included, is unchanged.
#[verifier::external_body]
pub(crate) fn to_ascii_uppercase(s: &str) -> (r: String)
    ensures
        r@ == ascii_upper(s@),
{
    s.to_ascii_uppercase()
}

/// Two short sequences are equal when they agree at each of their
/// (at most eight) positions.
pub proof fn lemma_seq_eq_short<A>(a: Seq<A>, b: Seq<A>)
    requires
        a.len() == b.len(),
        a.len() <= 8,
        a.len() > 0 ==> a[0] == b[0],
        a.len() > 1 ==> a[1] == b[1],
        a.len() > 2 ==> a[2] == b[2],
        a.len() > 3 ==> a[3] == b[3],
        a.len() > 4 ==> a[4] == b[4],
        a.len() > 5 ==> a[5] == b[5],
        a.len() > 6 ==> a[6] == b[6],
        a.len() > 7 ==> a[7] == b[7],
    ensures
        a == b,
{
    assert forall|i: int| 0 <= i < a.len() implies a[i] == b[i] by {
        if i == 0 {
        } else if i == 1 {
        } else if i == 2 {
        } else if i == 3 {
        } else if i == 4 {
        } else if i == 5 {
        } else if i == 6 {
        } else {
        }
    }
    assert(a =~= b);
}

/// A short sequence without ASCII lowercase letters is its own
/// upper-casing.
pub proof fn lemma_upper_fixed_short(s: Seq<char>)
    requires
        s.len() <= 8,
        s.len() > 0 ==> !is_ascii_lower(s[0]),
        s.len() > 1 ==> !is_ascii_lower(s[1]),
        s.len() > 2 ==> !is_ascii_lower(s[2]),
        s.len() > 3 ==> !is_ascii_lower(s[3]),
        s.len() > 4 ==> !is_ascii_lower(s[4]),
        s.len() > 5 ==> !is_ascii_lower(s[5]),
        s.len() > 6 ==> !is_ascii_lower(s[6]),
        s.len() > 7 ==> !is_ascii_lower(s[7]),
    ensures
        ascii_upper(s) == s,
{
    lemma_seq_eq_short(ascii_upper(s), s);
}

/// A value that converts into an owned string whose characters are
/// known: string slices, owned strings, and the library's closed-set
/// labels.
pub trait IntoText {
    /// The characters the value converts to.
    spec fn text(&self) -> Seq<char>;

    /// Convert into an owned string.
    fn into_text(self) -> (s: String)
        ensures
            s@ == self.text(),
    ;
}

impl<'a> IntoText for &'a str {
    open spec fn text(&self) -> Seq<char> {
        (*self)@
    }

    fn into_text(self) -> (s: String) {
        owned(self)
    }
}

impl<'a> IntoText for &'a String {
    open spec fn text(&self) -> Seq<char> {
        (*self)@
    }

    fn into_text(self) -> (s: String) {
        self.clone()
    }
}

impl IntoText for String {
    open spec fn text(&self) -> Seq<char> {
        self@
    }

    fn into_text(self) -> (s: String) {
        self
    }
}

} // verus!
