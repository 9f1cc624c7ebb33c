//! The identifier-casing algorithm: derives a type-level identifier from a
//! value-level one in a single forward pass.
//!
//! Scanning left to right with a capitalize-next flag (initially set): a
//! lower-case letter is emitted upper-cased when the flag is set and as-is
//! otherwise, and clears the flag; an upper-case letter or a digit is emitted
//! as-is and clears the flag; a separator is dropped and sets the flag.

use vstd::prelude::*;
use vstd::string::StrSliceExecFns;

verus! {

/// A lower-case ASCII letter.
pub open spec fn is_lower(c: char) -> bool {
    'a' <= c && c <= 'z'
}

/// An upper-case ASCII letter.
pub open spec fn is_upper(c: char) -> bool {
    'A' <= c && c <= 'Z'
}

/// An ASCII digit.
pub open spec fn is_digit(c: char) -> bool {
    '0' <= c && c <= '9'
}

/// A separator character: the one non-emitted member of the identifier
/// repertoire.
pub open spec fn is_separator(c: char) -> bool {
    c == '_'
}

/// The fixed character repertoire a declaration name may draw from.
pub open spec fn is_ident_char(c: char) -> bool {
    is_lower(c) || is_upper(c) || is_digit(c) || is_separator(c)
}

/// Every character of `s` belongs to the identifier repertoire.
pub open spec fn valid_charset(s: Seq<char>) -> bool {
    forall|i: int| 0 <= i < s.len() ==> is_ident_char(#[trigger] s[i])
}

/// The upper-case form of a lower-case ASCII letter.
pub open spec fn upper_of(c: char) -> char {
    ((c as u8 - 0x20) as u8) as char
}

/// The conversion of `s` when the capitalize-next flag currently holds `cap`.
pub open spec fn camel_rec(s: Seq<char>, cap: bool) -> Seq<char>
    decreases s.len(),
{
    if s.len() == 0 {
        Seq::<char>::empty()
    } else if is_lower(s[0]) {
        seq![if cap { upper_of(s[0]) } else { s[0] }] + camel_rec(s.drop_first(), false)
    } else if is_upper(s[0]) || is_digit(s[0]) {
        seq![s[0]] + camel_rec(s.drop_first(), false)
    } else {
        camel_rec(s.drop_first(), true)
    }
}

/// The type-level identifier derived from `s`: the whole conversion, with the
/// capitalize-next flag initially set.
pub open spec fn camel_of(s: Seq<char>) -> Seq<char> {
    camel_rec(s, true)
}

/// Relies on std's `String::push`: appends the character to the end of the
/// string.
#[verifier::external_body]
fn push_char(s: &mut String, c: char)
    ensures
        final(s)@ == old(s)@ + seq![c],
{
    s.push(c);
}

/// Converts a value-level identifier to its type-level form.
pub fn to_camel_case(s: &str) -> (r: String)
    ensures
        r@ == camel_of(s@),
{
    let n: usize = s.unicode_len();
    let mut out: String = String::new();
    let mut cap: bool = true;
    let mut i: usize = 0;
    proof {
        assert(s@.skip(0) =~= s@);
        assert(out@ + camel_rec(s@, true) =~= camel_of(s@));
    }
    while i < n
        invariant
            n == s@.len(),
            i <= n,
            out@ + camel_rec(s@.skip(i as int), cap) == camel_of(s@),
        decreases n - i,
    {
        let c = s.get_char(i);
        proof {
            assert(s@.skip(i as int)[0] == s@[i as int]);
            assert(s@.skip(i as int).drop_first() =~= s@.skip(i as int + 1));
        }
        let ghost prefix = out@;
        let ghost rest = camel_rec(s@.skip(i as int), cap);
        if 'a' <= c && c <= 'z' {
            if cap {
                let b: u8 = c as u8;
                let uc: char = (b - 0x20) as char;
                push_char(&mut out, uc);
                proof {
                    assert(uc == upper_of(c));
                    assert(rest == seq![uc] + camel_rec(s@.skip(i as int + 1), false));
                }
            } else {
                push_char(&mut out, c);
                proof {
                    assert(rest == seq![c] + camel_rec(s@.skip(i as int + 1), false));
                }
            }
            cap = false;
        } else if ('A' <= c && c <= 'Z') || ('0' <= c && c <= '9') {
            push_char(&mut out, c);
            proof {
                assert(rest == seq![c] + camel_rec(s@.skip(i as int + 1), false));
            }
            cap = false;
        } else {
            cap = true;
        }
        i = i + 1;
        proof {
            assert(out@ + camel_rec(s@.skip(i as int), cap) =~= prefix + rest);
        }
    }
    proof {
        assert(s@.skip(n as int) =~= Seq::<char>::empty());
        assert(out@ =~= camel_of(s@));
    }
    out
}

/// Decides whether every character of `s` belongs to the identifier
/// repertoire.
pub fn check_charset(s: &str) -> (b: bool)
    ensures
        b == valid_charset(s@),
{
    let n: usize = s.unicode_len();
    let mut i: usize = 0;
    while i < n
        invariant
            n == s@.len(),
            i <= n,
            forall|j: int| 0 <= j < i ==> is_ident_char(#[trigger] s@[j]),
        decreases n - i,
    {
        let c = s.get_char(i);
        let ok = ('a' <= c && c <= 'z') || ('A' <= c && c <= 'Z') || ('0' <= c && c <= '9')
            || c == '_';
        if !ok {
            proof {
                assert(!is_ident_char(s@[i as int]));
            }
            return false;
        }
        i = i + 1;
    }
    true
}

/// Every character of `s` is a letter or a digit: the conversion never emits
/// a separator.
pub open spec fn letters_digits_only(s: Seq<char>) -> bool {
    forall|i: int|
        0 <= i < s.len() ==> is_lower(#[trigger] s[i]) || is_upper(s[i]) || is_digit(s[i])
}

/// What the conversion emits: only letters and digits, and never a
/// lower-case letter first while the capitalize-next flag is set.
proof fn lemma_camel_rec_shape(s: Seq<char>, cap: bool)
    ensures
        letters_digits_only(camel_rec(s, cap)),
        cap && camel_rec(s, cap).len() > 0 ==> !is_lower(camel_rec(s, cap)[0]),
    decreases s.len(),
{
    if s.len() > 0 {
        lemma_camel_rec_shape(s.drop_first(), false);
        lemma_camel_rec_shape(s.drop_first(), true);
        if is_lower(s[0]) {
            assert(is_upper(upper_of(s[0])));
        }
    }
}

/// A sequence of letters and digits converts to itself while the
/// capitalize-next flag is clear.
proof fn lemma_camel_rec_fixed(t: Seq<char>)
    requires
        letters_digits_only(t),
    ensures
        camel_rec(t, false) == t,
    decreases t.len(),
{
    if t.len() == 0 {
        assert(camel_rec(t, false) =~= t);
    } else {
        lemma_camel_rec_fixed(t.drop_first());
        assert(camel_rec(t, false) =~= t);
    }
}

/// The conversion is idempotent on its own output: that output already lacks
/// separators, so converting it again changes nothing.
pub proof fn lemma_camel_idempotent(s: Seq<char>)
    ensures
        camel_of(camel_of(s)) == camel_of(s),
{
    let t = camel_of(s);
    lemma_camel_rec_shape(s, true);
    if t.len() == 0 {
        assert(camel_rec(t, true) =~= t);
    } else {
        lemma_camel_rec_fixed(t.drop_first());
        assert(camel_rec(t, true) =~= t);
    }
}

/// The conversion is deterministic: it is a pure function of its input, so
/// equal identifiers always convert to equal results.
pub proof fn lemma_camel_deterministic(s1: Seq<char>, s2: Seq<char>)
    requires
        s1 == s2,
    ensures
        camel_of(s1) == camel_of(s2),
{
}

} // verus!
