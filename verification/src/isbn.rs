use vstd::prelude::*;

use crate::text::{chars_of, push_char};
use crate::volume_label::{all_digits, is_ascii_digit};

verus! {

/// What `char::to_uppercase` yields for `c`: the Unicode uppercase mapping of `c`,
/// one or more characters.
pub uninterp spec fn uppercase_mapping(c: char) -> Seq<char>;

/// The ASCII uppercase form of an ASCII character (`a`–`z` become `A`–`Z`).
pub open spec fn ascii_uppercase(c: char) -> char {
    if 'a' <= c && c <= 'z' {
        ((c as u32) - 32) as char
    } else {
        c
    }
}

/// `char::to_uppercase`, collected. The std documentation gives the Unicode
/// uppercase mapping; of it this states the ASCII case, where the letters `a`–`z`
/// map to `A`–`Z` and every other ASCII character maps to itself. The mapping of
/// other characters is left to the name `uppercase_mapping`.
#[verifier::external_body]
fn char_to_uppercase(c: char) -> (upper: Vec<char>)
    ensures
        upper@ == uppercase_mapping(c),
        (c as u32) < 0x80 ==> upper@ == seq![ascii_uppercase(c)],
{
    c.to_uppercase().collect()
}

/// An ISBN already in normal form: ten characters, nine digits and a final digit or
/// `X`, or thirteen digits. (For such text the characters are its bytes, so this is
/// the byte-wise test as well.)
pub open spec fn is_normalized_isbn_text(s: Seq<char>) -> bool {
    ||| (s.len() == 10 && all_digits(s.take(9)) && (is_ascii_digit(s[9]) || s[9] == 'X'))
    ||| (s.len() == 13 && all_digits(s))
}

/// The numeric value of one ISBN character; `X` stands for ten.
pub open spec fn isbn_char_value(c: char) -> int {
    if c == 'X' {
        10
    } else {
        (c as int) - ('0' as int)
    }
}

/// The ISBN-10 checksum of the first `n` characters: the character at index `i`
/// weighs `10 - i`.
pub open spec fn isbn10_weighted_sum(s: Seq<char>, n: nat) -> int
    decreases n,
{
    if n == 0 {
        0
    } else {
        isbn10_weighted_sum(s, (n - 1) as nat) + isbn_char_value(s[n - 1]) * (10 - (n - 1))
    }
}

/// The ISBN-13 checksum of the first `n` characters: weights alternate 1 and 3.
pub open spec fn isbn13_weighted_sum(s: Seq<char>, n: nat) -> int
    decreases n,
{
    if n == 0 {
        0
    } else {
        isbn13_weighted_sum(s, (n - 1) as nat) + isbn_char_value(s[n - 1]) * (if (n - 1) % 2
            == 0 {
            1int
        } else {
            3int
        })
    }
}

/// A normalized ten-character ISBN whose weighted sum is a multiple of eleven.
pub open spec fn is_valid_isbn10(s: Seq<char>) -> bool {
    is_normalized_isbn_text(s) && s.len() == 10 && isbn10_weighted_sum(s, 10) % 11 == 0
}

/// A normalized thirteen-digit ISBN whose weighted sum is a multiple of ten.
pub open spec fn is_valid_isbn13(s: Seq<char>) -> bool {
    is_normalized_isbn_text(s) && s.len() == 13 && isbn13_weighted_sum(s, 13) % 10 == 0
}

/// The normal form of an ISBN as typed: spaces and hyphens dropped, every other
/// character replaced by its uppercase mapping.
pub open spec fn normalized_isbn(s: Seq<char>) -> Seq<char>
    decreases s.len(),
{
    if s.len() == 0 {
        Seq::empty()
    } else {
        normalized_isbn(s.drop_last()) + (if s.last() == ' ' || s.last() == '-' {
            Seq::empty()
        } else {
            uppercase_mapping(s.last())
        })
    }
}

/// Every character of `s` is ASCII.
pub open spec fn all_ascii(s: Seq<char>) -> bool {
    forall|i: int| 0 <= i < s.len() ==> (#[trigger] s[i] as u32) < 0x80
}

/// The normal form of ASCII text: spaces and hyphens dropped, letters in uppercase.
pub open spec fn ascii_normalized_isbn(s: Seq<char>) -> Seq<char>
    decreases s.len(),
{
    if s.len() == 0 {
        Seq::empty()
    } else {
        ascii_normalized_isbn(s.drop_last()) + (if s.last() == ' ' || s.last() == '-' {
            Seq::empty()
        } else {
            seq![ascii_uppercase(s.last())]
        })
    }
}

/// Text already in normal form is its own normal form.
proof fn normalized_text_is_fixed(s: Seq<char>)
    requires
        forall|i: int| 0 <= i < s.len() - 1 ==> is_ascii_digit(#[trigger] s[i]),
        s.len() == 0 || is_ascii_digit(s.last()) || s.last() == 'X',
    ensures
        ascii_normalized_isbn(s) == s,
        all_ascii(s),
    decreases s.len(),
{
    if s.len() > 0 {
        let t = s.drop_last();
        assert forall|i: int| 0 <= i < t.len() - 1 implies is_ascii_digit(#[trigger] t[i]) by {
            assert(t[i] == s[i]);
        }
        if t.len() > 0 {
            assert(t.last() == s[t.len() - 1]);
        }
        normalized_text_is_fixed(t);
        assert(s =~= t.push(s.last()));
        assert forall|i: int| 0 <= i < s.len() implies (#[trigger] s[i] as u32) < 0x80 by {
            if i < t.len() {
                assert(s[i] == t[i]);
            }
        }
    }
}

/// Whether `isbn` is already in normal form (see `is_normalized_isbn_text`).
pub fn is_normalized_isbn(isbn: &str) -> (r: bool)
    ensures
        r == is_normalized_isbn_text(isbn@),
{
    let chars = chars_of(isbn);
    let ghost s = chars@;
    let n = chars.len();
    if n != 10 && n != 13 {
        return false;
    }
    let checked: usize = if n == 10 {
        9
    } else {
        13
    };
    let mut i: usize = 0;
    while i < checked
        invariant
            i <= checked <= n == s.len(),
            n == 10 ==> checked == 9,
            n == 13 ==> checked == 13,
            n == 10 || n == 13,
            s == chars@,
            s == isbn@,
            forall|j: int| 0 <= j < i ==> is_ascii_digit(#[trigger] s[j]),
        decreases checked - i,
    {
        if !('0' <= chars[i] && chars[i] <= '9') {
            proof {
                assert(!is_ascii_digit(s[i as int]));
                if n == 10 {
                    assert(s.take(9)[i as int] == s[i as int]);
                    assert(!is_ascii_digit(s.take(9)[i as int]));
                }
            }
            return false;
        }
        i = i + 1;
    }
    if n == 10 {
        assert(all_digits(s.take(9))) by {
            assert forall|j: int| 0 <= j < 9 implies is_ascii_digit(#[trigger] s.take(9)[j]) by {
                assert(s.take(9)[j] == s[j]);
            }
        }
        ('0' <= chars[9] && chars[9] <= '9') || chars[9] == 'X'
    } else {
        true
    }
}

/// The normal form of an ISBN as typed (see `normalized_isbn`).
pub fn normalize_isbn(value: &str) -> (normal: String)
    ensures
        normal@ == normalized_isbn(value@),
        all_ascii(value@) ==> normal@ == ascii_normalized_isbn(value@),
        all_ascii(value@) ==> all_ascii(normal@) && ascii_normalized_isbn(normal@) == normal@,
        is_normalized_isbn_text(value@) ==> normal@ == value@,
{
    let chars = chars_of(value);
    let ghost s = chars@;
    let mut normal = String::new();
    let n = chars.len();
    let mut i: usize = 0;
    assert(s.take(0) =~= Seq::<char>::empty());
    while i < n
        invariant
            i <= n == s.len(),
            s == chars@,
            normal@ == normalized_isbn(s.take(i as int)),
            all_ascii(s.take(i as int)) ==> normal@ == ascii_normalized_isbn(s.take(i as int)),
        decreases n - i,
    {
        let c = chars[i];
        assert(s.take(i + 1).drop_last() =~= s.take(i as int));
        assert(all_ascii(s.take(i + 1)) ==> all_ascii(s.take(i as int))) by {
            if all_ascii(s.take(i + 1)) {
                assert forall|k: int| 0 <= k < i implies (#[trigger] s.take(i as int)[k] as u32)
                    < 0x80 by {
                    assert(s.take(i as int)[k] == s.take(i + 1)[k]);
                }
            }
        }
        proof {
            if all_ascii(s.take(i + 1)) {
                assert(s.take(i + 1)[i as int] == c);
            }
        }
        if c != ' ' && c != '-' {
            let upper = char_to_uppercase(c);
            let ghost before = normal@;
            let mut j: usize = 0;
            while j < upper.len()
                invariant
                    j <= upper@.len(),
                    normal@ == before + upper@.take(j as int),
                decreases upper@.len() - j,
            {
                push_char(&mut normal, upper[j]);
                assert(before + upper@.take(j + 1) =~= (before + upper@.take(j as int)).push(
                    upper@[j as int],
                ));
                j = j + 1;
            }
            assert(upper@.take(upper@.len() as int) =~= upper@);
        } else {
            assert(normal@ =~= normal@ + Seq::<char>::empty());
        }
        i = i + 1;
    }
    assert(s.take(n as int) =~= s);
    proof {
        if is_normalized_isbn_text(s) {
            if s.len() == 10 {
                assert forall|k: int| 0 <= k < s.len() - 1 implies is_ascii_digit(#[trigger] s[k]) by {
                    assert(s.take(9)[k] == s[k]);
                }
            }
            normalized_text_is_fixed(s);
        }
        if all_ascii(s) {
            ascii_isbn_normalization_is_idempotent(s);
        }
    }
    normal
}

/// The numeric value of an ISBN character that is a digit or `X`.
fn isbn_value(c: char) -> (v: u32)
    requires
        is_ascii_digit(c) || c == 'X',
    ensures
        v == isbn_char_value(c),
        v <= 10,
{
    if c == 'X' {
        10
    } else {
        (c as u32) - 48
    }
}

/// Whether `isbn` is a valid normalized ISBN-10 (see `is_valid_isbn10`).
pub fn valid_isbn10(isbn: &str) -> (r: bool)
    ensures
        r == is_valid_isbn10(isbn@),
{
    if !is_normalized_isbn(isbn) {
        return false;
    }
    let chars = chars_of(isbn);
    let ghost s = chars@;
    if chars.len() != 10 {
        return false;
    }
    let mut sum: u32 = 0;
    let mut i: usize = 0;
    while i < 10
        invariant
            i <= 10 == s.len(),
            s == chars@,
            is_normalized_isbn_text(s),
            sum == isbn10_weighted_sum(s, i as nat),
            sum <= 100 * i,
        decreases 10 - i,
    {
        assert(is_ascii_digit(s[i as int]) || s[i as int] == 'X') by {
            if i < 9 {
                assert(s.take(9)[i as int] == s[i as int]);
            }
        }
        let v = isbn_value(chars[i]);
        let weight: u32 = 10 - i as u32;
        assert(v * weight <= 100) by (nonlinear_arith)
            requires
                v <= 10,
                weight <= 10,
        ;
        sum = sum + v * weight;
        i = i + 1;
    }
    sum % 11 == 0
}

/// Whether `isbn` is a valid normalized ISBN-13 (see `is_valid_isbn13`).
pub fn valid_isbn13(isbn: &str) -> (r: bool)
    ensures
        r == is_valid_isbn13(isbn@),
{
    if !is_normalized_isbn(isbn) {
        return false;
    }
    let chars = chars_of(isbn);
    let ghost s = chars@;
    if chars.len() != 13 {
        return false;
    }
    let mut sum: u32 = 0;
    let mut i: usize = 0;
    while i < 13
        invariant
            i <= 13 == s.len(),
            s == chars@,
            all_digits(s),
            sum == isbn13_weighted_sum(s, i as nat),
            sum <= 30 * i,
        decreases 13 - i,
    {
        assert(is_ascii_digit(s[i as int]));
        let v = isbn_value(chars[i]);
        let weight: u32 = if i % 2 == 0 {
            1
        } else {
            3
        };
        assert(v * weight <= 30) by (nonlinear_arith)
            requires
                v <= 10,
                weight <= 3,
        ;
        sum = sum + v * weight;
        i = i + 1;
    }
    sum % 10 == 0
}

} // verus!

verus! {

proof fn ascii_uppercase_is_stable(c: char)
    requires
        (c as u32) < 0x80,
    ensures
        (ascii_uppercase(c) as u32) < 0x80,
        ascii_uppercase(ascii_uppercase(c)) == ascii_uppercase(c),
        ascii_uppercase(c) == ' ' <==> c == ' ',
        ascii_uppercase(c) == '-' <==> c == '-',
{
}

proof fn ascii_normalized_append(s: Seq<char>, t: Seq<char>)
    ensures
        ascii_normalized_isbn(s + t) == ascii_normalized_isbn(s) + ascii_normalized_isbn(t),
    decreases t.len(),
{
    if t.len() == 0 {
        assert(s + t =~= s);
        assert(ascii_normalized_isbn(s) + Seq::<char>::empty() =~= ascii_normalized_isbn(s));
    } else {
        ascii_normalized_append(s, t.drop_last());
        assert((s + t).drop_last() =~= s + t.drop_last());
        assert((s + t).last() == t.last());
        let tail = if t.last() == ' ' || t.last() == '-' {
            Seq::empty()
        } else {
            seq![ascii_uppercase(t.last())]
        };
        assert(ascii_normalized_isbn(s) + ascii_normalized_isbn(t.drop_last()) + tail
            =~= ascii_normalized_isbn(s) + (ascii_normalized_isbn(t.drop_last()) + tail));
    }
}

/// Normalizing ASCII text twice gives what normalizing it once gives: the normal
/// form is ASCII again, holds no space or hyphen, and its letters are already in
/// uppercase. (`normalize_isbn` gives this form for ASCII text.)
pub proof fn ascii_isbn_normalization_is_idempotent(s: Seq<char>)
    requires
        all_ascii(s),
    ensures
        all_ascii(ascii_normalized_isbn(s)),
        ascii_normalized_isbn(ascii_normalized_isbn(s)) == ascii_normalized_isbn(s),
    decreases s.len(),
{
    if s.len() > 0 {
        let t = s.drop_last();
        let c = s.last();
        assert(all_ascii(t)) by {
            assert forall|i: int| 0 <= i < t.len() implies (#[trigger] t[i] as u32) < 0x80 by {
                assert(t[i] == s[i]);
            }
        }
        assert((c as u32) < 0x80) by {
            assert(c == s[s.len() - 1]);
        }
        ascii_isbn_normalization_is_idempotent(t);
        ascii_uppercase_is_stable(c);
        let nt = ascii_normalized_isbn(t);
        if c == ' ' || c == '-' {
            assert(ascii_normalized_isbn(s) =~= nt + Seq::<char>::empty());
            assert(nt + Seq::<char>::empty() =~= nt);
        } else {
            let u = ascii_uppercase(c);
            assert(ascii_normalized_isbn(s) == nt + seq![u]);
            assert forall|i: int| 0 <= i < (nt + seq![u]).len() implies (#[trigger] (nt
                + seq![u])[i] as u32) < 0x80 by {
                if i < nt.len() {
                    assert((nt + seq![u])[i] == nt[i]);
                }
            }
            ascii_normalized_append(nt, seq![u]);
            assert(seq![u].drop_last() =~= Seq::<char>::empty());
            assert(ascii_normalized_isbn(seq![u]) == ascii_normalized_isbn(Seq::<char>::empty())
                + seq![ascii_uppercase(u)]);
            assert(ascii_normalized_isbn(seq![u]) =~= seq![u]);
        }
    }
}

} // verus!

verus! {

/// The value of the decimal digit at index `i` of `s`.
pub open spec fn digit_value_at(s: Seq<char>, i: int) -> int {
    (s[i] as int) - ('0' as int)
}

/// An ISBN-13 is thirteen decimal digits whose sum, the digits at even positions
/// counted once and those at odd positions three times, is a multiple of ten; its
/// check digit may be any of 0 to 9, 0 included.
pub proof fn isbn13_checksum_is_the_weighted_digit_sum(s: Seq<char>)
    ensures
        is_valid_isbn13(s) ==> s.len() == 13 && all_digits(s),
        s.len() == 13 && all_digits(s) ==> (is_valid_isbn13(s) <==> (digit_value_at(s, 0) + 3
            * digit_value_at(s, 1) + digit_value_at(s, 2) + 3 * digit_value_at(s, 3)
            + digit_value_at(s, 4) + 3 * digit_value_at(s, 5) + digit_value_at(s, 6) + 3
            * digit_value_at(s, 7) + digit_value_at(s, 8) + 3 * digit_value_at(s, 9)
            + digit_value_at(s, 10) + 3 * digit_value_at(s, 11) + digit_value_at(s, 12)) % 10
            == 0),
{
    reveal_with_fuel(isbn13_weighted_sum, 14);
    if s.len() == 13 && all_digits(s) {
        assert(is_normalized_isbn_text(s));
        assert forall|i: int| 0 <= i < 13 implies isbn_char_value(s[i]) == digit_value_at(s, i) by {
            assert(is_ascii_digit(s[i]));
        }
    }
}

/// An ISBN-10 is nine decimal digits and a final digit or `X` (standing for ten)
/// whose sum, weighted ten down to one from the first character to the last, is a
/// multiple of eleven.
pub proof fn isbn10_checksum_is_the_weighted_digit_sum(s: Seq<char>)
    ensures
        is_valid_isbn10(s) ==> s.len() == 10 && all_digits(s.take(9)) && (is_ascii_digit(s[9])
            || s[9] == 'X'),
        s.len() == 10 && all_digits(s.take(9)) && (is_ascii_digit(s[9]) || s[9] == 'X') ==> (
        is_valid_isbn10(s) <==> (10 * digit_value_at(s, 0) + 9 * digit_value_at(s, 1) + 8
            * digit_value_at(s, 2) + 7 * digit_value_at(s, 3) + 6 * digit_value_at(s, 4) + 5
            * digit_value_at(s, 5) + 4 * digit_value_at(s, 6) + 3 * digit_value_at(s, 7) + 2
            * digit_value_at(s, 8) + (if s[9] == 'X' {
            10
        } else {
            digit_value_at(s, 9)
        })) % 11 == 0),
{
    reveal_with_fuel(isbn10_weighted_sum, 11);
    if s.len() == 10 && all_digits(s.take(9)) && (is_ascii_digit(s[9]) || s[9] == 'X') {
        assert forall|i: int| 0 <= i < 9 implies isbn_char_value(s[i]) == digit_value_at(s, i) by {
            assert(s.take(9)[i] == s[i]);
            assert(is_ascii_digit(s.take(9)[i]));
        }
        assert(isbn_char_value(s[0]) == digit_value_at(s, 0));
        assert(isbn_char_value(s[1]) == digit_value_at(s, 1));
        assert(isbn_char_value(s[2]) == digit_value_at(s, 2));
        assert(isbn_char_value(s[3]) == digit_value_at(s, 3));
        assert(isbn_char_value(s[4]) == digit_value_at(s, 4));
        assert(isbn_char_value(s[5]) == digit_value_at(s, 5));
        assert(isbn_char_value(s[6]) == digit_value_at(s, 6));
        assert(isbn_char_value(s[7]) == digit_value_at(s, 7));
        assert(isbn_char_value(s[8]) == digit_value_at(s, 8));
        assert(isbn10_weighted_sum(s, 0) == 0);
        assert(isbn10_weighted_sum(s, 1) == isbn10_weighted_sum(s, 0) + isbn_char_value(s[0]) * 10);
        assert(isbn10_weighted_sum(s, 1) == 10 * digit_value_at(s, 0));
        assert(isbn10_weighted_sum(s, 2) == isbn10_weighted_sum(s, 1) + isbn_char_value(s[1]) * 9);
        assert(isbn10_weighted_sum(s, 2) == isbn10_weighted_sum(s, 1) + 9 * digit_value_at(s, 1));
        assert(isbn10_weighted_sum(s, 3) == isbn10_weighted_sum(s, 2) + isbn_char_value(s[2]) * 8);
        assert(isbn10_weighted_sum(s, 3) == isbn10_weighted_sum(s, 2) + 8 * digit_value_at(s, 2));
        assert(isbn10_weighted_sum(s, 4) == isbn10_weighted_sum(s, 3) + isbn_char_value(s[3]) * 7);
        assert(isbn10_weighted_sum(s, 4) == isbn10_weighted_sum(s, 3) + 7 * digit_value_at(s, 3));
        assert(isbn10_weighted_sum(s, 5) == isbn10_weighted_sum(s, 4) + isbn_char_value(s[4]) * 6);
        assert(isbn10_weighted_sum(s, 5) == isbn10_weighted_sum(s, 4) + 6 * digit_value_at(s, 4));
        assert(isbn10_weighted_sum(s, 6) == isbn10_weighted_sum(s, 5) + isbn_char_value(s[5]) * 5);
        assert(isbn10_weighted_sum(s, 6) == isbn10_weighted_sum(s, 5) + 5 * digit_value_at(s, 5));
        assert(isbn10_weighted_sum(s, 7) == isbn10_weighted_sum(s, 6) + isbn_char_value(s[6]) * 4);
        assert(isbn10_weighted_sum(s, 7) == isbn10_weighted_sum(s, 6) + 4 * digit_value_at(s, 6));
        assert(isbn10_weighted_sum(s, 8) == isbn10_weighted_sum(s, 7) + isbn_char_value(s[7]) * 3);
        assert(isbn10_weighted_sum(s, 8) == isbn10_weighted_sum(s, 7) + 3 * digit_value_at(s, 7));
        assert(isbn10_weighted_sum(s, 9) == isbn10_weighted_sum(s, 8) + isbn_char_value(s[8]) * 2);
        assert(isbn10_weighted_sum(s, 9) == isbn10_weighted_sum(s, 8) + 2 * digit_value_at(s, 8));
        assert(isbn10_weighted_sum(s, 10) == isbn10_weighted_sum(s, 9) + isbn_char_value(s[9]));
        if s[9] != 'X' {
            assert(isbn_char_value(s[9]) == digit_value_at(s, 9));
        }
    }
}

} // verus!
