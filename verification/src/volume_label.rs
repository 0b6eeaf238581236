use vstd::prelude::*;

use crate::error::AppError;
use crate::text::{chars_of, push_char};

verus! {

/// An ASCII decimal digit.
pub open spec fn is_ascii_digit(c: char) -> bool {
    '0' <= c && c <= '9'
}

/// Every character of `s` is an ASCII decimal digit.
pub open spec fn all_digits(s: Seq<char>) -> bool {
    forall|i: int| 0 <= i < s.len() ==> is_ascii_digit(#[trigger] s[i])
}

/// The value of a run of decimal digits.
pub open spec fn digits_value(s: Seq<char>) -> nat
    decreases s.len(),
{
    if s.len() == 0 {
        0
    } else {
        digits_value(s.drop_last()) * 10 + ((s.last() as nat) - ('0' as nat)) as nat
    }
}

/// `s` is a non-empty run of digits, a dot at index `k`, and one to three digits.
pub open spec fn decimal_split(s: Seq<char>, k: int) -> bool {
    &&& 0 < k
    &&& k + 1 < s.len()
    &&& s[k] == '.'
    &&& all_digits(s.take(k))
    &&& all_digits(s.skip(k + 1))
    &&& s.len() - (k + 1) <= 3
}

/// A label that splits at dots into one or two non-empty runs of digits, the second
/// of at most three digits: `12`, `007`, `3.5`, `12.125`.
pub open spec fn is_numeric_label(s: Seq<char>) -> bool {
    ||| (s.len() > 0 && all_digits(s))
    ||| exists|k: int| decimal_split(s, k)
}

/// The digits before the dot of a numeric label (all of it when it has no dot).
pub open spec fn integer_digits(s: Seq<char>) -> Seq<char> {
    if all_digits(s) {
        s
    } else {
        s.take(choose|k: int| decimal_split(s, k))
    }
}

/// The digits after the dot of a numeric label (none when it has no dot).
pub open spec fn fraction_digits(s: Seq<char>) -> Seq<char> {
    if all_digits(s) {
        Seq::empty()
    } else {
        s.skip((choose|k: int| decimal_split(s, k)) + 1)
    }
}

/// `s` without its leading `'0'` characters.
pub open spec fn strip_leading_zeros(s: Seq<char>) -> Seq<char>
    decreases s.len(),
{
    if s.len() > 0 && s[0] == '0' {
        strip_leading_zeros(s.drop_first())
    } else {
        s
    }
}

/// The integer part of a numeric label without leading zeros, `"0"` when nothing is left.
pub open spec fn significant_integer(s: Seq<char>) -> Seq<char> {
    let stripped = strip_leading_zeros(integer_digits(s));
    if stripped.len() == 0 {
        seq!['0']
    } else {
        stripped
    }
}

/// `n` copies of `c`.
pub open spec fn repeat_char(c: char, n: nat) -> Seq<char> {
    Seq::new(n, |_i: int| c)
}

/// `0:` then the integer padded with zeros on the left to six digits, a dot, and the
/// fraction padded with zeros on the right to three digits.
pub open spec fn numeric_sort_key(integer: Seq<char>, fraction: Seq<char>) -> Seq<char> {
    seq!['0', ':'] + repeat_char('0', (6 - integer.len()) as nat) + integer + seq!['.']
        + fraction + repeat_char('0', (3 - fraction.len()) as nat)
}

/// The sort key of a volume label, `None` when a numeric label has more than six
/// significant integer digits. Numbers come first (`0:`), then `上` and `下` (`1:`),
/// then `全一冊` (`2:`), then every other label (`9:`).
pub open spec fn volume_sort_key(label: Seq<char>) -> Option<Seq<char>> {
    if is_numeric_label(label) {
        let integer = significant_integer(label);
        if integer.len() > 6 {
            None
        } else {
            Some(numeric_sort_key(integer, fraction_digits(label)))
        }
    } else if label == seq!['上'] || label == seq!['下'] {
        Some(seq!['1', ':'] + label)
    } else if label == seq!['全', '一', '冊'] {
        Some(seq!['2', ':'] + label)
    } else {
        Some(seq!['9', ':'] + label)
    }
}

/// Whether the characters of `chars` from `lo` up to `hi` are all digits.
fn digits_between(chars: &Vec<char>, lo: usize, hi: usize) -> (r: bool)
    requires
        lo <= hi <= chars@.len(),
    ensures
        r == all_digits(chars@.subrange(lo as int, hi as int)),
{
    let mut i = lo;
    while i < hi
        invariant
            lo <= i <= hi <= chars@.len(),
            all_digits(chars@.subrange(lo as int, i as int)),
        decreases hi - i,
    {
        if !('0' <= chars[i] && chars[i] <= '9') {
            assert(chars@.subrange(lo as int, hi as int)[i - lo] == chars@[i as int]);
            return false;
        }
        assert forall|j: int| 0 <= j < i + 1 - lo implies is_ascii_digit(
            #[trigger] chars@.subrange(lo as int, i + 1)[j],
        ) by {
            if j < i - lo {
                assert(chars@.subrange(lo as int, i + 1)[j] == chars@.subrange(
                    lo as int,
                    i as int,
                )[j]);
            }
        }
        i = i + 1;
    }
    true
}

/// The index of the first `'.'` in `chars`, or its length when there is none.
fn first_dot(chars: &Vec<char>) -> (k: usize)
    ensures
        k <= chars@.len(),
        k < chars@.len() ==> chars@[k as int] == '.',
        forall|j: int| 0 <= j < k ==> chars@[j] != '.',
{
    let mut k: usize = 0;
    while k < chars.len() && chars[k] != '.'
        invariant
            k <= chars@.len(),
            forall|j: int| 0 <= j < k ==> chars@[j] != '.',
        decreases chars@.len() - k,
    {
        k = k + 1;
    }
    k
}

/// Pushes the characters of `chars` from `lo` up to `hi` onto `text`.
fn push_range(text: &mut String, chars: &Vec<char>, lo: usize, hi: usize)
    requires
        lo <= hi <= chars@.len(),
    ensures
        final(text)@ == old(text)@ + chars@.subrange(lo as int, hi as int),
{
    let ghost start = old(text)@;
    let mut i = lo;
    while i < hi
        invariant
            lo <= i <= hi <= chars@.len(),
            text@ == start + chars@.subrange(lo as int, i as int),
        decreases hi - i,
    {
        push_char(text, chars[i]);
        assert(start + chars@.subrange(lo as int, i + 1) =~= (start + chars@.subrange(
            lo as int,
            i as int,
        )).push(chars@[i as int]));
        i = i + 1;
    }
}

/// Pushes `n` copies of `c` onto `text`.
fn push_repeated(text: &mut String, c: char, n: usize)
    ensures
        final(text)@ == old(text)@ + repeat_char(c, n as nat),
{
    let ghost start = old(text)@;
    let mut i: usize = 0;
    while i < n
        invariant
            i <= n,
            text@ == start + repeat_char(c, i as nat),
        decreases n - i,
    {
        push_char(text, c);
        assert(start + repeat_char(c, (i + 1) as nat) =~= (start + repeat_char(c, i as nat)).push(
            c,
        ));
        i = i + 1;
    }
}

} // verus!

verus! {

/// The sort key of a volume label (see `volume_sort_key`); a numeric label whose
/// integer part has more than six significant digits is refused.
pub fn make_volume_sort_key(label: &str) -> (r: Result<String, AppError>)
    ensures
        match volume_sort_key(label@) {
            Some(key) => r matches Ok(text) && text@ == key,
            None => r matches Err(e) && e.code@ == "invalid_volume_label"@ && e.message@
                == "The volume label is invalid."@,
        },
{
    let chars = chars_of(label);
    let ghost s = chars@;
    let n = chars.len();
    let k = first_dot(&chars);
    let numeric: bool;
    let integer_end: usize;
    let fraction_start: usize;
    if k == n {
        numeric = n > 0 && digits_between(&chars, 0, n);
        integer_end = n;
        fraction_start = n;
        assert(s.subrange(0, n as int) =~= s);
        assert forall|j: int| !decimal_split(s, j) by {
            if decimal_split(s, j) {
                assert(s[j] == '.');
            }
        }
    } else {
        numeric = k > 0 && k + 1 < n && n - (k + 1) <= 3 && digits_between(&chars, 0, k)
            && digits_between(&chars, k + 1, n);
        integer_end = k;
        fraction_start = k + 1;
        assert(s.take(k as int) =~= s.subrange(0, k as int));
        assert(s.skip(k + 1) =~= s.subrange(k + 1, n as int));
        assert(!is_ascii_digit(s[k as int]));
        assert(!all_digits(s));
        assert forall|j: int| decimal_split(s, j) implies j == k by {
            if j < k {
                assert(s[j] != '.');
            } else if j > k {
                assert(s.take(j)[k as int] == s[k as int]);
            }
        }
        assert(numeric == decimal_split(s, k as int));
        if numeric {
            assert(decimal_split(s, k as int));
        }
    }
    assert(numeric == is_numeric_label(s));
    if numeric {
        assert(integer_digits(s) == s.subrange(0, integer_end as int)) by {
            if k < n {
                assert(decimal_split(s, k as int));
            }
        }
        assert(fraction_digits(s) == s.subrange(fraction_start as int, n as int)) by {
            if k < n {
                assert(decimal_split(s, k as int));
            } else {
                assert(s.subrange(n as int, n as int) =~= Seq::<char>::empty());
            }
        }
        let mut z: usize = 0;
        assert(s.subrange(0, integer_end as int).subrange(0, integer_end as int) =~= s.subrange(
            0,
            integer_end as int,
        ));
        while z < integer_end && chars[z] == '0'
            invariant
                z <= integer_end <= n == s.len(),
                s == chars@,
                strip_leading_zeros(s.subrange(0, integer_end as int)) == strip_leading_zeros(
                    s.subrange(z as int, integer_end as int),
                ),
            decreases integer_end - z,
        {
            assert(s.subrange(z as int, integer_end as int).drop_first() =~= s.subrange(
                z + 1,
                integer_end as int,
            ));
            z = z + 1;
        }
        let significant_len: usize = if z == integer_end {
            1
        } else {
            integer_end - z
        };
        if significant_len > 6 {
            return Err(AppError::new("invalid_volume_label", "The volume label is invalid."));
        }
        let mut key = String::new();
        push_char(&mut key, '0');
        push_char(&mut key, ':');
        push_repeated(&mut key, '0', 6 - significant_len);
        if z == integer_end {
            push_char(&mut key, '0');
        } else {
            push_range(&mut key, &chars, z, integer_end);
        }
        push_char(&mut key, '.');
        push_range(&mut key, &chars, fraction_start, n);
        push_repeated(&mut key, '0', 3 - (n - fraction_start));
        assert(key@ =~= numeric_sort_key(significant_integer(s), fraction_digits(s)));
        Ok(key)
    } else {
        let mut key = String::new();
        let rank = if n == 1 && (chars[0] == '上' || chars[0] == '下') {
            '1'
        } else if n == 3 && chars[0] == '全' && chars[1] == '一' && chars[2] == '冊' {
            '2'
        } else {
            '9'
        };
        proof {
            if s == seq!['上'] || s == seq!['下'] {
                assert(s[0] == seq!['上'][0] || s[0] == seq!['下'][0]);
            }
            if n == 1 && (s[0] == '上' || s[0] == '下') {
                assert(s =~= seq!['上'] || s =~= seq!['下']);
            }
            if s == seq!['全', '一', '冊'] {
                assert(s[0] == '全' && s[1] == '一' && s[2] == '冊');
            }
            if n == 3 && s[0] == '全' && s[1] == '一' && s[2] == '冊' {
                assert(s =~= seq!['全', '一', '冊']);
            }
        }
        push_char(&mut key, rank);
        push_char(&mut key, ':');
        push_range(&mut key, &chars, 0, n);
        assert(s.subrange(0, n as int) =~= s);
        Ok(key)
    }
}

} // verus!
