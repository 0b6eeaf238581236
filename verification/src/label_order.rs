use vstd::prelude::*;

use crate::text::{text_less, text_less_irreflexive, text_less_total};
use crate::volume_label::{
    all_digits, decimal_split, digits_value, fraction_digits, integer_digits, is_ascii_digit,
    is_numeric_label, numeric_sort_key, repeat_char, significant_integer, strip_leading_zeros,
    volume_sort_key,
};

verus! {

/// Ten to the power `n`.
pub open spec fn pow10(n: nat) -> nat
    decreases n,
{
    if n == 0 {
        1
    } else {
        10 * pow10((n - 1) as nat)
    }
}

/// A numeric volume label's value in thousandths: `12` is 12000, `3.5` is 3500,
/// `12.125` is 12125.
pub open spec fn label_thousandths(s: Seq<char>) -> nat {
    digits_value(integer_digits(s)) * 1000 + digits_value(fraction_digits(s)) * pow10(
        (3 - fraction_digits(s).len()) as nat,
    )
}

proof fn digit_value_bound(c: char)
    requires
        is_ascii_digit(c),
    ensures
        (c as nat) - ('0' as nat) <= 9,
        (c as nat) >= ('0' as nat),
{
}

proof fn digits_value_append(s: Seq<char>, t: Seq<char>)
    ensures
        digits_value(s + t) == digits_value(s) * pow10(t.len()) + digits_value(t),
    decreases t.len(),
{
    if t.len() == 0 {
        assert(s + t =~= s);
        assert(digits_value(t) == 0);
        assert(pow10(0) == 1);
        assert(digits_value(s) * 1 == digits_value(s));
    } else {
        digits_value_append(s, t.drop_last());
        assert((s + t).drop_last() =~= s + t.drop_last());
        assert((s + t).last() == t.last());
        let a = digits_value(s);
        let p = pow10((t.len() - 1) as nat);
        let b = digits_value(t.drop_last());
        let d = ((t.last() as nat) - ('0' as nat)) as nat;
        assert(pow10(t.len()) == 10 * p);
        assert(digits_value(t) == b * 10 + d);
        assert(digits_value(s + t) == (a * p + b) * 10 + d);
        assert((a * p + b) * 10 + d == a * (10 * p) + (b * 10 + d)) by (nonlinear_arith);
    }
}

proof fn digits_value_bound(s: Seq<char>)
    requires
        all_digits(s),
    ensures
        digits_value(s) < pow10(s.len()),
    decreases s.len(),
{
    if s.len() > 0 {
        assert(all_digits(s.drop_last())) by {
            assert forall|i: int| 0 <= i < s.drop_last().len() implies is_ascii_digit(
                #[trigger] s.drop_last()[i],
            ) by {
                assert(s.drop_last()[i] == s[i]);
            }
        }
        digits_value_bound(s.drop_last());
        digit_value_bound(s.last());
    }
}

proof fn single_digit_value(c: char)
    requires
        is_ascii_digit(c),
    ensures
        digits_value(seq![c]) == (c as nat) - ('0' as nat),
{
    assert(seq![c].drop_last() =~= Seq::<char>::empty());
    assert(digits_value(Seq::<char>::empty()) == 0);
}

proof fn all_digits_parts(s: Seq<char>)
    requires
        all_digits(s),
        s.len() > 0,
    ensures
        is_ascii_digit(s[0]),
        all_digits(s.drop_first()),
{
    assert forall|i: int| 0 <= i < s.drop_first().len() implies is_ascii_digit(
        #[trigger] s.drop_first()[i],
    ) by {
        assert(s.drop_first()[i] == s[i + 1]);
    }
}

proof fn digit_order_is_numeric_order(x: Seq<char>, y: Seq<char>)
    requires
        x.len() == y.len(),
        all_digits(x),
        all_digits(y),
    ensures
        text_less(x, y) <==> digits_value(x) < digits_value(y),
        x == y <==> digits_value(x) == digits_value(y),
    decreases x.len(),
{
    if x.len() > 0 {
        all_digits_parts(x);
        all_digits_parts(y);
        digit_order_is_numeric_order(x.drop_first(), y.drop_first());
        assert(x =~= seq![x[0]] + x.drop_first());
        assert(y =~= seq![y[0]] + y.drop_first());
        digits_value_append(seq![x[0]], x.drop_first());
        digits_value_append(seq![y[0]], y.drop_first());
        single_digit_value(x[0]);
        single_digit_value(y[0]);
        digits_value_bound(x.drop_first());
        digits_value_bound(y.drop_first());
        let p = pow10(x.drop_first().len());
        let a = (x[0] as nat) - ('0' as nat);
        let b = (y[0] as nat) - ('0' as nat);
        let rx = digits_value(x.drop_first());
        let ry = digits_value(y.drop_first());
        assert(digits_value(x) == a * p + rx);
        assert(digits_value(y) == b * p + ry);
        if a < b {
            assert(a * p + rx < b * p + ry) by (nonlinear_arith)
                requires
                    a < b,
                    rx < p,
            ;
        } else if b < a {
            assert(b * p + ry < a * p + rx) by (nonlinear_arith)
                requires
                    b < a,
                    ry < p,
            ;
        }
        if x[0] == y[0] && x.drop_first() == y.drop_first() {
            assert(x =~= y);
        }
    } else {
        assert(x =~= y);
    }
}

proof fn text_less_after_equal_length(a: Seq<char>, b: Seq<char>, x: Seq<char>, y: Seq<char>)
    requires
        a.len() == b.len(),
    ensures
        text_less(a + x, b + y) == (text_less(a, b) || (a == b && text_less(x, y))),
    decreases a.len(),
{
    if a.len() == 0 {
        assert(a + x =~= x);
        assert(b + y =~= y);
        assert(a =~= b);
    } else {
        assert((a + x).drop_first() =~= a.drop_first() + x);
        assert((b + y).drop_first() =~= b.drop_first() + y);
        assert((a + x)[0] == a[0]);
        assert((b + y)[0] == b[0]);
        text_less_after_equal_length(a.drop_first(), b.drop_first(), x, y);
        if a[0] == b[0] && a.drop_first() == b.drop_first() {
            assert forall|i: int| 0 <= i < a.len() implies a[i] == b[i] by {
                if i > 0 {
                    assert(a[i] == a.drop_first()[i - 1]);
                    assert(b[i] == b.drop_first()[i - 1]);
                }
            }
            assert(a =~= b);
        }
        if a == b {
            assert(a.drop_first() == b.drop_first());
        }
    }
}

proof fn zeros_are_digits(n: nat)
    ensures
        all_digits(repeat_char('0', n)),
        digits_value(repeat_char('0', n)) == 0,
    decreases n,
{
    if n > 0 {
        zeros_are_digits((n - 1) as nat);
        assert(repeat_char('0', n).drop_last() =~= repeat_char('0', (n - 1) as nat));
    }
}

proof fn stripping_zeros_keeps_value(s: Seq<char>)
    requires
        all_digits(s),
    ensures
        all_digits(strip_leading_zeros(s)),
        digits_value(strip_leading_zeros(s)) == digits_value(s),
        strip_leading_zeros(s).len() <= s.len(),
    decreases s.len(),
{
    if s.len() > 0 && s[0] == '0' {
        all_digits_parts(s);
        stripping_zeros_keeps_value(s.drop_first());
        assert(s =~= seq!['0'] + s.drop_first());
        digits_value_append(seq!['0'], s.drop_first());
        single_digit_value('0');
        let p = pow10(s.drop_first().len());
        assert(0 * p == 0) by (nonlinear_arith);
    }
}

proof fn numeric_label_parts(s: Seq<char>)
    requires
        is_numeric_label(s),
    ensures
        all_digits(integer_digits(s)),
        all_digits(fraction_digits(s)),
        fraction_digits(s).len() <= 3,
        all_digits(significant_integer(s)),
        digits_value(significant_integer(s)) == digits_value(integer_digits(s)),
{
    if !all_digits(s) {
        let k = choose|k: int| decimal_split(s, k);
        assert(decimal_split(s, k));
    }
    stripping_zeros_keeps_value(integer_digits(s));
    if strip_leading_zeros(integer_digits(s)).len() == 0 {
        single_digit_value('0');
        assert(strip_leading_zeros(integer_digits(s)) =~= Seq::<char>::empty());
        assert(digits_value(Seq::<char>::empty()) == 0);
        assert(all_digits(seq!['0'])) by {
            assert forall|i: int| 0 <= i < 1 implies is_ascii_digit(#[trigger] seq!['0'][i]) by {
            }
        }
    }
}

/// The six integer digits and the three fraction digits of a numeric sort key.
pub open spec fn padded_integer(s: Seq<char>) -> Seq<char> {
    repeat_char('0', (6 - significant_integer(s).len()) as nat) + significant_integer(s)
}

/// The three fraction digits of a numeric sort key.
pub open spec fn padded_fraction(s: Seq<char>) -> Seq<char> {
    fraction_digits(s) + repeat_char('0', (3 - fraction_digits(s).len()) as nat)
}

proof fn numeric_key_parts(s: Seq<char>)
    requires
        is_numeric_label(s),
        volume_sort_key(s) is Some,
    ensures
        volume_sort_key(s) == Some(
            seq!['0', ':'] + (padded_integer(s) + (seq!['.'] + padded_fraction(s))),
        ),
        padded_integer(s).len() == 6,
        padded_fraction(s).len() == 3,
        all_digits(padded_integer(s)),
        all_digits(padded_fraction(s)),
        digits_value(padded_integer(s)) == digits_value(integer_digits(s)),
        digits_value(padded_fraction(s)) == digits_value(fraction_digits(s)) * pow10(
            (3 - fraction_digits(s).len()) as nat,
        ),
        digits_value(padded_fraction(s)) < 1000,
{
    numeric_label_parts(s);
    let sig = significant_integer(s);
    let frac = fraction_digits(s);
    let z1 = repeat_char('0', (6 - sig.len()) as nat);
    let z2 = repeat_char('0', (3 - frac.len()) as nat);
    zeros_are_digits((6 - sig.len()) as nat);
    zeros_are_digits((3 - frac.len()) as nat);
    assert(numeric_sort_key(sig, frac) =~= seq!['0', ':'] + (padded_integer(s) + (seq!['.']
        + padded_fraction(s))));
    digits_value_append(z1, sig);
    digits_value_append(frac, z2);
    assert(all_digits(z1 + sig)) by {
        assert forall|i: int| 0 <= i < (z1 + sig).len() implies is_ascii_digit(
            #[trigger] (z1 + sig)[i],
        ) by {
            if i < z1.len() {
                assert((z1 + sig)[i] == z1[i]);
            } else {
                assert((z1 + sig)[i] == sig[i - z1.len()]);
            }
        }
    }
    assert(all_digits(frac + z2)) by {
        assert forall|i: int| 0 <= i < (frac + z2).len() implies is_ascii_digit(
            #[trigger] (frac + z2)[i],
        ) by {
            if i < frac.len() {
                assert((frac + z2)[i] == frac[i]);
            } else {
                assert((frac + z2)[i] == z2[i - frac.len()]);
            }
        }
    }
    digits_value_bound(frac + z2);
    assert(pow10(3) == 1000) by {
        assert(pow10(0) == 1);
        assert(pow10(1) == 10);
        assert(pow10(2) == 100);
    }
}

/// The sort keys of numeric volume labels order them by value, as numbers, not as
/// text: a key comes first exactly when its label's value is smaller, and two keys
/// are equal exactly when the values are (`2` before `11`, `3.5` between `3` and `4`,
/// `007` the same as `7`).
pub proof fn numeric_sort_keys_follow_label_values(a: Seq<char>, b: Seq<char>)
    requires
        is_numeric_label(a),
        is_numeric_label(b),
        volume_sort_key(a) is Some,
        volume_sort_key(b) is Some,
    ensures
        text_less(volume_sort_key(a)->0, volume_sort_key(b)->0) <==> label_thousandths(a)
            < label_thousandths(b),
        volume_sort_key(a)->0 == volume_sort_key(b)->0 <==> label_thousandths(a)
            == label_thousandths(b),
{
    numeric_key_parts(a);
    numeric_key_parts(b);
    let ia = padded_integer(a);
    let ib = padded_integer(b);
    let fa = padded_fraction(a);
    let fb = padded_fraction(b);
    let ka = volume_sort_key(a)->0;
    let kb = volume_sort_key(b)->0;
    text_less_after_equal_length(seq!['0', ':'], seq!['0', ':'], ia + (seq!['.'] + fa), ib + (
    seq!['.'] + fb));
    text_less_after_equal_length(ia, ib, seq!['.'] + fa, seq!['.'] + fb);
    text_less_after_equal_length(seq!['.'], seq!['.'], fa, fb);
    digit_order_is_numeric_order(ia, ib);
    digit_order_is_numeric_order(fa, fb);
    text_less_irreflexive(seq!['0', ':']);
    text_less_irreflexive(seq!['.']);
    if ka != kb {
        text_less_total(ka, kb);
        text_less_after_equal_length(seq!['0', ':'], seq!['0', ':'], ib + (seq!['.'] + fb), ia
            + (seq!['.'] + fa));
        text_less_after_equal_length(ib, ia, seq!['.'] + fb, seq!['.'] + fa);
        text_less_after_equal_length(seq!['.'], seq!['.'], fb, fa);
        digit_order_is_numeric_order(ib, ia);
        digit_order_is_numeric_order(fb, fa);
    } else {
        text_less_irreflexive(ka);
        assert(ia + (seq!['.'] + fa) =~= ka.skip(2));
        assert(ib + (seq!['.'] + fb) =~= kb.skip(2));
        assert(ia =~= ka.subrange(2, 8));
        assert(ib =~= kb.subrange(2, 8));
        assert(fa =~= ka.skip(9));
        assert(fb =~= kb.skip(9));
    }
}

} // verus!

verus! {

/// The group a volume label sorts in: numbers (0), `上` and `下` (1), `全一冊` (2),
/// every other label (9).
pub open spec fn label_group(s: Seq<char>) -> int {
    if is_numeric_label(s) {
        0
    } else if s == seq!['上'] || s == seq!['下'] {
        1
    } else if s == seq!['全', '一', '冊'] {
        2
    } else {
        9
    }
}

/// Sort keys keep the groups apart: every label of an earlier group sorts before
/// every label of a later one, whatever the labels hold.
pub proof fn sort_keys_keep_label_groups_apart(a: Seq<char>, b: Seq<char>)
    requires
        volume_sort_key(a) is Some,
        volume_sort_key(b) is Some,
        label_group(a) < label_group(b),
    ensures
        text_less(volume_sort_key(a)->0, volume_sort_key(b)->0),
{
    let ka = volume_sort_key(a)->0;
    let kb = volume_sort_key(b)->0;
    if is_numeric_label(a) {
        numeric_key_parts(a);
    }
    assert(ka[0] == (if label_group(a) == 0 {
        '0'
    } else if label_group(a) == 1 {
        '1'
    } else if label_group(a) == 2 {
        '2'
    } else {
        '9'
    }));
    assert(kb[0] == (if label_group(b) == 0 {
        '0'
    } else if label_group(b) == 1 {
        '1'
    } else if label_group(b) == 2 {
        '2'
    } else {
        '9'
    }));
}

} // verus!
