use vstd::prelude::*;

use crate::models::SeriesSummary;
use crate::text::{chars_of, push_char, trim, trimmed};

verus! {

/// One character as it is written in a `LIKE` pattern whose escape character is
/// `\`: the escape character and the two wildcards `%` and `_` are preceded by `\`.
pub open spec fn like_escaped_char(c: char) -> Seq<char> {
    if c == '\\' || c == '%' || c == '_' {
        seq!['\\', c]
    } else {
        seq![c]
    }
}

/// `s` written as a `LIKE` pattern that matches it literally.
pub open spec fn like_escaped(s: Seq<char>) -> Seq<char>
    decreases s.len(),
{
    if s.len() == 0 {
        Seq::empty()
    } else {
        like_escaped_char(s[0]) + like_escaped(s.drop_first())
    }
}

/// The text a `LIKE` pattern with escape character `\` matches literally, or `None`
/// when the pattern holds an unescaped wildcard or ends in a lone `\`.
pub open spec fn like_literal(p: Seq<char>) -> Option<Seq<char>>
    decreases p.len(),
{
    if p.len() == 0 {
        Some(Seq::empty())
    } else if p[0] == '\\' {
        if p.len() < 2 {
            None
        } else {
            match like_literal(p.skip(2)) {
                Some(rest) => Some(seq![p[1]] + rest),
                None => None,
            }
        }
    } else if p[0] == '%' || p[0] == '_' {
        None
    } else {
        match like_literal(p.drop_first()) {
            Some(rest) => Some(seq![p[0]] + rest),
            None => None,
        }
    }
}

proof fn like_escaped_push(s: Seq<char>, c: char)
    ensures
        like_escaped(s.push(c)) == like_escaped(s) + like_escaped_char(c),
    decreases s.len(),
{
    if s.len() == 0 {
        assert(s.push(c).drop_first() =~= Seq::<char>::empty());
        assert(like_escaped(s.push(c).drop_first()) == Seq::<char>::empty());
        assert(s.push(c)[0] == c);
        assert(like_escaped(s.push(c)) =~= like_escaped_char(c));
    } else {
        assert(s.push(c).drop_first() =~= s.drop_first().push(c));
        like_escaped_push(s.drop_first(), c);
        assert(like_escaped(s.push(c)) =~= like_escaped(s) + like_escaped_char(c));
    }
}

/// `value` written as a `LIKE` pattern that matches it literally.
pub fn escape_like_pattern(value: &str) -> (pattern: String)
    ensures
        pattern@ == like_escaped(value@),
{
    let chars = chars_of(value);
    let ghost s = chars@;
    let mut pattern = String::new();
    let n = chars.len();
    let mut i: usize = 0;
    assert(s.take(0) =~= Seq::<char>::empty());
    while i < n
        invariant
            i <= n == s.len(),
            s == chars@,
            pattern@ == like_escaped(s.take(i as int)),
        decreases n - i,
    {
        let c = chars[i];
        proof {
            like_escaped_push(s.take(i as int), c);
            assert(s.take(i as int).push(c) =~= s.take(i + 1));
        }
        if c == '\\' || c == '%' || c == '_' {
            push_char(&mut pattern, '\\');
        }
        push_char(&mut pattern, c);
        assert(pattern@ =~= like_escaped(s.take(i + 1)));
        i = i + 1;
    }
    assert(s.take(n as int) =~= s);
    pattern
}

/// The pattern a series search text becomes: the text without surrounding white
/// space, escaped so that it matches literally.
pub fn search_pattern(query: &str) -> (pattern: String)
    ensures
        pattern@ == like_escaped(trimmed(query@)),
{
    let text = trim(query);
    escape_like_pattern(text.as_str())
}

/// The escaped pattern matches exactly the text it was made from: it holds no
/// wildcard, and reading its escapes back gives the text.
pub proof fn escaped_pattern_matches_only_its_text(s: Seq<char>)
    ensures
        like_literal(like_escaped(s)) == Some(s),
    decreases s.len(),
{
    if s.len() > 0 {
        escaped_pattern_matches_only_its_text(s.drop_first());
        let p = like_escaped(s);
        let c = s[0];
        if c == '\\' || c == '%' || c == '_' {
            assert(p.skip(2) =~= like_escaped(s.drop_first()));
        } else {
            assert(p.drop_first() =~= like_escaped(s.drop_first()));
        }
        assert(seq![c] + s.drop_first() =~= s);
    }
}

/// A series of which at least one volume is owned.
pub open spec fn has_owned_volume(summary: SeriesSummary) -> bool {
    summary.owned_volume_count > 0
}

/// Keeps, in order, the series that own at least one volume: of the incomplete
/// series, those the dashboard lists.
pub fn keep_series_with_owned_volumes(series: Vec<SeriesSummary>) -> (kept: Vec<SeriesSummary>)
    ensures
        kept@ == series@.filter(|s: SeriesSummary| has_owned_volume(s)),
{
    let ghost all = series@;
    let mut kept: Vec<SeriesSummary> = Vec::new();
    assert(all.take(0).filter(|s: SeriesSummary| has_owned_volume(s)) =~= Seq::<
        SeriesSummary,
    >::empty()) by {
        reveal(Seq::filter);
    }
    for summary in it: series
        invariant
            it.seq() == all,
            kept@ == all.take(it.index() as int).filter(|s: SeriesSummary| has_owned_volume(s)),
    {
        proof {
            reveal(Seq::filter);
            assert(all.take(it.index() + 1).drop_last() =~= all.take(it.index() as int));
        }
        if summary.owned_volume_count > 0 {
            kept.push(summary);
        }
    }
    assert(all.take(all.len() as int) =~= all);
    kept
}

} // verus!

verus! {

/// The dashboard keeps a series exactly when at least one of its volumes is owned,
/// whatever its known and missing counts: every kept series is one of the given
/// series with a positive owned count, every such series is kept, and kept series
/// keep their order (the kept list is the given one with the others left out).
pub proof fn dashboard_keeps_exactly_series_with_owned_volumes(
    series: Seq<SeriesSummary>,
    kept: Seq<SeriesSummary>,
    x: SeriesSummary,
)
    requires
        kept == series.filter(|s: SeriesSummary| has_owned_volume(s)),
    ensures
        kept.contains(x) <==> series.contains(x) && x.owned_volume_count > 0,
        forall|i: int| 0 <= i < kept.len() ==> #[trigger] kept[i].owned_volume_count > 0,
        kept.len() <= series.len(),
    decreases series.len(),
{
    reveal(Seq::filter);
    let pred = |s: SeriesSummary| has_owned_volume(s);
    if series.len() > 0 {
        let rest = series.drop_last();
        let kept_rest = rest.filter(pred);
        dashboard_keeps_exactly_series_with_owned_volumes(rest, kept_rest, x);
        assert(series =~= rest.push(series.last()));
        if pred(series.last()) {
            assert(kept =~= kept_rest.push(series.last()));
            assert forall|i: int| 0 <= i < kept.len() implies #[trigger] kept[i].owned_volume_count
                > 0 by {
                if i < kept_rest.len() {
                    assert(kept[i] == kept_rest[i]);
                }
            }
            if kept.contains(x) && x != series.last() {
                let i = choose|i: int| 0 <= i < kept.len() && kept[i] == x;
                assert(kept_rest[i] == x);
            }
            if series.contains(x) && x.owned_volume_count > 0 && x != series.last() {
                let i = choose|i: int| 0 <= i < series.len() && series[i] == x;
                assert(rest[i] == x);
                let j = choose|j: int| 0 <= j < kept_rest.len() && kept_rest[j] == x;
                assert(kept[j] == x);
            }
            if x == series.last() {
                assert(kept[kept.len() - 1] == x);
                assert(series[series.len() - 1] == x);
            }
        } else {
            assert(kept == kept_rest);
            if series.contains(x) && x != series.last() {
                let i = choose|i: int| 0 <= i < series.len() && series[i] == x;
                assert(rest[i] == x);
            }
            if rest.contains(x) {
                let i = choose|i: int| 0 <= i < rest.len() && rest[i] == x;
                assert(series[i] == x);
            }
        }
    }
}

} // verus!
