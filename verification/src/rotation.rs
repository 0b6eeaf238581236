use vstd::prelude::*;

use crate::backup::{backup_timestamp, backup_timestamp_of};
use crate::text::{chars_of, text_less, text_less_irreflexive, text_less_total, text_less_transitive};

verus! {

/// How many update backups are kept.
pub const BACKUPS_TO_KEEP: usize = 3;

/// A file name that is an update backup's.
pub open spec fn is_backup_file(name: Seq<char>) -> bool {
    backup_timestamp_of(name) is Some
}

/// Backup `a` is older than backup `b`: an earlier timestamp, or the same timestamp
/// and a name that comes first.
pub open spec fn backup_older(a: Seq<char>, b: Seq<char>) -> bool {
    let ta = backup_timestamp_of(a)->0;
    let tb = backup_timestamp_of(b)->0;
    ta < tb || (ta == tb && text_less(a, b))
}

/// In the order backups are rotated in, the entry at `i` comes before the one at `j`:
/// it is older, or it is the same name listed earlier.
pub open spec fn rotation_precedes(names: Seq<String>, i: int, j: int) -> bool {
    backup_older(names[i]@, names[j]@) || (names[i]@ == names[j]@ && i < j)
}

/// The entry at `j` is a backup that comes after the backup at `i`.
pub open spec fn is_newer_backup(names: Seq<String>, i: int, j: int) -> bool {
    is_backup_file(names[j]@) && rotation_precedes(names, i, j)
}

/// How many of the first `m` entries are backups newer than the one at `i`.
pub open spec fn newer_backup_count(names: Seq<String>, i: int, m: int) -> nat
    decreases m,
{
    if m <= 0 {
        0
    } else {
        newer_backup_count(names, i, m - 1) + (if is_newer_backup(names, i, m - 1) {
            1nat
        } else {
            0nat
        })
    }
}

/// The entry at `i` is a backup with at least `BACKUPS_TO_KEEP` newer backups beside
/// it: one that rotation removes.
pub open spec fn is_expired_backup(names: Seq<String>, i: int) -> bool {
    &&& 0 <= i < names.len()
    &&& is_backup_file(names[i]@)
    &&& newer_backup_count(names, i, names.len() as int) >= BACKUPS_TO_KEEP
}

/// Whether `a` comes before `b` (see `text_less`).
fn chars_less(a: &Vec<char>, b: &Vec<char>) -> (r: bool)
    ensures
        r == text_less(a@, b@),
{
    let mut i: usize = 0;
    assert(a@.skip(0) =~= a@);
    assert(b@.skip(0) =~= b@);
    while i < a.len() && i < b.len() && a[i] == b[i]
        invariant
            i <= a@.len(),
            i <= b@.len(),
            text_less(a@, b@) == text_less(a@.skip(i as int), b@.skip(i as int)),
        decreases a@.len() - i,
    {
        assert(a@.skip(i as int).drop_first() =~= a@.skip(i + 1));
        assert(b@.skip(i as int).drop_first() =~= b@.skip(i + 1));
        i = i + 1;
    }
    if i == b.len() {
        false
    } else if i == a.len() {
        true
    } else {
        assert(a@.skip(i as int)[0] == a@[i as int]);
        assert(b@.skip(i as int)[0] == b@[i as int]);
        let x: char = a[i];
        let y: char = b[i];
        x < y
    }
}

} // verus!

verus! {

proof fn rotation_order_is_strict(names: Seq<String>, i: int, j: int, k: int)
    ensures
        !rotation_precedes(names, i, i),
        rotation_precedes(names, i, j) && rotation_precedes(names, j, k) ==> rotation_precedes(
            names,
            i,
            k,
        ),
        i != j ==> rotation_precedes(names, i, j) || rotation_precedes(names, j, i),
        rotation_precedes(names, i, j) ==> !rotation_precedes(names, j, i),
{
    text_less_irreflexive(names[i]@);
    if names[i]@ != names[j]@ {
        text_less_total(names[i]@, names[j]@);
    }
    if text_less(names[i]@, names[j]@) && text_less(names[j]@, names[k]@) {
        text_less_transitive(names[i]@, names[j]@, names[k]@);
    }
    if text_less(names[i]@, names[j]@) && text_less(names[j]@, names[i]@) {
        text_less_transitive(names[i]@, names[j]@, names[i]@);
    }
}

} // verus!

verus! {

/// Whether the backup at `i` comes before the backup at `j` in rotation order.
fn precedes_at(
    names: &Vec<String>,
    stamps: &Vec<Option<u64>>,
    texts: &Vec<Vec<char>>,
    i: usize,
    j: usize,
) -> (r: bool)
    requires
        i < names@.len(),
        j < names@.len(),
        keys_match(names@, stamps@, texts@),
        stamps@[i as int] is Some,
        stamps@[j as int] is Some,
    ensures
        r == rotation_precedes(names@, i as int, j as int),
{
    let ti = stamps[i].unwrap();
    let tj = stamps[j].unwrap();
    let a = &texts[i];
    let b = &texts[j];
    if ti < tj {
        return true;
    }
    if ti > tj {
        return false;
    }
    let less = chars_less(a, b);
    let greater = chars_less(b, a);
    proof {
        if a@ != b@ {
            text_less_total(a@, b@);
        } else {
            text_less_irreflexive(a@);
        }
    }
    less || (!greater && i < j)
}

/// The facts about `stamps` and `texts` the helpers below rely on.
pub open spec fn keys_match(names: Seq<String>, stamps: Seq<Option<u64>>, texts: Seq<Vec<char>>) -> bool {
    &&& stamps.len() == names.len()
    &&& texts.len() == names.len()
    &&& forall|k: int| 0 <= k < names.len() ==> #[trigger] stamps[k] == backup_timestamp_of(names[k]@)
    &&& forall|k: int| 0 <= k < names.len() ==> #[trigger] texts[k]@ == names[k]@
}

/// How many entries are backups newer than the backup at `i`.
fn count_newer_backups(
    names: &Vec<String>,
    stamps: &Vec<Option<u64>>,
    texts: &Vec<Vec<char>>,
    i: usize,
) -> (count: usize)
    requires
        i < names@.len(),
        keys_match(names@, stamps@, texts@),
        stamps@[i as int] is Some,
    ensures
        count == newer_backup_count(names@, i as int, names@.len() as int),
{
    let n = names.len();
    let mut count: usize = 0;
    let mut j: usize = 0;
    while j < n
        invariant
            i < n == names@.len(),
            j <= n,
            keys_match(names@, stamps@, texts@),
            stamps@[i as int] is Some,
            count == newer_backup_count(names@, i as int, j as int),
            count <= j,
        decreases n - j,
    {
        if stamps[j].is_some() && precedes_at(names, stamps, texts, i, j) {
            count = count + 1;
        }
        j = j + 1;
    }
    count
}

/// Inserts the backup at `i` into `expired`, which is in rotation order, keeping it so.
fn insert_in_rotation_order(
    names: &Vec<String>,
    stamps: &Vec<Option<u64>>,
    texts: &Vec<Vec<char>>,
    expired: &mut Vec<usize>,
    i: usize,
)
    requires
        i < names@.len(),
        keys_match(names@, stamps@, texts@),
        stamps@[i as int] is Some,
        forall|q: int|
            0 <= q < old(expired)@.len() ==> #[trigger] old(expired)@[q] < i && stamps@[old(
                expired,
            )@[q] as int] is Some,
        forall|a: int, b: int|
            0 <= a < b < old(expired)@.len() ==> rotation_precedes(
                names@,
                #[trigger] old(expired)@[a] as int,
                #[trigger] old(expired)@[b] as int,
            ),
    ensures
        forall|k: usize| #[trigger]
            final(expired)@.contains(k) <==> (old(expired)@.contains(k) || k == i),
        forall|a: int, b: int|
            0 <= a < b < final(expired)@.len() ==> rotation_precedes(
                names@,
                #[trigger] final(expired)@[a] as int,
                #[trigger] final(expired)@[b] as int,
            ),
{
    let ghost before = expired@;
    let mut p: usize = 0;
    while p < expired.len() && !precedes_at(names, stamps, texts, i, expired[p])
        invariant
            i < names@.len(),
            p <= expired@.len(),
            expired@ == before,
            keys_match(names@, stamps@, texts@),
            stamps@[i as int] is Some,
            forall|q: int|
                0 <= q < expired@.len() ==> #[trigger] expired@[q] < i && stamps@[expired@[q] as int] is Some,
            forall|q: int|
                0 <= q < p ==> !rotation_precedes(names@, i as int, #[trigger] expired@[q] as int),
        decreases expired@.len() - p,
    {
        p = p + 1;
    }
    proof {
        assert forall|q: int| 0 <= q < p implies rotation_precedes(
            names@,
            #[trigger] before[q] as int,
            i as int,
        ) by {
            rotation_order_is_strict(names@, i as int, before[q] as int, i as int);
        }
        if p < before.len() {
            assert forall|q: int| p <= q < before.len() implies rotation_precedes(
                names@,
                i as int,
                #[trigger] before[q] as int,
            ) by {
                if q > p {
                    rotation_order_is_strict(
                        names@,
                        i as int,
                        before[p as int] as int,
                        before[q] as int,
                    );
                }
            }
        }
    }
    expired.insert(p, i);
    proof {
        assert forall|a: int, b: int| 0 <= a < b < expired@.len() implies rotation_precedes(
            names@,
            #[trigger] expired@[a] as int,
            #[trigger] expired@[b] as int,
        ) by {
            if b < p {
                assert(expired@[a] == before[a] && expired@[b] == before[b]);
            } else if b == p {
                assert(expired@[a] == before[a]);
            } else if a == p {
                assert(expired@[b] == before[b - 1]);
            } else if a < p {
                assert(expired@[a] == before[a] && expired@[b] == before[b - 1]);
                rotation_order_is_strict(names@, before[a] as int, i as int, before[b - 1] as int);
            } else {
                assert(expired@[a] == before[a - 1] && expired@[b] == before[b - 1]);
            }
        }
        assert forall|k: usize| #[trigger]
            expired@.contains(k) <==> (before.contains(k) || k == i) by {
            if expired@.contains(k) {
                let q = choose|q: int| 0 <= q < expired@.len() && expired@[q] == k;
                if q < p {
                    assert(before[q] == k);
                } else if q > p {
                    assert(before[q - 1] == k);
                }
            }
            if k == i {
                assert(expired@[p as int] == i);
            } else if before.contains(k) {
                let q = choose|q: int| 0 <= q < before.len() && before[q] == k;
                if q < p {
                    assert(expired@[q] == k);
                } else {
                    assert(expired@[q + 1] == k);
                }
            }
        }
    }
}

/// The entries of a backup directory listing that rotation removes, by their index
/// in `names`, oldest first: the update backups (names that carry a timestamp) that
/// have at least `BACKUPS_TO_KEEP` newer backups beside them, so that only the
/// newest backups stay. Entries that are no backups are never chosen.
pub fn backups_to_remove(names: &Vec<String>) -> (expired: Vec<usize>)
    ensures
        forall|k: usize| #[trigger] expired@.contains(k) <==> is_expired_backup(names@, k as int),
        forall|a: int, b: int|
            0 <= a < b < expired@.len() ==> rotation_precedes(
                names@,
                #[trigger] expired@[a] as int,
                #[trigger] expired@[b] as int,
            ),
{
    let n = names.len();
    let mut stamps: Vec<Option<u64>> = Vec::new();
    let mut texts: Vec<Vec<char>> = Vec::new();
    let mut i: usize = 0;
    while i < n
        invariant
            i <= n == names@.len(),
            stamps@.len() == i,
            texts@.len() == i,
            forall|k: int| 0 <= k < i ==> #[trigger] stamps@[k] == backup_timestamp_of(names@[k]@),
            forall|k: int| 0 <= k < i ==> #[trigger] texts@[k]@ == names@[k]@,
        decreases n - i,
    {
        stamps.push(backup_timestamp(names[i].as_str()));
        texts.push(chars_of(names[i].as_str()));
        i = i + 1;
    }
    let mut expired: Vec<usize> = Vec::new();
    let mut i: usize = 0;
    while i < n
        invariant
            i <= n == names@.len(),
            keys_match(names@, stamps@, texts@),
            forall|k: usize| #[trigger]
                expired@.contains(k) <==> (k < i && is_expired_backup(names@, k as int)),
            forall|a: int, b: int|
                0 <= a < b < expired@.len() ==> rotation_precedes(
                    names@,
                    #[trigger] expired@[a] as int,
                    #[trigger] expired@[b] as int,
                ),
        decreases n - i,
    {
        if stamps[i].is_some() && count_newer_backups(names, &stamps, &texts, i)
            >= BACKUPS_TO_KEEP {
            assert forall|q: int| 0 <= q < expired@.len() implies #[trigger] expired@[q] < i
                && stamps@[expired@[q] as int] is Some by {
                assert(expired@.contains(expired@[q]));
            }
            insert_in_rotation_order(names, &stamps, &texts, &mut expired, i);
        }
        i = i + 1;
    }
    expired
}

} // verus!

verus! {

proof fn newer_count_of_older_backup(names: Seq<String>, i: int, j: int, m: int)
    requires
        rotation_precedes(names, j, i),
        0 <= i < names.len(),
        is_backup_file(names[i]@),
    ensures
        newer_backup_count(names, j, m) >= newer_backup_count(names, i, m) + (if 0 <= i < m {
            1nat
        } else {
            0nat
        }),
    decreases m,
{
    if m > 0 {
        newer_count_of_older_backup(names, i, j, m - 1);
        rotation_order_is_strict(names, j, i, m - 1);
        rotation_order_is_strict(names, i, i, i);
    }
}

proof fn newer_count_covers_three(names: Seq<String>, i: int, x: int, y: int, z: int, m: int)
    requires
        x != y,
        y != z,
        x != z,
        is_newer_backup(names, i, x),
        is_newer_backup(names, i, y),
        is_newer_backup(names, i, z),
    ensures
        newer_backup_count(names, i, m) >= (if 0 <= x < m {
            1nat
        } else {
            0nat
        }) + (if 0 <= y < m {
            1nat
        } else {
            0nat
        }) + (if 0 <= z < m {
            1nat
        } else {
            0nat
        }),
    decreases m,
{
    if m > 0 {
        newer_count_covers_three(names, i, x, y, z, m - 1);
    }
}

/// Rotation removes the oldest backups: every backup it removes is older than every
/// backup it keeps.
pub proof fn rotation_removes_only_older_backups(names: Seq<String>, i: int, j: int)
    requires
        is_expired_backup(names, i),
        0 <= j < names.len(),
        is_backup_file(names[j]@),
        !is_expired_backup(names, j),
    ensures
        rotation_precedes(names, i, j),
{
    rotation_order_is_strict(names, i, j, i);
    if rotation_precedes(names, j, i) {
        newer_count_of_older_backup(names, i, j, names.len() as int);
    }
}

/// Rotation keeps at most `BACKUPS_TO_KEEP` backups: of any four backups in a
/// listing, at least one is removed.
pub proof fn rotation_keeps_at_most_three(names: Seq<String>, a: int, b: int, c: int, d: int)
    requires
        0 <= a < names.len(),
        0 <= b < names.len(),
        0 <= c < names.len(),
        0 <= d < names.len(),
        a != b && a != c && a != d && b != c && b != d && c != d,
        is_backup_file(names[a]@),
        is_backup_file(names[b]@),
        is_backup_file(names[c]@),
        is_backup_file(names[d]@),
    ensures
        is_expired_backup(names, a) || is_expired_backup(names, b) || is_expired_backup(names, c)
            || is_expired_backup(names, d),
{
    let n = names.len() as int;
    rotation_order_is_strict(names, a, b, c);
    rotation_order_is_strict(names, a, b, d);
    rotation_order_is_strict(names, a, c, d);
    rotation_order_is_strict(names, b, c, d);
    rotation_order_is_strict(names, b, a, c);
    rotation_order_is_strict(names, b, a, d);
    rotation_order_is_strict(names, c, a, b);
    rotation_order_is_strict(names, c, a, d);
    rotation_order_is_strict(names, c, b, d);
    rotation_order_is_strict(names, d, a, b);
    rotation_order_is_strict(names, d, a, c);
    rotation_order_is_strict(names, d, b, c);
    rotation_order_is_strict(names, a, c, b);
    rotation_order_is_strict(names, a, d, b);
    rotation_order_is_strict(names, a, d, c);
    rotation_order_is_strict(names, b, d, c);
    rotation_order_is_strict(names, b, c, a);
    rotation_order_is_strict(names, b, d, a);
    rotation_order_is_strict(names, c, b, a);
    rotation_order_is_strict(names, c, d, a);
    rotation_order_is_strict(names, c, d, b);
    rotation_order_is_strict(names, d, b, a);
    rotation_order_is_strict(names, d, c, a);
    rotation_order_is_strict(names, d, c, b);
    if rotation_precedes(names, a, b) && rotation_precedes(names, a, c) && rotation_precedes(
        names,
        a,
        d,
    ) {
        newer_count_covers_three(names, a, b, c, d, n);
    } else if rotation_precedes(names, b, a) && rotation_precedes(names, b, c)
        && rotation_precedes(names, b, d) {
        newer_count_covers_three(names, b, a, c, d, n);
    } else if rotation_precedes(names, c, a) && rotation_precedes(names, c, b)
        && rotation_precedes(names, c, d) {
        newer_count_covers_three(names, c, a, b, d, n);
    } else {
        newer_count_covers_three(names, d, a, b, c, n);
    }
}

} // verus!

verus! {

proof fn no_newer_backup_counts_zero(names: Seq<String>, i: int, m: int)
    requires
        m <= names.len(),
        forall|j: int| 0 <= j < names.len() && j != i ==> !#[trigger] is_newer_backup(names, i, j),
    ensures
        newer_backup_count(names, i, m) == 0,
    decreases m,
{
    if m > 0 {
        no_newer_backup_counts_zero(names, i, m - 1);
        rotation_order_is_strict(names, i, i, i);
    }
}

/// Rotation keeps the newest backup, the one an update has just written: a backup
/// that every other backup in the listing comes before is never removed.
pub proof fn rotation_keeps_the_newest_backup(names: Seq<String>, i: int)
    requires
        0 <= i < names.len(),
        is_backup_file(names[i]@),
        forall|j: int|
            0 <= j < names.len() && j != i && is_backup_file(#[trigger] names[j]@)
                ==> rotation_precedes(names, j, i),
    ensures
        !is_expired_backup(names, i),
{
    assert forall|j: int| 0 <= j < names.len() && j != i implies !#[trigger] is_newer_backup(
        names,
        i,
        j,
    ) by {
        if is_backup_file(names[j]@) {
            rotation_order_is_strict(names, j, i, j);
        }
    }
    no_newer_backup_counts_zero(names, i, names.len() as int);
}

} // verus!
