use vstd::prelude::*;

use crate::models::{CoverAsset, CoverMimeType};
use crate::text::text_equals;

verus! {

/// A row whose columns do not make a valid value: a column that must be set is
/// empty, or a text column holds a value that no variant has.
#[derive(Debug, Clone, Copy, PartialEq, Eq)]
pub struct MalformedRow;

/// What the five cover columns of a row (asset id, relative path, MIME type, byte
/// size, digest) stand for: no cover where the id is empty, a cover where all five
/// are set and the MIME type is known, and a malformed row otherwise.
pub open spec fn cover_of_columns(
    id: Option<String>,
    relative_path: Option<String>,
    mime_type: Option<String>,
    byte_size: Option<i64>,
    sha256: Option<String>,
) -> Result<Option<CoverAsset>, MalformedRow> {
    match id {
        None => Ok(None),
        Some(id) => {
            if relative_path is Some && mime_type is Some && byte_size is Some && sha256 is Some {
                match CoverMimeType::from_text(mime_type.unwrap()@) {
                    Some(mime) => Ok(
                        Some(
                            CoverAsset {
                                id,
                                relative_path: relative_path.unwrap(),
                                mime_type: mime,
                                byte_size: byte_size.unwrap(),
                                sha256: sha256.unwrap(),
                            },
                        ),
                    ),
                    None => Err(MalformedRow),
                }
            } else {
                Err(MalformedRow)
            }
        },
    }
}

/// Reads the cover of a series or a volume from its five cover columns.
pub fn cover_from_columns(
    id: Option<String>,
    relative_path: Option<String>,
    mime_type: Option<String>,
    byte_size: Option<i64>,
    sha256: Option<String>,
) -> (cover: Result<Option<CoverAsset>, MalformedRow>)
    ensures
        cover == cover_of_columns(id, relative_path, mime_type, byte_size, sha256),
{
    let id = match id {
        None => return Ok(None),
        Some(id) => id,
    };
    let relative_path = match relative_path {
        None => return Err(MalformedRow),
        Some(path) => path,
    };
    let mime_text = match mime_type {
        None => return Err(MalformedRow),
        Some(text) => text,
    };
    let byte_size = match byte_size {
        None => return Err(MalformedRow),
        Some(size) => size,
    };
    let sha256 = match sha256 {
        None => return Err(MalformedRow),
        Some(digest) => digest,
    };
    match CoverMimeType::from_db(mime_text.as_str()) {
        Some(mime) => Ok(Some(CoverAsset { id, relative_path, mime_type: mime, byte_size, sha256 })),
        None => Err(MalformedRow),
    }
}

/// The values of the rows whose key is `key`, in row order.
pub open spec fn rows_for<T>(rows: Seq<(String, T)>, key: Seq<char>) -> Seq<T>
    decreases rows.len(),
{
    if rows.len() == 0 {
        Seq::empty()
    } else {
        rows_for(rows.drop_last(), key) + (if rows.last().0@ == key {
            seq![rows.last().1]
        } else {
            Seq::empty()
        })
    }
}

/// `keys[k]` is the first of the keys with its text.
pub open spec fn first_with_key(keys: Seq<String>, k: int) -> bool {
    forall|j: int| 0 <= j < k ==> keys[j]@ != keys[k]@
}

/// What each key gets: all values filed under its text, in row order, for the first
/// key with that text, and nothing for a later key with the same text.
pub open spec fn group_for<T>(keys: Seq<String>, rows: Seq<(String, T)>, k: int) -> Seq<T> {
    if first_with_key(keys, k) {
        rows_for(rows, keys[k]@)
    } else {
        Seq::empty()
    }
}

/// Files each row's value under the first key with the row's key text, keeping row
/// order: the groups of contributors and publishers of each series, and of volumes
/// of each edition. Rows whose key matches none are dropped.
pub fn group_rows<T>(keys: &Vec<String>, rows: Vec<(String, T)>) -> (groups: Vec<Vec<T>>)
    ensures
        groups@.len() == keys@.len(),
        forall|k: int| 0 <= k < keys@.len() ==> #[trigger] groups@[k]@ == group_for(keys@, rows@, k),
{
    let n = keys.len();
    let ghost all = rows@;
    let mut groups: Vec<Vec<T>> = Vec::new();
    let mut k: usize = 0;
    while k < n
        invariant
            k <= n == keys@.len(),
            groups@.len() == k,
            forall|q: int| 0 <= q < k ==> (#[trigger] groups@[q])@ == Seq::<T>::empty(),
        decreases n - k,
    {
        groups.push(Vec::new());
        k = k + 1;
    }
    assert(all.take(0) =~= Seq::<(String, T)>::empty());
    for row in it: rows
        invariant
            n == keys@.len(),
            it.seq() == all,
            groups@.len() == n,
            forall|q: int|
                0 <= q < n ==> #[trigger] groups@[q]@ == group_for(keys@, all.take(it.index() as int), q),
    {
        let ghost i = it.index();
        proof {
            assert(all.take(i + 1).drop_last() =~= all.take(i as int));
            assert(all.take(i + 1).last() == row);
        }
        let mut p: usize = 0;
        while p < n && !text_equals(keys[p].as_str(), row.0.as_str())
            invariant
                p <= n == keys@.len(),
                forall|q: int| 0 <= q < p ==> (#[trigger] keys@[q])@ != row.0@,
            decreases n - p,
        {
            p = p + 1;
        }
        if p < n {
            let ghost before = groups@;
            let mut group = groups.remove(p);
            group.push(row.1);
            groups.insert(p, group);
            proof {
                assert(first_with_key(keys@, p as int));
                assert forall|q: int| 0 <= q < n implies #[trigger] groups@[q]@ == group_for(
                    keys@,
                    all.take(i + 1),
                    q,
                ) by {
                    if q != p {
                        assert(groups@[q] == before[q]);
                        if first_with_key(keys@, q) && keys@[q]@ == row.0@ {
                            assert(q > p);
                            assert(keys@[p as int]@ == keys@[q]@);
                        }
                    }
                }
            }
        } else {
            proof {
                assert forall|q: int| 0 <= q < n implies #[trigger] groups@[q]@ == group_for(
                    keys@,
                    all.take(i + 1),
                    q,
                ) by {
                    assert(keys@[q]@ != row.0@);
                    assert(rows_for(all.take(i + 1), keys@[q]@) =~= rows_for(
                        all.take(i as int),
                        keys@[q]@,
                    ));
                }
            }
        }
    }
    assert(all.take(all.len() as int) =~= all);
    groups
}

} // verus!
