use vstd::prelude::*;

use crate::error::AppError;
use crate::text::{chars_of, is_plain_file_name, push_char};
use crate::volume_label::{all_digits, digits_value, is_ascii_digit};

verus! {

/// A character allowed in a version text: an ASCII letter or digit, `.`, `-` or `+`.
pub open spec fn is_version_char(c: char) -> bool {
    ||| ('0' <= c && c <= '9')
    ||| ('a' <= c && c <= 'z')
    ||| ('A' <= c && c <= 'Z')
    ||| c == '.'
    ||| c == '-'
    ||| c == '+'
}

/// A version text that may become part of a file name: non-empty, of version
/// characters only, so it can hold no path separator. (Such text is ASCII, so this
/// is the byte-wise test as well.)
pub open spec fn is_valid_version(s: Seq<char>) -> bool {
    s.len() > 0 && forall|i: int| 0 <= i < s.len() ==> is_version_char(#[trigger] s[i])
}

/// Whether `version` may become part of a backup file name.
pub fn valid_version(version: &str) -> (r: bool)
    ensures
        r == is_valid_version(version@),
{
    let chars = chars_of(version);
    if chars.len() == 0 {
        return false;
    }
    let mut i: usize = 0;
    while i < chars.len()
        invariant
            i <= chars@.len(),
            chars@ == version@,
            forall|j: int| 0 <= j < i ==> is_version_char(#[trigger] chars@[j]),
        decreases chars@.len() - i,
    {
        let c = chars[i];
        let allowed = ('0' <= c && c <= '9') || ('a' <= c && c <= 'z') || ('A' <= c && c <= 'Z')
            || c == '.' || c == '-' || c == '+';
        if !allowed {
            assert(!is_version_char(version@[i as int]));
            return false;
        }
        i = i + 1;
    }
    true
}

/// The decimal digit for `d` (0 to 9).
pub open spec fn digit_char(d: nat) -> char {
    (('0' as nat) + d) as char
}

/// `n` in decimal, without leading zeros (`0` is `"0"`).
pub open spec fn decimal(n: nat) -> Seq<char>
    decreases n,
{
    if n < 10 {
        seq![digit_char(n)]
    } else {
        decimal(n / 10) + seq![digit_char(n % 10)]
    }
}

/// Pushes `n` in decimal onto `text`.
fn push_decimal(text: &mut String, n: u64)
    ensures
        final(text)@ == old(text)@ + decimal(n as nat),
    decreases n,
{
    if n >= 10 {
        push_decimal(text, n / 10);
    }
    let d = (n % 10) as u32;
    push_char(text, ((48 + d) as u8) as char);
    assert(final(text)@ =~= old(text)@ + decimal(n as nat));
}

/// What `str::parse::<u64>` gives for `s`: an optional `+`, then one or more digits
/// whose value fits in 64 bits; `None` for anything else.
pub open spec fn parsed_u64(s: Seq<char>) -> Option<u64> {
    let digits = if s.len() > 0 && s[0] == '+' {
        s.drop_first()
    } else {
        s
    };
    if digits.len() > 0 && all_digits(digits) && digits_value(digits) <= u64::MAX {
        Some(digits_value(digits) as u64)
    } else {
        None
    }
}

proof fn digits_value_grows(s: Seq<char>, t: Seq<char>)
    requires
        all_digits(t),
    ensures
        digits_value(s) <= digits_value(s + t),
    decreases t.len(),
{
    if t.len() > 0 {
        assert((s + t).drop_last() =~= s + t.drop_last());
        assert(all_digits(t.drop_last())) by {
            assert forall|i: int| 0 <= i < t.drop_last().len() implies is_ascii_digit(
                #[trigger] t.drop_last()[i],
            ) by {
                assert(t.drop_last()[i] == t[i]);
            }
        }
        digits_value_grows(s, t.drop_last());
    }
}

/// Parses a decimal number as `str::parse::<u64>` does (see `parsed_u64`).
pub fn parse_u64(text: &str) -> (r: Option<u64>)
    ensures
        r == parsed_u64(text@),
{
    let chars = chars_of(text);
    let ghost s = chars@;
    let n = chars.len();
    let start: usize = if n > 0 && chars[0] == '+' {
        1
    } else {
        0
    };
    let ghost digits = s.skip(start as int);
    assert(digits == (if s.len() > 0 && s[0] == '+' {
        s.drop_first()
    } else {
        s
    })) by {
        if start == 0 {
            assert(s.skip(0) =~= s);
        }
    }
    if start == n {
        return None;
    }
    let mut value: u64 = 0;
    let mut i: usize = start;
    assert(digits.take(0) =~= Seq::<char>::empty());
    while i < n
        invariant
            start <= i <= n == s.len(),
            s == chars@,
            s == text@,
            digits == s.skip(start as int),
            digits == (if s.len() > 0 && s[0] == '+' {
                s.drop_first()
            } else {
                s
            }),
            all_digits(digits.take(i - start)),
            value == digits_value(digits.take(i - start)),
        decreases n - i,
    {
        let c = chars[i];
        assert(digits[i - start] == c);
        if !('0' <= c && c <= '9') {
            assert(!is_ascii_digit(digits[i - start]));
            return None;
        }
        let d = ((c as u32) - 48) as u64;
        assert(digits.take(i - start + 1).drop_last() =~= digits.take(i - start));
        if value > 1844674407370955161 || (value == 1844674407370955161 && d > 5) {
            proof {
                assert(digits_value(digits.take(i - start + 1)) > u64::MAX);
                assert(digits =~= digits.take(i - start + 1) + digits.skip(i - start + 1));
                if all_digits(digits) {
                    assert(all_digits(digits.skip(i - start + 1))) by {
                        assert forall|j: int| 0 <= j < digits.skip(i - start + 1).len() implies
                            is_ascii_digit(#[trigger] digits.skip(i - start + 1)[j]) by {
                            assert(digits.skip(i - start + 1)[j] == digits[j + i - start + 1]);
                        }
                    }
                    digits_value_grows(digits.take(i - start + 1), digits.skip(i - start + 1));
                }
            }
            return None;
        }
        value = value * 10 + d;
        assert(all_digits(digits.take(i - start + 1))) by {
            assert forall|j: int| 0 <= j < i - start + 1 implies is_ascii_digit(
                #[trigger] digits.take(i - start + 1)[j],
            ) by {
                if j < i - start {
                    assert(digits.take(i - start + 1)[j] == digits.take(i - start)[j]);
                }
            }
        }
        i = i + 1;
    }
    assert(digits.take(n - start) =~= digits);
    Some(value)
}

} // verus!

verus! {

/// How every update backup's file name begins: `library-before-`.
pub open spec fn backup_prefix() -> Seq<char> {
    seq!['l', 'i', 'b', 'r', 'a', 'r', 'y', '-', 'b', 'e', 'f', 'o', 'r', 'e', '-']
}

/// How every update backup's file name ends: `.sqlite3`.
pub open spec fn backup_suffix() -> Seq<char> {
    seq!['.', 's', 'q', 'l', 'i', 't', 'e', '3']
}

/// The file name of an update backup:
/// `library-before-<version>-<timestamp>-<identifier>.sqlite3`.
pub open spec fn backup_name(version: Seq<char>, timestamp: u64, identifier: Seq<char>) -> Seq<
    char,
> {
    backup_prefix() + version + seq!['-'] + decimal(timestamp as nat) + seq!['-'] + identifier
        + backup_suffix()
}

/// The index of the last `-` in `s`, or -1 when there is none.
pub open spec fn last_dash(s: Seq<char>) -> int
    decreases s.len(),
{
    if s.len() == 0 {
        -1
    } else if s.last() == '-' {
        s.len() - 1
    } else {
        last_dash(s.drop_last())
    }
}

/// A file name without the backup prefix and suffix, `None` when it lacks either.
pub open spec fn backup_stem(name: Seq<char>) -> Option<Seq<char>> {
    let p = backup_prefix();
    let x = backup_suffix();
    if name.len() >= p.len() && name.take(p.len() as int) == p {
        let rest = name.skip(p.len() as int);
        if rest.len() >= x.len() && rest.skip(rest.len() - x.len()) == x {
            Some(rest.take(rest.len() - x.len()))
        } else {
            None
        }
    } else {
        None
    }
}

/// The timestamp text of a backup file name: between the last two dashes of its stem.
pub open spec fn backup_timestamp_text(name: Seq<char>) -> Option<Seq<char>> {
    match backup_stem(name) {
        Some(stem) => {
            let k1 = last_dash(stem);
            if k1 < 0 {
                None
            } else {
                let without_identifier = stem.take(k1);
                let k2 = last_dash(without_identifier);
                if k2 < 0 {
                    None
                } else {
                    Some(without_identifier.skip(k2 + 1))
                }
            }
        },
        None => None,
    }
}

/// The timestamp a backup file name carries; `None` for a file that is no backup.
pub open spec fn backup_timestamp_of(name: Seq<char>) -> Option<u64> {
    match backup_timestamp_text(name) {
        Some(t) => parsed_u64(t),
        None => None,
    }
}

/// The position of the last `-` among the characters from `lo` up to `hi`.
fn last_dash_between(chars: &Vec<char>, lo: usize, hi: usize) -> (k: Option<usize>)
    requires
        lo <= hi <= chars@.len(),
    ensures
        match k {
            Some(k) => lo <= k < hi && last_dash(chars@.subrange(lo as int, hi as int)) == k - lo,
            None => last_dash(chars@.subrange(lo as int, hi as int)) == -1,
        },
{
    let mut j = hi;
    while j > lo
        invariant
            lo <= j <= hi <= chars@.len(),
            last_dash(chars@.subrange(lo as int, hi as int)) == last_dash(
                chars@.subrange(lo as int, j as int),
            ),
        decreases j - lo,
    {
        if chars[j - 1] == '-' {
            return Some(j - 1);
        }
        assert(chars@.subrange(lo as int, j as int).drop_last() =~= chars@.subrange(
            lo as int,
            j - 1,
        ));
        j = j - 1;
    }
    None
}

/// Whether `chars` holds `expected` from index `start` on.
fn chars_at(chars: &Vec<char>, start: usize, fixed: &[char]) -> (r: bool)
    requires
        start <= chars@.len(),
    ensures
        r == (start + fixed@.len() <= chars@.len() && chars@.subrange(
            start as int,
            start + fixed@.len(),
        ) == fixed@),
{
    if fixed.len() > chars.len() - start {
        return false;
    }
    let mut i: usize = 0;
    while i < fixed.len()
        invariant
            i <= fixed@.len(),
            start + fixed@.len() <= chars@.len() <= usize::MAX,
            forall|j: int| 0 <= j < i ==> chars@[start + j] == fixed@[j],
        decreases fixed@.len() - i,
    {
        if chars[start + i] != fixed[i] {
            assert(chars@.subrange(start as int, start + fixed@.len())[i as int] != fixed@[i as int]);
            return false;
        }
        i = i + 1;
    }
    assert(chars@.subrange(start as int, start + fixed@.len()) =~= fixed@);
    true
}

/// The timestamp a backup file name carries (see `backup_timestamp_of`); `None` for
/// any file that is no update backup.
pub fn backup_timestamp(name: &str) -> (r: Option<u64>)
    ensures
        r == backup_timestamp_of(name@),
{
    let chars = chars_of(name);
    let ghost s = chars@;
    let n = chars.len();
    let prefix: [char; 15] = [
        'l', 'i', 'b', 'r', 'a', 'r', 'y', '-', 'b', 'e', 'f', 'o', 'r', 'e', '-',
    ];
    let suffix: [char; 8] = ['.', 's', 'q', 'l', 'i', 't', 'e', '3'];
    assert(prefix@ =~= backup_prefix());
    assert(suffix@ =~= backup_suffix());
    if !chars_at(&chars, 0, &prefix) {
        assert(s.take(15) =~= s.subrange(0, 15));
        return None;
    }
    assert(s.take(15) =~= s.subrange(0, 15));
    let ghost rest = s.skip(15);
    if n - 15 < 8 {
        return None;
    }
    let end = n - 8;
    if !chars_at(&chars, end, &suffix) {
        assert(rest.skip(rest.len() - 8) =~= s.subrange(end as int, n as int));
        return None;
    }
    assert(rest.skip(rest.len() - 8) =~= s.subrange(end as int, n as int));
    let ghost stem = rest.take(rest.len() - 8);
    assert(stem =~= s.subrange(15, end as int));
    let k1 = match last_dash_between(&chars, 15, end) {
        Some(k) => k,
        None => return None,
    };
    assert(stem.take(k1 - 15) =~= s.subrange(15, k1 as int));
    let k2 = match last_dash_between(&chars, 15, k1) {
        Some(k) => k,
        None => return None,
    };
    assert(stem.take(k1 - 15).skip(k2 - 15 + 1) =~= s.subrange(k2 + 1, k1 as int));
    let mut text = String::new();
    let mut i = k2 + 1;
    while i < k1
        invariant
            k2 + 1 <= i <= k1 <= chars@.len(),
            text@ == chars@.subrange(k2 + 1, i as int),
        decreases k1 - i,
    {
        push_char(&mut text, chars[i]);
        assert(chars@.subrange(k2 + 1, i + 1) =~= chars@.subrange(k2 + 1, i as int).push(
            chars@[i as int],
        ));
        i = i + 1;
    }
    parse_u64(text.as_str())
}

} // verus!

verus! {

/// Pushes every character of `text` onto `out`.
fn push_text(out: &mut String, text: &str)
    ensures
        final(out)@ == old(out)@ + text@,
{
    let chars = chars_of(text);
    let ghost start = old(out)@;
    let mut i: usize = 0;
    while i < chars.len()
        invariant
            i <= chars@.len(),
            out@ == start + chars@.take(i as int),
        decreases chars@.len() - i,
    {
        push_char(out, chars[i]);
        assert(start + chars@.take(i + 1) =~= (start + chars@.take(i as int)).push(
            chars@[i as int],
        ));
        i = i + 1;
    }
    assert(chars@.take(chars@.len() as int) =~= chars@);
}

/// The file name of an update backup (see `backup_name`).
pub fn backup_file_name(version: &str, timestamp: u64, identifier: &str) -> (name: String)
    ensures
        name@ == backup_name(version@, timestamp, identifier@),
{
    let mut name = String::new();
    let prefix: [char; 15] = [
        'l', 'i', 'b', 'r', 'a', 'r', 'y', '-', 'b', 'e', 'f', 'o', 'r', 'e', '-',
    ];
    let suffix: [char; 8] = ['.', 's', 'q', 'l', 'i', 't', 'e', '3'];
    let mut i: usize = 0;
    while i < 15
        invariant
            i <= 15,
            name@ == prefix@.take(i as int),
        decreases 15 - i,
    {
        push_char(&mut name, prefix[i]);
        assert(prefix@.take(i + 1) =~= prefix@.take(i as int).push(prefix@[i as int]));
        i = i + 1;
    }
    push_text(&mut name, version);
    push_char(&mut name, '-');
    push_decimal(&mut name, timestamp);
    push_char(&mut name, '-');
    push_text(&mut name, identifier);
    let ghost before_suffix = name@;
    let mut j: usize = 0;
    while j < 8
        invariant
            j <= 8,
            name@ == before_suffix + suffix@.take(j as int),
        decreases 8 - j,
    {
        push_char(&mut name, suffix[j]);
        assert(before_suffix + suffix@.take(j + 1) =~= (before_suffix + suffix@.take(
            j as int,
        )).push(suffix@[j as int]));
        j = j + 1;
    }
    assert(prefix@.take(15) =~= backup_prefix());
    assert(suffix@.take(8) =~= backup_suffix());
    assert(name@ =~= backup_name(version@, timestamp, identifier@));
    name
}

/// `s` holds no `-`.
pub open spec fn has_no_dash(s: Seq<char>) -> bool {
    forall|i: int| 0 <= i < s.len() ==> s[i] != '-'
}

proof fn last_dash_before_dashless(a: Seq<char>, b: Seq<char>)
    requires
        has_no_dash(b),
    ensures
        last_dash(a + seq!['-'] + b) == a.len(),
    decreases b.len(),
{
    if b.len() == 0 {
        assert(a + seq!['-'] + b =~= a.push('-'));
    } else {
        assert((a + seq!['-'] + b).drop_last() =~= a + seq!['-'] + b.drop_last());
        last_dash_before_dashless(a, b.drop_last());
    }
}

proof fn digit_char_value(d: nat)
    requires
        d < 10,
    ensures
        is_ascii_digit(digit_char(d)),
        (digit_char(d) as nat) - ('0' as nat) == d,
        digit_char(d) != '-',
        digit_char(d) != '+',
{
}

proof fn decimal_is_plain_digits(n: nat)
    ensures
        decimal(n).len() > 0,
        all_digits(decimal(n)),
        has_no_dash(decimal(n)),
        decimal(n)[0] != '+',
        digits_value(decimal(n)) == n,
    decreases n,
{
    let d = decimal(n);
    digit_char_value(n % 10);
    if n >= 10 {
        decimal_is_plain_digits(n / 10);
        assert(d.drop_last() =~= decimal(n / 10));
        assert(d.last() == digit_char(n % 10));
        assert(d[0] == decimal(n / 10)[0]);
        assert(digits_value(d) == digits_value(decimal(n / 10)) * 10 + n % 10);
        assert((n / 10) * 10 + n % 10 == n);
        assert(forall|i: int| 0 <= i < d.len() - 1 ==> d[i] == decimal(n / 10)[i]);
    } else {
        assert(d.drop_last() =~= Seq::<char>::empty());
        assert(digits_value(d.drop_last()) == 0);
        assert(d.last() == digit_char(n));
    }
}

proof fn backup_stem_of_name(version: Seq<char>, timestamp: u64, identifier: Seq<char>)
    ensures
        backup_stem(backup_name(version, timestamp, identifier)) == Some(
            version + seq!['-'] + decimal(timestamp as nat) + seq!['-'] + identifier,
        ),
{
    let name = backup_name(version, timestamp, identifier);
    let stem = version + seq!['-'] + decimal(timestamp as nat) + seq!['-'] + identifier;
    assert(name =~= backup_prefix() + (stem + backup_suffix()));
    assert(name.take(15) =~= backup_prefix());
    let rest = name.skip(15);
    assert(rest =~= stem + backup_suffix());
    assert(rest.skip(rest.len() - 8) =~= backup_suffix());
    assert(rest.take(rest.len() - 8) =~= stem);
}

/// A backup file name gives back, as its timestamp, exactly the timestamp it was
/// made with, whatever the version text holds, as long as the identifier holds no
/// dash; so rotation orders backups by the time they were taken.
pub proof fn backup_name_carries_its_timestamp(
    version: Seq<char>,
    timestamp: u64,
    identifier: Seq<char>,
)
    requires
        has_no_dash(identifier),
    ensures
        backup_timestamp_of(backup_name(version, timestamp, identifier)) == Some(timestamp),
{
    let dec = decimal(timestamp as nat);
    decimal_is_plain_digits(timestamp as nat);
    let head = version + seq!['-'] + dec;
    let stem = head + seq!['-'] + identifier;
    backup_stem_of_name(version, timestamp, identifier);
    last_dash_before_dashless(head, identifier);
    assert(stem.take(head.len() as int) =~= head);
    last_dash_before_dashless(version, dec);
    assert(head.skip(version.len() as int + 1) =~= dec);
    assert(backup_timestamp_text(backup_name(version, timestamp, identifier)) == Some(dec));
    assert(dec[0] != '+');
}

/// 32 lowercase hexadecimal digits, as a UUID is written in its simple form.
pub open spec fn is_lower_hex_identifier(s: Seq<char>) -> bool {
    &&& s.len() == 32
    &&& forall|i: int|
        0 <= i < s.len() ==> ('0' <= #[trigger] s[i] && s[i] <= '9') || ('a' <= s[i] && s[i]
            <= 'f')
}

/// What `uuid::Uuid::new_v4().simple().to_string()` gives: a random identifier of 32
/// lowercase hexadecimal digits (so it holds no dash). Which digits, nothing states.
#[verifier::external_body]
fn new_backup_identifier() -> (identifier: String)
    ensures
        is_lower_hex_identifier(identifier@),
{
    uuid::Uuid::new_v4().simple().to_string()
}

/// The names under which an update backup is written: first to a pending file, which
/// becomes the final file once the copy has passed its integrity check.
#[derive(Debug)]
pub struct BackupPlan {
    pub identifier: String,
    pub final_name: String,
    pub pending_name: String,
}

/// `.partial`, what a pending backup's name adds to the final name.
pub open spec fn pending_suffix() -> Seq<char> {
    seq!['.', 'p', 'a', 'r', 't', 'i', 'a', 'l']
}

/// Names a new update backup. A version that could reach outside the backup
/// directory (empty, or with any character but ASCII letters, digits, `.`, `-`, `+`)
/// is refused with `backup_failed`; otherwise the backup gets a fresh random
/// identifier, its final name, and its pending name (the final name and `.partial`),
/// and its final name carries `timestamp`.
pub fn plan_update_backup(version: &str, timestamp: u64) -> (r: Result<BackupPlan, AppError>)
    ensures
        r is Ok <==> is_valid_version(version@),
        r matches Err(e) ==> e.code@ == "backup_failed"@ && e.message@
            == "Unable to protect the library before updating."@,
        r matches Ok(plan) ==> {
            &&& is_lower_hex_identifier(plan.identifier@)
            &&& has_no_dash(plan.identifier@)
            &&& plan.final_name@ == backup_name(version@, timestamp, plan.identifier@)
            &&& plan.pending_name@ == plan.final_name@ + pending_suffix()
            &&& backup_timestamp_of(plan.final_name@) == Some(timestamp)
            &&& is_plain_file_name(plan.final_name@)
            &&& is_plain_file_name(plan.pending_name@)
        },
{
    if !valid_version(version) {
        return Err(AppError::backup_failed());
    }
    let identifier = new_backup_identifier();
    assert(has_no_dash(identifier@)) by {
        assert forall|i: int| 0 <= i < identifier@.len() implies identifier@[i] != '-' by {
            assert(('0' <= identifier@[i] && identifier@[i] <= '9') || ('a' <= identifier@[i]
                && identifier@[i] <= 'f'));
        }
    }
    let final_name = backup_file_name(version, timestamp, identifier.as_str());
    let mut pending_name = final_name.clone();
    push_char(&mut pending_name, '.');
    push_char(&mut pending_name, 'p');
    push_char(&mut pending_name, 'a');
    push_char(&mut pending_name, 'r');
    push_char(&mut pending_name, 't');
    push_char(&mut pending_name, 'i');
    push_char(&mut pending_name, 'a');
    push_char(&mut pending_name, 'l');
    assert(pending_name@ =~= final_name@ + pending_suffix());
    proof {
        backup_name_carries_its_timestamp(version@, timestamp, identifier@);
        valid_version_keeps_backup_in_directory(version@, timestamp, identifier@);
        let f = final_name@;
        let q = pending_name@;
        assert forall|i: int| 0 <= i < q.len() implies #[trigger] q[i] != '/' && q[i] != '\\' by {
            if i < f.len() {
                assert(q[i] == f[i]);
            }
        }
    }
    Ok(BackupPlan { identifier, final_name, pending_name })
}

/// Whether SQLite's `PRAGMA integrity_check` reported a sound database: its answer
/// is exactly `ok`.
pub fn integrity_check_passed(result: &str) -> (r: bool)
    ensures
        r == (result@ == seq!['o', 'k']),
{
    let chars = chars_of(result);
    let passed = chars.len() == 2 && chars[0] == 'o' && chars[1] == 'k';
    proof {
        if chars@ == seq!['o', 'k'] {
            assert(chars@[0] == 'o' && chars@[1] == 'k');
        }
        if passed {
            assert(chars@ =~= seq!['o', 'k']);
        }
    }
    passed
}

} // verus!

verus! {

/// A version accepted by `valid_version` keeps a backup inside its directory: with
/// any identifier that holds no path separator, the backup's file name is a plain
/// file name.
pub proof fn valid_version_keeps_backup_in_directory(
    version: Seq<char>,
    timestamp: u64,
    identifier: Seq<char>,
)
    requires
        is_valid_version(version),
        forall|i: int|
            0 <= i < identifier.len() ==> #[trigger] identifier[i] != '/' && identifier[i]
                != '\\',
    ensures
        is_plain_file_name(backup_name(version, timestamp, identifier)),
{
    let dec = decimal(timestamp as nat);
    decimal_is_plain_digits(timestamp as nat);
    let name = backup_name(version, timestamp, identifier);
    let p = backup_prefix();
    let x = backup_suffix();
    let a = p + version;
    let b = a + seq!['-'] + dec;
    let c = b + seq!['-'] + identifier;
    assert(name =~= c + x);
    assert forall|i: int| 0 <= i < name.len() implies #[trigger] name[i] != '/' && name[i]
        != '\\' by {
        if i < p.len() {
            assert(name[i] == p[i]);
        } else if i < a.len() {
            assert(name[i] == version[i - p.len()]);
            assert(is_version_char(version[i - p.len()]));
        } else if i == a.len() {
            assert(name[i] == '-');
        } else if i < b.len() {
            assert(name[i] == dec[i - a.len() - 1]);
            assert(is_ascii_digit(dec[i - a.len() - 1]));
        } else if i == b.len() {
            assert(name[i] == '-');
        } else if i < c.len() {
            assert(name[i] == identifier[i - b.len() - 1]);
        } else {
            assert(name[i] == x[i - c.len()]);
        }
    }
    assert(name.len() > 2);
}

} // verus!
