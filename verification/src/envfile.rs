//! The `.env` file format: `KEY=value` lines, optionally prefixed by
//! `export `, with blank lines and `#` comments skipped and one pair of
//! matching quotes stripped from values.
use vstd::prelude::*;
use crate::text::{
    chars_of, owned, spec_is_whitespace, spec_starts_with, spec_trim, string_from_range, trim_bounds,
};
use crate::values::{ConfigValues, pairs_map};

verus! {

/// `s` without one pair of matching surrounding quotes (`"` or `'`).
pub open spec fn spec_strip_quotes(s: Seq<char>) -> Seq<char> {
    if s.len() >= 2 && ((s[0] == '"' && s.last() == '"') || (s[0] == '\'' && s.last() == '\'')) {
        s.subrange(1, s.len() - 1)
    } else {
        s
    }
}

/// Removes one pair of matching quotes around `value`, if it has them.
pub fn strip_quotes(value: &str) -> (r: &str)
    ensures
        r@ == spec_strip_quotes(value@),
{
    let v = chars_of(value);
    let n = v.len();
    if n >= 2 {
        let first = v[0];
        let last = v[n - 1];
        if (first == '"' && last == '"') || (first == '\'' && last == '\'') {
            return value.substring_char(1, n - 1);
        }
    }
    value
}

/// The position of the first `c` in `s`.
pub open spec fn find_first(s: Seq<char>, c: char) -> Option<nat>
    decreases s.len(),
{
    if s.len() == 0 {
        None
    } else if s[0] == c {
        Some(0)
    } else {
        match find_first(s.drop_first(), c) {
            Some(i) => Some(i + 1),
            None => None,
        }
    }
}

proof fn lemma_find_first(s: Seq<char>, c: char, i: int)
    requires
        0 <= i <= s.len(),
        forall|j: int| 0 <= j < i ==> s[j] != c,
    ensures
        i < s.len() && s[i] == c ==> find_first(s, c) == Some(i as nat),
        i == s.len() ==> find_first(s, c) is None,
    decreases i,
{
    if i > 0 {
        lemma_find_first(s.drop_first(), c, i - 1);
    }
}

pub open spec fn export_prefix() -> Seq<char> {
    seq!['e', 'x', 'p', 'o', 'r', 't', ' ']
}

/// What one line of the file amounts to.
pub enum EnvLineSpec {
    Blank,
    Pair(Seq<char>, Seq<char>),
    NoEquals,
    EmptyKey,
}

/// How one line is read: trimmed; skipped when empty or a `#` comment;
/// `export ` removed; split at the first `=`; key trimmed and required;
/// value trimmed and unquoted.
pub open spec fn spec_env_line(line: Seq<char>) -> EnvLineSpec {
    let t = spec_trim(line);
    if t.len() == 0 || t[0] == '#' {
        EnvLineSpec::Blank
    } else {
        let t2 = if spec_starts_with(t, export_prefix()) {
            t.skip(7)
        } else {
            t
        };
        match find_first(t2, '=') {
            None => EnvLineSpec::NoEquals,
            Some(i) => {
                let key = spec_trim(t2.take(i as int));
                if key.len() == 0 {
                    EnvLineSpec::EmptyKey
                } else {
                    EnvLineSpec::Pair(key, spec_strip_quotes(spec_trim(t2.skip(i + 1int))))
                }
            },
        }
    }
}

/// The pieces of `s` between newline characters.
pub open spec fn split_lines(s: Seq<char>) -> Seq<Seq<char>>
    decreases s.len(),
{
    if s.len() == 0 {
        seq![Seq::<char>::empty()]
    } else {
        let p = split_lines(s.drop_last());
        if s.last() == '\n' {
            p.push(Seq::<char>::empty())
        } else {
            p.update(p.len() - 1, p.last().push(s.last()))
        }
    }
}

proof fn lemma_split_lines_nonempty(s: Seq<char>)
    ensures
        split_lines(s).len() >= 1,
    decreases s.len(),
{
    if s.len() > 0 {
        lemma_split_lines_nonempty(s.drop_last());
    }
}

proof fn lemma_split_lines_prefix(s: Seq<char>, k: int)
    requires
        0 <= k <= s.len(),
    ensures
        split_lines(s.take(k)).len() <= split_lines(s).len(),
        forall|j: int|
            0 <= j < split_lines(s.take(k)).len() - 1 ==> #[trigger] split_lines(s)[j]
                == split_lines(s.take(k))[j],
    decreases s.len(),
{
    lemma_split_lines_nonempty(s.take(k));
    if k == s.len() {
        assert(s.take(k) =~= s);
    } else {
        assert(s.drop_last().take(k) =~= s.take(k));
        lemma_split_lines_prefix(s.drop_last(), k);
        lemma_split_lines_nonempty(s.drop_last());
    }
}

proof fn lemma_env_entries_error_prefix(lines: Seq<Seq<char>>, m: int)
    requires
        0 <= m <= lines.len(),
        env_entries(lines.take(m)) is Err,
    ensures
        env_entries(lines) == env_entries(lines.take(m)),
    decreases lines.len(),
{
    if m == lines.len() {
        assert(lines.take(m) =~= lines);
    } else {
        assert(lines.drop_last().take(m) =~= lines.take(m));
        lemma_env_entries_error_prefix(lines.drop_last(), m);
    }
}

/// Why a file was refused.
#[derive(Clone, Copy, PartialEq, Eq, Structural, Debug)]
pub enum EnvErrorKind {
    /// A line that is not blank, not a comment and has no `=`.
    InvalidLine,
    /// A line whose key is empty.
    EmptyKey,
}

/// A refused file: what went wrong, and on which line (counted from 1).
#[derive(Clone, Copy, PartialEq, Eq, Structural, Debug)]
pub struct EnvFileError {
    pub kind: EnvErrorKind,
    pub line: usize,
}

/// The pairs that the lines give, in order, or the first refused line and why.
pub open spec fn env_entries(lines: Seq<Seq<char>>) -> Result<
    Seq<(Seq<char>, Seq<char>)>,
    (EnvErrorKind, nat),
>
    decreases lines.len(),
{
    if lines.len() == 0 {
        Ok(Seq::empty())
    } else {
        match env_entries(lines.drop_last()) {
            Err(e) => Err(e),
            Ok(prev) => match spec_env_line(lines.last()) {
                EnvLineSpec::Blank => Ok(prev),
                EnvLineSpec::Pair(k, v) => Ok(prev.push((k, v))),
                EnvLineSpec::NoEquals => Err((EnvErrorKind::InvalidLine, lines.len())),
                EnvLineSpec::EmptyKey => Err((EnvErrorKind::EmptyKey, lines.len())),
            },
        }
    }
}

/// What reading a whole file gives.
pub open spec fn spec_env_file(content: Seq<char>) -> Result<
    Seq<(Seq<char>, Seq<char>)>,
    (EnvErrorKind, nat),
> {
    env_entries(split_lines(content))
}

/// Reads the line `v[lo..hi]`: `Ok(None)` for a blank or comment line,
/// `Ok(Some((key, value)))` for a pair, `Err` for a refused line.
fn parse_env_line(v: &Vec<char>, lo: usize, hi: usize) -> (r: Result<
    Option<(String, String)>,
    EnvErrorKind,
>)
    requires
        lo <= hi <= v.len(),
    ensures
        match spec_env_line(v@.subrange(lo as int, hi as int)) {
            EnvLineSpec::Blank => r == Ok::<Option<(String, String)>, EnvErrorKind>(None),
            EnvLineSpec::Pair(k, val) => r matches Ok(Some(p)) && p.0@ == k && p.1@ == val,
            EnvLineSpec::NoEquals => r == Err::<Option<(String, String)>, EnvErrorKind>(
                EnvErrorKind::InvalidLine,
            ),
            EnvLineSpec::EmptyKey => r == Err::<Option<(String, String)>, EnvErrorKind>(
                EnvErrorKind::EmptyKey,
            ),
        },
{
    let ghost line = v@.subrange(lo as int, hi as int);
    let (a, b) = trim_bounds(v, lo, hi);
    let ghost t = v@.subrange(a as int, b as int);
    if a == b || v[a] == '#' {
        return Ok(None);
    }
    let has_export = b - a >= 7 && v[a] == 'e' && v[a + 1] == 'x' && v[a + 2] == 'p' && v[a + 3]
        == 'o' && v[a + 4] == 'r' && v[a + 5] == 't' && v[a + 6] == ' ';
    proof {
        if t.len() >= 7 {
            if has_export {
                assert(t.take(7) =~= export_prefix());
            } else {
                assert(t.take(7)[0] == t[0]);
                assert(t.take(7)[1] == t[1]);
                assert(t.take(7)[2] == t[2]);
                assert(t.take(7)[3] == t[3]);
                assert(t.take(7)[4] == t[4]);
                assert(t.take(7)[5] == t[5]);
                assert(t.take(7)[6] == t[6]);
                assert(t.take(7) != export_prefix());
            }
        }
    }
    let start = if has_export {
        a + 7
    } else {
        a
    };
    let ghost t2 = v@.subrange(start as int, b as int);
    assert(t2 == (if spec_starts_with(t, export_prefix()) {
        t.skip(7)
    } else {
        t
    }));
    let mut j = start;
    while j < b && v[j] != '='
        invariant
            start <= j <= b <= v.len(),
            t2 == v@.subrange(start as int, b as int),
            forall|m: int| 0 <= m < j - start ==> t2[m] != '=',
        decreases b - j,
    {
        j = j + 1;
    }
    proof {
        lemma_find_first(t2, '=', j - start);
    }
    if j == b {
        return Err(EnvErrorKind::InvalidLine);
    }
    let (ka, kb) = trim_bounds(v, start, j);
    assert(v@.subrange(start as int, j as int) =~= t2.take(j - start));
    if ka == kb {
        return Err(EnvErrorKind::EmptyKey);
    }
    let key = string_from_range(v, ka, kb);
    let (va, vb) = trim_bounds(v, j + 1, b);
    assert(v@.subrange(j + 1, b as int) =~= t2.skip(j - start + 1));
    let raw = string_from_range(v, va, vb);
    let value = owned(strip_quotes(raw.as_str()));
    Ok(Some((key, value)))
}

/// Reads the text of an env file into settings, or says which line is
/// refused and why.
pub fn parse_env_file(content: &str) -> (r: Result<ConfigValues, EnvFileError>)
    ensures
        match spec_env_file(content@) {
            Ok(entries) => r matches Ok(vals) && vals@ == pairs_map(entries),
            Err((kind, line)) => r matches Err(e) && e.kind == kind && e.line == line,
        },
{
    let v = chars_of(content);
    let n = v.len();
    let mut values = ConfigValues::new();
    let ghost mut done: Seq<Seq<char>> = Seq::empty();
    let ghost mut entries: Seq<(Seq<char>, Seq<char>)> = Seq::empty();
    let mut line_start: usize = 0;
    let mut lines_done: usize = 0;
    let mut i: usize = 0;
    assert(v@.take(0) =~= Seq::<char>::empty());
    assert(v@.subrange(0, 0) =~= Seq::<char>::empty());
    assert(values@ =~= pairs_map(entries));
    while i < n
        invariant
            n == v.len(),
            v@ == content@,
            line_start <= i <= n,
            lines_done == done.len(),
            lines_done <= line_start,
            split_lines(v@.take(i as int)) == done.push(v@.subrange(line_start as int, i as int)),
            env_entries(done) == Ok::<Seq<(Seq<char>, Seq<char>)>, (EnvErrorKind, nat)>(entries),
            values@ == pairs_map(entries),
        decreases n - i,
    {
        let ghost prev = v@.take(i as int);
        assert(v@.take(i + 1).drop_last() =~= prev);
        assert(v@.take(i + 1).last() == v@[i as int]);
        proof {
            lemma_split_lines_nonempty(prev);
        }
        if v[i] == '\n' {
            let ghost cur = v@.subrange(line_start as int, i as int);
            let ghost next_done = done.push(cur);
            assert(next_done.drop_last() =~= done);
            match parse_env_line(&v, line_start, i) {
                Err(kind) => {
                    proof {
                        lemma_split_lines_prefix(v@, i + 1);
                        let full = split_lines(v@);
                        assert(v@.take(n as int) =~= v@);
                        assert(full.take(next_done.len() as int) =~= next_done);
                        lemma_env_entries_error_prefix(full, next_done.len() as int);
                    }
                    return Err(EnvFileError { kind, line: lines_done + 1 });
                },
                Ok(None) => {},
                Ok(Some(pair)) => {
                    values.insert(pair.0, pair.1);
                    proof {
                        crate::values::lemma_pairs_map_push_pub(entries, pair.0@, pair.1@);
                        entries = entries.push((pair.0@, pair.1@));
                    }
                },
            }
            proof {
                done = next_done;
            }
            lines_done = lines_done + 1;
            line_start = i + 1;
            assert(v@.subrange(line_start as int, i + 1) =~= Seq::<char>::empty());
        } else {
            assert(v@.subrange(line_start as int, i + 1) =~= v@.subrange(
                line_start as int,
                i as int,
            ).push(v@[i as int]));
        }
        i = i + 1;
    }
    assert(v@.take(n as int) =~= v@);
    let ghost cur = v@.subrange(line_start as int, n as int);
    let ghost all = done.push(cur);
    assert(all.drop_last() =~= done);
    match parse_env_line(&v, line_start, n) {
        Err(kind) => {
            return Err(EnvFileError { kind, line: lines_done + 1 });
        },
        Ok(None) => {},
        Ok(Some(pair)) => {
            values.insert(pair.0, pair.1);
            proof {
                crate::values::lemma_pairs_map_push_pub(entries, pair.0@, pair.1@);
                entries = entries.push((pair.0@, pair.1@));
            }
        },
    }
    Ok(values)
}

/// A key as settings are written: not empty, not starting with `#`, and
/// without whitespace or `=` in it.
pub open spec fn plain_key(k: Seq<char>) -> bool {
    &&& k.len() > 0
    &&& k[0] != '#'
    &&& forall|i: int| 0 <= i < k.len() ==> !spec_is_whitespace(#[trigger] k[i]) && k[i] != '='
}

/// A value written bare: empty, or with no whitespace at either end and not
/// enclosed in a pair of the same quote character. It may hold `=`.
pub open spec fn bare_value(v: Seq<char>) -> bool {
    v.len() == 0 || {
        &&& !spec_is_whitespace(v[0])
        &&& !spec_is_whitespace(v.last())
        &&& !(v.len() >= 2 && v[0] == v.last() && (v[0] == '"' || v[0] == '\''))
    }
}

proof fn lemma_trim_unchanged(s: Seq<char>)
    requires
        s.len() == 0 || (!spec_is_whitespace(s[0]) && !spec_is_whitespace(s.last())),
    ensures
        spec_trim(s) == s,
{
}

/// The text after `k=`: the key is `k`, the value all of the rest, trimmed
/// and unquoted.
proof fn lemma_key_then_rest(k: Seq<char>, rest: Seq<char>)
    requires
        plain_key(k),
    ensures
        find_first(k + seq!['='] + rest, '=') == Some(k.len()),
        (k + seq!['='] + rest).take(k.len() as int) == k,
        (k + seq!['='] + rest).skip(k.len() + 1int) == rest,
        spec_trim(k) == k,
{
    let t = k + seq!['='] + rest;
    assert forall|j: int| 0 <= j < k.len() implies t[j] != '=' by {
        assert(t[j] == k[j]);
    }
    assert(t[k.len() as int] == '=');
    lemma_find_first(t, '=', k.len() as int);
    assert(t.take(k.len() as int) =~= k);
    assert(t.skip(k.len() + 1int) =~= rest);
    assert(!spec_is_whitespace(k[0]));
    assert(!spec_is_whitespace(k[k.len() - 1]));
    lemma_trim_unchanged(k);
}

/// A `KEY=value` line is split at its first `=`: the key is what comes
/// before it and the value is all that comes after it, `=` characters
/// included. So it is with `export ` in front, and a value in double
/// quotes is read without them, whatever it holds.
pub proof fn law_env_line_splits_at_first_equals(k: Seq<char>, v: Seq<char>, w: Seq<char>)
    requires
        plain_key(k),
        bare_value(v),
    ensures
        spec_env_line(k + seq!['='] + v) == EnvLineSpec::Pair(k, v),
        spec_env_line(export_prefix() + k + seq!['='] + v) == EnvLineSpec::Pair(k, v),
        spec_env_line(k + seq!['='] + (seq!['"'] + w + seq!['"'])) == EnvLineSpec::Pair(k, w),
{
    assert(!spec_is_whitespace(k[0]));
    // the plain line
    let line = k + seq!['='] + v;
    assert(line[0] == k[0]);
    assert(line.last() == if v.len() == 0 { '=' } else { v.last() });
    lemma_trim_unchanged(line);
    assert(!spec_starts_with(line, export_prefix())) by {
        if line.len() >= 7 && line.take(7) == export_prefix() {
            if k.len() >= 7 {
                assert(line.take(7)[6] == k[6]);
            } else {
                assert(line.take(7)[k.len() as int] == '=');
                let i = k.len() as int;
                assert(export_prefix()[i] != '=') by {
                    assert(0 <= i < 7);
                    if i == 0 {} else if i == 1 {} else if i == 2 {} else if i == 3 {} else if i == 4 {} else if i == 5 {} else {}
                }
            }
        }
    }
    lemma_key_then_rest(k, v);
    lemma_trim_unchanged(v);
    // the line with `export ` in front
    let eline = export_prefix() + k + seq!['='] + v;
    assert(eline[0] == 'e');
    assert(eline.last() == line.last());
    lemma_trim_unchanged(eline);
    assert(eline.take(7) =~= export_prefix());
    assert(eline.skip(7) =~= line);
    // the quoted value
    let q = seq!['"'] + w + seq!['"'];
    let qline = k + seq!['='] + q;
    assert(qline[0] == k[0]);
    assert(qline.last() == '"');
    lemma_trim_unchanged(qline);
    assert(!spec_starts_with(qline, export_prefix())) by {
        if qline.len() >= 7 && qline.take(7) == export_prefix() {
            if k.len() >= 7 {
                assert(qline.take(7)[6] == k[6]);
            } else {
                assert(qline.take(7)[k.len() as int] == '=');
                let i = k.len() as int;
                assert(export_prefix()[i] != '=') by {
                    if i == 0 {} else if i == 1 {} else if i == 2 {} else if i == 3 {} else if i == 4 {} else if i == 5 {} else {}
                }
            }
        }
    }
    lemma_key_then_rest(k, q);
    assert(q[0] == '"');
    assert(q.last() == '"');
    lemma_trim_unchanged(q);
    assert(q.subrange(1, q.len() - 1) =~= w);
}

} // verus!
