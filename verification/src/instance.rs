//! Which user runs the Db2 engine process, read from the output of
//! `ps -eo user=,comm=`.

use vstd::prelude::*;
use vstd::utf8::*;
use crate::conversions::{lossy_utf8, string_from_chars, utf8_lossy_to_string};
use crate::text::{
    chars_equal, chars_of, find_white, index_of_white, is_white, join_with,
    lemma_index_of_white, lemma_split_join, split_chars, split_on, trim, trim_end, trim_start,
    trim_range, views,
};

verus! {

/// A line without the `\r` of a `\r\n` ending.
pub open spec fn strip_cr(line: Seq<char>) -> Seq<char> {
    if line.len() > 0 && line.last() == '\r' {
        line.drop_last()
    } else {
        line
    }
}

/// `str::lines`: the text split at `\n`, each line that ended in `\r\n`
/// without its `\r`, and no empty line after a final `\n`.
pub open spec fn lines_of(s: Seq<char>) -> Seq<Seq<char>> {
    let p = split_on(s, '\n');
    let init = p.drop_last().map_values(|l: Seq<char>| strip_cr(l));
    if p.last().len() == 0 {
        init
    } else {
        init.push(p.last())
    }
}

/// The name of the engine process.
pub open spec fn engine_command() -> Seq<char> {
    seq!['d', 'b', '2', 's', 'y', 's', 'c']
}

/// The user of a `ps` line that shows the engine process: the line is
/// trimmed and split at its first white space; the part before is the
/// user, the trimmed part after is the command.
pub open spec fn line_owner(line: Seq<char>) -> Option<Seq<char>> {
    let t = trim(line);
    let i = index_of_white(t);
    if i < t.len() && trim(t.skip(i + 1)) == engine_command() {
        Some(t.take(i))
    } else {
        None
    }
}

/// The user of the first line that shows the engine process.
pub open spec fn first_owner(lines: Seq<Seq<char>>) -> Option<Seq<char>>
    decreases lines.len(),
{
    if lines.len() == 0 {
        None
    } else {
        match line_owner(lines[0]) {
            Some(u) => Some(u),
            None => first_owner(lines.drop_first()),
        }
    }
}

/// The user that runs the engine process, as `ps` output shows it.
pub open spec fn engine_owner(ps_text: Seq<char>) -> Option<Seq<char>> {
    first_owner(lines_of(ps_text))
}

/// The user of one line, when the line shows the engine process.
fn owner_of_line(line: &Vec<char>) -> (r: Option<Vec<char>>)
    ensures
        r matches Some(u) ==> line_owner(line@) == Some(u@),
        r is None ==> line_owner(line@) is None,
{
    let t = trim_range(line, 0, line.len());
    assert(line@.subrange(0, line@.len() as int) =~= line@);
    let i = find_white(&t);
    if i < t.len() {
        let cmd = trim_range(&t, i + 1, t.len());
        assert(t@.subrange(i + 1, t@.len() as int) =~= t@.skip(i + 1));
        let engine: [char; 7] = ['d', 'b', '2', 's', 'y', 's', 'c'];
        assert(engine@ =~= engine_command());
        if chars_equal(&cmd, &engine) {
            let mut u: Vec<char> = Vec::new();
            let mut k: usize = 0;
            while k < i
                invariant
                    i < t@.len(),
                    k <= i,
                    u@ == t@.take(k as int),
                decreases i - k,
            {
                u.push(t[k]);
                assert(t@.take(k + 1) =~= t@.take(k as int).push(t@[k as int]));
                k = k + 1;
            }
            return Some(u);
        }
    }
    None
}

/// The lines of `text`, as `str::lines` gives them.
fn lines(text: &Vec<char>) -> (r: Vec<Vec<char>>)
    ensures
        views(r@) == lines_of(text@),
{
    let parts = split_chars(text, '\n');
    let ghost p = views(parts@);
    let n = parts.len();
    assert(n >= 1) by {
        crate::text::lemma_split_pieces(text@, '\n');
    }
    let mut r: Vec<Vec<char>> = Vec::new();
    for i in 0..n - 1
        invariant
            n == parts@.len(),
            n >= 1,
            p == views(parts@),
            r@.len() == i,
            forall|k: int| 0 <= k < i ==> (#[trigger] r@[k])@ == strip_cr(p[k]),
    {
        let part = &parts[i];
        let m = part.len();
        if m > 0 && part[m - 1] == '\r' {
            let mut l: Vec<char> = Vec::new();
            let mut k: usize = 0;
            while k < m - 1
                invariant
                    m == part@.len(),
                    m > 0,
                    k <= m - 1,
                    l@ == part@.take(k as int),
                decreases m - 1 - k,
            {
                l.push(part[k]);
                assert(part@.take(k + 1) =~= part@.take(k as int).push(part@[k as int]));
                k = k + 1;
            }
            assert(part@.take(m - 1) =~= part@.drop_last());
            r.push(l);
        } else {
            r.push(part.clone());
        }
    }
    let last = &parts[n - 1];
    if last.len() > 0 {
        r.push(last.clone());
    }
    assert(views(r@) =~= lines_of(text@));
    r
}

/// The user that runs the engine process according to `ps_text`, the
/// text of `ps -eo user=,comm=`: the user of the first line whose command
/// is `db2sysc`, or `None` when no line shows it.
pub fn running_instance_owner(ps_text: &str) -> (r: Option<String>)
    ensures
        r matches Some(u) ==> engine_owner(ps_text@) == Some(u@),
        r is None ==> engine_owner(ps_text@) is None,
{
    let cs = chars_of(ps_text);
    let ls = lines(&cs);
    let ghost all = views(ls@);
    let n = ls.len();
    assert(all.skip(0) =~= all);
    for i in 0..n
        invariant
            n == ls@.len(),
            all == views(ls@),
            all == lines_of(ps_text@),
            first_owner(all) == first_owner(all.skip(i as int)),
    {
        assert(all.skip(i as int)[0] == all[i as int]);
        assert(all.skip(i as int).drop_first() =~= all.skip(i + 1));
        match owner_of_line(&ls[i]) {
            Some(u) => {
                return Some(string_from_chars(&u));
            },
            None => {},
        }
    }
    assert(all.skip(n as int) =~= Seq::<Seq<char>>::empty());
    None
}

/// What the `ps` output says of the engine process's owner.
pub enum OwnerCheck {
    /// The engine runs as the expected user.
    Expected(String),
    /// The engine runs as another user, named here.
    Unexpected(String),
    /// No engine process was found.
    NotRunning,
}

/// The check's outcome for a `ps` text.
pub open spec fn owner_check_holds(r: OwnerCheck, ps_text: Seq<char>, expected: Seq<char>) -> bool {
    match engine_owner(ps_text) {
        None => r is NotRunning,
        Some(u) => if u == expected {
            r matches OwnerCheck::Expected(x) && x@ == u
        } else {
            r matches OwnerCheck::Unexpected(x) && x@ == u
        },
    }
}

impl OwnerCheck {
    /// Whether the engine runs as the expected user.
    pub fn passed(&self) -> (r: bool)
        ensures
            r == (self is Expected),
    {
        match self {
            OwnerCheck::Expected(_) => true,
            _ => false,
        }
    }
}

/// Compares the engine's owner, as the `ps` text shows it, with
/// `expected_user`.
pub fn check_owner_in_text(ps_text: &str, expected_user: &str) -> (r: OwnerCheck)
    ensures
        owner_check_holds(r, ps_text@, expected_user@),
{
    match running_instance_owner(ps_text) {
        None => OwnerCheck::NotRunning,
        Some(u) => {
            let uc = chars_of(u.as_str());
            let ec = chars_of(expected_user);
            if chars_equal(&uc, ec.as_slice()) {
                OwnerCheck::Expected(u)
            } else {
                OwnerCheck::Unexpected(u)
            }
        },
    }
}

/// Compares the engine's owner, as the raw output of `ps` shows it once
/// decoded as UTF-8 (invalid sequences replaced), with `expected_user`.
pub fn check_instance_owner(ps_output: &[u8], expected_user: &str) -> (r: OwnerCheck)
    ensures
        owner_check_holds(r, lossy_utf8(ps_output@), expected_user@),
        valid_utf8(ps_output@) ==> owner_check_holds(r, decode_utf8(ps_output@), expected_user@),
{
    let text = utf8_lossy_to_string(ps_output);
    check_owner_in_text(text.as_str(), expected_user)
}

/// The owner check passes only for the expected user itself: an outcome
/// `Expected(x)` has `x` equal to `expected_user` and to the engine's
/// owner; an outcome `Unexpected(x)` names the engine's owner, which
/// differs from `expected_user` in some way (a longer or shorter name
/// included); `NotRunning` comes exactly when no line shows the engine.
pub proof fn owner_check_passes_only_for_expected_user(
    r: OwnerCheck,
    ps_text: Seq<char>,
    expected_user: Seq<char>,
)
    requires
        owner_check_holds(r, ps_text, expected_user),
    ensures
        r matches OwnerCheck::Expected(x) ==> x@ == expected_user && engine_owner(ps_text) == Some(
            x@,
        ),
        r matches OwnerCheck::Unexpected(x) ==> x@ != expected_user && engine_owner(ps_text)
            == Some(x@),
        (r is NotRunning) == (engine_owner(ps_text) is None),
{
}

/// The owner is that of the first line showing the engine: when there is
/// one, some line shows it and no earlier line shows the engine; when
/// there is none, no line shows the engine.
pub proof fn first_engine_line_wins(lines: Seq<Seq<char>>)
    ensures
        first_owner(lines) is Some ==> exists|i: int|
            0 <= i < lines.len() && line_owner(#[trigger] lines[i]) == first_owner(lines) && forall|
                j: int,
            | 0 <= j < i ==> line_owner(#[trigger] lines[j]) is None,
        first_owner(lines) is None ==> forall|i: int|
            0 <= i < lines.len() ==> line_owner(#[trigger] lines[i]) is None,
    decreases lines.len(),
{
    if lines.len() > 0 {
        let rest = lines.drop_first();
        first_engine_line_wins(rest);
        if line_owner(lines[0]) is Some {
            assert(line_owner(lines[0]) == first_owner(lines));
        } else {
            if first_owner(lines) is Some {
                let i = choose|i: int|
                    0 <= i < rest.len() && line_owner(#[trigger] rest[i]) == first_owner(rest)
                        && forall|j: int| 0 <= j < i ==> line_owner(#[trigger] rest[j]) is None;
                assert(lines[i + 1] == rest[i]);
                assert forall|j: int| 0 <= j < i + 1 implies line_owner(#[trigger] lines[j]) is None by {
                    if j > 0 {
                        assert(lines[j] == rest[j - 1]);
                    }
                }
            } else {
                assert forall|i: int| 0 <= i < lines.len() implies line_owner(#[trigger] lines[i]) is None by {
                    if i > 0 {
                        assert(lines[i] == rest[i - 1]);
                    }
                }
            }
        }
    }
}

/// A `ps` text of one line, a user name without white space, a space and
/// `db2sysc`, shows that whole name as the engine's owner.
pub proof fn single_engine_line_names_its_user(user: Seq<char>)
    requires
        user.len() > 0,
        forall|i: int| 0 <= i < user.len() ==> !is_white(#[trigger] user[i]),
    ensures
        engine_owner(
            user + seq![' '] + seq!['d', 'b', '2', 's', 'y', 's', 'c'] + seq!['\n'],
        ) == Some(user),
{
    let e = seq!['d', 'b', '2', 's', 'y', 's', 'c'];
    let line = user + seq![' '] + e;
    let text = line + seq!['\n'];
    assert(user + seq![' '] + e + seq!['\n'] == text);
    assert(!line.contains('\n')) by {
        if line.contains('\n') {
            let k = choose|k: int| 0 <= k < line.len() && line[k] == '\n';
            if k < user.len() {
                assert(line[k] == user[k]);
            }
        }
    }
    let parts = seq![line, Seq::<char>::empty()];
    assert(join_with(parts, '\n') == join_with(parts.drop_last(), '\n') + seq!['\n'] + parts.last());
    assert(parts.drop_last() =~= seq![line]);
    assert(join_with(seq![line], '\n') == line);
    assert(join_with(parts, '\n') =~= text);
    lemma_split_join(parts, '\n');
    assert(split_on(text, '\n') == parts);
    assert(lines_of(text) =~= seq![line]);
    assert(line[0] == user[0]);
    assert(trim_start(line) == line);
    assert(line.last() == 'c');
    assert(trim_end(line) == line);
    assert(trim(line) == line);
    assert forall|k: int| 0 <= k < user.len() implies !is_white(line[k]) by {
        assert(line[k] == user[k]);
    }
    assert(line[user.len() as int] == ' ');
    lemma_index_of_white(line, user.len() as int);
    assert(line.skip(user.len() as int + 1) =~= e);
    assert(trim_start(e) == e);
    assert(trim_end(e) == e);
    assert(e =~= engine_command());
    assert(line.take(user.len() as int) =~= user);
    assert(line_owner(line) == Some(user));
    assert(seq![line].drop_first() =~= Seq::<Seq<char>>::empty());
}

} // verus!
