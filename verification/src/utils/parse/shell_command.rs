//! Collection of functions related to shell commands and processes: how a
//! line of shell commands is read into the stages of a pipeline. Starting
//! the processes of the stages is left to the caller.
use vstd::prelude::*;
use vstd::string::*;

use crate::error::CommandChildError;

verus! {

/// Whether `c` is white space: the Unicode `White_Space` property, which
/// `char::is_whitespace`, `str::trim` and `str::split_whitespace` follow.
pub open spec fn is_ws(c: char) -> bool {
    ||| '\u{9}' <= c <= '\u{d}'
    ||| c == ' '
    ||| c == '\u{85}'
    ||| c == '\u{a0}'
    ||| c == '\u{1680}'
    ||| '\u{2000}' <= c <= '\u{200a}'
    ||| c == '\u{2028}'
    ||| c == '\u{2029}'
    ||| c == '\u{202f}'
    ||| c == '\u{205f}'
    ||| c == '\u{3000}'
}

/// The text without leading white space.
pub open spec fn trim_start_ws(s: Seq<char>) -> Seq<char>
    decreases s.len(),
{
    if s.len() > 0 && is_ws(s[0]) {
        trim_start_ws(s.drop_first())
    } else {
        s
    }
}

/// The text without trailing white space.
pub open spec fn trim_end_ws(s: Seq<char>) -> Seq<char>
    decreases s.len(),
{
    if s.len() > 0 && is_ws(s.last()) {
        trim_end_ws(s.drop_last())
    } else {
        s
    }
}

/// The text without white space at either end (`str::trim`).
pub open spec fn trim_ws(s: Seq<char>) -> Seq<char> {
    trim_end_ws(trim_start_ws(s))
}

/// `pat` occurs in `s` at `i`.
pub open spec fn occurs_at(s: Seq<char>, pat: Seq<char>, i: int) -> bool {
    0 <= i && i + pat.len() <= s.len() && s.subrange(i, i + pat.len()) == pat
}

/// `i` is the first place where `pat` occurs in `s`.
pub open spec fn first_at(s: Seq<char>, pat: Seq<char>, i: int) -> bool {
    &&& occurs_at(s, pat, i)
    &&& forall|j: int| 0 <= j < i ==> !#[trigger] occurs_at(s, pat, j)
}

/// `pat` occurs in `s`.
pub open spec fn contains_pat(s: Seq<char>, pat: Seq<char>) -> bool {
    exists|i: int| #[trigger] occurs_at(s, pat, i)
}

/// The pieces of `s` between the occurrences of `pat`, taken from the left
/// (`str::split`).
pub open spec fn split_on(s: Seq<char>, pat: Seq<char>) -> Seq<Seq<char>>
    decreases s.len(),
{
    if pat.len() > 0 && exists|i: int| first_at(s, pat, i) {
        let i = choose|i: int| first_at(s, pat, i);
        seq![s.subrange(0, i)] + split_on(s.subrange(i + pat.len(), s.len() as int), pat)
    } else {
        seq![s]
    }
}

/// The last piece of `s` split after each occurrence of `pat`
/// (`str::split_inclusive`): what follows the last occurrence or, where
/// nothing does, the piece that ends with it.
pub open spec fn last_inclusive_piece(s: Seq<char>, pat: Seq<char>) -> Seq<char> {
    let parts = split_on(s, pat);
    if parts.len() >= 2 && parts.last().len() == 0 {
        parts[parts.len() - 2] + pat
    } else {
        parts.last()
    }
}

/// The words of `s` after the word `cur` being read: the runs of
/// characters between white space.
pub open spec fn words_from(s: Seq<char>, cur: Seq<char>) -> Seq<Seq<char>>
    decreases s.len(),
{
    if s.len() == 0 {
        if cur.len() > 0 {
            seq![cur]
        } else {
            seq![]
        }
    } else if is_ws(s[0]) {
        (if cur.len() > 0 {
            seq![cur]
        } else {
            seq![]
        }) + words_from(s.drop_first(), seq![])
    } else {
        words_from(s.drop_first(), cur.push(s[0]))
    }
}

/// The words of `s` (`str::split_whitespace`).
pub open spec fn words(s: Seq<char>) -> Seq<Seq<char>> {
    words_from(s, seq![])
}

/// Where the standard output of a stage goes.
#[derive(Debug, Clone)]
pub struct Redirect {
    /// Append to the file (`>>`) rather than write it (`>`).
    pub append: bool,
    /// The file.
    pub filename: String,
}

/// One stage of a pipeline: a program, its arguments, and a file its
/// output is redirected to, if any (the last stage that is run).
#[derive(Debug, Clone)]
pub struct CommandStage {
    /// The program.
    pub program: String,
    /// Its arguments.
    pub args: Vec<String>,
    /// Where its output goes, if not to the next stage.
    pub redirect: Option<Redirect>,
}

/// The views of a sequence of strings.
pub open spec fn views(v: Seq<String>) -> Seq<Seq<char>> {
    v.map_values(|s: String| s@)
}

/// The redirection a command asks for: `>>` (appending) where it holds
/// one, else `>` where it holds one; the file is the last piece of the
/// trimmed command split after that sign, trimmed.
pub open spec fn redirect_of(command: Seq<char>) -> Option<(bool, Seq<char>)> {
    if contains_pat(command, seq!['>', '>']) {
        Some((true, trim_ws(last_inclusive_piece(trim_ws(command), seq!['>', '>']))))
    } else if contains_pat(command, seq!['>']) {
        Some((false, trim_ws(last_inclusive_piece(trim_ws(command), seq!['>']))))
    } else {
        None
    }
}

/// The words of a command once its redirection is cut off.
pub open spec fn stage_words(command: Seq<char>) -> Seq<Seq<char>> {
    let cut = if redirect_of(command) is Some {
        split_on(trim_ws(command), seq!['>'])[0]
    } else {
        command
    };
    words(trim_ws(cut))
}

/// The commands of a pipeline that are started: each one up to and
/// including the first whose output is redirected to a file.
pub open spec fn started(commands: Seq<Seq<char>>) -> Seq<Seq<char>>
    decreases commands.len(),
{
    if commands.len() == 0 {
        seq![]
    } else if redirect_of(commands[0]) is Some {
        seq![commands[0]]
    } else {
        seq![commands[0]] + started(commands.drop_first())
    }
}

/// What reading a line of shell commands gives: the stages of the commands
/// that are started, in order; a started command without words refuses the
/// whole line.
pub open spec fn pipeline_of(input: Seq<char>, r: Result<Seq<CommandStage>, CommandChildError>) -> bool {
    let commands = started(split_on(trim_ws(input), " | "@));
    match r {
        Ok(stages) => {
            &&& stages.len() == commands.len()
            &&& forall|i: int| 0 <= i < commands.len() ==> #[trigger] stage_of(commands[i], Ok(stages[i]))
        },
        Err(CommandChildError::DisCondition(m)) => {
            &&& m@ == "Without next part"@
            &&& exists|i: int| 0 <= i < commands.len() && #[trigger] stage_words(commands[i]).len() == 0
        },
    }
}

/// Cutting off a prefix of commands that are not redirected leaves the
/// rest to be started after it.
proof fn lemma_started_prefix(commands: Seq<Seq<char>>, i: int)
    requires
        0 <= i <= commands.len(),
        forall|j: int| 0 <= j < i ==> redirect_of(#[trigger] commands[j]) is None,
    ensures
        started(commands) == commands.take(i) + started(commands.skip(i)),
    decreases i,
{
    if i > 0 {
        let rest = commands.drop_first();
        assert forall|j: int| 0 <= j < i - 1 implies redirect_of(#[trigger] rest[j]) is None by {
            assert(rest[j] == commands[j + 1]);
        }
        lemma_started_prefix(rest, i - 1);
        assert(rest.skip(i - 1) =~= commands.skip(i));
        assert(commands.take(i) =~= seq![commands[0]] + rest.take(i - 1));
    } else {
        assert(commands.skip(0) =~= commands);
    }
}

/// What a stage reads from a command: its words (once a redirection is cut
/// off) make the program and its arguments.
pub open spec fn stage_of(command: Seq<char>, r: Result<CommandStage, CommandChildError>) -> bool {
    let parts = stage_words(command);
    match r {
        Ok(stage) => {
            &&& parts.len() > 0
            &&& stage.program@ == parts[0]
            &&& views(stage.args@) == parts.drop_first()
            &&& match (stage.redirect, redirect_of(command)) {
                (Some(rd), Some((append, file))) => rd.append == append && rd.filename@ == file,
                (None, None) => true,
                _ => false,
            }
        },
        Err(CommandChildError::DisCondition(m)) => parts.len() == 0 && m@ == "Without next part"@,
    }
}

/// Whether a character is white space.
pub fn is_white_space(c: char) -> (r: bool)
    ensures
        r == is_ws(c),
{
    ('\u{9}' <= c && c <= '\u{d}') || c == ' ' || c == '\u{85}' || c == '\u{a0}' || c == '\u{1680}'
        || ('\u{2000}' <= c && c <= '\u{200a}') || c == '\u{2028}' || c == '\u{2029}' || c
        == '\u{202f}' || c == '\u{205f}' || c == '\u{3000}'
}

/// The text without white space at either end.
pub fn trim(s: &str) -> (r: &str)
    ensures
        r@ == trim_ws(s@),
{
    let n = s.unicode_len();
    let mut i: usize = 0;
    assert(s@.subrange(0, n as int) =~= s@);
    while i < n && is_white_space(s.get_char(i))
        invariant
            n == s@.len(),
            i <= n,
            trim_start_ws(s@) == trim_start_ws(s@.subrange(i as int, n as int)),
        decreases n - i,
    {
        assert(s@.subrange(i as int, n as int).drop_first() =~= s@.subrange(i + 1, n as int));
        i = i + 1;
    }
    assert(trim_start_ws(s@.subrange(i as int, n as int)) == s@.subrange(i as int, n as int));
    let mut j: usize = n;
    while j > i && is_white_space(s.get_char(j - 1))
        invariant
            n == s@.len(),
            i <= j <= n,
            trim_ws(s@) == trim_end_ws(s@.subrange(i as int, j as int)),
        decreases j,
    {
        assert(s@.subrange(i as int, j as int).drop_last() =~= s@.subrange(i as int, j - 1));
        j = j - 1;
    }
    s.substring_char(i, j)
}

/// Whether `pat` occurs in `s` at `i`.
fn matches_at(s: &str, n: usize, pat: &str, m: usize, i: usize) -> (r: bool)
    requires
        n == s@.len(),
        m == pat@.len(),
        i + m <= n,
    ensures
        r == occurs_at(s@, pat@, i as int),
{
    let mut k: usize = 0;
    while k < m
        invariant
            n == s@.len(),
            m == pat@.len(),
            i + m <= n,
            k <= m,
            s@.subrange(i as int, i + k) == pat@.subrange(0, k as int),
        decreases m - k,
    {
        if s.get_char(i + k) != pat.get_char(k) {
            assert(s@.subrange(i as int, i + m)[k as int] != pat@[k as int]);
            return false;
        }
        assert(s@.subrange(i as int, i + k + 1) =~= s@.subrange(i as int, i + k).push(
            s@[i + k],
        ));
        assert(pat@.subrange(0, k + 1) =~= pat@.subrange(0, k as int).push(pat@[k as int]));
        k = k + 1;
    }
    assert(pat@.subrange(0, m as int) =~= pat@);
    true
}

/// The first place where `pat` occurs in `s`, if any.
fn find_first(s: &str, pat: &str) -> (r: Option<usize>)
    requires
        pat@.len() > 0,
    ensures
        match r {
            Some(i) => first_at(s@, pat@, i as int),
            None => !contains_pat(s@, pat@),
        },
{
    let n = s.unicode_len();
    let m = pat.unicode_len();
    if m > n {
        return None;
    }
    let mut i: usize = 0;
    while i <= n - m
        invariant
            n == s@.len(),
            m == pat@.len(),
            m > 0,
            m <= n,
            i <= n - m + 1,
            forall|j: int| 0 <= j < i ==> !#[trigger] occurs_at(s@, pat@, j),
        decreases n - i,
    {
        if matches_at(s, n, pat, m, i) {
            return Some(i);
        }
        i = i + 1;
    }
    None
}

/// Split `s` at each occurrence of `pat`, from the left.
pub fn split_str(s: &str, pat: &str) -> (r: Vec<String>)
    requires
        pat@.len() > 0,
    ensures
        views(r@) == split_on(s@, pat@),
{
    let m = pat.unicode_len();
    let mut pieces: Vec<String> = Vec::new();
    let mut rest: &str = s;
    loop
        invariant
            m == pat@.len(),
            m > 0,
            split_on(s@, pat@) == views(pieces@) + split_on(rest@, pat@),
        decreases rest@.len(),
    {
        match find_first(rest, pat) {
            Some(i) => {
                let n = rest.unicode_len();
                let head = rest.substring_char(0, i);
                let tail = rest.substring_char(i + m, n);
                proof {
                    assert(exists|k: int| first_at(rest@, pat@, k));
                    let k = choose|k: int| first_at(rest@, pat@, k);
                    assert(k == i) by {
                        if k < i {
                            assert(!occurs_at(rest@, pat@, k));
                        } else if k > i {
                            assert(!occurs_at(rest@, pat@, i as int));
                        }
                    }
                    assert(split_on(rest@, pat@) == seq![head@] + split_on(tail@, pat@));
                }
                let ghost before = pieces@;
                pieces.push(head.to_owned());
                proof {
                    assert(views(pieces@) =~= views(before).push(head@));
                    assert(views(before) + (seq![head@] + split_on(tail@, pat@)) =~= views(
                        before,
                    ).push(head@) + split_on(tail@, pat@));
                }
                rest = tail;
            },
            None => {
                proof {
                    assert(!exists|k: int| first_at(rest@, pat@, k)) by {
                        if exists|k: int| first_at(rest@, pat@, k) {
                            let k = choose|k: int| first_at(rest@, pat@, k);
                            assert(occurs_at(rest@, pat@, k));
                        }
                    }
                    assert(split_on(rest@, pat@) == seq![rest@]);
                }
                let ghost before = pieces@;
                pieces.push(rest.to_owned());
                proof {
                    assert(views(pieces@) =~= views(before).push(rest@));
                    assert(views(before) + seq![rest@] =~= views(before).push(rest@));
                }
                return pieces;
            },
        }
    }
}

/// The commands of a line of shell commands: the trimmed line split at each
/// ` | `.
pub fn split_pipeline(input: &str) -> (r: Vec<String>)
    ensures
        views(r@) == split_on(trim_ws(input@), " | "@),
{
    let pipe = " | ";
    proof {
        reveal_strlit(" | ");
    }
    split_str(trim(input), pipe)
}

/// The words of a text: its runs of characters between white space.
pub fn split_whitespace(s: &str) -> (r: Vec<String>)
    ensures
        views(r@) == words(s@),
{
    let n = s.unicode_len();
    let mut out: Vec<String> = Vec::new();
    let mut start: usize = 0;
    let mut i: usize = 0;
    assert(s@.subrange(0, 0) =~= Seq::<char>::empty());
    assert(s@.subrange(0, n as int) =~= s@);
    while i < n
        invariant
            n == s@.len(),
            start <= i <= n,
            words(s@) == views(out@) + words_from(
                s@.subrange(i as int, n as int),
                s@.subrange(start as int, i as int),
            ),
        decreases n - i,
    {
        let c = s.get_char(i);
        let ghost rest = s@.subrange(i as int, n as int);
        let ghost cur = s@.subrange(start as int, i as int);
        assert(rest[0] == c);
        assert(rest.drop_first() =~= s@.subrange(i + 1, n as int));
        if is_white_space(c) {
            if start < i {
                let w = s.substring_char(start, i);
                let ghost before = out@;
                out.push(w.to_owned());
                proof {
                    assert(views(out@) =~= views(before).push(cur));
                    assert(views(before) + (seq![cur] + words_from(rest.drop_first(), seq![]))
                        =~= views(out@) + words_from(rest.drop_first(), seq![]));
                }
            } else {
                assert(cur.len() == 0);
                assert(views(out@) + (Seq::<Seq<char>>::empty() + words_from(
                    rest.drop_first(),
                    seq![],
                )) =~= views(out@) + words_from(rest.drop_first(), seq![]));
            }
            start = i + 1;
            assert(s@.subrange(start as int, i + 1) =~= Seq::<char>::empty());
        } else {
            assert(s@.subrange(start as int, i + 1) =~= cur.push(c));
        }
        i = i + 1;
    }
    let ghost cur = s@.subrange(start as int, n as int);
    assert(s@.subrange(n as int, n as int) =~= Seq::<char>::empty());
    if start < n {
        let w = s.substring_char(start, n);
        let ghost before = out@;
        out.push(w.to_owned());
        proof {
            assert(views(out@) =~= views(before).push(cur));
            assert(views(before) + seq![cur] =~= views(out@));
        }
    } else {
        assert(views(out@) + Seq::<Seq<char>>::empty() =~= views(out@));
    }
    out
}

/// The redirection a command asks for, if any: whether it appends, and the
/// file.
pub fn redirect_target(command: &str) -> (r: Option<Redirect>)
    ensures
        match (r, redirect_of(command@)) {
            (Some(rd), Some((append, file))) => rd.append == append && rd.filename@ == file,
            (None, None) => true,
            _ => false,
        },
{
    let double = ">>";
    let single = ">";
    proof {
        reveal_strlit(">>");
        reveal_strlit(">");
        assert(double@ =~= seq!['>', '>']);
        assert(single@ =~= seq!['>']);
    }
    let (append, angle_bracket) = if find_first(command, double).is_some() {
        (true, double)
    } else if find_first(command, single).is_some() {
        (false, single)
    } else {
        return None;
    };
    let pieces = split_str(trim(command), angle_bracket);
    let k = pieces.len();
    proof {
        assert(views(pieces@).len() == pieces@.len());
    }
    let raw: String = if k >= 2 && pieces[k - 1].unicode_len() == 0 {
        let mut piece = pieces[k - 2].clone();
        piece.append(angle_bracket);
        piece
    } else {
        pieces[k - 1].clone()
    };
    let filename = trim(raw.as_str()).to_owned();
    Some(Redirect { append, filename })
}

//After confirming that there is a redirect file, parse the command before the command '>'.
/// The part of a command before its first `>`, trimmed first.
pub fn _remove_angle_bracket_command(command: &str) -> (r: Result<String, CommandChildError>)
    ensures
        r matches Ok(s) && s@ == split_on(trim_ws(command@), seq!['>'])[0],
{
    let single = ">";
    proof {
        reveal_strlit(">");
        assert(single@ =~= seq!['>']);
    }
    let pieces = split_str(trim(command), single);
    proof {
        assert(views(pieces@).len() == pieces@.len());
    }
    Ok(pieces[0].clone())
}

/// Read one stage of a pipeline from a command: cut off its redirection (if
/// any), then its first word is the program and the others its arguments.
/// A command without words is refused.
pub fn parse_command_stage(command: &str) -> (r: Result<CommandStage, CommandChildError>)
    ensures
        stage_of(command@, r),
{
    let redirect = redirect_target(command);
    let cut: String = if redirect.is_some() {
        match _remove_angle_bracket_command(command) {
            Ok(s) => s,
            Err(e) => {
                return Err(e);
            },
        }
    } else {
        command.to_owned()
    };
    let mut parts = split_whitespace(trim(cut.as_str()));
    if parts.len() == 0 {
        return Err(CommandChildError::DisCondition("Without next part".to_owned()));
    }
    let ghost all = parts@;
    let program = parts.remove(0);
    proof {
        assert(views(parts@) =~= views(all).drop_first());
    }
    Ok(CommandStage { program, args: parts, redirect })
}

/// Read a line of shell commands into the stages to start: the commands
/// between ` | ` are read in order, and the first one whose output is
/// redirected to a file is the last one started (the rest are not read).
pub fn parse_pipeline(input: &str) -> (r: Result<Vec<CommandStage>, CommandChildError>)
    ensures
        pipeline_of(
            input@,
            match r {
                Ok(stages) => Ok(stages@),
                Err(e) => Err(e),
            },
        ),
{
    let commands = split_pipeline(input);
    let ghost all = views(commands@);
    let mut stages: Vec<CommandStage> = Vec::new();
    let mut i: usize = 0;
    proof {
        lemma_started_prefix(all, 0);
    }
    while i < commands.len()
        invariant
            all == views(commands@),
            all == split_on(trim_ws(input@), " | "@),
            i <= commands.len(),
            stages@.len() == i,
            forall|j: int| 0 <= j < i ==> redirect_of(#[trigger] all[j]) is None,
            forall|j: int| 0 <= j < i ==> #[trigger] stage_of(all[j], Ok(stages@[j])),
            started(all) == all.take(i as int) + started(all.skip(i as int)),
        decreases commands.len() - i,
    {
        assert(commands@[i as int]@ == all[i as int]);
        let stage = match parse_command_stage(commands[i].as_str()) {
            Ok(stage) => stage,
            Err(e) => {
                proof {
                    let rest = all.skip(i as int);
                    assert(rest[0] == all[i as int]);
                    assert(started(all)[i as int] == all[i as int]);
                }
                return Err(e);
            },
        };
        let end = stage.redirect.is_some();
        stages.push(stage);
        if end {
            proof {
                let rest = all.skip(i as int);
                assert(rest[0] == all[i as int]);
                assert(started(rest) =~= seq![all[i as int]]);
                assert(started(all) =~= all.take(i + 1));
                assert forall|j: int| 0 <= j < i + 1 implies #[trigger] stage_of(
                    started(all)[j],
                    Ok(stages@[j]),
                ) by {
                    assert(started(all)[j] == all[j]);
                }
            }
            return Ok(stages);
        }
        proof {
            lemma_started_prefix(all, i + 1);
        }
        i = i + 1;
    }
    proof {
        assert(all.skip(i as int) =~= Seq::<Seq<char>>::empty());
        assert(started(all) =~= all.take(i as int));
        assert forall|j: int| 0 <= j < i implies #[trigger] stage_of(started(all)[j], Ok(stages@[j])) by {
            assert(started(all)[j] == all[j]);
        }
    }
    Ok(stages)
}

} // verus!
