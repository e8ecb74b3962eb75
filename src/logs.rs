use vstd::prelude::*;
use vstd::string::*;
use crate::text::{join_lines, joined, padded, push_padded, views};

verus! {

/// How many trailing lines are shown when the caller names no limit.
pub const DEFAULT_LOG_LINES: usize = 200;

/// The content shown when no log file exists for today.
pub open spec fn no_logs() -> Seq<char> {
    "暂无日志"@
}

/// The stretches of `s` between `'\n'` characters: one more than there are newlines.
pub open spec fn pieces(s: Seq<char>) -> Seq<Seq<char>>
    decreases s.len(),
{
    if s.len() == 0 {
        seq![Seq::empty()]
    } else {
        let p = pieces(s.drop_last());
        if s.last() == '\n' {
            p.push(Seq::empty())
        } else {
            p.update(p.len() - 1, p.last().push(s.last()))
        }
    }
}

/// A line without the `'\r'` of a `\r\n` ending.
pub open spec fn strip_cr(l: Seq<char>) -> Seq<char> {
    if l.len() > 0 && l.last() == '\r' {
        l.drop_last()
    } else {
        l
    }
}

/// The lines of a text: split at `\n` or `\r\n`, the endings left out, a
/// final line ending optional (so an empty text has no lines), and a lone
/// `'\r'` at the very end kept.
pub open spec fn lines_of(s: Seq<char>) -> Seq<Seq<char>> {
    let p = pieces(s);
    let body = if p.last().len() == 0 {
        p.drop_last()
    } else {
        p
    };
    Seq::new(
        body.len(),
        |i: int|
            if i < p.len() - 1 {
                strip_cr(body[i])
            } else {
                body[i]
            },
    )
}

/// Relies on `str::lines`: the lines of the text, split at `\n` or `\r\n`,
/// in order, as its documentation describes them.
#[verifier::external_body]
fn split_lines(s: &str) -> (r: Vec<String>)
    ensures
        views(r@) == lines_of(s@),
{
    s.lines().map(|l| l.to_string()).collect()
}

/// The last `n` items of `s`, or all of them when there are fewer.
pub open spec fn last_n<A>(s: Seq<A>, n: nat) -> Seq<A> {
    if s.len() > n {
        s.subrange(s.len() - n, s.len() as int)
    } else {
        s
    }
}

/// The last `limit` lines, in the order they came, joined by newlines.
pub fn tail_lines(lines: &Vec<String>, limit: usize) -> (r: String)
    ensures
        r@ == joined(last_n(views(lines@), limit as nat)),
{
    let start: usize = if lines.len() > limit { lines.len() - limit } else { 0 };
    let mut tail: Vec<String> = Vec::new();
    let mut i: usize = start;
    while i < lines.len()
        invariant
            start <= i <= lines.len(),
            views(tail@) == views(lines@).subrange(start as int, i as int),
        decreases lines.len() - i,
    {
        let line = lines[i].clone();
        let ghost before = tail@;
        tail.push(line);
        proof {
            assert(line@ == lines@[i as int]@);
            assert(tail@ == before.push(line));
            assert(views(tail@) =~= views(before).push(line@));
            assert(views(tail@) =~= views(lines@).subrange(start as int, i + 1));
        }
        i = i + 1;
    }
    proof {
        assert(views(lines@).subrange(start as int, lines@.len() as int) =~= last_n(
            views(lines@),
            limit as nat,
        ));
    }
    join_lines(&tail)
}

/// A calendar date, as the local clock gives it.
pub struct LogDate {
    pub year: u32,
    pub month: u32,
    pub day: u32,
}

impl LogDate {
    /// A date with a four-digit year, a month of the year and a day of the month.
    pub open spec fn wf(&self) -> bool {
        self.year <= 9999 && 1 <= self.month <= 12 && 1 <= self.day <= 31
    }
}

/// `YYYY-MM-DD.log` for the date.
pub open spec fn log_name(d: LogDate) -> Seq<char> {
    padded(d.year as nat, 4) + "-"@ + padded(d.month as nat, 2) + "-"@ + padded(d.day as nat, 2)
        + ".log"@
}

/// The name of the day's log file.
pub fn log_file_name(date: &LogDate) -> (r: String)
    requires
        date.wf(),
    ensures
        r@ == log_name(*date),
{
    let mut s = String::new();
    push_padded(&mut s, date.year, 4);
    s.append("-");
    push_padded(&mut s, date.month, 2);
    s.append("-");
    push_padded(&mut s, date.day, 2);
    s.append(".log");
    assert(s@ =~= log_name(*date));
    s
}

/// What the log view shows: the text, and the directory it comes from.
pub struct LogView {
    pub content: String,
    pub log_dir: String,
}

/// The content owed for today's log file: the placeholder when there is none,
/// else the last `limit` lines of it.
pub open spec fn log_content(file: Option<Seq<char>>, limit: nat) -> Seq<char> {
    match file {
        None => no_logs(),
        Some(text) => joined(last_n(lines_of(text), limit)),
    }
}

/// The log view over `log_dir`, given what reading today's file gave: `None`
/// when there is no such file, `Some(Err(..))` when it could not be read.
/// The limit is `lines`, or the default when none is given.
pub fn read_logs(lines: Option<usize>, log_dir: String, today: Option<Result<String, String>>) -> (r: Result<LogView, String>)
    ensures
        today matches Some(Err(e)) ==> (r matches Err(m) && m@ == "Failed to read log: "@ + e@),
        !(today matches Some(Err(_))) ==> (r matches Ok(v) && v.log_dir@ == log_dir@ && v.content@
            == log_content(
            match today {
                Some(Ok(t)) => Some(t@),
                _ => None,
            },
            match lines {
                Some(n) => n as nat,
                None => DEFAULT_LOG_LINES as nat,
            },
        )),
{
    let limit = match lines {
        Some(n) => n,
        None => DEFAULT_LOG_LINES,
    };
    match today {
        None => Ok(LogView { content: String::from_str("暂无日志"), log_dir }),
        Some(Err(e)) => {
            let mut m = String::from_str("Failed to read log: ");
            m.append(e.as_str());
            Err(m)
        },
        Some(Ok(text)) => {
            let all = split_lines(text.as_str());
            Ok(LogView { content: tail_lines(&all, limit), log_dir })
        },
    }
}

} // verus!
