//! Log lines: a template with `{}` placeholders, filled with coloured text.
//!
//! The logger formats; it does not print. A formatted line is a list of runs
//! of text, each with its colour, for the caller to write to the stream that
//! the line names.
use crate::number::{decimal, push_decimal};
use crate::text::{chars_of, extend_str, string_of};
use vstd::prelude::*;

verus! {

/// A foreground colour of the terminal.
#[derive(Debug, Clone, Copy, PartialEq, Eq)]
pub enum Color {
    Black,
    Blue,
    Green,
    Red,
    Cyan,
    Magenta,
    Yellow,
    White,
}

impl DeepView for Color {
    type V = Color;

    open spec fn deep_view(&self) -> Color {
        *self
    }
}

/// Where a line is to be written.
#[derive(Debug, Clone, Copy, PartialEq, Eq)]
pub enum Stream {
    Stdout,
    Stderr,
}

/// A formatted line: runs of text with their colours, to be written in order
/// to `stream`. The line feed that ends the line is part of the last run.
#[derive(Debug)]
pub struct LogLine {
    pub stream: Stream,
    pub runs: Vec<(String, Option<Color>)>,
}

/// Why a template could not be filled.
pub enum LogFault {
    /// A placeholder was met after `0` arguments had been used, and there is
    /// no further argument.
    MissingArgument(nat),
    /// An opening brace is followed by neither `}` nor `{`.
    OpenBrace,
    /// A closing brace is not followed by `}`.
    CloseBrace,
}

/// Text in which every character has a colour, or none.
pub type Styled = Seq<(char, Option<Color>)>;

/// `text` with every character in `color`.
pub open spec fn styled(text: Seq<char>, color: Option<Color>) -> Styled {
    Seq::new(text.len(), |i: int| (text[i], color))
}

/// The styled text of `runs`, in order.
pub open spec fn flatten(runs: Seq<(Seq<char>, Option<Color>)>) -> Styled
    decreases runs.len(),
{
    if runs.len() == 0 {
        Seq::empty()
    } else {
        flatten(runs.drop_last()) + styled(runs.last().0, runs.last().1)
    }
}

/// `head` in front of the text of `rest`, where `rest` is text.
pub open spec fn after(head: Styled, rest: Result<Styled, LogFault>) -> Result<Styled, LogFault> {
    match rest {
        Ok(tail) => Ok(head + tail),
        Err(fault) => Err(fault),
    }
}

/// The template `fmt` filled with the arguments from index `used` on.
///
/// `{}` stands for the next argument, in its colour; `{{` and `}}` stand for
/// one brace; any other character stands for itself, without colour.
/// Arguments that are left over are ignored.
pub open spec fn fill(fmt: Seq<char>, args: Seq<(Seq<char>, Option<Color>)>, used: nat) -> Result<
    Styled,
    LogFault,
>
    decreases fmt.len(),
{
    if fmt.len() == 0 {
        Ok(Seq::empty())
    } else if fmt[0] == '{' {
        if fmt.len() >= 2 && fmt[1] == '}' {
            if used < args.len() {
                after(
                    styled(args[used as int].0, args[used as int].1),
                    fill(fmt.skip(2), args, used + 1),
                )
            } else {
                Err(LogFault::MissingArgument(used))
            }
        } else if fmt.len() >= 2 && fmt[1] == '{' {
            after(seq![('{', None)], fill(fmt.skip(2), args, used))
        } else {
            Err(LogFault::OpenBrace)
        }
    } else if fmt[0] == '}' {
        if fmt.len() >= 2 && fmt[1] == '}' {
            after(seq![('}', None)], fill(fmt.skip(2), args, used))
        } else {
            Err(LogFault::CloseBrace)
        }
    } else {
        after(seq![(fmt[0], None)], fill(fmt.skip(1), args, used))
    }
}

/// The line for the template `fmt` and `args`: the filled template, then a
/// line feed.
pub open spec fn line(fmt: Seq<char>, args: Seq<(Seq<char>, Option<Color>)>) -> Result<
    Styled,
    LogFault,
> {
    match fill(fmt, args, 0) {
        Ok(text) => Ok(text.push(('\n', None))),
        Err(fault) => Err(fault),
    }
}

impl LogFault {
    /// The message that reports this fault.
    pub open spec fn message(self) -> Seq<char> {
        match self {
            LogFault::MissingArgument(used) => "Not enough arguments (need more than "@ + decimal(
                used,
            ) + ")"@,
            LogFault::OpenBrace => "{{ not closed"@,
            LogFault::CloseBrace => "}} not closed"@,
        }
    }
}

/// The colour in which a status code is logged.
pub open spec fn status_color(status_code: u16) -> Color {
    if 100 <= status_code <= 199 {
        Color::Cyan
    } else if 200 <= status_code <= 299 {
        Color::Green
    } else if 300 <= status_code <= 399 {
        Color::Yellow
    } else if 400 <= status_code <= 499 {
        Color::Red
    } else {
        Color::Magenta
    }
}

/// The colour in which a status code is logged.
pub fn get_status_code_color(status_code: u16) -> (r: Color)
    ensures
        r == status_color(status_code),
{
    if 100 <= status_code && status_code <= 199 {
        Color::Cyan
    } else if 200 <= status_code && status_code <= 299 {
        Color::Green
    } else if 300 <= status_code && status_code <= 399 {
        Color::Yellow
    } else if 400 <= status_code && status_code <= 499 {
        Color::Red
    } else {
        Color::Magenta
    }
}

/// How a setting that is on or off is shown: `Enabled` in green where
/// `option` holds a value, `Disabled` in yellow where it holds none.
pub fn get_option<T>(option: &Option<T>) -> (r: (String, Option<Color>))
    ensures
        option is Some ==> r.0@ == "Enabled"@ && r.1 == Some(Color::Green),
        option is None ==> r.0@ == "Disabled"@ && r.1 == Some(Color::Yellow),
{
    match option {
        Some(_) => ("Enabled".to_owned(), Some(Color::Green)),
        None => ("Disabled".to_owned(), Some(Color::Yellow)),
    }
}

/// Formats log lines.
#[derive(Debug, Clone, Copy)]
pub struct Logger {}

impl LogLine {
    /// The styled text of this line.
    pub open spec fn text(self) -> Styled {
        flatten(self.runs.deep_view())
    }
}

impl Logger {
    /// A logger.
    pub fn new() -> Logger {
        Logger {  }
    }

    /// The line for `fmtstr` and `args`, for the standard error stream.
    pub fn log_stderr(&self, fmtstr: &str, args: Vec<(String, Option<Color>)>) -> (r: Result<
        LogLine,
        String,
    >)
        ensures
            match line(fmtstr@, args.deep_view()) {
                Ok(text) => r matches Ok(l) && l.text() == text && l.stream == Stream::Stderr,
                Err(fault) => r matches Err(m) && m@ == fault.message(),
            },
    {
        self.log(fmtstr, args, Stream::Stderr)
    }

    /// The line for `fmtstr` and `args`, for the standard output stream.
    pub fn log_stdout(&self, fmtstr: &str, args: Vec<(String, Option<Color>)>) -> (r: Result<
        LogLine,
        String,
    >)
        ensures
            match line(fmtstr@, args.deep_view()) {
                Ok(text) => r matches Ok(l) && l.text() == text && l.stream == Stream::Stdout,
                Err(fault) => r matches Err(m) && m@ == fault.message(),
            },
    {
        self.log(fmtstr, args, Stream::Stdout)
    }

    /// The line for `fmtstr` and `args`, for `stream`.
    pub fn log(&self, fmtstr: &str, args: Vec<(String, Option<Color>)>, stream: Stream) -> (r:
        Result<LogLine, String>)
        ensures
            match line(fmtstr@, args.deep_view()) {
                Ok(text) => r matches Ok(l) && l.text() == text && l.stream == stream,
                Err(fault) => r matches Err(m) && m@ == fault.message(),
            },
    {
        let fmt = chars_of(fmtstr);
        let n = fmt.len();
        let ghost all = args.deep_view();
        let ghost goal = fill(fmt@, all, 0);
        let mut runs: Vec<(String, Option<Color>)> = Vec::new();
        let mut pending: Vec<char> = Vec::new();
        let mut used: usize = 0;
        let mut i: usize = 0;
        proof {
            assert(runs.deep_view() =~= Seq::empty());
            assert(fmt@.skip(0) =~= fmt@);
            lemma_after_empty(goal);
        }
        while i < n
            invariant
                i <= n == fmt@.len(),
                fmt@ == fmtstr@,
                all == args.deep_view(),
                used <= args@.len(),
                goal == fill(fmt@, all, 0),
                goal == after(
                    flatten(runs.deep_view()) + styled(pending@, None),
                    fill(fmt@.skip(i as int), all, used as nat),
                ),
            decreases n - i,
        {
            let c = fmt[i];
            let ghost rest = fmt@.skip(i as int);
            let ghost done = flatten(runs.deep_view()) + styled(pending@, None);
            assert(rest[0] == c);
            if i + 1 < n {
                assert(rest[1] == fmt@[i + 1]);
                assert(rest.skip(2) =~= fmt@.skip(i + 2));
            }
            assert(rest.skip(1) =~= fmt@.skip(i + 1));
            if c == '{' {
                if i + 1 < n && fmt[i + 1] == '}' {
                    if used < args.len() {
                        let arg = &args[used];
                        assert(all[used as int] == (arg.0@, arg.1));
                        let ghost piece = styled(arg.0@, arg.1);
                        proof {
                            lemma_after_after(
                                done,
                                piece,
                                fill(fmt@.skip(i + 2), all, (used + 1) as nat),
                            );
                        }
                        if arg.0.as_str().unicode_len() > 0 {
                            flush(&mut runs, &mut pending);
                            let ghost before = runs.deep_view();
                            runs.push((arg.0.clone(), arg.1));
                            proof {
                                assert(runs.deep_view() =~= before.push((arg.0@, arg.1)));
                                assert(runs.deep_view().drop_last() =~= before);
                                assert(styled(pending@, None) =~= Seq::empty());
                                assert(flatten(runs.deep_view()) + styled(pending@, None) =~= done
                                    + piece);
                            }
                        } else {
                            assert(piece =~= Seq::empty());
                            assert(done + piece =~= done);
                        }
                        used += 1;
                        i += 2;
                    } else {
                        return Err(missing_argument(used));
                    }
                } else if i + 1 < n && fmt[i + 1] == '{' {
                    proof {
                        lemma_after_after(done, seq![('{', None)], fill(fmt@.skip(i + 2), all, used as nat));
                        lemma_styled_push(pending@, '{');
                        assert(flatten(runs.deep_view()) + styled(pending@.push('{'), None) =~= done
                            + seq![('{', None::<Color>)]);
                    }
                    pending.push('{');
                    i += 2;
                } else {
                    return Err("{{ not closed".to_owned());
                }
            } else if c == '}' {
                if i + 1 < n && fmt[i + 1] == '}' {
                    proof {
                        lemma_after_after(done, seq![('}', None)], fill(fmt@.skip(i + 2), all, used as nat));
                        lemma_styled_push(pending@, '}');
                        assert(flatten(runs.deep_view()) + styled(pending@.push('}'), None) =~= done
                            + seq![('}', None::<Color>)]);
                    }
                    pending.push('}');
                    i += 2;
                } else {
                    return Err("}} not closed".to_owned());
                }
            } else {
                proof {
                    lemma_after_after(done, seq![(c, None)], fill(fmt@.skip(i + 1), all, used as nat));
                    lemma_styled_push(pending@, c);
                    assert(flatten(runs.deep_view()) + styled(pending@.push(c), None) =~= done
                        + seq![(c, None::<Color>)]);
                }
                pending.push(c);
                i += 1;
            }
        }
        proof {
            assert(fmt@.skip(n as int) =~= Seq::empty());
            lemma_styled_push(pending@, '\n');
            assert((flatten(runs.deep_view()) + styled(pending@, None)) + Seq::empty()
                =~= flatten(runs.deep_view()) + styled(pending@, None));
            assert(flatten(runs.deep_view()) + styled(pending@.push('\n'), None) =~= (flatten(
                runs.deep_view(),
            ) + styled(pending@, None)).push(('\n', None::<Color>)));
        }
        pending.push('\n');
        flush(&mut runs, &mut pending);
        assert(styled(pending@, None) =~= Seq::empty());
        assert(flatten(runs.deep_view()) + styled(pending@, None) =~= flatten(runs.deep_view()));
        Ok(LogLine { stream, runs })
    }
}

/// Placing nothing in front changes nothing.
proof fn lemma_after_empty(rest: Result<Styled, LogFault>)
    ensures
        rest == after(flatten(Seq::empty()) + styled(Seq::empty(), None), rest),
{
    match rest {
        Ok(tail) => {
            assert(flatten(Seq::empty()) + styled(Seq::empty(), None) + tail =~= tail);
        },
        Err(_) => {},
    }
}

/// Placing `a` in front of what has `b` in front is placing `a + b` in
/// front.
proof fn lemma_after_after(a: Styled, b: Styled, rest: Result<Styled, LogFault>)
    ensures
        after(a, after(b, rest)) == after(a + b, rest),
{
    match rest {
        Ok(tail) => {
            assert(a + (b + tail) =~= (a + b) + tail);
        },
        Err(_) => {},
    }
}

/// Whether none of the characters of `fmt` in `from..to` is a brace.
pub open spec fn plain(fmt: Seq<char>, from: int, to: int) -> bool
    decreases to - from,
{
    from >= to || (fmt[from] != '{' && fmt[from] != '}' && plain(fmt, from + 1, to))
}

/// Text without braces stands for itself: a template that goes on from
/// `from` with the characters up to `to`, none of them a brace, fills as
/// those characters, uncoloured, followed by what the template from `to` on
/// fills as.
pub proof fn lemma_fill_plain(
    fmt: Seq<char>,
    args: Seq<(Seq<char>, Option<Color>)>,
    used: nat,
    from: int,
    to: int,
)
    requires
        0 <= from <= to <= fmt.len(),
        plain(fmt, from, to),
    ensures
        fill(fmt.skip(from), args, used) == after(
            styled(fmt.subrange(from, to), None),
            fill(fmt.skip(to), args, used),
        ),
    decreases to - from,
{
    let rest = fill(fmt.skip(to), args, used);
    if from == to {
        assert(styled(fmt.subrange(from, to), None) =~= Seq::empty());
        match rest {
            Ok(tail) => {
                assert(Seq::<(char, Option<Color>)>::empty() + tail =~= tail);
            },
            Err(_) => {},
        }
    } else {
        lemma_fill_plain(fmt, args, used, from + 1, to);
        let here = fmt.skip(from);
        assert(here[0] == fmt[from]);
        assert(here.skip(1) =~= fmt.skip(from + 1));
        let later = styled(fmt.subrange(from + 1, to), None);
        lemma_after_after(seq![(fmt[from], None)], later, rest);
        assert(seq![(fmt[from], None::<Color>)] + later =~= styled(fmt.subrange(from, to), None));
    }
}

/// A placeholder stands for the next argument: a template that goes on from
/// `at` with `{}` fills as the argument with index `used`, in its colour,
/// followed by what the template after the placeholder fills as with the
/// arguments after that one.
pub proof fn lemma_fill_hole(
    fmt: Seq<char>,
    args: Seq<(Seq<char>, Option<Color>)>,
    used: nat,
    at: int,
)
    requires
        0 <= at,
        at + 2 <= fmt.len(),
        fmt[at] == '{',
        fmt[at + 1] == '}',
        used < args.len(),
    ensures
        fill(fmt.skip(at), args, used) == after(
            styled(args[used as int].0, args[used as int].1),
            fill(fmt.skip(at + 2), args, used + 1),
        ),
{
    let here = fmt.skip(at);
    assert(here[0] == fmt[at]);
    assert(here[1] == fmt[at + 1]);
    assert(here.skip(2) =~= fmt.skip(at + 2));
}

/// Whether a template fills does not depend on what stands before a stretch
/// without braces, nor on what the arguments hold: plain text, then a
/// placeholder for which there is an argument, fills exactly when the rest
/// does.
pub proof fn lemma_fill_step(
    fmt: Seq<char>,
    args: Seq<(Seq<char>, Option<Color>)>,
    used: nat,
    from: int,
    at: int,
)
    requires
        0 <= from <= at,
        at + 2 <= fmt.len(),
        plain(fmt, from, at),
        fmt[at] == '{',
        fmt[at + 1] == '}',
        used < args.len(),
    ensures
        fill(fmt.skip(from), args, used) is Ok <==> fill(fmt.skip(at + 2), args, used + 1) is Ok,
{
    lemma_fill_plain(fmt, args, used, from, at);
    lemma_fill_hole(fmt, args, used, at);
}

/// One more uncoloured character at the end of uncoloured text.
proof fn lemma_styled_push(text: Seq<char>, c: char)
    ensures
        styled(text.push(c), None) == styled(text, None).push((c, None)),
{
    assert(styled(text.push(c), None) =~= styled(text, None).push((c, None::<Color>)));
}

/// Moves the pending uncoloured text, if there is any, into a run of its own.
fn flush(runs: &mut Vec<(String, Option<Color>)>, pending: &mut Vec<char>)
    ensures
        final(pending)@.len() == 0,
        flatten(final(runs).deep_view()) == flatten(old(runs).deep_view()) + styled(
            old(pending)@,
            None,
        ),
{
    if pending.len() > 0 {
        let text = string_of(pending.as_slice());
        let ghost before = runs.deep_view();
        runs.push((text, None));
        proof {
            assert(runs.deep_view() =~= before.push((old(pending)@, None)));
            assert(runs.deep_view().drop_last() =~= before);
        }
        pending.clear();
    } else {
        assert(styled(pending@, None) =~= Seq::empty());
        assert(flatten(runs.deep_view()) + styled(pending@, None) =~= flatten(runs.deep_view()));
    }
}

/// The message for a placeholder without an argument.
fn missing_argument(used: usize) -> (r: String)
    ensures
        r@ == LogFault::MissingArgument(used as nat).message(),
{
    let mut out: Vec<char> = Vec::new();
    extend_str(&mut out, "Not enough arguments (need more than ");
    push_decimal(&mut out, used as u64);
    extend_str(&mut out, ")");
    assert(out@ =~= LogFault::MissingArgument(used as nat).message());
    string_of(out.as_slice())
}

impl Default for Logger {
    fn default() -> Logger {
        Logger::new()
    }
}

} // verus!
