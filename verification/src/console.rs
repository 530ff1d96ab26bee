//! Colored console messages, and the lines that the suite writes.

use vstd::prelude::*;

verus! {

/// The characters after which the terminal shows text in red.
pub open spec fn red_start() -> Seq<char> {
    seq!['\x1b', '[', '9', '1', 'm']
}

/// The characters after which the terminal shows text in green.
pub open spec fn green_start() -> Seq<char> {
    seq!['\x1b', '[', '9', '2', 'm']
}

/// The characters after which the terminal shows text in yellow.
pub open spec fn yellow_start() -> Seq<char> {
    seq!['\x1b', '[', '9', '3', 'm']
}

/// The characters that restore the terminal's default color.
pub open spec fn color_reset() -> Seq<char> {
    seq!['\x1b', '[', '0', 'm']
}

/// `message` between `start` and the color reset.
pub open spec fn colored(start: Seq<char>, message: Seq<char>) -> Seq<char> {
    start + message + color_reset()
}

/// The text of an error report: red, after an empty line when `spaced`.
pub open spec fn error_text(spaced: bool, message: Seq<char>) -> Seq<char> {
    if spaced {
        seq!['\n'] + colored(red_start(), message)
    } else {
        colored(red_start(), message)
    }
}

/// The text of a success report: green.
pub open spec fn success_text(message: Seq<char>) -> Seq<char> {
    colored(green_start(), message)
}

/// The text of an announcement: yellow, after an empty line when `spaced`.
pub open spec fn warning_text(spaced: bool, message: Seq<char>) -> Seq<char> {
    if spaced {
        seq!['\n'] + colored(yellow_start(), message)
    } else {
        colored(yellow_start(), message)
    }
}

/// A line to write, on standard error or standard output; the line break
/// that ends it is not part of `text`.
#[derive(Debug)]
pub struct Notice {
    pub to_stderr: bool,
    pub text: String,
}

/// The mathematical value of a [`Notice`].
pub struct NoticeView {
    pub to_stderr: bool,
    pub text: Seq<char>,
}

impl View for Notice {
    type V = NoticeView;

    open spec fn view(&self) -> NoticeView {
        NoticeView { to_stderr: self.to_stderr, text: self.text@ }
    }
}

fn wrap(start: &str, message: &str) -> (res: String)
    ensures
        res@ == start@ + message@ + "\x1b[0m"@,
{
    let res = String::from_str(start);
    let res = res.concat(message);
    res.concat("\x1b[0m")
}

/// The message in red, as an error is shown.
pub fn format_err(message: String) -> (res: String)
    ensures
        res@ == colored(red_start(), message@),
{
    proof {
        reveal_strlit("\x1b[91m");
        reveal_strlit("\x1b[0m");
    }
    wrap("\x1b[91m", message.as_str())
}

/// The message in green, as a success is shown.
pub fn format_succ(message: String) -> (res: String)
    ensures
        res@ == colored(green_start(), message@),
{
    proof {
        reveal_strlit("\x1b[92m");
        reveal_strlit("\x1b[0m");
    }
    wrap("\x1b[92m", message.as_str())
}

/// The message in yellow, as an announcement is shown.
pub fn format_warning(message: String) -> (res: String)
    ensures
        res@ == colored(yellow_start(), message@),
{
    proof {
        reveal_strlit("\x1b[93m");
        reveal_strlit("\x1b[0m");
    }
    wrap("\x1b[93m", message.as_str())
}

fn after_blank_line(spaced: bool, text: String) -> (res: String)
    ensures
        res@ == (if spaced { seq!['\n'] + text@ } else { text@ }),
{
    if spaced {
        proof {
            reveal_strlit("\n");
        }
        String::from_str("\n").concat(text.as_str())
    } else {
        text
    }
}

/// The report of an error on standard error: red, after an empty line when
/// `spaced`.
pub fn error_notice(spaced: bool, message: String) -> (res: Notice)
    ensures
        res@ == (NoticeView { to_stderr: true, text: error_text(spaced, message@) }),
{
    Notice { to_stderr: true, text: after_blank_line(spaced, format_err(message)) }
}

/// The report of a success on standard output: green.
pub fn success_notice(message: String) -> (res: Notice)
    ensures
        res@ == (NoticeView { to_stderr: false, text: success_text(message@) }),
{
    Notice { to_stderr: false, text: format_succ(message) }
}

/// An announcement on standard output: yellow, after an empty line when
/// `spaced`.
pub fn warning_notice(spaced: bool, message: String) -> (res: Notice)
    ensures
        res@ == (NoticeView { to_stderr: false, text: warning_text(spaced, message@) }),
{
    Notice { to_stderr: false, text: after_blank_line(spaced, format_warning(message)) }
}

} // verus!
