//! The editor process manager: how the terminal that hosts the editor is
//! started, and how the editor's own process id is learnt from it.
//!
//! Ending the terminal's process does not close its window, so the editor
//! itself has to be signalled. The hosted shell writes its process id to a
//! file, moves the file into place and replaces itself with the editor; the
//! bridge polls for the file and reads the id from it.

use crate::command::{CommandLine, CommandLineView};
use vstd::prelude::*;
use vstd::string::*;

verus! {

/// The identity of the editor process that runs inside the terminal.
#[derive(Clone, Copy, Debug, PartialEq, Eq, Structural)]
pub struct EditorHandle {
    pub pid: i32,
}

/// How long to sleep between two looks for the process-id file, in milliseconds.
pub const POLL_INTERVAL_MILLIS: u64 = 5;

/// The signal that asks the editor to terminate: a request, not a forced kill.
pub const TERMINATION_SIGNAL: i32 = 15;

/// Name of the file, inside the session's workspace, that holds the process id.
pub const PID_FILE: &'static str = "pid";

/// Name of the file beside it that the id is first written to, so that the
/// other never shows a part of it.
pub const PID_SCRATCH_FILE: &'static str = "pid-tmp";

/// The script of the hosted shell: write the shell's own process id to the
/// scratch file, move the scratch file into place, then replace the shell
/// with the editor on the source file. Each path stands between single
/// quotes as it is, so a path that holds a single quote does not survive.
pub open spec fn script_text(
    scratch_path: Seq<char>,
    pid_path: Seq<char>,
    source_path: Seq<char>,
) -> Seq<char> {
    "echo $$ > '"@ + scratch_path + "'\nmv '"@ + scratch_path + "' '"@ + pid_path
        + "'\nexec vim '"@ + source_path + "'\n"@
}

/// Writes the script of the hosted shell for these three paths.
pub fn handoff_script(scratch_path: &str, pid_path: &str, source_path: &str) -> (script: String)
    ensures
        script@ == script_text(scratch_path@, pid_path@, source_path@),
{
    let mut script = String::from_str("echo $$ > '");
    script.append(scratch_path);
    script.append("'\nmv '");
    script.append(scratch_path);
    script.append("' '");
    script.append(pid_path);
    script.append("'\nexec vim '");
    script.append(source_path);
    script.append("'\n");
    script
}

/// The terminal that hosts a shell running `script`: it waits for the hosted
/// command and hides its menu bar.
pub open spec fn terminal_invocation(script: Seq<char>) -> CommandLineView {
    CommandLineView {
        program: "gnome-terminal"@,
        arguments: seq!["--wait"@, "--hide-menubar"@, "--"@, "sh"@, "-c"@, script],
    }
}

/// How the terminal is started so that the editor opens `source_path` and
/// its process id appears in the file at `pid_path`.
pub fn terminal_command(scratch_path: &str, pid_path: &str, source_path: &str) -> (command:
    CommandLine)
    ensures
        command@ == terminal_invocation(script_text(scratch_path@, pid_path@, source_path@)),
{
    let script = handoff_script(scratch_path, pid_path, source_path);
    let mut arguments: Vec<String> = Vec::new();
    arguments.push(String::from_str("--wait"));
    arguments.push(String::from_str("--hide-menubar"));
    arguments.push(String::from_str("--"));
    arguments.push(String::from_str("sh"));
    arguments.push(String::from_str("-c"));
    arguments.push(script);
    assert(arguments.deep_view() =~= terminal_invocation(
        script_text(scratch_path@, pid_path@, source_path@),
    ).arguments);
    CommandLine { program: String::from_str("gnome-terminal"), arguments }
}

/// White space as `str::trim` takes it: the characters with the Unicode
/// property `White_Space`.
pub open spec fn is_space(c: char) -> bool {
    let code = c as u32;
    ||| 0x09 <= code <= 0x0d
    ||| code == 0x20
    ||| code == 0x85
    ||| code == 0xa0
    ||| code == 0x1680
    ||| 0x2000 <= code <= 0x200a
    ||| code == 0x2028
    ||| code == 0x2029
    ||| code == 0x202f
    ||| code == 0x205f
    ||| code == 0x3000
}

/// `text` without the white space at its start.
pub open spec fn trim_start(text: Seq<char>) -> Seq<char>
    decreases text.len(),
{
    if text.len() > 0 && is_space(text.first()) {
        trim_start(text.drop_first())
    } else {
        text
    }
}

/// `text` without the white space at its end.
pub open spec fn trim_end(text: Seq<char>) -> Seq<char>
    decreases text.len(),
{
    if text.len() > 0 && is_space(text.last()) {
        trim_end(text.drop_last())
    } else {
        text
    }
}

/// `text` without the white space at either end.
pub open spec fn trimmed(text: Seq<char>) -> Seq<char> {
    trim_end(trim_start(text))
}

/// One of the ten decimal digits.
pub open spec fn is_digit(c: char) -> bool {
    '0' <= c <= '9'
}

/// Every character is a decimal digit.
pub open spec fn all_digits(digits: Seq<char>) -> bool {
    forall|i: int| 0 <= i < digits.len() ==> is_digit(#[trigger] digits[i])
}

/// The number that a sequence of decimal digits spells.
pub open spec fn decimal_value(digits: Seq<char>) -> int
    decreases digits.len(),
{
    if digits.len() == 0 {
        0
    } else {
        decimal_value(digits.drop_last()) * 10 + (digits.last() as u32 - '0' as u32)
    }
}

/// The integer that `text` spells: decimal digits, at least one, after at
/// most one sign.
pub open spec fn integer_of(text: Seq<char>) -> Option<int> {
    let signed = text.len() > 0 && (text.first() == '-' || text.first() == '+');
    let digits = if signed {
        text.drop_first()
    } else {
        text
    };
    if digits.len() > 0 && all_digits(digits) {
        if text.first() == '-' {
            Some(-decimal_value(digits))
        } else {
            Some(decimal_value(digits))
        }
    } else {
        None
    }
}

/// The process id that the content of the process-id file spells: an integer
/// of 32 bits, with white space allowed around it.
pub open spec fn pid_of(content: Seq<char>) -> Option<EditorHandle> {
    match integer_of(trimmed(content)) {
        Some(n) => if i32::MIN <= n <= i32::MAX {
            Some(EditorHandle { pid: n as i32 })
        } else {
            None
        },
        None => None,
    }
}

/// Tells white space from other characters.
fn is_space_char(c: char) -> (space: bool)
    ensures
        space == is_space(c),
{
    let code = c as u32;
    (0x09 <= code && code <= 0x0d) || code == 0x20 || code == 0x85 || code == 0xa0 || code
        == 0x1680 || (0x2000 <= code && code <= 0x200a) || code == 0x2028 || code == 0x2029
        || code == 0x202f || code == 0x205f || code == 0x3000
}

/// White space at the start is skipped one character at a time.
proof fn lemma_trim_start_skip(text: Seq<char>, k: int)
    requires
        0 <= k <= text.len(),
        forall|i: int| 0 <= i < k ==> is_space(#[trigger] text[i]),
    ensures
        trim_start(text) == trim_start(text.skip(k)),
    decreases k,
{
    if k > 0 {
        lemma_trim_start_skip(text.drop_first(), k - 1);
        assert(text.drop_first().skip(k - 1) =~= text.skip(k));
    } else {
        assert(text.skip(0) =~= text);
    }
}

/// White space at the end is dropped one character at a time.
proof fn lemma_trim_end_take(text: Seq<char>, k: int)
    requires
        0 <= k <= text.len(),
        forall|i: int| k <= i < text.len() ==> is_space(#[trigger] text[i]),
    ensures
        trim_end(text) == trim_end(text.take(k)),
    decreases text.len() - k,
{
    if k < text.len() {
        lemma_trim_end_take(text.drop_last(), k);
        assert(text.drop_last().take(k) =~= text.take(k));
    } else {
        assert(text.take(k) =~= text);
    }
}

/// A longer run of digits spells no smaller a number.
proof fn lemma_decimal_prefix(digits: Seq<char>, k: int)
    requires
        0 <= k <= digits.len(),
        forall|i: int| 0 <= i < digits.len() ==> is_digit(#[trigger] digits[i]),
    ensures
        0 <= decimal_value(digits.take(k)) <= decimal_value(digits),
    decreases digits.len() - k,
{
    lemma_decimal_nonnegative(digits.take(k));
    if k < digits.len() {
        lemma_decimal_prefix(digits.drop_last(), k);
        assert(digits.drop_last().take(k) =~= digits.take(k));
        lemma_decimal_nonnegative(digits.drop_last());
        assert(is_digit(digits.last()));
    } else {
        assert(digits.take(k) =~= digits);
    }
}

/// Digits spell a number that is not negative.
proof fn lemma_decimal_nonnegative(digits: Seq<char>)
    requires
        forall|i: int| 0 <= i < digits.len() ==> is_digit(#[trigger] digits[i]),
    ensures
        0 <= decimal_value(digits),
    decreases digits.len(),
{
    if digits.len() > 0 {
        lemma_decimal_nonnegative(digits.drop_last());
        assert(is_digit(digits.last()));
    }
}

/// Finds where the text without the white space around it starts and ends.
fn trim_bounds(content: &str) -> (bounds: (usize, usize))
    ensures
        bounds.0 <= bounds.1 <= content@.len(),
        trimmed(content@) == content@.subrange(bounds.0 as int, bounds.1 as int),
{
    let len = content.unicode_len();
    let mut start: usize = 0;
    while start < len && is_space_char(content.get_char(start))
        invariant
            start <= len == content@.len(),
            forall|i: int| 0 <= i < start ==> is_space(#[trigger] content@[i]),
        decreases len - start,
    {
        start += 1;
    }
    let mut end: usize = len;
    while end > start && is_space_char(content.get_char(end - 1))
        invariant
            start <= end <= len == content@.len(),
            forall|i: int| end <= i < len ==> is_space(#[trigger] content@[i]),
        decreases end,
    {
        end -= 1;
    }
    proof {
        let text = content@.subrange(start as int, end as int);
        let rest = content@.skip(start as int);
        lemma_trim_start_skip(content@, start as int);
        assert(trim_start(rest) == rest) by {
            if rest.len() > 0 {
                assert(rest.first() == content@[start as int]);
            }
        }
        assert forall|i: int| end - start <= i < rest.len() implies is_space(#[trigger] rest[i]) by {
            assert(rest[i] == content@[i + start]);
        }
        lemma_trim_end_take(rest, end - start);
        assert(rest.take(end - start) =~= text);
        assert(trim_end(text) == text) by {
            if text.len() > 0 {
                assert(text.last() == content@[end - 1]);
            }
        }
    }
    (start, end)
}

/// Reads the digits of `content` from `first` up to `end`: their number, as
/// long as it is no more than 2^31.
fn read_digits(content: &str, first: usize, end: usize) -> (value: Option<i64>)
    requires
        first <= end <= content@.len(),
    ensures
        ({
            let digits = content@.subrange(first as int, end as int);
            &&& value is Some <==> all_digits(digits) && decimal_value(digits) <= 0x8000_0000
            &&& value matches Some(n) ==> n == decimal_value(digits) && 0 <= n <= 0x8000_0000
        }),
{
    let ghost digits = content@.subrange(first as int, end as int);
    let mut at: usize = first;
    let mut value: i64 = 0;
    let mut fits = true;
    while at < end
        invariant
            first <= at <= end <= content@.len(),
            digits == content@.subrange(first as int, end as int),
            forall|i: int| 0 <= i < at - first ==> is_digit(#[trigger] digits[i]),
            fits ==> value == decimal_value(digits.take(at - first)),
            fits ==> 0 <= value <= 0x8000_0000,
            !fits ==> exists|k: int|
                0 <= k <= at - first && #[trigger] decimal_value(digits.take(k)) > 0x8000_0000,
        decreases end - at,
    {
        let c = content.get_char(at);
        assert(c == digits[at - first]);
        if !('0' <= c && c <= '9') {
            return None;
        }
        proof {
            assert(digits.take(at - first + 1).drop_last() =~= digits.take(at - first));
            assert(digits.take(at - first + 1).last() == c);
        }
        if fits {
            value = value * 10 + (c as u32 - '0' as u32) as i64;
            if value > 0x8000_0000 {
                fits = false;
                assert(decimal_value(digits.take(at - first + 1)) > 0x8000_0000);
            }
        } else {
            let ghost k = choose|k: int|
                0 <= k <= at - first && #[trigger] decimal_value(digits.take(k)) > 0x8000_0000;
            assert(decimal_value(digits.take(k)) > 0x8000_0000);
        }
        at += 1;
    }
    proof {
        assert(digits.take(end - first) =~= digits);
        if !fits {
            let k = choose|k: int|
                0 <= k <= end - first && #[trigger] decimal_value(digits.take(k)) > 0x8000_0000;
            lemma_decimal_prefix(digits, k);
        }
    }
    if fits {
        Some(value)
    } else {
        None
    }
}

/// Reads the editor's process id from the content of the process-id file.
pub fn parse_pid(content: &str) -> (handle: Option<EditorHandle>)
    ensures
        handle == pid_of(content@),
{
    let (start, end) = trim_bounds(content);
    let ghost text = content@.subrange(start as int, end as int);
    if start == end {
        return None;
    }
    let sign = content.get_char(start);
    assert(sign == text.first());
    let first: usize = if sign == '-' || sign == '+' {
        start + 1
    } else {
        start
    };
    let ghost digits = content@.subrange(first as int, end as int);
    assert(digits =~= if text.first() == '-' || text.first() == '+' {
        text.drop_first()
    } else {
        text
    });
    if first == end {
        return None;
    }
    let value = read_digits(content, first, end);
    proof {
        if all_digits(digits) {
            lemma_decimal_nonnegative(digits);
        }
        assert(trimmed(content@) == text);
    }
    match value {
        None => None,
        Some(value) => if sign == '-' {
            Some(EditorHandle { pid: (-value) as i32 })
        } else if value > 0x7fff_ffff {
            None
        } else {
            Some(EditorHandle { pid: value as i32 })
        },
    }
}

/// What a look for the process-id file found.
#[derive(Clone, Debug, PartialEq, Eq)]
pub enum PidFile {
    /// The file is not there yet.
    Absent,
    /// The file is there, and this is its content.
    Present(String),
}

/// The mathematical content of a [`PidFile`].
pub enum PidFileView {
    Absent,
    Present(Seq<char>),
}

impl View for PidFile {
    type V = PidFileView;

    open spec fn view(&self) -> PidFileView {
        match self {
            PidFile::Absent => PidFileView::Absent,
            PidFile::Present(content) => PidFileView::Present(content@),
        }
    }
}

/// What to do after a look for the process-id file.
#[derive(Clone, Copy, Debug, PartialEq, Eq, Structural)]
pub enum PollStep {
    /// Sleep this long, then look again.
    Sleep { millis: u64 },
    /// Look again at once.
    Retry,
    /// The editor runs, and this is its identity.
    Found(EditorHandle),
    /// The file holds something that is not a process id.
    Invalid,
}

/// The rule of the poll: sleep while the file is absent, look again while it
/// is empty, and read the id from it once it holds something.
pub open spec fn poll_of(observed: PidFileView) -> PollStep {
    match observed {
        PidFileView::Absent => PollStep::Sleep { millis: POLL_INTERVAL_MILLIS },
        PidFileView::Present(content) => if content.len() == 0 {
            PollStep::Retry
        } else {
            match pid_of(content) {
                Some(handle) => PollStep::Found(handle),
                None => PollStep::Invalid,
            }
        },
    }
}

/// Decides what follows one look for the process-id file.
pub fn poll_pid_file(observed: &PidFile) -> (step: PollStep)
    ensures
        step == poll_of(observed@),
{
    match observed {
        PidFile::Absent => PollStep::Sleep { millis: POLL_INTERVAL_MILLIS },
        PidFile::Present(content) => {
            if content.as_str().unicode_len() == 0 {
                PollStep::Retry
            } else {
                match parse_pid(content.as_str()) {
                    Some(handle) => PollStep::Found(handle),
                    None => PollStep::Invalid,
                }
            }
        },
    }
}

} // verus!
