//! How a task reads on one line of a listing.

use vstd::prelude::*;
use vstd::string::StringExecFns;

verus! {

/// Column up to which a task's text is padded with spaces.
pub const TEXT_COLUMNS: usize = 80;

/// `n` spaces.
pub open spec fn spaces(n: nat) -> Seq<char> {
    Seq::new(n, |i: int| ' ')
}

/// How many spaces follow a text that is `width` columns wide. A text of
/// `TEXT_COLUMNS` columns or more gets none; it is never cut.
pub open spec fn padding(width: nat) -> nat {
    if width < TEXT_COLUMNS {
        (TEXT_COLUMNS - width) as nat
    } else {
        0
    }
}

/// A task on one line: its text, padded; the local time of its creation in
/// square brackets; and, for a completed task, the local time of its
/// completion.
pub open spec fn task_text(
    text: Seq<char>,
    width: nat,
    created: Seq<char>,
    completed: Option<Seq<char>>,
) -> Seq<char> {
    let open = text + spaces(padding(width)) + " ["@ + created + "]"@;
    match completed {
        Some(at) => open + " (completed at "@ + at + ")"@,
        None => open,
    }
}

/// The character for one decimal digit.
pub open spec fn digit(d: nat) -> char {
    if d == 0 {
        '0'
    } else if d == 1 {
        '1'
    } else if d == 2 {
        '2'
    } else if d == 3 {
        '3'
    } else if d == 4 {
        '4'
    } else if d == 5 {
        '5'
    } else if d == 6 {
        '6'
    } else if d == 7 {
        '7'
    } else if d == 8 {
        '8'
    } else {
        '9'
    }
}

/// A number in decimal, without leading zeros.
pub open spec fn decimal(n: nat) -> Seq<char>
    decreases n,
{
    if n < 10 {
        seq![digit(n)]
    } else {
        decimal(n / 10).push(digit(n % 10))
    }
}

/// One line of a listing: the rank, a full stop, a space, the entry.
pub open spec fn numbered(rank: nat, entry: Seq<char>) -> Seq<char> {
    decimal(rank) + ". "@ + entry
}

/// Appends the spaces that pad a text of `width` columns.
pub fn pad(text: &str, width: usize) -> (padded: String)
    ensures
        padded@ == text@ + spaces(padding(width as nat)),
{
    let mut padded = String::from_str(text);
    let count: usize = if width < TEXT_COLUMNS {
        TEXT_COLUMNS - width
    } else {
        0
    };
    let mut done: usize = 0;
    while done < count
        invariant
            done <= count,
            padded@ == text@ + spaces(done as nat),
        decreases count - done,
    {
        padded.push(' ');
        done += 1;
        assert(padded@ =~= text@ + spaces(done as nat));
    }
    assert(text@ + spaces(0) =~= text@);
    padded
}

/// Writes a task on one line, given how wide its text is and the local times
/// as text.
pub fn format_task(text: &str, width: usize, created: &str, completed: Option<&str>) -> (line:
    String)
    ensures
        line@ == task_text(
            text@,
            width as nat,
            created@,
            match completed {
                Some(at) => Some(at@),
                None => None,
            },
        ),
{
    let mut line = pad(text, width);
    line.append(" [");
    line.append(created);
    line.append("]");
    match completed {
        Some(at) => {
            line.append(" (completed at ");
            line.append(at);
            line.append(")");
        },
        None => {},
    }
    line
}

fn digit_char(d: usize) -> (c: char)
    requires
        d < 10,
    ensures
        c == digit(d as nat),
{
    match d {
        0 => '0',
        1 => '1',
        2 => '2',
        3 => '3',
        4 => '4',
        5 => '5',
        6 => '6',
        7 => '7',
        8 => '8',
        _ => '9',
    }
}

/// Writes a number in decimal.
pub fn decimal_string(n: usize) -> (text: String)
    ensures
        text@ == decimal(n as nat),
    decreases n,
{
    if n < 10 {
        let mut text = String::new();
        text.push(digit_char(n));
        assert(text@ =~= seq![digit(n as nat)]);
        text
    } else {
        let mut text = decimal_string(n / 10);
        text.push(digit_char(n % 10));
        text
    }
}

/// Puts a rank in front of an entry.
pub fn numbered_line(rank: usize, entry: &str) -> (line: String)
    ensures
        line@ == numbered(rank as nat, entry@),
{
    let mut line = decimal_string(rank);
    line.append(". ");
    line.append(entry);
    line
}

} // verus!
