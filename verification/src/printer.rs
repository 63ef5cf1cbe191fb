//! What the printer of a run decides before it writes: the word or the
//! mark for a result, and the line under a list of cases.

use vstd::prelude::*;
use vstd::string::{StrSliceExecFns, StringExecFns};
use crate::args::{ColorConfig, OutputFormat};
use crate::driver::{count_benches, list_tests};
use crate::event::Outcome;
use crate::filter::Decision;
use crate::test::{Descriptor, TestDesc};
use crate::text::{decimal, digit_char, format_u64, push_u64};

verus! {

/// The word that a result is shown with.
#[derive(Copy, Clone, Debug, PartialEq, Eq, Structural)]
pub enum Label {
    /// `ok`
    Passed,
    /// `FAILED`
    Failed,
    /// `bench`, followed by the measurement.
    Bench,
    /// `ignored`
    Ignored,
}

/// The color that a label is shown in.
#[derive(Copy, Clone, Debug, PartialEq, Eq, Structural)]
pub enum Color {
    Green,
    Red,
    Cyan,
    Yellow,
}

/// Whether the color configuration forces styling on or off: `always`
/// forces it on, `never` forces it off, and `auto` leaves it to the
/// terminal.
pub fn forced_styling(color: ColorConfig) -> (forced: Option<bool>)
    ensures
        forced == (match color {
            ColorConfig::Always => Some(true),
            ColorConfig::Never => Some(false),
            ColorConfig::Auto => None,
        }),
{
    match color {
        ColorConfig::Always => Some(true),
        ColorConfig::Never => Some(false),
        ColorConfig::Auto => None,
    }
}

/// The word for the state in which a case ended. A case whose signal was
/// lost is shown as failed.
pub open spec fn label_for(outcome: Outcome) -> Label {
    match outcome {
        Outcome::Passed => Label::Passed,
        Outcome::Failed { .. } => Label::Failed,
        Outcome::Canceled => Label::Failed,
        Outcome::Measured { .. } => Label::Bench,
        Outcome::Ignored => Label::Ignored,
    }
}

/// The text of a label.
pub open spec fn label_text(label: Label) -> Seq<char> {
    match label {
        Label::Passed => "ok"@,
        Label::Failed => "FAILED"@,
        Label::Bench => "bench"@,
        Label::Ignored => "ignored"@,
    }
}

/// The mark of a label in the terse format.
pub open spec fn terse_text(label: Label) -> Seq<char> {
    match label {
        Label::Passed => "."@,
        Label::Failed => "F"@,
        Label::Ignored => "i"@,
        Label::Bench => ""@,
    }
}

/// The `s` that makes a plural: nothing for one, `s` for any other number.
pub open spec fn plural(n: nat) -> Seq<char> {
    if n == 1 {
        ""@
    } else {
        "s"@
    }
}

/// The line under a list of cases.
pub open spec fn list_summary_text(num_tests: nat, num_benches: nat) -> Seq<char> {
    decimal(num_tests) + " test"@ + plural(num_tests) + ", "@ + decimal(num_benches)
        + " benchmark"@ + plural(num_benches)
}

impl Label {
    /// The word for the state in which a case ended.
    pub fn of(outcome: &Outcome) -> (label: Label)
        ensures
            label == label_for(*outcome),
    {
        match outcome {
            Outcome::Passed => Label::Passed,
            Outcome::Failed { .. } => Label::Failed,
            Outcome::Canceled => Label::Failed,
            Outcome::Measured { .. } => Label::Bench,
            Outcome::Ignored => Label::Ignored,
        }
    }

    /// The color of the label.
    pub fn color(self) -> (color: Color)
        ensures
            color == (match self {
                Label::Passed => Color::Green,
                Label::Failed => Color::Red,
                Label::Bench => Color::Cyan,
                Label::Ignored => Color::Yellow,
            }),
    {
        match self {
            Label::Passed => Color::Green,
            Label::Failed => Color::Red,
            Label::Bench => Color::Cyan,
            Label::Ignored => Color::Yellow,
        }
    }

    /// The text of the label.
    pub fn text(self) -> (text: &'static str)
        ensures
            text@ == label_text(self),
    {
        match self {
            Label::Passed => "ok",
            Label::Failed => "FAILED",
            Label::Bench => "bench",
            Label::Ignored => "ignored",
        }
    }

    /// The mark that stands for the result in the terse format: `.` for
    /// a case that passed, `F` for one that failed and `i` for one that
    /// was ignored. A measurement has no mark: it is shown in full.
    pub fn terse(self) -> (mark: Option<&'static str>)
        ensures
            match mark {
                Some(m) => self != Label::Bench && m@ == terse_text(self),
                None => self == Label::Bench,
            },
    {
        match self {
            Label::Passed => Some("."),
            Label::Failed => Some("F"),
            Label::Ignored => Some("i"),
            Label::Bench => None,
        }
    }
}

/// The `s` that makes a plural.
pub fn plural_suffix(n: usize) -> (suffix: &'static str)
    ensures
        suffix@ == plural(n as nat),
{
    match n {
        1 => "",
        _ => "s",
    }
}

/// The line under a list of cases: how many tests and how many
/// benchmarks it holds.
pub fn list_summary(num_tests: usize, num_benches: usize) -> (line: String)
    ensures
        line@ == list_summary_text(num_tests as nat, num_benches as nat),
{
    let line = push_u64(String::new(), num_tests as u64);
    let line = line.concat(" test").concat(plural_suffix(num_tests)).concat(", ");
    let line = push_u64(line, num_benches as u64);
    let line = line.concat(" benchmark").concat(plural_suffix(num_benches));
    line
}

/// A run of `n` spaces.
pub open spec fn spaces_text(n: nat) -> Seq<char> {
    Seq::new(n, |i: int| ' ')
}

/// `s` filled up with spaces at its end to `width` characters; `s` itself
/// where it is that long already.
pub open spec fn pad_right_text(s: Seq<char>, width: nat) -> Seq<char> {
    if s.len() >= width {
        s
    } else {
        s + spaces_text((width - s.len()) as nat)
    }
}

/// `s` filled up with spaces at its start to `width` characters; `s`
/// itself where it is that long already.
pub open spec fn pad_left_text(s: Seq<char>, width: nat) -> Seq<char> {
    if s.len() >= width {
        s
    } else {
        spaces_text((width - s.len()) as nat) + s
    }
}

/// A run of `n` spaces.
pub fn spaces(n: usize) -> (s: String)
    ensures
        s@ == spaces_text(n as nat),
{
    let mut s = String::new();
    let mut i: usize = 0;
    proof {
        reveal_strlit(" ");
    }
    while i < n
        invariant
            i <= n,
            s@ == spaces_text(i as nat),
            " "@ == seq![' '],
        decreases n - i,
    {
        s.append(" ");
        i += 1;
    }
    s
}

/// Fill `s` up with spaces at its end to `width` characters.
pub fn pad_right(s: &str, width: usize) -> (padded: String)
    ensures
        padded@ == pad_right_text(s@, width as nat),
{
    let len = s.unicode_len();
    if len >= width {
        s.to_owned()
    } else {
        s.to_owned().concat(spaces(width - len).as_str())
    }
}

/// Fill `s` up with spaces at its start to `width` characters.
pub fn pad_left(s: &str, width: usize) -> (padded: String)
    ensures
        padded@ == pad_left_text(s@, width as nat),
{
    let len = s.unicode_len();
    if len >= width {
        s.to_owned()
    } else {
        spaces(width - len).concat(s)
    }
}

/// The three digits of a number below 1000, with leading zeros.
pub open spec fn three_digits(n: nat) -> Seq<char> {
    seq![digit_char(n / 100), digit_char((n / 10) % 10), digit_char(n % 10)]
}

/// A number written in base ten, its digits in groups of three from the
/// right with a comma between the groups.
pub open spec fn grouped_decimal(n: nat) -> Seq<char>
    decreases n,
{
    if n < 1000 {
        decimal(n)
    } else {
        grouped_decimal(n / 1000) + seq![','] + three_digits(n % 1000)
    }
}

/// `num_format`'s `to_formatted_string` on a `u64` with the locale `en`:
/// the number in base ten, its digits in groups of three from the right
/// with a comma between the groups.
#[verifier::external_body]
fn grouped(n: u64) -> (s: String)
    ensures
        s@ == grouped_decimal(n as nat),
{
    num_format::ToFormattedString::to_formatted_string(&n, &num_format::Locale::en)
}

/// What follows the status word of a measurement in a line of results:
/// the average, filled up to `width` characters, and the variance.
pub open spec fn measurement_text(average: Seq<char>, width: nat, variance: nat) -> Seq<char> {
    ": "@ + pad_left_text(average, width) + " ns/iter (+/- "@ + decimal(variance) + ")"@
}

/// The line for a result in the pretty format, without the end of line:
/// the name filled up to `name_length` characters, the status word as
/// the host styled it, and for a measurement the numbers.
pub open spec fn pretty_text(
    name: Seq<char>,
    name_length: nat,
    status: Seq<char>,
    outcome: Outcome,
) -> Seq<char> {
    "test "@ + pad_right_text(name, name_length) + " ... "@ + status + (match outcome {
        Outcome::Measured { average, variance } => measurement_text(
            decimal(average as nat),
            11,
            variance as nat,
        ),
        _ => Seq::<char>::empty(),
    })
}

/// The message that ends the progress of a case: the status word as the
/// host styled it, and for a measurement the numbers, the average with
/// its digits in groups of three.
pub open spec fn progress_text(status: Seq<char>, outcome: Outcome) -> Seq<char> {
    status + (match outcome {
        Outcome::Measured { average, variance } => measurement_text(
            grouped_decimal(average as nat),
            10,
            variance as nat,
        ),
        _ => Seq::<char>::empty(),
    })
}

/// The line of a case in a list of cases, without the end of line.
pub open spec fn kind_text(desc: Descriptor) -> Seq<char> {
    desc.name + (if desc.is_bench {
        ": benchmark"@
    } else {
        ": test"@
    })
}

/// What follows the status word of a measurement.
fn measurement(average: &str, width: usize, variance: u64) -> (s: String)
    ensures
        s@ == measurement_text(average@, width as nat, variance as nat),
{
    let s = ": ".to_owned().concat(pad_left(average, width).as_str()).concat(" ns/iter (+/- ");
    push_u64(s, variance).concat(")")
}

/// The line for a result in the pretty format, without the end of line.
/// `status` is the word for the result as the host styled it.
pub fn pretty_line(name: &str, name_length: usize, status: &str, outcome: &Outcome) -> (line:
    String)
    ensures
        line@ == pretty_text(name@, name_length as nat, status@, *outcome),
{
    let line = "test ".to_owned().concat(pad_right(name, name_length).as_str()).concat(
        " ... ",
    ).concat(status);
    match outcome {
        Outcome::Measured { average, variance } => {
            let numbers = measurement(format_u64(*average).as_str(), 11, *variance);
            line.concat(numbers.as_str())
        },
        _ => {
            line
        },
    }
}

/// The message that ends the progress of a case. `status` is the word
/// for the result as the host styled it.
pub fn progress_message(status: &str, outcome: &Outcome) -> (message: String)
    ensures
        message@ == progress_text(status@, *outcome),
{
    match outcome {
        Outcome::Measured { average, variance } => {
            let numbers = measurement(grouped(*average).as_str(), 10, *variance);
            status.to_owned().concat(numbers.as_str())
        },
        _ => {
            let message = status.to_owned();
            message
        },
    }
}

/// The line of a case in a list of cases, without the end of line.
pub fn kind_line(desc: &TestDesc) -> (line: String)
    ensures
        line@ == kind_text(desc@),
{
    let kind = if desc.is_bench() {
        ": benchmark"
    } else {
        ": test"
    };
    desc.name().to_owned().concat(kind)
}

/// The lines of the cases in a list, each closed by an end of line.
pub open spec fn kind_lines_text(descs: Seq<TestDesc>) -> Seq<char>
    decreases descs.len(),
{
    if descs.len() == 0 {
        Seq::<char>::empty()
    } else {
        kind_lines_text(descs.drop_last()) + kind_text(descs.last()@) + "\n"@
    }
}

/// What closes a list of cases: nothing in the terse format; in any
/// other, a blank line where the list holds a case, and the line that
/// counts the tests and the benchmarks.
pub open spec fn list_end_text(descs: Seq<TestDesc>, format: OutputFormat) -> Seq<char> {
    if format == OutputFormat::Terse {
        Seq::<char>::empty()
    } else {
        (if descs.len() > 0 {
            "\n"@
        } else {
            Seq::<char>::empty()
        }) + list_summary_text(
            (descs.len() - count_benches(descs)) as nat,
            count_benches(descs),
        ) + "\n"@
    }
}

/// The text of a list of cases: one line for each case, in order, and
/// then what closes the list.
pub open spec fn list_text(descs: Seq<TestDesc>, format: OutputFormat) -> Seq<char> {
    kind_lines_text(descs) + list_end_text(descs, format)
}

/// The lines of the cases in a list.
fn kind_lines(descs: &Vec<TestDesc>) -> (text: String)
    ensures
        text@ == kind_lines_text(descs@),
{
    let mut text = String::new();
    let mut i: usize = 0;
    while i < descs.len()
        invariant
            i <= descs.len(),
            text@ == kind_lines_text(descs@.take(i as int)),
        decreases descs.len() - i,
    {
        text.append(kind_line(&descs[i]).as_str());
        text.append("\n");
        proof {
            assert(descs@.take(i + 1).drop_last() =~= descs@.take(i as int));
        }
        i += 1;
    }
    proof {
        assert(descs@.take(i as int) =~= descs@);
    }
    text
}

/// The text of a list of cases: one line for each case, in order; then,
/// unless the format is terse, a blank line where the list holds a case,
/// and the line that counts the tests and the benchmarks. Every case is
/// listed, whatever the filter would decide on it.
pub fn list_text_of(descs: &Vec<TestDesc>, format: OutputFormat) -> (text: String)
    ensures
        text@ == list_text(descs@, format),
{
    let text = kind_lines(descs);
    match format {
        OutputFormat::Terse => {
            assert(text@ =~= list_text(descs@, format));
            text
        },
        _ => {
            let listing = list_tests(descs);
            let text = if descs.len() > 0 {
                text.concat("\n")
            } else {
                text
            };
            let text = text.concat(list_summary(listing.num_tests, listing.num_benches).as_str())
                .concat("\n");
            assert(text@ =~= list_text(descs@, format));
            text
        },
    }
}

/// What the printer writes for one result.
#[derive(Debug)]
pub enum Shown {
    /// A whole line, closed by its end of line.
    Line(String),
    /// A mark, with no end of line after it.
    Mark(&'static str),
    /// Nothing: the format is not supported.
    Unsupported,
}

/// What the printer writes for one result in the given format: in the
/// pretty format the line of the result, closed by an end of line; in
/// the terse format a mark, or the line of the pretty format for a
/// measurement; nothing in the JSON format, which is not supported.
/// `status` is the word for the result as the host styled it.
pub fn show_result(
    format: OutputFormat,
    name: &str,
    name_length: usize,
    status: &str,
    outcome: &Outcome,
) -> (shown: Shown)
    ensures
        match shown {
            Shown::Line(line) => (format == OutputFormat::Pretty || (format == OutputFormat::Terse
                && label_for(*outcome) == Label::Bench)) && line@ == pretty_text(
                name@,
                name_length as nat,
                status@,
                *outcome,
            ) + "\n"@,
            Shown::Mark(mark) => format == OutputFormat::Terse && label_for(*outcome)
                != Label::Bench && mark@ == terse_text(label_for(*outcome)),
            Shown::Unsupported => format == OutputFormat::Json,
        },
{
    match format {
        OutputFormat::Pretty => Shown::Line(
            pretty_line(name, name_length, status, outcome).concat("\n"),
        ),
        OutputFormat::Terse => match Label::of(outcome).terse() {
            Some(mark) => Shown::Mark(mark),
            None => Shown::Line(pretty_line(name, name_length, status, outcome).concat("\n")),
        },
        OutputFormat::Json => Shown::Unsupported,
    }
}

/// The number of cases that a run shows a result for: those that are not
/// filtered out.
pub open spec fn count_shown(decisions: Seq<Decision>) -> nat
    decreases decisions.len(),
{
    if decisions.len() == 0 {
        0
    } else {
        count_shown(decisions.drop_last()) + (if decisions.last() != Decision::FilteredOut {
            1nat
        } else {
            0nat
        })
    }
}

/// The line that opens a run: how many cases it shows a result for.
pub open spec fn running_text(decisions: Seq<Decision>) -> Seq<char> {
    "running "@ + decimal(count_shown(decisions)) + " tests\n"@
}

/// The line that tells of two cases under one name.
pub open spec fn conflict_text(name: Seq<char>) -> Seq<char> {
    "the test name is conflicted: "@ + name + "\n"@
}

/// The line that opens a run, closed by its end of line.
pub fn running_text_of(decisions: &Vec<Decision>) -> (text: String)
    ensures
        text@ == running_text(decisions@),
{
    let mut count: usize = 0;
    let mut i: usize = 0;
    while i < decisions.len()
        invariant
            i <= decisions.len(),
            count <= i,
            count == count_shown(decisions@.take(i as int)),
        decreases decisions.len() - i,
    {
        proof {
            assert(decisions@.take(i + 1).drop_last() =~= decisions@.take(i as int));
        }
        if decisions[i] != Decision::FilteredOut {
            count += 1;
        }
        i += 1;
    }
    proof {
        assert(decisions@.take(i as int) =~= decisions@);
    }
    push_u64("running ".to_owned(), count as u64).concat(" tests\n")
}

/// The line that tells of two cases under one name, closed by its end of
/// line.
pub fn conflict_text_of(name: &str) -> (text: String)
    ensures
        text@ == conflict_text(name@),
{
    "the test name is conflicted: ".to_owned().concat(name).concat("\n")
}

} // verus!
