//! The diagnostic model: severity levels, error payloads and their text.
use vstd::prelude::*;

verus! {

/// Severity of a diagnostic, declared in increasing order of severity.
#[derive(Clone, Copy, Debug, PartialEq, Eq, PartialOrd, Ord, Hash, Structural)]
pub enum Level {
    Skip,
    Info,
    Warning,
    Fail,
}

/// The name of a level as it appears in a rendered diagnostic.
pub open spec fn level_name(level: Level) -> Seq<char> {
    match level {
        Level::Skip => "Skip"@,
        Level::Info => "Info"@,
        Level::Warning => "Warning"@,
        Level::Fail => "Fail"@,
    }
}

impl Level {
    /// The level's name: `Skip`, `Info`, `Warning` or `Fail`.
    pub fn name(&self) -> (r: String)
        ensures
            r@ == level_name(*self),
    {
        match self {
            Level::Skip => String::from_str("Skip"),
            Level::Info => String::from_str("Info"),
            Level::Warning => String::from_str("Warning"),
            Level::Fail => String::from_str("Fail"),
        }
    }
}


/// An inclusive range `[lower, upper]` of expected values of a metric.
#[derive(Clone, Copy, Debug, PartialEq, Eq, Structural)]
pub struct MetricRange {
    pub lower: i32,
    pub upper: i32,
}

impl MetricRange {
    /// Whether `value` lies in the range, both ends included.
    pub fn contains(&self, value: i32) -> (r: bool)
        ensures
            r == (self.lower <= value && value <= self.upper),
    {
        self.lower <= value && value <= self.upper
    }
}

/// What a diagnostic reports.
#[derive(Debug, PartialEq, Eq)]
pub enum CheckError {
    /// A table that the check needs could not be read from the font.
    MissingTable { name: String },
    /// A metric lies outside the range derived for it.
    MetricOutOfRange { field: String, expected: MetricRange, actual: i32 },
}

/// The mathematical value of a [`CheckError`]: its strings as character sequences.
pub enum CheckErrorView {
    MissingTable { name: Seq<char> },
    MetricOutOfRange { field: Seq<char>, expected: MetricRange, actual: i32 },
}

impl View for CheckError {
    type V = CheckErrorView;

    open spec fn view(&self) -> CheckErrorView {
        match self {
            CheckError::MissingTable { name } => CheckErrorView::MissingTable { name: name@ },
            CheckError::MetricOutOfRange { field, expected, actual } => {
                CheckErrorView::MetricOutOfRange { field: field@, expected: *expected, actual: *actual }
            },
        }
    }
}

/// A leveled finding of a check.
#[derive(Debug, PartialEq, Eq)]
pub struct Diagnostic {
    pub level: Level,
    pub message: CheckError,
}

/// The mathematical value of a [`Diagnostic`].
pub struct DiagnosticView {
    pub level: Level,
    pub message: CheckErrorView,
}

impl View for Diagnostic {
    type V = DiagnosticView;

    open spec fn view(&self) -> DiagnosticView {
        DiagnosticView { level: self.level, message: self.message@ }
    }
}

/// The views of a sequence of diagnostics, in the same order.
pub open spec fn views_of(ds: Seq<Diagnostic>) -> Seq<DiagnosticView> {
    ds.map_values(|d: Diagnostic| d@)
}

/// The character of a decimal digit `d`, `0 <= d < 10`.
pub open spec fn digit_char(d: int) -> char
    recommends
        0 <= d < 10,
{
    seq!['0', '1', '2', '3', '4', '5', '6', '7', '8', '9'][d]
}

/// The decimal digits of `n`, most significant first, with no leading zero.
pub open spec fn decimal_digits(n: nat) -> Seq<char>
    decreases n,
{
    if n < 10 {
        seq![digit_char(n as int)]
    } else {
        decimal_digits(n / 10).push(digit_char((n % 10) as int))
    }
}

/// The decimal text of `i`, with a leading `-` when `i` is negative.
pub open spec fn decimal(i: int) -> Seq<char> {
    if i < 0 {
        seq!['-'] + decimal_digits((-i) as nat)
    } else {
        decimal_digits(i as nat)
    }
}

/// Relies on the standard `Display` of `i32`, through `ToString::to_string`:
/// the value written in decimal, with a leading `-` when negative.
#[verifier::external_body]
fn decimal_string(i: i32) -> (r: String)
    ensures
        r@ == decimal(i as int),
{
    i.to_string()
}

/// The human-readable text of an error payload.
pub open spec fn message_text(e: CheckErrorView) -> Seq<char> {
    match e {
        CheckErrorView::MissingTable { name } => "Cannot read "@ + name + " table"@,
        CheckErrorView::MetricOutOfRange { field, expected, actual } => "OS/2."@ + field
            + " value should be in the range ["@ + decimal(expected.lower as int) + ", "@
            + decimal(expected.upper as int) + "], but got "@ + decimal(actual as int),
    }
}

/// The text of a diagnostic: its level, a colon, and its message.
pub open spec fn diagnostic_text(d: DiagnosticView) -> Seq<char> {
    level_name(d.level) + ": "@ + message_text(d.message)
}

impl CheckError {
    /// The message of the payload, with the table or field name, the expected
    /// range and the actual value written in.
    pub fn message(&self) -> (r: String)
        ensures
            r@ == message_text(self@),
    {
        match self {
            CheckError::MissingTable { name } => {
                let mut s = String::from_str("Cannot read ");
                s.append(name.as_str());
                s.append(" table");
                assert(s@ =~= message_text(self@));
                s
            },
            CheckError::MetricOutOfRange { field, expected, actual } => {
                let mut s = String::from_str("OS/2.");
                s.append(field.as_str());
                s.append(" value should be in the range [");
                let lower = decimal_string(expected.lower);
                s.append(lower.as_str());
                s.append(", ");
                let upper = decimal_string(expected.upper);
                s.append(upper.as_str());
                s.append("], but got ");
                let got = decimal_string(*actual);
                s.append(got.as_str());
                assert(s@ =~= message_text(self@));
                s
            },
        }
    }
}

impl Diagnostic {
    /// The diagnostic as one line of text: `<level>: <message>`.
    pub fn render(&self) -> (r: String)
        ensures
            r@ == diagnostic_text(self@),
    {
        let mut s = self.level.name();
        s.append(": ");
        let message = self.message.message();
        s.append(message.as_str());
        assert(s@ =~= diagnostic_text(self@));
        s
    }
}

} // verus!

verus! {

/// The view of an optional diagnostic.
pub open spec fn option_view(o: Option<Diagnostic>) -> Option<DiagnosticView> {
    match o {
        Some(d) => Some(d@),
        None => None,
    }
}

/// The sequence holding the diagnostic of `o`, if there is one.
pub open spec fn option_seq(o: Option<DiagnosticView>) -> Seq<DiagnosticView> {
    match o {
        Some(d) => seq![d],
        None => Seq::empty(),
    }
}

} // verus!
