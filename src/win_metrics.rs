//! The rule that holds `usWinAscent` and `usWinDescent` of the `OS/2` table
//! to ranges derived from the `yMax` and `yMin` extents of the `head` table.
use crate::diagnostic::{
    option_seq, option_view, views_of, CheckError, CheckErrorView, Diagnostic, DiagnosticView,
    Level, MetricRange,
};
use crate::font_tables::{head_of, os2_of, read_head, read_os2, HeadExtents, Os2WinMetrics};
use vstd::prelude::*;

verus! {

/// The joint name of the two tables that the rule reads.
pub open spec fn missing_tables_name() -> Seq<char> {
    "OS/2 or head"@
}

/// The field name of the Windows ascent.
pub open spec fn win_ascent_field() -> Seq<char> {
    "usWinAscent"@
}

/// The field name of the Windows descent.
pub open spec fn win_descent_field() -> Seq<char> {
    "usWinDescent"@
}

/// The expected range of `usWinAscent`: `[yMax, 2 * yMax]`.
pub open spec fn ascent_range_of(y_max: i16) -> MetricRange {
    MetricRange { lower: y_max as i32, upper: (2 * y_max) as i32 }
}

/// The absolute value of `yMin`, taken after widening it.
pub open spec fn abs_of(y_min: i16) -> int {
    if y_min < 0 {
        -y_min
    } else {
        y_min as int
    }
}

/// The expected range of `usWinDescent`: `[|yMin|, 2 * |yMin|]`.
pub open spec fn descent_range_of(y_min: i16) -> MetricRange {
    MetricRange { lower: abs_of(y_min) as i32, upper: (2 * abs_of(y_min)) as i32 }
}

/// The failure reported for `field` when `actual` lies outside `expected`.
pub open spec fn out_of_range_view(
    field: Seq<char>,
    expected: MetricRange,
    actual: i32,
) -> DiagnosticView {
    DiagnosticView {
        level: Level::Fail,
        message: CheckErrorView::MetricOutOfRange { field, expected, actual },
    }
}

/// No diagnostic where `actual` lies in `expected`, else the failure for `field`.
pub open spec fn metric_finding(
    field: Seq<char>,
    expected: MetricRange,
    actual: i32,
) -> Option<DiagnosticView> {
    if expected.lower <= actual <= expected.upper {
        None
    } else {
        Some(out_of_range_view(field, expected, actual))
    }
}

/// What the rule reports of the ascent.
pub open spec fn ascent_finding(head: HeadExtents, os2: Os2WinMetrics) -> Option<DiagnosticView> {
    metric_finding(win_ascent_field(), ascent_range_of(head.y_max), os2.win_ascent as i32)
}

/// What the rule reports of the descent.
pub open spec fn descent_finding(head: HeadExtents, os2: Os2WinMetrics) -> Option<DiagnosticView> {
    metric_finding(win_descent_field(), descent_range_of(head.y_min), os2.win_descent as i32)
}

/// The single failure reported when a table cannot be read.
pub open spec fn missing_tables_view() -> DiagnosticView {
    DiagnosticView {
        level: Level::Fail,
        message: CheckErrorView::MissingTable { name: missing_tables_name() },
    }
}

/// What the rule reports of the tables it read: one missing-table failure
/// where either is absent, else the ascent finding followed by the descent
/// finding.
pub open spec fn table_findings(
    os2: Option<Os2WinMetrics>,
    head: Option<HeadExtents>,
) -> Seq<DiagnosticView> {
    match (os2, head) {
        (Some(o), Some(h)) => option_seq(ascent_finding(h, o)) + option_seq(descent_finding(h, o)),
        _ => seq![missing_tables_view()],
    }
}

/// What the rule reports of the font file `data`.
pub open spec fn win_ascent_and_descent_findings(data: Seq<u8>) -> Seq<DiagnosticView> {
    table_findings(os2_of(data), head_of(data))
}

/// The expected range of `usWinAscent` for `yMax`: `[yMax, 2 * yMax]`.
pub fn expected_win_ascent(y_max: i16) -> (r: MetricRange)
    ensures
        r == ascent_range_of(y_max),
        r.lower == y_max as int,
        r.upper == 2 * y_max as int,
{
    let lower: i32 = y_max as i32;
    let upper: i32 = lower * 2;
    MetricRange { lower, upper }
}

/// The expected range of `usWinDescent` for `yMin`: `[|yMin|, 2 * |yMin|]`.
/// The absolute value is taken in 32 bits, so `yMin = -32768` has one.
pub fn expected_win_descent(y_min: i16) -> (r: MetricRange)
    ensures
        r == descent_range_of(y_min),
        r.lower == abs_of(y_min),
        r.upper == 2 * abs_of(y_min),
{
    let widened: i32 = y_min as i32;
    let lower: i32 = if widened < 0 {
        -widened
    } else {
        widened
    };
    let upper: i32 = lower * 2;
    MetricRange { lower, upper }
}

/// Checks one metric against its expected range.
fn check_metric(field: &str, expected: MetricRange, actual: i32) -> (r: Option<Diagnostic>)
    ensures
        option_view(r) == metric_finding(field@, expected, actual),
{
    if expected.contains(actual) {
        None
    } else {
        let message = CheckError::MetricOutOfRange {
            field: String::from_str(field),
            expected,
            actual,
        };
        Some(Diagnostic { level: Level::Fail, message })
    }
}

/// Checks `usWinAscent` against `[yMax, 2 * yMax]`.
pub fn check_win_ascent(head: HeadExtents, os2: Os2WinMetrics) -> (r: Option<Diagnostic>)
    ensures
        option_view(r) == ascent_finding(head, os2),
{
    let expected = expected_win_ascent(head.y_max);
    let actual: i32 = os2.win_ascent as i32;
    check_metric("usWinAscent", expected, actual)
}

/// Checks `usWinDescent` against `[|yMin|, 2 * |yMin|]`.
pub fn check_win_descent(head: HeadExtents, os2: Os2WinMetrics) -> (r: Option<Diagnostic>)
    ensures
        option_view(r) == descent_finding(head, os2),
{
    let expected = expected_win_descent(head.y_min);
    let actual: i32 = os2.win_descent as i32;
    check_metric("usWinDescent", expected, actual)
}

/// Appends the diagnostic of `o`, if there is one.
fn push_some(diagnostics: &mut Vec<Diagnostic>, o: Option<Diagnostic>)
    ensures
        views_of(final(diagnostics)@) == views_of(old(diagnostics)@) + option_seq(option_view(o)),
{
    match o {
        Some(d) => {
            diagnostics.push(d);
            assert(views_of(diagnostics@) =~= views_of(old(diagnostics)@) + option_seq(
                option_view(o),
            ));
        },
        None => {
            assert(views_of(diagnostics@) =~= views_of(old(diagnostics)@) + option_seq(
                option_view(o),
            ));
        },
    }
}

/// Runs the rule on tables already read: a missing-table failure where
/// either table is absent, else the ascent and descent checks in that order.
pub fn check_tables(os2: Option<Os2WinMetrics>, head: Option<HeadExtents>) -> (r: Vec<Diagnostic>)
    ensures
        views_of(r@) == table_findings(os2, head),
{
    let mut diagnostics: Vec<Diagnostic> = Vec::new();
    match (os2, head) {
        (Some(o), Some(h)) => {
            push_some(&mut diagnostics, check_win_ascent(h, o));
            push_some(&mut diagnostics, check_win_descent(h, o));
            assert(views_of(diagnostics@) =~= table_findings(os2, head));
        },
        _ => {
            let message = CheckError::MissingTable { name: String::from_str("OS/2 or head") };
            diagnostics.push(Diagnostic { level: Level::Fail, message });
            assert(views_of(diagnostics@) =~= table_findings(os2, head));
        },
    }
    diagnostics
}

/// Checks the Windows ascent and descent of the font file `font` against
/// the ranges that its `head` extents give.
pub fn check_win_ascent_and_descent(font: &[u8]) -> (r: Vec<Diagnostic>)
    ensures
        views_of(r@) == win_ascent_and_descent_findings(font@),
{
    let os2 = read_os2(font);
    let head = read_head(font);
    check_tables(os2, head)
}

/// For `yMax >= 0`, the ascent is accepted exactly when
/// `yMax <= usWinAscent <= 2 * yMax`; otherwise one failure names
/// `usWinAscent`, the range `[yMax, 2 * yMax]` and the actual value.
pub proof fn lemma_ascent_range(head: HeadExtents, os2: Os2WinMetrics)
    requires
        head.y_max >= 0,
    ensures
        head.y_max <= os2.win_ascent <= 2 * head.y_max ==> ascent_finding(head, os2) is None,
        !(head.y_max <= os2.win_ascent <= 2 * head.y_max) ==> ascent_finding(head, os2) == Some(
            out_of_range_view(win_ascent_field(), ascent_range_of(head.y_max), os2.win_ascent as i32),
        ),
        ascent_range_of(head.y_max).lower == head.y_max,
        ascent_range_of(head.y_max).upper == 2 * head.y_max,
        (os2.win_ascent as i32) == os2.win_ascent,
{
}

/// For `yMin <= 0`, the descent is accepted exactly when
/// `|yMin| <= usWinDescent <= 2 * |yMin|`; otherwise one failure names
/// `usWinDescent`, the range `[|yMin|, 2 * |yMin|]` and the actual value.
pub proof fn lemma_descent_range(head: HeadExtents, os2: Os2WinMetrics)
    requires
        head.y_min <= 0,
    ensures
        -head.y_min <= os2.win_descent <= -2 * head.y_min ==> descent_finding(head, os2) is None,
        !(-head.y_min <= os2.win_descent <= -2 * head.y_min) ==> descent_finding(head, os2)
            == Some(
            out_of_range_view(
                win_descent_field(),
                descent_range_of(head.y_min),
                os2.win_descent as i32,
            ),
        ),
        descent_range_of(head.y_min).lower == -head.y_min,
        descent_range_of(head.y_min).upper == -2 * head.y_min,
        (os2.win_descent as i32) == os2.win_descent,
{
}

/// Where either table of the font file `data` cannot be read, the rule
/// reports exactly one diagnostic, a missing-table failure, and no metric
/// out of range.
pub proof fn lemma_missing_table_alone(data: Seq<u8>)
    requires
        os2_of(data) is None || head_of(data) is None,
    ensures
        win_ascent_and_descent_findings(data) == seq![missing_tables_view()],
        win_ascent_and_descent_findings(data).len() == 1,
        win_ascent_and_descent_findings(data)[0].message is MissingTable,
        forall|i: int|
            0 <= i < win_ascent_and_descent_findings(data).len()
                ==> !(#[trigger] win_ascent_and_descent_findings(data)[i].message is MetricOutOfRange),
{
}

/// Where both tables of the font file `data` can be read, the rule reports
/// at most two diagnostics, each a metric out of range, the ascent's (if
/// any) before the descent's (if any).
pub proof fn lemma_findings_order(data: Seq<u8>)
    requires
        os2_of(data) is Some,
        head_of(data) is Some,
    ensures
        win_ascent_and_descent_findings(data) == option_seq(
            ascent_finding(head_of(data)->0, os2_of(data)->0),
        ) + option_seq(descent_finding(head_of(data)->0, os2_of(data)->0)),
        win_ascent_and_descent_findings(data).len() <= 2,
        forall|i: int|
            0 <= i < win_ascent_and_descent_findings(data).len()
                ==> #[trigger] win_ascent_and_descent_findings(data)[i].message is MetricOutOfRange,
        forall|i: int, j: int|
            0 <= i < win_ascent_and_descent_findings(data).len() && 0
                <= j < win_ascent_and_descent_findings(data).len()
                && #[trigger] win_ascent_and_descent_findings(data)[i].message->field
                == win_ascent_field() && #[trigger] win_ascent_and_descent_findings(data)[j].message->field
                == win_descent_field() ==> i < j,
{
    let f = win_ascent_and_descent_findings(data);
    let o = os2_of(data)->0;
    let h = head_of(data)->0;
    let a = option_seq(ascent_finding(h, o));
    let d = option_seq(descent_finding(h, o));
    assert(f == a + d);
    assert(win_ascent_field() != win_descent_field()) by {
        reveal_strlit("usWinAscent");
        reveal_strlit("usWinDescent");
        assert(win_ascent_field()[5] != win_descent_field()[5]);
    }
    assert forall|i: int| 0 <= i < f.len() implies #[trigger] f[i].message is MetricOutOfRange by {
        if i < a.len() {
            assert(f[i] == a[i]);
        } else {
            assert(f[i] == d[i - a.len()]);
        }
    }
    assert forall|i: int, j: int|
        0 <= i < f.len() && 0 <= j < f.len() && #[trigger] f[i].message->field == win_ascent_field()
            && #[trigger] f[j].message->field == win_descent_field() implies i < j by {
        if i < a.len() {
            assert(f[i] == a[i]);
        } else {
            assert(f[i] == d[i - a.len()]);
        }
        if j < a.len() {
            assert(f[j] == a[j]);
        } else {
            assert(f[j] == d[j - a.len()]);
        }
    }
}

/// The rule's findings are a function of the font file's bytes: two runs on
/// the same bytes report the same diagnostics.
pub proof fn lemma_rule_deterministic(first: Seq<u8>, second: Seq<u8>)
    requires
        first == second,
    ensures
        win_ascent_and_descent_findings(first) == win_ascent_and_descent_findings(second),
{
}

} // verus!
