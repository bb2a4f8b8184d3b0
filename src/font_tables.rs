//! The fields of the `OS/2` and `head` tables that the checks read, taken
//! from a font file's bytes by the `read-fonts` crate.
use read_fonts::TableProvider;
use vstd::prelude::*;

verus! {

/// The Windows ascent and descent of a font's `OS/2` table.
#[derive(Clone, Copy, Debug, PartialEq, Eq, Structural)]
pub struct Os2WinMetrics {
    pub win_ascent: u16,
    pub win_descent: u16,
}

/// The vertical extents of all glyph bounding boxes, from a font's `head` table.
#[derive(Clone, Copy, Debug, PartialEq, Eq, Structural)]
pub struct HeadExtents {
    pub y_max: i16,
    pub y_min: i16,
}

/// `usWinAscent` and `usWinDescent` of the `OS/2` table of the font file
/// `data`, or `None` where the file or that table cannot be read.
pub uninterp spec fn os2_win_metrics_of(data: Seq<u8>) -> Option<(u16, u16)>;

/// `yMax` and `yMin` of the `head` table of the font file `data`, or `None`
/// where the file or that table cannot be read.
pub uninterp spec fn head_y_extents_of(data: Seq<u8>) -> Option<(i16, i16)>;

/// Relies on read-fonts' `FontRef::new`, `TableProvider::os2` and
/// `Os2::us_win_ascent` / `Os2::us_win_descent`: the fields are read from the
/// bytes alone, and an unreadable file or table is an error.
#[verifier::external_body]
fn read_os2_win_metrics(data: &[u8]) -> (r: Option<(u16, u16)>)
    ensures
        r == os2_win_metrics_of(data@),
{
    let font = read_fonts::FontRef::new(data).ok()?;
    let os2 = font.os2().ok()?;
    Some((os2.us_win_ascent(), os2.us_win_descent()))
}

/// Relies on read-fonts' `FontRef::new`, `TableProvider::head` and
/// `Head::y_max` / `Head::y_min`: the fields are read from the bytes alone,
/// and an unreadable file or table is an error.
#[verifier::external_body]
fn read_head_y_extents(data: &[u8]) -> (r: Option<(i16, i16)>)
    ensures
        r == head_y_extents_of(data@),
{
    let font = read_fonts::FontRef::new(data).ok()?;
    let head = font.head().ok()?;
    Some((head.y_max(), head.y_min()))
}

/// The `OS/2` metrics of the font file `data`, where that table can be read.
pub open spec fn os2_of(data: Seq<u8>) -> Option<Os2WinMetrics> {
    match os2_win_metrics_of(data) {
        Some((a, d)) => Some(Os2WinMetrics { win_ascent: a, win_descent: d }),
        None => None,
    }
}

/// The `head` extents of the font file `data`, where that table can be read.
pub open spec fn head_of(data: Seq<u8>) -> Option<HeadExtents> {
    match head_y_extents_of(data) {
        Some((y_max, y_min)) => Some(HeadExtents { y_max, y_min }),
        None => None,
    }
}

/// Reads `usWinAscent` and `usWinDescent` from the `OS/2` table of the font
/// file `data`.
pub fn read_os2(data: &[u8]) -> (r: Option<Os2WinMetrics>)
    ensures
        r == os2_of(data@),
{
    match read_os2_win_metrics(data) {
        Some((win_ascent, win_descent)) => Some(Os2WinMetrics { win_ascent, win_descent }),
        None => None,
    }
}

/// Reads `yMax` and `yMin` from the `head` table of the font file `data`.
pub fn read_head(data: &[u8]) -> (r: Option<HeadExtents>)
    ensures
        r == head_of(data@),
{
    match read_head_y_extents(data) {
        Some((y_max, y_min)) => Some(HeadExtents { y_max, y_min }),
        None => None,
    }
}

} // verus!
