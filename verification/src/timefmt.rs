//! The modification-time label shown beside the selected carousel entry.
//!
//! Rendering a Unix timestamp as a calendar date is delegated to the
//! `chrono` crate; the result is a pure function of the timestamp, named
//! here by an uninterpreted spec function.

use vstd::prelude::*;

verus! {

/// The calendar rendering ("month-day-year, 12-hour time") of a Unix
/// timestamp, as `chrono` formats its naive UTC form. The rendering depends
/// on the timestamp alone.
pub uninterp spec fn modified_label_of(mtime: i64) -> Seq<char>;

/// Timestamps the renderer is promised to accept: the Unix epoch up to the
/// end of year 9999, far inside chrono's documented date range.
pub open spec fn mtime_renderable(mtime: i64) -> bool {
    0 <= mtime < 253402300800
}

/// Relies on `chrono::DateTime::from_timestamp` (None only for an
/// out-of-range timestamp) and on formatting the resulting naive UTC time
/// with a fixed format string: the label is a function of the timestamp
/// alone, with no environment input.
#[verifier::external_body]
fn render_modified_label(mtime: i64) -> (r: Option<String>)
    ensures
        r matches Some(s) ==> s@ == modified_label_of(mtime),
        mtime_renderable(mtime) ==> r is Some,
{
    chrono::DateTime::from_timestamp(mtime, 0).map(
        |dt| dt.naive_local().format("%m-%d-%Y, %-I:%M%P").to_string(),
    )
}

/// The timestamp actually rendered: an out-of-range modification time falls
/// back to the epoch instead of failing.
pub open spec fn clamped_mtime(mtime: i64) -> i64 {
    if mtime_renderable(mtime) {
        mtime
    } else {
        0
    }
}

/// The modification-time label for a directory entry.
pub open spec fn spec_modified_label(mtime: i64) -> Seq<char> {
    modified_label_of(clamped_mtime(mtime))
}

/// Renders an entry's modification time for the metadata panel.
pub fn modified_label(mtime: i64) -> (s: String)
    ensures
        s@ == spec_modified_label(mtime),
{
    let t: i64 = if 0 <= mtime && mtime < 253402300800 {
        mtime
    } else {
        0
    };
    match render_modified_label(t) {
        Option::Some(s) => s,
        Option::None => {
            proof {
                assert(false);
            }
            String::new()
        },
    }
}

} // verus!
