//! Interactive commit-log list navigation: a chronologically ordered list of
//! log entries with a clamped selection cursor, viewport-relative paging,
//! key-to-command dispatch, and resolution of the directory in which a
//! selected entry is inspected.

use vstd::prelude::*;

mod dispatch;
mod entry;
mod nav;
mod sort;

pub use dispatch::Action;
pub use dispatch::Command;
pub use dispatch::KeyInput;
pub use dispatch::dispatch;
pub use entry::first_line;
pub use entry::origin_changed;
pub use nav::App;
pub use nav::InspectRequest;
pub use sort::sort_entries;
pub use entry::LogEntryInfo;
pub use entry::SubmoduleInfo;
pub use entry::Item;

verus! {

/// Rows available to the list widget inside a terminal area of the given
/// height: the area less its two border rows, floored at zero.
pub fn viewport_rows(area_height: u16) -> (r: u16)
    ensures
        r == if area_height >= 2 { area_height - 2 } else { 0 },
{
    if area_height >= 2 {
        area_height - 2
    } else {
        0
    }
}

} // verus!
