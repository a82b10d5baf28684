//! Text for the playback position: times and the dotted progress bar.

use std::time::Duration;
use vstd::prelude::*;

use crate::music::ui::{duration_secs, push_mmss, spec_mmss, whole_secs};
use crate::text::push_char;

verus! {

/// `MM:SS` of a duration; the minutes are not wrapped at an hour.
pub fn format_duration(duration: Duration) -> (r: String)
    ensures
        r@ == spec_mmss(duration_secs(duration)),
{
    let mut out = String::new();
    push_mmss(&mut out, whole_secs(duration));
    assert(out@ =~= spec_mmss(duration_secs(duration)));
    out
}

/// A bar of `width` dots whose first `filled` are lit.
pub open spec fn spec_progress_bar(filled: nat, width: nat) -> Seq<char> {
    Seq::new(width, |i: int| if i < filled { '●' } else { '·' })
}

/// The dotted bar for a position already scaled to the bar: `filled` of `width` dots lit.
pub fn progress_bar_cells(filled: usize, width: usize) -> (r: String)
    ensures
        r@ == spec_progress_bar(filled as nat, width as nat),
{
    let mut out = String::new();
    let mut idx: usize = 0;
    while idx < width
        invariant
            idx <= width,
            out@ == spec_progress_bar(filled as nat, width as nat).take(idx as int),
        decreases width - idx,
    {
        push_char(&mut out, if idx < filled { '●' } else { '·' });
        assert(spec_progress_bar(filled as nat, width as nat).take(idx + 1)
            =~= spec_progress_bar(filled as nat, width as nat).take(idx as int).push(
            if idx < filled { '●' } else { '·' },
        ));
        idx += 1;
    }
    assert(spec_progress_bar(filled as nat, width as nat).take(width as int)
        =~= spec_progress_bar(filled as nat, width as nat));
    out
}

} // verus!
