//! Text of the player view: repeat labels, times and the queue listing.

use std::time::Duration;
use vstd::prelude::*;
use vstd::string::*;

use super::{RepeatMode, TrackMeta};
use crate::text::{decimal2, push_char, push_decimal2};

verus! {

/// `Duration::as_secs`: the whole seconds of a duration.
pub uninterp spec fn duration_secs(d: Duration) -> nat;

/// The whole seconds of `d` (`Duration::as_secs`).
#[verifier::external_body]
pub fn whole_secs(d: Duration) -> (s: u64)
    ensures
        s == duration_secs(d),
{
    d.as_secs()
}

pub open spec fn spec_repeat_label(mode: RepeatMode) -> Seq<char> {
    match mode {
        RepeatMode::Off => "OFF"@,
        RepeatMode::All => "ALL"@,
        RepeatMode::One => "ONE"@,
    }
}

pub fn repeat_label(mode: RepeatMode) -> (r: &'static str)
    ensures
        r@ == spec_repeat_label(mode),
{
    match mode {
        RepeatMode::Off => "OFF",
        RepeatMode::All => "ALL",
        RepeatMode::One => "ONE",
    }
}

/// `MM:SS` for a number of seconds; the minutes take as many digits as they need.
pub open spec fn spec_mmss(secs: nat) -> Seq<char> {
    decimal2(secs / 60) + seq![':'] + decimal2(secs % 60)
}

/// Appends `MM:SS` for `secs` to `out`.
pub fn push_mmss(out: &mut String, secs: u64)
    ensures
        final(out)@ == old(out)@ + spec_mmss(secs as nat),
{
    push_decimal2(out, secs / 60);
    push_char(out, ':');
    push_decimal2(out, secs % 60);
    assert(old(out)@ + decimal2((secs / 60) as nat) + seq![':'] + decimal2((secs % 60) as nat)
        =~= old(out)@ + spec_mmss(secs as nat));
}

/// `MM:SS` of a duration.
pub fn fmt(duration: Duration) -> (r: String)
    ensures
        r@ == spec_mmss(duration_secs(duration)),
{
    let mut out = String::new();
    push_mmss(&mut out, whole_secs(duration));
    assert(out@ =~= spec_mmss(duration_secs(duration)));
    out
}

/// `position / total`, with `LIVE` for a stream of unknown length.
pub fn duration_text(position: Duration, total: Option<Duration>) -> (r: String)
    ensures
        r@ == spec_mmss(duration_secs(position)) + " / "@ + match total {
            Some(t) => spec_mmss(duration_secs(t)),
            None => "LIVE"@,
        },
{
    let mut out = fmt(position);
    out.append(" / ");
    match total {
        Some(t) => {
            let tail = fmt(t);
            out.append(tail.as_str());
        },
        None => {
            out.append("LIVE");
        },
    }
    out
}

/// The first line shown of a queue of `len` tracks with `selected` in view.
pub open spec fn window_start(selected: nat, max: nat) -> nat {
    if selected >= max / 2 {
        (selected - max / 2) as nat
    } else {
        0
    }
}

pub open spec fn window_end(len: nat, selected: nat, max: nat) -> nat {
    if window_start(selected, max) + max < len {
        window_start(selected, max) + max
    } else {
        len
    }
}

/// One queue line: the selection marker, the playing marker, the source icon and the title.
pub open spec fn spec_queue_line(t: TrackMeta, index: nat, current: Option<usize>, selected: nat) -> Seq<char> {
    seq![
        if index == selected { '>' } else { ' ' },
        if current == Some(index as usize) { '▶' } else { ' ' },
        ' ',
        t.provider.spec_icon(),
        ' ',
    ] + t.title@
}

/// The lines of the queue listing: a window of at most `max` tracks around the
/// selection, or a single `(empty queue)` line.
pub fn queue_lines(queue: &[TrackMeta], current_index: Option<usize>, selected_index: usize, max: usize) -> (r: Vec<String>)
    requires
        queue@.len() == 0 || window_start(selected_index as nat, max as nat) <= queue@.len(),
    ensures
        queue@.len() == 0 ==> r@.len() == 1 && r@[0]@ == "(empty queue)"@,
        queue@.len() > 0 ==> ({
            let start = window_start(selected_index as nat, max as nat);
            let end = window_end(queue@.len(), selected_index as nat, max as nat);
            &&& r@.len() == end - start
            &&& forall|k: int|
                0 <= k < r@.len() ==> (#[trigger] r@[k])@ == spec_queue_line(
                    queue@[start + k],
                    (start + k) as nat,
                    current_index,
                    selected_index as nat,
                )
        }),
{
    let mut out: Vec<String> = Vec::new();
    if queue.len() == 0 {
        out.push(String::from_str("(empty queue)"));
        return out;
    }
    let start = selected_index.saturating_sub(max / 2);
    let end = if start < queue.len() && max < queue.len() - start {
        start + max
    } else {
        queue.len()
    };
    let mut idx = start;
    while idx < end
        invariant
            start <= end <= queue@.len(),
            end == window_end(queue@.len(), selected_index as nat, max as nat),
            start == window_start(selected_index as nat, max as nat),
            start <= idx,
            idx <= end,
            out@.len() == idx - start,
            forall|k: int|
                0 <= k < out@.len() ==> (#[trigger] out@[k])@ == spec_queue_line(
                    queue@[start + k],
                    (start + k) as nat,
                    current_index,
                    selected_index as nat,
                ),
        decreases end - idx,
    {
        let track = &queue[idx];
        let mut line = String::new();
        push_char(&mut line, if idx == selected_index { '>' } else { ' ' });
        push_char(&mut line, if current_index == Some(idx) { '▶' } else { ' ' });
        push_char(&mut line, ' ');
        push_char(&mut line, track.provider.icon());
        push_char(&mut line, ' ');
        line.append(track.title.as_str());
        assert(line@ =~= spec_queue_line(*track, idx as nat, current_index, selected_index as nat));
        out.push(line);
        idx += 1;
    }
    out
}

/// The listing never shows more than `max` lines of a non-empty queue, and
/// always shows the selected track when the selection lies in the queue.
pub proof fn law_queue_window(len: nat, selected: nat, max: nat)
    requires
        len > 0,
        selected < len,
        max > 0,
    ensures
        window_end(len, selected, max) - window_start(selected, max) <= max,
        window_start(selected, max) <= selected < window_end(len, selected, max),
{
}

} // verus!
