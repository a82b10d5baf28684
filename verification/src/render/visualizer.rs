//! Fitting the spectrum visualizer into the space it is given.

use vstd::prelude::*;

use crate::text::{chars_of, slice_chars, string_of};

verus! {

/// Cuts `s` to its first `max_chars` characters (never in the middle of a character).
pub fn truncate_to_char_count(s: &mut String, max_chars: usize)
    ensures
        final(s)@ == (if old(s)@.len() <= max_chars {
            old(s)@
        } else {
            old(s)@.take(max_chars as int)
        }),
{
    let chars = chars_of(s.as_str());
    if chars.len() <= max_chars {
        return;
    }
    let head = slice_chars(&chars, 0, max_chars);
    assert(head@ =~= old(s)@.take(max_chars as int));
    *s = string_of(&head);
}

/// Bands are separated by one blank column.
pub open spec fn band_gap() -> int {
    1
}

/// The columns left for the bands once the gaps between them are taken out.
pub open spec fn usable_width(total_width: int, bands: int) -> int {
    let gaps = (bands - 1) * band_gap();
    if total_width > gaps {
        total_width - gaps
    } else {
        0
    }
}

/// The width of band `band`: the usable columns shared out evenly, the first bands
/// taking one more column each while the remainder lasts.
pub open spec fn spec_band_width(band: int, total_width: int, bands: int) -> int {
    if bands == 0 {
        total_width
    } else {
        let usable = usable_width(total_width, bands);
        if band < usable % bands {
            usable / bands + 1
        } else {
            usable / bands
        }
    }
}

pub fn vis_band_width(band: usize, total_width: usize, bands: usize) -> (r: usize)
    ensures
        r == spec_band_width(band as int, total_width as int, bands as int),
{
    if bands == 0 {
        return total_width;
    }
    let gap: usize = 1;
    let total_gaps = (bands - 1) * gap;
    let usable = total_width.saturating_sub(total_gaps);
    let base = usable / bands;
    let extra = usable % bands;
    if band < extra {
        base + 1
    } else {
        base
    }
}

/// The columns taken by the first `n` bands.
pub open spec fn bands_width(total_width: int, bands: int, n: nat) -> int
    decreases n,
{
    if n == 0 {
        0
    } else {
        bands_width(total_width, bands, (n - 1) as nat) + spec_band_width(
            n - 1,
            total_width,
            bands,
        )
    }
}

proof fn lemma_bands_width_prefix(total_width: int, bands: int, n: nat)
    requires
        bands > 0,
        total_width >= 0,
        n <= bands,
    ensures
        bands_width(total_width, bands, n) == n * (usable_width(total_width, bands) / bands) + (
        if n < usable_width(total_width, bands) % bands {
            n as int
        } else {
            usable_width(total_width, bands) % bands
        }),
    decreases n,
{
    let usable = usable_width(total_width, bands);
    let base = usable / bands;
    if n > 0 {
        lemma_bands_width_prefix(total_width, bands, (n - 1) as nat);
        assert(n * base == (n - 1) * base + base) by (nonlinear_arith);
        assert(spec_band_width(n - 1, total_width, bands) == if n - 1 < usable % bands {
            base + 1
        } else {
            base
        });
    } else {
        assert(n * base == 0) by (nonlinear_arith)
            requires
                n == 0,
        ;
    }
}

/// The bands and the gaps between them fill the visualizer's width exactly, whenever the
/// width holds at least the gaps.
pub proof fn law_bands_fill_width(total_width: int, bands: int)
    requires
        bands > 0,
        total_width >= bands - 1,
    ensures
        bands_width(total_width, bands, bands as nat) + (bands - 1) * band_gap() == total_width,
{
    lemma_bands_width_prefix(total_width, bands, bands as nat);
    let usable = usable_width(total_width, bands);
    assert(usable >= 0);
    vstd::arithmetic::div_mod::lemma_fundamental_div_mod(usable, bands);
    assert(usable % bands < bands) by {
        vstd::arithmetic::div_mod::lemma_mod_pos_bound(usable, bands);
    }
    assert(bands * (usable / bands) == (bands as nat) * (usable / bands));
}

} // verus!
