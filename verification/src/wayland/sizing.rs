//! The size the overlay first asks the compositor for.
//!
//! Mutter maximizes a new window that asks for most of the screen, and a
//! maximized window loses Always on Top, resizing and moving. So the first
//! size is the requested one, shrunk to a share of the smallest output: the
//! smallest, because which output the window opens on is the compositor's
//! choice. The user can still enlarge it by hand afterwards.
use vstd::prelude::*;

verus! {

/// Whether an output's size is known: both sides above zero.
pub open spec fn known(output: (u32, u32)) -> bool {
    output.0 > 0 && output.1 > 0
}

/// An output's area.
pub open spec fn area(output: (u32, u32)) -> int {
    output.0 * output.1
}

/// Among the first `count` outputs, the known one with the smallest area,
/// the earliest of equals.
pub open spec fn smallest(outputs: Seq<(u32, u32)>, count: int) -> Option<(u32, u32)>
    decreases count,
{
    if count <= 0 {
        None
    } else {
        let before = smallest(outputs, count - 1);
        let output = outputs[count - 1];
        if known(output) && (before is None || area(output) < area(before->0)) {
            Some(output)
        } else {
            before
        }
    }
}

/// Four fifths of a side, rounded down: the largest share of each side of
/// an output the first size may take, clear of the compositor's cut-off for
/// maximizing. Never below one pixel.
pub open spec fn share(side: u32) -> int {
    let fifths = side * 4 / 5;
    if fifths >= 1 { fifths } else { 1 }
}

/// The smaller of two sizes.
pub open spec fn least(a: int, b: int) -> int {
    if a <= b { a } else { b }
}

/// The area of a size fits in 64 bits.
proof fn lemma_area_fits(width: u32, height: u32)
    ensures
        0 <= width * height <= u64::MAX,
{
    assert(0 <= width * height <= 0xffff_ffffu64 * 0xffff_ffffu64) by (nonlinear_arith)
        requires
            width <= 0xffff_ffffu64,
            height <= 0xffff_ffffu64,
    ;
}

/// Four fifths of a side, rounded down, and at least one.
fn share_of(side: u32) -> (cap: u32)
    ensures
        cap == share(side),
{
    let fifths = ((side as u64) * 4 / 5) as u32;
    if fifths >= 1 { fifths } else { 1 }
}

/// The first size to ask for, in logical pixels. `outputs` are logical
/// sizes; with none known, the request stands.
pub fn floating_size(requested: (u32, u32), outputs: &[(u32, u32)]) -> (size: (u32, u32))
    ensures
        match smallest(outputs@, outputs@.len() as int) {
            None => size == requested,
            Some(output) => size.0 == least(requested.0 as int, share(output.0))
                && size.1 == least(requested.1 as int, share(output.1)),
        },
{
    let n = outputs.len();
    let mut best: Option<(u32, u32)> = None;
    let mut i: usize = 0;
    while i < n
        invariant
            n == outputs@.len(),
            i <= n,
            best == smallest(outputs@, i as int),
        decreases n - i,
    {
        let (width, height) = outputs[i];
        if width > 0 && height > 0 {
            let better = match best {
                None => true,
                Some((w, h)) => {
                    proof {
                        lemma_area_fits(width, height);
                        lemma_area_fits(w, h);
                    }
                    (width as u64) * (height as u64) < (w as u64) * (h as u64)
                },
            };
            if better {
                best = Some((width, height));
            }
        }
        i = i + 1;
    }
    match best {
        None => requested,
        Some((width, height)) => {
            let cap_w = share_of(width);
            let cap_h = share_of(height);
            (
                if requested.0 <= cap_w { requested.0 } else { cap_w },
                if requested.1 <= cap_h { requested.1 } else { cap_h },
            )
        },
    }
}

/// The first size never asks for more than was requested, and is the
/// request itself when no output size is known.
pub proof fn law_never_larger_than_requested(requested: (u32, u32), outputs: Seq<(u32, u32)>)
    ensures
        match smallest(outputs, outputs.len() as int) {
            None => true,
            Some(output) => least(requested.0 as int, share(output.0)) <= requested.0
                && least(requested.1 as int, share(output.1)) <= requested.1
                && least(requested.0 as int, share(output.0)) <= output.0
                && least(requested.1 as int, share(output.1)) <= output.1,
        },
{
    lemma_smallest_is_known(outputs, outputs.len() as int);
}

/// What `smallest` picks is one of the outputs, and a known one.
proof fn lemma_smallest_is_known(outputs: Seq<(u32, u32)>, count: int)
    requires
        count <= outputs.len(),
    ensures
        smallest(outputs, count) matches Some(o) ==> known(o),
    decreases count,
{
    if count > 0 {
        lemma_smallest_is_known(outputs, count - 1);
    }
}

} // verus!
