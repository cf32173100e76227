//! The bridge between the canvas and a 32-bit DIB, and the window geometry
//! around it.
//!
//! The canvas is premultiplied ARGB8888, little-endian: `[B, G, R, A]` in
//! memory. A 32-bit DIB drawn through a layered window with per-pixel alpha
//! wants premultiplied BGRA, the same byte order, so the canvas is written
//! straight into the DIB. What remains is arithmetic about layout and
//! rectangles, decidable without an operating system.
use vstd::prelude::*;
use crate::text::{decimal, push_decimal};
use crate::tool::Cursor;

verus! {

/// How many bytes one row of a 32-bit DIB occupies: rows are aligned to four
/// bytes, and at 32 bits a pixel every row already is.
pub fn stride(width: u32) -> (bytes: usize)
    requires
        width * 4 <= usize::MAX,
    ensures
        bytes == width * 4,
{
    let row = width as usize * 4;
    let aligned = (row + 3) / 4 * 4;
    assert(aligned == row) by (nonlinear_arith)
        requires
            aligned == (row + 3) / 4 * 4,
            row == width * 4,
    ;
    aligned
}

/// The bytes a DIB of this size needs.
pub fn buffer_len(width: u32, height: u32) -> (bytes: usize)
    requires
        width * 4 <= usize::MAX,
        width * 4 * height <= usize::MAX,
    ensures
        bytes == width * 4 * height,
{
    stride(width) * height as usize
}

/// The height to ask the DIB for: negative, so row zero is the top of the
/// screen as it is in the canvas. A positive height would mirror the overlay.
pub fn dib_height(height: u32) -> (dib: i32)
    requires
        height <= i32::MAX,
    ensures
        dib == -(height as int),
{
    -(height as i32)
}

/// Whether a canvas of this length can be written into a DIB of this size
/// without conversion: exactly when it holds every row.
pub fn layout_matches(canvas_len: usize, width: u32, height: u32) -> (fits: bool)
    requires
        width * 4 <= usize::MAX,
        width * 4 * height <= usize::MAX,
    ensures
        fits == (canvas_len == width * 4 * height),
{
    canvas_len == buffer_len(width, height)
}

/// A rectangle in screen pixels, right and bottom edges exclusive.
#[derive(Clone, Copy, Debug, PartialEq, Eq, Structural)]
pub struct PixelRect {
    pub left: i32,
    pub top: i32,
    pub right: i32,
    pub bottom: i32,
}

impl PixelRect {
    pub fn width(self) -> (width: i32)
        requires
            i32::MIN <= self.right - self.left <= i32::MAX,
        ensures
            width == self.right - self.left,
    {
        self.right - self.left
    }

    pub fn height(self) -> (height: i32)
        requires
            i32::MIN <= self.bottom - self.top <= i32::MAX,
        ensures
            height == self.bottom - self.top,
    {
        self.bottom - self.top
    }
}

/// One monitor, as enumeration reported it.
#[derive(Clone, Copy, Debug, PartialEq, Eq, Structural)]
pub struct Monitor {
    pub bounds: PixelRect,
    pub dpi: u32,
    pub primary: bool,
}

/// The position of the first primary monitor, or -1 when none says it is.
pub open spec fn first_primary(monitors: Seq<Monitor>) -> int
    decreases monitors.len(),
{
    if monitors.len() == 0 {
        -1
    } else if monitors[0].primary {
        0
    } else {
        let rest = first_primary(monitors.drop_first());
        if rest < 0 { -1 } else { rest + 1 }
    }
}

/// The monitor covered when none is asked for: the first primary one, or the
/// first of all when none says it is primary.
pub open spec fn primary_of(monitors: Seq<Monitor>) -> int {
    let at = first_primary(monitors);
    if at >= 0 { at } else { 0 }
}

/// A primary monitor with none before it is the first; with none at all
/// there is no first.
proof fn lemma_first_primary(monitors: Seq<Monitor>, at: int)
    requires
        0 <= at <= monitors.len(),
        at < monitors.len() ==> monitors[at].primary,
        forall|j: int| 0 <= j < at ==> !(#[trigger] monitors[j]).primary,
    ensures
        at < monitors.len() ==> first_primary(monitors) == at,
        at == monitors.len() ==> first_primary(monitors) == -1,
    decreases monitors.len(),
{
    if monitors.len() > 0 && !monitors[0].primary {
        let rest = monitors.drop_first();
        assert forall|j: int| 0 <= j < at - 1 implies !(#[trigger] rest[j]).primary by {
            assert(rest[j] == monitors[j + 1]);
        }
        if at - 1 < rest.len() {
            assert(rest[at - 1] == monitors[at]);
        }
        lemma_first_primary(rest, at - 1);
    }
}

/// The refusal of a monitor number that names no monitor.
pub open spec fn no_such_monitor(number: nat, count: nat) -> Seq<char> {
    "there is no monitor "@ + decimal(number) + "; this machine has "@ + decimal(count)
        + " (numbered from 1)"@
}

/// Which monitor to cover, from a 1-based number the user typed.
///
/// With nothing asked for, the primary (the first one enumeration marks so,
/// or the first of all). A number that names no monitor is an error that says
/// how many there are, never a silent fallback: an overlay on the wrong
/// screen during a presentation is exactly the surprise to prevent.
pub fn choose_monitor(monitors: &[Monitor], requested: Option<usize>) -> (chosen: Result<usize, String>)
    ensures
        monitors@.len() == 0 ==> (chosen matches Err(e) && e@ == "Windows reported no monitors at all"@),
        monitors@.len() > 0 ==> match requested {
            None => chosen == Ok::<usize, String>(primary_of(monitors@) as usize),
            Some(number) => if 1 <= number <= monitors@.len() {
                chosen == Ok::<usize, String>((number - 1) as usize)
            } else {
                (chosen matches Err(e) && e@ == no_such_monitor(number as nat, monitors@.len()))
            },
        },
{
    let n = monitors.len();
    if n == 0 {
        return Err(String::from_str("Windows reported no monitors at all"));
    }
    match requested {
        None => {
            let mut i: usize = 0;
            while i < n
                invariant
                    n == monitors@.len(),
                    n > 0,
                    requested is None,
                    i <= n,
                    forall|j: int| 0 <= j < i ==> !(#[trigger] monitors@[j]).primary,
                decreases n - i,
            {
                if monitors[i].primary {
                    proof {
                        lemma_first_primary(monitors@, i as int);
                    }
                    return Ok(i);
                }
                i = i + 1;
            }
            proof {
                lemma_first_primary(monitors@, n as int);
            }
            Ok(0)
        },
        Some(number) => {
            if 1 <= number && number <= n {
                Ok(number - 1)
            } else {
                let mut message = String::from_str("there is no monitor ");
                push_decimal(&mut message, number as u64);
                message.append("; this machine has ");
                push_decimal(&mut message, n as u64);
                message.append(" (numbered from 1)");
                Err(message)
            }
        },
    }
}

/// The smallest the overlay can be resized to, in pixels. Smaller and the
/// toolbar no longer fits, leaving nothing to click to get it back.
pub const MIN_RESIZE: (i32, i32) = (240, 120);

/// A window dragged by its grip: the same size, offset by how far the
/// pointer has moved since the press.
pub fn moved(start: PixelRect, from: (i32, i32), to: (i32, i32)) -> (after: PixelRect)
    requires
        i32::MIN <= to.0 - from.0 <= i32::MAX,
        i32::MIN <= to.1 - from.1 <= i32::MAX,
        i32::MIN <= start.left + (to.0 - from.0) <= i32::MAX,
        i32::MIN <= start.right + (to.0 - from.0) <= i32::MAX,
        i32::MIN <= start.top + (to.1 - from.1) <= i32::MAX,
        i32::MIN <= start.bottom + (to.1 - from.1) <= i32::MAX,
    ensures
        after.left == start.left + (to.0 - from.0),
        after.right == start.right + (to.0 - from.0),
        after.top == start.top + (to.1 - from.1),
        after.bottom == start.bottom + (to.1 - from.1),
{
    let dx = to.0 - from.0;
    let dy = to.1 - from.1;
    PixelRect {
        left: start.left + dx,
        top: start.top + dy,
        right: start.right + dx,
        bottom: start.bottom + dy,
    }
}

/// A window resized from its bottom-right corner, never below `minimum`.
pub fn resized(start: PixelRect, from: (i32, i32), to: (i32, i32), minimum: (i32, i32)) -> (after: PixelRect)
    requires
        i32::MIN <= start.right + to.0 <= i32::MAX,
        i32::MIN <= start.right + to.0 - from.0 <= i32::MAX,
        i32::MIN <= start.bottom + to.1 <= i32::MAX,
        i32::MIN <= start.bottom + to.1 - from.1 <= i32::MAX,
        i32::MIN <= start.left + minimum.0 <= i32::MAX,
        i32::MIN <= start.top + minimum.1 <= i32::MAX,
    ensures
        after.left == start.left,
        after.top == start.top,
        after.right == if start.right + to.0 - from.0 >= start.left + minimum.0 {
            start.right + to.0 - from.0
        } else {
            start.left + minimum.0
        },
        after.bottom == if start.bottom + to.1 - from.1 >= start.top + minimum.1 {
            start.bottom + to.1 - from.1
        } else {
            start.top + minimum.1
        },
{
    let right = start.right + to.0 - from.0;
    let least_right = start.left + minimum.0;
    let bottom = start.bottom + to.1 - from.1;
    let least_bottom = start.top + minimum.1;
    PixelRect {
        left: start.left,
        top: start.top,
        right: if right >= least_right { right } else { least_right },
        bottom: if bottom >= least_bottom { bottom } else { least_bottom },
    }
}

/// The numeric id of the system cursor for a controller cursor: the values
/// behind `IDC_ARROW` and its relatives.
pub open spec fn cursor_id(cursor: Cursor) -> u16 {
    match cursor {
        Cursor::Default => 32512,
        Cursor::Text => 32513,
        Cursor::Crosshair => 32515,
        Cursor::ResizeBottomRight => 32642,
        Cursor::Move => 32646,
    }
}

/// The system cursor resource for a controller cursor.
pub fn cursor_resource(cursor: Cursor) -> (id: u16)
    ensures
        id == cursor_id(cursor),
{
    match cursor {
        Cursor::Default => 32512,
        Cursor::Text => 32513,
        Cursor::Crosshair => 32515,
        Cursor::ResizeBottomRight => 32642,
        Cursor::Move => 32646,
    }
}

/// The first message number an application may define for itself.
pub const WM_APP: u32 = 0x8000;

/// How many remote verbs there can be. Anything posted above this range is
/// not ours and is ignored.
pub const MAX_REMOTE: u32 = 32;

/// The message number a remote verb travels as, if it has one.
pub open spec fn message_for(index: u32) -> Option<u32> {
    if index < MAX_REMOTE { Some((WM_APP + index) as u32) } else { None }
}

/// The remote verb a message number carries, if it is one of ours.
pub open spec fn index_for(message: u32) -> Option<u32> {
    if WM_APP <= message < WM_APP + MAX_REMOTE { Some((message - WM_APP) as u32) } else { None }
}

/// The window message that carries remote verb number `index`.
pub fn remote_message(index: u32) -> (message: Option<u32>)
    ensures
        message == message_for(index),
{
    if index < MAX_REMOTE {
        Some(WM_APP + index)
    } else {
        None
    }
}

/// The remote verb number a message carries, if it is one of ours.
pub fn remote_index(message: u32) -> (index: Option<u32>)
    ensures
        index == index_for(message),
{
    if message >= WM_APP && message < WM_APP + MAX_REMOTE {
        Some(message - WM_APP)
    } else {
        None
    }
}

/// Every verb number in range has a message that carries it back; none past
/// the range has one; and a message is ours only when it is some verb's.
pub proof fn law_remote_messages_round_trip(index: u32, message: u32)
    ensures
        index < MAX_REMOTE ==> (message_for(index) matches Some(m) && index_for(m) == Some(index)),
        index >= MAX_REMOTE ==> message_for(index) is None,
        index_for(message) matches Some(i) ==> message_for(i) == Some(message),
{
}

/// No two controller cursors share a system resource.
pub proof fn law_cursor_resources_are_distinct(a: Cursor, b: Cursor)
    ensures
        cursor_id(a) == cursor_id(b) ==> a == b,
{
}

} // verus!
