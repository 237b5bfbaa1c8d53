//! The text of each readout line, and when a line changes.
//!
//! Values that only exist as floating point (scale factors, logical sizes,
//! positions, rectangles) arrive already written as text; integer values are
//! written here.
use vstd::prelude::*;

use crate::decimal::{append_decimal, decimal};

verus! {

/// `UI scale <scale>, UI rect <rect>`.
pub open spec fn ui_text(scale: Seq<char>, rect: Seq<char>) -> Seq<char> {
    "UI scale "@ + scale + ", UI rect "@ + rect
}

/// `Window scale <scale> logical <width> <height>, physical <pw> <ph>`, with
/// the physical size in decimal.
pub open spec fn window_text(
    scale: Seq<char>,
    width: Seq<char>,
    height: Seq<char>,
    physical_width: nat,
    physical_height: nat,
) -> Seq<char> {
    "Window scale "@ + scale + " logical "@ + width + " "@ + height + ", physical "@ + decimal(
        physical_width,
    ) + " "@ + decimal(physical_height)
}

/// `Viewport logical <logical>, physical <physical>`.
pub open spec fn viewport_text(logical: Seq<char>, physical: Seq<char>) -> Seq<char> {
    "Viewport logical "@ + logical + ", physical "@ + physical
}

/// `Mouse position: <position>`.
pub open spec fn mouse_text(position: Seq<char>) -> Seq<char> {
    "Mouse position: "@ + position
}

/// `Touch <position>`.
pub open spec fn touch_text(position: Seq<char>) -> Seq<char> {
    "Touch "@ + position
}

/// The line that shows the UI scale and the rectangle of the full-screen node.
pub fn ui_line(scale: &str, rect: &str) -> (r: String)
    ensures
        r@ == ui_text(scale@, rect@),
{
    let mut out = String::from_str("UI scale ");
    out.append(scale);
    out.append(", UI rect ");
    out.append(rect);
    out
}

/// The line that shows the window's scale factor, its logical size and its
/// physical size in pixels.
pub fn window_line(
    scale: &str,
    width: &str,
    height: &str,
    physical_width: u32,
    physical_height: u32,
) -> (r: String)
    ensures
        r@ == window_text(
            scale@,
            width@,
            height@,
            physical_width as nat,
            physical_height as nat,
        ),
{
    let mut out = String::from_str("Window scale ");
    out.append(scale);
    out.append(" logical ");
    out.append(width);
    out.append(" ");
    out.append(height);
    out.append(", physical ");
    append_decimal(&mut out, physical_width);
    out.append(" ");
    append_decimal(&mut out, physical_height);
    out
}

/// The line that shows the camera's viewport, logical and physical.
pub fn viewport_line(logical: &str, physical: &str) -> (r: String)
    ensures
        r@ == viewport_text(logical@, physical@),
{
    let mut out = String::from_str("Viewport logical ");
    out.append(logical);
    out.append(", physical ");
    out.append(physical);
    out
}

/// The new text of the mouse line: the cursor's position while the cursor
/// is over the window; otherwise `None`, and the line keeps what it showed.
pub fn mouse_update(cursor: Option<&str>) -> (r: Option<String>)
    ensures
        cursor is None <==> r is None,
        cursor matches Some(c) ==> r->Some_0@ == mouse_text(c@),
{
    match cursor {
        Some(c) => {
            let mut out = String::from_str("Mouse position: ");
            out.append(c);
            Some(out)
        },
        None => None,
    }
}

/// The new text of the touch line. Each active touch writes the line in turn,
/// so the last one is what it shows; with no touch it is `None`, and the line
/// keeps what it showed.
pub fn touch_update(touches: &Vec<String>) -> (r: Option<String>)
    ensures
        touches@.len() == 0 <==> r is None,
        touches@.len() > 0 ==> r->Some_0@ == touch_text(touches@.last()@),
{
    let mut shown: Option<String> = None;
    let mut i: usize = 0;
    while i < touches.len()
        invariant
            i <= touches@.len(),
            i == 0 <==> shown is None,
            i > 0 ==> shown->Some_0@ == touch_text(touches@[i - 1]@),
        decreases touches@.len() - i,
    {
        let mut out = String::from_str("Touch ");
        out.append(touches[i].as_str());
        shown = Some(out);
        i += 1;
    }
    shown
}

} // verus!
