use vstd::prelude::*;

verus! {

/// A rectangle of the window surface, in surface coordinates.
#[derive(Clone, Copy)]
pub struct InputRect {
    pub x: i32,
    pub y: i32,
    pub width: i32,
    pub height: i32,
}

/// The part of the window that takes pointer input (off Windows): all of it
/// when passthrough is off; with passthrough on, nothing of an undecorated
/// window and only the header bar of a decorated one.
pub fn input_region(enabled: bool, decorated: bool, headerbar: InputRect) -> (r: InputRect)
    ensures
        !enabled ==> r == (InputRect { x: 0, y: 0, width: i32::MAX, height: i32::MAX }),
        enabled && !decorated ==> r == (InputRect { x: 0, y: 0, width: 0, height: 0 }),
        enabled && decorated ==> r == headerbar,
{
    if !enabled {
        InputRect { x: 0, y: 0, width: i32::MAX, height: i32::MAX }
    } else if !decorated {
        InputRect { x: 0, y: 0, width: 0, height: 0 }
    } else {
        headerbar
    }
}

} // verus!

verus! {

/// `WS_EX_TRANSPARENT`: the window lets pointer input through.
pub const WS_EX_TRANSPARENT: isize = 0x20;
/// `WS_EX_LAYERED`: the window is a layered window.
pub const WS_EX_LAYERED: isize = 0x80000;

/// The extended window style under click-through on Windows: both bits set
/// when enabled, both cleared when not, every other bit kept.
pub fn click_through_ex_style(ex_style: isize, enabled: bool) -> (r: isize)
    ensures
        enabled ==> r == ex_style | 0x20isize | 0x80000isize,
        !enabled ==> r == ex_style & !0x20isize & !0x80000isize,
{
    if enabled {
        ex_style | WS_EX_TRANSPARENT | WS_EX_LAYERED
    } else {
        ex_style & !WS_EX_TRANSPARENT & !WS_EX_LAYERED
    }
}

} // verus!
