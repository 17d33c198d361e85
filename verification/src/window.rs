//! What the window does with its messages, how large it is made, and when
//! the message loop ends.

use vstd::prelude::*;
use crate::geometry::{wrap_i32, Rect};

verus! {

/// The message a window gets when it is destroyed.
pub const WM_DESTROY: u32 = 0x0002;

/// The first message a window gets, before it is created.
pub const WM_NCCREATE: u32 = 0x0081;

/// Where the window procedure sends a message.
#[derive(Clone, Copy, Debug, PartialEq, Eq, Structural)]
pub enum Route {
    /// Bind the window object to the handle, then give the message to the
    /// system's default procedure.
    Attach,
    /// Give the message to the window object's handler.
    Handler,
    /// Give the message to the system's default procedure.
    Default,
}

/// What the window object's handler does with a message.
#[derive(Clone, Copy, Debug, PartialEq, Eq, Structural)]
pub enum Handling {
    /// Post the quit message with `exit_code` and answer `result`.
    Quit { exit_code: i32, result: isize },
    /// Give the message to the system's default procedure.
    Default,
}

/// Where a message goes, given whether a window object is bound to the
/// handle it is for.
pub open spec fn spec_route(message: u32, attached: bool) -> Route {
    if message == WM_NCCREATE {
        Route::Attach
    } else if attached {
        Route::Handler
    } else {
        Route::Default
    }
}

/// What the handler does with a message.
pub open spec fn spec_handling(message: u32) -> Handling {
    if message == WM_DESTROY {
        Handling::Quit { exit_code: 0, result: 0 }
    } else {
        Handling::Default
    }
}

/// Decides where the window procedure sends `message`. `attached` says
/// whether a window object is bound to the handle.
pub fn route_message(message: u32, attached: bool) -> (r: Route)
    ensures
        r == spec_route(message, attached),
{
    if message == WM_NCCREATE {
        Route::Attach
    } else if attached {
        Route::Handler
    } else {
        Route::Default
    }
}

/// Decides what the window object does with `message`: it quits the message
/// loop when the window is destroyed and leaves the rest to the system.
pub fn message_handler(message: u32) -> (r: Handling)
    ensures
        r == spec_handling(message),
{
    if message == WM_DESTROY {
        Handling::Quit { exit_code: 0, result: 0 }
    } else {
        Handling::Default
    }
}

/// The outer size of a window, given the rectangle that the system grew
/// from the client area: `None` where an extent does not fit.
pub fn window_size(adjusted: Rect) -> (r: Option<(i32, i32)>)
    ensures
        r == adjusted.extent_of(),
{
    adjusted.extent()
}

/// Whether the message loop goes on after a fetch that returned `fetched`:
/// it stops on zero alone.
pub fn keeps_pumping(fetched: i32) -> (r: bool)
    ensures
        r == (fetched != 0),
{
    fetched != 0
}

/// The exit code carried by the quit message: the low 32 bits of its
/// parameter, read as a signed integer.
pub fn quit_code(wparam: usize) -> (r: i32)
    ensures
        r == wrap_i32(wparam as int),
{
    let low: u64 = (wparam as u64) % 0x1_0000_0000u64;
    if low < 0x8000_0000u64 {
        low as i32
    } else {
        let high: u64 = low - 0x8000_0000u64;
        let shifted: i32 = high as i32;
        shifted + i32::MIN
    }
}

} // verus!
