use hdrview::geometry::{reinterpret_i32, reinterpret_u32, Point, Rect};
use hdrview::window::{
    keeps_pumping, message_handler, quit_code, route_message, window_size, Handling, Route,
    WM_DESTROY, WM_NCCREATE,
};

const WM_PAINT: u32 = 0x000F;
const WM_CLOSE: u32 = 0x0010;

#[test]
fn creation_message_attaches_the_window() {
    assert_eq!(route_message(WM_NCCREATE, false), Route::Attach);
    assert_eq!(route_message(WM_NCCREATE, true), Route::Attach);
    assert_eq!(route_message(0x81, false), Route::Attach);
}

#[test]
fn attached_window_handles_other_messages() {
    assert_eq!(route_message(WM_DESTROY, true), Route::Handler);
    assert_eq!(route_message(WM_PAINT, true), Route::Handler);
    assert_eq!(route_message(0, true), Route::Handler);
    assert_eq!(route_message(u32::MAX, true), Route::Handler);
}

#[test]
fn unattached_window_leaves_messages_to_the_system() {
    assert_eq!(route_message(WM_DESTROY, false), Route::Default);
    assert_eq!(route_message(WM_PAINT, false), Route::Default);
}

#[test]
fn destroy_quits_with_code_zero() {
    assert_eq!(message_handler(WM_DESTROY), Handling::Quit { exit_code: 0, result: 0 });
    assert_eq!(message_handler(2), Handling::Quit { exit_code: 0, result: 0 });
}

#[test]
fn other_messages_go_to_the_system() {
    assert_eq!(message_handler(WM_PAINT), Handling::Default);
    assert_eq!(message_handler(WM_CLOSE), Handling::Default);
    assert_eq!(message_handler(WM_NCCREATE), Handling::Default);
    assert_eq!(message_handler(0), Handling::Default);
}

#[test]
fn client_rect_starts_at_the_origin() {
    assert_eq!(
        Rect::from_client_size(800, 600),
        Rect { left: 0, top: 0, right: 800, bottom: 600 }
    );
    assert_eq!(Rect::from_client_size(0, 0), Rect { left: 0, top: 0, right: 0, bottom: 0 });
}

#[test]
fn client_rect_carries_large_extents_bit_for_bit() {
    let rect = Rect::from_client_size(u32::MAX, 0x8000_0000);
    assert_eq!(rect.right, -1);
    assert_eq!(rect.bottom, i32::MIN);
    assert_eq!(rect.right, u32::MAX as i32);
}

#[test]
fn reinterpret_matches_the_cast() {
    for value in [0u32, 1, 0x7fff_ffff, 0x8000_0000, 0x8000_0001, 0xffff_fffe, u32::MAX] {
        assert_eq!(reinterpret_i32(value), value as i32);
    }
}

#[test]
fn window_size_is_the_extent_of_the_adjusted_rect() {
    let adjusted = Rect { left: -8, top: -31, right: 808, bottom: 608 };
    assert_eq!(window_size(adjusted), Some((816, 639)));
    assert_eq!(adjusted.extent(), Some((816, 639)));
}

#[test]
fn window_size_of_an_inverted_rect_is_negative() {
    let rect = Rect { left: 10, top: 20, right: 4, bottom: 5 };
    assert_eq!(window_size(rect), Some((-6, -15)));
}

#[test]
fn window_size_that_does_not_fit_is_none() {
    assert_eq!(window_size(Rect { left: -1, top: 0, right: i32::MAX, bottom: 1 }), None);
    assert_eq!(window_size(Rect { left: 0, top: 1, right: 1, bottom: i32::MIN }), None);
    assert_eq!(
        window_size(Rect { left: 0, top: 0, right: i32::MAX, bottom: i32::MAX }),
        Some((i32::MAX, i32::MAX))
    );
    assert_eq!(
        window_size(Rect { left: 0, top: 0, right: i32::MIN, bottom: i32::MIN }),
        Some((i32::MIN, i32::MIN))
    );
}

#[test]
fn pumping_stops_on_zero_only() {
    assert!(!keeps_pumping(0));
    assert!(keeps_pumping(1));
    assert!(keeps_pumping(-1));
    assert!(keeps_pumping(i32::MIN));
}

#[test]
fn quit_code_is_the_low_half_of_the_parameter() {
    assert_eq!(quit_code(0), 0);
    assert_eq!(quit_code(1), 1);
    assert_eq!(quit_code(0x7fff_ffff), i32::MAX);
    assert_eq!(quit_code(0x8000_0000), i32::MIN);
    assert_eq!(quit_code(0xffff_ffff), -1);
    for value in [0usize, 3, 0x8000_0001, 0xffff_fff0, usize::MAX] {
        assert_eq!(quit_code(value), value as i32);
    }
}

#[test]
fn reinterpret_unsigned_matches_the_cast() {
    for value in [0i32, 1, -1, i32::MAX, i32::MIN, i32::MIN + 1, -2, 12345] {
        assert_eq!(reinterpret_u32(value), value as u32);
    }
    assert_eq!(reinterpret_u32(-1), u32::MAX);
    assert_eq!(reinterpret_u32(i32::MIN), 0x8000_0000);
}

#[test]
fn reinterpret_round_trips() {
    for value in [0u32, 1, 0x7fff_ffff, 0x8000_0000, 0xdead_beef, u32::MAX] {
        assert_eq!(reinterpret_u32(reinterpret_i32(value)), value);
    }
}

#[test]
fn texel_offset_of_a_point() {
    assert_eq!(Point { x: 16, y: 32 }.texel_offset(), (16, 32));
    assert_eq!(Point { x: 0, y: 0 }.texel_offset(), (0, 0));
    assert_eq!(Point { x: -1, y: i32::MIN }.texel_offset(), (u32::MAX, 0x8000_0000));
}
