use desktop_shell::chrome_geometry::{
    band_hit_test, borderless_style, helper_hit_test, helper_placement, owner_hit_test, point_from_lparam, HitZone,
    Placement, Rect,
};
use desktop_shell::chrome_messages::{
    helper_message_action, owner_message_action, resize_zone_from_code, HelperAction, OwnerAction, WM_DESTROY,
    WM_ERASEBKGND, WM_MOUSEACTIVATE, WM_MOVE, WM_NCCALCSIZE, WM_NCCREATE, WM_NCHITTEST, WM_NCLBUTTONDOWN,
    WM_SHOWWINDOW, WM_SIZE,
};
use desktop_shell::chrome_registry::{
    state_map, ChromeState, DwmAttribute, HybridChromeHandle, Options, TeardownStep, DWMWA_SYSTEMBACKDROP_TYPE,
    DWMWA_USE_IMMERSIVE_DARK_MODE,
};

fn helper_rect() -> Rect {
    Rect { left: 92, top: 92, right: 1308, bottom: 908 }
}

#[test]
fn band_edges_classify_as_that_edge() {
    let r = helper_rect();
    assert_eq!(helper_hit_test(r, 95, 500), HitZone::Left);
    assert_eq!(helper_hit_test(r, 1305, 500), HitZone::Right);
    assert_eq!(helper_hit_test(r, 700, 99), HitZone::Top);
    assert_eq!(helper_hit_test(r, 700, 900), HitZone::Bottom);
}

#[test]
fn band_corners_classify_as_corner() {
    let r = helper_rect();
    assert_eq!(helper_hit_test(r, 93, 93), HitZone::TopLeft);
    assert_eq!(helper_hit_test(r, 1307, 93), HitZone::TopRight);
    assert_eq!(helper_hit_test(r, 93, 907), HitZone::BottomLeft);
    assert_eq!(helper_hit_test(r, 1307, 907), HitZone::BottomRight);
}

#[test]
fn band_interior_is_no_hit() {
    let r = helper_rect();
    assert_eq!(helper_hit_test(r, 100, 100), HitZone::Nowhere);
    assert_eq!(helper_hit_test(r, 700, 500), HitZone::Nowhere);
    assert_eq!(helper_hit_test(r, 1299, 899), HitZone::Nowhere);
    assert_eq!(HitZone::Nowhere.code(), -1);
}

#[test]
fn band_boundaries_are_exact() {
    let r = Rect { left: 0, top: 0, right: 100, bottom: 100 };
    assert_eq!(band_hit_test(r, 8, 7, 50), HitZone::Left);
    assert_eq!(band_hit_test(r, 8, 8, 50), HitZone::Nowhere);
    assert_eq!(band_hit_test(r, 8, 92, 50), HitZone::Right);
    assert_eq!(band_hit_test(r, 8, 91, 50), HitZone::Nowhere);
}

#[test]
fn band_far_coordinates_do_not_overflow() {
    let r = Rect { left: i32::MAX - 10, top: i32::MIN, right: i32::MAX, bottom: i32::MIN + 100 };
    assert_eq!(band_hit_test(r, i32::MAX, 0, 0), HitZone::BottomLeft);
}

#[test]
fn owner_frame_caption_and_client() {
    let r = Rect { left: 100, top: 100, right: 1300, bottom: 900 };
    assert_eq!(owner_hit_test(r, 36, 101, 500), HitZone::Left);
    assert_eq!(owner_hit_test(r, 36, 101, 101), HitZone::TopLeft);
    assert_eq!(owner_hit_test(r, 36, 600, 110), HitZone::Caption);
    assert_eq!(owner_hit_test(r, 36, 600, 135), HitZone::Caption);
    assert_eq!(owner_hit_test(r, 36, 600, 136), HitZone::Client);
    assert_eq!(owner_hit_test(r, 36, 600, 896), HitZone::Bottom);
    assert_eq!(HitZone::Caption.code(), 2);
    assert_eq!(HitZone::Client.code(), 1);
}

#[test]
fn hit_codes_and_directions() {
    assert_eq!(HitZone::Left.code(), 10);
    assert_eq!(HitZone::BottomRight.code(), 17);
    assert_eq!(HitZone::TopLeft.sizing_direction(), Some(4));
    assert_eq!(HitZone::Bottom.sizing_direction(), Some(6));
    assert_eq!(HitZone::Caption.sizing_direction(), None);
}

#[test]
fn helper_placement_grows_owner_by_band() {
    let owner = Rect { left: 100, top: 50, right: 1300, bottom: 850 };
    assert_eq!(helper_placement(owner), Some(Placement { x: 92, y: 42, width: 1216, height: 816 }));
}

#[test]
fn helper_placement_out_of_range_is_none() {
    let owner = Rect { left: i32::MIN, top: 0, right: 10, bottom: 10 };
    assert_eq!(helper_placement(owner), None);
}

#[test]
fn borderless_style_drops_caption_keeps_frame() {
    assert_eq!(borderless_style(0x00CF_0000), 0x000F_0000);
    assert_eq!(borderless_style(0x1000_0000), 0x100F_0000);
    assert_eq!(borderless_style(0x00C0_0001), 0x000F_0001);
    assert_eq!(borderless_style(0), 0x000F_0000);
}

#[test]
fn install_then_uninstall_restores_and_destroys() {
    let mut table = state_map();
    table.install(42, ChromeState { prev_wndproc: 0x7000, caption_height_px: 36, helper_hwnd: 77 });
    assert_eq!(table.lookup(42).map(|s| s.prev_wndproc), Some(0x7000));
    let steps = table.uninstall(42);
    assert_eq!(
        steps,
        vec![TeardownStep::RestoreWndProc { hwnd: 42, wndproc: 0x7000 }, TeardownStep::DestroyWindow { hwnd: 77 }]
    );
    assert_eq!(table.lookup(42), None);
}

#[test]
fn uninstall_twice_is_a_no_op() {
    let mut table = state_map();
    table.install(5, ChromeState { prev_wndproc: 11, caption_height_px: 0, helper_hwnd: 12 });
    assert_eq!(table.uninstall(5).len(), 2);
    assert!(table.uninstall(5).is_empty());
}

#[test]
fn uninstall_without_helper_only_restores() {
    let mut table = state_map();
    table.install(5, ChromeState { prev_wndproc: 11, caption_height_px: 0, helper_hwnd: 0 });
    assert_eq!(table.uninstall(5), vec![TeardownStep::RestoreWndProc { hwnd: 5, wndproc: 11 }]);
}

#[test]
fn uninstall_leaves_other_windows() {
    let mut table = state_map();
    let a = ChromeState { prev_wndproc: 1, caption_height_px: 36, helper_hwnd: 2 };
    let b = ChromeState { prev_wndproc: 3, caption_height_px: 36, helper_hwnd: 4 };
    table.install(10, a);
    table.install(20, b);
    table.uninstall(10);
    assert_eq!(table.lookup(20), Some(b));
    assert_eq!(table.lookup(10), None);
}

#[test]
fn options_and_handle() {
    let o = Options::with_caption_height(36);
    assert_eq!(o.caption_height_px, 36);
    assert!(o.enable_dark_caption);
    assert_eq!(o.backdrop, Some(1));
    assert_eq!(HybridChromeHandle::new(99).hwnd(), 99);
}

#[test]
fn owner_messages_route() {
    assert_eq!(owner_message_action(WM_NCCALCSIZE, 1), OwnerAction::ClientFillsWindow);
    assert_eq!(owner_message_action(WM_NCCALCSIZE, 0), OwnerAction::Forward);
    assert_eq!(owner_message_action(WM_SHOWWINDOW, 0), OwnerAction::SyncHelper { show: Some(false) });
    assert_eq!(owner_message_action(WM_SHOWWINDOW, 1), OwnerAction::SyncHelper { show: Some(true) });
    assert_eq!(owner_message_action(WM_MOVE, 0), OwnerAction::SyncHelper { show: None });
    assert_eq!(owner_message_action(WM_SIZE, 3), OwnerAction::SyncHelper { show: None });
    assert_eq!(owner_message_action(WM_DESTROY, 0), OwnerAction::TearDown);
    assert_eq!(owner_message_action(WM_NCHITTEST, 0), OwnerAction::HitTest);
    assert_eq!(owner_message_action(0x0100, 0), OwnerAction::Forward);
}

#[test]
fn helper_messages_route() {
    assert_eq!(helper_message_action(WM_NCCREATE, 0), HelperAction::StashOwner);
    assert_eq!(helper_message_action(WM_ERASEBKGND, 0), HelperAction::SkipErase);
    assert_eq!(helper_message_action(WM_NCHITTEST, 0), HelperAction::HitTest);
    assert_eq!(helper_message_action(WM_MOUSEACTIVATE, 0), HelperAction::NoActivate);
    assert_eq!(helper_message_action(WM_NCLBUTTONDOWN, 13), HelperAction::StartResize { command: 0xF004 });
    assert_eq!(helper_message_action(WM_NCLBUTTONDOWN, 17), HelperAction::StartResize { command: 0xF008 });
    assert_eq!(helper_message_action(WM_NCLBUTTONDOWN, 2), HelperAction::Default);
    assert_eq!(helper_message_action(0x0200, 0), HelperAction::Default);
    assert_eq!(resize_zone_from_code(10), Some(HitZone::Left));
    assert_eq!(resize_zone_from_code(18), None);
}

#[test]
fn failed_subclass_records_nothing_and_destroys_helper() {
    let mut table = state_map();
    let r = table.record_install(8, ChromeState { prev_wndproc: 0, caption_height_px: 36, helper_hwnd: 9 });
    assert_eq!(r, Err(vec![TeardownStep::DestroyWindow { hwnd: 9 }]));
    assert_eq!(table.lookup(8), None);
}

#[test]
fn successful_subclass_is_recorded() {
    let mut table = state_map();
    let st = ChromeState { prev_wndproc: 0x4000, caption_height_px: 36, helper_hwnd: 9 };
    assert_eq!(table.record_install(8, st), Ok(()));
    assert_eq!(table.lookup(8), Some(st));
}

#[test]
fn usual_options_set_dark_caption_then_backdrop() {
    let o = Options::with_caption_height(36);
    assert_eq!(
        o.dwm_attributes(),
        vec![
            DwmAttribute { attribute: DWMWA_USE_IMMERSIVE_DARK_MODE, value: 1 },
            DwmAttribute { attribute: DWMWA_SYSTEMBACKDROP_TYPE, value: 1 },
        ]
    );
    let plain = Options { caption_height_px: 0, enable_dark_caption: false, backdrop: None };
    assert!(plain.dwm_attributes().is_empty());
    let acrylic = Options { caption_height_px: 0, enable_dark_caption: false, backdrop: Some(2) };
    assert_eq!(acrylic.dwm_attributes(), vec![DwmAttribute { attribute: 38, value: 2 }]);
}

#[test]
fn lparam_words_decode_signed() {
    assert_eq!(point_from_lparam(0x012C_FFFB), (-5, 300));
    assert_eq!(point_from_lparam(0x0000_0000_0064_00C8), (200, 100));
    assert_eq!(point_from_lparam((-1i64) as u64), (-1, -1));
    assert_eq!(point_from_lparam(0x8000_7FFF), (32767, -32768));
}
