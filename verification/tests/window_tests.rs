use centered_engine::app_event::{
    key_events, keycode_to_u32, modifier_flags, mouse_button_index, touch_events, AppEventType,
    KeyCode, PointerButton, TouchPhase, MOD_ALT, MOD_CTRL, MOD_SHIFT, MOD_SUPER,
};
use centered_engine::frame::{
    after_frame, border_is_dark, compose_layers, frame_commands, frame_window_commands, layer_order,
    on_wake, pack_rgba, plan_frame, schedule_redraw, unpack_rgba, Color, LoopAction,
};
use centered_engine::render::RenderOp;
use centered_engine::tray::{
    add_menu_item, clear_menu, create, destroy, is_visible, process_events, set_callback,
    set_menu_item_checked, set_menu_item_enabled, set_menu_item_label, set_visible, TrayBuild,
    TrayIcon,
};

#[test]
fn tray_create_and_visibility() {
    let mut t: TrayIcon<u8> = TrayIcon::new();
    assert!(!t.is_created());
    assert_eq!(is_visible(&t), 0);
    assert_eq!(create(&mut t, TrayBuild::IconFailed), -3);
    assert_eq!(create(&mut t, TrayBuild::BuildFailed), -2);
    assert!(!t.is_created());
    assert_eq!(create(&mut t, TrayBuild::Built), 0);
    assert_eq!(is_visible(&t), 1);
    assert_eq!(create(&mut t, TrayBuild::Built), 1);
    assert!(set_visible(&mut t, 0));
    assert_eq!(is_visible(&t), 0);
    destroy(&mut t);
    assert!(!t.is_created());
    assert!(!set_visible(&mut t, 1));
}

#[test]
fn tray_menu_items_and_clicks() {
    let mut t: TrayIcon<u8> = TrayIcon::new();
    assert_eq!(add_menu_item(&mut t, Some("x".to_string()), 1, 0, 0), -1);
    create(&mut t, TrayBuild::Built);
    assert_eq!(add_menu_item(&mut t, Some("Open".to_string()), 1, 0, 0), 0);
    assert_eq!(add_menu_item(&mut t, None, 1, 0, 1), 1); // separator
    assert_eq!(add_menu_item(&mut t, Some("Quit".to_string()), 1, 0, 0), 2);
    assert_eq!(add_menu_item(&mut t, None, 0, 0, 0), 3);

    // Without a callback, clicks call nothing.
    assert!(process_events(&t, &vec![0, 2]).is_empty());
    set_callback(&mut t, 7u8);
    let calls = process_events(&t, &vec![2, 5, 0]);
    assert_eq!(calls, vec![(7u8, 2), (7u8, 0)]);

    assert!(set_menu_item_enabled(&mut t, 2, 0));
    assert!(!set_menu_item_enabled(&mut t, 4, 0));
    assert!(!set_menu_item_enabled(&mut t, -1, 0));
    assert!(set_menu_item_label(&mut t, 0, Some("Show".to_string())));
    assert!(!set_menu_item_label(&mut t, 0, None));
    set_menu_item_checked(&mut t, 0, 1);

    clear_menu(&mut t);
    assert!(process_events(&t, &vec![0]).is_empty());
    assert_eq!(add_menu_item(&mut t, Some("Again".to_string()), 1, 0, 0), 0);
}

#[test]
fn keycodes_are_stable() {
    assert_eq!(keycode_to_u32(KeyCode::KeyA), 0);
    assert_eq!(keycode_to_u32(KeyCode::KeyZ), 25);
    assert_eq!(keycode_to_u32(KeyCode::Digit0), 26);
    assert_eq!(keycode_to_u32(KeyCode::F12), 47);
    assert_eq!(keycode_to_u32(KeyCode::Space), 62);
    assert_eq!(keycode_to_u32(KeyCode::Numpad0), 100);
    assert_eq!(keycode_to_u32(KeyCode::ShiftLeft), 200);
    assert_eq!(keycode_to_u32(KeyCode::ContextMenu), 305);
    assert_eq!(keycode_to_u32(KeyCode::Unidentified), 999);
}

#[test]
fn app_event_codes() {
    assert_eq!(AppEventType::Ready.code(), 0);
    assert_eq!(AppEventType::KeyPressed.code(), 7);
    assert_eq!(AppEventType::CharInput.code(), 9);
    assert_eq!(AppEventType::KeyboardFrameChanged.code(), 13);
}

#[test]
fn modifiers_and_buttons() {
    assert_eq!(modifier_flags(false, false, false, false), 0);
    assert_eq!(modifier_flags(true, false, true, false), MOD_SHIFT | MOD_ALT);
    assert_eq!(modifier_flags(true, true, true, true), MOD_SHIFT | MOD_CTRL | MOD_ALT | MOD_SUPER);
    assert_eq!(modifier_flags(false, true, false, true), 10);
    assert_eq!(mouse_button_index(PointerButton::Left), 0);
    assert_eq!(mouse_button_index(PointerButton::Forward), 4);
    assert_eq!(mouse_button_index(PointerButton::Other(9)), 9);
}

#[test]
fn touches_act_as_left_button() {
    assert_eq!(
        touch_events(TouchPhase::Started),
        vec![AppEventType::MouseMoved, AppEventType::MousePressed]
    );
    assert_eq!(touch_events(TouchPhase::Moved), vec![AppEventType::MouseMoved]);
    assert_eq!(
        touch_events(TouchPhase::Cancelled),
        vec![AppEventType::MouseMoved, AppEventType::MouseReleased]
    );
}

#[test]
fn key_events_with_text() {
    assert_eq!(
        key_events(true, 0, Some("aé")),
        vec![
            (AppEventType::KeyPressed, 0),
            (AppEventType::CharInput, 'a' as u32),
            (AppEventType::CharInput, 'é' as u32),
        ]
    );
    assert_eq!(key_events(false, 5, Some("x")), vec![(AppEventType::KeyReleased, 5)]);
    assert_eq!(key_events(true, 61, None), vec![(AppEventType::KeyPressed, 61)]);
}

#[test]
fn colors_pack_and_unpack() {
    let c = Color { r: 0x11, g: 0x22, b: 0x33, a: 0x44 };
    assert_eq!(pack_rgba(c), 0x1122_3344);
    assert_eq!(unpack_rgba(0x1122_3344), c);
    assert_eq!(unpack_rgba(pack_rgba(Color { r: 255, g: 0, b: 7, a: 128 })), Color { r: 255, g: 0, b: 7, a: 128 });
}

#[test]
fn redraw_scheduling_keeps_earliest() {
    assert_eq!(schedule_redraw(None, 1000, 0), None);
    assert_eq!(schedule_redraw(None, 1000, 16), Some(1016));
    assert_eq!(schedule_redraw(Some(1010), 1000, 16), Some(1010));
    assert_eq!(schedule_redraw(Some(1100), 1000, 16), Some(1016));
    assert_eq!(schedule_redraw(Some(1100), 1000, 0), Some(1100));
}

#[test]
fn loop_decisions() {
    assert_eq!(after_frame(true, Some(5), 10), (LoopAction::RedrawAndPoll, None));
    assert_eq!(after_frame(false, Some(5), 10), (LoopAction::Redraw, None));
    assert_eq!(after_frame(false, Some(50), 10), (LoopAction::WaitUntil(50), Some(50)));
    assert_eq!(after_frame(false, None, 10), (LoopAction::Wait, None));
    assert_eq!(on_wake(true, Some(5), 10), (true, None));
    assert_eq!(on_wake(true, Some(50), 10), (false, Some(50)));
    assert_eq!(on_wake(false, Some(5), 10), (false, Some(5)));
}

#[test]
fn layers_sorted_stably_by_z() {
    assert_eq!(layer_order(&vec![3, 1, 2, 1]), vec![1, 3, 2, 0]);
    assert_eq!(layer_order(&vec![]), Vec::<usize>::new());
    assert_eq!(layer_order(&vec![-1, -1, -5]), vec![2, 0, 1]);
}

#[test]
fn dark_border_choice() {
    assert!(border_is_dark(1, false));
    assert!(border_is_dark(2, true));
    assert!(!border_is_dark(2, false));
    assert!(!border_is_dark(0, true));
}

fn rect() -> RenderOp {
    RenderOp::PushClip { x_bits: 0, y_bits: 0, width_bits: 0, height_bits: 0 }
}

#[test]
fn frameless_window_decoration() {
    let w = 800.0f32.to_bits();
    let h = 600.0f32.to_bits();
    let radius = 10.0f32.to_bits();
    let cmds = vec![RenderOp::Clear { r: 1, g: 2, b: 3, a: 255 }, rect()];
    let out = frame_window_commands(
        cmds,
        false,
        w,
        h,
        radius,
        vec![RenderOp::SetOpacity { opacity_bits: 0 }],
        RenderOp::EndScrollView,
    );
    assert_eq!(out.len(), 7);
    assert!(matches!(out[0], RenderOp::Clear { r: 0, g: 0, b: 0, a: 0 }));
    match out[1] {
        RenderOp::PushRoundedClip { width_bits, height_bits, corner_radii, .. } => {
            assert_eq!((width_bits, height_bits), (w, h));
            assert_eq!(corner_radii, (radius, radius, radius, radius));
        }
        _ => panic!("expected the rounded clip"),
    }
    match out[2] {
        RenderOp::DrawRect { color, width_bits, .. } => {
            assert_eq!(color, 0x010203FF);
            assert_eq!(width_bits, w);
        }
        _ => panic!("expected the background"),
    }
    assert!(matches!(out[3], RenderOp::PushClip { .. }));
    assert!(matches!(out[4], RenderOp::SetOpacity { .. }));
    assert!(matches!(out[5], RenderOp::PopClip));
    assert!(matches!(out[6], RenderOp::EndScrollView));
}

#[test]
fn decorated_or_empty_frames_are_untouched() {
    let out = frame_window_commands(vec![rect()], true, 0, 0, 0, vec![], RenderOp::PopClip);
    assert_eq!(out.len(), 1);
    let out = frame_window_commands(vec![], false, 0, 0, 0, vec![], RenderOp::PopClip);
    assert!(out.is_empty());
    // Without a clear: the clip goes first and no background is drawn.
    let out = frame_window_commands(vec![rect()], false, 0, 0, 0, vec![], RenderOp::EndScrollView);
    assert_eq!(out.len(), 4);
    assert!(matches!(out[0], RenderOp::PushRoundedClip { .. }));
    assert!(matches!(out[1], RenderOp::PushClip { .. }));
}

fn opacity(n: u32) -> RenderOp {
    RenderOp::SetOpacity { opacity_bits: n }
}

fn opacities(v: &[RenderOp]) -> Vec<u32> {
    v.iter()
        .map(|op| match op {
            RenderOp::SetOpacity { opacity_bits } => *opacity_bits,
            _ => panic!("expected opacity commands"),
        })
        .collect()
}

#[test]
fn layers_are_joined_in_drawing_order() {
    let layers = vec![
        (2, vec![opacity(20), opacity(21)]),
        (0, vec![opacity(0)]),
        (2, vec![opacity(22)]),
        (-1, vec![]),
        (1, vec![opacity(10)]),
    ];
    assert_eq!(opacities(&compose_layers(layers)), vec![0, 10, 20, 21, 22]);
    assert!(compose_layers(vec![]).is_empty());
}

#[test]
fn frame_sources() {
    // Layers win over immediate commands.
    let c = frame_commands(Some(Some(vec![(0, vec![opacity(1)])])), Some(Some(vec![opacity(9)])));
    assert_eq!(opacities(&c), vec![1]);
    // Unreadable layers draw nothing, even with immediate commands.
    assert!(frame_commands(Some(None), Some(Some(vec![opacity(9)]))).is_empty());
    assert_eq!(opacities(&frame_commands(None, Some(Some(vec![opacity(9)])))), vec![9]);
    assert!(frame_commands(None, Some(None)).is_empty());
    assert!(frame_commands(None, None).is_empty());
}

#[test]
fn frame_plans() {
    let p = plan_frame(None, None, true, 0, 0, 0, vec![], RenderOp::PopClip, true);
    assert!(!p.render && p.request_redraw && p.commands.is_empty());
    let p = plan_frame(None, Some(Some(vec![opacity(3)])), false, 0, 0, 0, vec![], RenderOp::PopClip, false);
    assert!(p.render && !p.request_redraw);
    assert_eq!(p.commands.len(), 4);
    assert!(matches!(p.commands[0], RenderOp::PushRoundedClip { .. }));
}
