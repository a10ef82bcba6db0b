use centered_engine::event::{
    Event, EventBatch, EventDispatcher, Key, Modifiers, MouseButton, WidgetId,
};

#[test]
fn test_event_batch() {
    let mut batch = EventBatch::new(1);
    assert!(batch.is_empty());

    batch.push(Event::WindowClose);
    assert_eq!(batch.len(), 1);
}

#[test]
fn test_event_dispatcher() {
    let mut dispatcher = EventDispatcher::new();
    dispatcher.begin_frame();

    dispatcher.push_event(Event::WindowClose);
    assert_eq!(dispatcher.current_batch().len(), 1);

    let batch = dispatcher.take_batch();
    assert_eq!(batch.len(), 1);
    assert_eq!(dispatcher.current_batch().len(), 0);
}

#[test]
fn test_focus_tracking() {
    let mut dispatcher = EventDispatcher::new();
    assert_eq!(dispatcher.focused_widget(), None);

    let widget_id = WidgetId::from_ffi(1);
    dispatcher.set_focused_widget(Some(widget_id));
    assert_eq!(dispatcher.focused_widget(), Some(widget_id));
}

#[test]
fn batch_clear_keeps_frame_number() {
    let mut batch = EventBatch::new(7);
    batch.push(Event::Quit);
    batch.push(Event::WindowResize { width: 800, height: 600 });
    assert_eq!(batch.len(), 2);
    batch.clear();
    assert!(batch.is_empty());
    assert_eq!(batch.frame_number, 7);
}

#[test]
fn frames_advance_and_batches_follow() {
    let mut d = EventDispatcher::default();
    assert_eq!(d.frame_number(), 0);
    d.begin_frame();
    d.begin_frame();
    assert_eq!(d.frame_number(), 2);
    assert_eq!(d.current_batch().frame_number, 2);
    d.push_event(Event::KeyDown { key: Key::A, modifiers: Modifiers::default() });
    let b = d.take_batch();
    assert_eq!(b.frame_number, 2);
    assert_eq!(b.len(), 1);
    assert_eq!(d.current_batch().frame_number, 2);
    assert!(d.current_batch().is_empty());
}

#[test]
fn hover_and_press_follow_mouse_events() {
    let mut d = EventDispatcher::new();
    let w = WidgetId::from_ffi(5);
    d.push_event(Event::MouseMove { x_bits: 0, y_bits: 0, widget: Some(w) });
    assert_eq!(d.hovered_widget(), Some(w));
    d.push_event(Event::MouseDown { x_bits: 0, y_bits: 0, button: MouseButton::Left, widget: Some(w) });
    d.push_event(Event::MouseUp { x_bits: 0, y_bits: 0, button: MouseButton::Left, widget: Some(w) });
    d.push_event(Event::MouseMove { x_bits: 0, y_bits: 0, widget: None });
    assert_eq!(d.hovered_widget(), None);
    assert_eq!(d.current_batch().len(), 4);
}

#[test]
fn focus_change_emits_lost_then_gained() {
    let mut d = EventDispatcher::new();
    let a = WidgetId::from_ffi(1);
    let b = WidgetId::from_ffi(2);
    d.set_focused_widget(Some(a));
    assert_eq!(d.current_batch().len(), 1);
    assert!(matches!(d.current_batch().events[0], Event::FocusGained { widget } if widget == a));

    // Same widget again: nothing happens.
    d.set_focused_widget(Some(a));
    assert_eq!(d.current_batch().len(), 1);

    d.set_focused_widget(Some(b));
    assert_eq!(d.current_batch().len(), 3);
    assert!(matches!(d.current_batch().events[1], Event::FocusLost { widget } if widget == a));
    assert!(matches!(d.current_batch().events[2], Event::FocusGained { widget } if widget == b));
    assert_eq!(d.focused_widget(), Some(b));

    d.set_focused_widget(None);
    assert_eq!(d.current_batch().len(), 4);
    assert!(matches!(d.current_batch().events[3], Event::FocusLost { widget } if widget == b));
    assert_eq!(d.focused_widget(), None);
}

#[test]
fn focus_events_pushed_directly_move_focus() {
    let mut d = EventDispatcher::new();
    let w = WidgetId::from_ffi(9);
    d.push_event(Event::FocusGained { widget: w });
    assert_eq!(d.focused_widget(), Some(w));
    d.push_event(Event::FocusLost { widget: w });
    assert_eq!(d.focused_widget(), None);
}

#[test]
fn modifiers_default_is_none_held() {
    let m = Modifiers::default();
    assert!(!m.shift && !m.ctrl && !m.alt && !m.meta);
}
