use stonks_terminal::keys::{
    down_event, high_event, left_event, low_event, middle_event, on_down_press_handler,
    on_high_press_handler, on_low_press_handler, on_middle_press_handler, on_up_press_handler,
    right_event, up_event, Key,
};

#[test]
fn test_on_down_press_handler() {
    let data = vec!["Choice 1", "Choice 2", "Choice 3"];

    let index = 0;
    let next_index = on_down_press_handler(&data, Some(index));

    assert_eq!(next_index, 1);

    // Selection wrap if on last item
    let index = data.len() - 1;
    let next_index = on_down_press_handler(&data, Some(index));
    assert_eq!(next_index, 0);
}

#[test]
fn test_on_up_press_handler() {
    let data = vec!["Choice 1", "Choice 2", "Choice 3"];

    let index = data.len() - 1;
    let next_index = on_up_press_handler(&data, Some(index));

    assert_eq!(next_index, index - 1);

    // Selection wrap if on first item
    let index = 0;
    let next_index = on_up_press_handler(&data, Some(index));
    assert_eq!(next_index, data.len() - 1);
}

#[test]
fn press_handlers_without_selection_or_items() {
    let empty: Vec<&str> = vec![];
    let data = vec!["a", "b"];
    assert_eq!(on_down_press_handler(&data, None), 0);
    assert_eq!(on_up_press_handler(&data, None), 0);
    assert_eq!(on_down_press_handler(&empty, Some(3)), 0);
    assert_eq!(on_up_press_handler(&empty, Some(3)), 0);
    assert_eq!(on_down_press_handler(&data, Some(usize::MAX)), 0);
}

#[test]
fn middle_low_and_high_presses() {
    assert_eq!(on_middle_press_handler(&[1, 2, 3]), 1);
    assert_eq!(on_middle_press_handler(&[1, 2, 3, 4]), 1);
    assert_eq!(on_middle_press_handler(&[1]), 0);
    assert_eq!(on_low_press_handler(&[1, 2, 3, 4]), 3);
    assert_eq!(on_high_press_handler(), 0);
}

#[test]
fn key_predicates() {
    assert!(down_event(Key::Down) && down_event(Key::Char('j')) && down_event(Key::Ctrl('n')));
    assert!(!down_event(Key::Char('n')));
    assert!(up_event(Key::Up) && up_event(Key::Char('k')) && up_event(Key::Ctrl('p')));
    assert!(!up_event(Key::Down));
    assert!(left_event(Key::Left) && left_event(Key::Char('h')) && left_event(Key::Ctrl('b')));
    assert!(right_event(Key::Right) && right_event(Key::Char('l')) && right_event(Key::Ctrl('f')));
    assert!(!right_event(Key::Char('L')));
    assert!(high_event(Key::Char('H')) && !high_event(Key::Char('h')));
    assert!(middle_event(Key::Char('M')) && !middle_event(Key::Ctrl('M')));
    assert!(low_event(Key::Char('L')) && !low_event(Key::Alt('L')));
}

#[test]
fn default_key_bindings() {
    let keys = stonks_terminal::config::KeyBindings::default();
    assert_eq!(keys.back, Key::Char('q'));
    assert_eq!(keys.next_page, Key::Ctrl('d'));
    assert_eq!(keys.previous_page, Key::Ctrl('u'));
    assert_eq!(keys.search, Key::Char('/'));
    assert_eq!(keys.submit, Key::Enter);
    assert_eq!(keys.basic_view, Key::Char('B'));
}
