use crossterm::event::{KeyCode, KeyEvent, KeyModifiers, MouseButton, MouseEventKind};
use flt_terminal::event::{normalize_event_height, Event, MouseEvent};
use flt_terminal::geometry::size_for_terminal;

fn mouse(kind: MouseEventKind, column: u16, row: u16, modifiers: KeyModifiers) -> Event {
    Event::Mouse(MouseEvent { kind, column, row, modifiers })
}

#[test]
fn resize_loses_the_log_region_and_is_doubled() {
    assert_eq!(normalize_event_height(Event::Resize(80, 24)), Event::Resize(80, 40));
    assert_eq!(normalize_event_height(Event::Resize(132, 5)), Event::Resize(132, 2));
    assert_eq!(normalize_event_height(Event::Resize(1, 1000)), Event::Resize(1, 1992));
}

#[test]
fn resize_of_every_ordinary_height_follows_the_formula() {
    for rows in 5u16..=2000 {
        assert_eq!(
            normalize_event_height(Event::Resize(80, rows)),
            Event::Resize(80, 2 * (rows - 4))
        );
    }
}

#[test]
fn resize_within_the_log_region_has_no_rows() {
    for rows in 0u16..=4 {
        assert_eq!(normalize_event_height(Event::Resize(80, rows)), Event::Resize(80, 0));
    }
}

#[test]
fn resize_beyond_the_largest_row_stops_there() {
    assert_eq!(normalize_event_height(Event::Resize(80, 32771)), Event::Resize(80, 65534));
    assert_eq!(normalize_event_height(Event::Resize(80, 32772)), Event::Resize(80, 65535));
    assert_eq!(normalize_event_height(Event::Resize(80, 65535)), Event::Resize(80, 65535));
}

#[test]
fn resize_keeps_its_columns() {
    for columns in [0u16, 1, 80, 65535] {
        match normalize_event_height(Event::Resize(columns, 30)) {
            Event::Resize(normalized, _) => assert_eq!(normalized, columns),
            other => panic!("a resize became {:?}", other),
        }
    }
}

#[test]
fn mouse_row_is_doubled() {
    let normalized =
        normalize_event_height(mouse(MouseEventKind::Moved, 17, 9, KeyModifiers::NONE));
    assert_eq!(normalized, mouse(MouseEventKind::Moved, 17, 18, KeyModifiers::NONE));
}

#[test]
fn mouse_event_keeps_every_other_field() {
    let kinds = [
        MouseEventKind::Down(MouseButton::Left),
        MouseEventKind::Up(MouseButton::Right),
        MouseEventKind::Drag(MouseButton::Middle),
        MouseEventKind::Moved,
        MouseEventKind::ScrollDown,
        MouseEventKind::ScrollUp,
    ];
    let modifiers = [
        KeyModifiers::NONE,
        KeyModifiers::CONTROL,
        KeyModifiers::SHIFT | KeyModifiers::ALT,
    ];
    for kind in kinds {
        for held in modifiers {
            for row in [0u16, 1, 23, 500] {
                let normalized = normalize_event_height(mouse(kind, 41, row, held));
                assert_eq!(normalized, mouse(kind, 41, 2 * row, held));
            }
        }
    }
}

#[test]
fn mouse_row_beyond_the_largest_row_stops_there() {
    let normalized = normalize_event_height(mouse(
        MouseEventKind::ScrollUp,
        3,
        40000,
        KeyModifiers::CONTROL,
    ));
    assert_eq!(normalized, mouse(MouseEventKind::ScrollUp, 3, 65535, KeyModifiers::CONTROL));
}

#[test]
fn key_event_passes_through() {
    let key = KeyEvent::new(KeyCode::Char('r'), KeyModifiers::CONTROL);
    assert_eq!(normalize_event_height(Event::Key(key)), Event::Key(key));
    let help = KeyEvent::new(KeyCode::Char('?'), KeyModifiers::NONE);
    assert_eq!(normalize_event_height(Event::Key(help)), Event::Key(help));
}

#[test]
fn focus_and_paste_pass_through() {
    assert_eq!(normalize_event_height(Event::FocusGained), Event::FocusGained);
    assert_eq!(normalize_event_height(Event::FocusLost), Event::FocusLost);
    assert_eq!(
        normalize_event_height(Event::Paste(String::from("pasted text"))),
        Event::Paste(String::from("pasted text"))
    );
}

#[test]
fn size_after_a_resize_is_what_the_event_says() {
    for (columns, rows) in [(80u16, 24u16), (1, 4), (200, 0), (132, 43), (10, 32771)] {
        match normalize_event_height(Event::Resize(columns, rows)) {
            Event::Resize(external_columns, external_rows) => assert_eq!(
                size_for_terminal(columns, rows),
                (external_columns as usize, external_rows as usize)
            ),
            other => panic!("a resize became {:?}", other),
        }
    }
}
