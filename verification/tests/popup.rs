use browser_chooser::effect::{after_spawn, Effect, SpawnOutcome};
use browser_chooser::entry::{default_browsers, Browser};
use browser_chooser::event::{Action, Event, MouseEvent, Position, WindowEvent};
use browser_chooser::popup::BrowserList;
use browser_chooser::render::{new_button, Button, Length};

fn window(event: WindowEvent) -> Action {
    Action::HandleWindowEvent(event)
}

fn cursor(x: i32, y: i32) -> Action {
    Action::HandleMouseEvent(MouseEvent::CursorMoved { x, y })
}

fn moved(x: i32, y: i32) -> Action {
    window(WindowEvent::Moved { x, y })
}

fn launch(command: &str, arguments: &[&str]) -> Effect {
    Effect::Launch {
        command: command.to_string(),
        arguments: arguments.iter().map(|a| a.to_string()).collect(),
    }
}

#[test]
fn new_popup_holds_the_two_browsers_and_has_seen_nothing() {
    let popup = BrowserList::new(Vec::new());
    assert_eq!(
        popup.list,
        vec![
            Browser { title: "Mozilla Firefox".to_string(), command: "firefox".to_string() },
            Browser { title: "Google Chrome".to_string(), command: "chrome".to_string() },
        ]
    );
    assert!(popup.arguments.is_empty());
    assert!(!popup.initially_focused);
    assert_eq!(popup.initial_window_position, None);
    assert_eq!(popup.initial_cursor_vector, None);
}

#[test]
fn new_popup_keeps_its_arguments_in_order() {
    let popup = BrowserList::new(vec!["chooser".to_string(), "https://example.org".to_string()]);
    assert_eq!(popup.arguments, vec!["chooser".to_string(), "https://example.org".to_string()]);
    assert_eq!(popup.list, default_browsers());
}

#[test]
fn default_browsers_are_firefox_then_chrome() {
    let list = default_browsers();
    assert_eq!(list.len(), 2);
    assert_eq!(list[0].title, "Mozilla Firefox");
    assert_eq!(list[0].command, "firefox");
    assert_eq!(list[1].title, "Google Chrome");
    assert_eq!(list[1].command, "chrome");
}

#[test]
fn title_is_browser_chooser() {
    assert_eq!(BrowserList::new(Vec::new()).title(), "Browser Chooser");
}

#[test]
fn view_has_one_button_per_browser_then_cancel() {
    let buttons = BrowserList::new(Vec::new()).view();
    assert_eq!(
        buttons,
        vec![
            Button {
                label: "Mozilla Firefox".to_string(),
                on_press: Action::Open("firefox".to_string()),
                padding: 1,
                width: Length::Fill,
                height: Length::Fill,
            },
            Button {
                label: "Google Chrome".to_string(),
                on_press: Action::Open("chrome".to_string()),
                padding: 1,
                width: Length::Fill,
                height: Length::Fill,
            },
            Button {
                label: "Cancel".to_string(),
                on_press: Action::Cancel,
                padding: 1,
                width: Length::Fill,
                height: Length::Fill,
            },
        ]
    );
}

#[test]
fn view_follows_the_list_whatever_it_holds() {
    let mut popup = BrowserList::new(Vec::new());
    popup.list = vec![
        Browser { title: "C".to_string(), command: "c-cmd".to_string() },
        Browser { title: "A".to_string(), command: "a-cmd".to_string() },
        Browser { title: "B".to_string(), command: "b-cmd".to_string() },
    ];
    let buttons = popup.view();
    assert_eq!(buttons.len(), 4);
    let labels: Vec<&str> = buttons.iter().map(|b| b.label.as_str()).collect();
    assert_eq!(labels, vec!["C", "A", "B", "Cancel"]);
    assert_eq!(buttons[0].on_press, Action::Open("c-cmd".to_string()));
    assert_eq!(buttons[1].on_press, Action::Open("a-cmd".to_string()));
    assert_eq!(buttons[2].on_press, Action::Open("b-cmd".to_string()));
    assert_eq!(buttons[3].on_press, Action::Cancel);
    let cancels = buttons.iter().filter(|b| b.on_press == Action::Cancel).count();
    assert_eq!(cancels, 1);
}

#[test]
fn view_of_an_empty_list_is_cancel_alone() {
    let mut popup = BrowserList::new(Vec::new());
    popup.list = Vec::new();
    let buttons = popup.view();
    assert_eq!(buttons, vec![new_button("Cancel", Action::Cancel)]);
}

#[test]
fn new_button_fills_its_cell_with_one_pixel_of_padding() {
    let button = new_button("Go", Action::Open("go".to_string()));
    assert_eq!(button.label, "Go");
    assert_eq!(button.on_press, Action::Open("go".to_string()));
    assert_eq!(button.padding, 1);
    assert_eq!(button.width, Length::Fill);
    assert_eq!(button.height, Length::Fill);
}

#[test]
fn selecting_an_entry_launches_its_command_and_no_other() {
    let fresh = BrowserList::new(Vec::new());
    let buttons = fresh.view();
    for (index, entry) in fresh.list.iter().enumerate() {
        let mut popup = BrowserList::new(Vec::new());
        let effect = popup.update(buttons[index].on_press.clone());
        assert_eq!(effect, launch(&entry.command, &[]));
        assert_eq!(popup, fresh);
    }
    let mut popup = BrowserList::new(Vec::new());
    assert_eq!(popup.update(buttons[0].on_press.clone()), launch("firefox", &[]));
    assert_eq!(popup.update(buttons[1].on_press.clone()), launch("chrome", &[]));
}

#[test]
fn selecting_hands_the_popups_arguments_on_unchanged() {
    let arguments = vec!["chooser".to_string(), "--private".to_string(), "a b".to_string()];
    let mut popup = BrowserList::new(arguments.clone());
    assert_eq!(
        popup.update(Action::Open("firefox".to_string())),
        launch("firefox", &["chooser", "--private", "a b"])
    );
    assert_eq!(popup.arguments, arguments);
    assert_eq!(
        popup.update(Action::Open("chrome".to_string())),
        launch("chrome", &["chooser", "--private", "a b"])
    );
}

#[test]
fn selecting_launches_whatever_command_the_action_names() {
    let mut popup = BrowserList::new(Vec::new());
    assert_eq!(popup.update(Action::Open("".to_string())), launch("", &[]));
    assert_eq!(
        popup.update(Action::Open("no-such-browser".to_string())),
        launch("no-such-browser", &[])
    );
}

#[test]
fn selecting_closes_after_the_launch() {
    let mut popup = BrowserList::new(Vec::new());
    let effect = popup.update(Action::Open("firefox".to_string()));
    assert!(matches!(effect, Effect::Launch { .. }));
    assert_eq!(after_spawn(SpawnOutcome::Started), Effect::Close);
}

#[test]
fn cancel_closes_and_launches_nothing() {
    let mut popup = BrowserList::new(Vec::new());
    let effect = popup.update(Action::Cancel);
    assert_eq!(effect, Effect::Close);
    assert_eq!(popup, BrowserList::new(Vec::new()));
}

#[test]
fn unfocus_before_any_focus_is_ignored() {
    let mut popup = BrowserList::new(Vec::new());
    assert_eq!(popup.update(window(WindowEvent::Unfocused)), Effect::Idle);
    assert_eq!(popup.update(moved(3, 4)), Effect::Idle);
    assert_eq!(popup.update(window(WindowEvent::Unfocused)), Effect::Idle);
    assert!(!popup.initially_focused);
}

#[test]
fn unfocus_after_focus_closes() {
    let mut popup = BrowserList::new(Vec::new());
    assert_eq!(popup.update(window(WindowEvent::Focused)), Effect::Idle);
    assert!(popup.initially_focused);
    assert_eq!(popup.update(window(WindowEvent::Unfocused)), Effect::Close);
}

#[test]
fn unfocus_closes_even_long_after_the_focus() {
    let mut popup = BrowserList::new(Vec::new());
    assert_eq!(popup.update(window(WindowEvent::Unfocused)), Effect::Idle);
    assert_eq!(popup.update(window(WindowEvent::Focused)), Effect::Idle);
    assert_eq!(popup.update(moved(1, 1)), Effect::Idle);
    assert_eq!(popup.update(cursor(2, 2)), Effect::MoveTo { x: 4, y: 4 });
    assert_eq!(popup.update(window(WindowEvent::Other)), Effect::Idle);
    assert_eq!(popup.update(window(WindowEvent::Unfocused)), Effect::Close);
}

#[test]
fn window_then_cursor_moves_the_window_once() {
    let mut popup = BrowserList::new(Vec::new());
    assert_eq!(popup.update(moved(10, 20)), Effect::Idle);
    assert_eq!(popup.initial_window_position, Some(Position { x: 10, y: 20 }));
    assert_eq!(popup.update(cursor(5, 5)), Effect::MoveTo { x: 16, y: 26 });
    assert_eq!(popup.initial_cursor_vector, Some(Position { x: 5, y: 5 }));
    assert_eq!(popup.update(cursor(7, 9)), Effect::Idle);
    assert_eq!(popup.initial_cursor_vector, Some(Position { x: 5, y: 5 }));
}

#[test]
fn cursor_before_window_never_moves_the_window() {
    let mut popup = BrowserList::new(Vec::new());
    assert_eq!(popup.update(cursor(5, 5)), Effect::Idle);
    assert_eq!(popup.initial_cursor_vector, Some(Position { x: 5, y: 5 }));
    assert_eq!(popup.update(moved(10, 20)), Effect::Idle);
    assert_eq!(popup.initial_window_position, Some(Position { x: 10, y: 20 }));
    assert_eq!(popup.update(cursor(6, 6)), Effect::Idle);
    assert_eq!(popup.update(moved(11, 21)), Effect::Idle);
    assert_eq!(popup.update(cursor(7, 7)), Effect::Idle);
}

#[test]
fn only_the_first_window_position_is_kept() {
    let mut popup = BrowserList::new(Vec::new());
    assert_eq!(popup.update(moved(10, 20)), Effect::Idle);
    assert_eq!(popup.update(moved(300, 400)), Effect::Idle);
    assert_eq!(popup.initial_window_position, Some(Position { x: 10, y: 20 }));
    assert_eq!(popup.update(cursor(1, 2)), Effect::MoveTo { x: 12, y: 23 });
}

#[test]
fn move_target_with_negative_coordinates() {
    let mut popup = BrowserList::new(Vec::new());
    popup.update(moved(-100, -1));
    assert_eq!(popup.update(cursor(-3, 0)), Effect::MoveTo { x: -102, y: 0 });
}

#[test]
fn move_target_does_not_wrap_at_the_largest_coordinates() {
    let mut popup = BrowserList::new(Vec::new());
    popup.update(moved(i32::MAX, i32::MAX));
    assert_eq!(
        popup.update(cursor(i32::MAX, 0)),
        Effect::MoveTo { x: 4_294_967_295, y: 2_147_483_648 }
    );
}

#[test]
fn move_target_at_the_smallest_coordinates() {
    let mut popup = BrowserList::new(Vec::new());
    popup.update(moved(i32::MIN, i32::MIN));
    assert_eq!(
        popup.update(cursor(i32::MIN, -1)),
        Effect::MoveTo { x: -4_294_967_295, y: -2_147_483_648 }
    );
}

#[test]
fn other_events_change_nothing() {
    let mut popup = BrowserList::new(Vec::new());
    assert_eq!(popup.update(window(WindowEvent::Other)), Effect::Idle);
    assert_eq!(popup.update(Action::HandleMouseEvent(MouseEvent::Other)), Effect::Idle);
    assert_eq!(popup, BrowserList::new(Vec::new()));
}

#[test]
fn failed_launch_closes_like_a_successful_one() {
    assert_eq!(after_spawn(SpawnOutcome::Failed), Effect::Close);
    assert_eq!(after_spawn(SpawnOutcome::Failed), after_spawn(SpawnOutcome::Started));
}

#[test]
fn subscription_passes_window_and_mouse_events_on() {
    assert_eq!(
        BrowserList::subscription(Event::Window(WindowEvent::Focused)),
        Some(Action::HandleWindowEvent(WindowEvent::Focused))
    );
    assert_eq!(
        BrowserList::subscription(Event::Window(WindowEvent::Moved { x: 1, y: 2 })),
        Some(Action::HandleWindowEvent(WindowEvent::Moved { x: 1, y: 2 }))
    );
    assert_eq!(
        BrowserList::subscription(Event::Window(WindowEvent::Other)),
        Some(Action::HandleWindowEvent(WindowEvent::Other))
    );
    assert_eq!(
        BrowserList::subscription(Event::Mouse(MouseEvent::CursorMoved { x: 3, y: 4 })),
        Some(Action::HandleMouseEvent(MouseEvent::CursorMoved { x: 3, y: 4 }))
    );
    assert_eq!(
        BrowserList::subscription(Event::Mouse(MouseEvent::Other)),
        Some(Action::HandleMouseEvent(MouseEvent::Other))
    );
}

#[test]
fn subscription_drops_keyboard_and_touch_events() {
    assert_eq!(BrowserList::subscription(Event::Keyboard), None);
    assert_eq!(BrowserList::subscription(Event::Touch), None);
}
