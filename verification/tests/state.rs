use z_buffer_game::cursor::{Cursor, CursorError};
use z_buffer_game::direction::Direction;
use z_buffer_game::input::Input;
use z_buffer_game::location::Location;
use z_buffer_game::log::{GameLog, LogEntry};
use z_buffer_game::main_menu::{Choice, MainMenu, MainMenuIterator};
use z_buffer_game::menu::Menu;
use z_buffer_game::messages::{Message, Messages};
use z_buffer_game::rectangle::Rectangle;
use z_buffer_game::time::Time;

#[test]
fn advance_dt_increments_both_dt_and_t() {
    let mut time = Time::default();
    time.advance_dt(1000);
    assert_eq!(1000, time.dt_millis());
    assert_eq!(1000, time.t_millis());
    time.advance_dt(2000);
    assert_eq!(2000, time.dt_millis());
    assert_eq!(3000, time.t_millis());
    time.advance_dt(250);
    assert_eq!(250, time.dt_millis());
    assert_eq!(3250, time.t_millis());
}

#[test]
fn advance_game_time_carries_into_minutes_hours_and_days() {
    let mut time = Time::default();
    time.advance_dt(1000);
    time.advance_game_time(100);
    assert_eq!(40_000, time.game_time_millis());
    assert_eq!(1, time.game_time_minutes());
    assert_eq!(0, time.game_time_hours());
    assert_eq!(0, time.game_time_days());

    let mut late = Time::default();
    late.set_game_time(3, 23, 59, 59_500);
    late.advance_dt(5);
    late.advance_game_time(100);
    assert_eq!(0, late.game_time_millis());
    assert_eq!(0, late.game_time_minutes());
    assert_eq!(0, late.game_time_hours());
    assert_eq!(4, late.game_time_days());
}

#[test]
fn cursor_is_unbounded_by_default() {
    assert_eq!(None, Cursor::default().boundaries());
}

#[test]
fn set_boundaries_sets_the_boundaries_of_cursor() {
    let mut cursor = Cursor::default();
    let bounds = Rectangle::centered_around(Location::origin(), 20, 20);
    assert_eq!(Ok(None), cursor.set_boundaries(bounds));
    assert_eq!(Some(bounds), cursor.boundaries());
}

#[test]
fn set_boundaries_requires_current_location_to_be_within_the_boundaries() {
    let mut cursor = Cursor::default();
    let bounds = Rectangle::new(Location::new(10, 10), Location::new(30, 30));
    assert_eq!(
        Err(CursorError::LocationIsOutOfBounds),
        cursor.set_boundaries(bounds)
    );
    assert_eq!(None, cursor.boundaries());
}

#[test]
fn move_towards_limits_movements_if_boundaries_is_set() {
    let mut cursor = Cursor::default();
    assert!(cursor
        .set_boundaries(Rectangle::centered_around(Location::origin(), 1, 1))
        .is_ok());
    assert_eq!(Location::origin(), cursor.location());
    cursor.move_towards(Direction::West);
    assert_eq!(Location::origin(), cursor.location());
    cursor.move_towards(Direction::South);
    cursor.move_towards(Direction::East);
    assert_eq!(Location::origin(), cursor.location());
}

#[test]
fn game_log_take_drains_pushed_entries_in_order() {
    let mut log = GameLog::default();
    log.push(LogEntry::new("first"));
    log.push(LogEntry::new("second"));
    let entries = log.take();
    assert_eq!(2, entries.len());
    assert_eq!("first", entries[0].contents().as_str());
    assert_eq!("second", entries[1].contents().as_str());
    assert_eq!(0, log.take().len());
}

#[test]
fn messages_take_drains_pushed_messages() {
    let mut messages = Messages::default();
    messages.push(Message::new(String::from("hello")));
    assert_eq!(1, messages.take().len());
    assert_eq!(0, messages.take().len());
}

#[test]
fn choice_next_and_previous_walk_the_menu() {
    assert_eq!(Some(Choice::Credits), Choice::NewGame.next());
    assert_eq!(Some(Choice::Exit), Choice::Credits.next());
    assert_eq!(None, Choice::Exit.next());
    assert_eq!(None, Choice::NewGame.previous());
    assert_eq!(Some(Choice::NewGame), Choice::Credits.previous());
    assert_eq!(Some(Choice::Credits), Choice::Exit.previous());
}

#[test]
fn main_menu_selection_moves_and_saturates() {
    let mut menu = MainMenu::new();
    assert_eq!(Choice::NewGame, menu.selected());
    menu.select_previous();
    assert_eq!(Choice::NewGame, menu.selected());
    menu.select_next();
    assert_eq!(Choice::Credits, menu.selected());
    assert!(menu.is_selected(&Choice::Credits));
    menu.select_next();
    menu.select_next();
    assert_eq!(Choice::Exit, menu.selected());
    assert_eq!(
        vec![Choice::NewGame, Choice::Credits, Choice::Exit],
        menu.items()
    );
}

#[test]
fn main_menu_iterator_yields_every_choice_once() {
    let mut it = MainMenuIterator::new();
    assert_eq!(Some(Choice::NewGame), it.next());
    assert_eq!(Some(Choice::Credits), it.next());
    assert_eq!(Some(Choice::Exit), it.next());
    assert_eq!(None, it.next());
    assert_eq!(None, it.next());
}

#[test]
fn key_presses_are_detected_on_repeat_and_release() {
    let mut input = Input::new();
    let code = 42;
    assert!(!input.key_down(code));
    assert!(input.key_down(code));
    assert!(input.is_pressed(code));
    input.key_up(code);
    assert!(!input.is_pressed(code));
    assert!(!input.key_down(code));
}

#[test]
fn duration_to_millis_combines_seconds_and_fraction() {
    assert_eq!(0, z_buffer_game::time::duration_to_millis(0, 0));
    assert_eq!(1_500, z_buffer_game::time::duration_to_millis(1, 500));
    assert_eq!(61_042, z_buffer_game::time::duration_to_millis(61, 42));
}

#[test]
fn configuration_defaults_are_fixed() {
    assert_eq!(30, z_buffer_game::conf::max_fps());
    assert_eq!(80, z_buffer_game::conf::screen_width_char());
    assert_eq!(50, z_buffer_game::conf::screen_height_char());
    assert_eq!("z-buffer-game", z_buffer_game::conf::window_title());
}
