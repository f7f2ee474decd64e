use sampitor::cursor::{next, previous};
use sampitor::key::{Key, KeyCode};
use sampitor::knob::{Knob, StepKnob};
use sampitor::menu::Menu;
use sampitor::text::decimal_text;

#[test]
fn next_wraps_after_full_cycle() {
    let len: usize = 4;
    for start in 0..len {
        let mut selected = Some(start);
        for _ in 0..len {
            selected = next(selected, len);
        }
        assert_eq!(selected, Some(start));
    }
}

#[test]
fn next_and_previous_wrap() {
    assert_eq!(next(Some(2), 3), Some(0));
    assert_eq!(next(Some(0), 3), Some(1));
    assert_eq!(previous(Some(0), 3), Some(2));
    assert_eq!(previous(Some(2), 3), Some(1));
}

#[test]
fn first_move_selects_first_entry() {
    assert_eq!(next(None, 5), Some(0));
    assert_eq!(previous(None, 5), Some(0));
}

#[test]
fn empty_list_has_no_selection() {
    assert_eq!(next(None, 0), None);
    assert_eq!(previous(Some(3), 0), None);
}

#[test]
fn menu_key_event() {
    let mut menu = Menu::new(
        ["A", "set", "of", "options"]
            .iter()
            .map(|string| String::from(*string))
            .collect(),
        String::from("Menu"),
    );

    menu.key_event(Key::plain(KeyCode::Tab));
    menu.key_event(Key::plain(KeyCode::Tab));

    assert_eq!(2, menu.get_state());
}

#[test]
fn menu_wraps_and_ignores_other_keys() {
    let mut menu = Menu::new(vec![String::from("a"), String::from("b")], String::from("M"));
    menu.key_event(Key::plain(KeyCode::Down));
    assert_eq!(menu.get_state(), 0);
    menu.next();
    menu.next();
    assert_eq!(menu.get_state(), 0);
    assert_eq!(menu.title(), "M");

    let mut empty = Menu::new(Vec::new(), String::new());
    empty.next();
    assert_eq!(empty.get_state(), 0);
}

#[test]
fn knob_steps_within_bounds() {
    let mut knob = StepKnob::new(0, 100, 10, 100);
    knob.increment();
    assert_eq!(knob.value(), 100);
    knob.decrement();
    assert_eq!(knob.value(), 90);
    assert_eq!(knob.text(), "90");
    for _ in 0..20 {
        knob.decrement();
    }
    assert_eq!(knob.value(), 0);
    assert_eq!(knob.text(), "0");

    let mut odd = StepKnob::new(5, 12, 4, 9);
    odd.increment();
    assert_eq!(odd.value(), 12);
    odd.decrement();
    odd.decrement();
    assert_eq!(odd.value(), 5);
}

#[test]
fn decimal_numerals() {
    assert_eq!(decimal_text(0), "0");
    assert_eq!(decimal_text(7), "7");
    assert_eq!(decimal_text(100), "100");
    assert_eq!(decimal_text(4294967295), "4294967295");
}
