use yappyink::keymap::{command, editing, quits, Key};
use yappyink::tool::{Action, Tool};

#[test]
fn the_editor_keeps_only_the_keys_that_cannot_be_typed() {
    assert_eq!(editing(Key::Escape), Some(Action::Escape));
    assert_eq!(editing(Key::Backspace), Some(Action::BackspaceText));
    assert_eq!(editing(Key::Enter), Some(Action::NewlineText));
}

#[test]
fn every_character_is_text_while_editing() {
    for c in "qxcdpu19abz".chars() {
        assert_eq!(
            editing(Key::Char(c)),
            None,
            "{c:?} acted as a command while the text editor was open"
        );
    }
}

#[test]
fn quitting_is_not_also_an_action() {
    assert!(quits(Key::Char('q')));
    assert_eq!(command(Key::Char('q')), None, "q would both quit and do something else");
}

#[test]
fn the_table_expects_lower_case() {
    assert_eq!(command(Key::Char('d')), Some(Action::EnterDraw));
    assert_eq!(command(Key::Char('D')), None);
}

#[test]
fn the_tools_are_bound_where_they_are_documented() {
    let expected = [
        ('1', Tool::Pen),
        ('2', Tool::Highlighter),
        ('3', Tool::Line),
        ('4', Tool::Arrow),
        ('5', Tool::Rectangle),
        ('6', Tool::Ellipse),
        ('7', Tool::Eraser),
        ('e', Tool::Eraser),
        ('8', Tool::Select),
        ('s', Tool::Select),
        ('9', Tool::Text),
    ];
    for (key, tool) in expected {
        assert_eq!(
            command(Key::Char(key)),
            Some(Action::SelectTool(tool)),
            "{key:?} is not bound to {tool:?}"
        );
    }
}

#[test]
fn keymap_an_unbound_key_does_nothing() {
    for c in "abfijklmnvy".chars() {
        assert_eq!(command(Key::Char(c)), None, "{c:?} is bound unexpectedly");
    }
}

#[test]
fn delete_and_backspace_agree_outside_the_editor() {
    assert_eq!(command(Key::Delete), Some(Action::DeleteSelection));
    assert_eq!(command(Key::Backspace), Some(Action::DeleteSelection));
    assert_eq!(editing(Key::Delete), None);
    assert_eq!(editing(Key::Backspace), Some(Action::BackspaceText));
}

#[test]
fn z_is_the_zoom_key() {
    assert_eq!(command(Key::Char('z')), Some(Action::CycleZoom));
}

#[test]
fn zero_resets_zoom_in_one_press() {
    assert_eq!(command(Key::Char('0')), Some(Action::ZoomOff));
}

#[test]
fn enter_does_nothing_outside_the_editor_and_quit_is_only_q() {
    assert_eq!(command(Key::Enter), None);
    assert!(!quits(Key::Char('Q')));
    assert!(!quits(Key::Escape));
    assert_eq!(Key::Char('x').as_char(), Some('x'));
    assert_eq!(Key::Enter.as_char(), None);
}
