use tuich::buffer::Buffer;
use tuich::event::{Key, KeyCode, KeyMod, Mouse, MouseBtn};
use tuich::rect::Rect;
use tuich::widget::prompt::{key_action, Prompt, PromptAction, PromptState};
use tuich::widget::Draw;

#[test]
fn prompt_edits() {
    let mut p = PromptState::new("hello world");
    assert_eq!(p.cursor_pos(), 11);
    assert!(p.action(PromptAction::DeletePrevWord));
    assert_eq!(p.value(), "hello ");
    assert_eq!(p.cursor_pos(), 6);
    p.action(PromptAction::String("there".to_string()));
    assert_eq!(p.value(), "hello there");
    p.action(PromptAction::MoveStart);
    p.action(PromptAction::Char('>'));
    assert_eq!(p.value(), ">hello there");
    assert_eq!(p.cursor_pos(), 1);
    p.action(PromptAction::MoveNextWord);
    assert_eq!(p.cursor_pos(), 6);
    p.action(PromptAction::DeleteToEnd);
    assert_eq!(p.value(), ">hello");
    p.action(PromptAction::DeleteLeft(2));
    assert_eq!(p.value(), ">hel");
    assert_eq!(p.cursor_pos(), 4);
    p.action(PromptAction::MoveTo(1));
    p.action(PromptAction::DeleteRight(1));
    assert_eq!(p.value(), ">el");
    p.action(PromptAction::DeleteToStart);
    assert_eq!(p.value(), "el");
    assert_eq!(p.cursor_pos(), 0);
    p.action(PromptAction::Clear);
    assert!(p.is_empty());
    assert_eq!(p.width(), 0);
}

#[test]
fn prompt_keys() {
    let mut p = PromptState::new("ab cd");
    assert!(p.handle_keys(Key(KeyMod::Ctrl, KeyCode::Left)));
    assert_eq!(p.cursor_pos(), 3);
    assert!(p.handle_keys(Key(KeyMod::Plain, KeyCode::Char('x'))));
    assert_eq!(p.value(), "ab xcd");
    assert!(!p.handle_keys(Key(KeyMod::Plain, KeyCode::Esc)));
    assert_eq!(key_action(Key(KeyMod::Ctrl, KeyCode::Char('u'))), Some(PromptAction::DeleteToStart));
    assert_eq!(key_action(Key(KeyMod::Alt, KeyCode::Char('b'))), Some(PromptAction::MovePrevWord));
    assert_eq!(key_action(Key(KeyMod::Plain, KeyCode::Backspace)), Some(PromptAction::DeleteLeft(1)));
    assert_eq!(p.get_next_word_width(0), 2);
    assert_eq!(p.get_prev_word_width(6), 3);
    assert_eq!(p.char_at(1), Some("b"));
}

#[test]
fn prompt_widget() {
    let state = PromptState::new("abc");
    let mut buf = Buffer::empty(6, 3);
    let used = Prompt::new(&state).border_kind(tuich::style::BorderKind::Single).draw(&mut buf, Rect::new(0, 0, 6, 5));
    assert_eq!(used, Rect::new(0, 0, 6, 3));
    assert_eq!(buf.get((1, 1)).unwrap().char(), Some("a"));
    assert_eq!(buf.get((4, 1)).unwrap().style.reverse, Some(true));
}

#[test]
fn key_modifiers() {
    assert_eq!(KeyMod::Any, KeyMod::Ctrl);
    assert_eq!(KeyMod::Shift, KeyMod::Any);
    assert_ne!(KeyMod::Shift, KeyMod::Ctrl);
    assert_ne!(KeyMod::Plain, KeyMod::Ctrl);
    assert_eq!(KeyMod::from((true, true, false)), KeyMod::ShiftCtrl);
    assert_eq!(KeyMod::ShiftCtrlAlt.tuple(), (true, true, true));
    let k = Key(KeyMod::Alt, KeyCode::F(2));
    assert_eq!(k.code(), KeyCode::F(2));
    assert_eq!(k.key_mod(), KeyMod::Alt);
}

#[test]
fn mouse_fields() {
    let m = Mouse::Down(KeyMod::Shift, MouseBtn::Left, 3, 4);
    assert_eq!(m.btn(), Some(MouseBtn::Left));
    assert_eq!(m.pos(), Some((3, 4)));
    assert_eq!(Mouse::Move(KeyMod::Plain, 1, 2).btn(), None);
    assert_eq!(Mouse::Unknown.pos(), None);
    assert!(Mouse::Unknown.key_mod().is_none());
}
