use wgit::composer::{Composer, ComposerStatus, Field, Key};

fn type_str(c: &mut Composer, s: &str) {
    for ch in s.chars() {
        assert!(matches!(c.step(Key::Char(ch)), ComposerStatus::Editing));
    }
}

#[test]
fn composer_starts_on_scope_with_empty_buffers() {
    let c = Composer::new();
    assert_eq!(c.active, Field::Scope);
    assert_eq!(c.scope, "");
    assert_eq!(c.subject, "");
    assert_eq!(c.body, "");
}

#[test]
fn composer_down_cycles_ring_order() {
    let mut c = Composer::new();
    assert_eq!(c.active, Field::Scope);
    c.step(Key::Down);
    assert_eq!(c.active, Field::Subject);
    c.step(Key::Down);
    assert_eq!(c.active, Field::Body);
    c.step(Key::Down);
    assert_eq!(c.active, Field::Submit);
    c.step(Key::Down);
    assert_eq!(c.active, Field::Scope);
}

#[test]
fn composer_up_cycles_ring_order_backwards() {
    let mut c = Composer::new();
    c.step(Key::Up);
    assert_eq!(c.active, Field::Submit);
    c.step(Key::Up);
    assert_eq!(c.active, Field::Body);
    c.step(Key::Up);
    assert_eq!(c.active, Field::Subject);
    c.step(Key::Up);
    assert_eq!(c.active, Field::Scope);
}

#[test]
fn composer_chars_fill_active_buffer_only() {
    let mut c = Composer::new();
    type_str(&mut c, "ui");
    assert_eq!(c.scope, "ui");
    assert_eq!(c.subject, "");
    c.step(Key::Enter);
    assert_eq!(c.active, Field::Subject);
    type_str(&mut c, "add form");
    assert_eq!(c.scope, "ui");
    assert_eq!(c.subject, "add form");
    assert_eq!(c.body, "");
}

#[test]
fn composer_enter_advances_from_scope_and_subject() {
    let mut c = Composer::new();
    assert!(matches!(c.step(Key::Enter), ComposerStatus::Editing));
    assert_eq!(c.active, Field::Subject);
    assert!(matches!(c.step(Key::Enter), ComposerStatus::Editing));
    assert_eq!(c.active, Field::Body);
}

#[test]
fn composer_enter_on_body_inserts_newline_and_stays() {
    let mut c = Composer::new();
    c.step(Key::Down);
    c.step(Key::Down);
    assert_eq!(c.active, Field::Body);
    type_str(&mut c, "first");
    let newlines_before = c.body.chars().filter(|&ch| ch == '\n').count();
    assert!(matches!(c.step(Key::Enter), ComposerStatus::Editing));
    let newlines_after = c.body.chars().filter(|&ch| ch == '\n').count();
    assert_eq!(newlines_after, newlines_before + 1);
    assert_eq!(c.active, Field::Body);
    type_str(&mut c, "second");
    assert_eq!(c.body, "first\nsecond");
}

#[test]
fn composer_enter_on_submit_submits() {
    let mut c = Composer::new();
    type_str(&mut c, "core");
    c.step(Key::Enter);
    type_str(&mut c, "fix it");
    c.step(Key::Up);
    assert_eq!(c.active, Field::Scope);
    c.step(Key::Up);
    assert_eq!(c.active, Field::Submit);
    assert!(matches!(c.step(Key::Enter), ComposerStatus::Submitted));
    assert_eq!(c.scope, "core");
    assert_eq!(c.subject, "fix it");
}

#[test]
fn composer_backspace_removes_last_char_of_active_buffer() {
    let mut c = Composer::new();
    type_str(&mut c, "abc");
    c.step(Key::Backspace);
    assert_eq!(c.scope, "ab");
    c.step(Key::Backspace);
    c.step(Key::Backspace);
    assert_eq!(c.scope, "");
    // Backspace on an empty buffer does nothing.
    c.step(Key::Backspace);
    assert_eq!(c.scope, "");
}

#[test]
fn composer_chars_on_submit_are_ignored() {
    let mut c = Composer::new();
    c.step(Key::Up);
    assert_eq!(c.active, Field::Submit);
    c.step(Key::Char('x'));
    assert_eq!(c.scope, "");
    assert_eq!(c.subject, "");
    assert_eq!(c.body, "");
}

#[test]
fn composer_cancel_aborts_from_any_field() {
    let mut c = Composer::new();
    type_str(&mut c, "half-typed");
    assert!(matches!(c.step(Key::Cancel), ComposerStatus::Cancelled));
}

#[test]
fn composer_other_keys_change_nothing() {
    let mut c = Composer::new();
    type_str(&mut c, "s");
    let st = c.step(Key::Other);
    assert!(matches!(st, ComposerStatus::Editing));
    assert_eq!(c.active, Field::Scope);
    assert_eq!(c.scope, "s");
}
