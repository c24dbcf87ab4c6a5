use cliclack::{
    confirm, input, multiselect, password, select, Input, KeyEvent, Outcome, SpinnerState,
};

/// Drives an input prompt through a key sequence, running `validate` on
/// each submission request, and returns how many submissions were
/// rejected.
fn drive_input<F: Fn(&String) -> Option<String>>(
    prompt: &mut Input,
    keys: &[KeyEvent],
    validate: F,
) -> usize {
    let mut rejections = 0;
    for &key in keys {
        if prompt.outcome() != Outcome::Active {
            break;
        }
        let submit = prompt.handle_key(key);
        if submit {
            let verdict = validate(&prompt.value());
            if verdict.is_some() {
                rejections += 1;
            }
            prompt.apply_verdict(verdict);
        }
    }
    rejections
}

#[test]
fn input_insert_and_submit() {
    let mut p = input("What is your name?");
    assert!(!p.handle_key(KeyEvent::Char('h')));
    assert!(!p.handle_key(KeyEvent::Char('i')));
    assert_eq!(p.value(), "hi");
    assert!(p.handle_key(KeyEvent::Enter));
    p.apply_verdict(None);
    assert_eq!(p.outcome(), Outcome::Submitted);
    assert_eq!(p.value(), "hi");
}

#[test]
fn input_cursor_stays_in_bounds() {
    let keys = [
        KeyEvent::ArrowLeft,
        KeyEvent::Char('a'),
        KeyEvent::Char('b'),
        KeyEvent::ArrowLeft,
        KeyEvent::ArrowLeft,
        KeyEvent::ArrowLeft,
        KeyEvent::Char('c'),
        KeyEvent::Backspace,
        KeyEvent::Backspace,
        KeyEvent::ArrowRight,
        KeyEvent::ArrowRight,
        KeyEvent::ArrowRight,
        KeyEvent::Char('d'),
        KeyEvent::Backspace,
        KeyEvent::Backspace,
        KeyEvent::Backspace,
        KeyEvent::Backspace,
    ];
    let mut p = input("bounds");
    for &key in &keys {
        p.handle_key(key);
        let len = p.value().chars().count();
        assert!(p.cursor() <= len, "cursor {} beyond length {}", p.cursor(), len);
    }
}

#[test]
fn input_edits_at_cursor() {
    let mut p = input("edit");
    p.handle_key(KeyEvent::Char('a'));
    p.handle_key(KeyEvent::Char('c'));
    p.handle_key(KeyEvent::ArrowLeft);
    p.handle_key(KeyEvent::Char('b'));
    assert_eq!(p.value(), "abc");
    assert_eq!(p.cursor(), 2);
    p.handle_key(KeyEvent::Backspace);
    assert_eq!(p.value(), "ac");
    assert_eq!(p.cursor(), 1);
}

#[test]
fn input_backspace_at_start_is_noop() {
    let mut p = input("edit");
    p.handle_key(KeyEvent::Char('x'));
    p.handle_key(KeyEvent::ArrowLeft);
    p.handle_key(KeyEvent::Backspace);
    assert_eq!(p.value(), "x");
    assert_eq!(p.cursor(), 0);
}

#[test]
fn input_multibyte_characters_edit_by_character() {
    let mut p = input("unicode");
    p.handle_key(KeyEvent::Char('\u{00e9}'));
    p.handle_key(KeyEvent::Char('\u{4e16}'));
    p.handle_key(KeyEvent::Char('!'));
    assert_eq!(p.value(), "\u{00e9}\u{4e16}!");
    p.handle_key(KeyEvent::ArrowLeft);
    p.handle_key(KeyEvent::Backspace);
    assert_eq!(p.value(), "\u{00e9}!");
    assert_eq!(p.cursor(), 1);
}

#[test]
fn input_validation_rejection_keeps_value_and_sets_error() {
    let mut p = input("age");
    p.handle_key(KeyEvent::Char('x'));
    let submit = p.handle_key(KeyEvent::Enter);
    assert!(submit);
    p.apply_verdict(Some("Not a number!".to_string()));
    assert_eq!(p.outcome(), Outcome::Active);
    assert_eq!(p.value(), "x");
    assert_eq!(p.error_text(), Some("Not a number!"));
    // The next accepted submission clears the error and terminates.
    let submit = p.handle_key(KeyEvent::Enter);
    assert!(submit);
    p.apply_verdict(None);
    assert_eq!(p.outcome(), Outcome::Submitted);
    assert_eq!(p.error_text(), None);
}

#[test]
fn input_edit_clears_stale_error() {
    let mut p = input("age");
    p.handle_key(KeyEvent::Enter);
    p.apply_verdict(Some("Value is required!".to_string()));
    assert_eq!(p.error_text(), Some("Value is required!"));
    // A cursor move is not an edit and keeps the message.
    p.handle_key(KeyEvent::ArrowLeft);
    assert_eq!(p.error_text(), Some("Value is required!"));
    // Typing a character is an edit and clears it.
    p.handle_key(KeyEvent::Char('h'));
    assert_eq!(p.error_text(), None);
}

#[test]
fn input_escape_cancels_without_validation() {
    let called = std::cell::Cell::new(false);
    let mut p = input("name");
    let keys = [KeyEvent::Escape];
    drive_input(&mut p, &keys, |_value| {
        called.set(true);
        Some("rejected".to_string())
    });
    assert_eq!(p.outcome(), Outcome::Cancelled);
    assert!(!called.get(), "validator ran on cancellation");
    assert_eq!(p.error_text(), None);
}

#[test]
fn input_scenario_empty_then_hi() {
    // A validator that rejects empty strings; one rejection frame, then
    // a submission of "hi".
    let mut p = input("Say something");
    let keys = [KeyEvent::Enter, KeyEvent::Char('h'), KeyEvent::Char('i'), KeyEvent::Enter];
    let rejections = drive_input(&mut p, &keys, |value| {
        if value.is_empty() {
            Some("Value is required!".to_string())
        } else {
            None
        }
    });
    assert_eq!(rejections, 1);
    assert_eq!(p.outcome(), Outcome::Submitted);
    assert_eq!(p.value(), "hi");
    assert_eq!(p.error_text(), None);
}

#[test]
fn input_placeholder_is_not_part_of_the_value() {
    let p = input("name").placeholder("Not sure");
    assert_eq!(p.placeholder_text(), "Not sure");
    assert_eq!(p.value(), "");
}

#[test]
fn password_masks_rendering_but_not_value() {
    let mut p = password("Provide a password").mask('\u{25aa}');
    p.handle_key(KeyEvent::Char('a'));
    p.handle_key(KeyEvent::Char('b'));
    p.handle_key(KeyEvent::Char('c'));
    assert_eq!(p.value(), "abc");
    assert_eq!(p.masked_value(), "\u{25aa}\u{25aa}\u{25aa}");
    assert!(p.handle_key(KeyEvent::Enter));
    p.apply_verdict(None);
    assert_eq!(p.outcome(), Outcome::Submitted);
    assert_eq!(p.value(), "abc");
}

#[test]
fn password_escape_cancels() {
    let mut p = password("secret");
    p.handle_key(KeyEvent::Char('s'));
    p.handle_key(KeyEvent::Escape);
    assert_eq!(p.outcome(), Outcome::Cancelled);
}

#[test]
fn confirm_immediate_yes_and_no() {
    let mut c = confirm("Continue?");
    c.handle_key(KeyEvent::Char('y'));
    assert_eq!(c.outcome(), Outcome::Submitted);
    assert!(c.value());

    let mut c = confirm("Continue?");
    c.handle_key(KeyEvent::Char('n'));
    assert_eq!(c.outcome(), Outcome::Submitted);
    assert!(!c.value());

    let mut c = confirm("Continue?");
    c.handle_key(KeyEvent::Char('N'));
    assert_eq!(c.outcome(), Outcome::Submitted);
    assert!(!c.value());
}

#[test]
fn confirm_toggle_and_enter() {
    let mut c = confirm("Continue?").initial_value(true);
    c.handle_key(KeyEvent::ArrowLeft);
    assert!(!c.value());
    assert_eq!(c.outcome(), Outcome::Active);
    c.handle_key(KeyEvent::Tab);
    assert!(c.value());
    c.handle_key(KeyEvent::ArrowRight);
    assert!(!c.value());
    c.handle_key(KeyEvent::Enter);
    assert_eq!(c.outcome(), Outcome::Submitted);
    assert!(!c.value());
}

#[test]
fn confirm_ignores_other_characters() {
    let mut c = confirm("Continue?");
    c.handle_key(KeyEvent::Char('q'));
    assert_eq!(c.outcome(), Outcome::Active);
    assert!(c.value());
}

#[test]
fn select_scenario_picks_coffee() {
    let mut s = select("Pick a project type")
        .item("ts", "TypeScript", "")
        .item("js", "JavaScript", "")
        .item("coffee", "CoffeeScript", "oh no");
    assert!(s.is_configured());
    assert_eq!(s.cursor(), 0);
    s.handle_key(KeyEvent::ArrowDown);
    s.handle_key(KeyEvent::ArrowDown);
    s.handle_key(KeyEvent::Enter);
    assert_eq!(s.outcome(), Outcome::Submitted);
    assert_eq!(s.into_value(), "coffee");
}

#[test]
fn select_clamps_without_wrapping() {
    let mut s = select("clamp").item(0u32, "a", "").item(1u32, "b", "").item(2u32, "c", "");
    // Up at index 0 is a no-op.
    s.handle_key(KeyEvent::ArrowUp);
    assert_eq!(s.cursor(), 0);
    // Down past the last index is a no-op.
    for _ in 0..10 {
        s.handle_key(KeyEvent::ArrowDown);
        assert!(s.cursor() <= 2);
    }
    assert_eq!(s.cursor(), 2);
    s.handle_key(KeyEvent::ArrowDown);
    assert_eq!(s.cursor(), 2);
}

#[test]
fn select_initial_index_and_labels() {
    let s = select("labels")
        .item(10u8, "first", "")
        .item(20u8, "second", "a hint")
        .initial_index(1);
    assert_eq!(s.cursor(), 1);
    assert_eq!(s.label_at(1), "second");
    assert_eq!(s.hint_at(1), "a hint");
    assert_eq!(s.len(), 2);
    assert_eq!(s.into_value(), 20);
}

#[test]
fn select_initial_value_picks_first_match() {
    let s = select("pick")
        .item("js", "JavaScript", "")
        .item("ts", "TypeScript", "")
        .item("ts", "TypeScript again", "")
        .initial_value(&"ts");
    assert_eq!(s.cursor(), 1);
    assert_eq!(s.into_value(), "ts");
}

#[test]
fn select_initial_value_without_match_returns_to_first() {
    let s = select("pick")
        .item("js", "JavaScript", "")
        .item("ts", "TypeScript", "")
        .initial_index(1)
        .initial_value(&"coffee");
    assert_eq!(s.cursor(), 0);
}

#[test]
fn select_initial_index_out_of_range_is_ignored() {
    let s = select("oob").item(1u8, "only", "").initial_index(7);
    assert_eq!(s.cursor(), 0);
}

#[test]
fn list_prompt_without_items_is_a_configuration_error() {
    let s = select::<u8>("empty");
    assert!(!s.is_configured());
    let m = multiselect::<u8>("empty");
    assert!(!m.is_configured());
}

#[test]
fn select_escape_cancels() {
    let mut s = select("esc").item(1u8, "only", "");
    s.handle_key(KeyEvent::Escape);
    assert_eq!(s.outcome(), Outcome::Cancelled);
}

#[test]
fn multiselect_preserves_item_order() {
    // Items [A, B, C]; toggling C first and A second still yields [A, C].
    let mut m = multiselect("tools")
        .item("A", "ESLint", "")
        .item("B", "Prettier", "")
        .item("C", "GitHub Actions", "");
    m.handle_key(KeyEvent::ArrowDown);
    m.handle_key(KeyEvent::ArrowDown);
    m.handle_key(KeyEvent::Char(' '));
    m.handle_key(KeyEvent::ArrowUp);
    m.handle_key(KeyEvent::ArrowUp);
    m.handle_key(KeyEvent::Char(' '));
    m.handle_key(KeyEvent::Enter);
    assert_eq!(m.outcome(), Outcome::Submitted);
    assert_eq!(m.into_selection(), vec!["A", "C"]);
}

#[test]
fn multiselect_toggle_order_does_not_matter() {
    let build = || {
        multiselect("tools")
            .item('a', "first", "")
            .item('b', "second", "")
            .item('c', "third", "")
    };
    // Toggle positions 2 then 0.
    let mut one = build();
    one.handle_key(KeyEvent::ArrowDown);
    one.handle_key(KeyEvent::ArrowDown);
    one.handle_key(KeyEvent::Char(' '));
    one.handle_key(KeyEvent::ArrowUp);
    one.handle_key(KeyEvent::ArrowUp);
    one.handle_key(KeyEvent::Char(' '));
    one.handle_key(KeyEvent::Enter);
    // Toggle positions 0 then 2.
    let mut two = build();
    two.handle_key(KeyEvent::Char(' '));
    two.handle_key(KeyEvent::ArrowDown);
    two.handle_key(KeyEvent::ArrowDown);
    two.handle_key(KeyEvent::Char(' '));
    two.handle_key(KeyEvent::Enter);
    assert_eq!(one.into_selection(), two.into_selection());
}

#[test]
fn multiselect_toggle_twice_unchecks() {
    let mut m = multiselect("toggle").item(1u8, "one", "");
    m.handle_key(KeyEvent::Char(' '));
    assert!(m.is_checked(0));
    m.handle_key(KeyEvent::Char(' '));
    assert!(!m.is_checked(0));
}

#[test]
fn multiselect_empty_submission_is_valid_by_default() {
    let mut m = multiselect("empty").item(1u8, "one", "");
    m.handle_key(KeyEvent::Enter);
    assert_eq!(m.outcome(), Outcome::Submitted);
    assert_eq!(m.into_selection(), Vec::<u8>::new());
}

#[test]
fn multiselect_required_rejects_empty_submission() {
    let mut m = multiselect("req").item(1u8, "one", "").required(true);
    m.handle_key(KeyEvent::Enter);
    assert_eq!(m.outcome(), Outcome::Active);
    assert_eq!(m.error_text(), Some("Please select at least one option."));
    // Checking an item and submitting again succeeds.
    m.handle_key(KeyEvent::Char(' '));
    assert_eq!(m.error_text(), None);
    m.handle_key(KeyEvent::Enter);
    assert_eq!(m.outcome(), Outcome::Submitted);
    assert_eq!(m.into_selection(), vec![1u8]);
}

#[test]
fn multiselect_escape_bypasses_required_rule() {
    let mut m = multiselect("req").item(1u8, "one", "").required(true);
    m.handle_key(KeyEvent::Escape);
    assert_eq!(m.outcome(), Outcome::Cancelled);
}

#[test]
fn multiselect_item_checked_starts_checked() {
    let mut m = multiselect("pre").item_checked(7u8, "pre", "").item(8u8, "post", "");
    assert!(m.is_checked(0));
    assert!(!m.is_checked(1));
    m.handle_key(KeyEvent::Enter);
    assert_eq!(m.into_selection(), vec![7u8]);
}

#[test]
fn multiselect_clamps_without_wrapping() {
    let mut m = multiselect("clamp").item(1u8, "a", "").item(2u8, "b", "");
    m.handle_key(KeyEvent::ArrowUp);
    assert_eq!(m.cursor(), 0);
    m.handle_key(KeyEvent::ArrowDown);
    m.handle_key(KeyEvent::ArrowDown);
    assert_eq!(m.cursor(), 1);
}

#[test]
fn spinner_ticks_show_distinct_frames_until_stopped() {
    let mut s = cliclack::spinner();
    assert_eq!(s.state(), SpinnerState::Stopped);
    s.start("Installing...");
    assert_eq!(s.state(), SpinnerState::Running);
    assert_eq!(s.message_text(), "Installing...");
    let first = s.frame_index();
    s.tick();
    let second = s.frame_index();
    s.tick();
    let third = s.frame_index();
    assert_ne!(first, second);
    assert_ne!(second, third);
    s.stop("Installation complete");
    assert_eq!(s.state(), SpinnerState::Stopped);
    assert_eq!(s.message_text(), "Installation complete");
    let frozen = s.frame_index();
    s.tick();
    s.tick();
    assert_eq!(s.frame_index(), frozen);
}

#[test]
fn spinner_wraps_around_its_frames() {
    let mut s = cliclack::spinner();
    s.start("work");
    let first_glyph = s.frame_glyph();
    let mut wrapped = false;
    for _ in 0..64 {
        s.tick();
        if s.frame_index() == 0 {
            wrapped = true;
            break;
        }
    }
    assert!(wrapped);
    assert_eq!(s.frame_glyph(), first_glyph);
}

#[test]
fn spinner_fail_ends_failed() {
    let mut s = cliclack::spinner();
    s.start("work");
    s.tick();
    s.fail("it broke");
    assert_eq!(s.state(), SpinnerState::Failed);
    assert_eq!(s.message_text(), "it broke");
    let frozen = s.frame_index();
    s.tick();
    assert_eq!(s.frame_index(), frozen);
}
