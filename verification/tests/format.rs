use cliclack::{intro, line_count, log, note, outro, outro_cancel};

#[test]
fn intro_frame() {
    assert_eq!(intro("create-my-app"), "\u{250c}  create-my-app\n");
}

#[test]
fn outro_frame() {
    assert_eq!(outro("You're all set!"), "\u{2502}\n\u{2514}  You're all set!\n\n");
}

#[test]
fn outro_cancel_frame() {
    assert_eq!(outro_cancel("Operation cancelled."), "\u{2502}\n\u{25a0}  Operation cancelled.\n\n");
}

#[test]
fn note_frame() {
    assert_eq!(
        note("Next steps.", "cd my-app"),
        "\u{2502}\n\u{25c7}  Next steps.\n\u{2502}  cd my-app\n"
    );
}

#[test]
fn log_lines() {
    assert_eq!(log::log("raw", "?"), "\u{2502}\n?  raw\n");
    assert_eq!(log::remark("just so"), "\u{2502}\n\u{00b7}  just so\n");
    assert_eq!(log::info("heads up"), "\u{2502}\n\u{25cf}  heads up\n");
    assert_eq!(log::warning("careful"), "\u{2502}\n\u{25b2}  careful\n");
    assert_eq!(log::error("broken"), "\u{2502}\n\u{25a0}  broken\n");
    assert_eq!(log::success("done"), "\u{2502}\n\u{25c6}  done\n");
    assert_eq!(log::step("moved on"), "\u{2502}\n\u{25c7}  moved on\n");
}

#[test]
fn line_count_counts_terminated_and_open_lines() {
    assert_eq!(line_count(""), 1);
    assert_eq!(line_count("one line"), 1);
    assert_eq!(line_count("one line\n"), 2);
    assert_eq!(line_count("a\nb\nc"), 3);
    assert_eq!(line_count(&intro("hello")), 2);
    assert_eq!(line_count(&outro("bye")), 4);
}
