use pty_bridge::error::PtyError;
use pty_bridge::reaper::{on_child_exit, ReaperAction};
use pty_bridge::session::Session;
use pty_bridge::shell::{build_shell_command, Platform};
use pty_bridge::size::TermSize;

#[test]
fn empty_drain_returns_no_data() {
    let mut session = Session::new(Platform::Posix);
    assert_eq!(session.read_from_pty(), Ok(None));
    // Still no data on a re-poll: nothing was produced in between.
    assert_eq!(session.read_from_pty(), Ok(None));
}

#[test]
fn drain_returns_fed_text() {
    let mut session = Session::new(Platform::Posix);
    session.feed(b"hi");
    assert_eq!(session.read_from_pty(), Ok(Some("hi".to_string())));
    // The successful drain consumed the buffer.
    assert_eq!(session.read_from_pty(), Ok(None));
}

#[test]
fn drain_decodes_multibyte_utf8() {
    let mut session = Session::new(Platform::Posix);
    let text = "h\u{e9}llo \u{20ac} \u{1f600}";
    session.feed(text.as_bytes());
    assert_eq!(session.read_from_pty(), Ok(Some(text.to_string())));
}

#[test]
fn drain_invalid_utf8_errors_and_keeps_buffer() {
    let mut session = Session::new(Platform::Posix);
    session.feed(&[0xFF, b'h']);
    assert_eq!(session.read_from_pty(), Err(PtyError::Decode));
    // The buffer position is unchanged: the same bytes still error.
    assert_eq!(session.read_from_pty(), Err(PtyError::Decode));
}

#[test]
fn drain_split_sequence_errors_then_recovers() {
    let mut session = Session::new(Platform::Posix);
    // First half of the two-byte encoding of U+00E9.
    session.feed(&[0xC3]);
    assert_eq!(session.read_from_pty(), Err(PtyError::Decode));
    // Once the second half arrives the buffer decodes whole.
    session.feed(&[0xA9]);
    assert_eq!(session.read_from_pty(), Ok(Some("\u{e9}".to_string())));
}

#[test]
fn write_returns_payload_bytes_in_order() {
    let mut session = Session::new(Platform::Posix);
    let first = session.write_to_pty("echo hi\n");
    let second = session.write_to_pty("exit\n");
    assert_eq!(first, b"echo hi\n".to_vec());
    assert_eq!(second, b"exit\n".to_vec());
    // Concatenated in call order, each payload contiguous.
    let mut observed = first.clone();
    observed.extend_from_slice(&second);
    assert_eq!(observed, b"echo hi\nexit\n".to_vec());
}

#[test]
fn write_encodes_multibyte_payload() {
    let mut session = Session::new(Platform::Posix);
    let out = session.write_to_pty("\u{e9}");
    assert_eq!(out, vec![0xC3, 0xA9]);
}

#[test]
fn resize_before_spawn_is_observed_at_spawn() {
    let mut session = Session::new(Platform::Posix);
    let applied = session.resize_pty(30, 100);
    assert_eq!(
        applied,
        TermSize { rows: 30, cols: 100, pixel_width: 0, pixel_height: 0 }
    );
    let plan = session.create_shell("/tmp");
    assert_eq!(plan.size, applied);
}

#[test]
fn initial_size_is_24_by_80() {
    assert_eq!(
        TermSize::initial(),
        TermSize { rows: 24, cols: 80, pixel_width: 0, pixel_height: 0 }
    );
    let mut session = Session::new(Platform::Posix);
    let plan = session.create_shell("/");
    assert_eq!(plan.size, TermSize::initial());
}

#[test]
fn posix_shell_command() {
    let cmd = build_shell_command(Platform::Posix, "/home/user");
    assert_eq!(cmd.program, "bash".to_string());
    assert_eq!(cmd.cwd, "/home/user".to_string());
    assert_eq!(cmd.env.len(), 1);
    assert_eq!(cmd.env[0].name, "TERM".to_string());
    assert_eq!(cmd.env[0].value, "xterm-256color".to_string());
}

#[test]
fn windows_shell_command() {
    let cmd = build_shell_command(Platform::Windows, "C:\\work");
    assert_eq!(cmd.program, "cmd.exe".to_string());
    assert_eq!(cmd.cwd, "C:\\work".to_string());
    assert_eq!(cmd.env.len(), 1);
    assert_eq!(cmd.env[0].name, "TERM".to_string());
    assert_eq!(cmd.env[0].value, "cygwin".to_string());
}

#[test]
fn reaper_exits_host_with_child_code() {
    // A fake child that exited cleanly: the supervisor signals host exit 0.
    assert_eq!(on_child_exit(0), ReaperAction::ExitHost(0));
    // A fake child that failed: the host carries the same code.
    assert_eq!(on_child_exit(7), ReaperAction::ExitHost(7));
    let ReaperAction::ExitHost(code) = on_child_exit(42);
    assert_eq!(code, 42);
}

#[test]
fn error_messages_name_each_failure() {
    assert_eq!(
        PtyError::Allocation.message(),
        "could not allocate a pseudo-terminal"
    );
    assert_eq!(PtyError::Spawn.message(), "could not spawn the shell process");
    assert_eq!(PtyError::Write.message(), "could not write to the terminal");
    assert_eq!(PtyError::Resize.message(), "could not resize the terminal");
    assert_eq!(PtyError::Read.message(), "could not read from the terminal");
    assert_eq!(
        PtyError::Decode.message(),
        "terminal output was not valid UTF-8"
    );
}
