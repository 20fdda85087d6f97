use velocity_core::constants::{
    FD_BUFFER_SIZE_BYTES, FD_POLL_TIMEOUT_MS, RENDER_ALLOWANCE_MS, TARGET_FRAMERATE,
};
use velocity_core::shell_layer::frame_reader::{FrameReader, ReadAction, ReadEvent};
use velocity_core::shell_layer::launch::{
    child_environment, forced_login_command, login_shell_command, preferred_shell, window_size,
    working_directory,
};

#[test]
fn the_poll_timeout_is_a_frame_less_the_allowance() {
    assert_eq!(FD_POLL_TIMEOUT_MS, 1000 / TARGET_FRAMERATE as i32 - RENDER_ALLOWANCE_MS);
    assert_eq!(FD_POLL_TIMEOUT_MS, 13);
    assert_eq!(FD_BUFFER_SIZE_BYTES, 4096);
}

#[test]
fn a_drained_reader_polls_first() {
    let mut reader = FrameReader::new();
    assert!(reader.fd_drained);
    assert_eq!(reader.step(ReadEvent::Begin), ReadAction::Poll { timeout_ms: 13 });
    assert_eq!(reader.step(ReadEvent::Polled(0)), ReadAction::Report { written: 0 });
    assert!(reader.fd_drained);
}

#[test]
fn a_ready_descriptor_is_read_once() {
    let mut reader = FrameReader::new();
    assert_eq!(reader.step(ReadEvent::Begin), ReadAction::Poll { timeout_ms: 13 });
    assert_eq!(reader.step(ReadEvent::Polled(1)), ReadAction::Read { capacity: 4096 });
    assert_eq!(reader.step(ReadEvent::ReadBytes(100)), ReadAction::Report { written: 100 });
    assert!(reader.fd_drained);
}

#[test]
fn a_full_buffer_is_followed_by_a_read_without_a_poll() {
    let mut reader = FrameReader::new();
    reader.step(ReadEvent::Begin);
    reader.step(ReadEvent::Polled(1));
    assert_eq!(reader.step(ReadEvent::ReadBytes(4096)), ReadAction::Report { written: 4096 });
    assert!(!reader.fd_drained);
    assert_eq!(reader.step(ReadEvent::Begin), ReadAction::Read { capacity: 4096 });
    assert_eq!(reader.step(ReadEvent::ReadBytes(4095)), ReadAction::Report { written: 4095 });
    assert!(reader.fd_drained);
    assert_eq!(reader.step(ReadEvent::Begin), ReadAction::Poll { timeout_ms: 13 });
    assert_eq!(reader.step(ReadEvent::ReadBytes(0)), ReadAction::Report { written: 0 });
    assert!(reader.fd_drained);
}

#[test]
fn a_failed_poll_is_fatal() {
    let mut reader = FrameReader::new();
    assert_eq!(reader.step(ReadEvent::Polled(-1)), ReadAction::Fail);
    assert_eq!(reader.step(ReadEvent::Polled(i32::MIN)), ReadAction::Fail);
    assert!(reader.fd_drained);
}

fn strings(list: &[&str]) -> Vec<String> {
    list.iter().map(|s| s.to_string()).collect()
}

#[test]
fn the_child_inherits_all_but_the_terminal_variables() {
    let parent = vec![
        ("PATH".to_string(), "/usr/bin:/bin".to_string()),
        ("TERM".to_string(), "dumb".to_string()),
        ("HOME".to_string(), "/home/me".to_string()),
        ("TERM_PROGRAM".to_string(), "other".to_string()),
        ("TERMINFO".to_string(), "/lib/terminfo".to_string()),
        ("EMPTY".to_string(), "".to_string()),
        ("EQ".to_string(), "a=b".to_string()),
    ];
    assert_eq!(
        child_environment(&parent),
        strings(&[
            "PATH=/usr/bin:/bin",
            "HOME=/home/me",
            "TERMINFO=/lib/terminfo",
            "EMPTY=",
            "EQ=a=b",
            "TERM=xterm-256color",
            "TERM_PROGRAM=velocity",
        ])
    );
    assert_eq!(
        child_environment(&vec![]),
        strings(&["TERM=xterm-256color", "TERM_PROGRAM=velocity"])
    );
}

#[test]
fn the_shell_is_started_as_a_login_shell() {
    let command = login_shell_command("/bin/bash");
    assert_eq!(command.program, "/bin/bash");
    assert_eq!(command.arguments, strings(&["/bin/bash", "--login"]));
    assert_eq!(preferred_shell(Some("/bin/fish".to_string())), "/bin/fish");
    assert_eq!(preferred_shell(None), "/usr/bin/zsh");
}

#[test]
fn login_is_forced_for_the_user() {
    let command = forced_login_command("ada");
    assert_eq!(command.program, "/usr/bin/login");
    assert_eq!(command.arguments, strings(&["/usr/bin/login", "-f", "ada"]));
}

#[test]
fn the_shell_starts_at_home() {
    assert_eq!(working_directory(Some("/home/me".to_string())), "/home/me");
    assert_eq!(working_directory(None), "/");
}

#[test]
fn the_window_size_is_cut_to_sixteen_bits() {
    let size = window_size(25, 80);
    assert_eq!((size.ws_row, size.ws_col), (25, 80));
    assert_eq!((size.ws_xpixel, size.ws_ypixel), (100, 100));
    let large = window_size(65536 + 3, 65535);
    assert_eq!((large.ws_row, large.ws_col), (3, 65535));
}
