use mirl_minifb::errors::{
    minifb_error_to_error, minifb_window_creation_error_to_error,
    minifb_window_update_error_to_error, parse_update_buffer_size_mismatch_error, MinifbError,
    WindowCreationError, WindowError, WindowUpdateError,
};

const PREFIX: &str = "Update failed because input buffer is too small. Required size for ";

/// The message exactly as minifb writes it.
fn message(w: usize, s: usize, h: usize, r: usize, a: usize) -> String {
    format!(
        "{}{} ({} stride) x {} buffer is {}\n            bytes but the size of the input buffer has the size {} bytes",
        PREFIX, w, s, h, r, a
    )
}

/// The same message on one line.
fn one_line(w: usize, s: usize, h: usize, r: usize, a: usize) -> String {
    format!(
        "{}{} ({} stride) x {} buffer is {} bytes but the size of the input buffer has the size {} bytes",
        PREFIX, w, s, h, r, a
    )
}

#[test]
fn creation_error_transparency() {
    assert_eq!(
        minifb_window_creation_error_to_error("Window transparency requires the borderless property"),
        WindowCreationError::TransparencyRequiresBorderlessProperty
    );
}

#[test]
fn creation_error_os_failed() {
    assert_eq!(
        minifb_window_creation_error_to_error("Unable to create Window"),
        WindowCreationError::OsFailed
    );
}

#[test]
fn creation_error_other_message_kept() {
    assert_eq!(
        minifb_window_creation_error_to_error("Unable to create window"),
        WindowCreationError::Misc("Unable to create window".to_string())
    );
    assert_eq!(
        minifb_window_creation_error_to_error(""),
        WindowCreationError::Misc(String::new())
    );
}

#[test]
fn parse_round_trip_of_minifb_message() {
    assert_eq!(
        parse_update_buffer_size_mismatch_error(&message(640, 640, 480, 1228800, 4)),
        Some((640, 640, 480, 1228800, 4))
    );
    assert_eq!(
        parse_update_buffer_size_mismatch_error(&message(0, 0, 0, 0, 0)),
        Some((0, 0, 0, 0, 0))
    );
    let m = usize::MAX;
    assert_eq!(
        parse_update_buffer_size_mismatch_error(&message(m, 1, m, 7, m)),
        Some((m, 1, m, 7, m))
    );
}

#[test]
fn parse_one_line_message() {
    assert_eq!(
        parse_update_buffer_size_mismatch_error(&one_line(4, 4, 2, 32, 16)),
        Some((4, 4, 2, 32, 16))
    );
    assert_eq!(
        parse_update_buffer_size_mismatch_error(
            "Update failed because input buffer is too small. Required size for 4 (4 stride) x 2 buffer is 32 bytes but the size of the input buffer has the size 16 bytes"
        ),
        Some((4, 4, 2, 32, 16))
    );
}

#[test]
fn parse_trims_any_white_space_before_bytes() {
    let text = format!(
        "{}5 (6 stride) x 7 buffer is 8\t\r\n  bytes but the size of the input buffer has the size 9 bytes",
        PREFIX
    );
    assert_eq!(parse_update_buffer_size_mismatch_error(&text), Some((5, 6, 7, 8, 9)));
}

#[test]
fn parse_accepts_plus_sign_and_repeated_trims() {
    let text = format!(
        "{}+3 ((4 stride) x 5 buffer is +6 bytes but the size of the input buffer has the size 7 bytes bytes",
        PREFIX
    );
    assert_eq!(parse_update_buffer_size_mismatch_error(&text), Some((3, 4, 5, 6, 7)));
}

#[test]
fn parse_rejects_bad_numbers() {
    let overflow = format!(
        "{}1 (2 stride) x 3 buffer is 99999999999999999999999 bytes but the size of the input buffer has the size 7 bytes",
        PREFIX
    );
    assert_eq!(parse_update_buffer_size_mismatch_error(&overflow), None);
    let negative = format!(
        "{}-1 (2 stride) x 3 buffer is 4 bytes but the size of the input buffer has the size 7 bytes",
        PREFIX
    );
    assert_eq!(parse_update_buffer_size_mismatch_error(&negative), None);
    let lone_plus = format!(
        "{}+ (2 stride) x 3 buffer is 4 bytes but the size of the input buffer has the size 7 bytes",
        PREFIX
    );
    assert_eq!(parse_update_buffer_size_mismatch_error(&lone_plus), None);
}

#[test]
fn parse_rejects_missing_parts() {
    assert_eq!(parse_update_buffer_size_mismatch_error(""), None);
    assert_eq!(parse_update_buffer_size_mismatch_error("Failed to Update"), None);
    assert_eq!(parse_update_buffer_size_mismatch_error(PREFIX), None);
    let no_sep = format!("{}1 (2 stride) x 3 buffer is 4 bytes", PREFIX);
    assert_eq!(parse_update_buffer_size_mismatch_error(&no_sep), None);
    let wrong_word = format!(
        "{}1 (2 stride) y 3 buffer is 4 bytes but the size of the input buffer has the size 7 bytes",
        PREFIX
    );
    assert_eq!(parse_update_buffer_size_mismatch_error(&wrong_word), None);
}

#[test]
fn parse_accepts_short_form_without_stride_word() {
    let text = format!(
        "{}1 (2 x 3 buffer is 4 bytes but the size of the input buffer has the size 7 bytes",
        PREFIX
    );
    assert_eq!(parse_update_buffer_size_mismatch_error(&text), Some((1, 2, 3, 4, 7)));
    let bare = format!(
        "{}1 2 x 3 buffer is 4 bytes but the size of the input buffer has the size 7 bytes",
        PREFIX
    );
    assert_eq!(parse_update_buffer_size_mismatch_error(&bare), Some((1, 2, 3, 4, 7)));
}

#[test]
fn parse_stops_at_second_separator() {
    let text = format!(
        "{}1 (2 stride) x 3 buffer is 4 bytes but the size of the input buffer has the size 7 bytes but the size of the input buffer has the size 9",
        PREFIX
    );
    assert_eq!(parse_update_buffer_size_mismatch_error(&text), Some((1, 2, 3, 4, 7)));
}

#[test]
fn update_error_buffer_invalid_size() {
    assert_eq!(
        minifb_window_update_error_to_error(&message(8, 16, 2, 128, 64)),
        WindowUpdateError::BufferInvalidSize {
            width: 8,
            stride: 16,
            height: 2,
            expected: 128,
            gotten: 64,
        }
    );
}

#[test]
fn update_error_of_one_line_message() {
    assert_eq!(
        minifb_window_update_error_to_error(&one_line(4, 4, 2, 32, 16)),
        WindowUpdateError::BufferInvalidSize {
            width: 4,
            stride: 4,
            height: 2,
            expected: 32,
            gotten: 16,
        }
    );
}

#[test]
fn update_error_other_message_kept() {
    assert_eq!(
        minifb_window_update_error_to_error("Update failed because input buffer is empty"),
        WindowUpdateError::Misc("Update failed because input buffer is empty".to_string())
    );
}

#[test]
fn minifb_errors_translated() {
    assert_eq!(
        minifb_error_to_error(&MinifbError::MenuExists("File".to_string())),
        WindowError::DuplicateWindow
    );
    assert_eq!(
        minifb_error_to_error(&MinifbError::MenusNotSupported),
        WindowError::OsNotSupported
    );
    assert_eq!(
        minifb_error_to_error(&MinifbError::WindowCreate("Unable to create Window".to_string())),
        WindowError::FailedToOpenWindow(WindowCreationError::OsFailed)
    );
    assert_eq!(
        minifb_error_to_error(&MinifbError::WindowCreate("no display".to_string())),
        WindowError::FailedToOpenWindow(WindowCreationError::Misc("no display".to_string()))
    );
    assert_eq!(
        minifb_error_to_error(&MinifbError::UpdateFailed(message(1, 1, 1, 4, 0))),
        WindowError::FailedToUpdateWindow(WindowUpdateError::BufferInvalidSize {
            width: 1,
            stride: 1,
            height: 1,
            expected: 4,
            gotten: 0,
        })
    );
    assert_eq!(
        minifb_error_to_error(&MinifbError::UpdateFailed("oops".to_string())),
        WindowError::FailedToUpdateWindow(WindowUpdateError::Misc("oops".to_string()))
    );
}
