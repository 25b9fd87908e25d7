use mirl_minifb::errors::WindowError;
use mirl_minifb::window::{
    icon_buffer_from_pixels, icon_file_result, IconFileStep, minifb_window_options_from_options, position_to_minifb,
    window_position_from_minifb, window_request_from_settings, window_size_from_buffer,
    CursorSubclassing, MinifbScale, MinifbScaleMode, MinifbWindowOptions, WindowRenderLayer,
    WindowSettings,
};

fn settings(level: WindowRenderLayer) -> WindowSettings {
    WindowSettings {
        size: (800, 600),
        position: (-10, 20),
        borderless: true,
        title_visible: false,
        resizable: true,
        visible: true,
        window_level: level,
    }
}

#[test]
fn options_follow_settings() {
    assert_eq!(
        minifb_window_options_from_options(&settings(WindowRenderLayer::Normal)),
        MinifbWindowOptions {
            borderless: true,
            title: false,
            resize: true,
            scale: MinifbScale::X1,
            scale_mode: MinifbScaleMode::Stretch,
            topmost: false,
            transparency: false,
            none: false,
        }
    );
}

#[test]
fn options_topmost_only_when_on_top() {
    assert!(minifb_window_options_from_options(&settings(WindowRenderLayer::AlwaysOnTop)).topmost);
    assert!(!minifb_window_options_from_options(&settings(WindowRenderLayer::AlwaysOnBottom)).topmost);
}

#[test]
fn request_from_settings() {
    let s = settings(WindowRenderLayer::AlwaysOnTop);
    let r = window_request_from_settings(&s);
    assert_eq!(r.width, 800);
    assert_eq!(r.height, 600);
    assert_eq!(r.options, minifb_window_options_from_options(&s));
    assert_eq!(r.position, (-10, 20));
    assert!(r.borderless);
    assert_eq!(r.window_level, WindowRenderLayer::AlwaysOnTop);
}

#[test]
fn request_casts_negative_size_as_as_does() {
    let mut s = settings(WindowRenderLayer::Normal);
    s.size = (-1, 2);
    let r = window_request_from_settings(&s);
    assert_eq!(r.width, -1i32 as usize);
    assert_eq!(r.height, 2);
}

#[test]
fn positions_convert_both_ways() {
    assert_eq!(position_to_minifb((i32::MIN, i32::MAX)), (i32::MIN as isize, i32::MAX as isize));
    assert_eq!(window_position_from_minifb((-5, 7)), (-5, 7));
    assert_eq!(window_position_from_minifb(position_to_minifb((3, -4))), (3, -4));
}

#[test]
fn size_from_buffer_truncates() {
    assert_eq!(window_size_from_buffer(320, 200), (320, 200));
    assert_eq!(window_size_from_buffer(1usize << 32 | 5, 7), (5, 7));
}

#[test]
fn icon_pixels_widened() {
    assert_eq!(icon_buffer_from_pixels(&[]), Vec::<u64>::new());
    assert_eq!(
        icon_buffer_from_pixels(&[0, 1, u32::MAX]),
        vec![0u64, 1, u32::MAX as u64]
    );
}

#[test]
fn cursor_subclassing_happens_once() {
    let mut c = CursorSubclassing::new();
    assert!(!c.subclassed());
    assert!(c.request_subclass());
    assert!(c.subclassed());
    assert!(!c.request_subclass());
    assert!(!c.request_subclass());
    assert!(c.subclassed());
}

#[test]
fn request_ignores_visible() {
    let shown = settings(WindowRenderLayer::Normal);
    let mut hidden = shown;
    hidden.visible = false;
    assert_eq!(window_request_from_settings(&shown), window_request_from_settings(&hidden));
}

#[test]
fn icon_file_outcomes() {
    assert_eq!(
        icon_file_result(IconFileStep::NotEncoded),
        Err(WindowError::Misc(
            "Unable to convert image into .ico, maybe check it's size".to_string()
        ))
    );
    assert_eq!(
        icon_file_result(IconFileStep::PathNotUnicode("C:\\tmp\\x.ico".to_string())),
        Err(WindowError::Misc("Unable to convert 'C:\\tmp\\x.ico' to string".to_string()))
    );
    assert_eq!(
        icon_file_result(IconFileStep::NotWritten("/tmp/temp_icon.ico".to_string())),
        Err(WindowError::FileAccessNotPossible { path: "/tmp/temp_icon.ico".to_string() })
    );
    assert_eq!(icon_file_result(IconFileStep::NotLoaded), Err(WindowError::UnableToLoadIcon));
    assert_eq!(icon_file_result(IconFileStep::Loaded), Ok(()));
}
