//! The settings of a window and what the backend asks of minifb to create and
//! drive one: the window options, the creation request, and the conversions of
//! positions, sizes and icon pixels.
use vstd::prelude::*;
use vstd::string::StringExecFns;

use crate::errors::WindowError;

verus! {

/// Where a window stands among the other windows.
#[derive(Debug, Clone, Copy, PartialEq, Eq, Structural, Hash)]
pub enum WindowRenderLayer {
    /// Ordinary stacking.
    Normal,
    /// Above all ordinary windows.
    AlwaysOnTop,
    /// Below all ordinary windows.
    AlwaysOnBottom,
}

/// The settings a window is created with.
#[derive(Debug, Clone, Copy, PartialEq, Eq)]
pub struct WindowSettings {
    /// Width and height, in pixels.
    pub size: (i32, i32),
    /// Position of the top-left corner on the screen.
    pub position: (i32, i32),
    /// Whether the window has no border.
    pub borderless: bool,
    /// Whether the title bar is shown.
    pub title_visible: bool,
    /// Whether the user may resize the window.
    pub resizable: bool,
    /// Whether the window is shown (minifb has no such option).
    pub visible: bool,
    /// Where the window stands among the others.
    pub window_level: WindowRenderLayer,
}

/// The scale of a minifb window (`minifb::Scale`).
#[derive(Debug, Clone, Copy, PartialEq, Eq, Structural, Hash)]
pub enum MinifbScale {
    FitScreen,
    X1,
    X2,
    X4,
    X8,
    X16,
    X32,
}

/// How minifb scales the buffer into the window (`minifb::ScaleMode`).
#[derive(Debug, Clone, Copy, PartialEq, Eq, Structural, Hash)]
pub enum MinifbScaleMode {
    Stretch,
    AspectRatioStretch,
    Center,
    UpperLeft,
}

/// The options a minifb window is created with (`minifb::WindowOptions`).
#[derive(Debug, Clone, Copy, PartialEq, Eq, Structural)]
pub struct MinifbWindowOptions {
    pub borderless: bool,
    pub title: bool,
    pub resize: bool,
    pub scale: MinifbScale,
    pub scale_mode: MinifbScaleMode,
    pub topmost: bool,
    pub transparency: bool,
    pub none: bool,
}

/// `options` are the minifb options for `settings`: border, title and
/// resizing as the settings say, unscaled and stretched, topmost exactly when
/// the window is to stay on top, and neither transparent nor frameless.
pub open spec fn options_for_settings(settings: WindowSettings, options: MinifbWindowOptions) -> bool {
    &&& options.borderless == settings.borderless
    &&& options.title == settings.title_visible
    &&& options.resize == settings.resizable
    &&& options.scale == MinifbScale::X1
    &&& options.scale_mode == MinifbScaleMode::Stretch
    &&& options.topmost == (settings.window_level == WindowRenderLayer::AlwaysOnTop)
    &&& !options.transparency
    &&& !options.none
}

/// Converts [`WindowSettings`] to the options of a minifb window.
pub fn minifb_window_options_from_options(window_options: &WindowSettings) -> (r:
    MinifbWindowOptions)
    ensures
        options_for_settings(*window_options, r),
{
    MinifbWindowOptions {
        borderless: window_options.borderless,
        title: window_options.title_visible,
        resize: window_options.resizable,
        scale: MinifbScale::X1,
        scale_mode: MinifbScaleMode::Stretch,
        topmost: window_options.window_level == WindowRenderLayer::AlwaysOnTop,
        transparency: false,
        none: false,
    }
}

/// Each option of minifb follows the setting of the same meaning: border,
/// title and resizing are the settings' own flags, the window is topmost
/// exactly when it is to stay above the others, and it is unscaled,
/// stretched, opaque and framed.
pub proof fn law_options_follow_their_settings(settings: WindowSettings, options: MinifbWindowOptions)
    requires
        options_for_settings(settings, options),
    ensures
        options.resize == settings.resizable,
        options.borderless == settings.borderless,
        options.title == settings.title_visible,
        options.topmost <==> settings.window_level == WindowRenderLayer::AlwaysOnTop,
        options.scale == MinifbScale::X1,
        options.scale_mode == MinifbScaleMode::Stretch,
        !options.transparency,
        !options.none,
{
}

/// Changing one setting changes only the option that follows it: settings
/// that differ only in their border flag give options with the same resizing,
/// title and topmost flags, and settings that differ only in resizability give
/// options with the same border, title and topmost flags.
pub proof fn law_options_independent(
    s1: WindowSettings,
    s2: WindowSettings,
    o1: MinifbWindowOptions,
    o2: MinifbWindowOptions,
)
    requires
        options_for_settings(s1, o1),
        options_for_settings(s2, o2),
        s1.title_visible == s2.title_visible,
        s1.window_level == s2.window_level,
    ensures
        s1.resizable == s2.resizable ==> o1.resize == o2.resize,
        s1.borderless == s2.borderless ==> o1.borderless == o2.borderless,
        o1.title == o2.title,
        o1.topmost == o2.topmost,
        s1.resizable != s2.resizable ==> o1.resize != o2.resize,
        s1.borderless != s2.borderless ==> o1.borderless != o2.borderless,
{
}

/// A position as minifb takes it.
pub fn position_to_minifb(position: (i32, i32)) -> (r: (isize, isize))
    ensures
        r.0 == position.0,
        r.1 == position.1,
{
    (position.0 as isize, position.1 as isize)
}

/// A position as minifb gives it, back in the window's coordinates; minifb
/// keeps positions as `i32` before it widens them.
pub fn window_position_from_minifb(position: (isize, isize)) -> (r: (i32, i32))
    requires
        i32::MIN <= position.0 <= i32::MAX,
        i32::MIN <= position.1 <= i32::MAX,
    ensures
        r.0 == position.0,
        r.1 == position.1,
{
    (position.0 as i32, position.1 as i32)
}

/// The window size for a buffer of the given dimensions, each cast to `i32`
/// as `as` does (keeping the low 32 bits).
pub fn window_size_from_buffer(width: usize, height: usize) -> (r: (i32, i32))
    ensures
        r.0 == width as i32,
        r.1 == height as i32,
{
    (width as i32, height as i32)
}

/// What the backend asks of minifb and of the operating system to create a
/// window.
#[derive(Debug, Clone, Copy, PartialEq, Eq)]
pub struct WindowRequest {
    /// Width handed to minifb.
    pub width: usize,
    /// Height handed to minifb.
    pub height: usize,
    /// Options handed to minifb.
    pub options: MinifbWindowOptions,
    /// Where the window is then moved.
    pub position: (isize, isize),
    /// Whether the window is then made borderless.
    pub borderless: bool,
    /// Where the window then stands among the others.
    pub window_level: WindowRenderLayer,
}

/// `r` is the request that creates a window with `settings`: the size cast to
/// `usize` as `as` does, the options of [`minifb_window_options_from_options`],
/// the position widened, and the border and level as the settings say.
pub open spec fn request_for_settings(settings: WindowSettings, r: WindowRequest) -> bool {
    &&& r.width == settings.size.0 as usize
    &&& r.height == settings.size.1 as usize
    &&& options_for_settings(settings, r.options)
    &&& r.position.0 == settings.position.0
    &&& r.position.1 == settings.position.1
    &&& r.borderless == settings.borderless
    &&& r.window_level == settings.window_level
}

/// The request that creates a window with `settings`.
pub fn window_request_from_settings(settings: &WindowSettings) -> (r: WindowRequest)
    ensures
        request_for_settings(*settings, r),
{
    WindowRequest {
        width: settings.size.0 as usize,
        height: settings.size.1 as usize,
        options: minifb_window_options_from_options(settings),
        position: position_to_minifb(settings.position),
        borderless: settings.borderless,
        window_level: settings.window_level,
    }
}

/// The window is created with the settings' size and options, then moved to
/// the settings' position, given the settings' border and put in the render
/// layer the settings ask for, whatever the other settings.
pub proof fn law_request_follows_settings(settings: WindowSettings, r: WindowRequest)
    requires
        request_for_settings(settings, r),
    ensures
        r.borderless == settings.borderless,
        r.window_level == settings.window_level,
        r.position.0 == settings.position.0,
        r.position.1 == settings.position.1,
        r.width == settings.size.0 as usize,
        r.height == settings.size.1 as usize,
        r.options.borderless == settings.borderless,
        r.options.resize == settings.resizable,
        r.options.title == settings.title_visible,
        r.options.topmost <==> settings.window_level == WindowRenderLayer::AlwaysOnTop,
{
}

/// Each of the three render layers is the one applied when it is asked for,
/// and two requests differ in border or layer exactly when their settings do.
pub proof fn law_request_border_and_layer(
    s1: WindowSettings,
    s2: WindowSettings,
    r1: WindowRequest,
    r2: WindowRequest,
)
    requires
        request_for_settings(s1, r1),
        request_for_settings(s2, r2),
    ensures
        s1.window_level == WindowRenderLayer::Normal ==> r1.window_level == WindowRenderLayer::Normal,
        s1.window_level == WindowRenderLayer::AlwaysOnTop ==> r1.window_level
            == WindowRenderLayer::AlwaysOnTop,
        s1.window_level == WindowRenderLayer::AlwaysOnBottom ==> r1.window_level
            == WindowRenderLayer::AlwaysOnBottom,
        (r1.borderless == r2.borderless) <==> (s1.borderless == s2.borderless),
        (r1.window_level == r2.window_level) <==> (s1.window_level == s2.window_level),
{
}

/// Settings that differ only in `visible` ask for the same window: minifb has
/// no such option, so the request does not depend on it.
pub proof fn law_request_ignores_visible(
    s1: WindowSettings,
    s2: WindowSettings,
    r1: WindowRequest,
    r2: WindowRequest,
)
    requires
        s1.size == s2.size,
        s1.position == s2.position,
        s1.borderless == s2.borderless,
        s1.title_visible == s2.title_visible,
        s1.resizable == s2.resizable,
        s1.window_level == s2.window_level,
        request_for_settings(s1, r1),
        request_for_settings(s2, r2),
    ensures
        r1 == r2,
{
    assert(r1.options == r2.options);
    assert(r1.position == r2.position);
}

/// The pixels of an icon widened to the 64-bit words that minifb's icon
/// buffer holds.
pub fn icon_buffer_from_pixels(pixels: &[u32]) -> (r: Vec<u64>)
    ensures
        r@.len() == pixels@.len(),
        forall|i: int| 0 <= i < pixels@.len() ==> #[trigger] r@[i] == pixels@[i],
{
    let mut r: Vec<u64> = Vec::new();
    let mut i: usize = 0;
    while i < pixels.len()
        invariant
            i <= pixels@.len(),
            r@.len() == i,
            forall|j: int| 0 <= j < i ==> #[trigger] r@[j] == pixels@[j],
        decreases pixels@.len() - i,
    {
        r.push(pixels[i] as u64);
        i = i + 1;
    }
    r
}

/// How far setting an icon through an `.ico` file got: the pixels are
/// encoded as `.ico`, the file is written to a temporary path, and minifb
/// loads the icon from that path.
#[derive(Debug, PartialEq, Eq)]
pub enum IconFileStep {
    /// The pixels could not be encoded as `.ico`.
    NotEncoded,
    /// The temporary path is not valid Unicode; it is shown as given here.
    PathNotUnicode(String),
    /// The file could not be written to this path.
    NotWritten(String),
    /// minifb could not load the icon from the file.
    NotLoaded,
    /// The icon was set.
    Loaded,
}

/// The message when the pixels cannot be encoded as `.ico`.
pub open spec fn ico_encoding_message() -> Seq<char> {
    "Unable to convert image into .ico, maybe check it's size"@
}

/// The message when the temporary path, shown as `shown`, is not Unicode.
pub open spec fn path_message(shown: Seq<char>) -> Seq<char> {
    "Unable to convert '"@ + shown + "' to string"@
}

/// `r` is what setting the icon answers when it got as far as `step`.
pub open spec fn icon_result_for(step: IconFileStep, r: Result<(), WindowError>) -> bool {
    match step {
        IconFileStep::NotEncoded => r matches Err(WindowError::Misc(m)) && m@
            == ico_encoding_message(),
        IconFileStep::PathNotUnicode(shown) => r matches Err(WindowError::Misc(m)) && m@
            == path_message(shown@),
        IconFileStep::NotWritten(path) => r matches Err(
            WindowError::FileAccessNotPossible { path: p },
        ) && p@ == path@,
        IconFileStep::NotLoaded => r matches Err(WindowError::UnableToLoadIcon),
        IconFileStep::Loaded => r is Ok,
    }
}

/// Each step that fails gives its own error: no `.ico` and a path that is not
/// Unicode give `Misc` with a message (the latter quoting the path), a file
/// that cannot be written gives `FileAccessNotPossible` with that path, an
/// icon that cannot be loaded gives `UnableToLoadIcon`; only a loaded icon
/// gives `Ok`.
pub proof fn law_icon_steps(step: IconFileStep, r: Result<(), WindowError>)
    requires
        icon_result_for(step, r),
    ensures
        step is NotEncoded ==> (r matches Err(WindowError::Misc(m)) && m@
            == "Unable to convert image into .ico, maybe check it's size"@),
        step matches IconFileStep::PathNotUnicode(shown) ==> (r matches Err(WindowError::Misc(m))
            && m@ == "Unable to convert '"@ + shown@ + "' to string"@),
        step matches IconFileStep::NotWritten(path) ==> (r matches Err(
            WindowError::FileAccessNotPossible { path: p },
        ) && p@ == path@),
        step is NotLoaded ==> r == Err::<(), WindowError>(WindowError::UnableToLoadIcon),
        r is Ok <==> step is Loaded,
{
}

/// What setting the icon through an `.ico` file answers, from how far it got.
pub fn icon_file_result(step: IconFileStep) -> (r: Result<(), WindowError>)
    ensures
        icon_result_for(step, r),
{
    match step {
        IconFileStep::NotEncoded => Err(
            WindowError::Misc(
                String::from_str("Unable to convert image into .ico, maybe check it's size"),
            ),
        ),
        IconFileStep::PathNotUnicode(shown) => {
            let mut m = String::from_str("Unable to convert '");
            m.append(shown.as_str());
            m.append("' to string");
            Err(WindowError::Misc(m))
        },
        IconFileStep::NotWritten(path) => Err(WindowError::FileAccessNotPossible { path }),
        IconFileStep::NotLoaded => Err(WindowError::UnableToLoadIcon),
        IconFileStep::Loaded => Ok(()),
    }
}

/// Whether the window's procedure has been replaced so that it can show a
/// custom cursor; that is done once per window.
#[derive(Debug)]
pub struct CursorSubclassing {
    subclassed: bool,
}

impl CursorSubclassing {
    /// The window's procedure has been replaced.
    pub closed spec fn is_subclassed(&self) -> bool {
        self.subclassed
    }

    /// A window whose procedure is still the original one.
    pub fn new() -> (r: Self)
        ensures
            !r.is_subclassed(),
    {
        CursorSubclassing { subclassed: false }
    }

    /// Records that a cursor style is about to be set; returns whether the
    /// window's procedure must be replaced first, which is so exactly the first
    /// time.
    pub fn request_subclass(&mut self) -> (needed: bool)
        ensures
            needed == !old(self).is_subclassed(),
            final(self).is_subclassed(),
    {
        let needed = !self.subclassed;
        self.subclassed = true;
        needed
    }

    /// Whether the window's procedure has been replaced.
    pub fn subclassed(&self) -> (r: bool)
        ensures
            r == self.is_subclassed(),
    {
        self.subclassed
    }
}

} // verus!
