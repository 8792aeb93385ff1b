//! Startup parameters of the window, and the step that turns them into a
//! window and its event source.
use vstd::prelude::*;
use winit::dpi::PhysicalSize;
use winit::error::{EventLoopError, OsError};
use winit::event_loop::{EventLoop, EventLoopBuilder};
use winit::platform::x11::EventLoopBuilderExtX11;
use winit::window::{Window, WindowBuilder};

verus! {

#[verifier::external_type_specification]
#[verifier::external_body]
#[verifier::reject_recursive_types(T)]
pub struct ExEventLoop<T: 'static>(EventLoop<T>);

#[verifier::external_type_specification]
#[verifier::external_body]
pub struct ExWindow(Window);

#[verifier::external_type_specification]
#[verifier::external_body]
pub struct ExEventLoopError(EventLoopError);

#[verifier::external_type_specification]
#[verifier::external_body]
pub struct ExOsError(OsError);

/// Width of the window when none is given, in pixels.
pub const DEFAULT_WIDTH: u32 = 800;

/// Height of the window when none is given, in pixels.
pub const DEFAULT_HEIGHT: u32 = 600;

/// The title given to the window when none is chosen.
pub open spec fn default_title() -> Seq<char> {
    seq!['e', 'n', 'i', 'g', 'm', 'a', ' ', 'd', 'e', 'm', 'o']
}

/// The parameters that a window is opened with.
#[derive(Clone)]
pub struct AppBuilder {
    pub width: u32,
    pub height: u32,
    pub title: String,
}

impl Default for AppBuilder {
    fn default() -> (r: Self)
        ensures
            r.width == DEFAULT_WIDTH,
            r.height == DEFAULT_HEIGHT,
            r.title@ == default_title(),
    {
        let title = "enigma demo".to_string();
        proof {
            reveal_strlit("enigma demo");
        }
        AppBuilder { width: DEFAULT_WIDTH, height: DEFAULT_HEIGHT, title }
    }
}

/// The largest width or height that a window can have, in pixels.
pub const MAX_SIDE: u32 = 65535;

/// A side of `n` pixels can be asked for.
pub open spec fn side_ok(n: u32) -> bool {
    0 < n <= MAX_SIDE
}

/// A title can be handed to the windowing system: it holds no NUL character.
pub open spec fn title_ok(title: Seq<char>) -> bool {
    !title.contains('\0')
}

/// Why a window and its event source could not be built.
pub enum BuildError {
    /// The width or the height is 0 or above `MAX_SIDE`.
    InvalidSize,
    /// The title holds a NUL character.
    InvalidTitle,
    /// The event source could not be created: no display, or one was
    /// created before in this process.
    EventLoop(EventLoopError),
    /// The windowing system refused to open the window.
    WindowCreation(OsError),
}

/// A window, with the title and inner size it was asked for.
pub struct AppWindow {
    pub window: Window,
    pub width: u32,
    pub height: u32,
    pub title: String,
}

/// Turns a value into what it describes.
pub trait Builder<T> {
    fn build(self) -> T;
}

/// What a lifecycle call is handed: the running instance and its window.
pub struct Application {
    pub window: Option<AppWindow>,
}

impl Application {
    /// A configuration that holds the default parameters.
    pub fn build() -> (r: AppBuilder)
        ensures
            r.width == DEFAULT_WIDTH,
            r.height == DEFAULT_HEIGHT,
            r.title@ == default_title(),
    {
        AppBuilder::default()
    }
}

/// Relies on winit's `EventLoopBuilder::new`, `EventLoopBuilderExtX11::with_any_thread`
/// and `EventLoopBuilder::build`, which open the connection to the display
/// from any thread. They fail when there is no display, or when an event loop
/// was created before in this process.
#[verifier::external_body]
fn new_event_loop() -> (r: Result<EventLoop<()>, EventLoopError>) {
    let mut builder = EventLoopBuilder::new();
    builder.with_any_thread(true);
    builder.build()
}

/// Relies on winit's `WindowBuilder::new`, `with_title`, `with_inner_size`
/// and `build`: asks the windowing system for a window with this title and
/// this inner size in physical pixels, and hands the three back beside it.
/// winit panics on a side that does not fit in 16 bits and on a title with a
/// NUL character.
#[verifier::external_body]
fn open_window(event_loop: &EventLoop<()>, title: String, width: u32, height: u32) -> (r: Result<
    AppWindow,
    OsError,
>)
    requires
        width <= MAX_SIDE,
        height <= MAX_SIDE,
        title_ok(title@),
    ensures
        r matches Ok(w) ==> w.width == width && w.height == height && w.title@ == title@,
{
    WindowBuilder::new().with_title(title.as_str()).with_inner_size(
        PhysicalSize::new(width, height),
    ).build(event_loop).map(|window| AppWindow { window, width, height, title })
}

/// Whether `title` holds a NUL character.
pub fn has_nul(title: &str) -> (r: bool)
    ensures
        r == !title_ok(title@),
{
    let mut found = false;
    for c in it: title.chars()
        invariant
            it.seq() == title@,
            found <==> exists|i: int| 0 <= i < it.index() && it.seq()[i] == '\0',
    {
        if c == '\0' {
            found = true;
        }
    }
    found
}

/// The result of a build once the event source is open: the window and the
/// event source, or the window's failure as `WindowCreation`.
pub fn window_built(event_loop: EventLoop<()>, window: Result<AppWindow, OsError>) -> (r: Result<
    (EventLoop<()>, AppWindow),
    BuildError,
>)
    ensures
        window matches Ok(w) ==> r == Ok::<_, BuildError>((event_loop, w)),
        window matches Err(e) ==> r == Err::<(EventLoop<()>, AppWindow), _>(
            BuildError::WindowCreation(e),
        ),
{
    match window {
        Ok(w) => Ok((event_loop, w)),
        Err(e) => Err(BuildError::WindowCreation(e)),
    }
}

/// Checks the size and the title, then opens the event source, then the
/// window with this title and size; the error says which step failed.
impl Builder<Result<(EventLoop<()>, AppWindow), BuildError>> for AppBuilder {
    fn build(self) -> (r: Result<(EventLoop<()>, AppWindow), BuildError>)
        ensures
            r matches Err(BuildError::InvalidSize) <==> !(side_ok(self.width) && side_ok(
                self.height,
            )),
            r matches Err(BuildError::InvalidTitle) <==> side_ok(self.width) && side_ok(
                self.height,
            ) && !title_ok(self.title@),
            r matches Ok((_, w)) ==> w.width == self.width && w.height == self.height
                && w.title@ == self.title@,
            side_ok(self.width) && side_ok(self.height) && title_ok(self.title@) ==> (r is Ok
                || r matches Err(BuildError::EventLoop(_)) || r matches Err(
                BuildError::WindowCreation(_),
            )),
    {
        if self.width == 0 || self.width > MAX_SIDE || self.height == 0 || self.height > MAX_SIDE {
            return Err(BuildError::InvalidSize);
        }
        if has_nul(self.title.as_str()) {
            return Err(BuildError::InvalidTitle);
        }
        match new_event_loop() {
            Err(e) => Err(BuildError::EventLoop(e)),
            Ok(event_loop) => {
                let window = open_window(&event_loop, self.title, self.width, self.height);
                window_built(event_loop, window)
            },
        }
    }
}

} // verus!
