use vstd::prelude::*;
use crate::error::ErrorType;

verus! {

/// What the windowing toolkit reports about a window: the active windowing
/// subsystem and the native handles that subsystem uses, as plain values.
#[derive(Debug, Clone, Copy, PartialEq, Eq, Structural)]
pub enum WindowSystem {
    /// An X11 display server: the `Display*` connection and the window id.
    X11 { display: usize, window: u64 },
    /// A Wayland compositor: the `wl_display*` and the `wl_surface*`.
    Wayland { display: usize, surface: usize },
    /// Win32: the module's `HINSTANCE` and the window's `HWND`.
    Windows { hinstance: usize, hwnd: usize },
    /// Android: the `ANativeWindow*`.
    Android { window: usize },
    /// Any other subsystem, by the toolkit's tag for it.
    Other { tag: u32 },
}

/// The platform-specific surface extensions of a Vulkan instance.
#[derive(Debug, Clone, Copy, PartialEq, Eq, Structural)]
pub enum PlatformExtension {
    /// `VK_KHR_xlib_surface`
    Xlib,
    /// `VK_KHR_wayland_surface`
    Wayland,
    /// `VK_KHR_win32_surface`
    Win32,
    /// `VK_KHR_android_surface`
    Android,
}

/// The surface extensions to enable when creating a Vulkan instance.
#[derive(Debug, Clone, Copy, PartialEq, Eq, Structural)]
pub struct ExtensionSet {
    pub khr_surface: bool,
    pub khr_xlib_surface: bool,
    pub khr_wayland_surface: bool,
    pub khr_win32_surface: bool,
    pub khr_android_surface: bool,
}

/// Which platform surface constructor to call, with its native handles.
#[derive(Debug, Clone, Copy, PartialEq, Eq, Structural)]
pub enum SurfaceRequest {
    Xlib { display: usize, window: u64 },
    Wayland { display: usize, surface: usize },
    Win32 { hinstance: usize, hwnd: usize },
    Android { window: usize },
}

/// The outcome of asking the windowing toolkit about a window: its
/// information, or a failure with the toolkit's last error text if that
/// text could be read.
#[derive(Debug, PartialEq, Eq)]
pub enum WmAnswer {
    Info(WindowSystem),
    Failed(Option<String>),
}

impl WindowSystem {
    /// The surface extension this subsystem needs, if it is supported.
    pub open spec fn platform(self) -> Option<PlatformExtension> {
        match self {
            WindowSystem::X11 { .. } => Some(PlatformExtension::Xlib),
            WindowSystem::Wayland { .. } => Some(PlatformExtension::Wayland),
            WindowSystem::Windows { .. } => Some(PlatformExtension::Win32),
            WindowSystem::Android { .. } => Some(PlatformExtension::Android),
            WindowSystem::Other { .. } => None,
        }
    }

    /// Whether a surface can be built for this subsystem.
    pub fn is_supported(&self) -> (r: bool)
        ensures
            r == self.platform() is Some,
    {
        !matches!(self, WindowSystem::Other { .. })
    }
}

impl ExtensionSet {
    /// Whether the given platform extension is enabled.
    pub open spec fn enables(self, p: PlatformExtension) -> bool {
        match p {
            PlatformExtension::Xlib => self.khr_xlib_surface,
            PlatformExtension::Wayland => self.khr_wayland_surface,
            PlatformExtension::Win32 => self.khr_win32_surface,
            PlatformExtension::Android => self.khr_android_surface,
        }
    }

    /// How many platform extensions are enabled.
    pub open spec fn platform_count(self) -> nat {
        (if self.khr_xlib_surface { 1nat } else { 0nat }) + (if self.khr_wayland_surface {
            1nat
        } else {
            0nat
        }) + (if self.khr_win32_surface { 1nat } else { 0nat }) + (if self.khr_android_surface {
            1nat
        } else {
            0nat
        })
    }

    /// The base surface extension together with exactly one platform one.
    pub open spec fn base_with(p: PlatformExtension) -> ExtensionSet {
        ExtensionSet {
            khr_surface: true,
            khr_xlib_surface: p == PlatformExtension::Xlib,
            khr_wayland_surface: p == PlatformExtension::Wayland,
            khr_win32_surface: p == PlatformExtension::Win32,
            khr_android_surface: p == PlatformExtension::Android,
        }
    }

    /// The set with nothing enabled.
    pub fn none() -> (r: ExtensionSet)
        ensures
            !r.khr_surface,
            r.platform_count() == 0,
    {
        ExtensionSet {
            khr_surface: false,
            khr_xlib_surface: false,
            khr_wayland_surface: false,
            khr_win32_surface: false,
            khr_android_surface: false,
        }
    }
}

impl SurfaceRequest {
    /// The instance extension that this constructor depends on.
    pub open spec fn extension(self) -> PlatformExtension {
        match self {
            SurfaceRequest::Xlib { .. } => PlatformExtension::Xlib,
            SurfaceRequest::Wayland { .. } => PlatformExtension::Wayland,
            SurfaceRequest::Win32 { .. } => PlatformExtension::Win32,
            SurfaceRequest::Android { .. } => PlatformExtension::Android,
        }
    }
}

/// The window information, or the error a failed query is reported as.
pub open spec fn wminfo_of(answer: WmAnswer) -> Result<WindowSystem, ErrorType> {
    match answer {
        WmAnswer::Info(info) => Ok(info),
        WmAnswer::Failed(Some(message)) => Err(ErrorType::Generic(message)),
        WmAnswer::Failed(None) => Err(ErrorType::Unknown),
    }
}

/// The extensions that a window with this subsystem needs.
pub open spec fn extensions_for(info: WindowSystem) -> Result<ExtensionSet, ErrorType> {
    match info.platform() {
        Some(p) => Ok(ExtensionSet::base_with(p)),
        None => Err(ErrorType::PlatformNotSupported),
    }
}

/// The surface constructor for this subsystem, with the handles it takes.
pub open spec fn request_for(info: WindowSystem) -> Option<SurfaceRequest> {
    match info {
        WindowSystem::X11 { display, window } => Some(SurfaceRequest::Xlib { display, window }),
        WindowSystem::Wayland { display, surface } => Some(
            SurfaceRequest::Wayland { display, surface },
        ),
        WindowSystem::Windows { hinstance, hwnd } => Some(SurfaceRequest::Win32 { hinstance, hwnd }),
        WindowSystem::Android { window } => Some(SurfaceRequest::Android { window }),
        WindowSystem::Other { .. } => None,
    }
}

/// What `required_extensions` returns for a query outcome.
pub open spec fn required_for(answer: WmAnswer) -> Result<ExtensionSet, ErrorType> {
    match wminfo_of(answer) {
        Ok(info) => extensions_for(info),
        Err(e) => Err(e),
    }
}

/// Reads the outcome of the window-system query: the information itself,
/// `Generic` with the toolkit's message, or `Unknown` when no message could
/// be read.
pub fn get_wminfo(answer: WmAnswer) -> (r: Result<WindowSystem, ErrorType>)
    ensures
        r == wminfo_of(answer),
{
    match answer {
        WmAnswer::Info(info) => Ok(info),
        WmAnswer::Failed(Some(message)) => Err(ErrorType::Generic(message)),
        WmAnswer::Failed(None) => Err(ErrorType::Unknown),
    }
}

/// The instance extensions needed to present to the queried window: the
/// base surface extension and the one for its subsystem.
pub fn required_extensions(answer: WmAnswer) -> (r: Result<ExtensionSet, ErrorType>)
    ensures
        r == required_for(answer),
{
    let info = match get_wminfo(answer) {
        Ok(info) => info,
        Err(e) => return Err(e),
    };
    let mut extensions = ExtensionSet { khr_surface: true, ..ExtensionSet::none() };
    match info {
        WindowSystem::X11 { .. } => extensions.khr_xlib_surface = true,
        WindowSystem::Wayland { .. } => extensions.khr_wayland_surface = true,
        WindowSystem::Windows { .. } => extensions.khr_win32_surface = true,
        WindowSystem::Android { .. } => extensions.khr_android_surface = true,
        WindowSystem::Other { .. } => return Err(ErrorType::PlatformNotSupported),
    }
    Ok(extensions)
}

/// Chooses the surface constructor for a supported subsystem.
pub fn surface_request(info: &WindowSystem) -> (r: SurfaceRequest)
    requires
        info.platform() is Some,
    ensures
        request_for(*info) == Some(r),
{
    match *info {
        WindowSystem::X11 { display, window } => SurfaceRequest::Xlib { display, window },
        WindowSystem::Wayland { display, surface } => SurfaceRequest::Wayland { display, surface },
        WindowSystem::Windows { hinstance, hwnd } => SurfaceRequest::Win32 { hinstance, hwnd },
        WindowSystem::Android { window } => SurfaceRequest::Android { window },
        WindowSystem::Other { .. } => unreached(),
    }
}

/// Decides how to build a surface for the queried window: the query's
/// error, or the constructor to call. A successful query must report a
/// supported subsystem.
pub fn build_vk_surface(answer: WmAnswer) -> (r: Result<SurfaceRequest, ErrorType>)
    requires
        answer matches WmAnswer::Info(info) ==> info.platform() is Some,
    ensures
        r == match wminfo_of(answer) {
            Ok(info) => Ok(request_for(info).unwrap()),
            Err(e) => Err(e),
        },
{
    match get_wminfo(answer) {
        Ok(info) => Ok(surface_request(&info)),
        Err(e) => Err(e),
    }
}

/// A supported subsystem needs the base surface extension and exactly one
/// platform extension, the one for that subsystem; any other subsystem is
/// refused as unsupported.
pub proof fn lemma_extensions_base_plus_one(info: WindowSystem)
    ensures
        info.platform() is Some ==> {
            &&& extensions_for(info) matches Ok(e)
            &&& e.khr_surface
            &&& e.platform_count() == 1
            &&& forall|p: PlatformExtension| e.enables(p) <==> info.platform() == Some(p)
        },
        info.platform() is None ==> extensions_for(info) == Err::<ExtensionSet, ErrorType>(
            ErrorType::PlatformNotSupported,
        ),
{
}

/// Asking twice about the same window state gives the same extensions.
pub proof fn lemma_required_extensions_repeatable(a: WmAnswer, b: WmAnswer)
    requires
        a == b,
    ensures
        required_for(a) == required_for(b),
{
}

/// The platform extension that `required_extensions` enables for a
/// subsystem is exactly the one that the chosen surface constructor
/// depends on, and it is the only platform extension enabled.
pub proof fn lemma_request_matches_extension(info: WindowSystem)
    requires
        info.platform() is Some,
    ensures
        request_for(info) matches Some(req) && extensions_for(info) matches Ok(e) && {
            &&& info.platform() == Some(req.extension())
            &&& forall|p: PlatformExtension| e.enables(p) <==> p == req.extension()
        },
{
}

} // verus!
