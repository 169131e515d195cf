use vulkano_sdl2::{
    build_vk_surface, get_wminfo, required_extensions, translate_failure, translate_vk_result,
    surface_request, ErrorType, ExtensionSet, SurfaceFailure, SurfaceRequest, WindowSystem,
    WmAnswer,
};


fn base() -> ExtensionSet {
    ExtensionSet { khr_surface: true, ..ExtensionSet::none() }
}

#[test]
fn display_server_platform() {
    let info = WindowSystem::X11 { display: 0x1000, window: 42 };
    let exts = required_extensions(WmAnswer::Info(info)).unwrap();
    assert_eq!(exts, ExtensionSet { khr_xlib_surface: true, ..base() });
    assert_eq!(
        build_vk_surface(WmAnswer::Info(info)),
        Ok(SurfaceRequest::Xlib { display: 0x1000, window: 42 })
    );
}

#[test]
fn compositor_platform() {
    let info = WindowSystem::Wayland { display: 7, surface: 9 };
    assert_eq!(
        required_extensions(WmAnswer::Info(info)),
        Ok(ExtensionSet { khr_wayland_surface: true, ..base() })
    );
    assert_eq!(build_vk_surface(WmAnswer::Info(info)), Ok(SurfaceRequest::Wayland { display: 7, surface: 9 }));
}

#[test]
fn desktop_os_platform() {
    let info = WindowSystem::Windows { hinstance: 3, hwnd: 4 };
    assert_eq!(
        required_extensions(WmAnswer::Info(info)),
        Ok(ExtensionSet { khr_win32_surface: true, ..base() })
    );
    assert_eq!(build_vk_surface(WmAnswer::Info(info)), Ok(SurfaceRequest::Win32 { hinstance: 3, hwnd: 4 }));
}

#[test]
fn mobile_os_platform() {
    let info = WindowSystem::Android { window: 11 };
    assert_eq!(
        required_extensions(WmAnswer::Info(info)),
        Ok(ExtensionSet { khr_android_surface: true, ..base() })
    );
    assert_eq!(build_vk_surface(WmAnswer::Info(info)), Ok(SurfaceRequest::Android { window: 11 }));
}

#[test]
fn unsupported_platform() {
    let info = WindowSystem::Other { tag: 4 };
    assert!(!info.is_supported());
    assert_eq!(required_extensions(WmAnswer::Info(info)), Err(ErrorType::PlatformNotSupported));
}

#[test]
fn supported_platforms_are_recognised() {
    assert!(WindowSystem::X11 { display: 1, window: 2 }.is_supported());
    assert!(WindowSystem::Wayland { display: 1, surface: 2 }.is_supported());
    assert!(WindowSystem::Windows { hinstance: 1, hwnd: 2 }.is_supported());
    assert!(WindowSystem::Android { window: 1 }.is_supported());
}

#[test]
fn required_extensions_repeatable() {
    let info = WindowSystem::Wayland { display: 5, surface: 6 };
    let first = required_extensions(WmAnswer::Info(info));
    let second = required_extensions(WmAnswer::Info(info));
    assert_eq!(first, second);
    let other = WindowSystem::Other { tag: 0 };
    assert_eq!(
        required_extensions(WmAnswer::Info(other)),
        required_extensions(WmAnswer::Info(other))
    );
}

#[test]
fn required_extension_is_the_constructor_dependency() {
    let info = WindowSystem::X11 { display: 1, window: 2 };
    let exts = required_extensions(WmAnswer::Info(info)).unwrap();
    assert!(matches!(surface_request(&info), SurfaceRequest::Xlib { .. }));
    assert!(exts.khr_surface && exts.khr_xlib_surface);
    assert!(!exts.khr_wayland_surface && !exts.khr_win32_surface && !exts.khr_android_surface);
}

#[test]
fn missing_extension() {
    let created: Result<u32, SurfaceFailure> =
        Err(SurfaceFailure::MissingExtension(String::from("VK_KHR_xlib_surface")));
    assert_eq!(
        translate_vk_result(created),
        Err(ErrorType::MissingExtension(String::from("VK_KHR_xlib_surface")))
    );
}

#[test]
fn out_of_memory() {
    assert_eq!(translate_failure(SurfaceFailure::OutOfMemory), ErrorType::OutOfMemory);
    let created: Result<u32, SurfaceFailure> = Err(SurfaceFailure::OutOfMemory);
    assert_eq!(translate_vk_result(created), Err(ErrorType::OutOfMemory));
}

#[test]
fn created_surface_passes_through() {
    let created: Result<u32, SurfaceFailure> = Ok(17);
    assert_eq!(translate_vk_result(created), Ok(17));
}

#[test]
fn info_query_failure_with_message() {
    let msg = "Couldn't find SDL_SysWMinfo";
    assert_eq!(
        get_wminfo(WmAnswer::Failed(Some(String::from(msg)))),
        Err(ErrorType::Generic(String::from(msg)))
    );
    assert_eq!(
        required_extensions(WmAnswer::Failed(Some(String::from(msg)))),
        Err(ErrorType::Generic(String::from(msg)))
    );
    assert_eq!(
        build_vk_surface(WmAnswer::Failed(Some(String::from(msg)))),
        Err(ErrorType::Generic(String::from(msg)))
    );
}

#[test]
fn info_query_failure_without_message() {
    assert_eq!(get_wminfo(WmAnswer::Failed(None)), Err(ErrorType::Unknown));
    assert_eq!(required_extensions(WmAnswer::Failed(None)), Err(ErrorType::Unknown));
    assert_eq!(build_vk_surface(WmAnswer::Failed(None)), Err(ErrorType::Unknown));
}

#[test]
fn info_query_success() {
    let info = WindowSystem::Android { window: 8 };
    assert_eq!(get_wminfo(WmAnswer::Info(info)), Ok(info));
}

#[test]
fn empty_extension_set() {
    let none = ExtensionSet::none();
    assert!(!none.khr_surface && !none.khr_xlib_surface && !none.khr_wayland_surface);
    assert!(!none.khr_win32_surface && !none.khr_android_surface);
}
