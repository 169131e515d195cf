//! Turns what a windowing toolkit reports about a window into what a Vulkan
//! instance and surface need: the instance extensions to enable, and which
//! platform surface constructor to call with which native handles.

pub mod error;
pub mod platform;

pub use error::{translate_failure, translate_vk_result, ErrorType, SurfaceFailure};
pub use platform::{
    build_vk_surface, get_wminfo, required_extensions, ExtensionSet, PlatformExtension,
    surface_request, SurfaceRequest, WindowSystem, WmAnswer,
};
