use vstd::prelude::*;

verus! {

/// Everything that can go wrong while preparing or building a surface.
#[derive(Debug, PartialEq, Eq)]
pub enum ErrorType {
    /// The window-system query failed and no error text could be read.
    Unknown,
    /// The window's subsystem has no matching surface extension.
    PlatformNotSupported,
    /// The graphics API ran out of memory while creating the surface.
    OutOfMemory,
    /// The instance was created without the named extension.
    MissingExtension(String),
    /// The window-system query failed with this message.
    Generic(String),
}

/// The ways a platform surface constructor of the graphics API reports
/// failure, as plain values.
#[derive(Debug, PartialEq, Eq)]
pub enum SurfaceFailure {
    /// The driver could not allocate the surface.
    OutOfMemory,
    /// The instance lacks the extension with this name.
    MissingExtension(String),
}

/// The error that a surface-creation failure is reported as.
pub open spec fn translated(f: SurfaceFailure) -> ErrorType {
    match f {
        SurfaceFailure::OutOfMemory => ErrorType::OutOfMemory,
        SurfaceFailure::MissingExtension(name) => ErrorType::MissingExtension(name),
    }
}

/// Maps a surface-creation failure to this library's error, keeping the
/// name of a missing extension.
pub fn translate_failure(f: SurfaceFailure) -> (r: ErrorType)
    ensures
        r == translated(f),
{
    match f {
        SurfaceFailure::OutOfMemory => ErrorType::OutOfMemory,
        SurfaceFailure::MissingExtension(name) => ErrorType::MissingExtension(name),
    }
}

/// Passes a created surface through and translates a failure.
pub fn translate_vk_result<S>(obj: Result<S, SurfaceFailure>) -> (r: Result<S, ErrorType>)
    ensures
        r == match obj {
            Ok(s) => Ok::<S, ErrorType>(s),
            Err(f) => Err(translated(f)),
        },
{
    match obj {
        Ok(x) => Ok(x),
        Err(f) => Err(translate_failure(f)),
    }
}

/// Every surface-creation failure becomes exactly one error, of the
/// matching kind, and distinct failures stay distinct.
pub proof fn lemma_translation_total(f: SurfaceFailure, g: SurfaceFailure)
    ensures
        f is OutOfMemory <==> translated(f) is OutOfMemory,
        f is MissingExtension <==> translated(f) is MissingExtension,
        translated(f) is OutOfMemory || translated(f) is MissingExtension,
        translated(f) == translated(g) ==> f == g,
{
}

} // verus!
