//! Toolchain support for a C# language server: resolving which release
//! asset to download for the current platform, validating a cached copy of
//! the binary against its recorded digest, locating the executable inside
//! an extracted archive, and pulling named properties out of the build
//! tool's loosely formatted output.

pub mod acquire;
pub mod cache;
pub mod extract;
pub mod fstree;
pub mod json;
pub mod release;
pub mod text;
pub mod workspace;
