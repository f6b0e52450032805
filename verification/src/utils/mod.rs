//! Helpers shared by the installation flow: the SDKMAN! directory, platform
//! checks, and shell configuration files.
pub mod fs_helpers;
pub mod platform;
pub mod shell;
