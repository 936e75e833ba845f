//! Naming rules for native add-on packages: how a compiler target triple maps
//! to the platform, architecture and ABI names that distribution packages use,
//! and what the command that sets up a new project asks for and writes.

pub mod arch;
pub mod command;
pub mod new;
pub mod package;
pub mod plain;
pub mod platform;
pub mod targets;
pub mod template;
pub mod text;
pub mod triple;

pub use arch::NodeArch;
pub use command::{CommandResult, Executable};
pub use new::NewCommand;
pub use package::{package_name_to_binary_name, package_name_to_crate_name};
pub use platform::NodePlatform;
pub use targets::{AVAILABLE_TARGETS, DEFAULT_TARGETS};
pub use triple::{PlatformDetail, TripleError};
