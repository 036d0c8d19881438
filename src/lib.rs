//! Window lifecycle management for graphics applications: resolving display-mode
//! requests against the monitors at hand, and the creation and rebuild protocol
//! of a window with its surface and presentation chain.

pub mod errors;
pub mod spec;
pub mod resolve;
pub mod window;

pub use errors::WindowError as Error;
pub use window::Window;
