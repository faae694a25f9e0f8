//! A runner for one compute shader over one storage buffer.
//!
//! The runner never touches the graphics driver itself. Building a program and running it are
//! each a small machine that names the next command for the driver and takes the driver's
//! reply; the host performs the commands. What the machines ask for, in which order, and what
//! they make of the replies is proved here, whatever the driver answers.

pub mod compile;
pub mod dispatch;
pub mod driver;
pub mod log;
pub mod source;
pub mod words;
