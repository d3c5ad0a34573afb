//! Never-panic primitives and the error taxonomy they report in.
//!
//! The library performs no input or output itself. Every primitive is split
//! in what it decides and what its caller performs.
//!
//! - Where the library has a say in the work (a text to write, a request to
//!   send, the settings of a client), the function named after the
//!   primitive returns that work, and the returned value's `finish` takes
//!   the outcome and gives the primitive's result.
//! - Where the work takes several steps, the function returns the first
//!   step, and each step's `resume` takes its outcome and gives the next
//!   step or the result ([`protocol::Next`]).
//! - Where the work is fixed (asking for the working directory, opening a
//!   directory), the function takes the outcome itself.
//!
//! A fault of the outside world always comes back as a value of
//! [`error::ShawtyError`], never as a panic, and it is reported once:
//! nothing is tried again.

pub mod command;
pub mod console;
pub mod directory;
pub mod error;
pub mod network;
pub mod protocol;
pub mod text;

pub use crate::console::{dp, hold_console, input, print_no_panic, println_no_panic};
pub use crate::directory::{create_dir_and_check, get_cwd_path, list_directory};
pub use crate::network::{create_client, get_request, post_request, send_to_discord_webhook};
