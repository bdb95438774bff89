//! Firmware configuration patching.
//!
//! A compiled firmware image carries no settings of its own. Before it is
//! flashed, a configuration block is appended after its last byte: an
//! eight-byte header the boot code scans for, a one-byte magic marker, and
//! the configuration record in MessagePack's positional (array) form.
//! The layout is a wire contract with the firmware's boot-time parser and is
//! stated here byte for byte.
//!
//! - [`record`]: the configuration record and its encoding.
//! - [`layout`]: the appended block and the configured image.
//! - [`patch`]: the patch operation and the order of its failures.
//! - [`scan`]: when the header can be found inside an encoded record.
//! - [`error`]: the failures a request can meet.
//! - [`greeting`]: the installer's greeting.

pub mod error;
pub mod greeting;
pub mod layout;
pub mod patch;
pub mod record;
pub mod scan;

pub use error::CmdError;
pub use greeting::greet;
pub use layout::{overwrite, HEADER, MAGIC};
pub use patch::{append_config, patch_into, plan, PatchJob, OUTPUT_FILE_NAME};
pub use record::{encoded_or_error, Config, MAX_NAME_BYTES, NAME_TOO_LONG, WRITE_FAILED};
