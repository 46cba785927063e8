//! Typed, verified access to the firmware's service tables: identifiers,
//! status codes, size-discovery loops, device paths and time records.

pub mod status;
pub mod time;
pub mod text;
pub mod guid;
pub mod variables;
pub mod device_path;
pub mod boot_manager;
pub mod table;
pub mod dxe;
pub mod block_io;
pub mod loaded_image;
