//! Verified core of a clipboard plugin: the lifecycle of the clipboard-change
//! monitor, the events it reports to the host, the rules for file URIs and
//! the image conversions.
//!
//! Nothing here touches the system clipboard, a thread or the host. Operations
//! that need them return the effects to perform, in order, and take the
//! outcome of outside work as plain values.

pub mod codec;
pub mod event;
pub mod files;
pub mod monitor;
pub mod trace;
pub mod types;
pub mod worker;

pub use codec::{
    base64_from_clipboard_image, base64_from_encoded, image_data_to_base64, image_data_to_bytes,
    image_from_base64, image_from_bytes, image_from_decoded, image_from_read,
    png_from_clipboard_image, ImageData, ImageView,
};
pub use event::{EventView, MonitorEvent, Payload, PayloadView};
pub use files::{
    check_file_uris, paths_from_uris, starts_with_file_scheme, strip_file_scheme, uris_from_paths,
    Platform,
};
pub use monitor::{Clipboard, Effect};
pub use types::AvailableTypes;
pub use worker::{ClipboardMonitor, Reaction};
