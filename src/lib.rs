//! Now-playing media metadata: the verified core of the snapshot record,
//! artwork encoding and sniffing, the adapter bridge's decisions and change
//! detection for subscriptions.
pub mod bridge;
pub mod codec;
pub mod mime;
pub mod snapshot;
pub mod watch;

pub use bridge::{access_granted, adapter_output_line, adapter_test_status, frame_adapter_output, needs_extract, Command};
pub use codec::{base64_decode, base64_encode};
pub use mime::detect_image_mime_type;
pub use snapshot::{assemble_snapshot, is_playing, test_access, F64Bits, InfoKey, NowPlayingFields, NowPlayingInfo, ValueKind};
pub use watch::ChangeDetector;
