//! Identity value types for a multi-party calling system: the kind of a call,
//! the demultiplexing id of one participant's media stream, and an opaque
//! room identifier with a privacy-preserving rendering.

pub mod call_type;
pub mod demux_id;
pub mod render;
pub mod room_id;

pub use call_type::CallType;
pub use call_type::UnrecognizedCallTypeError;
pub use demux_id::DemuxId;
pub use demux_id::InvalidDemuxIdError;
pub use demux_id::dummy_demux_id;
pub use room_id::RoomId;
