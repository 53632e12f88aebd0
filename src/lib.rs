//! Core of a motion-tracker firmware: the binary wire protocol (framing,
//! sequencing, bit-exact encode and decode of the message set) and the
//! primitives that move data between its cooperative tasks.
pub mod bytes;
pub mod clientbound;
pub mod control;
pub mod hal;
pub mod mailbox;
pub mod packet;
pub mod sequence;
pub mod serverbound;
pub mod slot;

pub use clientbound::CBPacket;
pub use control::{receive, SendError, Sender};
pub use hal::{Delay, I2c};
pub use mailbox::{Mailbox, Packets};
pub use packet::{DecodeError, EncodeError, Packet};
pub use sequence::{is_newer, SequenceCounter};
pub use serverbound::{SBMessage, SBPacket};
pub use slot::Unreliable;
