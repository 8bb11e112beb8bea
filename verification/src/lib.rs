//! Server-side core of the BrlAPI wire protocol: the packet codec, the
//! 64-bit keycode codec, the per-connection session state machine, and the
//! display state that owns the braille matrix.
//!
//! The codec round-trips every packet variant: parsing the encoding of a
//! well-formed packet yields the packet, and re-encoding a parsed frame
//! yields the frame, flag words with undefined bits aside.  The display
//! state publishes one snapshot, with the cursor overlay applied on top,
//! per mutating command.  The laws live in `laws` and `display`.

pub mod codec;
pub mod display;
pub mod keycode;
pub mod laws;
pub mod packets;
pub mod parse;
pub mod session;
pub mod text;
pub mod wire;
