//! HID driver support: capability masks, device identity tables, host status
//! codes, reliable report delivery and the game-controller connection state
//! machine. The host framework itself is driven from outside this crate: the
//! state machines here decide, the caller performs each requested host call
//! and feeds its status back.
pub mod error;
pub mod id;
pub mod mask;
pub mod nintendo;
pub mod send;
