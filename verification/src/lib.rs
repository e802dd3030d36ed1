//! Verified engines of a CHIP-8 / SCHIP / XO-CHIP emulator core.
//!
//! The architectural state with its mathematical model, the sprite,
//! scroll and clear engines, the palette, the arithmetic and logic
//! group, register save and load, binary-coded decimal, the skip rule
//! for the long-form opcode, the cacheable-opcode predicate, the
//! watchpoints and the keypad all live here, each specified against the
//! model. A host driver owns the fetch loop and the frame pacing.

pub mod draw;
pub mod keyboard;
pub mod ops;
pub mod oracle;
pub mod palette;
pub mod fonts;
pub mod scroll;
pub mod state;
pub mod watchpoints;
