//! Keyboard-and-gamepad navigation for retained-focus, immediate-mode UIs.
//!
//! The crate is an input-to-focus decision engine. Once per frame, before the
//! UI tree is built, the host toolkit hands it the device state as plain
//! values (pressed key codes, gamepad buttons, axis levels in thousandths, the
//! clock in microseconds, the currently focused node). The engine turns that
//! into discrete, rate-limited navigation pulses, picks the node that should
//! receive focus when a direction fires, tracks press/hold/release activation,
//! and can intercept raw input for a few frames so the player can record a new
//! key or chord binding. The UI-building pass then queries the engine while
//! laying out each interactive element ("node").
//!
//! Geometry is in integer logical pixels, time in integer microseconds and
//! axis levels in integer thousandths, so every rule of the engine is stated
//! and proved exactly.

pub mod assoc;
pub mod bits;
pub mod capture;
pub mod context;
pub mod driver;
pub mod input;
pub mod navigation;
pub mod registry;
pub mod release;
pub mod resolver;
pub mod timing;
