//! Debounced push-buttons and quadrature rotary encoders.
//!
//! The drivers here hold no pins: a caller samples its input pins and hands the
//! readings over. Everything that follows from a reading is decided in this crate.

pub mod behaviour;
pub mod button;
pub mod button_laws;
pub mod encoder;
pub mod encoder_laws;
pub mod types;

pub use behaviour::{
    ButtonBehaviour, HoldAction, HoodButton1, HoodButton2, PushButton, RotaryButton,
};
pub use button::{pin_is_low, Button};
pub use encoder::RotaryEncoder;
pub use types::{
    ButtonDefaultState, ButtonState, InputEvent, InputSource, RotaryAccumulatorMode,
};
