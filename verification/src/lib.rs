//! Real-time parameter automation core for an audio engine.
//!
//! A control thread animates numeric audio parameters (panning, wet/dry mix)
//! over time while an audio thread consumes them per processing block. All
//! scalar quantities are carried as fixed-point raw values: `scalar::SCALE`
//! raw steps stand for one unit, so the panning interval `[-1, 1]` is the raw
//! interval `[-SCALE, SCALE]`. Fixed-point keeps every transition exactly
//! reproducible and lets each bound be stated and proved as an invariant.

pub mod command;
pub mod effect;
pub mod error;
pub mod mix;
pub mod panning;
pub mod panning_control;
pub mod parameter;
pub mod scalar;
pub mod tween;
pub mod value;

pub use command::{Command, CommandChannel};
pub use effect::{Effect, EffectId, EffectSettings, Frame};
pub use error::OutOfRangeError;
pub use mix::Mix;
pub use panning::Panning;
pub use panning_control::PanningControl;
pub use parameter::{ActiveTween, Parameter};
pub use scalar::{HALF, SCALE};
pub use tween::{EaseDirection, Easing, Tween};
pub use value::Value;
