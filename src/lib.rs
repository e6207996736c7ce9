//! Protocol logic for a liquid cooler with an RGB-lit pump head: the wire
//! types, the encoding of lighting modes into command frames, the decoding of
//! telemetry reports, and the lifecycle of a device session.

pub mod error;
pub mod frames;
pub mod modes;
pub mod packet;
pub mod session;
pub mod status;

pub use error::CoolerError;
pub use frames::{fan_speed_command, pump_speed_command, DUTY_MAX, FAN_SPEED_MIN, PUMP_SPEED_MIN};
pub use modes::{Circle, Color, Colors, Effect, Mode, ModeId, SingleColorCircle, Speed};
pub use packet::{pack_speed, Packet};
pub use session::{Action, Event, Session, Stage};
pub use status::{Status, REPORT_MIN_LEN};
