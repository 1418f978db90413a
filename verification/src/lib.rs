//! Rendering and session logic for an interactive message-bus inspection
//! tool: each (topic, payload) event received from a publish/subscribe
//! transport is rendered as a boxed, colorized, width-aware terminal log
//! entry; optional regex filters decide which topics are shown; and a small
//! state machine tracks the subscribe/publish session.

pub mod color;
pub mod layout;
pub mod payload;
pub mod render;
pub mod filter;
pub mod session;

pub use render::format_mqtt_log_entry;
