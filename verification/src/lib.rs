//! Keeps sway's input settings in step with the desktop's settings store:
//! GNOME's gsettings or COSMIC's cosmic-config. Changes in the store are
//! turned into sway `input` commands; changes that sway reports for a
//! device are written back into the store.
//!
//! This crate holds the decisions and the text: which backend a desktop
//! uses, the commands for each kind of setting, which changed keys concern
//! which handler, how sway's values merge into stored settings, the gates
//! that keep the two directions from echoing each other, what to do with
//! each event from sway, and the retry policy of startup.
pub mod backend;
pub mod cosmic;
pub mod cosmic_laws;
pub mod gate;
pub mod input_sources;
pub mod retry;
pub mod sway;
pub mod text;

pub use backend::BackendKind;
pub use gate::{with_gate_suppressed, GateState};
pub use input_sources::{first_layout_name, input_source_commands, input_source_sway_commands};
pub use retry::{
    create_handlers_with_retry, retry_action, retry_fallible, Attempts, EVENT_MAX_RETRIES,
    EVENT_RETRY_DELAY, STARTUP_MAX_RETRIES, STARTUP_RETRY_DELAY,
};
pub use sway::{
    input_handler_index, is_supported_input_type, sway_event_action, PrimitiveToSwayType,
    SwayEvent, SwayEventAction, SwayReloadStatus, SwayTypeToPrimitive,
};
