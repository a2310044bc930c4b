use vstd::prelude::*;
use swayipc::{EnabledOrDisabled, SendEvents};
use crate::text::{str_eq, toggle_text};
use crate::gate::{after_begin, gate_open};

verus! {

// ---------------------------------------------------------------------------
// Input types and the handlers that serve them
// ---------------------------------------------------------------------------

/// The position of the pointer handler in the handler set.
pub const POINTER_HANDLER: usize = 0;

/// The position of the keyboard handler in the handler set.
pub const KEYBOARD_HANDLER: usize = 1;

/// The position of the touchpad handler in the handler set.
pub const TOUCHPAD_HANDLER: usize = 2;

/// The position of the input-sources (layouts) handler in the handler set.
pub const INPUT_SOURCES_HANDLER: usize = 3;

/// The number of handlers in a handler set.
pub const HANDLER_COUNT: usize = 4;

/// The handler that takes sway's changes to devices of `input_type`:
/// pointers, keyboards and touchpads have one; other devices none.
pub open spec fn handler_for(input_type: Seq<char>) -> Option<usize> {
    if input_type == "pointer"@ {
        Some(POINTER_HANDLER)
    } else if input_type == "keyboard"@ {
        Some(KEYBOARD_HANDLER)
    } else if input_type == "touchpad"@ {
        Some(TOUCHPAD_HANDLER)
    } else {
        None
    }
}

/// Whether changes to devices of `input_type` are synced back.
pub fn is_supported_input_type(input_type: &str) -> (r: bool)
    ensures
        r == (input_type@ == "pointer"@ || input_type@ == "keyboard"@ || input_type@
            == "touchpad"@),
{
    str_eq(input_type, "pointer") || str_eq(input_type, "keyboard") || str_eq(input_type, "touchpad")
}

/// The handler for devices of `input_type`, if they are synced back.
pub fn input_handler_index(input_type: &str) -> (r: Option<usize>)
    ensures
        r == handler_for(input_type@),
        r is Some <==> (input_type@ == "pointer"@ || input_type@ == "keyboard"@ || input_type@
            == "touchpad"@),
        r matches Some(i) ==> i < HANDLER_COUNT,
{
    if str_eq(input_type, "pointer") {
        Some(POINTER_HANDLER)
    } else if str_eq(input_type, "keyboard") {
        Some(KEYBOARD_HANDLER)
    } else if str_eq(input_type, "touchpad") {
        Some(TOUCHPAD_HANDLER)
    } else {
        None
    }
}

// ---------------------------------------------------------------------------
// Events from sway
// ---------------------------------------------------------------------------

/// The status a reload tick reports: sway is about to reload its
/// configuration, or has reloaded it.
#[derive(Clone, Copy, Debug, PartialEq, Eq)]
pub enum SwayReloadStatus {
    ReloadPending,
    ReloadDone,
}

/// What the daemon sees of an event from sway.
#[derive(Debug, PartialEq)]
pub enum SwayEvent {
    /// A device changed; `input_type` is sway's device type.
    Input { input_type: String },
    /// A tick; `first` marks the tick sent on subscription, `status` is the
    /// reload status its payload names (none when the payload names none).
    Tick { first: bool, status: Option<SwayReloadStatus> },
    /// Any other event.
    Other,
}

/// What the daemon does with an event from sway.
#[derive(Clone, Copy, Debug, PartialEq, Eq)]
pub enum SwayEventAction {
    /// Nothing.
    Skip,
    /// Report a device type that is not synced back.
    RejectInputType,
    /// Sync the device's settings back through the handler at this position.
    SyncInput { handler_index: usize },
    /// Close the sway-to-settings gate: sway is reloading.
    PauseInputSync,
    /// After a pause, reopen the sway-to-settings gate and apply all
    /// settings again: sway reloaded its configuration.
    ResumeAndReapply,
    /// Report a tick whose payload names no reload status.
    IgnoreTickPayload,
}

/// The action for `event` while the sway-to-settings gate is open (or not).
pub open spec fn event_action(input_sync_enabled: bool, event: SwayEvent) -> SwayEventAction {
    match event {
        SwayEvent::Input { input_type } => if !input_sync_enabled {
            SwayEventAction::Skip
        } else {
            match handler_for(input_type@) {
                Some(i) => SwayEventAction::SyncInput { handler_index: i },
                None => SwayEventAction::RejectInputType,
            }
        },
        SwayEvent::Tick { first, status } => if first {
            SwayEventAction::Skip
        } else {
            match status {
                Some(SwayReloadStatus::ReloadPending) => SwayEventAction::PauseInputSync,
                Some(SwayReloadStatus::ReloadDone) => SwayEventAction::ResumeAndReapply,
                None => SwayEventAction::IgnoreTickPayload,
            }
        },
        SwayEvent::Other => SwayEventAction::Skip,
    }
}

/// Decides what to do with an event from sway. Device changes are synced
/// back only while the sway-to-settings gate is open and only for device
/// types with a handler; the subscription's first tick is skipped; reload
/// ticks pause and resume syncing.
pub fn sway_event_action(input_sync_enabled: bool, event: &SwayEvent) -> (r: SwayEventAction)
    ensures
        r == event_action(input_sync_enabled, *event),
{
    match event {
        SwayEvent::Input { input_type } => {
            if !input_sync_enabled {
                SwayEventAction::Skip
            } else {
                match input_handler_index(input_type.as_str()) {
                    Some(i) => SwayEventAction::SyncInput { handler_index: i },
                    None => SwayEventAction::RejectInputType,
                }
            }
        },
        SwayEvent::Tick { first, status } => {
            if *first {
                SwayEventAction::Skip
            } else {
                match status {
                    Some(SwayReloadStatus::ReloadPending) => SwayEventAction::PauseInputSync,
                    Some(SwayReloadStatus::ReloadDone) => SwayEventAction::ResumeAndReapply,
                    None => SwayEventAction::IgnoreTickPayload,
                }
            }
        },
        SwayEvent::Other => SwayEventAction::Skip,
    }
}

// ---------------------------------------------------------------------------
// Sway's switch types and plain values
// ---------------------------------------------------------------------------

#[verifier::external_type_specification]
pub struct ExEnabledOrDisabled(EnabledOrDisabled);

#[verifier::external_type_specification]
pub struct ExSendEvents(SendEvents);

/// Reads a sway setting as a plain value.
pub trait SwayTypeToPrimitive<T> {
    spec fn primitive_of(&self) -> T;

    fn to_primitive(&self) -> (r: T)
        ensures
            r == self.primitive_of(),
    ;
}

/// Writes a plain value as a sway setting.
pub trait PrimitiveToSwayType<T> {
    spec fn sway_type_of(self) -> T;

    fn to_sway_type(self) -> (r: T)
        ensures
            r == self.sway_type_of(),
    ;
}

impl SwayTypeToPrimitive<bool> for EnabledOrDisabled {
    open spec fn primitive_of(&self) -> bool {
        *self is Enabled
    }

    fn to_primitive(&self) -> (r: bool) {
        match self {
            EnabledOrDisabled::Enabled => true,
            EnabledOrDisabled::Disabled => false,
        }
    }
}

impl SwayTypeToPrimitive<&str> for EnabledOrDisabled {
    open spec fn primitive_of(&self) -> &'static str {
        if *self is Enabled { "enabled" } else { "disabled" }
    }

    fn to_primitive(&self) -> (r: &'static str) {
        match self {
            EnabledOrDisabled::Enabled => "enabled",
            EnabledOrDisabled::Disabled => "disabled",
        }
    }
}

impl PrimitiveToSwayType<EnabledOrDisabled> for bool {
    open spec fn sway_type_of(self) -> EnabledOrDisabled {
        if self { EnabledOrDisabled::Enabled } else { EnabledOrDisabled::Disabled }
    }

    fn to_sway_type(self) -> (r: EnabledOrDisabled) {
        if self { EnabledOrDisabled::Enabled } else { EnabledOrDisabled::Disabled }
    }
}

impl SwayTypeToPrimitive<bool> for SendEvents {
    open spec fn primitive_of(&self) -> bool {
        *self is Enabled
    }

    fn to_primitive(&self) -> (r: bool) {
        match self {
            SendEvents::Enabled => true,
            _ => false,
        }
    }
}

impl SwayTypeToPrimitive<&str> for SendEvents {
    open spec fn primitive_of(&self) -> &'static str {
        if *self is Enabled { "enabled" } else { "disabled" }
    }

    fn to_primitive(&self) -> (r: &'static str) {
        match self {
            SendEvents::Enabled => "enabled",
            _ => "disabled",
        }
    }
}


/// Reading back a switch written from a plain value gives that value.
pub proof fn lemma_switch_from_bool_round_trip(b: bool)
    ensures
        <EnabledOrDisabled as SwayTypeToPrimitive<bool>>::primitive_of(
            &<bool as PrimitiveToSwayType<EnabledOrDisabled>>::sway_type_of(b),
        ) == b,
{
}

/// Writing back the plain value of a switch gives that switch.
pub proof fn lemma_switch_to_bool_round_trip(e: EnabledOrDisabled)
    ensures
        <bool as PrimitiveToSwayType<EnabledOrDisabled>>::sway_type_of(
            <EnabledOrDisabled as SwayTypeToPrimitive<bool>>::primitive_of(&e),
        ) == e,
{
}

/// The word for a switch is the word for its plain value.
pub proof fn lemma_switch_words_agree(e: EnabledOrDisabled)
    ensures
        <EnabledOrDisabled as SwayTypeToPrimitive<&str>>::primitive_of(&e)@ == toggle_text(
            <EnabledOrDisabled as SwayTypeToPrimitive<bool>>::primitive_of(&e),
        ),
{
}

/// The word for a send-events mode is the word for its plain value: only
/// `Enabled` counts as on.
pub proof fn lemma_send_events_words_agree(e: SendEvents)
    ensures
        <SendEvents as SwayTypeToPrimitive<&str>>::primitive_of(&e)@ == toggle_text(
            <SendEvents as SwayTypeToPrimitive<bool>>::primitive_of(&e),
        ),
{
}

/// While settings are being written to sway, the sway-to-settings gate is
/// suppressed, and device events that sway reports meanwhile are not
/// written back: a write does not come back as an echo.
pub proof fn lemma_suppressed_gate_skips_input_events(g: (bool, nat), input_type: String)
    requires
        g.1 < usize::MAX,
    ensures
        event_action(gate_open(after_begin(g)), SwayEvent::Input { input_type })
            == SwayEventAction::Skip,
{
}

/// While sway reloads, the sway-to-settings gate is requested closed, and
/// device events are not written back, whatever the suppressions.
pub proof fn lemma_reload_pending_skips_input_events(suppressions: nat, input_type: String)
    ensures
        event_action(gate_open((false, suppressions)), SwayEvent::Input { input_type })
            == SwayEventAction::Skip,
{
}

/// The three device types with a handler have different names.
proof fn lemma_device_names_differ()
    ensures
        "pointer"@ != "keyboard"@,
        "pointer"@ != "touchpad"@,
        "keyboard"@ != "touchpad"@,
{
    reveal_strlit("pointer");
    reveal_strlit("keyboard");
    reveal_strlit("touchpad");
    assert("pointer"@[0] != "keyboard"@[0]);
    assert("pointer"@[0] != "touchpad"@[0]);
    assert("keyboard"@[0] != "touchpad"@[0]);
}

/// With the sway-to-settings gate open, a change of each device type that
/// has a handler is synced back through that type's own handler: pointers
/// through the pointer handler, keyboards through the keyboard handler,
/// touchpads through the touchpad handler. A change of any other device
/// type is rejected, and only those are.
pub proof fn lemma_open_gate_syncs_each_supported_type(input_type: String)
    ensures
        input_type@ == "pointer"@ ==> event_action(true, (SwayEvent::Input { input_type }))
            == (SwayEventAction::SyncInput { handler_index: POINTER_HANDLER }),
        input_type@ == "keyboard"@ ==> event_action(true, (SwayEvent::Input { input_type }))
            == (SwayEventAction::SyncInput { handler_index: KEYBOARD_HANDLER }),
        input_type@ == "touchpad"@ ==> event_action(true, (SwayEvent::Input { input_type }))
            == (SwayEventAction::SyncInput { handler_index: TOUCHPAD_HANDLER }),
        (event_action(true, (SwayEvent::Input { input_type })) == SwayEventAction::RejectInputType)
            <==> !(input_type@ == "pointer"@ || input_type@ == "keyboard"@ || input_type@
            == "touchpad"@),
{
    lemma_device_names_differ();
}

/// Two device types synced back through the same handler are the same
/// type, and every handler used for syncing exists in the handler set.
pub proof fn lemma_sync_handlers_distinct(t1: String, t2: String, i: usize)
    requires
        event_action(true, (SwayEvent::Input { input_type: t1 })) == (SwayEventAction::SyncInput {
            handler_index: i,
        }),
        event_action(true, (SwayEvent::Input { input_type: t2 })) == (SwayEventAction::SyncInput {
            handler_index: i,
        }),
    ensures
        t1@ == t2@,
        i < HANDLER_COUNT,
{
    lemma_device_names_differ();
}

/// Reload ticks steer syncing: sway's tick before a reload pauses the
/// syncing of device changes, its tick after the reload resumes it and
/// applies all settings again, open or closed as the sway-to-settings gate
/// may be; the tick sent on subscription is skipped, and so is every device
/// change while that gate is closed.
pub proof fn lemma_reload_ticks_pause_and_resume(gate_open_now: bool, input_type: String)
    ensures
        event_action(
            gate_open_now,
            (SwayEvent::Tick { first: false, status: Some(SwayReloadStatus::ReloadPending) }),
        ) == SwayEventAction::PauseInputSync,
        event_action(
            gate_open_now,
            (SwayEvent::Tick { first: false, status: Some(SwayReloadStatus::ReloadDone) }),
        ) == SwayEventAction::ResumeAndReapply,
        event_action(gate_open_now, (SwayEvent::Tick { first: true, status: None }))
            == SwayEventAction::Skip,
        event_action(
            gate_open_now,
            (SwayEvent::Tick { first: true, status: Some(SwayReloadStatus::ReloadPending) }),
        ) == SwayEventAction::Skip,
        event_action(
            gate_open_now,
            (SwayEvent::Tick { first: true, status: Some(SwayReloadStatus::ReloadDone) }),
        ) == SwayEventAction::Skip,
        event_action(gate_open_now, (SwayEvent::Tick { first: false, status: None }))
            == SwayEventAction::IgnoreTickPayload,
        event_action(false, (SwayEvent::Input { input_type })) == SwayEventAction::Skip,
        event_action(gate_open_now, SwayEvent::Other) == SwayEventAction::Skip,
{
}

} // verus!
