//! The COSMIC compositor's input settings and the sway commands that carry
//! them over: the settings model, the command builders for pointer,
//! touchpad and keyboard, the routing of changed settings keys, and the
//! merge of values read back from sway into the stored settings.
//!
//! Numbers that COSMIC stores as floating point (acceleration speed, scroll
//! factor) are held here as the decimal text that `{}` prints for them,
//! which is also the text that goes into a sway command.
use vstd::prelude::*;
use vstd::string::*;
use crate::text::{
    decimal, decimal_text, input_command, lemma_views_add, lemma_views_push, make_input_command,
    quote, quoted, str_eq, toggle_str, toggle_text, views,
};

verus! {

/// The cosmic-config component that holds the compositor settings.
pub const COSMIC_COMP_CONFIG: &'static str = "com.system76.CosmicComp";

/// The version of that component's settings.
pub const COSMIC_COMP_CONFIG_VERSION: u64 = 1;

/// Key of the settings of mice and other pointers.
pub const COSMIC_MOUSE_CONFIG_KEY: &'static str = "input_default";

/// Key of the touchpad settings.
pub const COSMIC_TOUCHPAD_CONFIG_KEY: &'static str = "input_touchpad";

/// Key of the touchpad override (a touchpad that is forced off).
pub const COSMIC_TOUCHPAD_OVERRIDE_KEY: &'static str = "input_touchpad_override";

/// Key of the keyboard settings (layout, variant, key repeat).
pub const COSMIC_XKB_CONFIG_KEY: &'static str = "xkb_config";

/// Pointer acceleration profile.
#[derive(Clone, Copy, Debug, PartialEq, Eq)]
pub enum CosmicAccelProfile {
    Flat,
    Adaptive,
}

/// Touchpad click method.
#[derive(Clone, Copy, Debug, PartialEq, Eq)]
pub enum CosmicClickMethod {
    ButtonAreas,
    Clickfinger,
}

/// Scroll method.
#[derive(Clone, Copy, Debug, PartialEq, Eq)]
pub enum CosmicScrollMethod {
    NoScroll,
    TwoFinger,
    Edge,
    OnButtonDown,
}

/// The touchpad override: none (COSMIC's `None`), or the touchpad forced
/// off.
#[derive(Clone, Copy, Debug, PartialEq, Eq)]
pub enum CosmicTouchpadOverride {
    NoOverride,
    ForceDisable,
}

/// Tap settings of a touchpad.
#[derive(Clone, Copy, Debug, PartialEq, Eq)]
pub struct CosmicTapConfig {
    pub enabled: bool,
    pub drag: bool,
    pub drag_lock: bool,
}

/// Acceleration settings; `speed` is the decimal text of the speed.
#[derive(Debug, PartialEq)]
pub struct CosmicAccelConfig {
    pub profile: Option<CosmicAccelProfile>,
    pub speed: String,
}

/// Scroll settings; `scroll_factor` is the decimal text of the factor.
#[derive(Debug, PartialEq)]
pub struct CosmicScrollConfig {
    pub method: Option<CosmicScrollMethod>,
    pub natural_scroll: Option<bool>,
    pub scroll_factor: Option<String>,
}

/// The settings of one kind of input device. Every part is optional: a
/// missing part leaves sway's own setting alone.
#[derive(Debug, PartialEq)]
pub struct CosmicInputConfig {
    pub acceleration: Option<CosmicAccelConfig>,
    pub click_method: Option<CosmicClickMethod>,
    pub disable_while_typing: Option<bool>,
    pub left_handed: Option<bool>,
    pub middle_button_emulation: Option<bool>,
    pub scroll_config: Option<CosmicScrollConfig>,
    pub tap_config: Option<CosmicTapConfig>,
}

/// Keyboard settings: layouts and variants as comma-separated lists, the
/// key repeat delay (ms) and rate (per second).
#[derive(Debug, PartialEq)]
pub struct CosmicXkbConfig {
    pub layout: String,
    pub variant: String,
    pub repeat_delay: u32,
    pub repeat_rate: u32,
}

impl Default for CosmicInputConfig {
    fn default() -> (r: Self)
        ensures
            r.acceleration is None,
            r.click_method is None,
            r.disable_while_typing is None,
            r.left_handed is None,
            r.middle_button_emulation is None,
            r.scroll_config is None,
            r.tap_config is None,
    {
        CosmicInputConfig {
            acceleration: None,
            click_method: None,
            disable_while_typing: None,
            left_handed: None,
            middle_button_emulation: None,
            scroll_config: None,
            tap_config: None,
        }
    }
}

impl Default for CosmicAccelConfig {
    fn default() -> (r: Self)
        ensures
            r.profile is None,
            r.speed@ == "0"@,
    {
        CosmicAccelConfig { profile: None, speed: String::from_str("0") }
    }
}

impl Default for CosmicScrollConfig {
    fn default() -> (r: Self)
        ensures
            r.method is None,
            r.natural_scroll is None,
            r.scroll_factor is None,
    {
        CosmicScrollConfig { method: None, natural_scroll: None, scroll_factor: None }
    }
}

/// The key repeat delay (ms) used when the settings name none.
pub fn default_repeat_delay() -> (r: u32)
    ensures
        r == 600,
{
    600
}

/// The key repeat rate (per second) used when the settings name none.
pub fn default_repeat_rate() -> (r: u32)
    ensures
        r == 25,
{
    25
}

impl Default for CosmicXkbConfig {
    fn default() -> (r: Self)
        ensures
            r.layout@ == Seq::<char>::empty(),
            r.variant@ == Seq::<char>::empty(),
            r.repeat_delay == 600,
            r.repeat_rate == 25,
    {
        CosmicXkbConfig {
            layout: String::new(),
            variant: String::new(),
            repeat_delay: default_repeat_delay(),
            repeat_rate: default_repeat_rate(),
        }
    }
}

// ---------------------------------------------------------------------------
// What the commands are
// ---------------------------------------------------------------------------

/// Sway's name for an acceleration profile.
pub open spec fn accel_profile_text(p: CosmicAccelProfile) -> Seq<char> {
    match p {
        CosmicAccelProfile::Flat => "flat"@,
        CosmicAccelProfile::Adaptive => "adaptive"@,
    }
}

/// Sway's name for a click method.
pub open spec fn click_method_text(m: CosmicClickMethod) -> Seq<char> {
    match m {
        CosmicClickMethod::ButtonAreas => "button_areas"@,
        CosmicClickMethod::Clickfinger => "clickfinger"@,
    }
}

/// Sway's name for a scroll method.
pub open spec fn scroll_method_text(m: CosmicScrollMethod) -> Seq<char> {
    match m {
        CosmicScrollMethod::NoScroll => "none"@,
        CosmicScrollMethod::TwoFinger => "two_finger"@,
        CosmicScrollMethod::Edge => "edge"@,
        CosmicScrollMethod::OnButtonDown => "on_button_down"@,
    }
}

/// One command for a setting that is present, none for one that is absent.
pub open spec fn optional_command(device: Seq<char>, option: Seq<char>, value: Option<Seq<char>>) -> Seq<
    Seq<char>,
> {
    match value {
        Some(v) => seq![input_command(device, option, v)],
        None => seq![],
    }
}

/// The command for an optional switch.
pub open spec fn toggle_command(device: Seq<char>, option: Seq<char>, value: Option<bool>) -> Seq<
    Seq<char>,
> {
    match value {
        Some(b) => seq![input_command(device, option, toggle_text(b))],
        None => seq![],
    }
}

/// A touchpad command.
pub open spec fn touchpad_command(option: Seq<char>, value: Seq<char>) -> Seq<char> {
    input_command("touchpad"@, option, value)
}

/// Touchpad commands for the acceleration settings: the speed, then the
/// profile when one is set.
pub open spec fn touchpad_acceleration_commands(a: Option<CosmicAccelConfig>) -> Seq<Seq<char>> {
    match a {
        Some(a) => seq![touchpad_command("pointer_accel"@, a.speed@)] + (match a.profile {
            Some(p) => seq![touchpad_command("accel_profile"@, accel_profile_text(p))],
            None => seq![],
        }),
        None => seq![],
    }
}

/// Touchpad command for the click method.
pub open spec fn touchpad_click_commands(m: Option<CosmicClickMethod>) -> Seq<Seq<char>> {
    match m {
        Some(m) => seq![touchpad_command("click_method"@, click_method_text(m))],
        None => seq![],
    }
}

/// Touchpad commands for the scroll settings: method, natural scrolling,
/// factor, each when set.
pub open spec fn touchpad_scroll_commands(s: Option<CosmicScrollConfig>) -> Seq<Seq<char>> {
    match s {
        Some(s) => (match s.method {
            Some(m) => seq![touchpad_command("scroll_method"@, scroll_method_text(m))],
            None => seq![],
        }) + toggle_command("touchpad"@, "natural_scroll"@, s.natural_scroll) + (match s.scroll_factor {
            Some(f) => seq![touchpad_command("scroll_factor"@, f@)],
            None => seq![],
        }),
        None => seq![],
    }
}

/// Touchpad commands for the tap settings: tap, drag, drag lock.
pub open spec fn touchpad_tap_commands(t: Option<CosmicTapConfig>) -> Seq<Seq<char>> {
    match t {
        Some(t) => seq![
            touchpad_command("tap"@, toggle_text(t.enabled)),
            touchpad_command("drag"@, toggle_text(t.drag)),
            touchpad_command("drag_lock"@, toggle_text(t.drag_lock)),
        ],
        None => seq![],
    }
}

/// The touchpad commands for a settings value, in the order sway receives
/// them.
pub open spec fn touchpad_commands(c: CosmicInputConfig) -> Seq<Seq<char>> {
    touchpad_acceleration_commands(c.acceleration) + touchpad_click_commands(c.click_method)
        + toggle_command("touchpad"@, "dwt"@, c.disable_while_typing) + toggle_command(
        "touchpad"@,
        "left_handed"@,
        c.left_handed,
    ) + toggle_command("touchpad"@, "middle_emulation"@, c.middle_button_emulation)
        + touchpad_scroll_commands(c.scroll_config) + touchpad_tap_commands(c.tap_config)
}

/// The touchpad command for the override: events off when forced off, on
/// otherwise (also when no override is stored).
pub open spec fn touchpad_override_commands(o: Option<CosmicTouchpadOverride>) -> Seq<Seq<char>> {
    match o {
        Some(CosmicTouchpadOverride::ForceDisable) => seq![touchpad_command("events"@, "disabled"@)],
        _ => seq![touchpad_command("events"@, "enabled"@)],
    }
}

/// The pointer commands for a settings value: speed, left-handed mode,
/// natural scrolling, each when set.
pub open spec fn mouse_commands(c: CosmicInputConfig) -> Seq<Seq<char>> {
    (match c.acceleration {
        Some(a) => seq![input_command("pointer"@, "pointer_accel"@, a.speed@)],
        None => seq![],
    }) + toggle_command("pointer"@, "left_handed"@, c.left_handed) + toggle_command(
        "pointer"@,
        "natural_scroll"@,
        match c.scroll_config {
            Some(s) => s.natural_scroll,
            None => None,
        },
    )
}

/// The keyboard commands for the handler called `name`: the "keyboard"
/// handler sets key repeat; the "input-sources" handler sets variant (when
/// one is set) and layout, and nothing when no layout is set; any other
/// name gives no command.
pub open spec fn xkb_commands(name: Seq<char>, x: CosmicXkbConfig) -> Seq<Seq<char>> {
    if name == "keyboard"@ {
        seq![
            input_command("keyboard"@, "repeat_delay"@, decimal(x.repeat_delay as nat)),
            input_command("keyboard"@, "repeat_rate"@, decimal(x.repeat_rate as nat)),
        ]
    } else if name == "input-sources"@ && x.layout@.len() > 0 {
        (if x.variant@.len() > 0 {
            seq![input_command("keyboard"@, "xkb_variant"@, quoted(x.variant@))]
        } else {
            seq![]
        }) + seq![input_command("keyboard"@, "xkb_layout"@, quoted(x.layout@))]
    } else {
        seq![]
    }
}

// ---------------------------------------------------------------------------
// Building the commands
// ---------------------------------------------------------------------------

fn accel_profile_str(p: &CosmicAccelProfile) -> (r: &'static str)
    ensures
        r@ == accel_profile_text(*p),
{
    match p {
        CosmicAccelProfile::Flat => "flat",
        CosmicAccelProfile::Adaptive => "adaptive",
    }
}

fn click_method_str(m: &CosmicClickMethod) -> (r: &'static str)
    ensures
        r@ == click_method_text(*m),
{
    match m {
        CosmicClickMethod::ButtonAreas => "button_areas",
        CosmicClickMethod::Clickfinger => "clickfinger",
    }
}

fn scroll_method_str(m: &CosmicScrollMethod) -> (r: &'static str)
    ensures
        r@ == scroll_method_text(*m),
{
    match m {
        CosmicScrollMethod::NoScroll => "none",
        CosmicScrollMethod::TwoFinger => "two_finger",
        CosmicScrollMethod::Edge => "edge",
        CosmicScrollMethod::OnButtonDown => "on_button_down",
    }
}

/// Appends `command` to `commands`.
fn push_command(commands: &mut Vec<String>, command: String)
    ensures
        views(final(commands)@) == views(old(commands)@).push(command@),
{
    proof {
        lemma_views_push(commands@, command);
    }
    commands.push(command);
}

/// Appends the command for an optional switch.
fn push_toggle(commands: &mut Vec<String>, device: &str, option: &str, value: Option<bool>)
    ensures
        views(final(commands)@) == views(old(commands)@) + toggle_command(device@, option@, value),
{
    match value {
        Some(b) => {
            push_command(commands, make_input_command(device, option, toggle_str(b)));
            assert(views(commands@) =~= views(old(commands)@) + toggle_command(
                device@,
                option@,
                value,
            ));
        },
        None => {
            assert(views(commands@) =~= views(old(commands)@) + toggle_command(
                device@,
                option@,
                value,
            ));
        },
    }
}

fn push_touchpad_acceleration(commands: &mut Vec<String>, acceleration: &Option<CosmicAccelConfig>)
    ensures
        views(final(commands)@) == views(old(commands)@) + touchpad_acceleration_commands(
            *acceleration,
        ),
{
    match acceleration {
        Some(acceleration) => {
            push_command(
                commands,
                make_input_command("touchpad", "pointer_accel", acceleration.speed.as_str()),
            );
            match &acceleration.profile {
                Some(profile) => {
                    push_command(
                        commands,
                        make_input_command("touchpad", "accel_profile", accel_profile_str(profile)),
                    );
                },
                None => {},
            }
        },
        None => {},
    }
    assert(views(commands@) =~= views(old(commands)@) + touchpad_acceleration_commands(
        *acceleration,
    ));
}

fn push_touchpad_click(commands: &mut Vec<String>, click_method: &Option<CosmicClickMethod>)
    ensures
        views(final(commands)@) == views(old(commands)@) + touchpad_click_commands(*click_method),
{
    match click_method {
        Some(click_method) => {
            push_command(
                commands,
                make_input_command("touchpad", "click_method", click_method_str(click_method)),
            );
        },
        None => {},
    }
    assert(views(commands@) =~= views(old(commands)@) + touchpad_click_commands(*click_method));
}

fn push_touchpad_scroll(commands: &mut Vec<String>, scroll_config: &Option<CosmicScrollConfig>)
    ensures
        views(final(commands)@) == views(old(commands)@) + touchpad_scroll_commands(
            *scroll_config,
        ),
{
    match scroll_config {
        Some(scroll_config) => {
            match &scroll_config.method {
                Some(method) => {
                    push_command(
                        commands,
                        make_input_command("touchpad", "scroll_method", scroll_method_str(method)),
                    );
                },
                None => {},
            }
            push_toggle(commands, "touchpad", "natural_scroll", scroll_config.natural_scroll);
            match &scroll_config.scroll_factor {
                Some(factor) => {
                    push_command(
                        commands,
                        make_input_command("touchpad", "scroll_factor", factor.as_str()),
                    );
                },
                None => {},
            }
        },
        None => {},
    }
    assert(views(commands@) =~= views(old(commands)@) + touchpad_scroll_commands(*scroll_config));
}

fn push_touchpad_tap(commands: &mut Vec<String>, tap_config: &Option<CosmicTapConfig>)
    ensures
        views(final(commands)@) == views(old(commands)@) + touchpad_tap_commands(*tap_config),
{
    match tap_config {
        Some(tap_config) => {
            push_command(commands, make_input_command("touchpad", "tap", toggle_str(tap_config.enabled)));
            push_command(commands, make_input_command("touchpad", "drag", toggle_str(tap_config.drag)));
            push_command(
                commands,
                make_input_command("touchpad", "drag_lock", toggle_str(tap_config.drag_lock)),
            );
        },
        None => {},
    }
    assert(views(commands@) =~= views(old(commands)@) + touchpad_tap_commands(*tap_config));
}

/// The touchpad commands for `input_config`, in the order of
/// [`touchpad_commands`].
pub fn touchpad_commands_for_config(input_config: CosmicInputConfig) -> (r: Vec<String>)
    ensures
        views(r@) == touchpad_commands(input_config),
{
    let mut commands: Vec<String> = Vec::new();
    assert(views(commands@) =~= Seq::<Seq<char>>::empty());
    push_touchpad_acceleration(&mut commands, &input_config.acceleration);
    push_touchpad_click(&mut commands, &input_config.click_method);
    push_toggle(&mut commands, "touchpad", "dwt", input_config.disable_while_typing);
    push_toggle(&mut commands, "touchpad", "left_handed", input_config.left_handed);
    push_toggle(&mut commands, "touchpad", "middle_emulation", input_config.middle_button_emulation);
    push_touchpad_scroll(&mut commands, &input_config.scroll_config);
    push_touchpad_tap(&mut commands, &input_config.tap_config);
    commands
}

/// The touchpad command for the override.
pub fn touchpad_commands_for_override(override_: Option<CosmicTouchpadOverride>) -> (r: Vec<String>)
    ensures
        views(r@) == touchpad_override_commands(override_),
{
    let mut commands: Vec<String> = Vec::new();
    let state = match override_ {
        Some(CosmicTouchpadOverride::ForceDisable) => "disabled",
        _ => "enabled",
    };
    push_command(&mut commands, make_input_command("touchpad", "events", state));
    assert(views(commands@) =~= touchpad_override_commands(override_));
    commands
}

/// The commands of a full touchpad apply: the settings first, the override
/// last, so that a forced-off touchpad stays off.
pub fn touchpad_commands_for_apply(
    input_config: CosmicInputConfig,
    override_: Option<CosmicTouchpadOverride>,
) -> (r: Vec<String>)
    ensures
        views(r@) == touchpad_commands(input_config) + touchpad_override_commands(override_),
{
    let mut commands = touchpad_commands_for_config(input_config);
    let mut rest = touchpad_commands_for_override(override_);
    proof {
        lemma_views_add(commands@, rest@);
    }
    commands.append(&mut rest);
    commands
}

/// The pointer commands for `input_config`, in the order of
/// [`mouse_commands`].
pub fn mouse_commands_for_config(input_config: CosmicInputConfig) -> (r: Vec<String>)
    ensures
        views(r@) == mouse_commands(input_config),
{
    let mut commands: Vec<String> = Vec::new();
    match &input_config.acceleration {
        Some(acceleration) => {
            push_command(
                &mut commands,
                make_input_command("pointer", "pointer_accel", acceleration.speed.as_str()),
            );
        },
        None => {},
    }
    push_toggle(&mut commands, "pointer", "left_handed", input_config.left_handed);
    let natural_scroll = match &input_config.scroll_config {
        Some(scroll) => scroll.natural_scroll,
        None => None,
    };
    push_toggle(&mut commands, "pointer", "natural_scroll", natural_scroll);
    assert(views(commands@) =~= mouse_commands(input_config));
    commands
}

/// The keyboard commands of the handler called `name` for `xkb_config`, in
/// the order of [`xkb_commands`].
pub fn xkb_commands_for_config(name: &str, xkb_config: &CosmicXkbConfig) -> (r: Vec<String>)
    ensures
        views(r@) == xkb_commands(name@, *xkb_config),
{
    let mut commands: Vec<String> = Vec::new();
    if str_eq(name, "keyboard") {
        let delay = decimal_text(xkb_config.repeat_delay);
        push_command(&mut commands, make_input_command("keyboard", "repeat_delay", delay.as_str()));
        let rate = decimal_text(xkb_config.repeat_rate);
        push_command(&mut commands, make_input_command("keyboard", "repeat_rate", rate.as_str()));
        assert(views(commands@) =~= xkb_commands(name@, *xkb_config));
    } else if str_eq(name, "input-sources") && !xkb_config.layout.as_str().is_empty() {
        if !xkb_config.variant.as_str().is_empty() {
            let variant = quote(xkb_config.variant.as_str());
            push_command(
                &mut commands,
                make_input_command("keyboard", "xkb_variant", variant.as_str()),
            );
        }
        let layout = quote(xkb_config.layout.as_str());
        push_command(&mut commands, make_input_command("keyboard", "xkb_layout", layout.as_str()));
        assert(views(commands@) =~= xkb_commands(name@, *xkb_config));
    } else {
        assert(views(commands@) =~= xkb_commands(name@, *xkb_config));
    }
    commands
}

// ---------------------------------------------------------------------------
// Which changed keys concern which handler
// ---------------------------------------------------------------------------

/// Whether `key` is among the changed `keys`.
pub open spec fn key_present(keys: Seq<String>, key: Seq<char>) -> bool {
    exists|i: int| 0 <= i < keys.len() && #[trigger] keys[i]@ == key
}

/// What a watcher does with a change of its key.
#[derive(Clone, Copy, Debug, PartialEq, Eq)]
pub enum WatchAction {
    Ignore,
    Apply,
}

/// What the touchpad watcher does with a change: the settings, the override,
/// or both changed.
#[derive(Clone, Copy, Debug, PartialEq, Eq)]
pub enum TouchpadWatchAction {
    Ignore,
    ApplyConfig,
    ApplyOverride,
    ApplyConfigAndOverride,
}

/// The touchpad watcher's action for the changed `keys`.
pub open spec fn touchpad_action(keys: Seq<String>) -> TouchpadWatchAction {
    let config = key_present(keys, COSMIC_TOUCHPAD_CONFIG_KEY@);
    let over = key_present(keys, COSMIC_TOUCHPAD_OVERRIDE_KEY@);
    if config && over {
        TouchpadWatchAction::ApplyConfigAndOverride
    } else if config {
        TouchpadWatchAction::ApplyConfig
    } else if over {
        TouchpadWatchAction::ApplyOverride
    } else {
        TouchpadWatchAction::Ignore
    }
}

/// Whether `expected` is among the changed `keys`.
pub fn has_key(keys: &[String], expected: &str) -> (r: bool)
    ensures
        r == key_present(keys@, expected@),
{
    let mut i: usize = 0;
    while i < keys.len()
        invariant
            i <= keys@.len(),
            forall|k: int| 0 <= k < i ==> keys@[k]@ != expected@,
        decreases keys@.len() - i,
    {
        if str_eq(keys[i].as_str(), expected) {
            return true;
        }
        i = i + 1;
    }
    false
}

/// `Apply` when `expected` changed, `Ignore` otherwise.
pub fn watch_action(keys: &[String], expected: &str) -> (r: WatchAction)
    ensures
        (r == WatchAction::Apply) == key_present(keys@, expected@),
{
    if has_key(keys, expected) {
        WatchAction::Apply
    } else {
        WatchAction::Ignore
    }
}

/// Whether the touchpad settings or the touchpad override changed.
pub fn touchpad_watch_triggers(keys: &[String]) -> (r: bool)
    ensures
        r == (key_present(keys@, COSMIC_TOUCHPAD_CONFIG_KEY@) || key_present(
            keys@,
            COSMIC_TOUCHPAD_OVERRIDE_KEY@,
        )),
{
    has_key(keys, COSMIC_TOUCHPAD_CONFIG_KEY) || has_key(keys, COSMIC_TOUCHPAD_OVERRIDE_KEY)
}

/// Whether the touchpad settings changed.
pub fn touchpad_watch_applies(keys: &[String]) -> (r: bool)
    ensures
        r == key_present(keys@, COSMIC_TOUCHPAD_CONFIG_KEY@),
{
    has_key(keys, COSMIC_TOUCHPAD_CONFIG_KEY)
}

/// Whether the touchpad override changed.
pub fn touchpad_watch_applies_override(keys: &[String]) -> (r: bool)
    ensures
        r == key_present(keys@, COSMIC_TOUCHPAD_OVERRIDE_KEY@),
{
    has_key(keys, COSMIC_TOUCHPAD_OVERRIDE_KEY)
}

/// What the touchpad watcher does with the changed `keys`.
pub fn touchpad_watch_action(keys: &[String]) -> (r: TouchpadWatchAction)
    ensures
        r == touchpad_action(keys@),
{
    if !touchpad_watch_triggers(keys) {
        return TouchpadWatchAction::Ignore;
    }
    match (touchpad_watch_applies(keys), touchpad_watch_applies_override(keys)) {
        (false, false) => TouchpadWatchAction::Ignore,
        (true, false) => TouchpadWatchAction::ApplyConfig,
        (false, true) => TouchpadWatchAction::ApplyOverride,
        (true, true) => TouchpadWatchAction::ApplyConfigAndOverride,
    }
}

/// Whether the touchpad watcher applies the change: only while settings may
/// be applied (not while sway values are being written back) and only when
/// the touchpad settings or override changed.
pub fn should_apply_touchpad_watch(settings_apply_enabled: bool, keys: &[String]) -> (r: bool)
    ensures
        r == (settings_apply_enabled && touchpad_action(keys@) != TouchpadWatchAction::Ignore),
{
    if !settings_apply_enabled {
        return false;
    }
    match touchpad_watch_action(keys) {
        TouchpadWatchAction::Ignore => false,
        _ => true,
    }
}

/// Whether the pointer watcher applies the change: only while settings may
/// be applied and only when the pointer settings changed.
pub fn should_apply_mouse_watch(settings_apply_enabled: bool, keys: &[String]) -> (r: bool)
    ensures
        r == (settings_apply_enabled && key_present(keys@, COSMIC_MOUSE_CONFIG_KEY@)),
{
    if !settings_apply_enabled {
        return false;
    }
    match watch_action(keys, COSMIC_MOUSE_CONFIG_KEY) {
        WatchAction::Apply => true,
        WatchAction::Ignore => false,
    }
}

// ---------------------------------------------------------------------------
// Writing sway's values back into the settings
// ---------------------------------------------------------------------------

/// Whether sway reported any value that is written back into the settings.
pub fn sway_values_present(
    accel_speed: &Option<String>,
    natural_scroll: Option<bool>,
    left_handed: Option<bool>,
) -> (r: bool)
    ensures
        r == (accel_speed is Some || natural_scroll is Some || left_handed is Some),
{
    accel_speed.is_some() || natural_scroll.is_some() || left_handed.is_some()
}

/// `c` with the values sway reported: the speed (keeping the profile),
/// natural scrolling (keeping method and factor) and left-handed mode, each
/// only when sway reported it. Everything else is kept.
pub open spec fn with_sway_values(
    c: CosmicInputConfig,
    accel_speed: Option<String>,
    natural_scroll: Option<bool>,
    left_handed: Option<bool>,
) -> CosmicInputConfig {
    CosmicInputConfig {
        acceleration: match accel_speed {
            Some(speed) => Some(
                CosmicAccelConfig {
                    profile: match c.acceleration {
                        Some(a) => a.profile,
                        None => None,
                    },
                    speed,
                },
            ),
            None => c.acceleration,
        },
        click_method: c.click_method,
        disable_while_typing: c.disable_while_typing,
        left_handed: match left_handed {
            Some(l) => Some(l),
            None => c.left_handed,
        },
        middle_button_emulation: c.middle_button_emulation,
        scroll_config: match natural_scroll {
            Some(natural) => Some(
                CosmicScrollConfig {
                    method: match c.scroll_config {
                        Some(s) => s.method,
                        None => None,
                    },
                    natural_scroll: Some(natural),
                    scroll_factor: match c.scroll_config {
                        Some(s) => s.scroll_factor,
                        None => None,
                    },
                },
            ),
            None => c.scroll_config,
        },
        tap_config: c.tap_config,
    }
}

/// `input_config` with the values sway reported, as [`with_sway_values`]
/// says.
pub fn config_with_sway_values(
    input_config: CosmicInputConfig,
    accel_speed: Option<String>,
    natural_scroll: Option<bool>,
    left_handed: Option<bool>,
) -> (r: CosmicInputConfig)
    ensures
        r == with_sway_values(input_config, accel_speed, natural_scroll, left_handed),
{
    let mut input_config = input_config;
    match accel_speed {
        Some(speed) => {
            let profile = match &input_config.acceleration {
                Some(acceleration) => acceleration.profile,
                None => None,
            };
            input_config.acceleration = Some(CosmicAccelConfig { profile, speed });
        },
        None => {},
    }
    match natural_scroll {
        Some(natural) => {
            let previous = input_config.scroll_config.take();
            let scroll = match previous {
                Some(previous) => CosmicScrollConfig {
                    method: previous.method,
                    natural_scroll: Some(natural),
                    scroll_factor: previous.scroll_factor,
                },
                None => CosmicScrollConfig {
                    method: None,
                    natural_scroll: Some(natural),
                    scroll_factor: None,
                },
            };
            input_config.scroll_config = Some(scroll);
        },
        None => {},
    }
    match left_handed {
        Some(l) => {
            input_config.left_handed = Some(l);
        },
        None => {},
    }
    input_config
}

// ---------------------------------------------------------------------------
// Handing commands to sway
// ---------------------------------------------------------------------------

/// Where commands go: a function that hands one command to sway, with the
/// record (in ghost state) of every command handed to it and its reply.
pub struct CommandSink<F, E> {
    apply: F,
    sent: Ghost<Seq<Seq<char>>>,
    replies: Ghost<Seq<Result<(), E>>>,
}

/// `replies` are the replies to the commands handed over from a list of
/// `count` commands, one by one, stopping at the first error, and `r` is
/// the outcome: `Ok` after every command was accepted, else the error of
/// the first refused command, all earlier ones accepted.
pub open spec fn stops_at_first_error<E>(replies: Seq<Result<(), E>>, count: nat, r: Result<
    (),
    E,
>) -> bool {
    &&& forall|i: int| 0 <= i < replies.len() - 1 ==> (#[trigger] replies[i]) is Ok
    &&& match r {
        Ok(_) => replies.len() == count && (count > 0 ==> replies.last() is Ok),
        Err(_) => 1 <= replies.len() <= count && replies.last() == r,
    }
}

impl<F, E> CommandSink<F, E> where F: FnMut(String) -> Result<(), E> {
    /// The function commands are handed to.
    pub closed spec fn apply_fn(&self) -> F {
        self.apply
    }

    /// The texts of the commands handed over so far, in order.
    pub closed spec fn sent(&self) -> Seq<Seq<char>> {
        self.sent@
    }

    /// The replies to them, in the same order.
    pub closed spec fn replies(&self) -> Seq<Result<(), E>> {
        self.replies@
    }

    /// `after` is this sink once `commands` were handed over one by one,
    /// stopping at the first error, with outcome `r`: the commands handed
    /// over are the first ones of `commands`, in order, each once, as many
    /// as `stops_at_first_error` allows, and each reply is a possible
    /// reply of the function to its command.
    pub open spec fn handed(self, after: Self, commands: Seq<Seq<char>>, r: Result<(), E>) -> bool {
        let replies = after.replies().skip(self.replies().len() as int);
        &&& after.apply_fn() == self.apply_fn()
        &&& after.replies() == self.replies() + replies
        &&& after.sent() == self.sent() + commands.take(replies.len() as int)
        &&& stops_at_first_error(replies, commands.len(), r)
        &&& forall|i: int|
            0 <= i < replies.len() ==> exists|c: String|
                c@ == commands[i] && call_ensures(self.apply_fn(), (c,), #[trigger] replies[i])
    }

    /// A sink for `apply` with nothing handed over yet.
    pub fn new(apply: F) -> (r: Self)
        ensures
            r.apply_fn() == apply,
            r.sent() == Seq::<Seq<char>>::empty(),
            r.replies() == Seq::<Result<(), E>>::empty(),
    {
        CommandSink { apply, sent: Ghost(Seq::empty()), replies: Ghost(Seq::empty()) }
    }

    /// Hands one command over and records it with its reply.
    fn send(&mut self, command: String) -> (r: Result<(), E>)
        requires
            call_requires(old(self).apply_fn(), (command,)),
        ensures
            final(self).apply_fn() == old(self).apply_fn(),
            final(self).sent() == old(self).sent().push(command@),
            final(self).replies() == old(self).replies().push(r),
            call_ensures(old(self).apply_fn(), (command,), r),
    {
        let ghost text = command@;
        let r = (self.apply)(command);
        proof {
            self.sent@ = self.sent@.push(text);
            self.replies@ = self.replies@.push(r);
        }
        r
    }
}

/// Hands each command to `sink` in order and stops at the first error.
pub fn apply_commands<F, E>(commands: Vec<String>, sink: &mut CommandSink<F, E>) -> (r: Result<
    (),
    E,
>) where F: FnMut(String) -> Result<(), E>,

    requires
        forall|c: String| call_requires(old(sink).apply_fn(), (c,)),
    ensures
        old(sink).handed(*final(sink), views(commands@), r),
{
    let ghost before = *sink;
    let ghost start = before.replies().len() as int;
    let ghost texts = views(commands@);
    let mut i: usize = 0;
    while i < commands.len()
        invariant
            before == *old(sink),
            texts == views(commands@),
            texts.len() == commands@.len(),
            forall|c: String| call_requires(before.apply_fn(), (c,)),
            sink.apply_fn() == before.apply_fn(),
            i <= commands@.len(),
            start == before.replies().len(),
            sink.replies().len() == start + i,
            sink.replies().take(start) == before.replies(),
            sink.sent() == before.sent() + texts.take(i as int),
            forall|j: int|
                start <= j < start + i ==> (#[trigger] sink.replies()[j]) is Ok && exists|
                    c: String,
                | c@ == texts[j - start] && call_ensures(before.apply_fn(), (c,), sink.replies()[j]),
        decreases commands@.len() - i,
    {
        let command = commands[i].clone();
        let outcome = sink.send(command);
        proof {
            let replies = sink.replies().skip(start);
            assert(sink.replies().take(start) == before.replies());
            assert(sink.replies() =~= before.replies() + replies);
            assert(command@ == texts[i as int]);
            assert(sink.sent() =~= before.sent() + texts.take(i + 1));
            assert forall|j: int| 0 <= j < replies.len() implies exists|c: String|
                c@ == texts[j] && call_ensures(before.apply_fn(), (c,), #[trigger] replies[j]) by {
                assert(replies[j] == sink.replies()[start + j]);
                if j == i {
                    assert(command@ == texts[j] && call_ensures(
                        before.apply_fn(),
                        (command,),
                        replies[j],
                    ));
                }
            }
            assert forall|j: int| 0 <= j < replies.len() - 1 implies (#[trigger] replies[j]) is Ok by {
                assert(replies[j] == sink.replies()[start + j]);
            }
            assert(replies.last() == outcome);
            assert(replies.len() == i + 1);
        }
        match outcome {
            Ok(u) => {
                assert(u == ());
            },
            Err(e) => {
                return Err(e);
            },
        }
        i = i + 1;
    }
    proof {
        let replies = sink.replies().skip(start);
        assert(sink.replies() =~= before.replies() + replies);
        assert(texts.take(i as int) =~= texts.take(replies.len() as int));
        if i > 0 {
            assert(replies.last() == sink.replies()[start + i - 1]);
        }
        assert forall|j: int| 0 <= j < replies.len() implies exists|c: String|
            c@ == texts[j] && call_ensures(before.apply_fn(), (c,), #[trigger] replies[j]) by {
            assert(replies[j] == sink.replies()[start + j]);
        }
        assert forall|j: int| 0 <= j < replies.len() - 1 implies (#[trigger] replies[j]) is Ok by {
            assert(replies[j] == sink.replies()[start + j]);
        }
    }
    Ok(())
}

/// The pointer watcher's reaction to changed `keys`: when the pointer
/// settings are among them, the pointer commands for `input_config` (the
/// stored pointer settings) are handed to `sink`; otherwise nothing is.
pub fn mouse_watch_callback<F, E>(
    input_config: CosmicInputConfig,
    keys: &[String],
    sink: &mut CommandSink<F, E>,
) -> (r: Result<(), E>) where F: FnMut(String) -> Result<(), E>,

    requires
        forall|c: String| call_requires(old(sink).apply_fn(), (c,)),
    ensures
        old(sink).handed(
            *final(sink),
            if key_present(keys@, COSMIC_MOUSE_CONFIG_KEY@) {
                mouse_commands(input_config)
            } else {
                seq![]
            },
            r,
        ),
{
    let commands = match watch_action(keys, COSMIC_MOUSE_CONFIG_KEY) {
        WatchAction::Ignore => Vec::new(),
        WatchAction::Apply => mouse_commands_for_config(input_config),
    };
    assert(views(commands@) =~= (if key_present(keys@, COSMIC_MOUSE_CONFIG_KEY@) {
        mouse_commands(input_config)
    } else {
        seq![]
    }));
    apply_commands(commands, sink)
}

/// The touchpad commands for a watcher action.
pub open spec fn touchpad_watch_commands(
    action: TouchpadWatchAction,
    c: CosmicInputConfig,
    o: Option<CosmicTouchpadOverride>,
) -> Seq<Seq<char>> {
    match action {
        TouchpadWatchAction::Ignore => seq![],
        TouchpadWatchAction::ApplyConfig => touchpad_commands(c),
        TouchpadWatchAction::ApplyOverride => touchpad_override_commands(o),
        TouchpadWatchAction::ApplyConfigAndOverride => touchpad_commands(c)
            + touchpad_override_commands(o),
    }
}

/// The touchpad watcher's reaction to changed `keys`: the settings
/// commands when the settings changed, the override command when the
/// override changed, both (override last) when both changed, nothing
/// otherwise. `input_config` and `override_` are the stored values.
pub fn touchpad_watch_callback<F, E>(
    input_config: CosmicInputConfig,
    override_: Option<CosmicTouchpadOverride>,
    keys: &[String],
    sink: &mut CommandSink<F, E>,
) -> (r: Result<(), E>) where F: FnMut(String) -> Result<(), E>,

    requires
        forall|c: String| call_requires(old(sink).apply_fn(), (c,)),
    ensures
        old(sink).handed(
            *final(sink),
            touchpad_watch_commands(touchpad_action(keys@), input_config, override_),
            r,
        ),
{
    let action = touchpad_watch_action(keys);
    let commands = match action {
        TouchpadWatchAction::Ignore => Vec::new(),
        TouchpadWatchAction::ApplyConfig => touchpad_commands_for_config(input_config),
        TouchpadWatchAction::ApplyOverride => touchpad_commands_for_override(override_),
        TouchpadWatchAction::ApplyConfigAndOverride => touchpad_commands_for_apply(
            input_config,
            override_,
        ),
    };
    assert(views(commands@) =~= touchpad_watch_commands(action, input_config, override_));
    apply_commands(commands, sink)
}

/// The keyboard watcher's reaction to changed `keys` for the handler called
/// `name`: when the keyboard settings changed, that handler's commands for
/// `xkb_config` are handed to `sink`; otherwise nothing is.
pub fn xkb_watch_callback<F, E>(
    xkb_config: CosmicXkbConfig,
    keys: &[String],
    name: &str,
    sink: &mut CommandSink<F, E>,
) -> (r: Result<(), E>) where F: FnMut(String) -> Result<(), E>,

    requires
        forall|c: String| call_requires(old(sink).apply_fn(), (c,)),
    ensures
        old(sink).handed(
            *final(sink),
            if key_present(keys@, COSMIC_XKB_CONFIG_KEY@) {
                xkb_commands(name@, xkb_config)
            } else {
                seq![]
            },
            r,
        ),
{
    let commands = match watch_action(keys, COSMIC_XKB_CONFIG_KEY) {
        WatchAction::Ignore => Vec::new(),
        WatchAction::Apply => xkb_commands_for_config(name, &xkb_config),
    };
    assert(views(commands@) =~= (if key_present(keys@, COSMIC_XKB_CONFIG_KEY@) {
        xkb_commands(name@, xkb_config)
    } else {
        seq![]
    }));
    apply_commands(commands, sink)
}

// ---------------------------------------------------------------------------
// Laws
// ---------------------------------------------------------------------------

/// Writing back no value from sway leaves the settings as they were.
pub proof fn lemma_no_sway_values_keep_settings(c: CosmicInputConfig)
    ensures
        with_sway_values(c, None, None, None) == c,
{
}

/// Writing back the same values from sway twice is writing them back once.
pub proof fn lemma_sway_values_idempotent(
    c: CosmicInputConfig,
    accel_speed: Option<String>,
    natural_scroll: Option<bool>,
    left_handed: Option<bool>,
)
    ensures
        with_sway_values(
            with_sway_values(c, accel_speed, natural_scroll, left_handed),
            accel_speed,
            natural_scroll,
            left_handed,
        ) == with_sway_values(c, accel_speed, natural_scroll, left_handed),
{
}

/// After sway's pointer values are written back, applying the pointer
/// settings sets exactly those values again.
pub proof fn lemma_mouse_commands_follow_sway(
    c: CosmicInputConfig,
    speed: String,
    natural_scroll: bool,
    left_handed: bool,
)
    ensures
        mouse_commands(with_sway_values(c, Some(speed), Some(natural_scroll), Some(left_handed)))
            == seq![
            input_command("pointer"@, "pointer_accel"@, speed@),
            input_command("pointer"@, "left_handed"@, toggle_text(left_handed)),
            input_command("pointer"@, "natural_scroll"@, toggle_text(natural_scroll)),
        ],
{
    assert(mouse_commands(with_sway_values(c, Some(speed), Some(natural_scroll), Some(left_handed)))
        =~= seq![
        input_command("pointer"@, "pointer_accel"@, speed@),
        input_command("pointer"@, "left_handed"@, toggle_text(left_handed)),
        input_command("pointer"@, "natural_scroll"@, toggle_text(natural_scroll)),
    ]);
}

/// After sway's touchpad values are written back, applying the touchpad
/// settings sets that speed first and sets that natural scrolling.
pub proof fn lemma_touchpad_commands_follow_sway(
    c: CosmicInputConfig,
    speed: String,
    natural_scroll: bool,
)
    ensures
        touchpad_commands(with_sway_values(c, Some(speed), Some(natural_scroll), None))[0]
            == touchpad_command("pointer_accel"@, speed@),
        touchpad_commands(with_sway_values(c, Some(speed), Some(natural_scroll), None)).contains(
            touchpad_command("natural_scroll"@, toggle_text(natural_scroll)),
        ),
{
    let d = with_sway_values(c, Some(speed), Some(natural_scroll), None);
    let before = touchpad_acceleration_commands(d.acceleration) + touchpad_click_commands(
        d.click_method,
    ) + toggle_command("touchpad"@, "dwt"@, d.disable_while_typing) + toggle_command(
        "touchpad"@,
        "left_handed"@,
        d.left_handed,
    ) + toggle_command("touchpad"@, "middle_emulation"@, d.middle_button_emulation);
    let scroll = touchpad_scroll_commands(d.scroll_config);
    let method_part = match d.scroll_config.unwrap().method {
        Some(m) => seq![touchpad_command("scroll_method"@, scroll_method_text(m))],
        None => Seq::<Seq<char>>::empty(),
    };
    let target = touchpad_command("natural_scroll"@, toggle_text(natural_scroll));
    assert(scroll[method_part.len() as int] == target);
    let all = before + scroll + touchpad_tap_commands(d.tap_config);
    assert(all == touchpad_commands(d));
    assert(all[(before.len() + method_part.len()) as int] == target);
    assert(touchpad_acceleration_commands(d.acceleration)[0] == touchpad_command(
        "pointer_accel"@,
        speed@,
    ));
}

/// The keyboard handler's commands depend only on key repeat, and the
/// input-sources handler's only on layout and variant: the two never
/// overwrite each other's settings.
pub proof fn lemma_keyboard_and_layout_commands_split(x: CosmicXkbConfig, y: CosmicXkbConfig)
    ensures
        (x.repeat_delay == y.repeat_delay && x.repeat_rate == y.repeat_rate) ==> xkb_commands(
            "keyboard"@,
            x,
        ) == xkb_commands("keyboard"@, y),
        (x.layout@ == y.layout@ && x.variant@ == y.variant@) ==> xkb_commands(
            "input-sources"@,
            x,
        ) == xkb_commands("input-sources"@, y),
{
    reveal_strlit("keyboard");
    reveal_strlit("input-sources");
    assert("input-sources"@ != "keyboard"@) by {
        assert("input-sources"@[0] != "keyboard"@[0]);
    }
}

} // verus!
