//! Laws of the COSMIC command builders, watchers and write-back: which
//! setting each sway command carries, and what writing sway's values back
//! keeps.
use vstd::prelude::*;
use crate::cosmic::{
    xkb_commands, CosmicXkbConfig,
    accel_profile_text, click_method_text, scroll_method_text,
    key_present, touchpad_action, touchpad_override_commands, touchpad_watch_commands,
    CosmicTouchpadOverride, TouchpadWatchAction, COSMIC_TOUCHPAD_OVERRIDE_KEY,
    with_sway_values, CosmicAccelProfile, CosmicScrollMethod,
    mouse_commands, toggle_command, touchpad_acceleration_commands, touchpad_click_commands,
    touchpad_commands, touchpad_scroll_commands, touchpad_tap_commands, CosmicAccelConfig,
    CosmicClickMethod, CosmicInputConfig, CosmicScrollConfig, CosmicTapConfig,
};
use crate::text::{decimal, input_command, quoted, toggle_text};

verus! {

/// Where the option name starts in a sway input command for `device`.
pub open spec fn option_start(device: Seq<char>) -> int {
    ("input type:"@.len() + device.len() + 1) as int
}

/// The first letter of an input command's option stands at `option_start`.
proof fn lemma_option_letter(device: Seq<char>, option: Seq<char>, value: Seq<char>)
    requires
        option.len() > 0,
    ensures
        input_command(device, option, value).len() > option_start(device),
        input_command(device, option, value)[option_start(device)] == option[0],
{
    reveal_strlit("input type:");
    reveal_strlit(" ");
    let p = "input type:"@ + device + " "@;
    assert(input_command(device, option, value) == p + option + " "@ + value);
    assert(p.len() == option_start(device));
    assert((p + option + " "@ + value)[p.len() as int] == option[0]);
}

/// Two commands for one device and one option are equal only with equal
/// values.
proof fn lemma_option_value(device: Seq<char>, option: Seq<char>, v1: Seq<char>, v2: Seq<char>)
    requires
        input_command(device, option, v1) == input_command(device, option, v2),
    ensures
        v1 == v2,
{
    let p = "input type:"@ + device + " "@ + option + " "@;
    assert(input_command(device, option, v1) == p + v1);
    assert(input_command(device, option, v2) == p + v2);
    assert((p + v1).skip(p.len() as int) =~= v1);
    assert((p + v2).skip(p.len() as int) =~= v2);
}

/// A sequence contains `x` when one of its two parts does.
proof fn lemma_concat_contains(a: Seq<Seq<char>>, b: Seq<Seq<char>>, x: Seq<char>)
    ensures
        (a + b).contains(x) <==> (a.contains(x) || b.contains(x)),
{
    if a.contains(x) {
        let i = choose|i: int| 0 <= i < a.len() && a[i] == x;
        assert((a + b)[i] == x);
    }
    if b.contains(x) {
        let i = choose|i: int| 0 <= i < b.len() && b[i] == x;
        assert((a + b)[a.len() + i] == x);
    }
    if (a + b).contains(x) {
        let i = choose|i: int| 0 <= i < (a + b).len() && (a + b)[i] == x;
        if i < a.len() {
            assert(a[i] == x);
        } else {
            assert(b[i - a.len()] == x);
        }
    }
}

/// No command of `s` has an option starting with `letter`, so `s` holds no
/// command whose option does.
proof fn lemma_letter_absent(s: Seq<Seq<char>>, device: Seq<char>, option: Seq<char>, value: Seq<char>)
    requires
        option.len() > 0,
        forall|i: int|
            0 <= i < s.len() ==> (#[trigger] s[i]).len() > option_start(device) && s[i][option_start(
                device,
            )] != option[0],
    ensures
        !s.contains(input_command(device, option, value)),
{
    lemma_option_letter(device, option, value);
    if s.contains(input_command(device, option, value)) {
        let i = choose|i: int| 0 <= i < s.len() && s[i] == input_command(device, option, value);
        assert(s[i][option_start(device)] == option[0]);
    }
}

/// No command of `s` has an option beginning with `letter`.
pub open spec fn avoids_letter(s: Seq<Seq<char>>, device: Seq<char>, letter: char) -> bool {
    forall|i: int|
        0 <= i < s.len() ==> (#[trigger] s[i]).len() > option_start(device) && s[i][option_start(
            device,
        )] != letter
}

proof fn lemma_avoids_concat(a: Seq<Seq<char>>, b: Seq<Seq<char>>, device: Seq<char>, letter: char)
    requires
        avoids_letter(a, device, letter),
        avoids_letter(b, device, letter),
    ensures
        avoids_letter(a + b, device, letter),
{
    assert forall|i: int| 0 <= i < (a + b).len() implies (#[trigger] (a + b)[i]).len()
        > option_start(device) && (a + b)[i][option_start(device)] != letter by {
        if i < a.len() {
            assert((a + b)[i] == a[i]);
        } else {
            assert((a + b)[i] == b[i - a.len()]);
        }
    }
}

proof fn lemma_avoids_one(device: Seq<char>, option: Seq<char>, value: Seq<char>, letter: char)
    requires
        option.len() > 0,
        option[0] != letter,
    ensures
        avoids_letter(seq![input_command(device, option, value)], device, letter),
{
    lemma_option_letter(device, option, value);
}

proof fn lemma_toggle_avoids(device: Seq<char>, option: Seq<char>, value: Option<bool>, letter: char)
    requires
        option.len() > 0,
        option[0] != letter,
    ensures
        avoids_letter(toggle_command(device, option, value), device, letter),
{
    match value {
        Some(b) => lemma_avoids_one(device, option, toggle_text(b), letter),
        None => {},
    }
}

proof fn lemma_accel_avoids(a: Option<CosmicAccelConfig>, letter: char)
    requires
        letter != 'p',
        letter != 'a',
    ensures
        avoids_letter(touchpad_acceleration_commands(a), "touchpad"@, letter),
{
    reveal_strlit("pointer_accel");
    reveal_strlit("accel_profile");
    match a {
        Some(a) => {
            lemma_avoids_one("touchpad"@, "pointer_accel"@, a.speed@, letter);
            match a.profile {
                Some(p) => {
                    lemma_avoids_one(
                        "touchpad"@,
                        "accel_profile"@,
                        crate::cosmic::accel_profile_text(p),
                        letter,
                    );
                    lemma_avoids_concat(
                        seq![input_command("touchpad"@, "pointer_accel"@, a.speed@)],
                        seq![
                            input_command(
                                "touchpad"@,
                                "accel_profile"@,
                                crate::cosmic::accel_profile_text(p),
                            ),
                        ],
                        "touchpad"@,
                        letter,
                    );
                },
                None => {
                    assert(touchpad_acceleration_commands(Some(a)) =~= seq![
                        input_command("touchpad"@, "pointer_accel"@, a.speed@),
                    ]);
                },
            }
        },
        None => {},
    }
}

proof fn lemma_click_avoids(m: Option<CosmicClickMethod>, letter: char)
    requires
        letter != 'c',
    ensures
        avoids_letter(touchpad_click_commands(m), "touchpad"@, letter),
{
    reveal_strlit("click_method");
    match m {
        Some(m) => lemma_avoids_one(
            "touchpad"@,
            "click_method"@,
            crate::cosmic::click_method_text(m),
            letter,
        ),
        None => {},
    }
}

proof fn lemma_scroll_avoids(s: Option<CosmicScrollConfig>, letter: char)
    requires
        letter != 's',
        letter != 'n',
    ensures
        avoids_letter(touchpad_scroll_commands(s), "touchpad"@, letter),
{
    reveal_strlit("scroll_method");
    reveal_strlit("natural_scroll");
    reveal_strlit("scroll_factor");
    match s {
        Some(s) => {
            let m = match s.method {
                Some(m) => seq![
                    input_command(
                        "touchpad"@,
                        "scroll_method"@,
                        crate::cosmic::scroll_method_text(m),
                    ),
                ],
                None => Seq::<Seq<char>>::empty(),
            };
            let f = match s.scroll_factor {
                Some(f) => seq![input_command("touchpad"@, "scroll_factor"@, f@)],
                None => Seq::<Seq<char>>::empty(),
            };
            match s.method {
                Some(k) => lemma_avoids_one(
                    "touchpad"@,
                    "scroll_method"@,
                    crate::cosmic::scroll_method_text(k),
                    letter,
                ),
                None => {},
            }
            match s.scroll_factor {
                Some(x) => lemma_avoids_one("touchpad"@, "scroll_factor"@, x@, letter),
                None => {},
            }
            lemma_toggle_avoids("touchpad"@, "natural_scroll"@, s.natural_scroll, letter);
            let n = toggle_command("touchpad"@, "natural_scroll"@, s.natural_scroll);
            lemma_avoids_concat(m, n, "touchpad"@, letter);
            lemma_avoids_concat(m + n, f, "touchpad"@, letter);
            assert(touchpad_scroll_commands(Some(s)) =~= m + n + f);
        },
        None => {},
    }
}

proof fn lemma_tap_avoids(t: Option<CosmicTapConfig>, letter: char)
    requires
        letter != 't',
        letter != 'd',
    ensures
        avoids_letter(touchpad_tap_commands(t), "touchpad"@, letter),
{
    reveal_strlit("tap");
    reveal_strlit("drag");
    reveal_strlit("drag_lock");
    match t {
        Some(t) => {
            lemma_option_letter("touchpad"@, "tap"@, toggle_text(t.enabled));
            lemma_option_letter("touchpad"@, "drag"@, toggle_text(t.drag));
            lemma_option_letter("touchpad"@, "drag_lock"@, toggle_text(t.drag_lock));
        },
        None => {},
    }
}

/// A one-command sequence holds exactly its command.
proof fn lemma_one_contains(x: Seq<char>, y: Seq<char>)
    ensures
        seq![x].contains(y) <==> x == y,
{
    if x == y {
        assert(seq![x][0] == y);
    }
}

/// Whether an optional switch's command sequence holds the command with
/// `value`: exactly when the switch is set and `value` is its word.
proof fn lemma_toggle_contains(device: Seq<char>, option: Seq<char>, setting: Option<bool>, value: Seq<
    char,
>)
    ensures
        toggle_command(device, option, setting).contains(input_command(device, option, value)) <==> (
        setting matches Some(b) && value == toggle_text(b)),
{
    match setting {
        Some(b) => {
            lemma_one_contains(
                input_command(device, option, toggle_text(b)),
                input_command(device, option, value),
            );
            if input_command(device, option, toggle_text(b)) == input_command(device, option, value) {
                lemma_option_value(device, option, toggle_text(b), value);
            }
        },
        None => {},
    }
}

/// The touchpad commands carry the middle-button emulation setting, and
/// nothing else does: they hold the `middle_emulation` command with value
/// `v` exactly when that setting is `Some(b)` and `v` is sway's word for
/// `b`, whatever the other settings are.
#[verifier::spinoff_prover]
pub proof fn lemma_touchpad_middle_emulation(c: CosmicInputConfig, v: Seq<char>)
    ensures
        touchpad_commands(c).contains(input_command("touchpad"@, "middle_emulation"@, v)) <==> (
        c.middle_button_emulation matches Some(b) && v == toggle_text(b)),
{
    reveal_strlit("middle_emulation");
    reveal_strlit("dwt");
    reveal_strlit("left_handed");
    let d = "touchpad"@;
    let m = input_command(d, "middle_emulation"@, v);
    let p1 = touchpad_acceleration_commands(c.acceleration);
    let p2 = touchpad_click_commands(c.click_method);
    let p3 = toggle_command(d, "dwt"@, c.disable_while_typing);
    let p4 = toggle_command(d, "left_handed"@, c.left_handed);
    let mid = toggle_command(d, "middle_emulation"@, c.middle_button_emulation);
    let p6 = touchpad_scroll_commands(c.scroll_config);
    let p7 = touchpad_tap_commands(c.tap_config);
    lemma_accel_avoids(c.acceleration, 'm');
    lemma_click_avoids(c.click_method, 'm');
    lemma_toggle_avoids(d, "dwt"@, c.disable_while_typing, 'm');
    lemma_toggle_avoids(d, "left_handed"@, c.left_handed, 'm');
    lemma_scroll_avoids(c.scroll_config, 'm');
    lemma_tap_avoids(c.tap_config, 'm');
    lemma_avoids_concat(p1, p2, d, 'm');
    lemma_avoids_concat(p1 + p2, p3, d, 'm');
    lemma_avoids_concat(p1 + p2 + p3, p4, d, 'm');
    let before = p1 + p2 + p3 + p4;
    lemma_letter_absent(before, d, "middle_emulation"@, v);
    lemma_letter_absent(p6, d, "middle_emulation"@, v);
    lemma_letter_absent(p7, d, "middle_emulation"@, v);
    lemma_concat_contains(before, mid, m);
    lemma_concat_contains(before + mid, p6, m);
    lemma_concat_contains(before + mid + p6, p7, m);
    lemma_toggle_contains(d, "middle_emulation"@, c.middle_button_emulation, v);
}

/// The parts of the pointer commands: speed, left-handed mode, natural
/// scrolling; each part holds only commands for its own option.
proof fn lemma_mouse_parts(c: CosmicInputConfig)
    ensures
        ({
            let d = "pointer"@;
            let speed = match c.acceleration {
                Some(a) => seq![input_command(d, "pointer_accel"@, a.speed@)],
                None => Seq::<Seq<char>>::empty(),
            };
            let natural = match c.scroll_config {
                Some(s) => s.natural_scroll,
                None => None,
            };
            &&& mouse_commands(c) =~= speed + toggle_command(d, "left_handed"@, c.left_handed)
                + toggle_command(d, "natural_scroll"@, natural)
            &&& avoids_letter(speed, d, 'l') && avoids_letter(speed, d, 'n')
            &&& avoids_letter(toggle_command(d, "left_handed"@, c.left_handed), d, 'p')
            &&& avoids_letter(toggle_command(d, "left_handed"@, c.left_handed), d, 'n')
            &&& avoids_letter(toggle_command(d, "natural_scroll"@, natural), d, 'p')
            &&& avoids_letter(toggle_command(d, "natural_scroll"@, natural), d, 'l')
        }),
{
    reveal_strlit("pointer_accel");
    reveal_strlit("left_handed");
    reveal_strlit("natural_scroll");
    let d = "pointer"@;
    let natural = match c.scroll_config {
        Some(s) => s.natural_scroll,
        None => None,
    };
    match c.acceleration {
        Some(a) => {
            lemma_avoids_one(d, "pointer_accel"@, a.speed@, 'l');
            lemma_avoids_one(d, "pointer_accel"@, a.speed@, 'n');
        },
        None => {},
    }
    lemma_toggle_avoids(d, "left_handed"@, c.left_handed, 'p');
    lemma_toggle_avoids(d, "left_handed"@, c.left_handed, 'n');
    lemma_toggle_avoids(d, "natural_scroll"@, natural, 'p');
    lemma_toggle_avoids(d, "natural_scroll"@, natural, 'l');
}

/// The pointer commands carry the left-handed setting whatever else is
/// stored (with or without an acceleration section): they hold the
/// `left_handed` command with value `v` exactly when the setting is
/// `Some(b)` and `v` is sway's word for `b`.
pub proof fn lemma_mouse_left_handed(c: CosmicInputConfig, v: Seq<char>)
    ensures
        mouse_commands(c).contains(input_command("pointer"@, "left_handed"@, v)) <==> (
        c.left_handed matches Some(b) && v == toggle_text(b)),
{
    reveal_strlit("left_handed");
    let d = "pointer"@;
    let x = input_command(d, "left_handed"@, v);
    let natural = match c.scroll_config {
        Some(s) => s.natural_scroll,
        None => None,
    };
    let speed = match c.acceleration {
        Some(a) => seq![input_command(d, "pointer_accel"@, a.speed@)],
        None => Seq::<Seq<char>>::empty(),
    };
    let left = toggle_command(d, "left_handed"@, c.left_handed);
    let scroll = toggle_command(d, "natural_scroll"@, natural);
    lemma_mouse_parts(c);
    lemma_letter_absent(speed, d, "left_handed"@, v);
    lemma_letter_absent(scroll, d, "left_handed"@, v);
    lemma_concat_contains(speed, left, x);
    lemma_concat_contains(speed + left, scroll, x);
    lemma_toggle_contains(d, "left_handed"@, c.left_handed, v);
}

/// The pointer commands carry the natural-scrolling setting of the scroll
/// section whatever else is stored: they hold the `natural_scroll` command
/// with value `v` exactly when that setting is `Some(b)` and `v` is sway's
/// word for `b`.
pub proof fn lemma_mouse_natural_scroll(c: CosmicInputConfig, v: Seq<char>)
    ensures
        mouse_commands(c).contains(input_command("pointer"@, "natural_scroll"@, v)) <==> (
        c.scroll_config matches Some(s) && s.natural_scroll matches Some(b) && v == toggle_text(b)),
{
    reveal_strlit("natural_scroll");
    let d = "pointer"@;
    let x = input_command(d, "natural_scroll"@, v);
    let natural = match c.scroll_config {
        Some(s) => s.natural_scroll,
        None => None,
    };
    let speed = match c.acceleration {
        Some(a) => seq![input_command(d, "pointer_accel"@, a.speed@)],
        None => Seq::<Seq<char>>::empty(),
    };
    let left = toggle_command(d, "left_handed"@, c.left_handed);
    let scroll = toggle_command(d, "natural_scroll"@, natural);
    lemma_mouse_parts(c);
    lemma_letter_absent(speed, d, "natural_scroll"@, v);
    lemma_letter_absent(left, d, "natural_scroll"@, v);
    lemma_concat_contains(speed, left, x);
    lemma_concat_contains(speed + left, scroll, x);
    lemma_toggle_contains(d, "natural_scroll"@, natural, v);
}

/// The pointer commands carry the stored speed: they hold the
/// `pointer_accel` command with value `v` exactly when an acceleration
/// section is stored and `v` is its speed.
pub proof fn lemma_mouse_speed(c: CosmicInputConfig, v: Seq<char>)
    ensures
        mouse_commands(c).contains(input_command("pointer"@, "pointer_accel"@, v)) <==> (
        c.acceleration matches Some(a) && v == a.speed@),
{
    reveal_strlit("pointer_accel");
    let d = "pointer"@;
    let x = input_command(d, "pointer_accel"@, v);
    let natural = match c.scroll_config {
        Some(s) => s.natural_scroll,
        None => None,
    };
    let speed = match c.acceleration {
        Some(a) => seq![input_command(d, "pointer_accel"@, a.speed@)],
        None => Seq::<Seq<char>>::empty(),
    };
    let left = toggle_command(d, "left_handed"@, c.left_handed);
    let scroll = toggle_command(d, "natural_scroll"@, natural);
    lemma_mouse_parts(c);
    lemma_letter_absent(left, d, "pointer_accel"@, v);
    lemma_letter_absent(scroll, d, "pointer_accel"@, v);
    lemma_concat_contains(speed, left, x);
    lemma_concat_contains(speed + left, scroll, x);
    match c.acceleration {
        Some(a) => {
            lemma_one_contains(input_command(d, "pointer_accel"@, a.speed@), x);
            if input_command(d, "pointer_accel"@, a.speed@) == x {
                lemma_option_value(d, "pointer_accel"@, a.speed@, v);
            }
        },
        None => {},
    }
}

/// The stored speed, if an acceleration section is stored.
pub open spec fn stored_speed(c: CosmicInputConfig) -> Option<String> {
    match c.acceleration {
        Some(a) => Some(a.speed),
        None => None,
    }
}

/// The stored acceleration profile.
pub open spec fn stored_profile(c: CosmicInputConfig) -> Option<CosmicAccelProfile> {
    match c.acceleration {
        Some(a) => a.profile,
        None => None,
    }
}

/// The stored scroll method.
pub open spec fn stored_scroll_method(c: CosmicInputConfig) -> Option<CosmicScrollMethod> {
    match c.scroll_config {
        Some(s) => s.method,
        None => None,
    }
}

/// The stored natural scrolling.
pub open spec fn stored_natural_scroll(c: CosmicInputConfig) -> Option<bool> {
    match c.scroll_config {
        Some(s) => s.natural_scroll,
        None => None,
    }
}

/// The stored scroll factor.
pub open spec fn stored_scroll_factor(c: CosmicInputConfig) -> Option<String> {
    match c.scroll_config {
        Some(s) => s.scroll_factor,
        None => None,
    }
}

/// Writing sway's values back changes only what sway reported: the speed,
/// natural scrolling and left-handed mode become the reported values where
/// one was reported and stay as stored otherwise; the acceleration profile,
/// the scroll method and the scroll factor, the click method, typing and
/// middle-button settings and the tap settings are always kept; and no
/// section appears that neither was stored nor received a reported value.
pub proof fn lemma_write_back_changes_only_reported(
    c: CosmicInputConfig,
    speed: Option<String>,
    natural_scroll: Option<bool>,
    left_handed: Option<bool>,
)
    ensures
        ({
            let r = with_sway_values(c, speed, natural_scroll, left_handed);
            &&& stored_speed(r) == (if speed is Some {
                speed
            } else {
                stored_speed(c)
            })
            &&& stored_natural_scroll(r) == (if natural_scroll is Some {
                natural_scroll
            } else {
                stored_natural_scroll(c)
            })
            &&& r.left_handed == (if left_handed is Some {
                left_handed
            } else {
                c.left_handed
            })
            &&& stored_profile(r) == stored_profile(c)
            &&& stored_scroll_method(r) == stored_scroll_method(c)
            &&& stored_scroll_factor(r) == stored_scroll_factor(c)
            &&& r.click_method == c.click_method
            &&& r.disable_while_typing == c.disable_while_typing
            &&& r.middle_button_emulation == c.middle_button_emulation
            &&& r.tap_config == c.tap_config
            &&& (r.acceleration is Some <==> (c.acceleration is Some || speed is Some))
            &&& (r.scroll_config is Some <==> (c.scroll_config is Some || natural_scroll is Some))
        }),
{
}

/// The touchpad settings commands never set `events`: that is the
/// override's command alone.
proof fn lemma_touchpad_commands_avoid_events(c: CosmicInputConfig)
    ensures
        avoids_letter(touchpad_commands(c), "touchpad"@, 'e'),
{
    reveal_strlit("middle_emulation");
    reveal_strlit("dwt");
    reveal_strlit("left_handed");
    let d = "touchpad"@;
    let p1 = touchpad_acceleration_commands(c.acceleration);
    let p2 = touchpad_click_commands(c.click_method);
    let p3 = toggle_command(d, "dwt"@, c.disable_while_typing);
    let p4 = toggle_command(d, "left_handed"@, c.left_handed);
    let p5 = toggle_command(d, "middle_emulation"@, c.middle_button_emulation);
    let p6 = touchpad_scroll_commands(c.scroll_config);
    let p7 = touchpad_tap_commands(c.tap_config);
    lemma_accel_avoids(c.acceleration, 'e');
    lemma_click_avoids(c.click_method, 'e');
    lemma_toggle_avoids(d, "dwt"@, c.disable_while_typing, 'e');
    lemma_toggle_avoids(d, "left_handed"@, c.left_handed, 'e');
    lemma_toggle_avoids(d, "middle_emulation"@, c.middle_button_emulation, 'e');
    lemma_scroll_avoids(c.scroll_config, 'e');
    lemma_tap_avoids(c.tap_config, 'e');
    lemma_avoids_concat(p1, p2, d, 'e');
    lemma_avoids_concat(p1 + p2, p3, d, 'e');
    lemma_avoids_concat(p1 + p2 + p3, p4, d, 'e');
    lemma_avoids_concat(p1 + p2 + p3 + p4, p5, d, 'e');
    lemma_avoids_concat(p1 + p2 + p3 + p4 + p5, p6, d, 'e');
    lemma_avoids_concat(p1 + p2 + p3 + p4 + p5 + p6, p7, d, 'e');
    assert(touchpad_commands(c) =~= p1 + p2 + p3 + p4 + p5 + p6 + p7);
}

/// sway's word for the touchpad's events under override `o`: off when the
/// touchpad is forced off, on otherwise (also with no override stored).
pub open spec fn events_word(o: Option<CosmicTouchpadOverride>) -> Seq<char> {
    if o == Some(CosmicTouchpadOverride::ForceDisable) {
        "disabled"@
    } else {
        "enabled"@
    }
}

/// A change of the touchpad override always reaches sway: when the
/// override key is among the changed keys, the touchpad watcher's commands
/// end with the `events` command for the stored override, whatever else
/// changed. The watcher hands over an `events` command with value `v`
/// exactly when the override key changed and `v` is that word.
pub proof fn lemma_override_change_sets_events(
    keys: Seq<String>,
    c: CosmicInputConfig,
    o: Option<CosmicTouchpadOverride>,
    v: Seq<char>,
)
    ensures
        key_present(keys, COSMIC_TOUCHPAD_OVERRIDE_KEY@) ==> ({
            let cmds = touchpad_watch_commands(touchpad_action(keys), c, o);
            cmds.len() > 0 && cmds.last() == input_command("touchpad"@, "events"@, events_word(o))
        }),
        touchpad_watch_commands(touchpad_action(keys), c, o).contains(
            input_command("touchpad"@, "events"@, v),
        ) <==> (key_present(keys, COSMIC_TOUCHPAD_OVERRIDE_KEY@) && v == events_word(o)),
{
    reveal_strlit("events");
    let d = "touchpad"@;
    let x = input_command(d, "events"@, v);
    let ev = input_command(d, "events"@, events_word(o));
    let over = touchpad_override_commands(o);
    assert(over =~= seq![ev]);
    lemma_one_contains(ev, x);
    if ev == x {
        lemma_option_value(d, "events"@, events_word(o), v);
    }
    lemma_touchpad_commands_avoid_events(c);
    lemma_letter_absent(touchpad_commands(c), d, "events"@, v);
    lemma_concat_contains(touchpad_commands(c), over, x);
    assert((touchpad_commands(c) + over).last() == ev);
    assert(!Seq::<Seq<char>>::empty().contains(x));
}

/// The touchpad commands carry the left-handed setting, and nothing else
/// does: they hold the `left_handed` command with value `v` exactly when
/// that setting is `Some(b)` and `v` is sway's word for `b`.
#[verifier::spinoff_prover]
pub proof fn lemma_touchpad_left_handed(c: CosmicInputConfig, v: Seq<char>)
    ensures
        touchpad_commands(c).contains(input_command("touchpad"@, "left_handed"@, v)) <==> (
        c.left_handed matches Some(b) && v == toggle_text(b)),
{
    reveal_strlit("middle_emulation");
    reveal_strlit("dwt");
    reveal_strlit("left_handed");
    let d = "touchpad"@;
    let x = input_command(d, "left_handed"@, v);
    let p1 = touchpad_acceleration_commands(c.acceleration);
    let p2 = touchpad_click_commands(c.click_method);
    let p3 = toggle_command(d, "dwt"@, c.disable_while_typing);
    let left = toggle_command(d, "left_handed"@, c.left_handed);
    let p5 = toggle_command(d, "middle_emulation"@, c.middle_button_emulation);
    let p6 = touchpad_scroll_commands(c.scroll_config);
    let p7 = touchpad_tap_commands(c.tap_config);
    lemma_accel_avoids(c.acceleration, 'l');
    lemma_click_avoids(c.click_method, 'l');
    lemma_toggle_avoids(d, "dwt"@, c.disable_while_typing, 'l');
    lemma_toggle_avoids(d, "middle_emulation"@, c.middle_button_emulation, 'l');
    lemma_scroll_avoids(c.scroll_config, 'l');
    lemma_tap_avoids(c.tap_config, 'l');
    lemma_avoids_concat(p1, p2, d, 'l');
    lemma_avoids_concat(p1 + p2, p3, d, 'l');
    let before = p1 + p2 + p3;
    lemma_letter_absent(before, d, "left_handed"@, v);
    lemma_letter_absent(p5, d, "left_handed"@, v);
    lemma_letter_absent(p6, d, "left_handed"@, v);
    lemma_letter_absent(p7, d, "left_handed"@, v);
    lemma_concat_contains(before, left, x);
    lemma_concat_contains(before + left, p5, x);
    lemma_concat_contains(before + left + p5, p6, x);
    lemma_concat_contains(before + left + p5 + p6, p7, x);
    lemma_toggle_contains(d, "left_handed"@, c.left_handed, v);
}

/// 1 for a setting that is stored, 0 for one that is not.
pub open spec fn stored<T>(setting: Option<T>) -> nat {
    if setting is Some {
        1
    } else {
        0
    }
}

/// A command in any part of the touchpad commands is among them.
proof fn lemma_touchpad_part_contained(c: CosmicInputConfig, x: Seq<char>)
    ensures
        ({
            let d = "touchpad"@;
            touchpad_acceleration_commands(c.acceleration).contains(x)
                || touchpad_click_commands(c.click_method).contains(x) || toggle_command(
                d,
                "dwt"@,
                c.disable_while_typing,
            ).contains(x) || toggle_command(d, "left_handed"@, c.left_handed).contains(x)
                || toggle_command(d, "middle_emulation"@, c.middle_button_emulation).contains(x)
                || touchpad_scroll_commands(c.scroll_config).contains(x) || touchpad_tap_commands(
                c.tap_config,
            ).contains(x)
        }) ==> touchpad_commands(c).contains(x),
{
    let d = "touchpad"@;
    let p1 = touchpad_acceleration_commands(c.acceleration);
    let p2 = touchpad_click_commands(c.click_method);
    let p3 = toggle_command(d, "dwt"@, c.disable_while_typing);
    let p4 = toggle_command(d, "left_handed"@, c.left_handed);
    let p5 = toggle_command(d, "middle_emulation"@, c.middle_button_emulation);
    let p6 = touchpad_scroll_commands(c.scroll_config);
    let p7 = touchpad_tap_commands(c.tap_config);
    lemma_concat_contains(p1, p2, x);
    lemma_concat_contains(p1 + p2, p3, x);
    lemma_concat_contains(p1 + p2 + p3, p4, x);
    lemma_concat_contains(p1 + p2 + p3 + p4, p5, x);
    lemma_concat_contains(p1 + p2 + p3 + p4 + p5, p6, x);
    lemma_concat_contains(p1 + p2 + p3 + p4 + p5 + p6, p7, x);
}

/// Each stored touchpad speed, profile, click method and switch reaches
/// sway as a command that carries its stored value.
pub proof fn lemma_touchpad_commands_carry_settings(c: CosmicInputConfig)
    ensures
        stored_speed(c) matches Some(v) ==> touchpad_commands(c).contains(
            input_command("touchpad"@, "pointer_accel"@, v@),
        ),
        stored_profile(c) matches Some(p) ==> touchpad_commands(c).contains(
            input_command("touchpad"@, "accel_profile"@, accel_profile_text(p)),
        ),
        c.click_method matches Some(m) ==> touchpad_commands(c).contains(
            input_command("touchpad"@, "click_method"@, click_method_text(m)),
        ),
        c.disable_while_typing matches Some(b) ==> touchpad_commands(c).contains(
            input_command("touchpad"@, "dwt"@, toggle_text(b)),
        ),
        c.left_handed matches Some(b) ==> touchpad_commands(c).contains(
            input_command("touchpad"@, "left_handed"@, toggle_text(b)),
        ),
        c.middle_button_emulation matches Some(b) ==> touchpad_commands(c).contains(
            input_command("touchpad"@, "middle_emulation"@, toggle_text(b)),
        ),
{
    let d = "touchpad"@;
    match c.acceleration {
        Some(a) => {
            let p1 = touchpad_acceleration_commands(c.acceleration);
            let x = input_command(d, "pointer_accel"@, a.speed@);
            assert(p1[0] == x);
            lemma_touchpad_part_contained(c, x);
            match a.profile {
                Some(p) => {
                    let y = input_command(d, "accel_profile"@, accel_profile_text(p));
                    assert(p1[1] == y);
                    lemma_touchpad_part_contained(c, y);
                },
                None => {},
            }
        },
        None => {},
    }
    match c.click_method {
        Some(m) => {
            let x = input_command(d, "click_method"@, click_method_text(m));
            assert(touchpad_click_commands(c.click_method)[0] == x);
            lemma_touchpad_part_contained(c, x);
        },
        None => {},
    }
    match c.disable_while_typing {
        Some(b) => {
            let x = input_command(d, "dwt"@, toggle_text(b));
            assert(toggle_command(d, "dwt"@, c.disable_while_typing)[0] == x);
            lemma_touchpad_part_contained(c, x);
        },
        None => {},
    }
    match c.left_handed {
        Some(b) => {
            let x = input_command(d, "left_handed"@, toggle_text(b));
            assert(toggle_command(d, "left_handed"@, c.left_handed)[0] == x);
            lemma_touchpad_part_contained(c, x);
        },
        None => {},
    }
    match c.middle_button_emulation {
        Some(b) => {
            let x = input_command(d, "middle_emulation"@, toggle_text(b));
            assert(toggle_command(d, "middle_emulation"@, c.middle_button_emulation)[0] == x);
            lemma_touchpad_part_contained(c, x);
        },
        None => {},
    }
}

/// Each stored scroll setting (method, natural scrolling, factor) reaches
/// sway as a touchpad command that carries its stored value.
pub proof fn lemma_touchpad_commands_carry_scroll(c: CosmicInputConfig)
    ensures
        stored_scroll_method(c) matches Some(m) ==> touchpad_commands(c).contains(
            input_command("touchpad"@, "scroll_method"@, scroll_method_text(m)),
        ),
        stored_natural_scroll(c) matches Some(b) ==> touchpad_commands(c).contains(
            input_command("touchpad"@, "natural_scroll"@, toggle_text(b)),
        ),
        stored_scroll_factor(c) matches Some(f) ==> touchpad_commands(c).contains(
            input_command("touchpad"@, "scroll_factor"@, f@),
        ),
{
    let d = "touchpad"@;
    match c.scroll_config {
        Some(s) => {
            let p6 = touchpad_scroll_commands(c.scroll_config);
            let m = match s.method {
                Some(k) => seq![input_command(d, "scroll_method"@, scroll_method_text(k))],
                None => Seq::<Seq<char>>::empty(),
            };
            let n = toggle_command(d, "natural_scroll"@, s.natural_scroll);
            let f = match s.scroll_factor {
                Some(x) => seq![input_command(d, "scroll_factor"@, x@)],
                None => Seq::<Seq<char>>::empty(),
            };
            assert(p6 == m + n + f);
            match s.method {
                Some(k) => {
                    let x = input_command(d, "scroll_method"@, scroll_method_text(k));
                    assert(p6[0] == x);
                    lemma_touchpad_part_contained(c, x);
                },
                None => {},
            }
            match s.natural_scroll {
                Some(b) => {
                    let x = input_command(d, "natural_scroll"@, toggle_text(b));
                    assert(p6[m.len() as int] == x);
                    lemma_touchpad_part_contained(c, x);
                },
                None => {},
            }
            match s.scroll_factor {
                Some(v) => {
                    let x = input_command(d, "scroll_factor"@, v@);
                    assert(p6[(m.len() + n.len()) as int] == x);
                    lemma_touchpad_part_contained(c, x);
                },
                None => {},
            }
        },
        None => {},
    }
}

/// Stored tap settings reach sway as the tap, drag and drag-lock commands
/// with their stored values.
pub proof fn lemma_touchpad_commands_carry_tap(c: CosmicInputConfig)
    ensures
        c.tap_config matches Some(t) ==> touchpad_commands(c).contains(
            input_command("touchpad"@, "tap"@, toggle_text(t.enabled)),
        ),
        c.tap_config matches Some(t) ==> touchpad_commands(c).contains(
            input_command("touchpad"@, "drag"@, toggle_text(t.drag)),
        ),
        c.tap_config matches Some(t) ==> touchpad_commands(c).contains(
            input_command("touchpad"@, "drag_lock"@, toggle_text(t.drag_lock)),
        ),
{
    let d = "touchpad"@;
    match c.tap_config {
        Some(t) => {
            let p7 = touchpad_tap_commands(c.tap_config);
            let x = input_command(d, "tap"@, toggle_text(t.enabled));
            let y = input_command(d, "drag"@, toggle_text(t.drag));
            let z = input_command(d, "drag_lock"@, toggle_text(t.drag_lock));
            assert(p7[0] == x);
            assert(p7[1] == y);
            assert(p7[2] == z);
            lemma_touchpad_part_contained(c, x);
            lemma_touchpad_part_contained(c, y);
            lemma_touchpad_part_contained(c, z);
        },
        None => {},
    }
}

/// The touchpad commands are one per stored setting: one each for the
/// speed, the profile, the click method, the three switches, the scroll
/// method, natural scrolling and the scroll factor, and three for the tap
/// settings; nothing is sent for a setting that is not stored.
pub proof fn lemma_touchpad_command_count(c: CosmicInputConfig)
    ensures
        touchpad_commands(c).len() == stored(c.acceleration) + (match c.acceleration {
            Some(a) => stored(a.profile),
            None => 0,
        }) + stored(c.click_method) + stored(c.disable_while_typing) + stored(c.left_handed)
            + stored(c.middle_button_emulation) + (match c.scroll_config {
            Some(s) => stored(s.method) + stored(s.natural_scroll) + stored(s.scroll_factor),
            None => 0,
        }) + 3 * stored(c.tap_config),
{
}

/// The pointer commands are one per stored pointer setting: the speed,
/// left-handed mode and natural scrolling.
pub proof fn lemma_mouse_command_count(c: CosmicInputConfig)
    ensures
        mouse_commands(c).len() == stored(c.acceleration) + stored(c.left_handed) + stored(
            stored_natural_scroll(c),
        ),
{
}

/// The keyboard handler sends exactly two commands, carrying the stored
/// key repeat delay and rate as decimal text; the layouts are left to the
/// input-sources handler.
pub proof fn lemma_keyboard_commands_carry_repeat(x: CosmicXkbConfig)
    ensures
        xkb_commands("keyboard"@, x).len() == 2,
        xkb_commands("keyboard"@, x).contains(
            input_command("keyboard"@, "repeat_delay"@, decimal(x.repeat_delay as nat)),
        ),
        xkb_commands("keyboard"@, x).contains(
            input_command("keyboard"@, "repeat_rate"@, decimal(x.repeat_rate as nat)),
        ),
{
    let s = xkb_commands("keyboard"@, x);
    assert(s[0] == input_command("keyboard"@, "repeat_delay"@, decimal(x.repeat_delay as nat)));
    assert(s[1] == input_command("keyboard"@, "repeat_rate"@, decimal(x.repeat_rate as nat)));
}

/// The input-sources handler sends the stored layouts, quoted, and the
/// stored variants before them when there are any; with no layout stored
/// it sends nothing.
pub proof fn lemma_input_sources_commands_carry_layouts(x: CosmicXkbConfig)
    ensures
        x.layout@.len() == 0 ==> xkb_commands("input-sources"@, x).len() == 0,
        x.layout@.len() > 0 ==> xkb_commands("input-sources"@, x).len() == 1 + stored(
            if x.variant@.len() > 0 {
                Some(x.variant@)
            } else {
                None
            },
        ),
        x.layout@.len() > 0 ==> xkb_commands("input-sources"@, x).last() == input_command(
            "keyboard"@,
            "xkb_layout"@,
            quoted(x.layout@),
        ),
        x.layout@.len() > 0 && x.variant@.len() > 0 ==> xkb_commands("input-sources"@, x)[0]
            == input_command("keyboard"@, "xkb_variant"@, quoted(x.variant@)),
{
    reveal_strlit("keyboard");
    reveal_strlit("input-sources");
    assert("input-sources"@ != "keyboard"@) by {
        assert("input-sources"@[0] != "keyboard"@[0]);
    }
}

} // verus!
