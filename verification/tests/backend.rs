use regolith_inputd::retry::{create_handlers_with_retry, Attempts};
use regolith_inputd::BackendKind;

#[test]
fn selects_cosmic_when_desktop_contains_cosmic() {
    assert_eq!(
        BackendKind::from_desktop_value("Regolith-Wayland:COSMIC:sway"),
        BackendKind::Cosmic
    );
}

#[test]
fn selects_gnome_for_non_cosmic_desktop() {
    assert_eq!(
        BackendKind::from_desktop_value("Regolith-Wayland:GNOME:sway"),
        BackendKind::Gnome
    );
}

#[test]
fn matches_cosmic_case_insensitively() {
    assert_eq!(
        BackendKind::from_desktop_value("regolith-wayland:cosmic:sway"),
        BackendKind::Cosmic
    );
}

#[test]
fn defaults_to_gnome_when_desktop_is_unset_or_unrecognized() {
    assert_eq!(BackendKind::from_desktop_value(""), BackendKind::Gnome);
    assert_eq!(
        BackendKind::from_desktop_value("Regolith-Wayland:sway"),
        BackendKind::Gnome
    );
}

#[test]
fn does_not_select_cosmic_for_partial_desktop_name() {
    assert_eq!(
        BackendKind::from_desktop_value("Regolith-Wayland:cosmic-like:sway"),
        BackendKind::Gnome
    );
}

#[test]
fn handler_startup_retries_the_constructor_as_one_operation() {
    let mut attempts = 0;
    let result = create_handlers_with_retry(
        &mut Attempts::new(
            || {
                attempts += 1;
                if attempts == 2 {
                    Ok(())
                } else {
                    Err("Sway IPC unavailable")
                }
            },
            |_| {},
        ),
        2,
    );

    assert_eq!(result, Ok(()));
    assert_eq!(attempts, 2);
}

#[test]
fn handler_startup_returns_constructor_error_after_budget() {
    let mut attempts = 0;
    let result = create_handlers_with_retry(
        &mut Attempts::new(
            || {
                attempts += 1;
                Err::<(), _>("Sway IPC unavailable")
            },
            |_| {},
        ),
        2,
    );

    assert_eq!(result, Err("Sway IPC unavailable"));
    assert_eq!(attempts, 3);
}

#[test]
fn unset_desktop_selects_gnome() {
    assert_eq!(BackendKind::from_desktop_setting(None), BackendKind::Gnome);
    assert_eq!(
        BackendKind::from_desktop_setting(Some("COSMIC")),
        BackendKind::Cosmic
    );
}

#[test]
fn cosmic_as_first_last_or_only_entry() {
    assert_eq!(BackendKind::from_desktop_value("cosmic"), BackendKind::Cosmic);
    assert_eq!(BackendKind::from_desktop_value("CoSmIc:sway"), BackendKind::Cosmic);
    assert_eq!(BackendKind::from_desktop_value("sway:Cosmic"), BackendKind::Cosmic);
    assert_eq!(BackendKind::from_desktop_value("::cosmic::"), BackendKind::Cosmic);
    assert_eq!(BackendKind::from_desktop_value("cosmi:c"), BackendKind::Gnome);
    assert_eq!(BackendKind::from_desktop_value("xcosmic"), BackendKind::Gnome);
    assert_eq!(BackendKind::from_desktop_value(":"), BackendKind::Gnome);
}

#[test]
fn case_of_the_whole_value_does_not_change_the_backend() {
    for value in ["Regolith-Wayland:COSMIC:sway", "GNOME:sway", "cosmic-like"] {
        assert_eq!(
            BackendKind::from_desktop_value(value),
            BackendKind::from_desktop_value(&value.to_ascii_lowercase())
        );
        assert_eq!(
            BackendKind::from_desktop_value(value),
            BackendKind::from_desktop_value(&value.to_ascii_uppercase())
        );
    }
}
