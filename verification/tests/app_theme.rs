use mentci_egui::shell::{DarkLightMode, SystemColorScheme};

fn mode_of(mode: dark_light::Mode) -> DarkLightMode {
    match mode {
        dark_light::Mode::Dark => DarkLightMode::Dark,
        dark_light::Mode::Light => DarkLightMode::Light,
        dark_light::Mode::Default => DarkLightMode::Default,
    }
}

#[test]
fn portal_color_scheme_values_map_to_egui_schemes() {
    assert_eq!(
        SystemColorScheme::from_portal_value(1),
        Some(SystemColorScheme::Dark)
    );
    assert_eq!(
        SystemColorScheme::from_portal_value(2),
        Some(SystemColorScheme::Light)
    );
    assert_eq!(SystemColorScheme::from_portal_value(0), None);
}

#[test]
fn dark_light_default_does_not_force_light_before_other_sources() {
    assert_eq!(
        SystemColorScheme::from_dark_light(mode_of(dark_light::Mode::Dark)),
        Some(SystemColorScheme::Dark)
    );
    assert_eq!(
        SystemColorScheme::from_dark_light(mode_of(dark_light::Mode::Light)),
        Some(SystemColorScheme::Light)
    );
    assert_eq!(
        SystemColorScheme::from_dark_light(mode_of(dark_light::Mode::Default)),
        None
    );
}

#[test]
fn scheme_sources_are_asked_in_order() {
    assert_eq!(
        SystemColorScheme::from_sources(
            Some(SystemColorScheme::Dark),
            Some(SystemColorScheme::Light)
        ),
        SystemColorScheme::Dark
    );
    assert_eq!(
        SystemColorScheme::from_sources(None, Some(SystemColorScheme::Dark)),
        SystemColorScheme::Dark
    );
    assert_eq!(
        SystemColorScheme::from_sources(None, None),
        SystemColorScheme::Light
    );
    assert!(SystemColorScheme::Dark.is_dark());
    assert!(!SystemColorScheme::Light.is_dark());
    assert_eq!(SystemColorScheme::from_portal_value(3), None);
}
