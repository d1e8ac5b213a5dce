use window_chrome::color::Color;
use window_chrome::color::color_from_argb;
use window_chrome::color::color_from_colorref;
use window_chrome::color::color_to_colorref;
use window_chrome::color::rgb;
use window_chrome::error::Error;
use window_chrome::registry::ComponentClass;
use window_chrome::registry::ComponentRegistry;
use window_chrome::registry::RegisterOutcome;

#[test]
fn argb_unpacks_channel_by_channel() {
    let c = color_from_argb(0x88ff0000);
    assert_eq!(c, Color { a: 0x88, r: 0xff, g: 0x00, b: 0x00 });
    let c = color_from_argb(0xff646464);
    assert_eq!(c, Color { a: 0xff, r: 0x64, g: 0x64, b: 0x64 });
}

#[test]
fn colorref_packs_blue_high_red_low() {
    assert_eq!(rgb(100, 110, 120), 0x786e64);
    let c = color_from_colorref(rgb(100, 110, 120));
    assert_eq!(c, Color { a: 255, r: 100, g: 110, b: 120 });
    assert_eq!(color_to_colorref(c), 0x786e64);
}

#[test]
fn register_once_is_idempotent_per_key() {
    let mut registry = ComponentRegistry::new();
    assert_eq!(registry.register_once(7, ComponentClass::Button), RegisterOutcome::Registered);
    assert_eq!(
        registry.register_once(7, ComponentClass::Button),
        RegisterOutcome::AlreadyRegistered
    );
    // another class under the same instance is new
    assert_eq!(
        registry.register_once(7, ComponentClass::ToggleButton),
        RegisterOutcome::Registered
    );
    // the same class under another instance is new
    assert_eq!(registry.register_once(8, ComponentClass::Button), RegisterOutcome::Registered);
}

#[test]
fn duplicate_registration_reports_already_registered() {
    let mut registry = ComponentRegistry::new();
    assert_eq!(registry.set_registered(1, ComponentClass::Window), Ok(()));
    assert_eq!(
        registry.set_registered(1, ComponentClass::Window),
        Err(Error::ComponentAlreadyRegistered)
    );
    // the benign duplicate never unregisters: a third attempt agrees
    assert_eq!(
        registry.set_registered(1, ComponentClass::Window),
        Err(Error::ComponentAlreadyRegistered)
    );
    assert_eq!(registry.set_registered(1, ComponentClass::TabBar), Ok(()));
}
