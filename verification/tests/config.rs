use face_detection::config::{
    get_capture_device, get_capture_height, get_capture_width, resolve_setting, CaptureConfig,
    ConfigError, Overrides, Setting, DEFAULT_CAPTURE_DEVICE, DEFAULT_CAPTURE_HEIGHT,
    DEFAULT_CAPTURE_WIDTH,
};

fn text(value: &str) -> Option<String> {
    Some(String::from(value))
}

#[test]
fn defaults_are_those_of_the_tool() {
    assert_eq!(DEFAULT_CAPTURE_DEVICE, 0);
    assert_eq!(DEFAULT_CAPTURE_WIDTH, 800);
    assert_eq!(DEFAULT_CAPTURE_HEIGHT, 600);
    assert_eq!(Setting::Device.fallback(), 0);
    assert_eq!(Setting::Width.fallback(), 800);
    assert_eq!(Setting::Height.fallback(), 600);
}

#[test]
fn settings_are_overridden_by_their_own_variables() {
    assert_eq!(Setting::Device.variable(), "CAPTURE_DEVICE");
    assert_eq!(Setting::Width.variable(), "CAPTURE_WIDTH");
    assert_eq!(Setting::Height.variable(), "CAPTURE_HEIGHT");
}

#[test]
fn width_without_override_is_the_default() {
    assert_eq!(get_capture_width(None), Ok(800));
}

#[test]
fn height_without_override_is_the_default() {
    assert_eq!(get_capture_height(None), Ok(600));
}

#[test]
fn width_and_height_follow_their_overrides() {
    assert_eq!(get_capture_width(text("1280")), Ok(1280));
    assert_eq!(get_capture_height(text("720")), Ok(720));
    assert_eq!(get_capture_width(text("+640")), Ok(640));
    assert_eq!(get_capture_height(text("-1")), Ok(-1));
    assert_eq!(get_capture_width(text("0")), Ok(0));
}

#[test]
fn width_refuses_text_that_is_no_number() {
    assert_eq!(
        get_capture_width(text("wide")),
        Err(ConfigError { setting: Setting::Width, raw: String::from("wide") })
    );
    assert_eq!(
        get_capture_width(text("")),
        Err(ConfigError { setting: Setting::Width, raw: String::new() })
    );
    assert_eq!(
        get_capture_width(text(" 800")),
        Err(ConfigError { setting: Setting::Width, raw: String::from(" 800") })
    );
}

#[test]
fn height_refuses_text_that_is_no_number() {
    assert_eq!(
        get_capture_height(text("6e2")),
        Err(ConfigError { setting: Setting::Height, raw: String::from("6e2") })
    );
    assert_eq!(
        get_capture_height(text("99999999999")),
        Err(ConfigError { setting: Setting::Height, raw: String::from("99999999999") })
    );
}

#[test]
fn device_without_override_is_the_default_device() {
    assert_eq!(
        get_capture_device(None, 800, 600),
        Ok(CaptureConfig { device: 0, width: 800, height: 600 })
    );
    assert_eq!(
        get_capture_device(None, 320, 240),
        Ok(CaptureConfig { device: 0, width: 320, height: 240 })
    );
}

#[test]
fn device_follows_its_override() {
    assert_eq!(
        get_capture_device(text("2"), 800, 600),
        Ok(CaptureConfig { device: 2, width: 800, height: 600 })
    );
}

#[test]
fn device_refuses_text_that_is_no_number() {
    assert_eq!(
        get_capture_device(text("front"), 800, 600),
        Err(ConfigError { setting: Setting::Device, raw: String::from("front") })
    );
}

#[test]
fn complaints_name_the_variable_and_show_the_text() {
    let width = ConfigError { setting: Setting::Width, raw: String::from("wide") };
    assert_eq!(width.message(), "Invalid capture width: CAPTURE_WIDTH=wide");
    let height = ConfigError { setting: Setting::Height, raw: String::from("6e2") };
    assert_eq!(height.message(), "Invalid capture height: CAPTURE_HEIGHT=6e2");
    let device = ConfigError { setting: Setting::Device, raw: String::from("front") };
    assert_eq!(device.message(), "Invalid camera selection: CAPTURE_DEVICE=front");
    let empty = ConfigError { setting: Setting::Width, raw: String::new() };
    assert_eq!(empty.message(), "Invalid capture width: CAPTURE_WIDTH=");
}

#[test]
fn resolve_setting_serves_every_setting() {
    assert_eq!(resolve_setting(Setting::Device, None), Ok(0));
    assert_eq!(resolve_setting(Setting::Device, text("3")), Ok(3));
    assert_eq!(resolve_setting(Setting::Width, text("1024")), Ok(1024));
    assert_eq!(
        resolve_setting(Setting::Height, text("tall")),
        Err(ConfigError { setting: Setting::Height, raw: String::from("tall") })
    );
}

#[test]
fn all_settings_resolve_together() {
    let none = Overrides { device: None, width: None, height: None };
    assert_eq!(
        CaptureConfig::resolve(none),
        Ok(CaptureConfig { device: 0, width: 800, height: 600 })
    );
    let all = Overrides { device: text("1"), width: text("640"), height: text("480") };
    assert_eq!(
        CaptureConfig::resolve(all),
        Ok(CaptureConfig { device: 1, width: 640, height: 480 })
    );
    let some = Overrides { device: None, width: None, height: text("480") };
    assert_eq!(
        CaptureConfig::resolve(some),
        Ok(CaptureConfig { device: 0, width: 800, height: 480 })
    );
}

#[test]
fn the_first_refused_override_is_complained_about() {
    let all_bad = Overrides { device: text("d"), width: text("w"), height: text("h") };
    assert_eq!(
        CaptureConfig::resolve(all_bad),
        Err(ConfigError { setting: Setting::Width, raw: String::from("w") })
    );
    let two_bad = Overrides { device: text("d"), width: text("640"), height: text("h") };
    assert_eq!(
        CaptureConfig::resolve(two_bad),
        Err(ConfigError { setting: Setting::Height, raw: String::from("h") })
    );
    let one_bad = Overrides { device: text("d"), width: None, height: None };
    assert_eq!(
        CaptureConfig::resolve(one_bad),
        Err(ConfigError { setting: Setting::Device, raw: String::from("d") })
    );
}
