use carambolage::options::get_options;
use carambolage::options::match_options;
use carambolage::settings::parse_u32;
use carambolage::settings::settings_from_options;
use carambolage::settings::GameSettings;
use carambolage::settings::SettingsError;

#[test]
fn arguments() {
    let args: Vec<String> = vec![
        String::from("./carambolage"),
        String::from("-f"),
        String::from("-w"),
        String::from("1920"),
        String::from("-h"),
        String::from("1080"),
        String::from("-l"),
        String::from("60"),
        String::from("-m"),
        String::from("1"),
    ];
    let opts = get_options();
    let matches = match opts.parse(&args[1..].to_vec()) {
        Ok(m) => m,
        Err(f) => panic!("{:?}", f),
    };

    let settings = match_options(&matches).unwrap();

    assert_eq!(settings.is_fullscreen, true);
    assert_eq!(settings.width, 1920);
    assert_eq!(settings.height, 1080);
    assert_eq!(settings.fps, 60);
    assert_eq!(settings.map, 1);
}

#[test]
fn default_settings() {
    let settings: GameSettings = Default::default();
    assert_eq!(settings.is_fullscreen, false);
    assert_eq!(settings.width, 640);
    assert_eq!(settings.height, 480);
    assert_eq!(settings.map, 1);
    assert_eq!(settings.fps, 60);
}

#[test]
fn parse_u32_values() {
    assert_eq!(parse_u32("1920"), Some(1920));
    assert_eq!(parse_u32("0"), Some(0));
    assert_eq!(parse_u32("4294967295"), Some(u32::MAX));
    assert_eq!(parse_u32("4294967296"), None);
    assert_eq!(parse_u32(""), None);
    assert_eq!(parse_u32("12a"), None);
    assert_eq!(parse_u32("-3"), None);
    // One leading plus sign is accepted, as str::parse::<u32> accepts.
    assert_eq!(parse_u32("+1920"), Some(1920));
    assert_eq!(parse_u32("+0"), Some(0));
    assert_eq!(parse_u32("+"), None);
    assert_eq!(parse_u32("++1"), None);
}

#[test]
fn absent_options_keep_defaults() {
    let settings = settings_from_options(false, None, None, None, None).unwrap();
    assert_eq!(settings, GameSettings::default());
}

#[test]
fn bad_width_is_reported() {
    let r = settings_from_options(false, Some(String::from("x")), None, None, None);
    assert_eq!(r, Err(SettingsError::BadWidth));
}

#[test]
fn bad_height_is_reported() {
    let r = settings_from_options(false, None, Some(String::from("9z")), None, None);
    assert_eq!(r, Err(SettingsError::BadHeight));
}

#[test]
fn bad_map_is_reported() {
    let r = settings_from_options(false, None, None, Some(String::from("")), None);
    assert_eq!(r, Err(SettingsError::BadMap));
}

#[test]
fn bad_fps_is_reported() {
    let r = settings_from_options(false, None, None, None, Some(String::from("6_0")));
    assert_eq!(r, Err(SettingsError::BadFps));
}

#[test]
fn unknown_flag_is_rejected() {
    let args: Vec<String> = vec![String::from("--frobnicate")];
    let opts = get_options();
    assert!(opts.parse(&args).is_err());
}
