use print_guardian::config::constants::{
    alert_probability_threshold, ALERT_PROBABILITY_THRESHOLD_BITS, DEFAULT_THRESHOLD_BITS,
    MAX_RETRIES, MODEL_WEIGHTS_URL, PRINT_FAILURE_THRESHOLD, RETRY_DELAY_SECONDS,
};
use print_guardian::config::{
    is_space_char, parse_image_urls, parse_source_index, trim, ScoreSetting, Settings,
};
use print_guardian::detector::Score;
use print_guardian::error::ConfigError;
use print_guardian::Config;

fn setting(text: &str) -> Option<ScoreSetting> {
    Some(ScoreSetting {
        text: text.to_string(),
        value: text.parse::<f32>().ok().map(|v| Score::from_bits(v.to_bits())),
    })
}

fn complete() -> Settings {
    Settings {
        label_file: None,
        model_cfg: None,
        weights_file: None,
        output_dir: None,
        objectness_threshold: None,
        class_prob_threshold: None,
        image_url: Some("http://a/1.jpg, http://b/2.jpg".to_string()),
        discord_webhook: Some("https://hook".to_string()),
        moonraker_api_url: Some("http://printer:7125".to_string()),
        flip_image: None,
        display_camera_index: None,
    }
}

fn invalid(field: &str, value: &str, reason: &str) -> Result<Config, ConfigError> {
    Err(ConfigError::InvalidValue {
        field: field.to_string(),
        value: value.to_string(),
        reason: reason.to_string(),
    })
}

fn missing(name: &str) -> Result<Config, ConfigError> {
    Err(ConfigError::MissingEnvVar { var_name: name.to_string() })
}

#[test]
fn constants_have_their_values() {
    assert_eq!(MAX_RETRIES, 15);
    assert_eq!(RETRY_DELAY_SECONDS, 15);
    assert_eq!(PRINT_FAILURE_THRESHOLD, 3);
    assert_eq!(ALERT_PROBABILITY_THRESHOLD_BITS, 0.5f32.to_bits());
    assert_eq!(alert_probability_threshold(), Score::from_bits(0.5f32.to_bits()));
    assert_eq!(DEFAULT_THRESHOLD_BITS, 0.75f32.to_bits());
    assert_eq!(
        MODEL_WEIGHTS_URL,
        "https://tsd-pub-static.s3.amazonaws.com/ml-models/model-weights-8be06cde4e.darknet"
    );
}

#[test]
fn white_space_is_what_unicode_says() {
    for code in 0..0x3100u32 {
        if let Some(c) = char::from_u32(code) {
            assert_eq!(is_space_char(c), c.is_whitespace(), "U+{:04X}", code);
        }
    }
    for c in ['\u{FEFF}', '\u{1F6A8}', '\u{10FFFF}'] {
        assert_eq!(is_space_char(c), c.is_whitespace());
    }
}

#[test]
fn trimming_takes_white_space_off_both_ends() {
    for text in ["", " ", "a", " a", "a ", "  a b  ", "\t\n x \r\n", "\u{3000}é \u{A0}", "   ", "a\u{2003}"] {
        assert_eq!(trim(text), text.trim(), "{:?}", text);
    }
}

#[test]
fn source_lists_are_split_trimmed_and_filtered() {
    for text in [
        "http://a/1.jpg",
        "http://a/1.jpg,http://b/2.jpg",
        " http://a/1.jpg , http://b/2.jpg ,",
        ",,",
        "",
        "  ",
        "a, ,b,\t,c",
    ] {
        let expected: Vec<String> = text
            .split(',')
            .map(|url| url.trim().to_string())
            .filter(|url| !url.is_empty())
            .collect();
        assert_eq!(parse_image_urls(text), expected, "{:?}", text);
    }
}

#[test]
fn source_indices_are_read_and_checked() {
    for count in [0usize, 1, 3, 11, usize::MAX] {
        for text in [
            "", "0", "1", "2", "3", "10", "+2", "+", "-1", "02", "0000", " 1", "1 ", "x", "1x",
            "18446744073709551615", "18446744073709551616", "99999999999999999999999999", "++1",
            "١",
        ] {
            let expected = text.parse::<usize>().ok().filter(|&i| i < count);
            assert_eq!(parse_source_index(text, count), expected, "{:?} of {}", text, count);
        }
    }
}

#[test]
fn complete_settings_give_a_configuration_with_defaults() {
    let config = Config::load(&complete()).unwrap();
    assert_eq!(
        config,
        Config {
            label_file: "./labels.txt".to_string(),
            model_cfg: "./model.cfg".to_string(),
            weights: "./model/model-weights.darknet".to_string(),
            output_dir: "./output".to_string(),
            objectness_threshold: Score::from_bits(0.75f32.to_bits()),
            class_prob_threshold: Score::from_bits(0.75f32.to_bits()),
            image_urls: vec!["http://a/1.jpg".to_string(), "http://b/2.jpg".to_string()],
            discord_webhook: "https://hook".to_string(),
            moonraker_api_url: "http://printer:7125".to_string(),
            flip_image: false,
            display_camera_index: Some(0),
        }
    );
}

#[test]
fn settings_override_the_defaults() {
    let mut settings = complete();
    settings.label_file = Some("l".to_string());
    settings.model_cfg = Some("m".to_string());
    settings.weights_file = Some("w".to_string());
    settings.output_dir = Some("o".to_string());
    settings.objectness_threshold = setting("0.5");
    settings.class_prob_threshold = setting("0.25");
    settings.flip_image = Some("true".to_string());
    settings.display_camera_index = Some("1".to_string());
    let config = Config::load(&settings).unwrap();
    assert_eq!(config.label_file, "l");
    assert_eq!(config.model_cfg, "m");
    assert_eq!(config.weights, "w");
    assert_eq!(config.output_dir, "o");
    assert_eq!(config.objectness_threshold, Score::from_bits(0.5f32.to_bits()));
    assert_eq!(config.class_prob_threshold, Score::from_bits(0.25f32.to_bits()));
    assert!(config.flip_image);
    assert_eq!(config.display_camera_index, Some(1));

    settings.display_camera_index = Some("2".to_string());
    assert_eq!(Config::load(&settings).unwrap().display_camera_index, None);
    settings.display_camera_index = Some("first".to_string());
    assert_eq!(Config::load(&settings).unwrap().display_camera_index, None);
    settings.flip_image = Some("false".to_string());
    assert!(!Config::load(&settings).unwrap().flip_image);
}

#[test]
fn faults_are_reported_in_order() {
    let mut settings = complete();
    settings.objectness_threshold = setting("high");
    settings.class_prob_threshold = setting("low");
    settings.image_url = None;
    settings.discord_webhook = None;
    settings.moonraker_api_url = None;
    settings.flip_image = Some("yes".to_string());
    assert_eq!(Config::load(&settings), invalid("OBJECTNESS_THRESHOLD", "high", "not a number"));
    settings.objectness_threshold = None;
    assert_eq!(Config::load(&settings), invalid("CLASS_PROB_THRESHOLD", "low", "not a number"));
    settings.class_prob_threshold = None;
    assert_eq!(Config::load(&settings), missing("IMAGE_URL"));
    settings.image_url = Some(" , ".to_string());
    assert_eq!(
        Config::load(&settings),
        invalid("IMAGE_URL", " , ", "IMAGE_URL must contain at least one valid URL")
    );
    settings.image_url = Some("http://a".to_string());
    assert_eq!(Config::load(&settings), missing("DISCORD_WEBHOOK"));
    settings.discord_webhook = Some("h".to_string());
    assert_eq!(Config::load(&settings), missing("MOONRAKER_API_URL"));
    settings.moonraker_api_url = Some("p".to_string());
    assert_eq!(Config::load(&settings), invalid("FLIP_IMAGE", "yes", "must be 'true' or 'false'"));
    settings.flip_image = Some("True".to_string());
    assert!(Config::load(&settings).is_err());
    settings.flip_image = None;
    assert!(Config::load(&settings).is_ok());
}
