use m3u8_downloader::{
    arguments_from_values, parse_u8_decimal, stream_quality_from_value, text_eq,
    verbose_level_from_value, Action, ArgumentError, StreamQuality, VerboseLevel,
};

#[test]
fn verbose_levels_map_to_their_names() {
    assert_eq!(verbose_level_from_value("0"), Some(VerboseLevel::Quiet));
    assert_eq!(verbose_level_from_value("1"), Some(VerboseLevel::Medium));
    assert_eq!(verbose_level_from_value("2"), Some(VerboseLevel::Max));
    assert_eq!(verbose_level_from_value("3"), None);
    assert_eq!(verbose_level_from_value(""), None);
    assert_eq!(verbose_level_from_value("00"), None);
}

#[test]
fn quality_names_and_indices() {
    assert_eq!(stream_quality_from_value(None), Some(StreamQuality::Maximum));
    assert_eq!(stream_quality_from_value(Some("max")), Some(StreamQuality::Maximum));
    assert_eq!(stream_quality_from_value(Some("select")), Some(StreamQuality::Select));
    assert_eq!(stream_quality_from_value(Some("0")), Some(StreamQuality::Specific(0)));
    assert_eq!(stream_quality_from_value(Some("7")), Some(StreamQuality::Specific(7)));
    assert_eq!(stream_quality_from_value(Some("MAX")), None);
    assert_eq!(stream_quality_from_value(Some("-1")), None);
}

#[test]
fn u8_reading_agrees_with_std_parse() {
    let cases = [
        "", "+", "-", "0", "00", "007", "+7", "-0", "255", "256", "1000", "12a", " 1", "1 ", "٣",
        "99999999999999999999", "+255", "++1",
    ];
    for case in cases.iter() {
        assert_eq!(parse_u8_decimal(case), case.parse::<u8>().ok(), "input {:?}", case);
    }
}

#[test]
fn text_equality_compares_characters() {
    assert!(text_eq("select", "select"));
    assert!(!text_eq("select", "selec"));
    assert!(!text_eq("max", "mix"));
    assert!(text_eq("", ""));
}

#[test]
fn list_flag_gives_list_action() {
    let args = arguments_from_values("http://a/b.m3u8".to_string(), "1", true, None, false, Some("xyz"))
        .unwrap();
    assert_eq!(args.input, "http://a/b.m3u8");
    assert_eq!(args.verbose, VerboseLevel::Medium);
    assert!(matches!(args.action, Action::List));
}

#[test]
fn download_arguments_are_carried() {
    let args = arguments_from_values(
        "http://a/b.m3u8".to_string(),
        "0",
        false,
        Some("out.ts".to_string()),
        true,
        Some("3"),
    )
    .unwrap();
    assert_eq!(args.verbose, VerboseLevel::Quiet);
    match args.action {
        Action::Download(d) => {
            assert!(d.mpv);
            assert_eq!(d.output_file, Some("out.ts".to_string()));
            assert_eq!(d.stream_quality_value, StreamQuality::Specific(3));
        }
        Action::List => panic!("expected a download"),
    }
}

#[test]
fn default_download_is_maximum_quality() {
    let args = arguments_from_values("u".to_string(), "2", false, None, false, None).unwrap();
    match args.action {
        Action::Download(d) => {
            assert!(!d.mpv);
            assert_eq!(d.output_file, None);
            assert_eq!(d.stream_quality_value, StreamQuality::Maximum);
        }
        Action::List => panic!("expected a download"),
    }
}

#[test]
fn argument_errors() {
    assert_eq!(
        arguments_from_values("u".to_string(), "9", false, None, false, None).unwrap_err(),
        ArgumentError::InvalidVerboseLevel
    );
    assert_eq!(
        arguments_from_values("u".to_string(), "0", false, None, false, Some("best")).unwrap_err(),
        ArgumentError::InvalidQuality
    );
    assert_eq!(
        arguments_from_values("u".to_string(), "0", false, None, false, Some("256")).unwrap_err(),
        ArgumentError::InvalidQuality
    );
}
