use m3u8_downloader::{
    decimal_text,
    default_file_name, level_filter, line_prefix, logged_module, mpv_launch, output_file_path,
    read_outcome, receiver_kinds, LevelFilterKind, LogLevel, PrefixColor, ReadOutcome,
    ReceiverKind, VerboseLevel,
};

#[test]
fn log_prefixes() {
    assert!(line_prefix(LogLevel::Info).is_none());
    let p = line_prefix(LogLevel::Debug).unwrap();
    assert_eq!((p.label, p.color), ("DEBUG", PrefixColor::Green));
    let p = line_prefix(LogLevel::Trace).unwrap();
    assert_eq!((p.label, p.color), ("TRACE", PrefixColor::Blue));
    let p = line_prefix(LogLevel::Warn).unwrap();
    assert_eq!((p.label, p.color), ("DEBUG", PrefixColor::Yellow));
    let p = line_prefix(LogLevel::Error).unwrap();
    assert_eq!((p.label, p.color), ("ERROR", PrefixColor::Red));
}

#[test]
fn log_filters_follow_verbosity() {
    assert_eq!(level_filter(VerboseLevel::Quiet), LevelFilterKind::Info);
    assert_eq!(level_filter(VerboseLevel::Medium), LevelFilterKind::Debug);
    assert_eq!(level_filter(VerboseLevel::Max), LevelFilterKind::Trace);
    assert_eq!(logged_module(), "m3u8_downloader");
}

#[test]
fn quiet_mpv_arguments() {
    let launch = mpv_launch(VerboseLevel::Medium);
    assert!(!launch.capture_output);
    assert_eq!(
        launch.args,
        vec![
            "--no-osd-bar",
            "--cache=yes",
            "--stream-buffer-size=128MiB",
            "--demuxer-max-bytes=128MiB",
            "--demuxer-max-back-bytes=128MiB",
            "--quiet",
            "--really-quiet",
            "-",
        ]
    );
    assert_eq!(mpv_launch(VerboseLevel::Quiet).args, launch.args);
}

#[test]
fn verbose_mpv_arguments() {
    let launch = mpv_launch(VerboseLevel::Max);
    assert!(launch.capture_output);
    assert_eq!(launch.args.len(), 6);
    assert_eq!(launch.args[5], "-");
    assert!(!launch.args.contains(&"--quiet"));
}

#[test]
fn read_outcomes() {
    assert_eq!(read_outcome(b"", b'\n'), ReadOutcome::Finished);
    assert_eq!(read_outcome(b"\n", b'\n'), ReadOutcome::EmptyLine);
    assert_eq!(read_outcome(b"\r", b'\n'), ReadOutcome::Line);
    assert_eq!(read_outcome(b"AV: 00:01\n", b'\n'), ReadOutcome::Line);
}

#[test]
fn output_paths() {
    assert_eq!(default_file_name("2021-01-02 03:04:05"), "2021-01-02 03:04:05.ts");
    assert_eq!(output_file_path(Some("video.ts".to_string())), "video.ts");
    let generated = output_file_path(None);
    assert!(generated.ends_with(".ts"));
    assert_eq!(generated.len(), "2021-01-02 03:04:05.ts".len());
    let shape: Vec<bool> = generated.chars().map(|c| c.is_ascii_digit()).collect();
    for (k, c) in generated.chars().enumerate().take(19) {
        match k {
            4 | 7 => assert_eq!(c, '-'),
            10 => assert_eq!(c, ' '),
            13 | 16 => assert_eq!(c, ':'),
            _ => assert!(shape[k], "digit expected at {} in {:?}", k, generated),
        }
    }
}

#[test]
fn receivers_in_order() {
    assert_eq!(receiver_kinds(true), vec![ReceiverKind::Mpv, ReceiverKind::File]);
    assert_eq!(receiver_kinds(false), vec![ReceiverKind::File]);
}

#[test]
fn decimal_texts() {
    assert_eq!(decimal_text(0), "0");
    assert_eq!(decimal_text(7), "7");
    assert_eq!(decimal_text(10), "10");
    assert_eq!(decimal_text(255), "255");
    assert_eq!(decimal_text(4294967295), "4294967295");
}
