use m3u8_downloader::{
    base_url_from_master_playlist_url, byte_ranges_parse_check, chunk_url, chunks_url_for_quality, join_url,
    parse_master_playlist_data, parse_media_playlist_data, parse_url, select_stream, AppError,
    MasterPlaylistInfo, SegmentInfo, StreamQuality, VariantInfo, quality_list,
    stream_quality_from_value,
};

const MASTER: &str = "#EXTM3U
#EXT-X-STREAM-INF:BANDWIDTH=1280000,RESOLUTION=640x360
low/index.m3u8
#EXT-X-STREAM-INF:BANDWIDTH=2560000,RESOLUTION=1280x720
mid/index.m3u8
#EXT-X-STREAM-INF:BANDWIDTH=7680000,RESOLUTION=1920x1080
high/index.m3u8
";

const MEDIA: &str = "#EXTM3U
#EXT-X-VERSION:3
#EXT-X-TARGETDURATION:6
#EXT-X-MEDIA-SEQUENCE:120
#EXTINF:6.0,
seg120.ts
#EXTINF:6.0,
seg121.ts
#EXTINF:5.5,
seg122.ts
";

fn variants(uris: &[&str]) -> MasterPlaylistInfo {
    MasterPlaylistInfo {
        variants: uris
            .iter()
            .map(|u| VariantInfo { uri: u.to_string(), bandwidth: "1000".to_string(), resolution: None })
            .collect(),
    }
}

#[test]
fn url_parsing_normalizes() {
    let u = parse_url("HTTP://Example.NET").unwrap();
    assert_eq!(u.as_str(), "http://example.net/");
    assert_eq!(u.url().host_str(), Some("example.net"));
}

#[test]
fn url_parse_error() {
    assert!(matches!(
        parse_url("not a url"),
        Err(AppError::UrlError(url::ParseError::RelativeUrlWithoutBase))
    ));
    assert!(matches!(parse_url("http://"), Err(AppError::UrlError(url::ParseError::EmptyHost))));
    assert!(matches!(
        parse_url("http://host:99999/"),
        Err(AppError::UrlError(url::ParseError::InvalidPort))
    ));
}

#[test]
fn base_url_replaces_playlist_file() {
    let master = parse_url("http://host.tv/live/stream/master.m3u8").unwrap();
    let base = base_url_from_master_playlist_url(master).unwrap();
    assert_eq!(base.as_str(), "http://host.tv/live/stream/%2F");
    let root = base_url_from_master_playlist_url(parse_url("http://host.tv/p.m3u8?x=1").unwrap()).unwrap();
    assert_eq!(root.as_str(), "http://host.tv/%2F?x=1");
    let chunks = join_url(&base, "chunks.m3u8").unwrap();
    assert_eq!(chunks.as_str(), "http://host.tv/live/stream/chunks.m3u8");
}

#[test]
fn base_url_of_cannot_be_a_base_url() {
    let mail = parse_url("mailto:me@example.com").unwrap();
    assert!(matches!(base_url_from_master_playlist_url(mail), Err(AppError::EmptyUrlSegmentsError)));
}

#[test]
fn join_resolves_relative_and_absolute() {
    let base = parse_url("https://alice.com/a/b").unwrap();
    assert_eq!(join_url(&base, "c.png").unwrap().as_str(), "https://alice.com/a/c.png");
    assert_eq!(join_url(&base, "/v1/meta").unwrap().as_str(), "https://alice.com/v1/meta");
    assert_eq!(join_url(&base, "http://eve.com/b").unwrap().as_str(), "http://eve.com/b");
    assert!(matches!(
        join_url(&base, "http://[::1"),
        Err(AppError::UrlError(url::ParseError::InvalidIpv6Address))
    ));
}

#[test]
fn chunk_url_joins_segment_uri() {
    let base = parse_url("http://host.tv/live/%2F").unwrap();
    let segment = SegmentInfo { uri: "seg7.ts".to_string() };
    assert_eq!(chunk_url(&base, &segment).unwrap().as_str(), "http://host.tv/live/seg7.ts");
}

#[test]
fn master_playlist_variants_in_order() {
    let master = parse_master_playlist_data(MASTER.as_bytes()).unwrap();
    let uris: Vec<&str> = master.variants.iter().map(|v| v.uri.as_str()).collect();
    assert_eq!(uris, vec!["low/index.m3u8", "mid/index.m3u8", "high/index.m3u8"]);
    assert_eq!(master.variants[1].bandwidth, "2560000");
    assert_eq!(master.variants[1].resolution.as_deref(), Some("1280x720"));
}

#[test]
fn quality_list_names_each_index() {
    let master = parse_master_playlist_data(MASTER.as_bytes()).unwrap();
    assert_eq!(
        quality_list(&master),
        vec![
            "0: low/index.m3u8 (bandwidth 1280000, resolution 640x360)",
            "1: mid/index.m3u8 (bandwidth 2560000, resolution 1280x720)",
            "2: high/index.m3u8 (bandwidth 7680000, resolution 1920x1080)",
        ]
    );
    let bare = variants(&["a"]);
    assert_eq!(quality_list(&bare), vec!["0: a (bandwidth 1000)"]);
}

#[test]
fn quality_list_stops_at_the_largest_index() {
    let uris: Vec<String> = (0..300).map(|i| format!("v{}.m3u8", i)).collect();
    let refs: Vec<&str> = uris.iter().map(|u| u.as_str()).collect();
    let lines = quality_list(&variants(&refs));
    assert_eq!(lines.len(), 256);
    assert_eq!(lines[255], "255: v255.m3u8 (bandwidth 1000)");
    assert_eq!(stream_quality_from_value(Some("255")), Some(StreamQuality::Specific(255)));
}

#[test]
fn media_playlist_sequence_and_segments() {
    let parsed = parse_media_playlist_data(MEDIA.as_bytes()).unwrap();
    assert_eq!(parsed.info.media_sequence, 120);
    let uris: Vec<&str> = parsed.info.segments.iter().map(|s| s.uri.as_str()).collect();
    assert_eq!(uris, vec!["seg120.ts", "seg121.ts", "seg122.ts"]);
    assert_eq!(parsed.playlist.target_duration, 6.0);
}

#[test]
fn maximum_and_select_take_last_variant() {
    let v = select_stream(variants(&["a", "b", "c"]), StreamQuality::Maximum).unwrap();
    assert_eq!(v.uri, "c");
    let v = select_stream(variants(&["a", "b", "c"]), StreamQuality::Select).unwrap();
    assert_eq!(v.uri, "c");
}

#[test]
fn specific_quality_takes_its_index() {
    let v = select_stream(variants(&["a", "b", "c"]), StreamQuality::Specific(0)).unwrap();
    assert_eq!(v.uri, "a");
    let v = select_stream(variants(&["a", "b", "c"]), StreamQuality::Specific(1)).unwrap();
    assert_eq!(v.uri, "b");
}

#[test]
fn wrong_stream_index() {
    let r = select_stream(variants(&["a", "b", "c"]), StreamQuality::Specific(3));
    assert!(matches!(r, Err(AppError::WrongStreamIndex(3))));
}

#[test]
fn empty_master_playlist() {
    assert!(matches!(
        select_stream(variants(&[]), StreamQuality::Maximum),
        Err(AppError::MasterStreamIsEmpty)
    ));
    assert!(matches!(
        select_stream(variants(&[]), StreamQuality::Select),
        Err(AppError::MasterStreamIsEmpty)
    ));
}

#[test]
fn chunks_url_of_selected_variant() {
    let base = parse_url("http://host.tv/live/%2F").unwrap();
    let master = parse_master_playlist_data(MASTER.as_bytes()).unwrap();
    let url = chunks_url_for_quality(&base, master, StreamQuality::Specific(1)).unwrap();
    assert_eq!(url.as_str(), "http://host.tv/live/mid/index.m3u8");
    let master = parse_master_playlist_data(MASTER.as_bytes()).unwrap();
    assert!(matches!(
        chunks_url_for_quality(&base, master, StreamQuality::Specific(9)),
        Err(AppError::WrongStreamIndex(9))
    ));
}

#[test]
fn map_byte_range_with_offset_parses() {
    let data = "#EXTM3U\n#EXT-X-MAP:URI=\"i.mp4\",BYTERANGE=\"720@0\"\n#EXTINF:6.0,\ns1.ts\n";
    assert!(byte_ranges_parse_check(data.as_bytes()));
    let parsed = parse_media_playlist_data(data.as_bytes()).unwrap();
    assert_eq!(parsed.info.segments.len(), 1);
}

#[test]
fn byte_ranges_the_parser_cannot_take() {
    assert!(!byte_ranges_parse_check(b"#EXT-X-MAP:URI=\"i.mp4\",BYTERANGE=\"720\"\n"));
    assert!(!byte_ranges_parse_check(b"#EXT-X-MAP:URI=\"i.mp4\",BYTERANGE=720\n"));
    assert!(!byte_ranges_parse_check(b"#EXT-X-MAP:BYTERANGE=99999999999@0\n"));
    assert!(!byte_ranges_parse_check(b"#EXT-X-MAP:BYTERANGE=x\n"));
    assert!(!byte_ranges_parse_check(b"#EXT-X-MAP:BYTERANGE="));
    assert!(!byte_ranges_parse_check(b"#EXT-X-MAP:URI=\"a\"  BYTERANGE=5\n"));
    assert!(byte_ranges_parse_check(b"BYTERANGE="));
    assert!(byte_ranges_parse_check(b"#EXTINF:6.0,\nhttp://h/x?BYTERANGE=all\n"));
    assert!(byte_ranges_parse_check(b"#EXTINF:6.0,\nseg/BYTERANGE=5.ts\n"));
    assert!(byte_ranges_parse_check(b"#EXT-X-MAP:BYTERANGE=2147483647@0\n"));
    assert!(!byte_ranges_parse_check(b"#EXT-X-MAP:BYTERANGE=2147483648@0\n"));
    assert!(byte_ranges_parse_check(b"#EXT-X-BYTERANGE:720@0\nseg.ts\n"));
    assert!(byte_ranges_parse_check(b""));
}

#[test]
fn unreadable_data_is_an_empty_playlist() {
    let parsed = parse_media_playlist_data(b"\xff\xfe").unwrap();
    assert_eq!(parsed.info.media_sequence, 0);
    assert!(parsed.info.segments.is_empty());
    let master = parse_master_playlist_data(b"\xff").unwrap();
    assert!(master.variants.is_empty());
}

#[test]
fn cloned_url_keeps_its_serialization() {
    let u = parse_url("http://host.tv/a?b=1").unwrap();
    assert_eq!(u.clone().as_str(), u.as_str());
}
