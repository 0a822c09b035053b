use vstd::prelude::*;

use crate::arguments::StreamQuality;
use crate::byte_range_guard::byte_ranges_parse;
use crate::decimal::{decimal_text, spec_decimal_text};
use crate::error::{spec_nom_failure, spec_url_error_kind, AppError, NomFailure, UrlParseError};
use crate::urls::{join_url, spec_url_join, WebUrl};

verus! {

/// `m3u8_rs::playlist::MediaPlaylist`: a parsed media playlist, kept for the
/// parts the logic does not read (such as the target duration).
#[verifier::external_type_specification]
#[verifier::external_body]
pub struct ExMediaPlaylist(m3u8_rs::playlist::MediaPlaylist);

/// A media segment of a media playlist: the URI of its data.
pub struct SegmentInfo {
    pub uri: String,
}

impl View for SegmentInfo {
    type V = Seq<char>;

    open spec fn view(&self) -> Seq<char> {
        self.uri@
    }
}

/// What the downloader reads of a media playlist.
pub struct MediaPlaylistInfo {
    /// Sequence number of the first segment (`#EXT-X-MEDIA-SEQUENCE`).
    pub media_sequence: i32,
    /// The segments, in playlist order.
    pub segments: Vec<SegmentInfo>,
}

/// Mathematical model of a media playlist: its first sequence number and the
/// URIs of its segments.
pub struct MediaPlaylistView {
    pub media_sequence: int,
    pub segment_uris: Seq<Seq<char>>,
}

pub open spec fn segment_uris(segments: Seq<SegmentInfo>) -> Seq<Seq<char>> {
    segments.map_values(|s: SegmentInfo| s@)
}

impl View for MediaPlaylistInfo {
    type V = MediaPlaylistView;

    open spec fn view(&self) -> MediaPlaylistView {
        MediaPlaylistView {
            media_sequence: self.media_sequence as int,
            segment_uris: segment_uris(self.segments@),
        }
    }
}

/// A parsed media playlist: what the downloader reads, and the whole playlist.
pub struct ParsedMediaPlaylist {
    pub info: MediaPlaylistInfo,
    pub playlist: m3u8_rs::playlist::MediaPlaylist,
}

/// A variant stream of a master playlist: the URI of its media playlist, its
/// bandwidth and, when given, its resolution (attribute texts as written).
pub struct VariantInfo {
    pub uri: String,
    pub bandwidth: String,
    pub resolution: Option<String>,
}

/// Mathematical model of a variant stream.
pub struct VariantView {
    pub uri: Seq<char>,
    pub bandwidth: Seq<char>,
    pub resolution: Option<Seq<char>>,
}

impl View for VariantInfo {
    type V = VariantView;

    open spec fn view(&self) -> VariantView {
        VariantView {
            uri: self.uri@,
            bandwidth: self.bandwidth@,
            resolution: match self.resolution {
                Some(r) => Some(r@),
                None => None,
            },
        }
    }
}

/// What the downloader reads of a master playlist: its variant streams, in order.
pub struct MasterPlaylistInfo {
    pub variants: Vec<VariantInfo>,
}

impl View for MasterPlaylistInfo {
    type V = Seq<VariantView>;

    open spec fn view(&self) -> Seq<VariantView> {
        self.variants@.map_values(|v: VariantInfo| v@)
    }
}

/// Model of what `m3u8_rs::parse_media_playlist` gives for `data`: the media
/// sequence and the segment URIs it reads, or its nom failure.
pub uninterp spec fn spec_parse_media_playlist(data: Seq<u8>) -> Result<MediaPlaylistView, NomFailure>;

/// Model of what `m3u8_rs::parse_master_playlist` gives for `data`: the URI,
/// bandwidth and resolution of each variant stream it reads, or its nom failure.
pub uninterp spec fn spec_parse_master_playlist(data: Seq<u8>) -> Result<Seq<VariantView>, NomFailure>;

/// Calls `m3u8_rs::parse_media_playlist` and keeps the playlist it returns
/// (the unparsed rest of the input is dropped; the input part of the error is
/// dropped). Claims that the result is the playlist (its media sequence and
/// segment URIs), or the failure, that `spec_parse_media_playlist` names.
/// The parser panics on some `BYTERANGE` attributes of `#EXT-X-MAP` tags; the
/// data is required to hold none (`byte_ranges_parse`).
#[verifier::external_body]
fn m3u8_parse_media_playlist(data: &[u8]) -> (res: Result<
    ParsedMediaPlaylist,
    nom::Err<nom::error::ErrorKind>,
>)
    requires
        byte_ranges_parse(data@),
    ensures
        match res {
            Ok(p) => spec_parse_media_playlist(data@) == Ok::<MediaPlaylistView, NomFailure>(p.info@),
            Err(e) => spec_parse_media_playlist(data@) == Err::<MediaPlaylistView, NomFailure>(
                spec_nom_failure(e),
            ),
        },
{
    match m3u8_rs::parse_media_playlist(data) {
        Ok((_, playlist)) => {
            let segments = playlist.segments.iter().map(|s| SegmentInfo { uri: s.uri.clone() });
            let info = MediaPlaylistInfo {
                media_sequence: playlist.media_sequence,
                segments: segments.collect(),
            };
            Ok(ParsedMediaPlaylist { info, playlist })
        },
        Err(nom::Err::Error(e)) => Err(nom::Err::Error(e.1)),
        Err(nom::Err::Failure(e)) => Err(nom::Err::Failure(e.1)),
        Err(nom::Err::Incomplete(n)) => Err(nom::Err::Incomplete(n)),
    }
}

/// Calls `m3u8_rs::parse_master_playlist` (the unparsed rest of the input is
/// dropped; the input part of the error is dropped). Claims that the result is
/// the playlist (its variants' URIs, bandwidths and resolutions), or the
/// failure, that `spec_parse_master_playlist` names.
#[verifier::external_body]
fn m3u8_parse_master_playlist(data: &[u8]) -> (res: Result<
    MasterPlaylistInfo,
    nom::Err<nom::error::ErrorKind>,
>)
    ensures
        match res {
            Ok(p) => spec_parse_master_playlist(data@) == Ok::<Seq<VariantView>, NomFailure>(p@),
            Err(e) => spec_parse_master_playlist(data@) == Err::<Seq<VariantView>, NomFailure>(
                spec_nom_failure(e),
            ),
        },
{
    match m3u8_rs::parse_master_playlist(data) {
        Ok((_, playlist)) => {
            let variants = playlist.variants.into_iter().map(
                |v| VariantInfo { uri: v.uri, bandwidth: v.bandwidth, resolution: v.resolution },
            );
            Ok(MasterPlaylistInfo { variants: variants.collect() })
        },
        Err(nom::Err::Error(e)) => Err(nom::Err::Error(e.1)),
        Err(nom::Err::Failure(e)) => Err(nom::Err::Failure(e.1)),
        Err(nom::Err::Incomplete(n)) => Err(nom::Err::Incomplete(n)),
    }
}

/// Parses the data of a media playlist.
/// The data must hold no `BYTERANGE` attribute on which the parser panics
/// (`byte_ranges_parse_check` tells).
pub fn parse_media_playlist_data(data: &[u8]) -> (res: Result<ParsedMediaPlaylist, AppError>)
    requires
        byte_ranges_parse(data@),
    ensures
        match res {
            Ok(p) => spec_parse_media_playlist(data@) == Ok::<MediaPlaylistView, NomFailure>(p.info@),
            Err(AppError::M3U8ParseError(e)) => spec_parse_media_playlist(data@) == Err::<
                MediaPlaylistView,
                NomFailure,
            >(spec_nom_failure(e)),
            Err(_) => false,
        },
{
    match m3u8_parse_media_playlist(data) {
        Ok(p) => Ok(p),
        Err(e) => Err(AppError::M3U8ParseError(e)),
    }
}

/// Parses the data of a master playlist.
pub fn parse_master_playlist_data(data: &[u8]) -> (res: Result<MasterPlaylistInfo, AppError>)
    ensures
        match res {
            Ok(p) => spec_parse_master_playlist(data@) == Ok::<Seq<VariantView>, NomFailure>(p@),
            Err(AppError::M3U8ParseError(e)) => spec_parse_master_playlist(data@) == Err::<
                Seq<VariantView>,
                NomFailure,
            >(spec_nom_failure(e)),
            Err(_) => false,
        },
{
    match m3u8_parse_master_playlist(data) {
        Ok(p) => Ok(p),
        Err(e) => Err(AppError::M3U8ParseError(e)),
    }
}

/// Index of the variant that `quality` selects among `count` variants, if any.
/// The maximum quality (and, for now, the interactive selection) is the last
/// variant; a specific quality is its index.
pub open spec fn spec_selected_index(count: int, quality: StreamQuality) -> Option<int> {
    match quality {
        StreamQuality::Specific(index) => if index < count {
            Some(index as int)
        } else {
            None
        },
        _ => if count > 0 {
            Some(count - 1)
        } else {
            None
        },
    }
}

/// Picks the variant stream that `quality_type` asks for.
pub fn select_stream(playlist: MasterPlaylistInfo, quality_type: StreamQuality) -> (res: Result<
    VariantInfo,
    AppError,
>)
    ensures
        res is Ok <==> spec_selected_index(playlist@.len() as int, quality_type) is Some,
        res matches Ok(v) ==> v@ == playlist@[spec_selected_index(
            playlist@.len() as int,
            quality_type,
        ).unwrap()],
        res matches Err(e) ==> match quality_type {
            StreamQuality::Specific(index) => e matches AppError::WrongStreamIndex(i) && i == index,
            _ => e is MasterStreamIsEmpty,
        },
        quality_type matches StreamQuality::Specific(index) ==> (res is Ok <==> index
            < playlist@.len()),
        quality_type matches StreamQuality::Specific(index) ==> (res matches Ok(v) ==> v@
            == playlist@[index as int]),
        !(quality_type is Specific) ==> (res is Ok <==> playlist@.len() > 0),
        !(quality_type is Specific) ==> (res matches Ok(v) ==> v@ == playlist@.last()),
{
    let mut variants = playlist.variants;
    let ghost views = playlist@;
    match quality_type {
        StreamQuality::Specific(index) => {
            if (index as usize) < variants.len() {
                let v = variants.swap_remove(index as usize);
                Ok(v)
            } else {
                Err(AppError::WrongStreamIndex(index))
            }
        },
        _ => {
            match variants.pop() {
                Some(v) => {
                    assert(v@ == views[views.len() - 1]);
                    Ok(v)
                },
                None => Err(AppError::MasterStreamIsEmpty),
            }
        },
    }
}

/// Which variant each quality selects among `count` variants: an index is
/// accepted exactly when it is below `count` and then selects that variant;
/// the maximum and the select quality fail only without variants and
/// otherwise select the last one.
pub proof fn lemma_quality_selection(count: nat, index: u8)
    ensures
        (spec_selected_index(count as int, StreamQuality::Specific(index)) is Some) == (index
            < count),
        index < count ==> spec_selected_index(count as int, StreamQuality::Specific(index))
            == Some(index as int),
        count > 0 ==> spec_selected_index(count as int, StreamQuality::Maximum) == Some(
            count - 1,
        ),
        count > 0 ==> spec_selected_index(count as int, StreamQuality::Select) == Some(count - 1),
        count == 0 ==> spec_selected_index(count as int, StreamQuality::Maximum) is None,
        count == 0 ==> spec_selected_index(count as int, StreamQuality::Select) is None,
{
}

/// URL of the media playlist of the variant that `quality` selects, resolved
/// against `base_url`.
pub fn chunks_url_for_quality(
    base_url: &WebUrl,
    playlist: MasterPlaylistInfo,
    quality: StreamQuality,
) -> (res: Result<WebUrl, AppError>)
    ensures
        res is Ok <==> ({
            &&& spec_selected_index(playlist@.len() as int, quality) is Some
            &&& spec_url_join(
                base_url@,
                playlist@[spec_selected_index(playlist@.len() as int, quality).unwrap()].uri,
            ) is Ok
        }),
        spec_selected_index(playlist@.len() as int, quality) is Some ==> match res {
            Ok(u) => spec_url_join(
                base_url@,
                playlist@[spec_selected_index(playlist@.len() as int, quality).unwrap()].uri,
            ) == Ok::<Seq<char>, UrlParseError>(u@),
            Err(AppError::UrlError(e)) => spec_url_join(
                base_url@,
                playlist@[spec_selected_index(playlist@.len() as int, quality).unwrap()].uri,
            ) == Err::<Seq<char>, UrlParseError>(spec_url_error_kind(e)),
            Err(_) => false,
        },
        spec_selected_index(playlist@.len() as int, quality) is None ==> (res matches Err(e)
            && match quality {
            StreamQuality::Specific(index) => e matches AppError::WrongStreamIndex(i) && i == index,
            _ => e is MasterStreamIsEmpty,
        }),
{
    let stream_info = select_stream(playlist, quality)?;
    join_url(base_url, stream_info.uri.as_str())
}

/// How many variants the quality option can name: it takes an index up to 255.
pub open spec fn spec_listed_count(count: int) -> int {
    if count < 256 {
        count
    } else {
        256
    }
}

/// The line that lists variant `v` under its quality index:
/// "<index>: <uri> (bandwidth <bandwidth>[, resolution <resolution>])".
pub open spec fn spec_quality_line(index: nat, v: VariantView) -> Seq<char> {
    spec_decimal_text(index) + ": "@ + v.uri + " (bandwidth "@ + v.bandwidth + match v.resolution {
        Some(r) => ", resolution "@ + r,
        None => Seq::<char>::empty(),
    } + ")"@
}

/// The values that the quality option accepts as a stream index, one line per
/// variant of the master playlist, in order.
pub fn quality_list(playlist: &MasterPlaylistInfo) -> (res: Vec<String>)
    ensures
        res@.len() == spec_listed_count(playlist@.len() as int),
        forall|i: int|
            0 <= i < res@.len() ==> #[trigger] res@[i]@ == spec_quality_line(i as nat, playlist@[i]),
{
    let count = if playlist.variants.len() < 256 {
        playlist.variants.len()
    } else {
        256
    };
    let mut lines: Vec<String> = Vec::new();
    let mut i: usize = 0;
    while i < count
        invariant
            count == spec_listed_count(playlist@.len() as int),
            i <= count,
            lines@.len() == i,
            forall|k: int|
                0 <= k < i ==> #[trigger] lines@[k]@ == spec_quality_line(k as nat, playlist@[k]),
        decreases count - i,
    {
        let v = &playlist.variants[i];
        let mut line = decimal_text(i as u32);
        line.append(": ");
        line.append(v.uri.as_str());
        line.append(" (bandwidth ");
        line.append(v.bandwidth.as_str());
        match &v.resolution {
            Some(r) => {
                line.append(", resolution ");
                line.append(r.as_str());
            },
            None => {},
        }
        line.append(")");
        assert(playlist@[i as int] == v@);
        assert(line@ =~= spec_quality_line(i as nat, playlist@[i as int]));
        lines.push(line);
        i += 1;
    }
    lines
}

} // verus!
