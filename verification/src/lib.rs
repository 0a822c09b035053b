//! Verified core of an HLS (m3u8) stream downloader.

mod arguments;
mod byte_range_guard;
mod chunk_wait;
mod decimal;
mod error;
mod file_output;
mod loading;
mod logs;
mod mpv;
mod pipeline;
mod playlist;
mod receiver;
mod transfer;
mod url_generator;
mod urls;

pub use arguments::{
    all_digits, arguments_from_values, char_digit_values, lemma_decimal_text_reads_back, digit_value, digits_value, opt_view, parse_u8_decimal,
    spec_parse_u8, spec_stream_quality, spec_verbose_level, stream_quality_from_value, text_eq,
    unsigned_digits, verbose_level_from_value, Action, AppArguments, ArgumentError,
    DownloadArguments, StreamQuality, VerboseLevel,
};
pub use byte_range_guard::{
    all_digit_bytes, attribute_may_start, byte_digit_values, is_attribute_lead, is_blank,
    byte_range_at, byte_ranges_parse, byte_ranges_parse_check, byterange_key,
    decimal_value, is_digit_byte, is_value_end, key_at, value_start, MAX_BYTE_RANGE_LENGTH,
};
pub use chunk_wait::{
    lemma_timeout_schedule_ends, lemma_timeouts_shrink_to_floor, spec_timeout_of_wait,
    ChunkDecision, ChunkWaiter, INITIAL_TIMEOUT_SECS, MAX_SKIPPED_IN_A_ROW, MIN_TIMEOUT_SECS,
    TIMEOUT_STEP_SECS,
};
pub use decimal::{
    all_decimal_digits, decimal_of, decimal_text, digit_char, lemma_decimal_of_nonneg,
    lemma_decimal_of_prefix, spec_decimal_text,
};
pub use error::{
    spec_nom_error_kind, spec_nom_failure, spec_url_error_kind, AppError, NomErrorKind, NomFailure,
    UrlParseError,
};
pub use file_output::{
    default_file_name, is_digit_char, is_local_timestamp, is_year_text, output_file_path,
};
pub use loading::{chunk_url, receiver_kinds, ReceiverKind};
pub use logs::{
    level_filter, line_prefix, logged_module, LevelFilterKind, LinePrefix, LogLevel, PrefixColor,
};
pub use mpv::{mpv_launch, read_outcome, spec_mpv_args, str_views, MpvLaunch, ReadOutcome};
pub use pipeline::Generator;
pub use playlist::{
    chunks_url_for_quality, lemma_quality_selection, parse_master_playlist_data, parse_media_playlist_data, segment_uris,
    select_stream, quality_list, spec_listed_count, spec_quality_line, spec_parse_master_playlist, spec_parse_media_playlist, spec_selected_index,
    MasterPlaylistInfo, MediaPlaylistInfo, MediaPlaylistView, ParsedMediaPlaylist, SegmentInfo,
    VariantInfo, VariantView,
};
pub use receiver::{
    lemma_active_receiver, lemma_stopped_receiver, spec_send_decision, spec_stop, ReceiverPhase,
    ReceiverState, SendDecision, StopDecision,
};
pub use transfer::{TransferAction, TransferLoop};
pub use url_generator::{
    lemma_new_segments_are_the_newer_ones, lemma_next_poll_continues, lemma_poll, lemma_stream_numbers_increase,
    lemma_successive_polls_increase, spec_batch_numbers, spec_last_taken_after_polls,
    spec_stream_numbers, spec_already_taken,
    spec_gap_detected, spec_last_taken_after, spec_new_segment_uris, NewSegments, UrlGenerator,
};
pub use urls::{
    base_url_from_master_playlist_url, join_url, lemma_base_url_pops_then_pushes, parse_url, spec_base_url, spec_url_join,
    spec_url_parse, spec_url_pop_segment, spec_url_push_segment, WebUrl,
};
