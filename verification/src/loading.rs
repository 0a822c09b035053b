use vstd::prelude::*;

use crate::error::{spec_url_error_kind, AppError, UrlParseError};
use crate::playlist::SegmentInfo;
use crate::urls::{join_url, spec_url_join, WebUrl};

verus! {

/// URL from which a media segment is loaded: its URI resolved against the base URL.
pub fn chunk_url(base_url: &WebUrl, segment: &SegmentInfo) -> (res: Result<WebUrl, AppError>)
    ensures
        match res {
            Ok(u) => spec_url_join(base_url@, segment@) == Ok::<Seq<char>, UrlParseError>(u@),
            Err(AppError::UrlError(e)) => spec_url_join(base_url@, segment@) == Err::<
                Seq<char>,
                UrlParseError,
            >(spec_url_error_kind(e)),
            Err(_) => false,
        },
{
    join_url(base_url, segment.uri.as_str())
}

/// Consumers of the downloaded data.
#[derive(Debug, Clone, Copy, PartialEq, Eq, Structural)]
pub enum ReceiverKind {
    /// The mpv player, fed through its standard input.
    Mpv,
    /// The output file.
    File,
}

/// Receivers that get the data: mpv (when asked for) and then the output file.
pub fn receiver_kinds(mpv: bool) -> (res: Vec<ReceiverKind>)
    ensures
        mpv ==> res@ == seq![ReceiverKind::Mpv, ReceiverKind::File],
        !mpv ==> res@ == seq![ReceiverKind::File],
{
    let mut kinds: Vec<ReceiverKind> = Vec::new();
    if mpv {
        kinds.push(ReceiverKind::Mpv);
    }
    kinds.push(ReceiverKind::File);
    kinds
}

} // verus!
