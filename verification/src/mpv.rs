use vstd::prelude::*;

use crate::arguments::VerboseLevel;

verus! {

/// How to start the mpv player that shows the stream.
pub struct MpvLaunch {
    /// Arguments of `mpv`; the stream comes on its standard input ("-").
    pub args: Vec<&'static str>,
    /// Whether mpv's output is read and logged (else it is discarded).
    pub capture_output: bool,
}

/// The arguments of `mpv`: cache settings, quiet flags unless its output is
/// captured, and "-" to read the stream from standard input.
pub open spec fn spec_mpv_args(capture_output: bool) -> Seq<Seq<char>> {
    let base = seq![
        "--no-osd-bar"@,
        "--cache=yes"@,
        "--stream-buffer-size=128MiB"@,
        "--demuxer-max-bytes=128MiB"@,
        "--demuxer-max-back-bytes=128MiB"@,
    ];
    if capture_output {
        base.push("-"@)
    } else {
        base + seq!["--quiet"@, "--really-quiet"@, "-"@]
    }
}

pub open spec fn str_views(args: Seq<&str>) -> Seq<Seq<char>> {
    args.map_values(|a: &str| a@)
}

/// How to start mpv at a verbose level: its output is captured only at the
/// highest level.
pub fn mpv_launch(verbose: VerboseLevel) -> (res: MpvLaunch)
    ensures
        res.capture_output == (verbose == VerboseLevel::Max),
        str_views(res.args@) == spec_mpv_args(res.capture_output),
{
    let mut args: Vec<&'static str> = Vec::new();
    args.push("--no-osd-bar");
    args.push("--cache=yes");
    args.push("--stream-buffer-size=128MiB");
    args.push("--demuxer-max-bytes=128MiB");
    args.push("--demuxer-max-back-bytes=128MiB");
    let capture_output = match verbose {
        VerboseLevel::Quiet | VerboseLevel::Medium => {
            args.push("--quiet");
            args.push("--really-quiet");
            false
        },
        VerboseLevel::Max => true,
    };
    args.push("-");
    assert(str_views(args@) =~= spec_mpv_args(capture_output));
    MpvLaunch { args, capture_output }
}

/// How one read of a line of mpv's output ended.
#[derive(Debug, Clone, Copy, PartialEq, Eq, Structural)]
pub enum ReadOutcome {
    /// Nothing was read: the output has ended.
    Finished,
    /// Only the line delimiter was read.
    EmptyLine,
    /// A line with text was read.
    Line,
}

/// Classifies what one read up to (and including) the delimiter `limit` gave.
pub fn read_outcome(chunk: &[u8], limit: u8) -> (res: ReadOutcome)
    ensures
        res == if chunk@.len() == 0 {
            ReadOutcome::Finished
        } else if chunk@.len() == 1 && chunk@[0] == limit {
            ReadOutcome::EmptyLine
        } else {
            ReadOutcome::Line
        },
{
    if chunk.len() == 0 {
        ReadOutcome::Finished
    } else if chunk.len() == 1 && chunk[0] == limit {
        ReadOutcome::EmptyLine
    } else {
        ReadOutcome::Line
    }
}

} // verus!
