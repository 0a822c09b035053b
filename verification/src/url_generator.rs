use vstd::prelude::*;

use crate::playlist::{segment_uris, MediaPlaylistInfo, MediaPlaylistView, SegmentInfo};

verus! {

/// How many leading segments of a playlist whose first sequence number is
/// `media_sequence` and which holds `count` segments are not newer than the
/// segment numbered `last_taken`.
pub open spec fn spec_already_taken(last_taken: int, media_sequence: int, count: int) -> int {
    if last_taken < media_sequence {
        0
    } else if last_taken - media_sequence + 1 >= count {
        count
    } else {
        last_taken - media_sequence + 1
    }
}

/// Number of the newest segment taken once `playlist` has been seen after the
/// segment numbered `last_taken`.
pub open spec fn spec_last_taken_after(last_taken: int, playlist: MediaPlaylistView) -> int {
    let count = playlist.segment_uris.len() as int;
    if spec_already_taken(last_taken, playlist.media_sequence, count) < count {
        playlist.media_sequence + count - 1
    } else {
        last_taken
    }
}

/// URIs of the segments of `playlist` that are newer than the segment numbered
/// `last_taken`, in playlist order.
pub open spec fn spec_new_segment_uris(last_taken: int, playlist: MediaPlaylistView) -> Seq<
    Seq<char>,
> {
    let count = playlist.segment_uris.len() as int;
    playlist.segment_uris.subrange(
        spec_already_taken(last_taken, playlist.media_sequence, count),
        count,
    )
}

/// Whether segments were lost between the segment numbered `last_taken` and the
/// first new segment of `playlist` (only once some segment has been taken).
pub open spec fn spec_gap_detected(last_taken: int, playlist: MediaPlaylistView) -> bool {
    let count = playlist.segment_uris.len() as int;
    let taken = spec_already_taken(last_taken, playlist.media_sequence, count);
    taken < count && last_taken > 0 && playlist.media_sequence + taken > last_taken + 1
}

/// Segments of one playlist poll that have not been handed out before.
pub struct NewSegments {
    /// The new segments, in playlist order.
    pub segments: Vec<SegmentInfo>,
    /// Whether segments were lost since the previous poll.
    pub gap_detected: bool,
}

/// Tracks which media segments of a live playlist have been handed out, so that
/// each poll of the playlist yields only the segments that are new.
pub struct UrlGenerator {
    previous_last_segment: i32,
}

impl UrlGenerator {
    /// Sequence number of the newest segment handed out; 0 before any.
    pub closed spec fn last_taken(&self) -> int {
        self.previous_last_segment as int
    }

    pub fn new() -> (res: Self)
        ensures
            res.last_taken() == 0,
    {
        UrlGenerator { previous_last_segment: 0 }
    }

    /// Sequence number of the newest segment handed out; 0 before any.
    pub fn previous_last_segment(&self) -> (res: i32)
        ensures
            res == self.last_taken(),
    {
        self.previous_last_segment
    }

    /// Takes the segments of a freshly polled playlist whose sequence numbers
    /// are above the newest one handed out so far, and remembers the newest.
    pub fn take_new_segments(&mut self, playlist: MediaPlaylistInfo) -> (res: NewSegments)
        requires
            playlist.media_sequence + playlist.segments.len() <= i32::MAX,
        ensures
            segment_uris(res.segments@) == spec_new_segment_uris(old(self).last_taken(), playlist@),
            final(self).last_taken() == spec_last_taken_after(old(self).last_taken(), playlist@),
            res.gap_detected == spec_gap_detected(old(self).last_taken(), playlist@),
            res.segments@.len() > 0 ==> final(self).last_taken() == playlist.media_sequence
                + playlist.segments@.len() - 1,
            res.segments@.len() == 0 ==> final(self).last_taken() == old(self).last_taken(),
    {
        let count = playlist.segments.len();
        let media_sequence = playlist.media_sequence as i64;
        let last = self.previous_last_segment as i64;
        let taken: usize = if last < media_sequence {
            0
        } else if last - media_sequence + 1 >= count as i64 {
            count
        } else {
            (last - media_sequence + 1) as usize
        };
        let gap_detected = taken < count && last > 0 && media_sequence + (taken as i64) > last + 1;
        let mut segments = playlist.segments;
        let ghost before = segments@;
        let fresh = segments.split_off(taken);
        assert(segment_uris(fresh@) =~= segment_uris(before).subrange(taken as int, count as int));
        if taken < count {
            self.previous_last_segment = (media_sequence + count as i64 - 1) as i32;
        }
        NewSegments { segments: fresh, gap_detected }
    }
}

/// A segment is handed out exactly when its sequence number is above the
/// newest one handed out before, and the newest one handed out never decreases.
pub proof fn lemma_new_segments_are_the_newer_ones(last_taken: int, playlist: MediaPlaylistView)
    ensures
        forall|j: int|
            #![trigger playlist.segment_uris[j]]
            0 <= j < playlist.segment_uris.len() ==> (j >= spec_already_taken(
                last_taken,
                playlist.media_sequence,
                playlist.segment_uris.len() as int,
            ) <==> playlist.media_sequence + j > last_taken),
        spec_last_taken_after(last_taken, playlist) >= last_taken,
{
}

/// Over two successive polls, every segment handed out by the second poll has
/// a sequence number above every segment handed out by the first: no segment
/// is handed out twice and the order of sequence numbers is kept.
pub proof fn lemma_successive_polls_increase(
    last_taken: int,
    first: MediaPlaylistView,
    second: MediaPlaylistView,
    i: int,
    j: int,
)
    requires
        spec_already_taken(last_taken, first.media_sequence, first.segment_uris.len() as int) <= i
            < first.segment_uris.len(),
        spec_already_taken(
            spec_last_taken_after(last_taken, first),
            second.media_sequence,
            second.segment_uris.len() as int,
        ) <= j < second.segment_uris.len(),
    ensures
        last_taken < first.media_sequence + i <= spec_last_taken_after(last_taken, first)
            < second.media_sequence + j,
{
}

/// Sequence numbers of the segments that a poll of `playlist` hands out after
/// the segment numbered `last_taken`, in order: the numbers of the URIs of
/// `spec_new_segment_uris(last_taken, playlist)`.
pub open spec fn spec_batch_numbers(last_taken: int, playlist: MediaPlaylistView) -> Seq<int> {
    let count = playlist.segment_uris.len() as int;
    let taken = spec_already_taken(last_taken, playlist.media_sequence, count);
    Seq::new((count - taken) as nat, |k: int| playlist.media_sequence + taken + k)
}

/// Number of the newest segment taken after successive polls of `polls`,
/// starting after the segment numbered `last_taken`.
pub open spec fn spec_last_taken_after_polls(last_taken: int, polls: Seq<MediaPlaylistView>) -> int
    decreases polls.len(),
{
    if polls.len() == 0 {
        last_taken
    } else {
        spec_last_taken_after_polls(spec_last_taken_after(last_taken, polls[0]), polls.drop_first())
    }
}

/// Sequence numbers handed out, in order, over successive polls of `polls`,
/// starting after the segment numbered `last_taken`.
pub open spec fn spec_stream_numbers(last_taken: int, polls: Seq<MediaPlaylistView>) -> Seq<int>
    decreases polls.len(),
{
    if polls.len() == 0 {
        Seq::<int>::empty()
    } else {
        spec_batch_numbers(last_taken, polls[0]) + spec_stream_numbers(
            spec_last_taken_after(last_taken, polls[0]),
            polls.drop_first(),
        )
    }
}

/// Over any sequence of polls, the sequence numbers handed out strictly
/// increase: no segment is handed out twice, none older than one handed out
/// before; all lie above the number taken before the first poll and up to the
/// number taken after the last.
pub proof fn lemma_stream_numbers_increase(last_taken: int, polls: Seq<MediaPlaylistView>)
    ensures
        forall|i: int, j: int|
            0 <= i < j < spec_stream_numbers(last_taken, polls).len() ==> spec_stream_numbers(
                last_taken,
                polls,
            )[i] < spec_stream_numbers(last_taken, polls)[j],
        forall|i: int|
            0 <= i < spec_stream_numbers(last_taken, polls).len() ==> last_taken
                < #[trigger] spec_stream_numbers(last_taken, polls)[i]
                <= spec_last_taken_after_polls(last_taken, polls),
        last_taken <= spec_last_taken_after_polls(last_taken, polls),
    decreases polls.len(),
{
    if polls.len() > 0 {
        let first = polls[0];
        let next = spec_last_taken_after(last_taken, first);
        let batch = spec_batch_numbers(last_taken, first);
        let rest = spec_stream_numbers(next, polls.drop_first());
        lemma_stream_numbers_increase(next, polls.drop_first());
        let all = spec_stream_numbers(last_taken, polls);
        assert(all == batch + rest);
        assert forall|i: int| 0 <= i < batch.len() implies last_taken < #[trigger] batch[i] <= next by {}
        assert forall|i: int, j: int| 0 <= i < j < all.len() implies all[i] < all[j] by {
            if j < batch.len() {
            } else if i < batch.len() {
                assert(all[i] == batch[i]);
                assert(all[j] == rest[j - batch.len()]);
            } else {
                assert(all[i] == rest[i - batch.len()]);
                assert(all[j] == rest[j - batch.len()]);
            }
        }
        assert forall|i: int| 0 <= i < all.len() implies last_taken < #[trigger] all[i]
            <= spec_last_taken_after_polls(last_taken, polls) by {
            if i < batch.len() {
                assert(all[i] == batch[i]);
            } else {
                assert(all[i] == rest[i - batch.len()]);
            }
        }
    }
}

/// What one poll does, in terms of the playlist polled and the number of the
/// newest segment taken before (`last_taken`): it hands out a suffix of the
/// playlist's segments, made exactly of the segments numbered above
/// `last_taken`; when it hands out any, it then remembers the number of the
/// last one handed out (the playlist's last), and otherwise the number it had;
/// it reports a gap exactly when it hands out segments, some segment had been
/// taken before, and the first one handed out is not the next number.
pub proof fn lemma_poll(last_taken: int, playlist: MediaPlaylistView)
    ensures
        ({
            let uris = playlist.segment_uris;
            let count = uris.len() as int;
            let new = spec_new_segment_uris(last_taken, playlist);
            let first = count - new.len();
            &&& new.len() <= count
            &&& forall|k: int| 0 <= k < new.len() ==> #[trigger] new[k] == uris[first + k]
            &&& forall|j: int|
                #![trigger uris[j]]
                0 <= j < count ==> (j >= first <==> playlist.media_sequence + j > last_taken)
            &&& new.len() > 0 ==> spec_last_taken_after(last_taken, playlist)
                == playlist.media_sequence + count - 1
            &&& new.len() == 0 ==> spec_last_taken_after(last_taken, playlist) == last_taken
            &&& spec_gap_detected(last_taken, playlist) == (new.len() > 0 && last_taken > 0
                && playlist.media_sequence + first > last_taken + 1)
        }),
{
}

/// No number is skipped between two polls: when the second playlist still
/// holds the segment that follows the newest one taken by the first poll, the
/// second poll hands out exactly the segments from that one on.
pub proof fn lemma_next_poll_continues(
    last_taken: int,
    first: MediaPlaylistView,
    second: MediaPlaylistView,
)
    requires
        second.media_sequence <= spec_last_taken_after(last_taken, first) + 1
            <= second.media_sequence + second.segment_uris.len() - 1,
    ensures
        ({
            let new = spec_new_segment_uris(spec_last_taken_after(last_taken, first), second);
            let count = second.segment_uris.len() as int;
            &&& new.len() > 0
            &&& second.media_sequence + (count - new.len()) == spec_last_taken_after(
                last_taken,
                first,
            ) + 1
            &&& !spec_gap_detected(spec_last_taken_after(last_taken, first), second)
        }),
{
}

} // verus!
