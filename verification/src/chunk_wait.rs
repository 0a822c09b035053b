use vstd::prelude::*;

verus! {

/// Seconds granted to the wait for the first chunk, before the first decrease.
pub const INITIAL_TIMEOUT_SECS: i64 = 45;

/// Seconds by which each wait is shorter than the one before.
pub const TIMEOUT_STEP_SECS: i64 = 5;

/// Shortest wait, in seconds.
pub const MIN_TIMEOUT_SECS: i64 = 5;

/// Most chunk waits in a row that may time out before the download gives up.
pub const MAX_SKIPPED_IN_A_ROW: i32 = 10;

/// Timeout of the `n`-th wait for a chunk (counting from 1).
pub open spec fn spec_timeout_of_wait(n: nat) -> int {
    if INITIAL_TIMEOUT_SECS - TIMEOUT_STEP_SECS * n >= MIN_TIMEOUT_SECS {
        INITIAL_TIMEOUT_SECS - TIMEOUT_STEP_SECS * n
    } else {
        MIN_TIMEOUT_SECS as int
    }
}

/// What to do once the wait for a chunk has ended.
#[derive(Debug, Clone, Copy, PartialEq, Eq, Structural)]
pub enum ChunkDecision {
    /// The chunk arrived in time: hand it on.
    Deliver,
    /// The chunk timed out: drop it and wait for the next one.
    Skip,
    /// Too many chunks in a row timed out: stop the download.
    Stop,
}

/// Decides how long to wait for each loaded chunk and when to give up.
///
/// Every wait is 5 s shorter than the one before, from 40 s down to 5 s; a
/// chunk that does not arrive in time is skipped, and after more than 10
/// skipped chunks in a row the download stops.
pub struct ChunkWaiter {
    total_skipped: i32,
    timeout_val: i64,
    waits: Ghost<nat>,
}

impl ChunkWaiter {
    #[verifier::type_invariant]
    spec fn inv(self) -> bool {
        &&& 0 <= self.total_skipped <= MAX_SKIPPED_IN_A_ROW + 1
        &&& self.timeout_val == if self.waits@ == 0 {
            INITIAL_TIMEOUT_SECS as int
        } else {
            spec_timeout_of_wait(self.waits@)
        }
    }

    /// Chunks in a row whose wait timed out.
    pub closed spec fn skipped(&self) -> int {
        self.total_skipped as int
    }

    /// Waits started so far.
    pub closed spec fn waits(&self) -> nat {
        self.waits@
    }

    /// Whether the waiter has given up.
    pub open spec fn stopped(&self) -> bool {
        self.skipped() > MAX_SKIPPED_IN_A_ROW
    }

    pub fn new() -> (res: Self)
        ensures
            res.skipped() == 0,
            res.waits() == 0,
    {
        ChunkWaiter { total_skipped: 0, timeout_val: INITIAL_TIMEOUT_SECS, waits: Ghost(0) }
    }

    /// Chunks in a row whose wait timed out.
    pub fn skipped_in_a_row(&self) -> (res: i32)
        ensures
            res == self.skipped(),
    {
        self.total_skipped
    }

    /// Starts the wait for the next chunk and returns its timeout in seconds.
    pub fn next_timeout(&mut self) -> (res: u64)
        ensures
            final(self).waits() == old(self).waits() + 1,
            final(self).skipped() == old(self).skipped(),
            res == spec_timeout_of_wait(final(self).waits()),
    {
        proof {
            use_type_invariant(&*self);
        }
        let shorter = self.timeout_val - TIMEOUT_STEP_SECS;
        let timeout_val = if shorter > MIN_TIMEOUT_SECS {
            shorter
        } else {
            MIN_TIMEOUT_SECS
        };
        let waits = Ghost((self.waits@ + 1) as nat);
        *self = ChunkWaiter { total_skipped: self.total_skipped, timeout_val, waits };
        timeout_val as u64
    }

    /// Records how the wait for a chunk ended and decides what follows.
    pub fn on_wait_finished(&mut self, timed_out: bool) -> (res: ChunkDecision)
        requires
            !old(self).stopped(),
        ensures
            final(self).waits() == old(self).waits(),
            !timed_out ==> res == ChunkDecision::Deliver && final(self).skipped() == 0,
            timed_out ==> final(self).skipped() == old(self).skipped() + 1,
            timed_out ==> (res == ChunkDecision::Stop <==> final(self).stopped()),
            timed_out ==> (res == ChunkDecision::Skip <==> !final(self).stopped()),
    {
        proof {
            use_type_invariant(&*self);
        }
        if !timed_out {
            self.total_skipped = 0;
            ChunkDecision::Deliver
        } else {
            self.total_skipped = self.total_skipped + 1;
            if self.total_skipped > MAX_SKIPPED_IN_A_ROW {
                ChunkDecision::Stop
            } else {
                ChunkDecision::Skip
            }
        }
    }
}

/// The waits never get longer, and never shorter than the minimum.
pub proof fn lemma_timeouts_shrink_to_floor(m: nat, n: nat)
    requires
        1 <= m <= n,
    ensures
        MIN_TIMEOUT_SECS <= spec_timeout_of_wait(n) <= spec_timeout_of_wait(m) < INITIAL_TIMEOUT_SECS,
{
}

/// The first wait is 40 s, and from the ninth on every wait is 5 s.
pub proof fn lemma_timeout_schedule_ends(n: nat)
    ensures
        spec_timeout_of_wait(1) == 40,
        n >= 8 ==> spec_timeout_of_wait(n) == MIN_TIMEOUT_SECS,
{
}

} // verus!
