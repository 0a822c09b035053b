use vstd::prelude::*;

verus! {

/// What the transfer loop does next.
pub enum TransferAction<D> {
    /// Hand the data to every receiver.
    Deliver(D),
    /// Leave the loop and stop the receivers.
    Finish,
}

/// The loop that moves downloaded data to the receivers: it delivers each
/// item, ends at the end of the stream, at the first stream error (which it
/// keeps for the end result), or when a receiver fails to take data.
pub struct TransferLoop<E> {
    found_error: Option<E>,
    finished: bool,
}

impl<E> TransferLoop<E> {
    /// The stream error that ended the loop, if one did.
    pub closed spec fn spec_found_error(&self) -> Option<E> {
        self.found_error
    }

    pub closed spec fn spec_finished(&self) -> bool {
        self.finished
    }

    pub fn new() -> (res: Self)
        ensures
            res.spec_found_error() is None,
            !res.spec_finished(),
    {
        TransferLoop { found_error: None, finished: false }
    }

    pub fn is_finished(&self) -> (res: bool)
        ensures
            res == self.spec_finished(),
    {
        self.finished
    }

    /// Decides on the next item of the data stream (`None` at its end).
    pub fn on_stream_item<D>(&mut self, item: Option<Result<D, E>>) -> (res: TransferAction<D>)
        requires
            !old(self).spec_finished(),
        ensures
            match item {
                Some(Ok(d)) => {
                    &&& res == TransferAction::Deliver(d)
                    &&& !final(self).spec_finished()
                    &&& final(self).spec_found_error() == old(self).spec_found_error()
                },
                Some(Err(e)) => {
                    &&& res is Finish
                    &&& final(self).spec_finished()
                    &&& final(self).spec_found_error() == Some(e)
                },
                None => {
                    &&& res is Finish
                    &&& final(self).spec_finished()
                    &&& final(self).spec_found_error() == old(self).spec_found_error()
                },
            },
    {
        match item {
            Some(Ok(data)) => TransferAction::Deliver(data),
            Some(Err(err)) => {
                self.found_error = Some(err);
                self.finished = true;
                TransferAction::Finish
            },
            None => {
                self.finished = true;
                TransferAction::Finish
            },
        }
    }

    /// Decides after an item was handed to the receivers: a receiver that
    /// failed to take it ends the loop.
    pub fn on_delivered(&mut self, all_receivers_took_it: bool) -> (res: TransferAction<()>)
        requires
            !old(self).spec_finished(),
        ensures
            final(self).spec_finished() == !all_receivers_took_it,
            final(self).spec_found_error() == old(self).spec_found_error(),
            all_receivers_took_it ==> res == TransferAction::Deliver(()),
            !all_receivers_took_it ==> res is Finish,
    {
        if all_receivers_took_it {
            TransferAction::Deliver(())
        } else {
            self.finished = true;
            TransferAction::Finish
        }
    }

    /// Result of the whole transfer: the stream error that ended it, if any.
    pub fn into_result(self) -> (res: Result<(), E>)
        ensures
            match self.spec_found_error() {
                Some(e) => res == Err::<(), E>(e),
                None => res is Ok,
            },
    {
        match self.found_error {
            Some(e) => Err(e),
            None => Ok(()),
        }
    }
}

} // verus!
