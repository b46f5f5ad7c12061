//! The bridge between the driver's completion notices and the application's handler.

use crate::device::output::enums::DecklinkOutputFrameCompletionResult;
use crate::frame::DecklinkVideoFrame;
use crate::util::{STATUS_FALSE, STATUS_OK};
use std::sync::Arc;
use vstd::prelude::*;

verus! {

/// What an application does when the driver reports on scheduled playback.
/// Each answer is handed on to the driver: `false` tells it that the notice
/// was rejected.
pub trait DeckLinkVideoOutputCallback: Send + Sync {
    fn schedule_frame_completed_callback(
        &self,
        frame: Option<DecklinkVideoFrame>,
        result: DecklinkOutputFrameCompletionResult,
    ) -> bool;

    fn playback_stopped(&self) -> bool;
}

/// The status that tells the driver whether a notice was accepted.
pub open spec fn acknowledgement(accepted: bool) -> i32 {
    if accepted {
        STATUS_OK
    } else {
        STATUS_FALSE
    }
}

pub fn acknowledge(accepted: bool) -> (status: i32)
    ensures
        status == acknowledgement(accepted),
{
    if accepted {
        STATUS_OK
    } else {
        STATUS_FALSE
    }
}

/// Whether `accepted` is an answer of `handler` to the notice that the
/// scheduled frame `frame` is done with and that `result` became of it.
pub open spec fn answers_completion<H: DeckLinkVideoOutputCallback + ?Sized>(
    handler: &H,
    frame: Option<DecklinkVideoFrame>,
    result: DecklinkOutputFrameCompletionResult,
    accepted: bool,
) -> bool {
    call_ensures(H::schedule_frame_completed_callback, (handler, frame, result), accepted)
}

/// Whether `accepted` is an answer of `handler` to the notice that scheduled
/// playback has ended.
pub open spec fn answers_stopped<H: DeckLinkVideoOutputCallback + ?Sized>(
    handler: &H,
    accepted: bool,
) -> bool {
    call_ensures(H::playback_stopped, (handler,), accepted)
}

/// The slot for the handler of an output. The driver is given the slot once;
/// the handler in it can be changed or taken out at any time.
pub struct CallbackWrapper {
    pub handler: Option<Arc<dyn DeckLinkVideoOutputCallback>>,
}

impl CallbackWrapper {
    /// A slot with no handler in it.
    pub fn new() -> (wrapper: Self)
        ensures
            wrapper.handler.is_none(),
    {
        CallbackWrapper { handler: None }
    }

    /// Puts `handler` in the slot in place of what was there.
    pub fn set(&mut self, handler: Option<Arc<dyn DeckLinkVideoOutputCallback>>)
        ensures
            final(self).handler == handler,
    {
        self.handler = handler;
    }

    /// Whom to tell that a scheduled frame is done with, and what to tell:
    /// the handler in the slot and the outcome that `result` names; nobody
    /// where the slot is empty.
    pub fn completion_notice(&self, result: u32) -> (notice: Option<
        (&Arc<dyn DeckLinkVideoOutputCallback>, DecklinkOutputFrameCompletionResult),
    >)
        ensures
            self.handler.is_none() ==> notice.is_none(),
            self.handler matches Some(handler) ==> (notice matches Some(told) && *told.0 == handler
                && told.1 == DecklinkOutputFrameCompletionResult::spec_from_u32(result)),
    {
        match &self.handler {
            Some(handler) => Some((handler, DecklinkOutputFrameCompletionResult::from_u32(result))),
            None => None,
        }
    }

    /// Hands the notice that a scheduled frame is done with to the handler
    /// that `completion_notice` names, with the outcome that it names, and
    /// returns the status for the driver: the acknowledgement of the
    /// handler's answer, or acceptance where there is no handler.
    pub fn schedule_frame_completed_callback(
        &self,
        frame: Option<DecklinkVideoFrame>,
        result: u32,
    ) -> (status: i32)
        ensures
            self.handler.is_none() ==> status == STATUS_OK,
            self.handler matches Some(handler) ==> exists|accepted: bool|
                #[trigger] answers_completion(
                    &*handler,
                    frame,
                    DecklinkOutputFrameCompletionResult::spec_from_u32(result),
                    accepted,
                ) && status == acknowledgement(accepted),
            status == STATUS_OK || status == STATUS_FALSE,
    {
        match self.completion_notice(result) {
            Some((handler, outcome)) => {
                let accepted = handler.schedule_frame_completed_callback(frame, outcome);
                assert(answers_completion(&**handler, frame, outcome, accepted));
                acknowledge(accepted)
            },
            None => acknowledge(true),
        }
    }

    /// Hands the notice that scheduled playback has ended to the handler in
    /// the slot and returns the status for the driver: the acknowledgement of
    /// the handler's answer, or acceptance where there is no handler.
    pub fn playback_stopped(&self) -> (status: i32)
        ensures
            self.handler.is_none() ==> status == STATUS_OK,
            self.handler matches Some(handler) ==> exists|accepted: bool|
                #[trigger] answers_stopped(&*handler, accepted) && status == acknowledgement(
                    accepted,
                ),
            status == STATUS_OK || status == STATUS_FALSE,
    {
        match &self.handler {
            Some(handler) => {
                let accepted = handler.playback_stopped();
                assert(answers_stopped(&**handler, accepted));
                acknowledge(accepted)
            },
            None => acknowledge(true),
        }
    }
}

} // verus!
