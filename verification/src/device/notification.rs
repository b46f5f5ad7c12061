//! Notices of changes in a device, and the handler that receives them.

use crate::device::output::video_callback::{acknowledge, acknowledgement};
use crate::device::status::DecklinkStatusId;
use crate::util::{STATUS_FALSE, STATUS_OK};
use std::sync::Arc;
use vstd::prelude::*;

verus! {

/// What a subscriber can be told of.
#[derive(Debug, Clone, Copy, PartialEq, Eq, Structural)]
pub enum NotificationTopic {
    PreferencesChanged,
    StatusChanged,
}

impl NotificationTopic {
    /// The number by which the driver names this topic.
    pub open spec fn spec_code(self) -> u32 {
        match self {
            NotificationTopic::PreferencesChanged => 0x7072_6566,
            NotificationTopic::StatusChanged => 0x7374_6174,
        }
    }

    pub fn code(self) -> (c: u32)
        ensures
            c == self.spec_code(),
    {
        match self {
            NotificationTopic::PreferencesChanged => 0x7072_6566,
            NotificationTopic::StatusChanged => 0x7374_6174,
        }
    }
}

/// What an application does when a part of the state of a device changes.
/// The answer is handed on to the driver.
pub trait DeckLinkNotificationCallback: Send + Sync {
    fn notify_status(&self, id: DecklinkStatusId) -> bool;
}

/// Whether `accepted` is an answer of `handler` to the notice that the part
/// `id` of the state has changed.
pub open spec fn answers_notice<H: DeckLinkNotificationCallback + ?Sized>(
    handler: &H,
    id: DecklinkStatusId,
    accepted: bool,
) -> bool {
    call_ensures(H::notify_status, (handler, id), accepted)
}

/// A subscription: the handler and the number of the topic that it asked for.
pub struct DecklinkNotificationWrapper {
    pub handler: Arc<dyn DeckLinkNotificationCallback>,
    pub topic: u32,
}

impl DecklinkNotificationWrapper {
    /// The part of the state that a notice is about, where the notice is on
    /// the topic of this subscription and its parameter names a part.
    pub open spec fn spec_subject(&self, topic: u32, param1: u64) -> Option<DecklinkStatusId> {
        if topic == self.topic && param1 <= u32::MAX {
            DecklinkStatusId::spec_from_u32(param1 as u32)
        } else {
            None
        }
    }

    /// Computes `spec_subject`: what the handler is told of, if anything.
    pub fn subject(&self, topic: u32, param1: u64) -> (id: Option<DecklinkStatusId>)
        ensures
            id == self.spec_subject(topic, param1),
    {
        if topic == self.topic && param1 <= 0xFFFF_FFFF {
            DecklinkStatusId::from_u32(param1 as u32)
        } else {
            None
        }
    }

    /// Hands a notice of the driver to the handler, with the part of the
    /// state that `subject` names, and returns the status for the driver: the
    /// acknowledgement of the handler's answer. A notice on another topic,
    /// or about nothing that has a name here, is accepted without asking the
    /// handler.
    pub fn notify_callback(&self, topic: u32, param1: u64, param2: u64) -> (status: i32)
        ensures
            self.spec_subject(topic, param1).is_none() ==> status == STATUS_OK,
            self.spec_subject(topic, param1) matches Some(id) ==> exists|accepted: bool|
                #[trigger] answers_notice(&*self.handler, id, accepted) && status
                    == acknowledgement(accepted),
            status == STATUS_OK || status == STATUS_FALSE,
    {
        match self.subject(topic, param1) {
            Some(id) => {
                let accepted = self.handler.notify_status(id);
                assert(answers_notice(&*self.handler, id, accepted));
                acknowledge(accepted)
            },
            None => acknowledge(true),
        }
    }
}

} // verus!
