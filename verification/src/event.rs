//! The events of a session and the hub that hands them out.
//!
//! The hub holds one mailbox per subscriber. It is a plain value: whoever shares it between
//! threads puts it behind a lock of their own.

use std::collections::VecDeque;
use std::path::PathBuf;
use std::time::SystemTime;

use vstd::prelude::*;

use crate::types::AsrState;

verus! {

/// A point in time, carried as it is.
#[verifier::external_type_specification]
#[verifier::external_body]
pub struct ExSystemTime(std::time::SystemTime);

/// `SystemTime::now` reads the clock: nothing is promised of what it shows.
pub assume_specification[ SystemTime::now ]() -> (time: SystemTime)
;

/// The model resources that local recognition needs.
#[derive(Debug, Clone, Copy, PartialEq, Eq, Structural)]
pub enum ModelResourceKind {
    /// The recognition model.
    Asr,
    /// The voice activity model.
    Vad,
}

impl ModelResourceKind {
    pub open spec fn label(self) -> Seq<char> {
        match self {
            ModelResourceKind::Asr => "asr"@,
            ModelResourceKind::Vad => "vad"@,
        }
    }

    /// The stable name of the resource kind.
    pub fn as_str(self) -> (text: &'static str)
        ensures
            text@ == self.label(),
    {
        match self {
            ModelResourceKind::Asr => "asr",
            ModelResourceKind::Vad => "vad",
        }
    }
}

/// The stages of a model resource.
#[derive(Debug, Clone, Copy, PartialEq, Eq, Structural)]
pub enum ModelLifecyclePhase {
    /// The model was found to be missing.
    Missing,
    /// The model is being downloaded or installed.
    Downloading,
    /// The model is ready.
    Downloaded,
    /// The download or the installation failed.
    Failed,
}

impl ModelLifecyclePhase {
    pub open spec fn label(self) -> Seq<char> {
        match self {
            ModelLifecyclePhase::Missing => "missing"@,
            ModelLifecyclePhase::Downloading => "downloading"@,
            ModelLifecyclePhase::Downloaded => "downloaded"@,
            ModelLifecyclePhase::Failed => "failed"@,
        }
    }

    /// The stable name of the phase.
    pub fn as_str(self) -> (text: &'static str)
        ensures
            text@ == self.label(),
    {
        match self {
            ModelLifecyclePhase::Missing => "missing",
            ModelLifecyclePhase::Downloading => "downloading",
            ModelLifecyclePhase::Downloaded => "downloaded",
            ModelLifecyclePhase::Failed => "failed",
        }
    }
}

/// Why a session changed its state.
#[derive(Debug, Clone, Copy, PartialEq, Eq, Structural)]
pub enum AsrStateChangeReason {
    SessionCreated,
    StartRequested,
    StartSucceeded,
    RecognitionRequested,
    PauseRequested,
    ResumeRequested,
    FinishRequested,
    PrepareNextTurnRequested,
    ResetRequested,
    ErrorOccurred,
}

/// One change of state.
#[derive(Debug, Clone, Copy, PartialEq, Eq)]
pub struct AsrStateTransitionEvent {
    pub from: AsrState,
    pub to: AsrState,
    pub reason: AsrStateChangeReason,
    pub timestamp: SystemTime,
}

/// One stage in the life of a model resource.
#[derive(Debug, PartialEq, Eq)]
pub struct ModelLifecycleEvent {
    pub resource_kind: ModelResourceKind,
    pub phase: ModelLifecyclePhase,
    pub downloaded_bytes: Option<u64>,
    pub total_bytes: Option<u64>,
    pub target_dir: PathBuf,
    pub message: String,
    pub timestamp: SystemTime,
}

impl Clone for ModelLifecycleEvent {
    fn clone(&self) -> (copy: Self)
        ensures
            copy == *self,
    {
        ModelLifecycleEvent {
            resource_kind: self.resource_kind,
            phase: self.phase,
            downloaded_bytes: self.downloaded_bytes,
            total_bytes: self.total_bytes,
            target_dir: self.target_dir.clone(),
            message: self.message.clone(),
            timestamp: self.timestamp,
        }
    }
}

/// Something that happened to the session as a whole.
#[derive(Debug, PartialEq, Eq)]
pub struct SessionEvent {
    pub message: String,
    pub timestamp: SystemTime,
}

impl Clone for SessionEvent {
    fn clone(&self) -> (copy: Self)
        ensures
            copy == *self,
    {
        SessionEvent { message: self.message.clone(), timestamp: self.timestamp }
    }
}

/// Everything that subscribers are told.
#[derive(Debug, PartialEq, Eq)]
pub enum AsrEvent {
    StateChanged(AsrStateTransitionEvent),
    Session(SessionEvent),
    Model(ModelLifecycleEvent),
    Error(String),
}

impl Clone for AsrEvent {
    fn clone(&self) -> (copy: Self)
        ensures
            copy == *self,
    {
        match self {
            AsrEvent::StateChanged(event) => AsrEvent::StateChanged(*event),
            AsrEvent::Session(event) => AsrEvent::Session(event.clone()),
            AsrEvent::Model(event) => AsrEvent::Model(event.clone()),
            AsrEvent::Error(message) => AsrEvent::Error(message.clone()),
        }
    }
}

/// What one subscriber's mailbox holds. `connected` says that the hub still delivers to it.
#[verifier::ext_equal]
pub struct MailboxModel {
    pub pending: Seq<AsrEvent>,
    pub connected: bool,
}

/// A place for a mailbox after the hub has handed it `event`.
pub open spec fn delivered(mailbox: Option<MailboxModel>, event: AsrEvent) -> Option<MailboxModel> {
    match mailbox {
        Some(mailbox) => if mailbox.connected {
            Some(MailboxModel { pending: mailbox.pending.push(event), ..mailbox })
        } else {
            Some(mailbox)
        },
        None => None,
    }
}

/// A place for a mailbox after the hub has let go of it.
pub open spec fn disconnected(mailbox: Option<MailboxModel>) -> Option<MailboxModel> {
    match mailbox {
        Some(mailbox) => Some(MailboxModel { connected: false, ..mailbox }),
        None => None,
    }
}

/// The first free place from `from` on, or the end.
pub open spec fn first_free(mailboxes: Seq<Option<MailboxModel>>, from: int) -> int
    decreases mailboxes.len() - from,
{
    if from >= mailboxes.len() {
        mailboxes.len() as int
    } else if mailboxes[from] is None {
        from
    } else {
        first_free(mailboxes, from + 1)
    }
}

/// What a hub holds: its number, a place for every subscriber, and whether it was closed. A place
/// is free once its reader has gone.
#[verifier::ext_equal]
pub struct HubModel {
    pub id: u64,
    pub mailboxes: Seq<Option<MailboxModel>>,
    pub closed: bool,
}

impl HubModel {
    /// A hub that nobody has subscribed to.
    pub open spec fn fresh(id: u64) -> HubModel {
        HubModel { id, mailboxes: Seq::empty(), closed: false }
    }

    /// The mailbox that a subscription made now gets.
    pub open spec fn new_mailbox(self) -> MailboxModel {
        MailboxModel { pending: Seq::empty(), connected: !self.closed }
    }

    /// The place that a subscription made now gets.
    pub open spec fn free_slot(self) -> int {
        first_free(self.mailboxes, 0)
    }

    pub open spec fn subscribed(self) -> HubModel {
        let slot = self.free_slot();
        HubModel {
            mailboxes: if slot < self.mailboxes.len() {
                self.mailboxes.update(slot, Some(self.new_mailbox()))
            } else {
                self.mailboxes.push(Some(self.new_mailbox()))
            },
            ..self
        }
    }

    pub open spec fn emitted(self, event: AsrEvent) -> HubModel {
        if self.closed {
            self
        } else {
            HubModel {
                mailboxes: self.mailboxes.map_values(
                    |mailbox: Option<MailboxModel>| delivered(mailbox, event),
                ),
                ..self
            }
        }
    }

    pub open spec fn shut(self) -> HubModel {
        HubModel {
            mailboxes: self.mailboxes.map_values(
                |mailbox: Option<MailboxModel>| disconnected(mailbox),
            ),
            closed: true,
            ..self
        }
    }

    /// The place that a receiver reads, if it is a receiver of this hub.
    pub open spec fn slot_of(self, receiver: EventReceiver) -> Option<int> {
        if receiver.hub() == self.id && receiver.slot() < self.mailboxes.len()
            && self.mailboxes[receiver.slot()] is Some {
            Some(receiver.slot())
        } else {
            None
        }
    }

    /// The answer to a reader that asks for its next event.
    pub open spec fn answer(self, receiver: EventReceiver) -> Result<AsrEvent, ReceiveError> {
        match self.slot_of(receiver) {
            None => Err(ReceiveError::Disconnected),
            Some(slot) => {
                let mailbox = self.mailboxes[slot]->0;
                if mailbox.pending.len() > 0 {
                    Ok(mailbox.pending.first())
                } else if mailbox.connected {
                    Err(ReceiveError::Empty)
                } else {
                    Err(ReceiveError::Disconnected)
                }
            },
        }
    }

    /// The hub after a reader has taken its next event.
    pub open spec fn taken(self, receiver: EventReceiver) -> HubModel {
        match self.slot_of(receiver) {
            None => self,
            Some(slot) => {
                let mailbox = self.mailboxes[slot]->0;
                if mailbox.pending.len() > 0 {
                    HubModel {
                        mailboxes: self.mailboxes.update(
                            slot,
                            Some(
                                MailboxModel { pending: mailbox.pending.drop_first(), ..mailbox },
                            ),
                        ),
                        ..self
                    }
                } else {
                    self
                }
            },
        }
    }

    /// The hub after a reader has gone for good: its place is free.
    pub open spec fn deserted(self, receiver: EventReceiver) -> HubModel {
        match self.slot_of(receiver) {
            None => self,
            Some(slot) => HubModel { mailboxes: self.mailboxes.update(slot, None), ..self },
        }
    }

    /// A closed hub delivers to nobody.
    pub open spec fn valid(self) -> bool {
        self.closed ==> forall|slot: int|
            #![trigger self.mailboxes[slot]]
            0 <= slot < self.mailboxes.len() && self.mailboxes[slot] is Some
                ==> !self.mailboxes[slot]->0.connected
    }
}

/// Why a reader got no event.
#[derive(Debug, Clone, Copy, PartialEq, Eq, Structural)]
pub enum ReceiveError {
    /// Nothing is waiting, and more may come.
    Empty,
    /// Nothing is waiting, and nothing more will come.
    Disconnected,
}

/// The reading end of one subscription. To a hub of another number it is a stranger.
#[derive(Debug, PartialEq, Eq)]
pub struct EventReceiver {
    hub: u64,
    slot: usize,
}

impl EventReceiver {
    /// The number of the hub that made the receiver.
    pub closed spec fn hub(self) -> u64 {
        self.hub
    }

    /// Which place of its hub the receiver reads.
    pub closed spec fn slot(self) -> int {
        self.slot as int
    }

    /// A place is not negative.
    pub proof fn lemma_slot_is_not_negative(self)
        ensures
            self.slot() >= 0,
    {
    }
}

#[derive(Debug)]
struct Mailbox {
    pending: VecDeque<AsrEvent>,
    connected: bool,
    in_use: bool,
}

impl Mailbox {
    spec fn model(self) -> Option<MailboxModel> {
        if self.in_use {
            Some(MailboxModel { pending: self.pending@, connected: self.connected })
        } else {
            None
        }
    }
}

/// The hub through which a session tells its subscribers what happens.
///
/// Receivers know their hub by its number. Whoever has several hubs at a time gives each its own.
#[derive(Debug)]
pub struct EventHub {
    id: u64,
    mailboxes: Vec<Mailbox>,
    closed: bool,
}

pub type AsrEventHub = EventHub;

impl View for EventHub {
    type V = HubModel;

    closed spec fn view(&self) -> HubModel {
        HubModel {
            id: self.id,
            mailboxes: self.mailboxes@.map_values(|mailbox: Mailbox| mailbox.model()),
            closed: self.closed,
        }
    }
}

impl Default for EventHub {
    fn default() -> (hub: Self)
        ensures
            hub@ == HubModel::fresh(0),
    {
        EventHub::with_id(0)
    }
}

impl EventHub {
    /// A hub with the number `id` that nobody has subscribed to.
    pub fn with_id(id: u64) -> (hub: Self)
        ensures
            hub@ == HubModel::fresh(id),
    {
        let hub: EventHub = EventHub { id, mailboxes: Vec::new(), closed: false };
        proof {
            assert(hub@.mailboxes =~= Seq::<Option<MailboxModel>>::empty());
        }
        hub
    }

    fn free_slot(&self) -> (slot: usize)
        ensures
            slot == self@.free_slot(),
            slot <= self.mailboxes.len(),
    {
        let mut slot: usize = 0;
        while slot < self.mailboxes.len() && self.mailboxes[slot].in_use
            invariant
                slot <= self.mailboxes.len(),
                first_free(self@.mailboxes, 0) == first_free(self@.mailboxes, slot as int),
            decreases self.mailboxes.len() - slot,
        {
            proof {
                assert(self@.mailboxes[slot as int] == self.mailboxes@[slot as int].model());
            }
            slot = slot + 1;
        }
        proof {
            if slot < self.mailboxes.len() {
                assert(self@.mailboxes[slot as int] == self.mailboxes@[slot as int].model());
            }
        }
        slot
    }

    /// Adds a subscriber.
    ///
    /// A subscriber of a closed hub gets a receiver that is disconnected from the start.
    pub fn subscribe(&mut self) -> (receiver: EventReceiver)
        ensures
            final(self)@ == old(self)@.subscribed(),
            receiver.hub() == old(self)@.id,
            receiver.slot() == old(self)@.free_slot(),
    {
        let slot: usize = self.free_slot();
        let mailbox: Mailbox = Mailbox {
            pending: VecDeque::new(),
            connected: !self.closed,
            in_use: true,
        };
        if slot < self.mailboxes.len() {
            self.mailboxes.set(slot, mailbox);
        } else {
            self.mailboxes.push(mailbox);
        }
        proof {
            assert(self@.mailboxes =~= old(self)@.subscribed().mailboxes);
        }
        EventReceiver { hub: self.id, slot }
    }

    /// Closes the hub: every receiver is let go, and can still read what already waits for it.
    ///
    /// Closing a closed hub changes nothing.
    pub fn close(&mut self)
        ensures
            final(self)@ == old(self)@.shut(),
    {
        self.closed = true;
        let count: usize = self.mailboxes.len();
        for at in 0..count
            invariant
                self.closed,
                self.id == old(self).id,
                count == self.mailboxes.len(),
                count == old(self).mailboxes.len(),
                forall|i: int|
                    0 <= i < at ==> (#[trigger] self.mailboxes[i]).model() == disconnected(
                        old(self).mailboxes[i].model(),
                    ),
                forall|i: int|
                    at <= i < count ==> #[trigger] self.mailboxes[i] == old(self).mailboxes[i],
        {
            self.mailboxes[at].connected = false;
        }
        proof {
            assert(self@.mailboxes =~= old(self)@.shut().mailboxes);
        }
    }

    /// Hands `event` to every subscriber.
    ///
    /// A closed hub delivers nothing.
    pub fn emit(&mut self, event: AsrEvent)
        ensures
            final(self)@ == old(self)@.emitted(event),
    {
        if self.closed {
            return ;
        }
        let count: usize = self.mailboxes.len();
        for at in 0..count
            invariant
                !self.closed,
                !old(self).closed,
                self.id == old(self).id,
                count == self.mailboxes.len(),
                count == old(self).mailboxes.len(),
                forall|i: int|
                    0 <= i < at ==> (#[trigger] self.mailboxes[i]).model() == delivered(
                        old(self).mailboxes[i].model(),
                        event,
                    ),
                forall|i: int|
                    at <= i < count ==> #[trigger] self.mailboxes[i] == old(self).mailboxes[i],
        {
            if self.mailboxes[at].in_use && self.mailboxes[at].connected {
                self.mailboxes[at].pending.push_back(event.clone());
            }
        }
        proof {
            assert(self@.mailboxes =~= old(self)@.emitted(event).mailboxes);
        }
    }

    /// Whether `receiver` reads a mailbox of this hub.
    fn knows(&self, receiver: &EventReceiver) -> (known: bool)
        ensures
            known == (self@.slot_of(*receiver) is Some),
            known ==> receiver.slot < self.mailboxes@.len(),
    {
        let known: bool = receiver.hub == self.id && receiver.slot < self.mailboxes.len()
            && self.mailboxes[receiver.slot].in_use;
        proof {
            if receiver.slot < self.mailboxes@.len() {
                assert(self@.mailboxes[receiver.slot as int]
                    == self.mailboxes@[receiver.slot as int].model());
            }
        }
        known
    }

    /// The next event that waits for `receiver`. One of another hub gets none.
    pub fn try_receive(&mut self, receiver: &EventReceiver) -> (next: Result<AsrEvent, ReceiveError>)
        ensures
            next == old(self)@.answer(*receiver),
            final(self)@ == old(self)@.taken(*receiver),
    {
        if !self.knows(receiver) {
            return Err(ReceiveError::Disconnected);
        }
        let slot: usize = receiver.slot;
        proof {
            assert(self@.mailboxes[slot as int] == self.mailboxes@[slot as int].model());
        }
        let next: Option<AsrEvent> = self.mailboxes[slot].pending.pop_front();
        let connected: bool = self.mailboxes[slot].connected;
        proof {
            assert(self@.mailboxes =~= old(self)@.taken(*receiver).mailboxes);
        }
        match next {
            Some(event) => Ok(event),
            None => if connected {
                Err(ReceiveError::Empty)
            } else {
                Err(ReceiveError::Disconnected)
            },
        }
    }

    /// Takes leave of `receiver`: what waits for it is dropped, and its place is free for another.
    pub fn hang_up(&mut self, receiver: EventReceiver)
        ensures
            final(self)@ == old(self)@.deserted(receiver),
    {
        if self.knows(&receiver) {
            let slot: usize = receiver.slot;
            self.mailboxes[slot].pending = VecDeque::new();
            self.mailboxes[slot].in_use = false;
            proof {
                assert(self@.mailboxes =~= old(self)@.deserted(receiver).mailboxes);
            }
        }
    }
}

} // verus!
