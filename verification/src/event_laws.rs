//! What holds of an event hub whatever is asked of it.

use vstd::prelude::*;

use crate::event::{
    first_free, AsrEvent, EventReceiver, HubModel, MailboxModel, ModelLifecyclePhase,
    ModelResourceKind, ReceiveError,
};

verus! {

/// The hub after a run of events.
pub open spec fn emitted_all(hub: HubModel, events: Seq<AsrEvent>) -> HubModel
    decreases events.len(),
{
    if events.len() == 0 {
        hub
    } else {
        emitted_all(hub, events.drop_last()).emitted(events.last())
    }
}

/// Whether `receiver` reads a mailbox of the hub to which the hub still delivers.
pub open spec fn is_live(hub: HubModel, receiver: EventReceiver) -> bool {
    hub.slot_of(receiver) matches Some(slot) && hub.mailboxes[slot]->0.connected
}

/// What waits for `receiver`.
pub open spec fn waiting(hub: HubModel, receiver: EventReceiver) -> Seq<AsrEvent> {
    match hub.slot_of(receiver) {
        Some(slot) => hub.mailboxes[slot]->0.pending,
        None => Seq::empty(),
    }
}

/// A closed hub delivers to nobody, whatever was asked of it before.
pub proof fn law_hub_stays_valid(hub: HubModel, event: AsrEvent, receiver: EventReceiver)
    requires
        hub.valid(),
    ensures
        HubModel::fresh(hub.id).valid(),
        hub.subscribed().valid(),
        hub.emitted(event).valid(),
        hub.shut().valid(),
        hub.taken(receiver).valid(),
        hub.deserted(receiver).valid(),
{
    receiver.lemma_slot_is_not_negative();
    lemma_free_slot(hub.mailboxes, 0);
}

/// A closed hub stays closed, and an open one is closed by nothing but `close`.
pub proof fn law_only_close_closes(hub: HubModel, event: AsrEvent, receiver: EventReceiver)
    ensures
        hub.subscribed().closed == hub.closed,
        hub.emitted(event).closed == hub.closed,
        hub.taken(receiver).closed == hub.closed,
        hub.deserted(receiver).closed == hub.closed,
        hub.shut().closed,
{
}

/// Closing a closed hub changes nothing.
pub proof fn law_close_is_idempotent(hub: HubModel)
    requires
        hub.valid(),
    ensures
        hub.shut().shut() == hub.shut(),
        hub.closed ==> hub.shut() == hub,
{
    assert(hub.shut().shut().mailboxes =~= hub.shut().mailboxes);
    if hub.closed {
        assert(hub.shut().mailboxes =~= hub.mailboxes);
    }
}

/// A closed hub is silent: no event changes it.
pub proof fn law_closed_hub_is_silent(hub: HubModel, events: Seq<AsrEvent>)
    requires
        hub.closed,
    ensures
        emitted_all(hub, events) == hub,
    decreases events.len(),
{
    if events.len() > 0 {
        law_closed_hub_is_silent(hub, events.drop_last());
    }
}

/// Closing lets every reader go: each still gets what already waits for it, and then learns that
/// nothing more will come.
pub proof fn law_close_disconnects_readers(
    hub: HubModel,
    events: Seq<AsrEvent>,
    receiver: EventReceiver,
)
    ensures
        waiting(emitted_all(hub.shut(), events), receiver) == waiting(hub, receiver),
        emitted_all(hub.shut(), events).answer(receiver) == if waiting(hub, receiver).len() > 0 {
            Ok::<AsrEvent, ReceiveError>(waiting(hub, receiver).first())
        } else {
            Err(ReceiveError::Disconnected)
        },
{
    receiver.lemma_slot_is_not_negative();
    law_closed_hub_is_silent(hub.shut(), events);
}

proof fn lemma_free_slot(mailboxes: Seq<Option<MailboxModel>>, from: int)
    requires
        0 <= from <= mailboxes.len(),
    ensures
        from <= first_free(mailboxes, from) <= mailboxes.len(),
        first_free(mailboxes, from) < mailboxes.len() ==> mailboxes[first_free(mailboxes, from)] is None,
    decreases mailboxes.len() - from,
{
    if from < mailboxes.len() && mailboxes[from] is Some {
        lemma_free_slot(mailboxes, from + 1);
    }
}

/// Whoever subscribes to a closed hub is disconnected from the start and for good.
pub proof fn law_late_subscriber_is_disconnected(
    hub: HubModel,
    events: Seq<AsrEvent>,
    receiver: EventReceiver,
)
    requires
        hub.closed,
        receiver.hub() == hub.id,
        receiver.slot() == hub.free_slot(),
    ensures
        emitted_all(hub.subscribed(), events).answer(receiver) == Err::<AsrEvent, ReceiveError>(
            ReceiveError::Disconnected,
        ),
{
    lemma_free_slot(hub.mailboxes, 0);
    law_closed_hub_is_silent(hub.subscribed(), events);
}

/// Whoever subscribes to an open hub is live, with nothing waiting.
pub proof fn law_new_subscriber_is_live(hub: HubModel, receiver: EventReceiver)
    requires
        !hub.closed,
        receiver.hub() == hub.id,
        receiver.slot() == hub.free_slot(),
    ensures
        is_live(hub.subscribed(), receiver),
        waiting(hub.subscribed(), receiver).len() == 0,
        hub.subscribed().answer(receiver) == Err::<AsrEvent, ReceiveError>(ReceiveError::Empty),
{
    lemma_free_slot(hub.mailboxes, 0);
}

/// Nobody else notices a new subscriber, and no two share a place.
pub proof fn law_subscribers_share_nothing(
    hub: HubModel,
    receiver: EventReceiver,
    other: EventReceiver,
)
    requires
        receiver.slot() == hub.free_slot(),
        hub.slot_of(other) is Some,
    ensures
        hub.subscribed().answer(other) == hub.answer(other),
        waiting(hub.subscribed(), other) == waiting(hub, other),
        is_live(hub.subscribed(), other) == is_live(hub, other),
        receiver.slot() != other.slot(),
{
    other.lemma_slot_is_not_negative();
    lemma_free_slot(hub.mailboxes, 0);
}

/// Every live reader of an open hub gets every event, in the order in which they were emitted, and
/// stays live.
pub proof fn law_readers_hear_everything_in_order(
    hub: HubModel,
    events: Seq<AsrEvent>,
    receiver: EventReceiver,
)
    requires
        !hub.closed,
        is_live(hub, receiver),
    ensures
        !emitted_all(hub, events).closed,
        is_live(emitted_all(hub, events), receiver),
        waiting(emitted_all(hub, events), receiver) == waiting(hub, receiver) + events,
    decreases events.len(),
{
    receiver.lemma_slot_is_not_negative();
    if events.len() > 0 {
        law_readers_hear_everything_in_order(hub, events.drop_last(), receiver);
        assert(waiting(hub, receiver) + events =~= (waiting(hub, receiver)
            + events.drop_last()).push(events.last()));
    } else {
        assert(waiting(hub, receiver) + events =~= waiting(hub, receiver));
    }
}

/// A reader gets what waits for it first come, first served, each event once, and takes nothing
/// from anybody else.
pub proof fn law_reading_takes_the_first(
    hub: HubModel,
    receiver: EventReceiver,
    other: EventReceiver,
)
    requires
        waiting(hub, receiver).len() > 0,
        other.slot() != receiver.slot(),
    ensures
        hub.answer(receiver) == Ok::<AsrEvent, ReceiveError>(waiting(hub, receiver).first()),
        waiting(hub.taken(receiver), receiver) == waiting(hub, receiver).drop_first(),
        is_live(hub.taken(receiver), receiver) == is_live(hub, receiver),
        waiting(hub.taken(receiver), other) == waiting(hub, other),
        hub.taken(receiver).answer(other) == hub.answer(other),
{
    receiver.lemma_slot_is_not_negative();
    other.lemma_slot_is_not_negative();
}

/// A reader that has gone leaves nothing behind: its place is free, and every event finds
/// everybody else as if it had never been there.
pub proof fn law_gone_reader_is_dropped(
    hub: HubModel,
    event: AsrEvent,
    receiver: EventReceiver,
    other: EventReceiver,
)
    requires
        hub.slot_of(receiver) is Some,
        other.slot() != receiver.slot(),
    ensures
        hub.deserted(receiver).mailboxes[receiver.slot()] is None,
        hub.deserted(receiver).emitted(event).mailboxes[receiver.slot()] is None,
        hub.deserted(receiver).free_slot() <= receiver.slot(),
        hub.deserted(receiver).emitted(event).answer(other) == hub.emitted(event).answer(other),
        waiting(hub.deserted(receiver).emitted(event), other) == waiting(hub.emitted(event), other),
{
    receiver.lemma_slot_is_not_negative();
    other.lemma_slot_is_not_negative();
    lemma_no_free_slot_is_passed(hub.deserted(receiver).mailboxes, 0, receiver.slot());
}

proof fn lemma_no_free_slot_is_passed(
    mailboxes: Seq<Option<MailboxModel>>,
    from: int,
    slot: int,
)
    requires
        0 <= from <= slot < mailboxes.len(),
        mailboxes[slot] is None,
    ensures
        first_free(mailboxes, from) <= slot,
    decreases slot - from,
{
    if mailboxes[from] is Some {
        lemma_no_free_slot_is_passed(mailboxes, from + 1, slot);
    }
}

/// A receiver of another hub gets nothing, takes nothing and disturbs nobody.
pub proof fn law_strangers_get_nothing(hub: HubModel, receiver: EventReceiver)
    requires
        receiver.hub() != hub.id,
    ensures
        hub.answer(receiver) == Err::<AsrEvent, ReceiveError>(ReceiveError::Disconnected),
        hub.taken(receiver) == hub,
        hub.deserted(receiver) == hub,
{
}

/// A live reader for which nothing waits is told so, and asking changes nothing.
pub proof fn law_nothing_waits_for_a_live_reader(hub: HubModel, receiver: EventReceiver)
    requires
        is_live(hub, receiver),
        waiting(hub, receiver).len() == 0,
    ensures
        hub.answer(receiver) == Err::<AsrEvent, ReceiveError>(ReceiveError::Empty),
        hub.taken(receiver) == hub,
{
}

/// Resources and phases have stable names.
pub proof fn law_names_are_stable()
    ensures
        ModelResourceKind::Asr.label() == "asr"@,
        ModelResourceKind::Vad.label() == "vad"@,
        ModelLifecyclePhase::Missing.label() == "missing"@,
        ModelLifecyclePhase::Downloading.label() == "downloading"@,
        ModelLifecyclePhase::Downloaded.label() == "downloaded"@,
        ModelLifecyclePhase::Failed.label() == "failed"@,
{
}

/// A new hub is open and has no subscribers, and keeps its number whatever is asked of it.
pub proof fn law_hubs_keep_their_number(
    id: u64,
    hub: HubModel,
    event: AsrEvent,
    receiver: EventReceiver,
)
    ensures
        HubModel::fresh(id).id == id,
        !HubModel::fresh(id).closed,
        HubModel::fresh(id).mailboxes.len() == 0,
        hub.subscribed().id == hub.id,
        hub.emitted(event).id == hub.id,
        hub.shut().id == hub.id,
        hub.taken(receiver).id == hub.id,
        hub.deserted(receiver).id == hub.id,
{
}

} // verus!
