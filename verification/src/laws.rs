//! The registry's laws, stated over the model that the registry's contracts
//! speak of and proved once for every store, record and request: idempotent
//! registration, the activation and deactivation edges, slot-scoped dispatch,
//! the safety of unsubscribing an empty category, the selectivity of targeted
//! and untargeted unsubscription, and the dedup invariant.

use crate::register::{
    callback_id, contains_listener, dispatch_matches, dispatch_targets, event_type_flag, has_pair,
    lemma_contains_listener_push, no_duplicates, removed_by, removed_slot,
    slot_needs_deactivation, surviving, CallbackFlavor, EventListener, TelephonyUpdateEventType,
};
use vstd::prelude::*;

verus! {

/// How many stored records equal `listener`.
pub open spec fn stored_count(s: Seq<EventListener>, listener: EventListener) -> nat
    decreases s.len(),
{
    if s.len() == 0 {
        0
    } else {
        stored_count(s.drop_last(), listener) + if s.last() == listener {
            1nat
        } else {
            0nat
        }
    }
}

/// A record is stored exactly when it is counted at least once.
pub proof fn lemma_stored_count_contains(s: Seq<EventListener>, listener: EventListener)
    ensures
        (stored_count(s, listener) == 0) == !contains_listener(s, listener),
    decreases s.len(),
{
    if s.len() > 0 {
        lemma_stored_count_contains(s.drop_last(), listener);
        assert(s =~= s.drop_last().push(s.last()));
        lemma_contains_listener_push(s.drop_last(), s.last(), listener);
    }
}

/// Idempotent registration: a record that is absent is stored exactly once by
/// registering it, and a second registration of the same record finds it
/// present, which `register` answers as a no-op success that stores nothing.
pub proof fn lemma_register_idempotent(s: Seq<EventListener>, listener: EventListener)
    requires
        !contains_listener(s, listener),
    ensures
        contains_listener(s.push(listener), listener),
        stored_count(s.push(listener), listener) == 1,
{
    lemma_contains_listener_push(s, listener, listener);
    lemma_stored_count_contains(s, listener);
    assert(s.push(listener).drop_last() =~= s);
}

/// The activation edge: the first record of a fresh (category, slot) pair is
/// one `register` answers with an activation request (it is not stored, so it
/// is no duplicate, and its pair is not yet subscribed); once it is stored, a
/// second record with a different handle for the same pair is no duplicate
/// either, yet its pair is subscribed, so `register` appends it without a
/// further activation request.
pub proof fn lemma_activation_edge(
    s: Seq<EventListener>,
    first: EventListener,
    second: EventListener,
)
    requires
        !has_pair(s, first.event_type, first.slot_id),
        second.event_type == first.event_type,
        second.slot_id == first.slot_id,
        second.callback_ref != first.callback_ref,
    ensures
        !contains_listener(s, first),
        !contains_listener(s.push(first), second),
        has_pair(s.push(first), second.event_type, second.slot_id),
{
    if contains_listener(s, first) {
        let j = choose|j: int| 0 <= j < s.len() && s[j] == first;
        assert(s[j].event_type == first.event_type && s[j].slot_id == first.slot_id);
    }
    if contains_listener(s.push(first), second) {
        let j = choose|j: int| 0 <= j < s.push(first).len() && s.push(first)[j] == second;
        if j < s.len() {
            assert(s[j].event_type == second.event_type && s[j].slot_id == second.slot_id);
        } else {
            assert(s.push(first)[j] == first);
        }
    }
    assert(s.push(first)[s.len() as int] == first);
}

/// Unregistration keeps every record that it does not target, in order.
pub proof fn lemma_surviving_membership(
    s: Seq<EventListener>,
    event_type: TelephonyUpdateEventType,
    callback_ref: Option<CallbackFlavor>,
    listener: EventListener,
)
    ensures
        contains_listener(surviving(s, event_type, callback_ref), listener) == (
        contains_listener(s, listener) && !removed_by(listener, event_type, callback_ref)),
    decreases s.len(),
{
    if s.len() > 0 {
        lemma_surviving_membership(s.drop_last(), event_type, callback_ref, listener);
        assert(s =~= s.drop_last().push(s.last()));
        lemma_contains_listener_push(s.drop_last(), s.last(), listener);
        if !removed_by(s.last(), event_type, callback_ref) {
            lemma_contains_listener_push(
                surviving(s.drop_last(), event_type, callback_ref),
                s.last(),
                listener,
            );
        }
    }
}

/// Every record unregistration leaves in the store was stored before, and was
/// not targeted.
pub proof fn lemma_surviving_elements(
    s: Seq<EventListener>,
    event_type: TelephonyUpdateEventType,
    callback_ref: Option<CallbackFlavor>,
)
    ensures
        forall|i: int|
            0 <= i < surviving(s, event_type, callback_ref).len() ==> contains_listener(
                s,
                #[trigger] surviving(s, event_type, callback_ref)[i],
            ) && !removed_by(surviving(s, event_type, callback_ref)[i], event_type, callback_ref),
    decreases s.len(),
{
    if s.len() > 0 {
        lemma_surviving_elements(s.drop_last(), event_type, callback_ref);
        let rest = surviving(s.drop_last(), event_type, callback_ref);
        let whole = surviving(s, event_type, callback_ref);
        assert forall|i: int| 0 <= i < whole.len() implies contains_listener(
            s,
            #[trigger] whole[i],
        ) && !removed_by(whole[i], event_type, callback_ref) by {
            if i < rest.len() {
                assert(whole[i] == rest[i]);
                let j = choose|j: int| 0 <= j < s.drop_last().len() && s.drop_last()[j] == rest[i];
                assert(s[j] == rest[i]);
            } else {
                assert(whole[i] == s.last());
                assert(s[s.len() - 1] == s.last());
            }
        }
    }
}

/// The deactivation edge, kept side: removing one handle while a record with
/// a different handle stays subscribed to the same (category, slot) pair asks
/// for no deactivation of that pair.
pub proof fn lemma_unregister_keeps_active(
    s: Seq<EventListener>,
    removed: CallbackFlavor,
    survivor: EventListener,
)
    requires
        contains_listener(s, survivor),
        survivor.callback_ref != removed,
    ensures
        !slot_needs_deactivation(
            s,
            survivor.event_type,
            Some(removed),
            survivor.slot_id,
        ),
{
    lemma_surviving_membership(s, survivor.event_type, Some(removed), survivor);
    let left = surviving(s, survivor.event_type, Some(removed));
    let j = choose|j: int| 0 <= j < left.len() && left[j] == survivor;
    assert(left[j].event_type == survivor.event_type && left[j].slot_id == survivor.slot_id);
}

/// The deactivation edge, last side: removing the only record of a
/// (category, slot) pair asks for exactly that pair's deactivation.
pub proof fn lemma_unregister_last_deactivates(s: Seq<EventListener>, target: EventListener)
    requires
        contains_listener(s, target),
        forall|i: int|
            0 <= i < s.len() && s[i].event_type == target.event_type && s[i].slot_id
                == target.slot_id ==> s[i] == target,
    ensures
        slot_needs_deactivation(
            s,
            target.event_type,
            Some(target.callback_ref),
            target.slot_id,
        ),
{
    let callback_ref = Some(target.callback_ref);
    let j = choose|j: int| 0 <= j < s.len() && s[j] == target;
    assert(removed_by(s[j], target.event_type, callback_ref) && s[j].slot_id == target.slot_id);
    let left = surviving(s, target.event_type, callback_ref);
    if has_pair(left, target.event_type, target.slot_id) {
        let k = choose|k: int|
            0 <= k < left.len() && left[k].event_type == target.event_type && left[k].slot_id
                == target.slot_id;
        lemma_surviving_elements(s, target.event_type, callback_ref);
        let m = choose|m: int| 0 <= m < s.len() && s[m] == left[k];
        assert(s[m] == target);
    }
}

/// Unsubscribing a category with no stored records changes nothing and asks
/// for no gateway call.
pub proof fn lemma_unsubscribe_empty(
    s: Seq<EventListener>,
    event_type: TelephonyUpdateEventType,
    callback_ref: Option<CallbackFlavor>,
)
    requires
        forall|i: int| 0 <= i < s.len() ==> s[i].event_type != event_type,
    ensures
        surviving(s, event_type, callback_ref) == s,
        forall|slot_id: i32| !slot_needs_deactivation(s, event_type, callback_ref, slot_id),
    decreases s.len(),
{
    if s.len() == 0 {
        assert(surviving(s, event_type, callback_ref) =~= s);
    } else {
        assert(forall|i: int| 0 <= i < s.drop_last().len() ==> s.drop_last()[i] == s[i]);
        lemma_unsubscribe_empty(s.drop_last(), event_type, callback_ref);
        assert(s[s.len() - 1] == s.last());
        assert(surviving(s, event_type, callback_ref) =~= s);
    }
    assert forall|slot_id: i32| !slot_needs_deactivation(
        s,
        event_type,
        callback_ref,
        slot_id,
    ) by {
        if removed_slot(s, event_type, callback_ref, slot_id) {
            let j = choose|j: int|
                0 <= j < s.len() && removed_by(s[j], event_type, callback_ref) && s[j].slot_id
                    == slot_id;
            assert(s[j].event_type == event_type);
        }
    }
}

/// Selectivity of unsubscription: a targeted unsubscribe removes exactly the
/// stored records of the category whose handle equals the target, whatever
/// their slot; an untargeted one removes exactly the stored records of the
/// category, regardless of slot or handle.
pub proof fn lemma_unsubscribe_selectivity(
    s: Seq<EventListener>,
    event_type: TelephonyUpdateEventType,
    target: CallbackFlavor,
    listener: EventListener,
)
    requires
        contains_listener(s, listener),
    ensures
        contains_listener(surviving(s, event_type, Some(target)), listener) == !(
        listener.event_type == event_type && listener.callback_ref == target),
        contains_listener(
            surviving(s, event_type, Option::<CallbackFlavor>::None),
            listener,
        ) == (listener.event_type != event_type),
{
    lemma_surviving_membership(s, event_type, Some(target), listener);
    lemma_surviving_membership(s, event_type, Option::<CallbackFlavor>::None, listener);
}

/// Slot isolation of dispatch: a callback token is invoked exactly when a
/// record carrying it is stored for the dispatched category, on the
/// dispatched slot when dispatch is slot-scoped, with the handle variant the
/// category expects. Records of other categories or slots contribute nothing.
pub proof fn lemma_dispatch_isolation(
    s: Seq<EventListener>,
    event_type: TelephonyUpdateEventType,
    slot_filter: Option<i32>,
    token: u64,
)
    ensures
        dispatch_targets(s, event_type, slot_filter).contains(token) == (exists|i: int|
            0 <= i < s.len() && dispatch_matches(#[trigger] s[i], event_type, slot_filter)
                && callback_id(s[i].callback_ref) == token),
    decreases s.len(),
{
    if s.len() > 0 {
        lemma_dispatch_isolation(s.drop_last(), event_type, slot_filter, token);
        let rest = dispatch_targets(s.drop_last(), event_type, slot_filter);
        let whole = dispatch_targets(s, event_type, slot_filter);
        assert(forall|i: int| 0 <= i < s.drop_last().len() ==> s.drop_last()[i] == s[i]);
        assert(s[s.len() - 1] == s.last());
        if dispatch_matches(s.last(), event_type, slot_filter) {
            assert(whole == rest.push(callback_id(s.last().callback_ref)));
            if rest.contains(token) {
                let j = choose|j: int| 0 <= j < rest.len() && rest[j] == token;
                assert(whole[j] == token);
            }
            if callback_id(s.last().callback_ref) == token {
                assert(whole[whole.len() - 1] == token);
            }
            if whole.contains(token) {
                let j = choose|j: int| 0 <= j < whole.len() && whole[j] == token;
                if j < rest.len() {
                    assert(rest[j] == token);
                }
            }
        }
        if exists|i: int|
            0 <= i < s.len() && dispatch_matches(#[trigger] s[i], event_type, slot_filter)
                && callback_id(s[i].callback_ref) == token {
            let i = choose|i: int|
                0 <= i < s.len() && dispatch_matches(#[trigger] s[i], event_type, slot_filter)
                    && callback_id(s[i].callback_ref) == token;
            if i < s.len() - 1 {
                assert(dispatch_matches(s.drop_last()[i], event_type, slot_filter));
            }
        }
    }
}

/// The dedup invariant across registration: `register` and
/// `register_activated` append only a record that was absent, which keeps the
/// store free of duplicate records.
pub proof fn lemma_no_duplicates_register(s: Seq<EventListener>, listener: EventListener)
    requires
        no_duplicates(s),
        !contains_listener(s, listener),
    ensures
        no_duplicates(s.push(listener)),
{
    let whole = s.push(listener);
    assert forall|i: int, j: int| 0 <= i < j < whole.len() implies whole[i] != whole[j] by {
        if j == s.len() {
            assert(whole[i] == s[i]);
            if whole[i] == listener {
                assert(contains_listener(s, listener));
            }
        } else {
            assert(whole[i] == s[i] && whole[j] == s[j]);
        }
    }
}

/// The dedup invariant across unregistration: removal keeps the store free of
/// duplicate records.
pub proof fn lemma_no_duplicates_unregister(
    s: Seq<EventListener>,
    event_type: TelephonyUpdateEventType,
    callback_ref: Option<CallbackFlavor>,
)
    requires
        no_duplicates(s),
    ensures
        no_duplicates(surviving(s, event_type, callback_ref)),
    decreases s.len(),
{
    if s.len() > 0 {
        assert(forall|i: int| 0 <= i < s.drop_last().len() ==> s.drop_last()[i] == s[i]);
        lemma_no_duplicates_unregister(s.drop_last(), event_type, callback_ref);
        let rest = surviving(s.drop_last(), event_type, callback_ref);
        if !removed_by(s.last(), event_type, callback_ref) {
            if contains_listener(rest, s.last()) {
                lemma_surviving_membership(s.drop_last(), event_type, callback_ref, s.last());
                let j = choose|j: int|
                    0 <= j < s.drop_last().len() && s.drop_last()[j] == s.last();
                assert(s[j] == s[s.len() - 1]);
            }
            lemma_no_duplicates_register(rest, s.last());
        }
    }
}

/// Uniqueness of the gateway bit flags: distinct categories are named to the
/// activation gateway under distinct flags.
pub proof fn lemma_event_type_flag_injective(
    a: TelephonyUpdateEventType,
    b: TelephonyUpdateEventType,
)
    ensures
        event_type_flag(a) == event_type_flag(b) ==> a == b,
{
}

} // verus!
