//! The listener registry: the store of listener records, the
//! register/unregister reconciliation that drives the activation gateway on
//! the empty/non-empty transitions, and the dispatch fan-out that routes an
//! incoming event to the callback handles of the matching records.
//!
//! The activation gateway and the foreign runtime that owns the callbacks
//! live outside this crate. The registry therefore never calls them itself:
//! `register` answers whether an activation request must be sent before the
//! record may be committed, `unregister` returns the slots whose last record
//! was removed and must be deactivated, and the dispatch routines return the
//! identity tokens of the callbacks to invoke. The surrounding process
//! performs those calls and, for a registration, commits the record through
//! `register_activated` once the gateway accepted.

use crate::bridge::{
    call_state_of, card_type_of, data_connect_state_of, data_flow_type_of, lock_reason_of,
    radio_technology_of, sim_state_of, CallStateInfo, CardType, CellInformation,
    DataConnectionStateInfo, DataFlowType, LockReason, NetworkState, SignalInformation, SimState,
    SimStateData,
};
use crate::wrapper::{
    call_state_info_of, cell_information_of, network_state_of, signal_information_of,
    BusinessError, CallStateAni, CellInformationAni, NetworkStateAni, SignalInformationAni,
    INVALID_PARAMETER_CODE,
};
use vstd::prelude::*;
use vstd::string::StringExecFns;

verus! {

/// One callback handle per event category. A handle does not own the
/// caller-supplied code object: it carries the identity token of a
/// process-lifetime reference into the caller's runtime, and two handles are
/// the same subscription exactly when their variants and tokens are equal.
#[derive(Debug, Clone, Copy, PartialEq, Eq, Structural)]
pub enum CallbackFlavor {
    CellularDataFlowChange(u64),
    IccAccountInfoChange(u64),
    SimStateChange(u64),
    SignalInfoChange(u64),
    CellInfoChange(u64),
    CellularDataConnectionStateChange(u64),
    NetworkStateChange(u64),
    CallStateChange(u64),
}

/// The closed enumeration of notification categories. Two categories (CFU
/// indicator, voicemail indicator) are reserved and not dispatchable.
#[derive(Debug, Clone, Copy, PartialEq, Eq, Structural)]
pub enum TelephonyUpdateEventType {
    NoneEventType,
    EventNetworkStateUpdate,
    EventCallStateUpdate,
    EventCellInfoUpdate,
    EventSignalStrengthsUpdate,
    EventSimStateUpdate,
    EventDataConnectionUpdate,
    EventCellularDataFlowUpdate,
    EventCfuIndicatorUpdate,
    EventVoiceMailMsgIndicatorUpdate,
    EventIccAccountChange,
}

/// The bit flag under which a category is named to the activation gateway.
pub open spec fn event_type_flag(event_type: TelephonyUpdateEventType) -> u32 {
    match event_type {
        TelephonyUpdateEventType::NoneEventType => 0,
        TelephonyUpdateEventType::EventNetworkStateUpdate => 0x00000001,
        TelephonyUpdateEventType::EventCallStateUpdate => 0x00000004,
        TelephonyUpdateEventType::EventCellInfoUpdate => 0x00000008,
        TelephonyUpdateEventType::EventSignalStrengthsUpdate => 0x00000010,
        TelephonyUpdateEventType::EventSimStateUpdate => 0x00000020,
        TelephonyUpdateEventType::EventDataConnectionUpdate => 0x00000040,
        TelephonyUpdateEventType::EventCellularDataFlowUpdate => 0x00000080,
        TelephonyUpdateEventType::EventCfuIndicatorUpdate => 0x00000100,
        TelephonyUpdateEventType::EventVoiceMailMsgIndicatorUpdate => 0x00000200,
        TelephonyUpdateEventType::EventIccAccountChange => 0x00000400,
    }
}

impl TelephonyUpdateEventType {
    pub fn to_u32(&self) -> (r: u32)
        ensures
            r == event_type_flag(*self),
    {
        match self {
            TelephonyUpdateEventType::NoneEventType => 0,
            TelephonyUpdateEventType::EventNetworkStateUpdate => 0x00000001,
            TelephonyUpdateEventType::EventCallStateUpdate => 0x00000004,
            TelephonyUpdateEventType::EventCellInfoUpdate => 0x00000008,
            TelephonyUpdateEventType::EventSignalStrengthsUpdate => 0x00000010,
            TelephonyUpdateEventType::EventSimStateUpdate => 0x00000020,
            TelephonyUpdateEventType::EventDataConnectionUpdate => 0x00000040,
            TelephonyUpdateEventType::EventCellularDataFlowUpdate => 0x00000080,
            TelephonyUpdateEventType::EventCfuIndicatorUpdate => 0x00000100,
            TelephonyUpdateEventType::EventVoiceMailMsgIndicatorUpdate => 0x00000200,
            TelephonyUpdateEventType::EventIccAccountChange => 0x00000400,
        }
    }
}

/// One subscription: event category, slot identifier, and callback handle.
/// The whole triple is the dedup key: at most one equal record is ever
/// stored.
#[derive(Debug, Clone, Copy, PartialEq, Eq, Structural)]
pub struct EventListener {
    pub event_type: TelephonyUpdateEventType,
    pub slot_id: i32,
    pub callback_ref: CallbackFlavor,
}

impl EventListener {
    pub fn new(
        event_type: TelephonyUpdateEventType,
        slot_id: i32,
        callback_ref: CallbackFlavor,
    ) -> (r: Self)
        ensures
            r == (EventListener { event_type, slot_id, callback_ref }),
    {
        Self { event_type, slot_id, callback_ref }
    }
}

/// A record equal to `listener` is stored.
pub open spec fn contains_listener(s: Seq<EventListener>, listener: EventListener) -> bool {
    exists|i: int| 0 <= i < s.len() && s[i] == listener
}

/// Some record is stored for the (category, slot) pair.
pub open spec fn has_pair(
    s: Seq<EventListener>,
    event_type: TelephonyUpdateEventType,
    slot_id: i32,
) -> bool {
    exists|i: int|
        0 <= i < s.len() && s[i].event_type == event_type && s[i].slot_id == slot_id
}

/// No two stored records are equal under the dedup key.
pub open spec fn no_duplicates(s: Seq<EventListener>) -> bool {
    forall|i: int, j: int| 0 <= i < j < s.len() ==> s[i] != s[j]
}

/// Appending a record stores it, and disturbs no other record.
pub proof fn lemma_contains_listener_push(
    s: Seq<EventListener>,
    appended: EventListener,
    listener: EventListener,
)
    ensures
        contains_listener(s.push(appended), listener) == (contains_listener(s, listener)
            || appended == listener),
{
    if contains_listener(s, listener) {
        let j = choose|j: int| 0 <= j < s.len() && s[j] == listener;
        assert(s.push(appended)[j] == listener);
    }
    if appended == listener {
        assert(s.push(appended)[s.len() as int] == listener);
    }
    if contains_listener(s.push(appended), listener) {
        let j = choose|j: int| 0 <= j < s.push(appended).len() && s.push(appended)[j] == listener;
        if j < s.len() {
            assert(s[j] == listener);
        }
    }
}

/// Appending a record subscribes its own (category, slot) pair and no other.
pub proof fn lemma_has_pair_push(
    s: Seq<EventListener>,
    appended: EventListener,
    event_type: TelephonyUpdateEventType,
    slot_id: i32,
)
    ensures
        has_pair(s.push(appended), event_type, slot_id) == (has_pair(s, event_type, slot_id) || (
        appended.event_type == event_type && appended.slot_id == slot_id)),
{
    if has_pair(s, event_type, slot_id) {
        let j = choose|j: int|
            0 <= j < s.len() && s[j].event_type == event_type && s[j].slot_id == slot_id;
        assert(s.push(appended)[j] == s[j]);
    }
    if appended.event_type == event_type && appended.slot_id == slot_id {
        assert(s.push(appended)[s.len() as int] == appended);
    }
    if has_pair(s.push(appended), event_type, slot_id) {
        let j = choose|j: int|
            0 <= j < s.push(appended).len() && s.push(appended)[j].event_type == event_type
                && s.push(appended)[j].slot_id == slot_id;
        if j < s.len() {
            assert(s[j] == s.push(appended)[j]);
        }
    }
}

/// An unregister request for `event_type` removes this record: the category
/// matches, and so does the handle when one was given. Without a handle the
/// request removes the whole category, regardless of slot or handle.
pub open spec fn removed_by(
    l: EventListener,
    event_type: TelephonyUpdateEventType,
    callback_ref: Option<CallbackFlavor>,
) -> bool {
    l.event_type == event_type && match callback_ref {
        Option::Some(cb) => l.callback_ref == cb,
        Option::None => true,
    }
}

/// The records an unregister request leaves in the store, in order.
pub open spec fn surviving(
    s: Seq<EventListener>,
    event_type: TelephonyUpdateEventType,
    callback_ref: Option<CallbackFlavor>,
) -> Seq<EventListener>
    decreases s.len(),
{
    if s.len() == 0 {
        s
    } else {
        let rest = surviving(s.drop_last(), event_type, callback_ref);
        if removed_by(s.last(), event_type, callback_ref) {
            rest
        } else {
            rest.push(s.last())
        }
    }
}

/// The unregister request removes at least one record on this slot.
pub open spec fn removed_slot(
    s: Seq<EventListener>,
    event_type: TelephonyUpdateEventType,
    callback_ref: Option<CallbackFlavor>,
    slot_id: i32,
) -> bool {
    exists|i: int|
        0 <= i < s.len() && removed_by(s[i], event_type, callback_ref) && s[i].slot_id == slot_id
}

/// The unregister request removes the last record of (category, slot): the
/// activation gateway must be told to deactivate the pair.
pub open spec fn slot_needs_deactivation(
    s: Seq<EventListener>,
    event_type: TelephonyUpdateEventType,
    callback_ref: Option<CallbackFlavor>,
    slot_id: i32,
) -> bool {
    removed_slot(s, event_type, callback_ref, slot_id) && !has_pair(
        surviving(s, event_type, callback_ref),
        event_type,
        slot_id,
    )
}

proof fn lemma_slots_contains_push(s: Seq<i32>, appended: i32)
    ensures
        forall|slot_id: i32| #[trigger]
            s.push(appended).contains(slot_id) == (s.contains(slot_id) || appended == slot_id),
{
    assert forall|slot_id: i32| #[trigger]
        s.push(appended).contains(slot_id) == (s.contains(slot_id) || appended
            == slot_id) by {
        if s.contains(slot_id) {
            let j = choose|j: int| 0 <= j < s.len() && s[j] == slot_id;
            assert(s.push(appended)[j] == slot_id);
        }
        if appended == slot_id {
            assert(s.push(appended)[s.len() as int] == slot_id);
        }
        if s.push(appended).contains(slot_id) {
            let j = choose|j: int|
                0 <= j < s.push(appended).len() && s.push(appended)[j] == slot_id;
            if j < s.len() {
                assert(s[j] == slot_id);
            }
        }
    }
}

proof fn lemma_removed_slot_push(
    s: Seq<EventListener>,
    appended: EventListener,
    event_type: TelephonyUpdateEventType,
    callback_ref: Option<CallbackFlavor>,
)
    ensures
        forall|slot_id: i32| #[trigger]
            removed_slot(s.push(appended), event_type, callback_ref, slot_id) == (removed_slot(
                s,
                event_type,
                callback_ref,
                slot_id,
            ) || (removed_by(appended, event_type, callback_ref) && appended.slot_id == slot_id)),
{
    assert forall|slot_id: i32| #[trigger]
        removed_slot(s.push(appended), event_type, callback_ref, slot_id) == (removed_slot(
            s,
            event_type,
            callback_ref,
            slot_id,
        ) || (removed_by(appended, event_type, callback_ref) && appended.slot_id
            == slot_id)) by {
        if removed_slot(s, event_type, callback_ref, slot_id) {
            let j = choose|j: int|
                0 <= j < s.len() && removed_by(s[j], event_type, callback_ref) && s[j].slot_id
                    == slot_id;
            assert(s.push(appended)[j] == s[j]);
        }
        if removed_by(appended, event_type, callback_ref) && appended.slot_id == slot_id {
            assert(s.push(appended)[s.len() as int] == appended);
        }
        if removed_slot(s.push(appended), event_type, callback_ref, slot_id) {
            let j = choose|j: int|
                0 <= j < s.push(appended).len() && removed_by(
                    s.push(appended)[j],
                    event_type,
                    callback_ref,
                ) && s.push(appended)[j].slot_id == slot_id;
            if j < s.len() {
                assert(s[j] == s.push(appended)[j]);
            }
        }
    }
}

/// The identity token a callback handle carries.
pub open spec fn callback_id(callback_ref: CallbackFlavor) -> u64 {
    match callback_ref {
        CallbackFlavor::CellularDataFlowChange(id) => id,
        CallbackFlavor::IccAccountInfoChange(id) => id,
        CallbackFlavor::SimStateChange(id) => id,
        CallbackFlavor::SignalInfoChange(id) => id,
        CallbackFlavor::CellInfoChange(id) => id,
        CallbackFlavor::CellularDataConnectionStateChange(id) => id,
        CallbackFlavor::NetworkStateChange(id) => id,
        CallbackFlavor::CallStateChange(id) => id,
    }
}

/// The handle variant is the one dispatch for this category expects. A stored
/// record whose handle variant does not correspond to its category is an
/// internal inconsistency: dispatch skips it rather than invoking it. The two
/// reserved categories and the none-category expect no handle at all.
pub open spec fn flavor_matches(
    event_type: TelephonyUpdateEventType,
    callback_ref: CallbackFlavor,
) -> bool {
    match event_type {
        TelephonyUpdateEventType::EventCellularDataFlowUpdate => callback_ref
            is CellularDataFlowChange,
        TelephonyUpdateEventType::EventIccAccountChange => callback_ref is IccAccountInfoChange,
        TelephonyUpdateEventType::EventSimStateUpdate => callback_ref is SimStateChange,
        TelephonyUpdateEventType::EventSignalStrengthsUpdate => callback_ref is SignalInfoChange,
        TelephonyUpdateEventType::EventCellInfoUpdate => callback_ref is CellInfoChange,
        TelephonyUpdateEventType::EventDataConnectionUpdate => callback_ref
            is CellularDataConnectionStateChange,
        TelephonyUpdateEventType::EventNetworkStateUpdate => callback_ref is NetworkStateChange,
        TelephonyUpdateEventType::EventCallStateUpdate => callback_ref is CallStateChange,
        _ => false,
    }
}

/// Dispatch for `event_type` invokes this record: the category matches, the
/// slot matches when dispatch is slot-scoped, and the handle variant is the
/// expected one.
pub open spec fn dispatch_matches(
    l: EventListener,
    event_type: TelephonyUpdateEventType,
    slot_filter: Option<i32>,
) -> bool {
    l.event_type == event_type && (match slot_filter {
        Option::Some(slot_id) => l.slot_id == slot_id,
        Option::None => true,
    }) && flavor_matches(event_type, l.callback_ref)
}

/// The identity tokens of the callbacks dispatch invokes, in store order.
pub open spec fn dispatch_targets(
    s: Seq<EventListener>,
    event_type: TelephonyUpdateEventType,
    slot_filter: Option<i32>,
) -> Seq<u64>
    decreases s.len(),
{
    if s.len() == 0 {
        Seq::empty()
    } else {
        let rest = dispatch_targets(s.drop_last(), event_type, slot_filter);
        if dispatch_matches(s.last(), event_type, slot_filter) {
            rest.push(callback_id(s.last().callback_ref))
        } else {
            rest
        }
    }
}

/// Exposes the identity token of a callback handle, so the surrounding
/// process can look the caller's callback up and invoke it with the payload
/// dispatch returns beside it.
pub fn callback_token(callback_ref: CallbackFlavor) -> (r: u64)
    ensures
        r == callback_id(callback_ref),
{
    match callback_ref {
        CallbackFlavor::CellularDataFlowChange(id) => id,
        CallbackFlavor::IccAccountInfoChange(id) => id,
        CallbackFlavor::SimStateChange(id) => id,
        CallbackFlavor::SignalInfoChange(id) => id,
        CallbackFlavor::CellInfoChange(id) => id,
        CallbackFlavor::CellularDataConnectionStateChange(id) => id,
        CallbackFlavor::NetworkStateChange(id) => id,
        CallbackFlavor::CallStateChange(id) => id,
    }
}

#[derive(PartialEq, Eq, Structural)]
enum EventListenerStatus {
    EventListenerDiff,
    EventListenerSame,
    EventListenerSlotidAndEventtypeSame,
}

/// What one `register` call answers.
#[derive(Debug, Clone, Copy, PartialEq, Eq, Structural)]
pub enum RegisterOutcome {
    /// The exact record was already stored; registration is an idempotent
    /// no-op success.
    Duplicate,
    /// Other records for the same (category, slot) pair exist, so the source
    /// is already active there: the record was appended directly.
    Registered,
    /// The record is the first for its (category, slot) pair. Nothing was
    /// stored: the activation gateway must accept
    /// `(slot_id, event_type_flag)` first, and the record is then committed
    /// through `register_activated`.
    RequiresActivation,
}

/// The store of listener records. One process-wide instance is expected,
/// guarded by one lock for the full duration of every call; both the
/// instance and the lock belong to the surrounding process.
pub struct Register {
    inner: Vec<EventListener>,
}

impl View for Register {
    type V = Seq<EventListener>;

    closed spec fn view(&self) -> Seq<EventListener> {
        self.inner@
    }
}

impl Register {
    pub fn new() -> (r: Self)
        ensures
            r@ == Seq::<EventListener>::empty(),
    {
        Self { inner: Vec::new() }
    }

    fn check_event_listener_register(
        listener_list: &Vec<EventListener>,
        listener: &EventListener,
    ) -> (r: EventListenerStatus)
        ensures
            (r == EventListenerStatus::EventListenerSame) == contains_listener(
                listener_list@,
                *listener,
            ),
            !contains_listener(listener_list@, *listener) ==> (r
                == EventListenerStatus::EventListenerSlotidAndEventtypeSame) == has_pair(
                listener_list@,
                listener.event_type,
                listener.slot_id,
            ),
    {
        let mut flag = EventListenerStatus::EventListenerDiff;
        let mut i: usize = 0;
        while i < listener_list.len()
            invariant
                i <= listener_list@.len(),
                forall|j: int| 0 <= j < i ==> listener_list@[j] != *listener,
                (flag == EventListenerStatus::EventListenerSlotidAndEventtypeSame) == has_pair(
                    listener_list@.subrange(0, i as int),
                    listener.event_type,
                    listener.slot_id,
                ),
                flag != EventListenerStatus::EventListenerSame,
            decreases listener_list@.len() - i,
        {
            let listen_item = &listener_list[i];
            if listen_item.slot_id == listener.slot_id
                && listen_item.event_type == listener.event_type
                && listen_item.callback_ref == listener.callback_ref {
                return EventListenerStatus::EventListenerSame;
            }
            if listen_item.slot_id == listener.slot_id
                && listen_item.event_type == listener.event_type {
                flag = EventListenerStatus::EventListenerSlotidAndEventtypeSame;
            }
            proof {
                assert(listener_list@.subrange(0, i + 1) =~= listener_list@.subrange(
                    0,
                    i as int,
                ).push(listener_list@[i as int]));
                lemma_has_pair_push(
                    listener_list@.subrange(0, i as int),
                    listener_list@[i as int],
                    listener.event_type,
                    listener.slot_id,
                );
            }
            i += 1;
        }
        proof {
            assert(listener_list@.subrange(0, listener_list@.len() as int) =~= listener_list@);
        }
        flag
    }

    /// One registration attempt. `slot_valid` is the activation gateway's
    /// verdict on `(listener.slot_id, event_type_flag(listener.event_type))`;
    /// when it is false the registration is rejected as an invalid parameter
    /// and nothing is stored. Otherwise an already-stored record is a no-op
    /// success, a record whose (category, slot) pair is already subscribed is
    /// appended, and the first record of a fresh pair is answered with
    /// `RequiresActivation` and left unstored until `register_activated`.
    pub fn register(&mut self, listener: EventListener, slot_valid: bool) -> (r: Result<
        RegisterOutcome,
        BusinessError,
    >)
        ensures
            !slot_valid ==> final(self)@ == old(self)@ && (r matches Err(e) && e.code
                == INVALID_PARAMETER_CODE && e.message@ == "Invalid parameter value."@),
            slot_valid && contains_listener(old(self)@, listener) ==> final(self)@ == old(self)@
                && r == Ok::<RegisterOutcome, BusinessError>(RegisterOutcome::Duplicate),
            slot_valid && !contains_listener(old(self)@, listener) && has_pair(
                old(self)@,
                listener.event_type,
                listener.slot_id,
            ) ==> final(self)@ == old(self)@.push(listener) && r == Ok::<
                RegisterOutcome,
                BusinessError,
            >(RegisterOutcome::Registered),
            slot_valid && !contains_listener(old(self)@, listener) && !has_pair(
                old(self)@,
                listener.event_type,
                listener.slot_id,
            ) ==> final(self)@ == old(self)@ && r == Ok::<RegisterOutcome, BusinessError>(
                RegisterOutcome::RequiresActivation,
            ),
    {
        if !slot_valid {
            return Err(
                BusinessError::new(
                    INVALID_PARAMETER_CODE,
                    String::from_str("Invalid parameter value."),
                ),
            );
        }
        let register_status = Self::check_event_listener_register(&self.inner, &listener);
        if register_status == EventListenerStatus::EventListenerSame {
            return Ok(RegisterOutcome::Duplicate);
        }
        if register_status != EventListenerStatus::EventListenerSlotidAndEventtypeSame {
            return Ok(RegisterOutcome::RequiresActivation);
        }
        self.inner.push(listener);
        Ok(RegisterOutcome::Registered)
    }

    /// Commits the record of a registration that `register` answered with
    /// `RequiresActivation`, after the activation gateway accepted the
    /// activation. The store is re-checked, so a record that meanwhile became
    /// a duplicate is not stored twice; the result says whether the record
    /// was appended.
    pub fn register_activated(&mut self, listener: EventListener) -> (r: bool)
        ensures
            r == !contains_listener(old(self)@, listener),
            r ==> final(self)@ == old(self)@.push(listener),
            !r ==> final(self)@ == old(self)@,
    {
        let register_status = Self::check_event_listener_register(&self.inner, &listener);
        if register_status == EventListenerStatus::EventListenerSame {
            return false;
        }
        self.inner.push(listener);
        true
    }

    fn contains_slot(slots: &Vec<i32>, slot_id: i32) -> (r: bool)
        ensures
            r == slots@.contains(slot_id),
    {
        let mut i: usize = 0;
        while i < slots.len()
            invariant
                i <= slots@.len(),
                forall|j: int| 0 <= j < i ==> slots@[j] != slot_id,
            decreases slots@.len() - i,
        {
            if slots[i] == slot_id {
                return true;
            }
            i += 1;
        }
        false
    }

    fn check_event_type_exist(
        listener_list: &Vec<EventListener>,
        slot_id: i32,
        event_type: TelephonyUpdateEventType,
    ) -> (r: bool)
        ensures
            r == has_pair(listener_list@, event_type, slot_id),
    {
        let mut i: usize = 0;
        while i < listener_list.len()
            invariant
                i <= listener_list@.len(),
                !has_pair(listener_list@.subrange(0, i as int), event_type, slot_id),
            decreases listener_list@.len() - i,
        {
            let listen_item = &listener_list[i];
            if listen_item.slot_id == slot_id && listen_item.event_type == event_type {
                return true;
            }
            proof {
                assert(listener_list@.subrange(0, i + 1) =~= listener_list@.subrange(
                    0,
                    i as int,
                ).push(listener_list@[i as int]));
                lemma_has_pair_push(
                    listener_list@.subrange(0, i as int),
                    listener_list@[i as int],
                    event_type,
                    slot_id,
                );
            }
            i += 1;
        }
        proof {
            assert(listener_list@.subrange(0, listener_list@.len() as int) =~= listener_list@);
        }
        false
    }

    /// Removes every record of `event_type` whose handle equals
    /// `callback_ref` (every record of the category, when no handle is
    /// given). Removal always takes local effect; the result names, without
    /// repetition, each slot whose last (category, slot) record was removed,
    /// so the caller must ask the activation gateway to deactivate exactly
    /// those pairs. An empty store, or a request matching nothing, removes
    /// nothing and asks for nothing.
    pub fn unregister(
        &mut self,
        event_type: TelephonyUpdateEventType,
        callback_ref: Option<CallbackFlavor>,
    ) -> (r: Vec<i32>)
        ensures
            final(self)@ == surviving(old(self)@, event_type, callback_ref),
            forall|slot_id: i32| #[trigger]
                r@.contains(slot_id) == slot_needs_deactivation(
                    old(self)@,
                    event_type,
                    callback_ref,
                    slot_id,
                ),
            forall|i: int, j: int| 0 <= i < j < r@.len() ==> r@[i] != r@[j],
    {
        let ghost s0 = self@;
        let mut kept: Vec<EventListener> = Vec::new();
        let mut removed_slots: Vec<i32> = Vec::new();
        let n = self.inner.len();
        let mut i: usize = 0;
        while i < n
            invariant
                self.inner@ == s0,
                n == s0.len(),
                i <= n,
                kept@ == surviving(s0.subrange(0, i as int), event_type, callback_ref),
                forall|p: int, q: int|
                    0 <= p < q < removed_slots@.len() ==> removed_slots@[p] != removed_slots@[q],
                forall|slot_id: i32| #[trigger]
                    removed_slots@.contains(slot_id) == removed_slot(
                        s0.subrange(0, i as int),
                        event_type,
                        callback_ref,
                        slot_id,
                    ),
            decreases n - i,
        {
            let listen_item = self.inner[i];
            let remove = listen_item.event_type == event_type && (match callback_ref {
                Option::Some(cb) => listen_item.callback_ref == cb,
                Option::None => true,
            });
            if remove {
                if !Self::contains_slot(&removed_slots, listen_item.slot_id) {
                    proof {
                        lemma_slots_contains_push(removed_slots@, listen_item.slot_id);
                    }
                    removed_slots.push(listen_item.slot_id);
                }
            } else {
                kept.push(listen_item);
            }
            proof {
                let sub0 = s0.subrange(0, i as int);
                let sub1 = s0.subrange(0, i + 1);
                assert(sub1.drop_last() =~= sub0);
                assert(sub1 =~= sub0.push(s0[i as int]));
                lemma_removed_slot_push(sub0, s0[i as int], event_type, callback_ref);
            }
            i += 1;
        }
        proof {
            assert(s0.subrange(0, n as int) =~= s0);
        }
        self.inner = kept;
        let ghost left = surviving(s0, event_type, callback_ref);
        let mut result: Vec<i32> = Vec::new();
        let m = removed_slots.len();
        let mut k: usize = 0;
        while k < m
            invariant
                self.inner@ == left,
                left == surviving(s0, event_type, callback_ref),
                m == removed_slots@.len(),
                k <= m,
                forall|p: int, q: int|
                    0 <= p < q < removed_slots@.len() ==> removed_slots@[p] != removed_slots@[q],
                forall|slot_id: i32| #[trigger]
                    removed_slots@.contains(slot_id) == removed_slot(
                        s0,
                        event_type,
                        callback_ref,
                        slot_id,
                    ),
                forall|p: int, q: int| 0 <= p < q < result@.len() ==> result@[p] != result@[q],
                forall|slot_id: i32| #[trigger]
                    result@.contains(slot_id) == (exists|j: int|
                        0 <= j < k && removed_slots@[j] == slot_id && !has_pair(
                            left,
                            event_type,
                            slot_id,
                        )),
            decreases m - k,
        {
            let slot_id = removed_slots[k];
            if !Self::check_event_type_exist(&self.inner, slot_id, event_type) {
                proof {
                    if result@.contains(slot_id) {
                        let j = choose|j: int|
                            0 <= j < k && removed_slots@[j] == slot_id && !has_pair(
                                left,
                                event_type,
                                slot_id,
                            );
                        assert(removed_slots@[j] == removed_slots@[k as int]);
                    }
                    lemma_slots_contains_push(result@, slot_id);
                }
                result.push(slot_id);
            }
            proof {
                assert forall|slot_id_2: i32| #[trigger]
                    result@.contains(slot_id_2) == (exists|j: int|
                        0 <= j < k + 1 && removed_slots@[j] == slot_id_2 && !has_pair(
                            left,
                            event_type,
                            slot_id_2,
                        )) by {
                    if exists|j: int|
                        0 <= j < k + 1 && removed_slots@[j] == slot_id_2 && !has_pair(
                            left,
                            event_type,
                            slot_id_2,
                        ) {
                        let j = choose|j: int|
                            0 <= j < k + 1 && removed_slots@[j] == slot_id_2 && !has_pair(
                                left,
                                event_type,
                                slot_id_2,
                            );
                        if j < k {
                            assert(exists|j2: int|
                                0 <= j2 < k && removed_slots@[j2] == slot_id_2 && !has_pair(
                                    left,
                                    event_type,
                                    slot_id_2,
                                ));
                        }
                    }
                }
            }
            k += 1;
        }
        proof {
            assert forall|slot_id: i32| #[trigger]
                result@.contains(slot_id) == slot_needs_deactivation(
                    s0,
                    event_type,
                    callback_ref,
                    slot_id,
                ) by {
                if result@.contains(slot_id) {
                    let j = choose|j: int|
                        0 <= j < m && removed_slots@[j] == slot_id && !has_pair(
                            left,
                            event_type,
                            slot_id,
                        );
                    assert(removed_slots@.contains(slot_id));
                }
                if slot_needs_deactivation(s0, event_type, callback_ref, slot_id) {
                    assert(removed_slots@.contains(slot_id));
                    let j = choose|j: int| 0 <= j < m && removed_slots@[j] == slot_id;
                    assert(exists|j2: int|
                        0 <= j2 < m && removed_slots@[j2] == slot_id && !has_pair(
                            left,
                            event_type,
                            slot_id,
                        ));
                }
            }
        }
        result
    }

    fn flavor_matches_exec(
        event_type: TelephonyUpdateEventType,
        callback_ref: CallbackFlavor,
    ) -> (r: bool)
        ensures
            r == flavor_matches(event_type, callback_ref),
    {
        match event_type {
            TelephonyUpdateEventType::EventCellularDataFlowUpdate => matches!(
                callback_ref,
                CallbackFlavor::CellularDataFlowChange(_)
            ),
            TelephonyUpdateEventType::EventIccAccountChange => matches!(
                callback_ref,
                CallbackFlavor::IccAccountInfoChange(_)
            ),
            TelephonyUpdateEventType::EventSimStateUpdate => matches!(
                callback_ref,
                CallbackFlavor::SimStateChange(_)
            ),
            TelephonyUpdateEventType::EventSignalStrengthsUpdate => matches!(
                callback_ref,
                CallbackFlavor::SignalInfoChange(_)
            ),
            TelephonyUpdateEventType::EventCellInfoUpdate => matches!(
                callback_ref,
                CallbackFlavor::CellInfoChange(_)
            ),
            TelephonyUpdateEventType::EventDataConnectionUpdate => matches!(
                callback_ref,
                CallbackFlavor::CellularDataConnectionStateChange(_)
            ),
            TelephonyUpdateEventType::EventNetworkStateUpdate => matches!(
                callback_ref,
                CallbackFlavor::NetworkStateChange(_)
            ),
            TelephonyUpdateEventType::EventCallStateUpdate => matches!(
                callback_ref,
                CallbackFlavor::CallStateChange(_)
            ),
            _ => false,
        }
    }

    fn collect_targets(
        listener_list: &Vec<EventListener>,
        event_type: TelephonyUpdateEventType,
        slot_filter: Option<i32>,
    ) -> (r: Vec<u64>)
        ensures
            r@ == dispatch_targets(listener_list@, event_type, slot_filter),
    {
        let mut targets: Vec<u64> = Vec::new();
        let mut i: usize = 0;
        while i < listener_list.len()
            invariant
                i <= listener_list@.len(),
                targets@ == dispatch_targets(
                    listener_list@.subrange(0, i as int),
                    event_type,
                    slot_filter,
                ),
            decreases listener_list@.len() - i,
        {
            let listen_item = listener_list[i];
            let slot_ok = match slot_filter {
                Option::Some(slot_id) => listen_item.slot_id == slot_id,
                Option::None => true,
            };
            if listen_item.event_type == event_type && slot_ok && Self::flavor_matches_exec(
                event_type,
                listen_item.callback_ref,
            ) {
                targets.push(callback_token(listen_item.callback_ref));
            }
            proof {
                let sub1 = listener_list@.subrange(0, i + 1);
                assert(sub1.drop_last() =~= listener_list@.subrange(0, i as int));
                assert(sub1.last() == listener_list@[i as int]);
            }
            i += 1;
        }
        proof {
            assert(listener_list@.subrange(0, listener_list@.len() as int) =~= listener_list@);
        }
        targets
    }

    /// Fan-out for a data-flow event: the normalized payload, and the tokens
    /// of the callbacks of every record dispatch invokes for
    /// (data-flow category, `slot_id`).
    pub fn execute_on_cellular_data_flow_change(&self, slot_id: i32, param: i32) -> (r: (
        DataFlowType,
        Vec<u64>,
    ))
        ensures
            r.0 == data_flow_type_of(param),
            r.1@ == dispatch_targets(
                self@,
                TelephonyUpdateEventType::EventCellularDataFlowUpdate,
                Some(slot_id),
            ),
    {
        let argv = DataFlowType::from_code(param);
        let targets = Self::collect_targets(
            &self.inner,
            TelephonyUpdateEventType::EventCellularDataFlowUpdate,
            Some(slot_id),
        );
        (argv, targets)
    }

    /// Fan-out for an account-change event. This category carries no payload
    /// and is not slot-scoped: every record of the category is invoked.
    pub fn execute_on_icc_account_info_change(&self) -> (r: Vec<u64>)
        ensures
            r@ == dispatch_targets(
                self@,
                TelephonyUpdateEventType::EventIccAccountChange,
                Option::<i32>::None,
            ),
    {
        Self::collect_targets(
            &self.inner,
            TelephonyUpdateEventType::EventIccAccountChange,
            Option::None,
        )
    }

    /// Fan-out for a SIM-state event: the normalized record, and the tokens
    /// of the callbacks of every record dispatch invokes for
    /// (SIM-state category, `slot_id`).
    pub fn execute_on_sim_state_change(
        &self,
        slot_id: i32,
        card_type: i32,
        state: i32,
        reason: i32,
    ) -> (r: (SimStateData, Vec<u64>))
        ensures
            r.0 == (SimStateData {
                card_type: card_type_of(card_type),
                state: sim_state_of(state),
                reason: lock_reason_of(reason),
            }),
            r.1@ == dispatch_targets(
                self@,
                TelephonyUpdateEventType::EventSimStateUpdate,
                Some(slot_id),
            ),
    {
        let card_type = CardType::from_code(card_type);
        let state = SimState::from_code(state);
        let reason = LockReason::from_code(reason);
        let argv = SimStateData::new(card_type, state, reason);
        let targets = Self::collect_targets(
            &self.inner,
            TelephonyUpdateEventType::EventSimStateUpdate,
            Some(slot_id),
        );
        (argv, targets)
    }

    /// Fan-out for a signal-information event: the normalized measurement
    /// list, and the tokens of the callbacks of every record dispatch invokes
    /// for (signal-strength category, `slot_id`).
    pub fn execute_on_signal_info_change(
        &self,
        slot_id: i32,
        signal_info_list: Vec<SignalInformationAni>,
    ) -> (r: (Vec<SignalInformation>, Vec<u64>))
        ensures
            r.0@ == signal_info_list@.map_values(
                |data: SignalInformationAni| signal_information_of(data),
            ),
            r.1@ == dispatch_targets(
                self@,
                TelephonyUpdateEventType::EventSignalStrengthsUpdate,
                Some(slot_id),
            ),
    {
        let mut argv: Vec<SignalInformation> = Vec::new();
        let mut i: usize = 0;
        while i < signal_info_list.len()
            invariant
                i <= signal_info_list@.len(),
                argv@.len() == i,
                forall|j: int|
                    0 <= j < i ==> argv@[j] == signal_information_of(signal_info_list@[j]),
            decreases signal_info_list@.len() - i,
        {
            let data = signal_info_list[i];
            argv.push(data.normalize());
            i += 1;
        }
        proof {
            assert(argv@ =~= signal_info_list@.map_values(
                |data: SignalInformationAni| signal_information_of(data),
            ));
        }
        let targets = Self::collect_targets(
            &self.inner,
            TelephonyUpdateEventType::EventSignalStrengthsUpdate,
            Some(slot_id),
        );
        (argv, targets)
    }

    /// Fan-out for a cell-information event: the normalized record list, and
    /// the tokens of the callbacks of every record dispatch invokes for
    /// (cell-information category, `slot_id`).
    pub fn execute_on_cell_info_change(
        &self,
        slot_id: i32,
        cell_info_list: Vec<CellInformationAni>,
    ) -> (r: (Vec<CellInformation>, Vec<u64>))
        ensures
            r.0@ == cell_info_list@.map_values(
                |data: CellInformationAni| cell_information_of(data),
            ),
            r.1@ == dispatch_targets(
                self@,
                TelephonyUpdateEventType::EventCellInfoUpdate,
                Some(slot_id),
            ),
    {
        let mut argv: Vec<CellInformation> = Vec::new();
        let mut i: usize = 0;
        while i < cell_info_list.len()
            invariant
                i <= cell_info_list@.len(),
                argv@.len() == i,
                forall|j: int| 0 <= j < i ==> argv@[j] == cell_information_of(cell_info_list@[j]),
            decreases cell_info_list@.len() - i,
        {
            let data = cell_info_list[i];
            argv.push(data.normalize());
            i += 1;
        }
        proof {
            assert(argv@ =~= cell_info_list@.map_values(
                |data: CellInformationAni| cell_information_of(data),
            ));
        }
        let targets = Self::collect_targets(
            &self.inner,
            TelephonyUpdateEventType::EventCellInfoUpdate,
            Some(slot_id),
        );
        (argv, targets)
    }

    /// Fan-out for a data-connection event: the normalized record, and the
    /// tokens of the callbacks of every record dispatch invokes for
    /// (data-connection category, `slot_id`).
    pub fn execute_on_cellular_data_connection_state_change(
        &self,
        slot_id: i32,
        data_state: i32,
        network_type: i32,
    ) -> (r: (DataConnectionStateInfo, Vec<u64>))
        ensures
            r.0 == (DataConnectionStateInfo {
                state: data_connect_state_of(data_state),
                network: radio_technology_of(network_type),
            }),
            r.1@ == dispatch_targets(
                self@,
                TelephonyUpdateEventType::EventDataConnectionUpdate,
                Some(slot_id),
            ),
    {
        let argv = DataConnectionStateInfo::new(data_state, network_type);
        let targets = Self::collect_targets(
            &self.inner,
            TelephonyUpdateEventType::EventDataConnectionUpdate,
            Some(slot_id),
        );
        (argv, targets)
    }

    /// Fan-out for a network-state event: the normalized record, and the
    /// tokens of the callbacks of every record dispatch invokes for
    /// (network-state category, `slot_id`).
    pub fn execute_on_network_state_change(&self, slot_id: i32, network_state: NetworkStateAni)
        -> (r: (NetworkState, Vec<u64>))
        ensures
            r.0 == network_state_of(network_state),
            r.1@ == dispatch_targets(
                self@,
                TelephonyUpdateEventType::EventNetworkStateUpdate,
                Some(slot_id),
            ),
    {
        let argv = network_state.normalize();
        let targets = Self::collect_targets(
            &self.inner,
            TelephonyUpdateEventType::EventNetworkStateUpdate,
            Some(slot_id),
        );
        (argv, targets)
    }

    /// Fan-out for a call-state event: the normalized record, and the tokens
    /// of the callbacks of every record dispatch invokes for
    /// (call-state category, `slot_id`).
    pub fn execute_on_call_state_change(&self, slot_id: i32, call_state: CallStateAni) -> (r: (
        CallStateInfo,
        Vec<u64>,
    ))
        ensures
            r.0 == call_state_info_of(call_state),
            r.1@ == dispatch_targets(
                self@,
                TelephonyUpdateEventType::EventCallStateUpdate,
                Some(slot_id),
            ),
    {
        let argv = call_state.normalize();
        let targets = Self::collect_targets(
            &self.inner,
            TelephonyUpdateEventType::EventCallStateUpdate,
            Some(slot_id),
        );
        (argv, targets)
    }
}

/// Dispatch entry point for a raw data-flow notification.
pub fn on_cellular_data_flow_updated(registry: &Register, slot_id: i32, data_flow_type: i32)
    -> (r: (DataFlowType, Vec<u64>))
    ensures
        r.0 == data_flow_type_of(data_flow_type),
        r.1@ == dispatch_targets(
            registry@,
            TelephonyUpdateEventType::EventCellularDataFlowUpdate,
            Some(slot_id),
        ),
{
    registry.execute_on_cellular_data_flow_change(slot_id, data_flow_type)
}

/// Dispatch entry point for a raw account-change notification.
pub fn on_icc_account_updated(registry: &Register) -> (r: Vec<u64>)
    ensures
        r@ == dispatch_targets(
            registry@,
            TelephonyUpdateEventType::EventIccAccountChange,
            Option::<i32>::None,
        ),
{
    registry.execute_on_icc_account_info_change()
}

/// Dispatch entry point for a raw SIM-state notification.
pub fn on_sim_state_updated(
    registry: &Register,
    slot_id: i32,
    card_type: i32,
    state: i32,
    reason: i32,
) -> (r: (SimStateData, Vec<u64>))
    ensures
        r.0 == (SimStateData {
            card_type: card_type_of(card_type),
            state: sim_state_of(state),
            reason: lock_reason_of(reason),
        }),
        r.1@ == dispatch_targets(
            registry@,
            TelephonyUpdateEventType::EventSimStateUpdate,
            Some(slot_id),
        ),
{
    registry.execute_on_sim_state_change(slot_id, card_type, state, reason)
}

/// Dispatch entry point for a raw signal-information notification.
pub fn on_signal_info_updated(
    registry: &Register,
    slot_id: i32,
    signal_info_list: Vec<SignalInformationAni>,
) -> (r: (Vec<SignalInformation>, Vec<u64>))
    ensures
        r.0@ == signal_info_list@.map_values(
            |data: SignalInformationAni| signal_information_of(data),
        ),
        r.1@ == dispatch_targets(
            registry@,
            TelephonyUpdateEventType::EventSignalStrengthsUpdate,
            Some(slot_id),
        ),
{
    registry.execute_on_signal_info_change(slot_id, signal_info_list)
}

/// Dispatch entry point for a raw cell-information notification.
pub fn on_cell_info_updated(
    registry: &Register,
    slot_id: i32,
    cell_info_list: Vec<CellInformationAni>,
) -> (r: (Vec<CellInformation>, Vec<u64>))
    ensures
        r.0@ == cell_info_list@.map_values(|data: CellInformationAni| cell_information_of(data)),
        r.1@ == dispatch_targets(
            registry@,
            TelephonyUpdateEventType::EventCellInfoUpdate,
            Some(slot_id),
        ),
{
    registry.execute_on_cell_info_change(slot_id, cell_info_list)
}

/// Dispatch entry point for a raw data-connection notification.
pub fn on_cellular_data_connect_state_updated(
    registry: &Register,
    slot_id: i32,
    data_state: i32,
    network_type: i32,
) -> (r: (DataConnectionStateInfo, Vec<u64>))
    ensures
        r.0 == (DataConnectionStateInfo {
            state: data_connect_state_of(data_state),
            network: radio_technology_of(network_type),
        }),
        r.1@ == dispatch_targets(
            registry@,
            TelephonyUpdateEventType::EventDataConnectionUpdate,
            Some(slot_id),
        ),
{
    registry.execute_on_cellular_data_connection_state_change(slot_id, data_state, network_type)
}

/// Dispatch entry point for a raw network-state notification.
pub fn on_network_state_updated(registry: &Register, slot_id: i32, network_state: NetworkStateAni)
    -> (r: (NetworkState, Vec<u64>))
    ensures
        r.0 == network_state_of(network_state),
        r.1@ == dispatch_targets(
            registry@,
            TelephonyUpdateEventType::EventNetworkStateUpdate,
            Some(slot_id),
        ),
{
    registry.execute_on_network_state_change(slot_id, network_state)
}

/// Dispatch entry point for a raw call-state notification.
pub fn on_call_state_updated(registry: &Register, slot_id: i32, call_state: CallStateAni) -> (r: (
    CallStateInfo,
    Vec<u64>,
))
    ensures
        r.0 == call_state_info_of(call_state),
        r.1@ == dispatch_targets(
            registry@,
            TelephonyUpdateEventType::EventCallStateUpdate,
            Some(slot_id),
        ),
{
    registry.execute_on_call_state_change(slot_id, call_state)
}

} // verus!
