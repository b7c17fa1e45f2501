//! Register/unregister reconciliation: idempotent registration, the
//! activation and deactivation edges, empty unsubscription, and the
//! selectivity of targeted versus untargeted unsubscription.

use telephony_observer::register::{
    CallbackFlavor, EventListener, Register, RegisterOutcome, TelephonyUpdateEventType,
};
use telephony_observer::wrapper::INVALID_PARAMETER_CODE;

fn sim_listener(slot_id: i32, token: u64) -> EventListener {
    EventListener::new(
        TelephonyUpdateEventType::EventSimStateUpdate,
        slot_id,
        CallbackFlavor::SimStateChange(token),
    )
}

#[test]
fn register_rejects_invalid_slot() {
    let mut reg = Register::new();
    let err = reg.register(sim_listener(-7, 1), false).unwrap_err();
    assert_eq!(err.code, INVALID_PARAMETER_CODE);
    assert_eq!(err.message, "Invalid parameter value.");
    // nothing was stored: the pair is still fresh
    let outcome = reg.register(sim_listener(-7, 1), true).unwrap();
    assert_eq!(outcome, RegisterOutcome::RequiresActivation);
}

#[test]
fn register_is_idempotent() {
    let mut reg = Register::new();
    let listener = sim_listener(0, 11);
    assert_eq!(reg.register(listener, true).unwrap(), RegisterOutcome::RequiresActivation);
    assert!(reg.register_activated(listener));
    // the same triple again: success, nothing stored twice
    assert_eq!(reg.register(listener, true).unwrap(), RegisterOutcome::Duplicate);
    assert!(!reg.register_activated(listener));
    // exactly one matching record is invoked on dispatch
    let (_, targets) = reg.execute_on_sim_state_change(0, 20, 4, 0);
    assert_eq!(targets, vec![11]);
}

#[test]
fn first_registration_activates_second_does_not() {
    let mut reg = Register::new();
    // fresh (category, slot): exactly one activation request
    assert_eq!(reg.register(sim_listener(0, 1), true).unwrap(), RegisterOutcome::RequiresActivation);
    assert!(reg.register_activated(sim_listener(0, 1)));
    // different handle, same pair: no further activation request
    assert_eq!(reg.register(sim_listener(0, 2), true).unwrap(), RegisterOutcome::Registered);
    // same category on another slot is a fresh pair again
    assert_eq!(reg.register(sim_listener(3, 1), true).unwrap(), RegisterOutcome::RequiresActivation);
}

#[test]
fn removing_all_but_last_handle_deactivates_nothing() {
    let mut reg = Register::new();
    assert_eq!(reg.register(sim_listener(0, 1), true).unwrap(), RegisterOutcome::RequiresActivation);
    assert!(reg.register_activated(sim_listener(0, 1)));
    assert_eq!(reg.register(sim_listener(0, 2), true).unwrap(), RegisterOutcome::Registered);
    assert_eq!(reg.register(sim_listener(0, 3), true).unwrap(), RegisterOutcome::Registered);
    // two of three handles leave: a record remains, so no deactivation
    let slots = reg.unregister(
        TelephonyUpdateEventType::EventSimStateUpdate,
        Some(CallbackFlavor::SimStateChange(1)),
    );
    assert!(slots.is_empty());
    let slots = reg.unregister(
        TelephonyUpdateEventType::EventSimStateUpdate,
        Some(CallbackFlavor::SimStateChange(2)),
    );
    assert!(slots.is_empty());
    // the last handle leaves: exactly one deactivation, of the pair's slot
    let slots = reg.unregister(
        TelephonyUpdateEventType::EventSimStateUpdate,
        Some(CallbackFlavor::SimStateChange(3)),
    );
    assert_eq!(slots, vec![0]);
}

#[test]
fn empty_unregister_is_safe() {
    let mut reg = Register::new();
    // empty store: success, no gateway call
    let slots = reg.unregister(TelephonyUpdateEventType::EventSimStateUpdate, None);
    assert!(slots.is_empty());
    // a category with no records, beside another with some: still a no-op
    assert_eq!(reg.register(sim_listener(0, 1), true).unwrap(), RegisterOutcome::RequiresActivation);
    assert!(reg.register_activated(sim_listener(0, 1)));
    let slots = reg.unregister(TelephonyUpdateEventType::EventCallStateUpdate, None);
    assert!(slots.is_empty());
    // a handle that was never registered: removes zero records
    let slots = reg.unregister(
        TelephonyUpdateEventType::EventSimStateUpdate,
        Some(CallbackFlavor::SimStateChange(99)),
    );
    assert!(slots.is_empty());
    let (_, targets) = reg.execute_on_sim_state_change(0, 20, 4, 0);
    assert_eq!(targets, vec![1]);
}

#[test]
fn targeted_unregister_removes_only_the_target() {
    let mut reg = Register::new();
    let a = sim_listener(0, 1);
    let b = sim_listener(1, 2);
    assert_eq!(reg.register(a, true).unwrap(), RegisterOutcome::RequiresActivation);
    assert!(reg.register_activated(a));
    assert_eq!(reg.register(b, true).unwrap(), RegisterOutcome::RequiresActivation);
    assert!(reg.register_activated(b));
    // unsubscribe(B): only records whose handle equals B leave
    let slots = reg.unregister(
        TelephonyUpdateEventType::EventSimStateUpdate,
        Some(CallbackFlavor::SimStateChange(2)),
    );
    assert_eq!(slots, vec![1]);
    let (_, targets_slot0) = reg.execute_on_sim_state_change(0, 20, 4, 0);
    let (_, targets_slot1) = reg.execute_on_sim_state_change(1, 20, 4, 0);
    assert_eq!(targets_slot0, vec![1]);
    assert!(targets_slot1.is_empty());
}

#[test]
fn untargeted_unregister_removes_whole_category() {
    let mut reg = Register::new();
    let a = sim_listener(0, 1);
    let b = sim_listener(1, 2);
    let other = EventListener::new(
        TelephonyUpdateEventType::EventCallStateUpdate,
        0,
        CallbackFlavor::CallStateChange(3),
    );
    for listener in [a, b, other] {
        assert_eq!(reg.register(listener, true).unwrap(), RegisterOutcome::RequiresActivation);
        assert!(reg.register_activated(listener));
    }
    // unsubscribe(): every record of the category leaves, across all slots,
    // and each emptied slot is named once for deactivation
    let mut slots = reg.unregister(TelephonyUpdateEventType::EventSimStateUpdate, None);
    slots.sort();
    assert_eq!(slots, vec![0, 1]);
    let (_, targets_slot0) = reg.execute_on_sim_state_change(0, 20, 4, 0);
    let (_, targets_slot1) = reg.execute_on_sim_state_change(1, 20, 4, 0);
    assert!(targets_slot0.is_empty());
    assert!(targets_slot1.is_empty());
    // the other category is untouched
    let (_, call_targets) = reg.execute_on_call_state_change(
        0,
        telephony_observer::wrapper::CallStateAni { state: 1, tele_number: String::new() },
    );
    assert_eq!(call_targets, vec![3]);
}

#[test]
fn deactivation_slots_are_distinct() {
    let mut reg = Register::new();
    // two handles on each of two slots, all of one category
    for (slot_id, token) in [(0, 1), (0, 2), (4, 3), (4, 4)] {
        let listener = sim_listener(slot_id, token);
        match reg.register(listener, true).unwrap() {
            RegisterOutcome::RequiresActivation => {
                assert!(reg.register_activated(listener));
            }
            outcome => assert_eq!(outcome, RegisterOutcome::Registered),
        }
    }
    let mut slots = reg.unregister(TelephonyUpdateEventType::EventSimStateUpdate, None);
    slots.sort();
    assert_eq!(slots, vec![0, 4]);
}
