//! Dispatch fan-out: slot isolation, payload normalization on the way to the
//! callbacks, the account-change category's category-wide fan-out, and the
//! skipping of a record whose handle variant does not match its category.

use telephony_observer::bridge::{
    CallState, CardType, DataConnectState, DataFlowType, LockReason, NetworkType, NsaState,
    RadioTechnology, RegState, SimState, SimStateData,
};
use telephony_observer::register::{
    on_call_state_updated, on_cell_info_updated, on_cellular_data_connect_state_updated,
    on_cellular_data_flow_updated, on_icc_account_updated, on_network_state_updated,
    on_signal_info_updated, on_sim_state_updated, CallbackFlavor, EventListener, Register,
    RegisterOutcome, TelephonyUpdateEventType,
};
use telephony_observer::wrapper::{CallStateAni, CellInformationAni, NetworkStateAni, SignalInformationAni};

fn subscribe(reg: &mut Register, listener: EventListener) {
    match reg.register(listener, true).unwrap() {
        RegisterOutcome::RequiresActivation => {
            assert!(reg.register_activated(listener));
        }
        outcome => assert_eq!(outcome, RegisterOutcome::Registered),
    }
}

#[test]
fn sim_state_round_trip() {
    // subscribe(slot=0, cb1) for the SIM-state category; the pair is fresh,
    // so the gateway is asked to activate (0, 0x20) exactly once
    let mut reg = Register::new();
    let cb1 = EventListener::new(
        TelephonyUpdateEventType::EventSimStateUpdate,
        0,
        CallbackFlavor::SimStateChange(1),
    );
    assert_eq!(reg.register(cb1, true).unwrap(), RegisterOutcome::RequiresActivation);
    assert_eq!(cb1.event_type.to_u32(), 0x20);
    assert!(reg.register_activated(cb1));
    // the raw notification reaches cb1 once, normalized
    let (data, targets) = on_sim_state_updated(&reg, 0, 20, 4, 0);
    assert_eq!(targets, vec![1]);
    assert_eq!(
        data,
        SimStateData {
            card_type: CardType::SingleModeUsimCard,
            state: SimState::SimStateReady,
            reason: LockReason::SimNone,
        }
    );
}

#[test]
fn call_state_dispatch_is_slot_scoped() {
    // cb2 at the default slot 0, cb3 at slot 1, same category
    let mut reg = Register::new();
    subscribe(
        &mut reg,
        EventListener::new(
            TelephonyUpdateEventType::EventCallStateUpdate,
            telephony_observer::bridge::DEFAULT_SIM_SLOT_ID,
            CallbackFlavor::CallStateChange(2),
        ),
    );
    subscribe(
        &mut reg,
        EventListener::new(
            TelephonyUpdateEventType::EventCallStateUpdate,
            1,
            CallbackFlavor::CallStateChange(3),
        ),
    );
    // a call-state update for slot 1 invokes only cb3
    let raw = CallStateAni { state: 1, tele_number: "123".to_string() };
    let (info, targets) = on_call_state_updated(&reg, 1, raw);
    assert_eq!(targets, vec![3]);
    assert_eq!(info.state, CallState::CallStateRinging);
    assert_eq!(info.tele_number, "123");
}

#[test]
fn dispatch_ignores_other_categories_and_slots() {
    let mut reg = Register::new();
    subscribe(
        &mut reg,
        EventListener::new(
            TelephonyUpdateEventType::EventSimStateUpdate,
            1,
            CallbackFlavor::SimStateChange(10),
        ),
    );
    subscribe(
        &mut reg,
        EventListener::new(
            TelephonyUpdateEventType::EventSimStateUpdate,
            2,
            CallbackFlavor::SimStateChange(20),
        ),
    );
    subscribe(
        &mut reg,
        EventListener::new(
            TelephonyUpdateEventType::EventCallStateUpdate,
            1,
            CallbackFlavor::CallStateChange(30),
        ),
    );
    // (category=SIM state, slot=1): neither (SIM state, 2) nor (call state, 1)
    let (_, targets) = on_sim_state_updated(&reg, 1, 20, 4, 0);
    assert_eq!(targets, vec![10]);
}

#[test]
fn mismatched_handle_variant_is_skipped() {
    // a record whose handle variant does not correspond to its category is an
    // internal inconsistency: dispatch skips it instead of invoking it
    let mut reg = Register::new();
    subscribe(
        &mut reg,
        EventListener::new(
            TelephonyUpdateEventType::EventSimStateUpdate,
            0,
            CallbackFlavor::CallStateChange(9),
        ),
    );
    let (_, targets) = on_sim_state_updated(&reg, 0, 20, 4, 0);
    assert!(targets.is_empty());
}

#[test]
fn account_change_dispatch_is_category_wide() {
    // the account-change category carries no slot scope: records on every
    // slot are invoked
    let mut reg = Register::new();
    subscribe(
        &mut reg,
        EventListener::new(
            TelephonyUpdateEventType::EventIccAccountChange,
            0,
            CallbackFlavor::IccAccountInfoChange(1),
        ),
    );
    subscribe(
        &mut reg,
        EventListener::new(
            TelephonyUpdateEventType::EventIccAccountChange,
            5,
            CallbackFlavor::IccAccountInfoChange(2),
        ),
    );
    let targets = on_icc_account_updated(&reg);
    assert_eq!(targets, vec![1, 2]);
}

#[test]
fn data_flow_dispatch_normalizes_payload() {
    let mut reg = Register::new();
    subscribe(
        &mut reg,
        EventListener::new(
            TelephonyUpdateEventType::EventCellularDataFlowUpdate,
            0,
            CallbackFlavor::CellularDataFlowChange(7),
        ),
    );
    let (flow, targets) = on_cellular_data_flow_updated(&reg, 0, 3);
    assert_eq!(targets, vec![7]);
    assert_eq!(flow, DataFlowType::DataFlowTypeUpDown);
    // unknown raw code defaults rather than failing
    let (flow, _) = on_cellular_data_flow_updated(&reg, 0, 99);
    assert_eq!(flow, DataFlowType::DataFlowTypeNone);
}

#[test]
fn signal_info_dispatch_normalizes_each_record() {
    let mut reg = Register::new();
    subscribe(
        &mut reg,
        EventListener::new(
            TelephonyUpdateEventType::EventSignalStrengthsUpdate,
            0,
            CallbackFlavor::SignalInfoChange(4),
        ),
    );
    let raw = vec![
        SignalInformationAni { signal_type: 5, signal_level: 4, d_bm: -85 },
        SignalInformationAni { signal_type: 99, signal_level: 0, d_bm: -120 },
    ];
    let (infos, targets) = on_signal_info_updated(&reg, 0, raw);
    assert_eq!(targets, vec![4]);
    assert_eq!(infos.len(), 2);
    assert_eq!(infos[0].signal_type, NetworkType::NetworkTypeLte);
    assert_eq!(infos[0].signal_level, 4);
    assert_eq!(infos[0].d_bm, -85);
    assert_eq!(infos[1].signal_type, NetworkType::NetworkTypeUnknown);
}

#[test]
fn cell_info_dispatch_normalizes_nested_records() {
    let mut reg = Register::new();
    subscribe(
        &mut reg,
        EventListener::new(
            TelephonyUpdateEventType::EventCellInfoUpdate,
            2,
            CallbackFlavor::CellInfoChange(5),
        ),
    );
    let raw = vec![CellInformationAni {
        network_type: 6,
        signal_information: SignalInformationAni { signal_type: 6, signal_level: 3, d_bm: -90 },
    }];
    let (cells, targets) = on_cell_info_updated(&reg, 2, raw);
    assert_eq!(targets, vec![5]);
    assert_eq!(cells.len(), 1);
    assert_eq!(cells[0].network_type, NetworkType::NetworkTypeNr);
    assert_eq!(cells[0].signal_information.signal_type, NetworkType::NetworkTypeNr);
    assert_eq!(cells[0].signal_information.signal_level, 3);
}

#[test]
fn data_connection_dispatch_normalizes_payload() {
    let mut reg = Register::new();
    subscribe(
        &mut reg,
        EventListener::new(
            TelephonyUpdateEventType::EventDataConnectionUpdate,
            0,
            CallbackFlavor::CellularDataConnectionStateChange(6),
        ),
    );
    let (info, targets) = on_cellular_data_connect_state_updated(&reg, 0, 2, 9);
    assert_eq!(targets, vec![6]);
    assert_eq!(info.state, DataConnectState::DataStateConnected);
    assert_eq!(info.network, RadioTechnology::RadioTechnologyLte);
}

#[test]
fn network_state_dispatch_normalizes_payload() {
    let mut reg = Register::new();
    subscribe(
        &mut reg,
        EventListener::new(
            TelephonyUpdateEventType::EventNetworkStateUpdate,
            0,
            CallbackFlavor::NetworkStateChange(8),
        ),
    );
    let raw = NetworkStateAni {
        long_operator_name: "Example Mobile".to_string(),
        short_operator_name: "Example".to_string(),
        plmn_numeric: "00101".to_string(),
        is_roaming: true,
        reg_state: 1,
        cfg_tech: 12,
        nsa_state: 6,
        is_emergency: false,
    };
    let (state, targets) = on_network_state_updated(&reg, 0, raw);
    assert_eq!(targets, vec![8]);
    assert_eq!(state.long_operator_name, "Example Mobile");
    assert_eq!(state.short_operator_name, "Example");
    assert_eq!(state.plmn_numeric, "00101");
    assert!(state.is_roaming);
    assert_eq!(state.reg_state, RegState::RegStateInService);
    assert_eq!(state.cfg_tech, RadioTechnology::RadioTechnologyNr);
    assert_eq!(state.nsa_state, NsaState::NsaStateSaAttached);
    assert!(!state.is_emergency);
}

#[test]
fn dispatch_with_no_listeners_invokes_nothing() {
    let reg = Register::new();
    let (_, targets) = on_sim_state_updated(&reg, 0, 20, 4, 0);
    assert!(targets.is_empty());
    assert!(on_icc_account_updated(&reg).is_empty());
}
