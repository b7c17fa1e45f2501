//! Payload data model: one closed enumeration per notification category,
//! each with a total, unknown-defaulting reading of the raw integer code the
//! notification source delivers, and the composite records that dispatch
//! hands to the callback handles.

use vstd::prelude::*;

verus! {

/// Slot identifier used when a caller does not name a slot explicitly.
pub const DEFAULT_SIM_SLOT_ID: i32 = 0;

/// Options record of the caller-facing subscription surface: the slot a
/// subscription is scoped to.
#[derive(Debug, Clone, Copy, PartialEq, Eq, Structural)]
pub struct ObserverOptions {
    pub slot_id: i32,
}

#[derive(Debug, Clone, Copy, PartialEq, Eq, Structural)]
pub enum DataFlowType {
    DataFlowTypeNone,
    DataFlowTypeDown,
    DataFlowTypeUp,
    DataFlowTypeUpDown,
    DataFlowTypeDormant,
}

/// Reading of a raw data-flow code; unknown codes default to `DataFlowTypeNone`.
pub open spec fn data_flow_type_of(value: i32) -> DataFlowType {
    if value == 1 {
        DataFlowType::DataFlowTypeDown
    } else if value == 2 {
        DataFlowType::DataFlowTypeUp
    } else if value == 3 {
        DataFlowType::DataFlowTypeUpDown
    } else if value == 4 {
        DataFlowType::DataFlowTypeDormant
    } else {
        DataFlowType::DataFlowTypeNone
    }
}

impl DataFlowType {
    pub fn from_code(value: i32) -> (r: Self)
        ensures
            r == data_flow_type_of(value),
    {
        match value {
            1 => DataFlowType::DataFlowTypeDown,
            2 => DataFlowType::DataFlowTypeUp,
            3 => DataFlowType::DataFlowTypeUpDown,
            4 => DataFlowType::DataFlowTypeDormant,
            _ => DataFlowType::DataFlowTypeNone,
        }
    }
}

#[derive(Debug, Clone, Copy, PartialEq, Eq, Structural)]
pub enum SimState {
    SimStateUnknown,
    SimStateNotPresent,
    SimStateLocked,
    SimStateNotReady,
    SimStateReady,
    SimStateLoaded,
}

/// Reading of a raw SIM-state code; unknown codes default to `SimStateUnknown`.
pub open spec fn sim_state_of(value: i32) -> SimState {
    if value == 1 {
        SimState::SimStateNotPresent
    } else if value == 2 {
        SimState::SimStateLocked
    } else if value == 3 {
        SimState::SimStateNotReady
    } else if value == 4 {
        SimState::SimStateReady
    } else if value == 5 {
        SimState::SimStateLoaded
    } else {
        SimState::SimStateUnknown
    }
}

impl SimState {
    pub fn from_code(value: i32) -> (r: Self)
        ensures
            r == sim_state_of(value),
    {
        match value {
            1 => SimState::SimStateNotPresent,
            2 => SimState::SimStateLocked,
            3 => SimState::SimStateNotReady,
            4 => SimState::SimStateReady,
            5 => SimState::SimStateLoaded,
            _ => SimState::SimStateUnknown,
        }
    }
}

#[derive(Debug, Clone, Copy, PartialEq, Eq, Structural)]
pub enum LockReason {
    SimNone,
    SimPin,
    SimPuk,
    SimPnPin,
    SimPnPuk,
    SimPuPin,
    SimPuPuk,
    SimPpPin,
    SimPpPuk,
    SimPcPin,
    SimPcPuk,
    SimSimPin,
    SimSimPuk,
}

/// Reading of a raw lock-reason code; unknown codes default to `SimNone`.
pub open spec fn lock_reason_of(value: i32) -> LockReason {
    if value == 1 {
        LockReason::SimPin
    } else if value == 2 {
        LockReason::SimPuk
    } else if value == 3 {
        LockReason::SimPnPin
    } else if value == 4 {
        LockReason::SimPnPuk
    } else if value == 5 {
        LockReason::SimPuPin
    } else if value == 6 {
        LockReason::SimPuPuk
    } else if value == 7 {
        LockReason::SimPpPin
    } else if value == 8 {
        LockReason::SimPpPuk
    } else if value == 9 {
        LockReason::SimPcPin
    } else if value == 10 {
        LockReason::SimPcPuk
    } else if value == 11 {
        LockReason::SimSimPin
    } else if value == 12 {
        LockReason::SimSimPuk
    } else {
        LockReason::SimNone
    }
}

impl LockReason {
    pub fn from_code(value: i32) -> (r: Self)
        ensures
            r == lock_reason_of(value),
    {
        match value {
            1 => LockReason::SimPin,
            2 => LockReason::SimPuk,
            3 => LockReason::SimPnPin,
            4 => LockReason::SimPnPuk,
            5 => LockReason::SimPuPin,
            6 => LockReason::SimPuPuk,
            7 => LockReason::SimPpPin,
            8 => LockReason::SimPpPuk,
            9 => LockReason::SimPcPin,
            10 => LockReason::SimPcPuk,
            11 => LockReason::SimSimPin,
            12 => LockReason::SimSimPuk,
            _ => LockReason::SimNone,
        }
    }
}

#[derive(Debug, Clone, Copy, PartialEq, Eq, Structural)]
pub enum CardType {
    UnknownCard,
    SingleModeSimCard,
    SingleModeUsimCard,
    SingleModeRuimCard,
    DualModeCgCard,
    CtNationalRoamingCard,
    CuDualModeCard,
    DualModeTelecomLteCard,
    DualModeUgCard,
    SingleModeIsimCard,
}

/// Reading of a raw card-type code; unknown codes default to `UnknownCard`.
pub open spec fn card_type_of(value: i32) -> CardType {
    if value == 10 {
        CardType::SingleModeSimCard
    } else if value == 20 {
        CardType::SingleModeUsimCard
    } else if value == 30 {
        CardType::SingleModeRuimCard
    } else if value == 40 {
        CardType::DualModeCgCard
    } else if value == 41 {
        CardType::CtNationalRoamingCard
    } else if value == 42 {
        CardType::CuDualModeCard
    } else if value == 43 {
        CardType::DualModeTelecomLteCard
    } else if value == 50 {
        CardType::DualModeUgCard
    } else if value == 60 {
        CardType::SingleModeIsimCard
    } else {
        CardType::UnknownCard
    }
}

impl CardType {
    pub fn from_code(value: i32) -> (r: Self)
        ensures
            r == card_type_of(value),
    {
        match value {
            10 => CardType::SingleModeSimCard,
            20 => CardType::SingleModeUsimCard,
            30 => CardType::SingleModeRuimCard,
            40 => CardType::DualModeCgCard,
            41 => CardType::CtNationalRoamingCard,
            42 => CardType::CuDualModeCard,
            43 => CardType::DualModeTelecomLteCard,
            50 => CardType::DualModeUgCard,
            60 => CardType::SingleModeIsimCard,
            _ => CardType::UnknownCard,
        }
    }
}

/// SIM-state record handed to a SIM-state callback.
#[derive(Debug, Clone, Copy, PartialEq, Eq, Structural)]
pub struct SimStateData {
    pub card_type: CardType,
    pub state: SimState,
    pub reason: LockReason,
}

impl SimStateData {
    pub fn new(card_type: CardType, state: SimState, reason: LockReason) -> (r: Self)
        ensures
            r == (SimStateData { card_type, state, reason }),
    {
        Self { card_type, state, reason }
    }
}

#[derive(Debug, Clone, Copy, PartialEq, Eq, Structural)]
pub enum NetworkType {
    NetworkTypeUnknown,
    NetworkTypeGsm,
    NetworkTypeCdma,
    NetworkTypeWcdma,
    NetworkTypeTdscdma,
    NetworkTypeLte,
    NetworkTypeNr,
}

/// Reading of a raw network-type code; unknown codes default to
/// `NetworkTypeUnknown`.
pub open spec fn network_type_of(value: i32) -> NetworkType {
    if value == 1 {
        NetworkType::NetworkTypeGsm
    } else if value == 2 {
        NetworkType::NetworkTypeCdma
    } else if value == 3 {
        NetworkType::NetworkTypeWcdma
    } else if value == 4 {
        NetworkType::NetworkTypeTdscdma
    } else if value == 5 {
        NetworkType::NetworkTypeLte
    } else if value == 6 {
        NetworkType::NetworkTypeNr
    } else {
        NetworkType::NetworkTypeUnknown
    }
}

impl NetworkType {
    pub fn from_code(value: i32) -> (r: Self)
        ensures
            r == network_type_of(value),
    {
        match value {
            1 => NetworkType::NetworkTypeGsm,
            2 => NetworkType::NetworkTypeCdma,
            3 => NetworkType::NetworkTypeWcdma,
            4 => NetworkType::NetworkTypeTdscdma,
            5 => NetworkType::NetworkTypeLte,
            6 => NetworkType::NetworkTypeNr,
            _ => NetworkType::NetworkTypeUnknown,
        }
    }
}

/// One signal-strength measurement handed to a signal-information callback.
#[derive(Debug, Clone, Copy, PartialEq, Eq, Structural)]
pub struct SignalInformation {
    pub signal_type: NetworkType,
    pub signal_level: i32,
    pub d_bm: i32,
}

impl SignalInformation {
    pub fn new(signal_type: i32, signal_level: i32, d_bm: i32) -> (r: Self)
        ensures
            r == (SignalInformation {
                signal_type: network_type_of(signal_type),
                signal_level,
                d_bm,
            }),
    {
        Self { signal_type: NetworkType::from_code(signal_type), signal_level, d_bm }
    }
}

/// One cell-topology record handed to a cell-information callback.
#[derive(Debug, Clone, Copy, PartialEq, Eq, Structural)]
pub struct CellInformation {
    pub network_type: NetworkType,
    pub signal_information: SignalInformation,
}

impl CellInformation {
    pub fn new(network_type: i32, signal_information: SignalInformation) -> (r: Self)
        ensures
            r == (CellInformation {
                network_type: network_type_of(network_type),
                signal_information,
            }),
    {
        Self { network_type: NetworkType::from_code(network_type), signal_information }
    }
}

#[derive(Debug, Clone, Copy, PartialEq, Eq, Structural)]
pub enum DataConnectState {
    DataStateUnknown,
    DataStateDisconnected,
    DataStateConnecting,
    DataStateConnected,
    DataStateSuspended,
}

/// Reading of a raw data-connection-state code; unknown codes default to
/// `DataStateUnknown`.
pub open spec fn data_connect_state_of(value: i32) -> DataConnectState {
    if value == 0 {
        DataConnectState::DataStateDisconnected
    } else if value == 1 {
        DataConnectState::DataStateConnecting
    } else if value == 2 {
        DataConnectState::DataStateConnected
    } else if value == 3 {
        DataConnectState::DataStateSuspended
    } else {
        DataConnectState::DataStateUnknown
    }
}

impl DataConnectState {
    pub fn from_code(value: i32) -> (r: Self)
        ensures
            r == data_connect_state_of(value),
    {
        match value {
            0 => DataConnectState::DataStateDisconnected,
            1 => DataConnectState::DataStateConnecting,
            2 => DataConnectState::DataStateConnected,
            3 => DataConnectState::DataStateSuspended,
            _ => DataConnectState::DataStateUnknown,
        }
    }
}

#[derive(Debug, Clone, Copy, PartialEq, Eq, Structural)]
pub enum RadioTechnology {
    RadioTechnologyUnknown,
    RadioTechnologyGsm,
    RadioTechnology1xrtt,
    RadioTechnologyWcdma,
    RadioTechnologyHspa,
    RadioTechnologyHspap,
    RadioTechnologyTdScdma,
    RadioTechnologyEvdo,
    RadioTechnologyEhrpd,
    RadioTechnologyLte,
    RadioTechnologyLteCa,
    RadioTechnologyIwlan,
    RadioTechnologyNr,
}

/// Reading of a raw radio-technology code; unknown codes default to
/// `RadioTechnologyUnknown`.
pub open spec fn radio_technology_of(value: i32) -> RadioTechnology {
    if value == 1 {
        RadioTechnology::RadioTechnologyGsm
    } else if value == 2 {
        RadioTechnology::RadioTechnology1xrtt
    } else if value == 3 {
        RadioTechnology::RadioTechnologyWcdma
    } else if value == 4 {
        RadioTechnology::RadioTechnologyHspa
    } else if value == 5 {
        RadioTechnology::RadioTechnologyHspap
    } else if value == 6 {
        RadioTechnology::RadioTechnologyTdScdma
    } else if value == 7 {
        RadioTechnology::RadioTechnologyEvdo
    } else if value == 8 {
        RadioTechnology::RadioTechnologyEhrpd
    } else if value == 9 {
        RadioTechnology::RadioTechnologyLte
    } else if value == 10 {
        RadioTechnology::RadioTechnologyLteCa
    } else if value == 11 {
        RadioTechnology::RadioTechnologyIwlan
    } else if value == 12 {
        RadioTechnology::RadioTechnologyNr
    } else {
        RadioTechnology::RadioTechnologyUnknown
    }
}

impl RadioTechnology {
    pub fn from_code(value: i32) -> (r: Self)
        ensures
            r == radio_technology_of(value),
    {
        match value {
            1 => RadioTechnology::RadioTechnologyGsm,
            2 => RadioTechnology::RadioTechnology1xrtt,
            3 => RadioTechnology::RadioTechnologyWcdma,
            4 => RadioTechnology::RadioTechnologyHspa,
            5 => RadioTechnology::RadioTechnologyHspap,
            6 => RadioTechnology::RadioTechnologyTdScdma,
            7 => RadioTechnology::RadioTechnologyEvdo,
            8 => RadioTechnology::RadioTechnologyEhrpd,
            9 => RadioTechnology::RadioTechnologyLte,
            10 => RadioTechnology::RadioTechnologyLteCa,
            11 => RadioTechnology::RadioTechnologyIwlan,
            12 => RadioTechnology::RadioTechnologyNr,
            _ => RadioTechnology::RadioTechnologyUnknown,
        }
    }
}

/// Data-connection record handed to a data-connection-state callback.
#[derive(Debug, Clone, Copy, PartialEq, Eq, Structural)]
pub struct DataConnectionStateInfo {
    pub state: DataConnectState,
    pub network: RadioTechnology,
}

impl DataConnectionStateInfo {
    pub fn new(state: i32, network: i32) -> (r: Self)
        ensures
            r == (DataConnectionStateInfo {
                state: data_connect_state_of(state),
                network: radio_technology_of(network),
            }),
    {
        Self {
            state: DataConnectState::from_code(state),
            network: RadioTechnology::from_code(network),
        }
    }
}

#[derive(Debug, Clone, Copy, PartialEq, Eq, Structural)]
pub enum RegState {
    RegStateNoService,
    RegStateInService,
    RegStateEmergencyCallOnly,
    RegStatePowerOff,
}

/// Reading of a raw registration-state code; unknown codes default to
/// `RegStateNoService`.
pub open spec fn reg_state_of(value: i32) -> RegState {
    if value == 1 {
        RegState::RegStateInService
    } else if value == 2 {
        RegState::RegStateEmergencyCallOnly
    } else if value == 3 {
        RegState::RegStatePowerOff
    } else {
        RegState::RegStateNoService
    }
}

impl RegState {
    pub fn from_code(value: i32) -> (r: Self)
        ensures
            r == reg_state_of(value),
    {
        match value {
            1 => RegState::RegStateInService,
            2 => RegState::RegStateEmergencyCallOnly,
            3 => RegState::RegStatePowerOff,
            _ => RegState::RegStateNoService,
        }
    }
}

#[derive(Debug, Clone, Copy, PartialEq, Eq, Structural)]
pub enum NsaState {
    NsaStateNotSupport,
    NsaStateNoDetect,
    NsaStateConnectedDetect,
    NsaStateIdleDetect,
    NsaStateDualConnected,
    NsaStateSaAttached,
}

/// Reading of a raw NSA-state code; unknown codes default to
/// `NsaStateNotSupport`.
pub open spec fn nsa_state_of(value: i32) -> NsaState {
    if value == 2 {
        NsaState::NsaStateNoDetect
    } else if value == 3 {
        NsaState::NsaStateConnectedDetect
    } else if value == 4 {
        NsaState::NsaStateIdleDetect
    } else if value == 5 {
        NsaState::NsaStateDualConnected
    } else if value == 6 {
        NsaState::NsaStateSaAttached
    } else {
        NsaState::NsaStateNotSupport
    }
}

impl NsaState {
    pub fn from_code(value: i32) -> (r: Self)
        ensures
            r == nsa_state_of(value),
    {
        match value {
            2 => NsaState::NsaStateNoDetect,
            3 => NsaState::NsaStateConnectedDetect,
            4 => NsaState::NsaStateIdleDetect,
            5 => NsaState::NsaStateDualConnected,
            6 => NsaState::NsaStateSaAttached,
            _ => NsaState::NsaStateNotSupport,
        }
    }
}

/// Network-registration record handed to a network-state callback.
#[derive(Debug, Clone, PartialEq, Eq)]
pub struct NetworkState {
    pub long_operator_name: String,
    pub short_operator_name: String,
    pub plmn_numeric: String,
    pub is_roaming: bool,
    pub reg_state: RegState,
    pub cfg_tech: RadioTechnology,
    pub nsa_state: NsaState,
    pub is_emergency: bool,
}

#[derive(Debug, Clone, Copy, PartialEq, Eq, Structural)]
pub enum CallState {
    CallStateUnknown,
    CallStateIdle,
    CallStateRinging,
    CallStateOffhook,
    CallStateAnswered,
}

/// Reading of a raw call-state code; unknown codes default to
/// `CallStateUnknown`.
pub open spec fn call_state_of(value: i32) -> CallState {
    if value == 0 {
        CallState::CallStateIdle
    } else if value == 1 {
        CallState::CallStateRinging
    } else if value == 2 {
        CallState::CallStateOffhook
    } else if value == 3 {
        CallState::CallStateAnswered
    } else {
        CallState::CallStateUnknown
    }
}

impl CallState {
    pub fn from_code(value: i32) -> (r: Self)
        ensures
            r == call_state_of(value),
    {
        match value {
            0 => CallState::CallStateIdle,
            1 => CallState::CallStateRinging,
            2 => CallState::CallStateOffhook,
            3 => CallState::CallStateAnswered,
            _ => CallState::CallStateUnknown,
        }
    }
}

/// Call-state record handed to a call-state callback.
#[derive(Debug, Clone, PartialEq, Eq)]
pub struct CallStateInfo {
    pub state: CallState,
    pub tele_number: String,
}

impl CallStateInfo {
    pub fn new(state: i32, tele_number: String) -> (r: Self)
        ensures
            r == (CallStateInfo { state: call_state_of(state), tele_number }),
    {
        Self { state: CallState::from_code(state), tele_number }
    }
}

} // verus!
