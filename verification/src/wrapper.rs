//! Error values and the raw wire-shaped records that the notification source
//! delivers, together with their normalization into the payload data model.

use crate::bridge::{
    call_state_of, network_type_of, nsa_state_of, radio_technology_of, reg_state_of,
    CallStateInfo, CellInformation, NetworkState, NsaState, RadioTechnology, RegState,
    SignalInformation,
};
use vstd::prelude::*;

verus! {

/// Result code the activation gateway reports when a call succeeded.
pub const TELEPHONY_SUCCESS: i32 = 8300000;

/// Error code of a rejected slot/category combination.
pub const INVALID_PARAMETER_CODE: i32 = 8300001;

/// Raw outcome of an activation-gateway call: a result code and a message.
#[derive(Debug, Clone, PartialEq, Eq)]
pub struct ArktsError {
    pub error_code: i32,
    pub error_message: String,
}

impl ArktsError {
    /// A gateway outcome reports failure exactly when its code is not the
    /// success code.
    pub fn is_error(&self) -> (r: bool)
        ensures
            r == (self.error_code != TELEPHONY_SUCCESS),
    {
        if self.error_code != TELEPHONY_SUCCESS {
            return true;
        }
        false
    }
}

/// Structured error surfaced to the caller of register/unregister.
#[derive(Debug, Clone, PartialEq, Eq)]
pub struct BusinessError {
    pub code: i32,
    pub message: String,
}

impl BusinessError {
    pub fn new(code: i32, message: String) -> (r: Self)
        ensures
            r == (BusinessError { code, message }),
    {
        Self { code, message }
    }

    /// A failed gateway outcome is surfaced to the caller verbatim: same
    /// code, same message.
    pub fn from_arkts(value: ArktsError) -> (r: Self)
        ensures
            r.code == value.error_code,
            r.message == value.error_message,
    {
        Self { code: value.error_code, message: value.error_message }
    }
}

/// Raw signal-strength record as delivered by the notification source.
#[derive(Debug, Clone, Copy, PartialEq, Eq, Structural)]
pub struct SignalInformationAni {
    pub signal_type: i32,
    pub signal_level: i32,
    pub d_bm: i32,
}

/// Normalized form of a raw signal-strength record.
pub open spec fn signal_information_of(value: SignalInformationAni) -> SignalInformation {
    SignalInformation {
        signal_type: network_type_of(value.signal_type),
        signal_level: value.signal_level,
        d_bm: value.d_bm,
    }
}

impl SignalInformationAni {
    pub fn normalize(self) -> (r: SignalInformation)
        ensures
            r == signal_information_of(self),
    {
        SignalInformation::new(self.signal_type, self.signal_level, self.d_bm)
    }
}

/// Raw cell-topology record as delivered by the notification source.
#[derive(Debug, Clone, Copy, PartialEq, Eq, Structural)]
pub struct CellInformationAni {
    pub network_type: i32,
    pub signal_information: SignalInformationAni,
}

/// Normalized form of a raw cell-topology record.
pub open spec fn cell_information_of(value: CellInformationAni) -> CellInformation {
    CellInformation {
        network_type: network_type_of(value.network_type),
        signal_information: signal_information_of(value.signal_information),
    }
}

impl CellInformationAni {
    pub fn normalize(self) -> (r: CellInformation)
        ensures
            r == cell_information_of(self),
    {
        let signal_information = self.signal_information.normalize();
        CellInformation::new(self.network_type, signal_information)
    }
}

/// Raw network-registration record as delivered by the notification source.
#[derive(Debug, Clone, PartialEq, Eq)]
pub struct NetworkStateAni {
    pub long_operator_name: String,
    pub short_operator_name: String,
    pub plmn_numeric: String,
    pub is_roaming: bool,
    pub reg_state: i32,
    pub cfg_tech: i32,
    pub nsa_state: i32,
    pub is_emergency: bool,
}

/// Normalized form of a raw network-registration record.
pub open spec fn network_state_of(value: NetworkStateAni) -> NetworkState {
    NetworkState {
        long_operator_name: value.long_operator_name,
        short_operator_name: value.short_operator_name,
        plmn_numeric: value.plmn_numeric,
        is_roaming: value.is_roaming,
        reg_state: reg_state_of(value.reg_state),
        cfg_tech: radio_technology_of(value.cfg_tech),
        nsa_state: nsa_state_of(value.nsa_state),
        is_emergency: value.is_emergency,
    }
}

impl NetworkStateAni {
    pub fn normalize(self) -> (r: NetworkState)
        ensures
            r == network_state_of(self),
    {
        NetworkState {
            long_operator_name: self.long_operator_name,
            short_operator_name: self.short_operator_name,
            plmn_numeric: self.plmn_numeric,
            is_roaming: self.is_roaming,
            reg_state: RegState::from_code(self.reg_state),
            cfg_tech: RadioTechnology::from_code(self.cfg_tech),
            nsa_state: NsaState::from_code(self.nsa_state),
            is_emergency: self.is_emergency,
        }
    }
}

/// Raw call-state record as delivered by the notification source.
#[derive(Debug, Clone, PartialEq, Eq)]
pub struct CallStateAni {
    pub state: i32,
    pub tele_number: String,
}

/// Normalized form of a raw call-state record.
pub open spec fn call_state_info_of(value: CallStateAni) -> CallStateInfo {
    CallStateInfo { state: call_state_of(value.state), tele_number: value.tele_number }
}

impl CallStateAni {
    pub fn normalize(self) -> (r: CallStateInfo)
        ensures
            r == call_state_info_of(self),
    {
        CallStateInfo::new(self.state, self.tele_number)
    }
}

} // verus!
