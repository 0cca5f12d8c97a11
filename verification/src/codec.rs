//! Decoding of the raw integer codes the modem service reports.
//!
//! The state and reason codes are part of the service's external contract and
//! must not be renumbered. A code outside the known enumeration is a
//! reportable anomaly: decoding fails with a [`DecodeError`] and never falls
//! back to a default value.

use vstd::prelude::*;

verus! {

/// Connection state reported by the modem service.
#[derive(Clone, Copy, Debug, PartialEq, Eq, Structural)]
pub enum ModemState {
    Failed,
    Unknown,
    Initializing,
    Locked,
    Disabled,
    Disabling,
    Enabling,
    Enabled,
    Searching,
    Registered,
    Disconnecting,
    Connecting,
    Connected,
}

/// Reason the modem service gives for a state change.
#[derive(Clone, Copy, Debug, PartialEq, Eq, Structural)]
pub enum StateChangeReason {
    Unknown,
    UserRequested,
    Suspend,
    Failure,
}

/// A status or reason code outside the known enumeration, carrying the
/// offending code.
#[derive(Clone, Copy, Debug, PartialEq, Eq, Structural)]
pub enum DecodeError {
    State(i32),
    Reason(u32),
}

/// The wire code of each modem state.
pub open spec fn state_code(s: ModemState) -> int {
    match s {
        ModemState::Failed => -1,
        ModemState::Unknown => 0,
        ModemState::Initializing => 1,
        ModemState::Locked => 2,
        ModemState::Disabled => 3,
        ModemState::Disabling => 4,
        ModemState::Enabling => 5,
        ModemState::Enabled => 6,
        ModemState::Searching => 7,
        ModemState::Registered => 8,
        ModemState::Disconnecting => 9,
        ModemState::Connecting => 10,
        ModemState::Connected => 11,
    }
}

/// The wire code of each state-change reason.
pub open spec fn reason_code(r: StateChangeReason) -> int {
    match r {
        StateChangeReason::Unknown => 0,
        StateChangeReason::UserRequested => 1,
        StateChangeReason::Suspend => 2,
        StateChangeReason::Failure => 3,
    }
}

/// The state a wire code stands for, if any.
pub open spec fn spec_decode_state(code: int) -> Option<ModemState> {
    if code == -1 {
        Some(ModemState::Failed)
    } else if code == 0 {
        Some(ModemState::Unknown)
    } else if code == 1 {
        Some(ModemState::Initializing)
    } else if code == 2 {
        Some(ModemState::Locked)
    } else if code == 3 {
        Some(ModemState::Disabled)
    } else if code == 4 {
        Some(ModemState::Disabling)
    } else if code == 5 {
        Some(ModemState::Enabling)
    } else if code == 6 {
        Some(ModemState::Enabled)
    } else if code == 7 {
        Some(ModemState::Searching)
    } else if code == 8 {
        Some(ModemState::Registered)
    } else if code == 9 {
        Some(ModemState::Disconnecting)
    } else if code == 10 {
        Some(ModemState::Connecting)
    } else if code == 11 {
        Some(ModemState::Connected)
    } else {
        None
    }
}

/// The reason a wire code stands for, if any.
pub open spec fn spec_decode_reason(code: int) -> Option<StateChangeReason> {
    if code == 0 {
        Some(StateChangeReason::Unknown)
    } else if code == 1 {
        Some(StateChangeReason::UserRequested)
    } else if code == 2 {
        Some(StateChangeReason::Suspend)
    } else if code == 3 {
        Some(StateChangeReason::Failure)
    } else {
        None
    }
}

/// Decodes a raw state code; an unknown code is an error, never a default.
pub fn decode_state(code: i32) -> (r: Result<ModemState, DecodeError>)
    ensures
        spec_decode_state(code as int) matches Some(s) ==> r == Ok::<
            ModemState,
            DecodeError,
        >(s),
        spec_decode_state(code as int) is None ==> r == Err::<
            ModemState,
            DecodeError,
        >(DecodeError::State(code)),
{
    match code {
        -1 => Ok(ModemState::Failed),
        0 => Ok(ModemState::Unknown),
        1 => Ok(ModemState::Initializing),
        2 => Ok(ModemState::Locked),
        3 => Ok(ModemState::Disabled),
        4 => Ok(ModemState::Disabling),
        5 => Ok(ModemState::Enabling),
        6 => Ok(ModemState::Enabled),
        7 => Ok(ModemState::Searching),
        8 => Ok(ModemState::Registered),
        9 => Ok(ModemState::Disconnecting),
        10 => Ok(ModemState::Connecting),
        11 => Ok(ModemState::Connected),
        _ => Err(DecodeError::State(code)),
    }
}

/// Decodes a raw state-change reason code; an unknown code is an error.
pub fn decode_reason(code: u32) -> (r: Result<StateChangeReason, DecodeError>)
    ensures
        spec_decode_reason(code as int) matches Some(w) ==> r == Ok::<
            StateChangeReason,
            DecodeError,
        >(w),
        spec_decode_reason(code as int) is None ==> r == Err::<
            StateChangeReason,
            DecodeError,
        >(DecodeError::Reason(code)),
{
    match code {
        0 => Ok(StateChangeReason::Unknown),
        1 => Ok(StateChangeReason::UserRequested),
        2 => Ok(StateChangeReason::Suspend),
        3 => Ok(StateChangeReason::Failure),
        _ => Err(DecodeError::Reason(code)),
    }
}

/// Encodes a modem state back to its wire code.
pub fn encode_state(s: ModemState) -> (code: i32)
    ensures
        code as int == state_code(s),
{
    match s {
        ModemState::Failed => -1,
        ModemState::Unknown => 0,
        ModemState::Initializing => 1,
        ModemState::Locked => 2,
        ModemState::Disabled => 3,
        ModemState::Disabling => 4,
        ModemState::Enabling => 5,
        ModemState::Enabled => 6,
        ModemState::Searching => 7,
        ModemState::Registered => 8,
        ModemState::Disconnecting => 9,
        ModemState::Connecting => 10,
        ModemState::Connected => 11,
    }
}

/// Encodes a state-change reason back to its wire code.
pub fn encode_reason(r: StateChangeReason) -> (code: u32)
    ensures
        code as int == reason_code(r),
{
    match r {
        StateChangeReason::Unknown => 0,
        StateChangeReason::UserRequested => 1,
        StateChangeReason::Suspend => 2,
        StateChangeReason::Failure => 3,
    }
}

/// Law: decoding the wire code of any state yields that state back.
pub proof fn lemma_state_round_trip(s: ModemState)
    ensures
        spec_decode_state(state_code(s)) == Some(s),
{
}

/// Law: decoding the wire code of any reason yields that reason back.
pub proof fn lemma_reason_round_trip(r: StateChangeReason)
    ensures
        spec_decode_reason(reason_code(r)) == Some(r),
{
}

/// Law: state codes are injective: two states with the same code are equal.
pub proof fn lemma_state_code_injective(a: ModemState, b: ModemState)
    requires
        state_code(a) == state_code(b),
    ensures
        a == b,
{
}

/// Law: reason codes are injective: two reasons with the same code are equal.
pub proof fn lemma_reason_code_injective(a: StateChangeReason, b: StateChangeReason)
    requires
        reason_code(a) == reason_code(b),
    ensures
        a == b,
{
}

/// Law: decoding a state code fails exactly when no state carries that code.
pub proof fn lemma_decode_state_none_iff_unlisted(code: int)
    ensures
        spec_decode_state(code) is None <==> (forall|s: ModemState| state_code(s) != code),
{
    if spec_decode_state(code) is None {
        assert forall|s: ModemState| state_code(s) != code by {
            lemma_state_round_trip(s);
        }
    } else {
        let s = spec_decode_state(code)->0;
        assert(state_code(s) == code);
    }
}

/// Law: decoding a reason code fails exactly when no reason carries that code.
pub proof fn lemma_decode_reason_none_iff_unlisted(code: int)
    ensures
        spec_decode_reason(code) is None <==> (forall|r: StateChangeReason| reason_code(r) != code),
{
    if spec_decode_reason(code) is None {
        assert forall|r: StateChangeReason| reason_code(r) != code by {
            lemma_reason_round_trip(r);
        }
    } else {
        let r = spec_decode_reason(code)->0;
        assert(reason_code(r) == code);
    }
}

/// Arguments of one raw state-change signal from the notification stream.
#[derive(Clone, Copy, Debug, PartialEq, Eq, Structural)]
pub struct StateChangedArgs {
    pub old: i32,
    pub new: i32,
    pub reason: u32,
}

impl StateChangedArgs {
    /// Decodes the old state, the new state and the reason of a signal.
    /// The first undecodable field is reported; an event with an unknown
    /// field cannot be acted on meaningfully.
    pub fn to_modem_states(&self) -> (r: Result<
        (ModemState, ModemState, StateChangeReason),
        DecodeError,
    >)
        ensures
            (spec_decode_state(self.old as int) is Some && spec_decode_state(
                self.new as int,
            ) is Some && spec_decode_reason(self.reason as int) is Some) ==> r == Ok::<
                (ModemState, ModemState, StateChangeReason),
                DecodeError,
            >(
                (
                    spec_decode_state(self.old as int)->0,
                    spec_decode_state(self.new as int)->0,
                    spec_decode_reason(self.reason as int)->0,
                ),
            ),
            spec_decode_state(self.old as int) is None ==> r == Err::<
                (ModemState, ModemState, StateChangeReason),
                DecodeError,
            >(DecodeError::State(self.old)),
            (spec_decode_state(self.old as int) is Some && spec_decode_state(
                self.new as int,
            ) is None) ==> r == Err::<
                (ModemState, ModemState, StateChangeReason),
                DecodeError,
            >(DecodeError::State(self.new)),
            (spec_decode_state(self.old as int) is Some && spec_decode_state(
                self.new as int,
            ) is Some && spec_decode_reason(self.reason as int) is None) ==> r == Err::<
                (ModemState, ModemState, StateChangeReason),
                DecodeError,
            >(DecodeError::Reason(self.reason)),
    {
        let old_state = match decode_state(self.old) {
            Ok(s) => s,
            Err(e) => {
                return Err(e);
            },
        };
        let new_state = match decode_state(self.new) {
            Ok(s) => s,
            Err(e) => {
                return Err(e);
            },
        };
        let reason = match decode_reason(self.reason) {
            Ok(w) => w,
            Err(e) => {
                return Err(e);
            },
        };
        Ok((old_state, new_state, reason))
    }
}

} // verus!
