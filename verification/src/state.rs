//! The session snapshot (`AuthState`), its mathematical model and its
//! well-formedness invariant, and the contract/tariff record with its
//! hard-coded defaults for absent fields.

use vstd::prelude::*;

verus! {

/// Session phase: the authentication state machine moves
/// `Idle -> Pending -> {Done | Fail}`, and back to `Idle` on logout or reset.
#[derive(Clone, Copy, Debug, PartialEq, Eq, Structural)]
pub enum AuthMsg {
    Idle,
    Pending,
    Done,
    Fail,
}

/// Mathematical model of a session snapshot.
#[verifier::ext_equal]
pub ghost struct AuthStateV {
    pub tagid: Seq<char>,
    pub auth: AuthMsg,
    pub imax: u32,
    pub pmax: u32,
    pub ocpp_check: bool,
}

/// One session snapshot: the single source of truth for the managed
/// connector.
///
/// `tagid` is the last validated token identifier, empty when no identity is
/// active; `imax` and `pmax` are the contract-derived current and power
/// limits, zero when not authenticated; `ocpp_check` says whether the backend
/// authorize/transaction/metering steps apply to this session.
#[derive(Debug, PartialEq)]
pub struct AuthState {
    pub tagid: String,
    pub auth: AuthMsg,
    pub imax: u32,
    pub pmax: u32,
    pub ocpp_check: bool,
}

impl View for AuthState {
    type V = AuthStateV;

    open spec fn view(&self) -> AuthStateV {
        AuthStateV {
            tagid: self.tagid@,
            auth: self.auth,
            imax: self.imax,
            pmax: self.pmax,
            ocpp_check: self.ocpp_check,
        }
    }
}

impl Clone for AuthState {
    fn clone(&self) -> (res: Self)
        ensures
            res@ == self@,
    {
        AuthState {
            tagid: self.tagid.clone(),
            auth: self.auth,
            imax: self.imax,
            pmax: self.pmax,
            ocpp_check: self.ocpp_check,
        }
    }
}

/// The default snapshot: no identity, idle, zero limits, no backend
/// coordination.  The manager starts here and returns here on logout and
/// reset.
pub open spec fn default_state_v() -> AuthStateV {
    AuthStateV {
        tagid: Seq::<char>::empty(),
        auth: AuthMsg::Idle,
        imax: 0,
        pmax: 0,
        ocpp_check: false,
    }
}

impl Default for AuthState {
    fn default() -> (s: Self)
        ensures
            s@ == default_state_v(),
    {
        AuthState {
            tagid: String::new(),
            auth: AuthMsg::Idle,
            imax: 0,
            pmax: 0,
            ocpp_check: false,
        }
    }
}

impl AuthStateV {
    /// Well-formedness of a snapshot: a `Done` session carries a non-empty
    /// tag; in every other phase no identity is active, the limits are zero
    /// and no backend coordination is pending.
    pub open spec fn wf(self) -> bool {
        &&& (self.auth is Done ==> self.tagid.len() > 0)
        &&& (!(self.auth is Done) ==> {
            &&& self.tagid.len() == 0
            &&& self.imax == 0
            &&& self.pmax == 0
            &&& !self.ocpp_check
        })
    }
}

/// Opaque measurement payload forwarded from the energy meter to the
/// charging backend.  The core never interprets it: it only passes the
/// bytes through unchanged.
#[derive(Debug, PartialEq)]
pub struct EnergyState(pub Vec<u8>);

impl View for EnergyState {
    type V = Seq<u8>;

    open spec fn view(&self) -> Seq<u8> {
        self.0@
    }
}

impl Clone for EnergyState {
    fn clone(&self) -> (res: Self)
        ensures
            res@ == self@,
    {
        let r = EnergyState(self.0.clone());
        proof {
            assert forall|i: int| 0 <= i < self.0@.len() implies r.0@[i] == self.0@[i] by {
                assert(cloned::<u8>(self.0[i], r.0[i]));
            }
            assert(r.0@ =~= self.0@);
        }
        r
    }
}

/// Current limit assumed when the contract payload omits `imax`.
pub const DEFAULT_IMAX: u32 = 32;

/// Power limit assumed when the contract payload omits `pmax`.
pub const DEFAULT_PMAX: u32 = 22;

/// Contract/tariff fields as the contract gateway reported them; `None`
/// where the payload omitted a field.
#[derive(Clone, Copy, Debug, PartialEq, Eq)]
pub struct ContractData {
    pub imax: Option<u32>,
    pub pmax: Option<u32>,
    pub ocpp_check: Option<bool>,
}

/// Current limit of a contract, defaulting to `DEFAULT_IMAX` where absent.
pub open spec fn contract_imax(c: ContractData) -> u32 {
    match c.imax {
        Some(v) => v,
        None => DEFAULT_IMAX,
    }
}

/// Power limit of a contract, defaulting to `DEFAULT_PMAX` where absent.
pub open spec fn contract_pmax(c: ContractData) -> u32 {
    match c.pmax {
        Some(v) => v,
        None => DEFAULT_PMAX,
    }
}

/// Whether a contract asks for backend coordination; an absent field means
/// it does.
pub open spec fn contract_ocpp(c: ContractData) -> bool {
    match c.ocpp_check {
        Some(v) => v,
        None => true,
    }
}

impl ContractData {
    /// Current limit with the default applied.
    pub fn imax_or_default(&self) -> (r: u32)
        ensures
            r == contract_imax(*self),
    {
        match self.imax {
            Some(v) => v,
            None => DEFAULT_IMAX,
        }
    }

    /// Power limit with the default applied.
    pub fn pmax_or_default(&self) -> (r: u32)
        ensures
            r == contract_pmax(*self),
    {
        match self.pmax {
            Some(v) => v,
            None => DEFAULT_PMAX,
        }
    }

    /// Backend-coordination flag with the default applied.
    pub fn ocpp_or_default(&self) -> (r: bool)
        ensures
            r == contract_ocpp(*self),
    {
        match self.ocpp_check {
            Some(v) => v,
            None => true,
        }
    }
}

} // verus!
