//! The session state machine.
//!
//! `ManagerHandle` owns the authoritative session snapshot.  Every outbound
//! round trip (card reader, contract gateway, charging backend, energy
//! meter) and every event publication is an `Action` the machine hands to
//! its host; the host performs it and feeds the outcome back in as an
//! `Event`.  The machine alone decides what happens next, so the whole
//! sequencing logic of `login`, `logout` and `reset` is verified here, while
//! the host stays a thin, unverified loop.
//!
//! The host must serialize access to one `ManagerHandle` under one
//! exclusive lock, held for a whole operation, outbound round trips
//! included; Rust's `&mut` receiver makes that exclusiveness a type
//! requirement here.

use vstd::prelude::*;

use crate::errors::{AuthError, AuthErrorV, GatewayKind, RejectReason};
use crate::state::{
    contract_imax, contract_ocpp, contract_pmax, default_state_v, AuthMsg, AuthState, AuthStateV,
    ContractData, EnergyState,
};

verus! {

/// One outbound effect the host must perform on the machine's behalf.
#[derive(Debug, PartialEq)]
pub enum Action {
    /// Publish the session phase to event subscribers.
    PublishAuth(AuthMsg),
    /// Ask the card-reader gateway for the presented tag identifier.
    CallGetTagid,
    /// Ask the contract gateway for the tag's contract/tariff record.
    CallGetContract,
    /// Ask the charging backend to authorize the tag.
    CallAuthorize(String),
    /// Ask the charging backend to start a transaction for the tag.
    CallTransactionStart(String),
    /// Subscribe the energy-meter feed.
    CallSubscribeMeter,
    /// Unsubscribe the energy-meter feed.
    CallUnsubscribeMeter,
    /// Ask the charging backend to stop the running transaction.
    CallTransactionStop,
    /// Forward one meter measurement to the charging backend, unchanged.
    CallPushMeasure(EnergyState),
}

/// Mathematical model of an `Action`.
pub ghost enum ActionV {
    PublishAuth(AuthMsg),
    CallGetTagid,
    CallGetContract,
    CallAuthorize(Seq<char>),
    CallTransactionStart(Seq<char>),
    CallSubscribeMeter,
    CallUnsubscribeMeter,
    CallTransactionStop,
    CallPushMeasure(Seq<u8>),
}

impl View for Action {
    type V = ActionV;

    open spec fn view(&self) -> ActionV {
        match self {
            Action::PublishAuth(m) => ActionV::PublishAuth(*m),
            Action::CallGetTagid => ActionV::CallGetTagid,
            Action::CallGetContract => ActionV::CallGetContract,
            Action::CallAuthorize(t) => ActionV::CallAuthorize(t@),
            Action::CallTransactionStart(t) => ActionV::CallTransactionStart(t@),
            Action::CallSubscribeMeter => ActionV::CallSubscribeMeter,
            Action::CallUnsubscribeMeter => ActionV::CallUnsubscribeMeter,
            Action::CallTransactionStop => ActionV::CallTransactionStop,
            Action::CallPushMeasure(m) => ActionV::CallPushMeasure(m@),
        }
    }
}

impl Clone for Action {
    fn clone(&self) -> (res: Self)
        ensures
            res@ == self@,
    {
        match self {
            Action::PublishAuth(m) => Action::PublishAuth(*m),
            Action::CallGetTagid => Action::CallGetTagid,
            Action::CallGetContract => Action::CallGetContract,
            Action::CallAuthorize(t) => Action::CallAuthorize(t.clone()),
            Action::CallTransactionStart(t) => Action::CallTransactionStart(t.clone()),
            Action::CallSubscribeMeter => Action::CallSubscribeMeter,
            Action::CallUnsubscribeMeter => Action::CallUnsubscribeMeter,
            Action::CallTransactionStop => Action::CallTransactionStop,
            Action::CallPushMeasure(m) => Action::CallPushMeasure(m.clone()),
        }
    }
}

/// What the host feeds into the machine: an operation request, or the
/// outcome of the round trip the machine asked for last.
#[derive(Debug, PartialEq)]
pub enum Event {
    /// A caller asks to authenticate.
    LoginRequest,
    /// A caller asks to end the authenticated session.
    LogoutRequest,
    /// A caller asks to force the session back to its default state.
    ResetRequest,
    /// The card reader returned a tag identifier.
    TagOk(String),
    /// The tag lookup failed.
    TagFail,
    /// The contract gateway returned the tag's contract record.
    ContractOk(ContractData),
    /// The contract lookup failed.
    ContractFail,
    /// The awaited backend or meter round trip succeeded.
    GatewayOk,
    /// The awaited backend or meter round trip failed; the payload is the
    /// gateway's own reason text.
    GatewayFail(String),
}

/// Mathematical model of an `Event`.
pub ghost enum EventV {
    LoginRequest,
    LogoutRequest,
    ResetRequest,
    TagOk(Seq<char>),
    TagFail,
    ContractOk(ContractData),
    ContractFail,
    GatewayOk,
    GatewayFail(Seq<char>),
}

impl View for Event {
    type V = EventV;

    open spec fn view(&self) -> EventV {
        match self {
            Event::LoginRequest => EventV::LoginRequest,
            Event::LogoutRequest => EventV::LogoutRequest,
            Event::ResetRequest => EventV::ResetRequest,
            Event::TagOk(t) => EventV::TagOk(t@),
            Event::TagFail => EventV::TagFail,
            Event::ContractOk(c) => EventV::ContractOk(*c),
            Event::ContractFail => EventV::ContractFail,
            Event::GatewayOk => EventV::GatewayOk,
            Event::GatewayFail(cause) => EventV::GatewayFail(cause@),
        }
    }
}

/// Progress of the operation in flight; the working identity and limits of a
/// login live here, not in the published snapshot, so a reader never sees a
/// half-built session.
enum Phase {
    /// No operation in flight.
    Ready,
    /// Login: waiting for the tag lookup.
    AwaitTag,
    /// Login: waiting for the contract lookup.
    AwaitContract { tag: String },
    /// Login: waiting for the backend authorize.
    AwaitAuthorize { tag: String, imax: u32, pmax: u32 },
    /// Login: waiting for the backend transaction start.
    AwaitTxStart { tag: String, imax: u32, pmax: u32 },
    /// Login: waiting for the meter subscribe.
    AwaitSubscribe { tag: String, imax: u32, pmax: u32 },
    /// Logout: idle state committed, waiting for the meter unsubscribe.
    AwaitUnsubscribe,
    /// Logout: waiting for the backend transaction stop.
    AwaitTxStop,
}

/// Mathematical model of the operation in flight.
pub ghost enum PhaseV {
    Ready,
    AwaitTag,
    AwaitContract { tag: Seq<char> },
    AwaitAuthorize { tag: Seq<char>, imax: u32, pmax: u32 },
    AwaitTxStart { tag: Seq<char>, imax: u32, pmax: u32 },
    AwaitSubscribe { tag: Seq<char>, imax: u32, pmax: u32 },
    AwaitUnsubscribe,
    AwaitTxStop,
}

impl View for Phase {
    type V = PhaseV;

    closed spec fn view(&self) -> PhaseV {
        match self {
            Phase::Ready => PhaseV::Ready,
            Phase::AwaitTag => PhaseV::AwaitTag,
            Phase::AwaitContract { tag } => PhaseV::AwaitContract { tag: tag@ },
            Phase::AwaitAuthorize { tag, imax, pmax } => PhaseV::AwaitAuthorize {
                tag: tag@,
                imax: *imax,
                pmax: *pmax,
            },
            Phase::AwaitTxStart { tag, imax, pmax } => PhaseV::AwaitTxStart {
                tag: tag@,
                imax: *imax,
                pmax: *pmax,
            },
            Phase::AwaitSubscribe { tag, imax, pmax } => PhaseV::AwaitSubscribe {
                tag: tag@,
                imax: *imax,
                pmax: *pmax,
            },
            Phase::AwaitUnsubscribe => PhaseV::AwaitUnsubscribe,
            Phase::AwaitTxStop => PhaseV::AwaitTxStop,
        }
    }
}

/// Mathematical model of the whole machine: the published snapshot and the
/// operation in flight.
#[verifier::ext_equal]
pub ghost struct MachineV {
    pub state: AuthStateV,
    pub phase: PhaseV,
}

/// One transition at the model level: the machine after the step, the
/// effects the host must perform (in order), and the reply once the
/// operation has settled.
#[verifier::ext_equal]
pub ghost struct StepV {
    pub m: MachineV,
    pub actions: Seq<ActionV>,
    pub reply: Option<Result<AuthStateV, AuthErrorV>>,
}

/// The snapshot committed when a login attempt fails: no identity survives.
pub open spec fn login_fail_v() -> AuthStateV {
    AuthStateV {
        tagid: Seq::<char>::empty(),
        auth: AuthMsg::Fail,
        imax: 0,
        pmax: 0,
        ocpp_check: false,
    }
}

/// The transition taken when the tag or contract lookup is refused.
pub open spec fn login_fail_step(reason: RejectReason) -> StepV {
    StepV {
        m: MachineV { state: login_fail_v(), phase: PhaseV::Ready },
        actions: seq![ActionV::PublishAuth(AuthMsg::Fail)],
        reply: Some(Err(AuthErrorV::LoginRejected { reason })),
    }
}

/// The machine at construction: default snapshot, nothing in flight.
pub open spec fn initial_machine() -> MachineV {
    MachineV { state: default_state_v(), phase: PhaseV::Ready }
}

impl MachineV {
    /// Well-formedness: the snapshot is well formed; a login in flight keeps
    /// the published phase `Pending` and, once the tag lookup succeeded,
    /// carries a non-empty working tag; a logout in flight has the idle
    /// snapshot already committed.
    pub open spec fn wf(self) -> bool {
        &&& self.state.wf()
        &&& match self.phase {
            PhaseV::Ready => true,
            PhaseV::AwaitTag => self.state.auth is Pending,
            PhaseV::AwaitContract { tag } => self.state.auth is Pending && tag.len() > 0,
            PhaseV::AwaitAuthorize { tag, .. } => self.state.auth is Pending && tag.len() > 0,
            PhaseV::AwaitTxStart { tag, .. } => self.state.auth is Pending && tag.len() > 0,
            PhaseV::AwaitSubscribe { tag, .. } => self.state.auth is Pending && tag.len() > 0,
            PhaseV::AwaitUnsubscribe => self.state == default_state_v(),
            PhaseV::AwaitTxStop => self.state == default_state_v(),
        }
    }

    /// Which events the machine can take next: requests while nothing is in
    /// flight, otherwise exactly the outcome of the round trip it asked for.
    pub open spec fn accepts(self, ev: EventV) -> bool {
        match self.phase {
            PhaseV::Ready => ev is LoginRequest || ev is LogoutRequest || ev is ResetRequest,
            PhaseV::AwaitTag => ev is TagOk || ev is TagFail,
            PhaseV::AwaitContract { .. } => ev is ContractOk || ev is ContractFail,
            PhaseV::AwaitAuthorize { .. } => ev is GatewayOk || ev is GatewayFail,
            PhaseV::AwaitTxStart { .. } => ev is GatewayOk || ev is GatewayFail,
            PhaseV::AwaitSubscribe { .. } => ev is GatewayOk || ev is GatewayFail,
            PhaseV::AwaitUnsubscribe => ev is GatewayOk || ev is GatewayFail,
            PhaseV::AwaitTxStop => ev is GatewayOk || ev is GatewayFail,
        }
    }

    /// The transition relation of the session machine.  This is the
    /// reference the executable `ManagerHandle::step` is proved against,
    /// and the laws of the library are stated over it.
    pub open spec fn next(self, ev: EventV) -> StepV {
        match (self.phase, ev) {
            (PhaseV::Ready, EventV::LoginRequest) => {
                if self.state.auth is Done {
                    // Precondition of a login: not already authenticated.
                    StepV {
                        m: self,
                        actions: Seq::<ActionV>::empty(),
                        reply: Some(Err(AuthErrorV::AlreadyAuthenticated)),
                    }
                } else {
                    StepV {
                        m: MachineV {
                            state: AuthStateV {
                                tagid: self.state.tagid,
                                auth: AuthMsg::Pending,
                                imax: self.state.imax,
                                pmax: self.state.pmax,
                                ocpp_check: self.state.ocpp_check,
                            },
                            phase: PhaseV::AwaitTag,
                        },
                        actions: seq![
                            ActionV::PublishAuth(AuthMsg::Pending),
                            ActionV::CallGetTagid,
                        ],
                        reply: None,
                    }
                }
            },
            (PhaseV::AwaitTag, EventV::TagOk(tag)) => {
                if tag.len() == 0 {
                    // An empty identifier carries no identity: the attempt
                    // is refused like a failed lookup.
                    login_fail_step(RejectReason::InvalidTag)
                } else {
                    StepV {
                        m: MachineV { state: self.state, phase: PhaseV::AwaitContract { tag } },
                        actions: seq![ActionV::CallGetContract],
                        reply: None,
                    }
                }
            },
            (PhaseV::AwaitTag, EventV::TagFail) => login_fail_step(RejectReason::InvalidTag),
            (PhaseV::AwaitContract { tag }, EventV::ContractOk(c)) => {
                if contract_ocpp(c) {
                    StepV {
                        m: MachineV {
                            state: self.state,
                            phase: PhaseV::AwaitAuthorize {
                                tag,
                                imax: contract_imax(c),
                                pmax: contract_pmax(c),
                            },
                        },
                        actions: seq![ActionV::CallAuthorize(tag)],
                        reply: None,
                    }
                } else {
                    // The contract opts out of backend coordination: the
                    // session settles right away.
                    let s = AuthStateV {
                        tagid: tag,
                        auth: AuthMsg::Done,
                        imax: contract_imax(c),
                        pmax: contract_pmax(c),
                        ocpp_check: false,
                    };
                    StepV {
                        m: MachineV { state: s, phase: PhaseV::Ready },
                        actions: seq![ActionV::PublishAuth(AuthMsg::Done)],
                        reply: Some(Ok(s)),
                    }
                }
            },
            (PhaseV::AwaitContract { .. }, EventV::ContractFail) => login_fail_step(
                RejectReason::InvalidContract,
            ),
            (PhaseV::AwaitAuthorize { tag, imax, pmax }, EventV::GatewayOk) => StepV {
                m: MachineV { state: self.state, phase: PhaseV::AwaitTxStart { tag, imax, pmax } },
                actions: seq![ActionV::CallTransactionStart(tag)],
                reply: None,
            },
            (PhaseV::AwaitAuthorize { .. }, EventV::GatewayFail(cause)) => StepV {
                // The backend refusal is propagated unchanged, its reason
                // text included; no rollback of the pending phase is
                // defined.
                m: MachineV { state: self.state, phase: PhaseV::Ready },
                actions: Seq::<ActionV>::empty(),
                reply: Some(
                    Err(AuthErrorV::GatewayCallFailed { which: GatewayKind::Authorize, cause }),
                ),
            },
            (PhaseV::AwaitTxStart { tag, imax, pmax }, EventV::GatewayOk) => StepV {
                m: MachineV {
                    state: self.state,
                    phase: PhaseV::AwaitSubscribe { tag, imax, pmax },
                },
                actions: seq![ActionV::CallSubscribeMeter],
                reply: None,
            },
            (PhaseV::AwaitTxStart { .. }, EventV::GatewayFail(cause)) => StepV {
                m: MachineV { state: self.state, phase: PhaseV::Ready },
                actions: Seq::<ActionV>::empty(),
                reply: Some(
                    Err(
                        AuthErrorV::GatewayCallFailed {
                            which: GatewayKind::TransactionStart,
                            cause,
                        },
                    ),
                ),
            },
            (PhaseV::AwaitSubscribe { tag, imax, pmax }, EventV::GatewayOk) => {
                let s = AuthStateV {
                    tagid: tag,
                    auth: AuthMsg::Done,
                    imax,
                    pmax,
                    ocpp_check: true,
                };
                StepV {
                    m: MachineV { state: s, phase: PhaseV::Ready },
                    actions: seq![ActionV::PublishAuth(AuthMsg::Done)],
                    reply: Some(Ok(s)),
                }
            },
            (PhaseV::AwaitSubscribe { .. }, EventV::GatewayFail(cause)) => StepV {
                m: MachineV { state: self.state, phase: PhaseV::Ready },
                actions: Seq::<ActionV>::empty(),
                reply: Some(
                    Err(
                        AuthErrorV::GatewayCallFailed {
                            which: GatewayKind::SubscribeMeter,
                            cause,
                        },
                    ),
                ),
            },
            (PhaseV::Ready, EventV::LogoutRequest) => {
                if !(self.state.auth is Done) {
                    // Precondition of a logout: a session must be active.
                    StepV {
                        m: self,
                        actions: Seq::<ActionV>::empty(),
                        reply: Some(Err(AuthErrorV::NotAuthenticated)),
                    }
                } else if self.state.ocpp_check {
                    // The idle state is committed and published before the
                    // teardown round trips, so readers see the session end
                    // promptly even if teardown is slow or fails.
                    StepV {
                        m: MachineV { state: default_state_v(), phase: PhaseV::AwaitUnsubscribe },
                        actions: seq![
                            ActionV::PublishAuth(AuthMsg::Idle),
                            ActionV::CallUnsubscribeMeter,
                        ],
                        reply: None,
                    }
                } else {
                    StepV {
                        m: MachineV { state: default_state_v(), phase: PhaseV::Ready },
                        actions: seq![ActionV::PublishAuth(AuthMsg::Idle)],
                        reply: Some(Ok(default_state_v())),
                    }
                }
            },
            (PhaseV::AwaitUnsubscribe, EventV::GatewayOk) => StepV {
                m: MachineV { state: self.state, phase: PhaseV::AwaitTxStop },
                actions: seq![ActionV::CallTransactionStop],
                reply: None,
            },
            (PhaseV::AwaitUnsubscribe, EventV::GatewayFail(cause)) => StepV {
                // The idle state stays committed; the teardown failure is
                // surfaced to the caller.
                m: MachineV { state: self.state, phase: PhaseV::Ready },
                actions: Seq::<ActionV>::empty(),
                reply: Some(
                    Err(
                        AuthErrorV::GatewayCallFailed {
                            which: GatewayKind::UnsubscribeMeter,
                            cause,
                        },
                    ),
                ),
            },
            (PhaseV::AwaitTxStop, EventV::GatewayOk) => StepV {
                m: MachineV { state: self.state, phase: PhaseV::Ready },
                actions: Seq::<ActionV>::empty(),
                reply: Some(Ok(self.state)),
            },
            (PhaseV::AwaitTxStop, EventV::GatewayFail(cause)) => StepV {
                m: MachineV { state: self.state, phase: PhaseV::Ready },
                actions: Seq::<ActionV>::empty(),
                reply: Some(
                    Err(
                        AuthErrorV::GatewayCallFailed {
                            which: GatewayKind::TransactionStop,
                            cause,
                        },
                    ),
                ),
            },
            (PhaseV::Ready, EventV::ResetRequest) => {
                // Unconditional: force the default state, publish it once,
                // and stop the backend transaction as best-effort cleanup
                // where the prior session had backend coordination active.
                // The reply does not wait for that cleanup's outcome.
                if self.state.ocpp_check {
                    StepV {
                        m: initial_machine(),
                        actions: seq![
                            ActionV::PublishAuth(AuthMsg::Idle),
                            ActionV::CallTransactionStop,
                        ],
                        reply: Some(Ok(default_state_v())),
                    }
                } else {
                    StepV {
                        m: initial_machine(),
                        actions: seq![ActionV::PublishAuth(AuthMsg::Idle)],
                        reply: Some(Ok(default_state_v())),
                    }
                }
            },
            _ => StepV { m: self, actions: Seq::<ActionV>::empty(), reply: None },
        }
    }
}

/// The model of a list of effects.
pub open spec fn actions_view(s: Seq<Action>) -> Seq<ActionV> {
    s.map_values(|a: Action| a@)
}

/// The model of a settled reply.
pub open spec fn reply_view(r: Option<Result<AuthState, AuthError>>) -> Option<
    Result<AuthStateV, AuthErrorV>,
> {
    match r {
        None => None,
        Some(Ok(s)) => Some(Ok(s@)),
        Some(Err(e)) => Some(Err(e@)),
    }
}

/// What one executable transition handed back to the host.
#[derive(Debug, PartialEq)]
pub struct Step {
    /// Effects to perform, in order.
    pub actions: Vec<Action>,
    /// `Some` once the operation has settled; `None` while the machine
    /// awaits the outcome of the last action.
    pub reply: Option<Result<AuthState, AuthError>>,
}

/// The session manager: the single authoritative session state of one
/// connector, mutated only through the transitions of `MachineV::next`.
pub struct ManagerHandle {
    state: AuthState,
    phase: Phase,
}

impl View for ManagerHandle {
    type V = MachineV;

    closed spec fn view(&self) -> MachineV {
        MachineV { state: self.state@, phase: self.phase@ }
    }
}

impl ManagerHandle {
    /// A fresh manager: default snapshot, nothing in flight.
    pub fn new() -> (r: ManagerHandle)
        ensures
            r@ == initial_machine(),
            r@.wf(),
    {
        ManagerHandle { state: AuthState::default(), phase: Phase::Ready }
    }

    /// The current settled snapshot.  The caller's exclusive access (`&self`
    /// under the host's lock) guarantees the copy is never torn.
    pub fn get_state(&self) -> (r: AuthState)
        ensures
            r@ == self@.state,
    {
        self.state.clone()
    }

    /// Whether no operation is in flight, so that a request event may be
    /// fed in.
    pub fn is_ready(&self) -> (r: bool)
        ensures
            r == (self@.phase is Ready),
    {
        matches!(self.phase, Phase::Ready)
    }

    /// Whether the machine can take `ev` next.  An unverified host tests
    /// this before calling `step` and treats a refusal as a programming
    /// error of its own loop.
    pub fn accepts(&self, ev: &Event) -> (r: bool)
        ensures
            r == self@.accepts(ev@),
    {
        match (&self.phase, ev) {
            (Phase::Ready, Event::LoginRequest) => true,
            (Phase::Ready, Event::LogoutRequest) => true,
            (Phase::Ready, Event::ResetRequest) => true,
            (Phase::AwaitTag, Event::TagOk(_)) => true,
            (Phase::AwaitTag, Event::TagFail) => true,
            (Phase::AwaitContract { .. }, Event::ContractOk(_)) => true,
            (Phase::AwaitContract { .. }, Event::ContractFail) => true,
            (Phase::AwaitAuthorize { .. }, Event::GatewayOk) => true,
            (Phase::AwaitAuthorize { .. }, Event::GatewayFail(_)) => true,
            (Phase::AwaitTxStart { .. }, Event::GatewayOk) => true,
            (Phase::AwaitTxStart { .. }, Event::GatewayFail(_)) => true,
            (Phase::AwaitSubscribe { .. }, Event::GatewayOk) => true,
            (Phase::AwaitSubscribe { .. }, Event::GatewayFail(_)) => true,
            (Phase::AwaitUnsubscribe, Event::GatewayOk) => true,
            (Phase::AwaitUnsubscribe, Event::GatewayFail(_)) => true,
            (Phase::AwaitTxStop, Event::GatewayOk) => true,
            (Phase::AwaitTxStop, Event::GatewayFail(_)) => true,
            _ => false,
        }
    }

    /// Take one transition of the session machine: exactly `MachineV::next`
    /// on the models.
    pub fn step(&mut self, ev: Event) -> (r: Step)
        requires
            old(self)@.wf(),
            old(self)@.accepts(ev@),
        ensures
            final(self)@ == old(self)@.next(ev@).m,
            actions_view(r.actions@) == old(self)@.next(ev@).actions,
            reply_view(r.reply) == old(self)@.next(ev@).reply,
            final(self)@.wf(),
    {
        let ghost t = self@.next(ev@);
        let mut ph = Phase::Ready;
        core::mem::swap(&mut self.phase, &mut ph);
        match (ph, ev) {
            (Phase::Ready, Event::LoginRequest) => {
                if matches!(self.state.auth, AuthMsg::Done) {
                    let r = Step {
                        actions: Vec::new(),
                        reply: Some(Err(AuthError::AlreadyAuthenticated)),
                    };
                    proof {
                        assert(actions_view(r.actions@) =~= t.actions);
                    }
                    r
                } else {
                    self.state.auth = AuthMsg::Pending;
                    self.phase = Phase::AwaitTag;
                    let mut actions: Vec<Action> = Vec::new();
                    actions.push(Action::PublishAuth(AuthMsg::Pending));
                    actions.push(Action::CallGetTagid);
                    let r = Step { actions, reply: None };
                    proof {
                        assert(actions_view(r.actions@) =~= t.actions);
                    }
                    r
                }
            },
            (Phase::AwaitTag, Event::TagOk(tag)) => {
                if tag.as_str().is_empty() {
                    let r = self.commit_login_failure(RejectReason::InvalidTag);
                    proof {
                        assert(actions_view(r.actions@) =~= t.actions);
                    }
                    r
                } else {
                    self.phase = Phase::AwaitContract { tag };
                    let mut actions: Vec<Action> = Vec::new();
                    actions.push(Action::CallGetContract);
                    let r = Step { actions, reply: None };
                    proof {
                        assert(actions_view(r.actions@) =~= t.actions);
                    }
                    r
                }
            },
            (Phase::AwaitTag, Event::TagFail) => {
                let r = self.commit_login_failure(RejectReason::InvalidTag);
                proof {
                    assert(actions_view(r.actions@) =~= t.actions);
                }
                r
            },
            (Phase::AwaitContract { tag }, Event::ContractOk(c)) => {
                let imax = c.imax_or_default();
                let pmax = c.pmax_or_default();
                if c.ocpp_or_default() {
                    let mut actions: Vec<Action> = Vec::new();
                    actions.push(Action::CallAuthorize(tag.clone()));
                    self.phase = Phase::AwaitAuthorize { tag, imax, pmax };
                    let r = Step { actions, reply: None };
                    proof {
                        assert(actions_view(r.actions@) =~= t.actions);
                    }
                    r
                } else {
                    self.state = AuthState {
                        tagid: tag,
                        auth: AuthMsg::Done,
                        imax,
                        pmax,
                        ocpp_check: false,
                    };
                    self.phase = Phase::Ready;
                    let mut actions: Vec<Action> = Vec::new();
                    actions.push(Action::PublishAuth(AuthMsg::Done));
                    let r = Step { actions, reply: Some(Ok(self.state.clone())) };
                    proof {
                        assert(actions_view(r.actions@) =~= t.actions);
                        assert(self@ =~= t.m);
                    }
                    r
                }
            },
            (Phase::AwaitContract { .. }, Event::ContractFail) => {
                let r = self.commit_login_failure(RejectReason::InvalidContract);
                proof {
                    assert(actions_view(r.actions@) =~= t.actions);
                }
                r
            },
            (Phase::AwaitAuthorize { tag, imax, pmax }, Event::GatewayOk) => {
                let mut actions: Vec<Action> = Vec::new();
                actions.push(Action::CallTransactionStart(tag.clone()));
                self.phase = Phase::AwaitTxStart { tag, imax, pmax };
                let r = Step { actions, reply: None };
                proof {
                    assert(actions_view(r.actions@) =~= t.actions);
                }
                r
            },
            (Phase::AwaitAuthorize { .. }, Event::GatewayFail(cause)) => {
                self.phase = Phase::Ready;
                let r = Step {
                    actions: Vec::new(),
                    reply: Some(
                        Err(AuthError::GatewayCallFailed { which: GatewayKind::Authorize, cause }),
                    ),
                };
                proof {
                    assert(actions_view(r.actions@) =~= t.actions);
                }
                r
            },
            (Phase::AwaitTxStart { tag, imax, pmax }, Event::GatewayOk) => {
                self.phase = Phase::AwaitSubscribe { tag, imax, pmax };
                let mut actions: Vec<Action> = Vec::new();
                actions.push(Action::CallSubscribeMeter);
                let r = Step { actions, reply: None };
                proof {
                    assert(actions_view(r.actions@) =~= t.actions);
                }
                r
            },
            (Phase::AwaitTxStart { .. }, Event::GatewayFail(cause)) => {
                self.phase = Phase::Ready;
                let r = Step {
                    actions: Vec::new(),
                    reply: Some(
                        Err(
                            AuthError::GatewayCallFailed {
                                which: GatewayKind::TransactionStart,
                                cause,
                            },
                        ),
                    ),
                };
                proof {
                    assert(actions_view(r.actions@) =~= t.actions);
                }
                r
            },
            (Phase::AwaitSubscribe { tag, imax, pmax }, Event::GatewayOk) => {
                self.state = AuthState {
                    tagid: tag,
                    auth: AuthMsg::Done,
                    imax,
                    pmax,
                    ocpp_check: true,
                };
                self.phase = Phase::Ready;
                let mut actions: Vec<Action> = Vec::new();
                actions.push(Action::PublishAuth(AuthMsg::Done));
                let r = Step { actions, reply: Some(Ok(self.state.clone())) };
                proof {
                    assert(actions_view(r.actions@) =~= t.actions);
                    assert(self@ =~= t.m);
                }
                r
            },
            (Phase::AwaitSubscribe { .. }, Event::GatewayFail(cause)) => {
                self.phase = Phase::Ready;
                let r = Step {
                    actions: Vec::new(),
                    reply: Some(
                        Err(
                            AuthError::GatewayCallFailed {
                                which: GatewayKind::SubscribeMeter,
                                cause,
                            },
                        ),
                    ),
                };
                proof {
                    assert(actions_view(r.actions@) =~= t.actions);
                }
                r
            },
            (Phase::Ready, Event::LogoutRequest) => {
                if !matches!(self.state.auth, AuthMsg::Done) {
                    let r = Step {
                        actions: Vec::new(),
                        reply: Some(Err(AuthError::NotAuthenticated)),
                    };
                    proof {
                        assert(actions_view(r.actions@) =~= t.actions);
                    }
                    r
                } else {
                    let had_ocpp = self.state.ocpp_check;
                    self.state = AuthState::default();
                    let mut actions: Vec<Action> = Vec::new();
                    actions.push(Action::PublishAuth(AuthMsg::Idle));
                    if had_ocpp {
                        self.phase = Phase::AwaitUnsubscribe;
                        actions.push(Action::CallUnsubscribeMeter);
                        let r = Step { actions, reply: None };
                        proof {
                            assert(actions_view(r.actions@) =~= t.actions);
                            assert(self@ =~= t.m);
                        }
                        r
                    } else {
                        let r = Step { actions, reply: Some(Ok(self.state.clone())) };
                        proof {
                            assert(actions_view(r.actions@) =~= t.actions);
                            assert(self@ =~= t.m);
                        }
                        r
                    }
                }
            },
            (Phase::AwaitUnsubscribe, Event::GatewayOk) => {
                self.phase = Phase::AwaitTxStop;
                let mut actions: Vec<Action> = Vec::new();
                actions.push(Action::CallTransactionStop);
                let r = Step { actions, reply: None };
                proof {
                    assert(actions_view(r.actions@) =~= t.actions);
                }
                r
            },
            (Phase::AwaitUnsubscribe, Event::GatewayFail(cause)) => {
                self.phase = Phase::Ready;
                let r = Step {
                    actions: Vec::new(),
                    reply: Some(
                        Err(
                            AuthError::GatewayCallFailed {
                                which: GatewayKind::UnsubscribeMeter,
                                cause,
                            },
                        ),
                    ),
                };
                proof {
                    assert(actions_view(r.actions@) =~= t.actions);
                }
                r
            },
            (Phase::AwaitTxStop, Event::GatewayOk) => {
                let r = Step { actions: Vec::new(), reply: Some(Ok(self.state.clone())) };
                proof {
                    assert(actions_view(r.actions@) =~= t.actions);
                }
                r
            },
            (Phase::AwaitTxStop, Event::GatewayFail(cause)) => {
                let r = Step {
                    actions: Vec::new(),
                    reply: Some(
                        Err(
                            AuthError::GatewayCallFailed {
                                which: GatewayKind::TransactionStop,
                                cause,
                            },
                        ),
                    ),
                };
                proof {
                    assert(actions_view(r.actions@) =~= t.actions);
                }
                r
            },
            (Phase::Ready, Event::ResetRequest) => {
                let had_ocpp = self.state.ocpp_check;
                self.state = AuthState::default();
                let mut actions: Vec<Action> = Vec::new();
                actions.push(Action::PublishAuth(AuthMsg::Idle));
                if had_ocpp {
                    actions.push(Action::CallTransactionStop);
                }
                let r = Step { actions, reply: Some(Ok(self.state.clone())) };
                proof {
                    assert(actions_view(r.actions@) =~= t.actions);
                    assert(self@ =~= t.m);
                }
                r
            },
            _ => unreached(),
        }
    }

    /// Commit a refused login attempt: clear the identity first, settle in
    /// `Fail`, and publish the transition.
    fn commit_login_failure(&mut self, reason: RejectReason) -> (r: Step)
        ensures
            final(self)@ == (MachineV { state: login_fail_v(), phase: PhaseV::Ready }),
            actions_view(r.actions@) == login_fail_step(reason).actions,
            reply_view(r.reply) == login_fail_step(reason).reply,
    {
        self.state = AuthState {
            tagid: String::new(),
            auth: AuthMsg::Fail,
            imax: 0,
            pmax: 0,
            ocpp_check: false,
        };
        self.phase = Phase::Ready;
        let mut actions: Vec<Action> = Vec::new();
        actions.push(Action::PublishAuth(AuthMsg::Fail));
        let r = Step { actions, reply: Some(Err(AuthError::LoginRejected { reason })) };
        proof {
            assert(actions_view(r.actions@) =~= login_fail_step(reason).actions);
            assert(self@ =~= (MachineV { state: login_fail_v(), phase: PhaseV::Ready }));
        }
        r
    }

    /// Begin a login.  When a session is already `Done` the request is
    /// rejected with `AlreadyAuthenticated` and no gateway call is issued;
    /// otherwise the machine publishes `Pending` and asks for the tag
    /// lookup.
    pub fn login(&mut self) -> (r: Step)
        requires
            old(self)@.wf(),
            old(self)@.phase is Ready,
        ensures
            final(self)@ == old(self)@.next(EventV::LoginRequest).m,
            actions_view(r.actions@) == old(self)@.next(EventV::LoginRequest).actions,
            reply_view(r.reply) == old(self)@.next(EventV::LoginRequest).reply,
            final(self)@.wf(),
            old(self)@.state.auth is Done ==> {
                &&& r.actions@.len() == 0
                &&& reply_view(r.reply) == Some(
                    Err::<AuthStateV, AuthErrorV>(AuthErrorV::AlreadyAuthenticated),
                )
                &&& final(self)@ == old(self)@
            },
    {
        let r = self.step(Event::LoginRequest);
        proof {
            assert(r.actions@.len() == actions_view(r.actions@).len());
        }
        r
    }

    /// Begin a logout.  When no session is `Done` the request is rejected
    /// with `NotAuthenticated` and no gateway call is issued; otherwise the
    /// idle state is committed and published at once, before any teardown
    /// round trip.
    pub fn logout(&mut self) -> (r: Step)
        requires
            old(self)@.wf(),
            old(self)@.phase is Ready,
        ensures
            final(self)@ == old(self)@.next(EventV::LogoutRequest).m,
            actions_view(r.actions@) == old(self)@.next(EventV::LogoutRequest).actions,
            reply_view(r.reply) == old(self)@.next(EventV::LogoutRequest).reply,
            final(self)@.wf(),
            !(old(self)@.state.auth is Done) ==> {
                &&& r.actions@.len() == 0
                &&& reply_view(r.reply) == Some(
                    Err::<AuthStateV, AuthErrorV>(AuthErrorV::NotAuthenticated),
                )
                &&& final(self)@ == old(self)@
            },
            old(self)@.state.auth is Done ==> final(self)@.state == default_state_v(),
    {
        let r = self.step(Event::LogoutRequest);
        proof {
            assert(r.actions@.len() == actions_view(r.actions@).len());
        }
        r
    }

    /// Force the session back to the default state, publish it once, and
    /// ask for a best-effort backend transaction stop where the prior
    /// session had backend coordination active.  Always settles at once.
    pub fn reset(&mut self) -> (r: Step)
        requires
            old(self)@.wf(),
            old(self)@.phase is Ready,
        ensures
            final(self)@ == initial_machine(),
            actions_view(r.actions@) == old(self)@.next(EventV::ResetRequest).actions,
            reply_view(r.reply) == Some(Ok::<AuthStateV, AuthErrorV>(default_state_v())),
            final(self)@.wf(),
    {
        self.step(Event::ResetRequest)
    }

    /// Decide the handling of one incoming meter measurement: it is
    /// forwarded unchanged to the charging backend, with no local state
    /// change; the outcome of that round trip goes back to the meter as-is.
    pub fn update_engy_state(&self, engy_state: EnergyState) -> (r: Action)
        ensures
            r@ == ActionV::CallPushMeasure(engy_state@),
    {
        Action::CallPushMeasure(engy_state)
    }
}

} // verus!
