//! The laws of the session machine, stated and proved over the transition
//! relation `MachineV::next` that every executable operation of
//! `ManagerHandle` is proved to follow.
//!
//! The session phase can only ever be one of the four `AuthMsg` variants:
//! the enum is closed, so that part needs no lemma.

use vstd::prelude::*;

use crate::errors::{AuthErrorV, RejectReason};
use crate::manager::{initial_machine, ActionV, EventV, MachineV, PhaseV};
use crate::state::{
    contract_imax, contract_ocpp, contract_pmax, default_state_v, AuthMsg, AuthStateV,
    ContractData,
};

verus! {

/// Every step the machine accepts keeps it well formed: in particular the
/// published tag stays empty unless the session is `Done`, and the limits
/// stay zero outside a `Done` session.
pub proof fn lemma_step_preserves_wf(m: MachineV, ev: EventV)
    requires
        m.wf(),
        m.accepts(ev),
    ensures
        m.next(ev).m.wf(),
{
}

/// A well-formed snapshot is never torn: never `Done` with an empty tag,
/// and never `Idle` with a non-zero limit.  Together with
/// `lemma_step_preserves_wf` and the host's exclusive lock, no reader ever
/// observes such a snapshot.
pub proof fn lemma_snapshot_never_torn(s: AuthStateV)
    requires
        s.wf(),
    ensures
        !(s.auth is Done && s.tagid.len() == 0),
        !(s.auth is Idle && (s.imax != 0 || s.pmax != 0)),
{
}

/// Every transition that changes the published session phase also publishes
/// the new phase — in fact as its first action, before any gateway round
/// trip.
pub proof fn lemma_publish_on_every_transition(m: MachineV, ev: EventV)
    requires
        m.wf(),
        m.accepts(ev),
    ensures
        ({
            let t = m.next(ev);
            t.m.state.auth != m.state.auth ==> {
                &&& t.actions.len() > 0
                &&& t.actions[0] == ActionV::PublishAuth(t.m.state.auth)
            }
        }),
{
}

/// A login while a session is already `Done` is rejected with
/// `AlreadyAuthenticated`, issues no gateway call and publishes nothing,
/// and leaves the machine unchanged.
pub proof fn lemma_login_already_authenticated(m: MachineV)
    requires
        m.wf(),
        m.phase is Ready,
        m.state.auth is Done,
    ensures
        m.next(EventV::LoginRequest).m == m,
        m.next(EventV::LoginRequest).actions =~= Seq::<ActionV>::empty(),
        m.next(EventV::LoginRequest).reply == Some(
            Err::<AuthStateV, AuthErrorV>(AuthErrorV::AlreadyAuthenticated),
        ),
{
}

/// A login whose tag lookup fails ends in `Fail` with an empty tag, after
/// exactly one contract-gateway call (the tag lookup) and no backend or
/// meter call, and is rejected as an invalid tag.
pub proof fn lemma_login_invalid_tag(m: MachineV)
    requires
        m.wf(),
        m.phase is Ready,
        !(m.state.auth is Done),
    ensures
        ({
            let t1 = m.next(EventV::LoginRequest);
            let t2 = t1.m.next(EventV::TagFail);
            &&& t1.actions =~= seq![
                ActionV::PublishAuth(AuthMsg::Pending),
                ActionV::CallGetTagid,
            ]
            &&& t2.actions =~= seq![ActionV::PublishAuth(AuthMsg::Fail)]
            &&& t2.m.state.auth is Fail
            &&& t2.m.state.tagid.len() == 0
            &&& t2.m.phase is Ready
            &&& t2.reply == Some(
                Err::<AuthStateV, AuthErrorV>(
                    AuthErrorV::LoginRejected { reason: RejectReason::InvalidTag },
                ),
            )
        }),
{
}

/// A login whose tag and contract lookups succeed, for a contract that asks
/// for backend coordination, ends `Done` with that tag and those limits and
/// issues, in order: get-tagid, get-contract, authorize, transaction-start,
/// meter-subscribe.
pub proof fn lemma_login_success_with_backend(m: MachineV, tag: Seq<char>, c: ContractData)
    requires
        m.wf(),
        m.phase is Ready,
        !(m.state.auth is Done),
        tag.len() > 0,
        contract_ocpp(c),
    ensures
        ({
            let t1 = m.next(EventV::LoginRequest);
            let t2 = t1.m.next(EventV::TagOk(tag));
            let t3 = t2.m.next(EventV::ContractOk(c));
            let t4 = t3.m.next(EventV::GatewayOk);
            let t5 = t4.m.next(EventV::GatewayOk);
            let t6 = t5.m.next(EventV::GatewayOk);
            &&& t1.actions + t2.actions + t3.actions + t4.actions + t5.actions + t6.actions
                =~= seq![
                ActionV::PublishAuth(AuthMsg::Pending),
                ActionV::CallGetTagid,
                ActionV::CallGetContract,
                ActionV::CallAuthorize(tag),
                ActionV::CallTransactionStart(tag),
                ActionV::CallSubscribeMeter,
                ActionV::PublishAuth(AuthMsg::Done),
            ]
            &&& t6.m.state == (AuthStateV {
                tagid: tag,
                auth: AuthMsg::Done,
                imax: contract_imax(c),
                pmax: contract_pmax(c),
                ocpp_check: true,
            })
            &&& t6.m.phase is Ready
            &&& t6.reply == Some(Ok::<AuthStateV, AuthErrorV>(t6.m.state))
        }),
{
}

/// A login whose contract opts out of backend coordination settles `Done`
/// right after the two contract-gateway calls: no authorize, no
/// transaction, no meter subscription.
pub proof fn lemma_login_success_without_backend(m: MachineV, tag: Seq<char>, c: ContractData)
    requires
        m.wf(),
        m.phase is Ready,
        !(m.state.auth is Done),
        tag.len() > 0,
        !contract_ocpp(c),
    ensures
        ({
            let t1 = m.next(EventV::LoginRequest);
            let t2 = t1.m.next(EventV::TagOk(tag));
            let t3 = t2.m.next(EventV::ContractOk(c));
            &&& t1.actions + t2.actions + t3.actions =~= seq![
                ActionV::PublishAuth(AuthMsg::Pending),
                ActionV::CallGetTagid,
                ActionV::CallGetContract,
                ActionV::PublishAuth(AuthMsg::Done),
            ]
            &&& t3.m.state == (AuthStateV {
                tagid: tag,
                auth: AuthMsg::Done,
                imax: contract_imax(c),
                pmax: contract_pmax(c),
                ocpp_check: false,
            })
            &&& t3.m.phase is Ready
            &&& t3.reply == Some(Ok::<AuthStateV, AuthErrorV>(t3.m.state))
        }),
{
}

/// A logout while no session is `Done` is rejected with `NotAuthenticated`,
/// issues no gateway call and publishes nothing, and leaves the machine
/// unchanged.
pub proof fn lemma_logout_not_authenticated(m: MachineV)
    requires
        m.wf(),
        m.phase is Ready,
        !(m.state.auth is Done),
    ensures
        m.next(EventV::LogoutRequest).m == m,
        m.next(EventV::LogoutRequest).actions =~= Seq::<ActionV>::empty(),
        m.next(EventV::LogoutRequest).reply == Some(
            Err::<AuthStateV, AuthErrorV>(AuthErrorV::NotAuthenticated),
        ),
{
}

/// A logout of a `Done` session with backend coordination commits and
/// publishes the idle state first, then issues the meter unsubscribe
/// followed by the backend transaction stop, and settles with the default
/// snapshot.
pub proof fn lemma_logout_teardown_order(m: MachineV)
    requires
        m.wf(),
        m.phase is Ready,
        m.state.auth is Done,
        m.state.ocpp_check,
    ensures
        ({
            let t1 = m.next(EventV::LogoutRequest);
            let t2 = t1.m.next(EventV::GatewayOk);
            let t3 = t2.m.next(EventV::GatewayOk);
            &&& t1.m.state == default_state_v()
            &&& t1.actions =~= seq![
                ActionV::PublishAuth(AuthMsg::Idle),
                ActionV::CallUnsubscribeMeter,
            ]
            &&& t2.actions =~= seq![ActionV::CallTransactionStop]
            &&& t3.actions =~= Seq::<ActionV>::empty()
            &&& t3.m == initial_machine()
            &&& t3.reply == Some(Ok::<AuthStateV, AuthErrorV>(default_state_v()))
        }),
{
}

/// A reset from any well-formed ready state ends at the default snapshot,
/// settles at once with it, and publishes exactly one `Idle` event — the
/// only other action it can issue is the best-effort transaction stop.
pub proof fn lemma_reset_from_any_state(m: MachineV)
    requires
        m.wf(),
        m.phase is Ready,
    ensures
        ({
            let t = m.next(EventV::ResetRequest);
            &&& t.m == initial_machine()
            &&& t.reply == Some(Ok::<AuthStateV, AuthErrorV>(default_state_v()))
            &&& m.state.ocpp_check ==> t.actions =~= seq![
                ActionV::PublishAuth(AuthMsg::Idle),
                ActionV::CallTransactionStop,
            ]
            &&& !m.state.ocpp_check ==> t.actions =~= seq![ActionV::PublishAuth(AuthMsg::Idle)]
        }),
{
}

/// Round trip: a successful login from the initial machine followed by a
/// successful logout restores exactly the initial default state, whether or
/// not the contract asked for backend coordination.
pub proof fn lemma_login_logout_round_trip(tag: Seq<char>, c: ContractData)
    requires
        tag.len() > 0,
    ensures
        contract_ocpp(c) ==> ({
            let t1 = initial_machine().next(EventV::LoginRequest);
            let t2 = t1.m.next(EventV::TagOk(tag));
            let t3 = t2.m.next(EventV::ContractOk(c));
            let t4 = t3.m.next(EventV::GatewayOk);
            let t5 = t4.m.next(EventV::GatewayOk);
            let t6 = t5.m.next(EventV::GatewayOk);
            let u1 = t6.m.next(EventV::LogoutRequest);
            let u2 = u1.m.next(EventV::GatewayOk);
            let u3 = u2.m.next(EventV::GatewayOk);
            &&& t6.m.state.auth is Done
            &&& u3.m == initial_machine()
            &&& u3.reply == Some(Ok::<AuthStateV, AuthErrorV>(default_state_v()))
        }),
        !contract_ocpp(c) ==> ({
            let t1 = initial_machine().next(EventV::LoginRequest);
            let t2 = t1.m.next(EventV::TagOk(tag));
            let t3 = t2.m.next(EventV::ContractOk(c));
            let u1 = t3.m.next(EventV::LogoutRequest);
            &&& t3.m.state.auth is Done
            &&& u1.m == initial_machine()
            &&& u1.reply == Some(Ok::<AuthStateV, AuthErrorV>(default_state_v()))
        }),
{
    assert(initial_machine().wf());
}

} // verus!
