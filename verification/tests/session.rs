use libauth::errors::{AuthError, GatewayKind, RejectReason};
use libauth::manager::{Action, Event, ManagerHandle, Step};
use libauth::state::{AuthMsg, AuthState, ContractData};

fn contract(imax: Option<u32>, pmax: Option<u32>, ocpp_check: Option<bool>) -> ContractData {
    ContractData { imax, pmax, ocpp_check }
}

fn default_snapshot() -> AuthState {
    AuthState {
        tagid: String::new(),
        auth: AuthMsg::Idle,
        imax: 0,
        pmax: 0,
        ocpp_check: false,
    }
}

/// Drives a full backend-coordinated login and returns every action the
/// machine issued, in order.
fn login_to_done(mgr: &mut ManagerHandle, tag: &str, c: ContractData) -> (Vec<Action>, Step) {
    let mut all: Vec<Action> = Vec::new();
    let mut step = mgr.login();
    all.extend(step.actions.iter().cloned());
    step = mgr.step(Event::TagOk(tag.to_string()));
    all.extend(step.actions.iter().cloned());
    step = mgr.step(Event::ContractOk(c));
    all.extend(step.actions.iter().cloned());
    while step.reply.is_none() {
        step = mgr.step(Event::GatewayOk);
        all.extend(step.actions.iter().cloned());
    }
    (all, step)
}

#[test]
fn initial_state_is_default() {
    let mgr = ManagerHandle::new();
    assert_eq!(mgr.get_state(), default_snapshot());
    assert!(mgr.is_ready());
}

#[test]
fn login_success_with_backend_sequence() {
    let mut mgr = ManagerHandle::new();
    let c = contract(Some(16), Some(11), Some(true));
    let (all, last) = login_to_done(&mut mgr, "tag-1", c);
    assert_eq!(
        all,
        vec![
            Action::PublishAuth(AuthMsg::Pending),
            Action::CallGetTagid,
            Action::CallGetContract,
            Action::CallAuthorize("tag-1".to_string()),
            Action::CallTransactionStart("tag-1".to_string()),
            Action::CallSubscribeMeter,
            Action::PublishAuth(AuthMsg::Done),
        ]
    );
    let expected = AuthState {
        tagid: "tag-1".to_string(),
        auth: AuthMsg::Done,
        imax: 16,
        pmax: 11,
        ocpp_check: true,
    };
    assert_eq!(last.reply, Some(Ok(expected.clone())));
    assert_eq!(mgr.get_state(), expected);
}

#[test]
fn login_success_without_backend() {
    let mut mgr = ManagerHandle::new();
    let mut step = mgr.login();
    assert!(step.reply.is_none());
    step = mgr.step(Event::TagOk("tag-2".to_string()));
    assert_eq!(step.actions, vec![Action::CallGetContract]);
    step = mgr.step(Event::ContractOk(contract(Some(8), Some(4), Some(false))));
    assert_eq!(step.actions, vec![Action::PublishAuth(AuthMsg::Done)]);
    let expected = AuthState {
        tagid: "tag-2".to_string(),
        auth: AuthMsg::Done,
        imax: 8,
        pmax: 4,
        ocpp_check: false,
    };
    assert_eq!(step.reply, Some(Ok(expected.clone())));
    assert_eq!(mgr.get_state(), expected);
    assert!(mgr.is_ready());
}

#[test]
fn login_already_authenticated() {
    let mut mgr = ManagerHandle::new();
    let _ = login_to_done(&mut mgr, "tag-3", contract(None, None, Some(true)));
    let step = mgr.login();
    assert_eq!(step.actions, Vec::<Action>::new());
    assert_eq!(step.reply, Some(Err(AuthError::AlreadyAuthenticated)));
    assert_eq!(mgr.get_state().auth, AuthMsg::Done);
}

#[test]
fn login_tag_failure_sequence() {
    let mut mgr = ManagerHandle::new();
    let step = mgr.login();
    assert_eq!(
        step.actions,
        vec![Action::PublishAuth(AuthMsg::Pending), Action::CallGetTagid]
    );
    assert!(step.reply.is_none());
    let step = mgr.step(Event::TagFail);
    assert_eq!(step.actions, vec![Action::PublishAuth(AuthMsg::Fail)]);
    assert_eq!(
        step.reply,
        Some(Err(AuthError::LoginRejected { reason: RejectReason::InvalidTag }))
    );
    let s = mgr.get_state();
    assert_eq!(s.auth, AuthMsg::Fail);
    assert_eq!(s.tagid, "");
}

#[test]
fn login_empty_tag_rejected() {
    let mut mgr = ManagerHandle::new();
    let _ = mgr.login();
    let step = mgr.step(Event::TagOk(String::new()));
    assert_eq!(step.actions, vec![Action::PublishAuth(AuthMsg::Fail)]);
    assert_eq!(
        step.reply,
        Some(Err(AuthError::LoginRejected { reason: RejectReason::InvalidTag }))
    );
    assert_eq!(mgr.get_state().auth, AuthMsg::Fail);
}

#[test]
fn login_contract_failure() {
    let mut mgr = ManagerHandle::new();
    let _ = mgr.login();
    let _ = mgr.step(Event::TagOk("tag-4".to_string()));
    let step = mgr.step(Event::ContractFail);
    assert_eq!(step.actions, vec![Action::PublishAuth(AuthMsg::Fail)]);
    assert_eq!(
        step.reply,
        Some(Err(AuthError::LoginRejected { reason: RejectReason::InvalidContract }))
    );
    let s = mgr.get_state();
    assert_eq!(s.auth, AuthMsg::Fail);
    assert_eq!(s.tagid, "");
    assert_eq!((s.imax, s.pmax), (0, 0));
}

#[test]
fn login_authorize_failure_propagates() {
    let mut mgr = ManagerHandle::new();
    let _ = mgr.login();
    let _ = mgr.step(Event::TagOk("tag-5".to_string()));
    let step = mgr.step(Event::ContractOk(contract(None, None, None)));
    assert_eq!(step.actions, vec![Action::CallAuthorize("tag-5".to_string())]);
    let step = mgr.step(Event::GatewayFail("tag not known to backend".to_string()));
    assert_eq!(step.actions, Vec::<Action>::new());
    assert_eq!(
        step.reply,
        Some(Err(AuthError::GatewayCallFailed {
            which: GatewayKind::Authorize,
            cause: "tag not known to backend".to_string(),
        }))
    );
    // No rollback is defined for a backend refusal: the published phase
    // stays Pending, with no identity committed.
    let s = mgr.get_state();
    assert_eq!(s.auth, AuthMsg::Pending);
    assert_eq!(s.tagid, "");
    assert!(mgr.is_ready());
}

#[test]
fn transaction_start_failure_propagates() {
    let mut mgr = ManagerHandle::new();
    let _ = mgr.login();
    let _ = mgr.step(Event::TagOk("tag-6".to_string()));
    let _ = mgr.step(Event::ContractOk(contract(None, None, None)));
    let step = mgr.step(Event::GatewayOk);
    assert_eq!(step.actions, vec![Action::CallTransactionStart("tag-6".to_string())]);
    let step = mgr.step(Event::GatewayFail("backend busy".to_string()));
    assert_eq!(
        step.reply,
        Some(Err(AuthError::GatewayCallFailed {
            which: GatewayKind::TransactionStart,
            cause: "backend busy".to_string(),
        }))
    );
}

#[test]
fn pending_snapshot_is_never_torn() {
    let mut mgr = ManagerHandle::new();
    let _ = mgr.login();
    let _ = mgr.step(Event::TagOk("tag-7".to_string()));
    // Mid-login, a reader sees Pending with no identity and zero limits:
    // the working tag lives in the operation, not in the snapshot.
    let s = mgr.get_state();
    assert_eq!(s.auth, AuthMsg::Pending);
    assert_eq!(s.tagid, "");
    assert_eq!((s.imax, s.pmax), (0, 0));
}

#[test]
fn logout_not_authenticated() {
    let mut mgr = ManagerHandle::new();
    let step = mgr.logout();
    assert_eq!(step.actions, Vec::<Action>::new());
    assert_eq!(step.reply, Some(Err(AuthError::NotAuthenticated)));
    assert_eq!(mgr.get_state(), default_snapshot());
}

#[test]
fn logout_teardown_sequence() {
    let mut mgr = ManagerHandle::new();
    let _ = login_to_done(&mut mgr, "tag-8", contract(None, None, Some(true)));
    let step = mgr.logout();
    // The idle state is committed and published before any teardown call.
    assert_eq!(
        step.actions,
        vec![Action::PublishAuth(AuthMsg::Idle), Action::CallUnsubscribeMeter]
    );
    assert!(step.reply.is_none());
    assert_eq!(mgr.get_state(), default_snapshot());
    let step = mgr.step(Event::GatewayOk);
    assert_eq!(step.actions, vec![Action::CallTransactionStop]);
    assert!(step.reply.is_none());
    let step = mgr.step(Event::GatewayOk);
    assert_eq!(step.actions, Vec::<Action>::new());
    assert_eq!(step.reply, Some(Ok(default_snapshot())));
}

#[test]
fn logout_without_backend_settles_at_once() {
    let mut mgr = ManagerHandle::new();
    let _ = mgr.login();
    let _ = mgr.step(Event::TagOk("tag-9".to_string()));
    let _ = mgr.step(Event::ContractOk(contract(None, None, Some(false))));
    let step = mgr.logout();
    assert_eq!(step.actions, vec![Action::PublishAuth(AuthMsg::Idle)]);
    assert_eq!(step.reply, Some(Ok(default_snapshot())));
}

#[test]
fn logout_teardown_failure_keeps_idle() {
    let mut mgr = ManagerHandle::new();
    let _ = login_to_done(&mut mgr, "tag-10", contract(None, None, Some(true)));
    let _ = mgr.logout();
    let step = mgr.step(Event::GatewayFail("meter unreachable".to_string()));
    assert_eq!(
        step.reply,
        Some(Err(AuthError::GatewayCallFailed {
            which: GatewayKind::UnsubscribeMeter,
            cause: "meter unreachable".to_string(),
        }))
    );
    // The committed idle state is not rolled back by a teardown failure.
    assert_eq!(mgr.get_state(), default_snapshot());
    assert!(mgr.is_ready());
}

#[test]
fn reset_from_done_stops_transaction() {
    let mut mgr = ManagerHandle::new();
    let _ = login_to_done(&mut mgr, "tag-11", contract(None, None, Some(true)));
    let step = mgr.reset();
    assert_eq!(
        step.actions,
        vec![Action::PublishAuth(AuthMsg::Idle), Action::CallTransactionStop]
    );
    assert_eq!(step.reply, Some(Ok(default_snapshot())));
    assert_eq!(mgr.get_state(), default_snapshot());
}

#[test]
fn reset_from_idle_publishes_idle_once() {
    let mut mgr = ManagerHandle::new();
    let step = mgr.reset();
    assert_eq!(step.actions, vec![Action::PublishAuth(AuthMsg::Idle)]);
    assert_eq!(step.reply, Some(Ok(default_snapshot())));
}

#[test]
fn reset_from_fail_state() {
    let mut mgr = ManagerHandle::new();
    let _ = mgr.login();
    let _ = mgr.step(Event::TagFail);
    let step = mgr.reset();
    assert_eq!(step.actions, vec![Action::PublishAuth(AuthMsg::Idle)]);
    assert_eq!(mgr.get_state(), default_snapshot());
}

#[test]
fn round_trip_restores_default() {
    let mut mgr = ManagerHandle::new();
    let initial = mgr.get_state();
    let _ = login_to_done(&mut mgr, "tag-12", contract(Some(63), Some(43), Some(true)));
    let _ = mgr.logout();
    let _ = mgr.step(Event::GatewayOk);
    let step = mgr.step(Event::GatewayOk);
    assert_eq!(step.reply, Some(Ok(initial.clone())));
    assert_eq!(mgr.get_state(), initial);
    assert!(mgr.is_ready());
}

#[test]
fn contract_defaults_applied() {
    let mut mgr = ManagerHandle::new();
    // All contract fields absent: limits default to 32/22 and backend
    // coordination defaults to on.
    let (all, last) = login_to_done(&mut mgr, "tag-13", contract(None, None, None));
    assert!(all.contains(&Action::CallAuthorize("tag-13".to_string())));
    let s = last.reply.unwrap().unwrap();
    assert_eq!(s.imax, 32);
    assert_eq!(s.pmax, 22);
    assert!(s.ocpp_check);
}

#[test]
fn contract_default_helpers() {
    let c = contract(None, Some(7), None);
    assert_eq!(c.imax_or_default(), 32);
    assert_eq!(c.pmax_or_default(), 7);
    assert!(c.ocpp_or_default());
    let c = contract(Some(0), None, Some(false));
    assert_eq!(c.imax_or_default(), 0);
    assert_eq!(c.pmax_or_default(), 22);
    assert!(!c.ocpp_or_default());
}
