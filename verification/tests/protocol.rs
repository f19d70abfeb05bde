use libauth::errors::{AuthError, GatewayKind, RejectReason};
use libauth::manager::{Action, Event, ManagerHandle};
use libauth::state::{AuthMsg, EnergyState};

#[test]
fn accepts_matches_the_machine() {
    let mut mgr = ManagerHandle::new();
    assert!(mgr.accepts(&Event::LoginRequest));
    assert!(mgr.accepts(&Event::LogoutRequest));
    assert!(mgr.accepts(&Event::ResetRequest));
    assert!(!mgr.accepts(&Event::GatewayOk));
    assert!(!mgr.accepts(&Event::TagOk("t".to_string())));
    let _ = mgr.login();
    assert!(!mgr.is_ready());
    assert!(mgr.accepts(&Event::TagOk("t".to_string())));
    assert!(mgr.accepts(&Event::TagFail));
    assert!(!mgr.accepts(&Event::LoginRequest));
    assert!(!mgr.accepts(&Event::GatewayOk));
}

#[test]
fn update_engy_state_forwards_the_payload_unchanged() {
    let mgr = ManagerHandle::new();
    let measure = EnergyState(vec![4, 0, 255, 17]);
    assert_eq!(
        mgr.update_engy_state(measure),
        Action::CallPushMeasure(EnergyState(vec![4, 0, 255, 17]))
    );
}

#[test]
fn error_messages_are_distinct() {
    let messages = vec![
        AuthError::AlreadyAuthenticated.message(),
        AuthError::NotAuthenticated.message(),
        AuthError::LoginRejected { reason: RejectReason::InvalidTag }.message(),
        AuthError::LoginRejected { reason: RejectReason::InvalidContract }.message(),
        AuthError::GatewayCallFailed { which: GatewayKind::Authorize, cause: String::new() }.message(),
        AuthError::GatewayCallFailed { which: GatewayKind::TransactionStart, cause: String::new() }.message(),
        AuthError::GatewayCallFailed { which: GatewayKind::SubscribeMeter, cause: String::new() }.message(),
        AuthError::GatewayCallFailed { which: GatewayKind::UnsubscribeMeter, cause: String::new() }.message(),
        AuthError::GatewayCallFailed { which: GatewayKind::TransactionStop, cause: String::new() }.message(),
        AuthError::GatewayCallFailed { which: GatewayKind::PushMeasure, cause: String::new() }.message(),
    ];
    for (i, a) in messages.iter().enumerate() {
        assert!(!a.is_empty());
        for b in messages.iter().skip(i + 1) {
            assert_ne!(a, b);
        }
    }
}

#[test]
fn login_rejection_messages_name_the_cause() {
    assert_eq!(
        AuthError::LoginRejected { reason: RejectReason::InvalidTag }.message(),
        "invalid nfc tagid authentication refused"
    );
    assert_eq!(
        AuthError::LoginRejected { reason: RejectReason::InvalidContract }.message(),
        "invalid subscription contract"
    );
}

#[test]
fn published_phases_cover_every_transition() {
    // One full failed attempt and one full session publish, in order:
    // Pending, Fail, Pending, Done, Idle.
    let mut mgr = ManagerHandle::new();
    let mut published: Vec<AuthMsg> = Vec::new();
    let mut collect = |step: &libauth::manager::Step, published: &mut Vec<AuthMsg>| {
        for a in step.actions.iter() {
            if let Action::PublishAuth(m) = a {
                published.push(*m);
            }
        }
    };
    let s = mgr.login();
    collect(&s, &mut published);
    let s = mgr.step(Event::TagFail);
    collect(&s, &mut published);
    let s = mgr.login();
    collect(&s, &mut published);
    let s = mgr.step(Event::TagOk("tag-20".to_string()));
    collect(&s, &mut published);
    let s = mgr.step(Event::ContractOk(libauth::state::ContractData {
        imax: None,
        pmax: None,
        ocpp_check: Some(false),
    }));
    collect(&s, &mut published);
    let s = mgr.logout();
    collect(&s, &mut published);
    assert_eq!(
        published,
        vec![AuthMsg::Pending, AuthMsg::Fail, AuthMsg::Pending, AuthMsg::Done, AuthMsg::Idle]
    );
}

#[test]
fn actions_compare_by_their_payload() {
    let a = Action::CallAuthorize("x".to_string());
    let b = Action::CallAuthorize("x".to_string());
    assert_eq!(a, b);
    assert_ne!(a, Action::CallAuthorize("y".to_string()));
    assert_ne!(a, Action::CallTransactionStart("x".to_string()));
}
