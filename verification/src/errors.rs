//! Error kinds of the session manager, each with a human-readable reason.

use vstd::prelude::*;

verus! {

/// Why a login attempt was rejected.
#[derive(Clone, Copy, Debug, PartialEq, Eq, Structural)]
pub enum RejectReason {
    /// The card-reader tag lookup failed or returned an empty identifier.
    InvalidTag,
    /// The contract/tariff lookup for the tag failed.
    InvalidContract,
}

/// Which outbound gateway round trip failed.
#[derive(Clone, Copy, Debug, PartialEq, Eq, Structural)]
pub enum GatewayKind {
    Authorize,
    TransactionStart,
    SubscribeMeter,
    UnsubscribeMeter,
    TransactionStop,
    PushMeasure,
}

/// Every failure a session-manager operation can return.
#[derive(Debug, PartialEq)]
pub enum AuthError {
    /// `login` while a session is already `Done`.
    AlreadyAuthenticated,
    /// `logout` while no session is `Done`.
    NotAuthenticated,
    /// A login attempt ended in `Fail`: tag or contract lookup was refused.
    LoginRejected { reason: RejectReason },
    /// A backend or meter round trip failed; `cause` is the gateway's own
    /// reason text, passed through unchanged.
    GatewayCallFailed { which: GatewayKind, cause: String },
}

/// Mathematical model of an `AuthError`.
#[verifier::ext_equal]
pub ghost enum AuthErrorV {
    AlreadyAuthenticated,
    NotAuthenticated,
    LoginRejected { reason: RejectReason },
    GatewayCallFailed { which: GatewayKind, cause: Seq<char> },
}

impl View for AuthError {
    type V = AuthErrorV;

    open spec fn view(&self) -> AuthErrorV {
        match self {
            AuthError::AlreadyAuthenticated => AuthErrorV::AlreadyAuthenticated,
            AuthError::NotAuthenticated => AuthErrorV::NotAuthenticated,
            AuthError::LoginRejected { reason } => AuthErrorV::LoginRejected { reason: *reason },
            AuthError::GatewayCallFailed { which, cause } => AuthErrorV::GatewayCallFailed {
                which: *which,
                cause: cause@,
            },
        }
    }
}

/// The fixed reason text of each error kind.  A gateway failure's own cause
/// text travels beside it, in the error's `cause` field.
pub open spec fn message_v(e: AuthErrorV) -> Seq<char> {
    match e {
        AuthErrorV::AlreadyAuthenticated => "current session already authenticated"@,
        AuthErrorV::NotAuthenticated => "current session not authenticated"@,
        AuthErrorV::LoginRejected { reason: RejectReason::InvalidTag } => {
            "invalid nfc tagid authentication refused"@
        },
        AuthErrorV::LoginRejected { reason: RejectReason::InvalidContract } => {
            "invalid subscription contract"@
        },
        AuthErrorV::GatewayCallFailed { which: GatewayKind::Authorize, .. } => {
            "backend authorize call failed"@
        },
        AuthErrorV::GatewayCallFailed { which: GatewayKind::TransactionStart, .. } => {
            "backend transaction start failed"@
        },
        AuthErrorV::GatewayCallFailed { which: GatewayKind::SubscribeMeter, .. } => {
            "energy meter subscribe failed"@
        },
        AuthErrorV::GatewayCallFailed { which: GatewayKind::UnsubscribeMeter, .. } => {
            "energy meter unsubscribe failed"@
        },
        AuthErrorV::GatewayCallFailed { which: GatewayKind::TransactionStop, .. } => {
            "backend transaction stop failed"@
        },
        AuthErrorV::GatewayCallFailed { which: GatewayKind::PushMeasure, .. } => {
            "backend measurement push failed"@
        },
    }
}

impl AuthError {
    /// Human-readable reason for the failure: exactly the fixed text of the
    /// error's kind, and never empty.
    pub fn message(&self) -> (r: String)
        ensures
            r@ == message_v(self@),
            r@.len() > 0,
    {
        match self {
            AuthError::AlreadyAuthenticated => {
                let m = "current session already authenticated";
                proof {
                    reveal_strlit("current session already authenticated");
                }
                m.to_owned()
            },
            AuthError::NotAuthenticated => {
                let m = "current session not authenticated";
                proof {
                    reveal_strlit("current session not authenticated");
                }
                m.to_owned()
            },
            AuthError::LoginRejected { reason: RejectReason::InvalidTag } => {
                let m = "invalid nfc tagid authentication refused";
                proof {
                    reveal_strlit("invalid nfc tagid authentication refused");
                }
                m.to_owned()
            },
            AuthError::LoginRejected { reason: RejectReason::InvalidContract } => {
                let m = "invalid subscription contract";
                proof {
                    reveal_strlit("invalid subscription contract");
                }
                m.to_owned()
            },
            AuthError::GatewayCallFailed { which: GatewayKind::Authorize, .. } => {
                let m = "backend authorize call failed";
                proof {
                    reveal_strlit("backend authorize call failed");
                }
                m.to_owned()
            },
            AuthError::GatewayCallFailed { which: GatewayKind::TransactionStart, .. } => {
                let m = "backend transaction start failed";
                proof {
                    reveal_strlit("backend transaction start failed");
                }
                m.to_owned()
            },
            AuthError::GatewayCallFailed { which: GatewayKind::SubscribeMeter, .. } => {
                let m = "energy meter subscribe failed";
                proof {
                    reveal_strlit("energy meter subscribe failed");
                }
                m.to_owned()
            },
            AuthError::GatewayCallFailed { which: GatewayKind::UnsubscribeMeter, .. } => {
                let m = "energy meter unsubscribe failed";
                proof {
                    reveal_strlit("energy meter unsubscribe failed");
                }
                m.to_owned()
            },
            AuthError::GatewayCallFailed { which: GatewayKind::TransactionStop, .. } => {
                let m = "backend transaction stop failed";
                proof {
                    reveal_strlit("backend transaction stop failed");
                }
                m.to_owned()
            },
            AuthError::GatewayCallFailed { which: GatewayKind::PushMeasure, .. } => {
                let m = "backend measurement push failed";
                proof {
                    reveal_strlit("backend measurement push failed");
                }
                m.to_owned()
            },
        }
    }
}

} // verus!
