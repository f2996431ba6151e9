//! Session state of the authentication machine, and the reading of the
//! second-factor demand out of a login reply.

use crate::text::str_eq;
use vstd::prelude::*;

verus! {

/// The two second-factor methods the remote service can demand.
#[derive(Clone, Copy, Debug, PartialEq, Eq, Structural)]
pub enum TwoFactorMethod {
    EmailOtp,
    Totp,
}

/// The session state, owned by the state machine and mutable only through
/// its operations.
#[derive(Debug, Clone)]
pub enum SessionState {
    /// Initial state: no credentials exchanged.
    Anonymous,
    /// The password was accepted and the remote demands a second factor.
    PendingSecondFactor { method: TwoFactorMethod },
    /// The session is fully established; cookie material for the account
    /// has been written to the store.
    Authenticated { account_id: String },
}

/// Ghost image of `SessionState`.
pub ghost enum StateV {
    Anonymous,
    PendingSecondFactor { method: TwoFactorMethod },
    Authenticated { account_id: Seq<char> },
}

impl View for SessionState {
    type V = StateV;

    open spec fn view(&self) -> StateV {
        match self {
            SessionState::Anonymous => StateV::Anonymous,
            SessionState::PendingSecondFactor { method } => StateV::PendingSecondFactor {
                method: *method,
            },
            SessionState::Authenticated { account_id } => StateV::Authenticated {
                account_id: account_id@,
            },
        }
    }
}

/// Which method a login reply's second-factor list demands: the email
/// one-time code when listed, otherwise the authenticator code.
pub open spec fn spec_choose_method(methods: Seq<Seq<char>>) -> TwoFactorMethod {
    if methods.contains("emailOtp"@) {
        TwoFactorMethod::EmailOtp
    } else {
        TwoFactorMethod::Totp
    }
}

/// Picks the demanded method out of the reply's method list.
pub fn choose_method(methods: &Vec<String>) -> (m: TwoFactorMethod)
    ensures
        m == spec_choose_method(methods.deep_view()),
{
    let n = methods.len();
    let mut i: usize = 0;
    while i < n
        invariant
            n == methods@.len(),
            i <= n,
            forall|j: int| 0 <= j < i ==> methods.deep_view()[j] != "emailOtp"@,
        decreases n - i,
    {
        if str_eq(methods[i].as_str(), "emailOtp") {
            proof {
                assert(methods.deep_view()[i as int] == methods@[i as int]@);
                assert(methods.deep_view().contains("emailOtp"@));
            }
            return TwoFactorMethod::EmailOtp;
        }
        proof {
            assert(methods.deep_view()[i as int] == methods@[i as int]@);
        }
        i += 1;
    }
    proof {
        assert(!methods.deep_view().contains("emailOtp"@));
    }
    TwoFactorMethod::Totp
}

} // verus!
