//! The session facade: the authentication state machine composed with the
//! cookie store. The surrounding application performs each network exchange
//! and hands the reply — a status code and a body — to the matching
//! `*_response` method, which parses, decides and transitions.
//!
//! Invariant: the machine is never `Authenticated` for an account without
//! cookie material recorded for that account, and never leaves
//! `Authenticated` except through an explicit `logout`.

use crate::auth::{choose_method, spec_choose_method, SessionState, StateV, TwoFactorMethod};
use crate::cookies::{
    spec_clear, spec_load, spec_save, spec_set_active, CookieJarStore, CookieRecord, StoreV,
};
use crate::errors::{ApiError, ApiErrorV};
use crate::json::{
    bool_field, json_bool_field, json_string_array_field, json_string_field, string_array_field,
    string_field,
};
use vstd::prelude::*;
use vstd::string::StringExecFns;

verus! {

/// What `beginLogin` reports on success.
#[derive(Debug, Clone)]
pub enum LoginOutcome {
    /// The remote demands a second factor; the machine is now pending.
    SecondFactorRequired { method: TwoFactorMethod },
    /// No second factor required; the session is established and persisted.
    SessionEstablished { account_id: String },
}

/// Ghost image of `LoginOutcome`.
pub ghost enum LoginOutcomeV {
    SecondFactorRequired { method: TwoFactorMethod },
    SessionEstablished { account_id: Seq<char> },
}

impl View for LoginOutcome {
    type V = LoginOutcomeV;

    open spec fn view(&self) -> LoginOutcomeV {
        match self {
            LoginOutcome::SecondFactorRequired { method } => LoginOutcomeV::SecondFactorRequired {
                method: *method,
            },
            LoginOutcome::SessionEstablished { account_id } => LoginOutcomeV::SessionEstablished {
                account_id: account_id@,
            },
        }
    }
}

/// What a second-factor verification reply decided.
#[derive(Clone, Copy, Debug, PartialEq, Eq, Structural)]
pub enum SecondFactorStep {
    /// The remote reported the code not verified: the machine stays
    /// pending; a retry is expected, this is no failure.
    NotVerified,
    /// The remote verified the code: the caller must now fetch the current
    /// account identity and hand the reply to
    /// `second_factor_identity_response`, which completes authentication.
    VerifiedNeedsIdentity,
}

/// Ghost image of the facade: machine state plus store contents.
pub ghost struct FacadeV {
    pub state: StateV,
    pub store: StoreV,
}

/// How a login reply moves the machine. `methods` and `account` are the
/// `requiresTwoFactorAuth` and `id` fields extracted from the reply body.
pub open spec fn spec_begin_login(
    f: FacadeV,
    status: u16,
    methods: Option<Seq<Seq<char>>>,
    account: Option<Seq<char>>,
) -> (FacadeV, Result<LoginOutcomeV, ApiErrorV>) {
    if status == 200 {
        match methods {
            Some(ms) => (
                FacadeV {
                    state: StateV::PendingSecondFactor { method: spec_choose_method(ms) },
                    store: f.store,
                },
                Ok(LoginOutcomeV::SecondFactorRequired { method: spec_choose_method(ms) }),
            ),
            None => match account {
                Some(a) => (
                    FacadeV {
                        state: StateV::Authenticated { account_id: a },
                        store: spec_save(f.store, a),
                    },
                    Ok(LoginOutcomeV::SessionEstablished { account_id: a }),
                ),
                None => (f, Err(ApiErrorV::TransportOrServiceError { status: 200 })),
            },
        }
    } else if status == 401 {
        (f, Err(ApiErrorV::AuthRejected))
    } else {
        (f, Err(ApiErrorV::TransportOrServiceError { status }))
    }
}

/// Which endpoint a second-factor submission must go to: only a pending
/// machine names one; any other state is a rejected contract violation.
pub open spec fn spec_second_factor_target(f: FacadeV) -> Result<TwoFactorMethod, ApiErrorV> {
    match f.state {
        StateV::PendingSecondFactor { method } => Ok(method),
        _ => Err(ApiErrorV::SecondFactorRejected),
    }
}

/// How a second-factor verification reply moves the machine: it never does —
/// the state advances only once the account identity is confirmed.
/// `verified` is the `verified` field extracted from the reply body.
pub open spec fn spec_second_factor_response(f: FacadeV, status: u16, verified: Option<bool>) -> (
    FacadeV,
    Result<SecondFactorStep, ApiErrorV>,
) {
    if status == 200 {
        if verified == Some(true) {
            (f, Ok(SecondFactorStep::VerifiedNeedsIdentity))
        } else {
            (f, Ok(SecondFactorStep::NotVerified))
        }
    } else if status == 401 || status == 400 {
        (f, Err(ApiErrorV::SecondFactorRejected))
    } else {
        (f, Err(ApiErrorV::TransportOrServiceError { status }))
    }
}

/// How the identity reply after a verified second factor completes
/// authentication: the account id is read out of the reply, the active
/// cookie material is persisted under it, and the machine authenticates.
/// Anything else keeps the machine pending.
pub open spec fn spec_identity_response(f: FacadeV, status: u16, account: Option<Seq<char>>) -> (
    FacadeV,
    Result<Seq<char>, ApiErrorV>,
) {
    if status == 200 {
        match account {
            Some(a) => (
                FacadeV {
                    state: StateV::Authenticated { account_id: a },
                    store: spec_save(f.store, a),
                },
                Ok(a),
            ),
            None => (f, Err(ApiErrorV::SecondFactorRejected)),
        }
    } else {
        (f, Err(ApiErrorV::SecondFactorRejected))
    }
}

/// How a session-check reply moves the machine when resuming a persisted
/// session: success authenticates without writing any cookie material;
/// anything else leaves the machine untouched. `ok` is the `ok` field
/// extracted from the reply body.
pub open spec fn spec_verify_session(
    f: FacadeV,
    account_id: Seq<char>,
    status: u16,
    ok: Option<bool>,
) -> (FacadeV, Result<bool, ApiErrorV>) {
    if status == 200 {
        if ok == Some(true) {
            (FacadeV { state: StateV::Authenticated { account_id }, store: f.store }, Ok(true))
        } else {
            (f, Ok(false))
        }
    } else if status == 401 {
        (f, Err(ApiErrorV::SessionInvalid))
    } else {
        (f, Err(ApiErrorV::TransportOrServiceError { status }))
    }
}

/// Logging out: back to anonymous, the active jar emptied; durable records
/// stay (an explicit account switch is what replaces them).
pub open spec fn spec_logout(f: FacadeV) -> FacadeV {
    FacadeV { state: StateV::Anonymous, store: spec_clear(f.store) }
}

pub open spec fn login_result_view(r: Result<LoginOutcome, ApiError>) -> Result<
    LoginOutcomeV,
    ApiErrorV,
> {
    match r {
        Ok(o) => Ok(o@),
        Err(e) => Err(e@),
    }
}

pub open spec fn method_result_view(r: Result<TwoFactorMethod, ApiError>) -> Result<
    TwoFactorMethod,
    ApiErrorV,
> {
    match r {
        Ok(m) => Ok(m),
        Err(e) => Err(e@),
    }
}

pub open spec fn step_result_view(r: Result<SecondFactorStep, ApiError>) -> Result<
    SecondFactorStep,
    ApiErrorV,
> {
    match r {
        Ok(s) => Ok(s),
        Err(e) => Err(e@),
    }
}

pub open spec fn account_result_view(r: Result<String, ApiError>) -> Result<Seq<char>, ApiErrorV> {
    match r {
        Ok(a) => Ok(a@),
        Err(e) => Err(e@),
    }
}

pub open spec fn bool_result_view(r: Result<bool, ApiError>) -> Result<bool, ApiErrorV> {
    match r {
        Ok(b) => Ok(b),
        Err(e) => Err(e@),
    }
}

/// The authentication state machine composed with the cookie store.
pub struct SessionFacade {
    state: SessionState,
    store: CookieJarStore,
}

impl View for SessionFacade {
    type V = FacadeV;

    closed spec fn view(&self) -> FacadeV {
        FacadeV { state: self.state@, store: self.store@ }
    }
}

impl SessionFacade {
    /// Well-formed: the store's records are consistent, and an
    /// authenticated machine always has cookie material recorded for its
    /// account.
    pub closed spec fn wf(self) -> bool {
        &&& self.store.wf()
        &&& (self@.state matches StateV::Authenticated { account_id } ==> self@.store.saved.contains_key(account_id))
    }

    /// A fresh facade: anonymous, empty jar, no records.
    pub fn new() -> (r: Self)
        ensures
            r.wf(),
            r@.state == StateV::Anonymous,
            r@.store.active == Seq::<char>::empty(),
            r@.store.saved == Map::<Seq<char>, Seq<char>>::empty(),
    {
        SessionFacade { state: SessionState::Anonymous, store: CookieJarStore::new() }
    }

    /// The current machine state.
    pub fn state(&self) -> (r: &SessionState)
        ensures
            r@ == self@.state,
    {
        &self.state
    }

    /// Digests the login reply. On success without a second-factor demand
    /// the session is established and the active cookie material persisted
    /// under the reported account id; with a demand the machine goes
    /// pending and nothing is persisted; a 401 reports rejected
    /// credentials and any other reply the status observed, both leaving
    /// the machine unchanged. A login never starts from the authenticated
    /// state: the machine leaves `Authenticated` only through `logout`, so
    /// the caller logs out first.
    pub fn begin_login_response(&mut self, status: u16, body: &str) -> (r: Result<
        LoginOutcome,
        ApiError,
    >)
        requires
            old(self).wf(),
            !(old(self)@.state is Authenticated),
        ensures
            final(self).wf(),
            ({
                let (nf, res) = spec_begin_login(
                    old(self)@,
                    status,
                    json_string_array_field(body@, "requiresTwoFactorAuth"@),
                    json_string_field(body@, "id"@),
                );
                final(self)@ == nf && login_result_view(r) == res
            }),
    {
        if status == 200 {
            match string_array_field(body, "requiresTwoFactorAuth") {
                Some(methods) => {
                    let method = choose_method(&methods);
                    self.state = SessionState::PendingSecondFactor { method };
                    Ok(LoginOutcome::SecondFactorRequired { method })
                },
                None => match string_field(body, "id") {
                    Some(account_id) => {
                        self.store.save(account_id.as_str());
                        self.state = SessionState::Authenticated {
                            account_id: account_id.clone(),
                        };
                        Ok(LoginOutcome::SessionEstablished { account_id })
                    },
                    None => Err(ApiError::TransportOrServiceError { status: 200 }),
                },
            }
        } else if status == 401 {
            Err(ApiError::AuthRejected)
        } else {
            Err(ApiError::TransportOrServiceError { status })
        }
    }

    /// The method endpoint a second-factor code must be submitted to. In
    /// any state but pending the submission is rejected here, before any
    /// remote contact, and the machine is untouched.
    pub fn second_factor_target(&self) -> (r: Result<TwoFactorMethod, ApiError>)
        ensures
            method_result_view(r) == spec_second_factor_target(self@),
    {
        match &self.state {
            SessionState::PendingSecondFactor { method } => Ok(*method),
            _ => Err(ApiError::SecondFactorRejected),
        }
    }

    /// Digests the verification reply for a submitted code. A reply that
    /// reports the code unverified is no failure: the machine stays
    /// pending and a retry is expected. Even a verified code does not yet
    /// advance the machine — the account identity must be confirmed first.
    pub fn second_factor_response(&self, status: u16, body: &str) -> (r: Result<
        SecondFactorStep,
        ApiError,
    >)
        requires
            self@.state is PendingSecondFactor,
        ensures
            ({
                let (nf, res) = spec_second_factor_response(
                    self@,
                    status,
                    json_bool_field(body@, "verified"@),
                );
                nf == self@ && step_result_view(r) == res
            }),
    {
        if status == 200 {
            match bool_field(body, "verified") {
                Some(true) => Ok(SecondFactorStep::VerifiedNeedsIdentity),
                _ => Ok(SecondFactorStep::NotVerified),
            }
        } else if status == 401 || status == 400 {
            Err(ApiError::SecondFactorRejected)
        } else {
            Err(ApiError::TransportOrServiceError { status })
        }
    }

    /// Digests the current-account identity reply after a verified second
    /// factor: reads the account id, persists the active cookie material
    /// under it and authenticates. A reply without an id, or a non-success
    /// reply, keeps the machine pending.
    pub fn second_factor_identity_response(&mut self, status: u16, body: &str) -> (r: Result<
        String,
        ApiError,
    >)
        requires
            old(self).wf(),
            old(self)@.state is PendingSecondFactor,
        ensures
            final(self).wf(),
            ({
                let (nf, res) = spec_identity_response(
                    old(self)@,
                    status,
                    json_string_field(body@, "id"@),
                );
                final(self)@ == nf && account_result_view(r) == res
            }),
    {
        if status == 200 {
            match string_field(body, "id") {
                Some(account_id) => {
                    self.store.save(account_id.as_str());
                    self.state = SessionState::Authenticated {
                        account_id: account_id.clone(),
                    };
                    Ok(account_id)
                },
                None => Err(ApiError::SecondFactorRejected),
            }
        } else {
            Err(ApiError::SecondFactorRejected)
        }
    }

    /// Digests the session-check reply when resuming a persisted session
    /// at start-up. Success authenticates for the account whose record was
    /// loaded, writing nothing; a false or missing `ok` reports `false`
    /// and the caller falls back to interactive login; a 401 reports the
    /// session invalid.
    pub fn verify_session_response(&mut self, account_id: &str, status: u16, body: &str) -> (r:
        Result<bool, ApiError>)
        requires
            old(self).wf(),
            old(self)@.state is Anonymous,
            old(self)@.store.saved.contains_key(account_id@),
        ensures
            final(self).wf(),
            ({
                let (nf, res) = spec_verify_session(
                    old(self)@,
                    account_id@,
                    status,
                    json_bool_field(body@, "ok"@),
                );
                final(self)@ == nf && bool_result_view(r) == res
            }),
    {
        if status == 200 {
            match bool_field(body, "ok") {
                Some(true) => {
                    self.state = SessionState::Authenticated {
                        account_id: String::from_str(account_id),
                    };
                    Ok(true)
                },
                _ => Ok(false),
            }
        } else if status == 401 {
            Err(ApiError::SessionInvalid)
        } else {
            Err(ApiError::TransportOrServiceError { status })
        }
    }

    /// Back to anonymous; empties the active jar and touches no durable
    /// record.
    pub fn logout(&mut self)
        requires
            old(self).wf(),
        ensures
            final(self).wf(),
            final(self)@ == spec_logout(old(self)@),
    {
        self.state = SessionState::Anonymous;
        self.store.clear();
    }

    /// Switches the active jar to the account's saved record (empty when
    /// none exists). The machine state is untouched.
    pub fn load_account(&mut self, account_id: &str) -> (had_record: bool)
        requires
            old(self).wf(),
        ensures
            final(self).wf(),
            final(self)@.state == old(self)@.state,
            final(self)@.store == spec_load(old(self)@.store, account_id@),
            had_record == old(self)@.store.saved.contains_key(account_id@),
    {
        self.store.load(account_id)
    }

    /// Persists the active jar under the account, an idempotent overwrite.
    pub fn save_account(&mut self, account_id: &str)
        requires
            old(self).wf(),
        ensures
            final(self).wf(),
            final(self)@.state == old(self)@.state,
            final(self)@.store == spec_save(old(self)@.store, account_id@),
    {
        self.store.save(account_id)
    }

    /// Replaces the active jar contents, as the transport reports them.
    pub fn set_active_cookies(&mut self, material: String)
        requires
            old(self).wf(),
        ensures
            final(self).wf(),
            final(self)@.state == old(self)@.state,
            final(self)@.store == spec_set_active(old(self)@.store, material@),
    {
        self.store.set_active(material)
    }

    /// The active jar contents.
    pub fn active_cookies(&self) -> (r: &CookieRecord)
        ensures
            r@ == self@.store.active,
    {
        self.store.active()
    }

    /// Whether cookie material is recorded for the account.
    pub fn has_record(&self, account_id: &str) -> (r: bool)
        requires
            self.wf(),
        ensures
            r == self@.store.saved.contains_key(account_id@),
    {
        self.store.has_record(account_id)
    }

    /// Installs a record read back from durable storage at start-up.
    pub fn insert_record(&mut self, account_id: &str, record: CookieRecord)
        requires
            old(self).wf(),
        ensures
            final(self).wf(),
            final(self)@.state == old(self)@.state,
            final(self)@.store.active == old(self)@.store.active,
            final(self)@.store.saved == old(self)@.store.saved.insert(account_id@, record@),
    {
        self.store.insert_record(account_id, record)
    }

    /// The saved records, for mirroring to durable storage.
    pub fn records(&self) -> (r: &Vec<(String, CookieRecord)>)
        requires
            self.wf(),
        ensures
            r@.len() == self@.store.saved.dom().len(),
            forall|j: int|
                0 <= j < r@.len() ==> self@.store.saved.contains_key(#[trigger] r@[j].0@)
                    && self@.store.saved[r@[j].0@] == r@[j].1@,
    {
        self.store.records()
    }
}

/// A successful login reply that demands no second factor and names the
/// account establishes the session: the outcome reports the account, the
/// machine authenticates, the material active at login time is recorded
/// under the account, and a repeated save for it cannot fail and changes
/// nothing.
pub proof fn lemma_login_establishes_and_persists(f: FacadeV, account: Seq<char>)
    ensures
        ({
            let (nf, res) = spec_begin_login(f, 200, None, Some(account));
            &&& res == Ok::<LoginOutcomeV, ApiErrorV>(
                LoginOutcomeV::SessionEstablished { account_id: account },
            )
            &&& nf.state == (StateV::Authenticated { account_id: account })
            &&& nf.store.saved.contains_key(account)
            &&& nf.store.saved[account] == f.store.active
            &&& spec_save(nf.store, account) == nf.store
        }),
{
    crate::cookies::lemma_save_idempotent(f.store, account);
}

/// A login reply that demands a second factor leaves the machine pending
/// with the demanded method — never authenticated — and persists nothing.
pub proof fn lemma_login_second_factor_pending(
    f: FacadeV,
    methods: Seq<Seq<char>>,
    account: Option<Seq<char>>,
)
    ensures
        ({
            let (nf, res) = spec_begin_login(f, 200, Some(methods), account);
            &&& res == Ok::<LoginOutcomeV, ApiErrorV>(
                LoginOutcomeV::SecondFactorRequired { method: spec_choose_method(methods) },
            )
            &&& nf.state == (StateV::PendingSecondFactor { method: spec_choose_method(methods) })
            &&& !(nf.state is Authenticated)
            &&& nf.store == f.store
        }),
{
}

/// A remote rejection or any other non-success login reply is terminal for
/// the attempt and leaves the machine exactly as it was.
pub proof fn lemma_login_failure_unchanged(
    f: FacadeV,
    status: u16,
    methods: Option<Seq<Seq<char>>>,
    account: Option<Seq<char>>,
)
    requires
        status != 200,
    ensures
        spec_begin_login(f, status, methods, account).0 == f,
        status == 401 ==> spec_begin_login(f, status, methods, account).1 == Err::<
            LoginOutcomeV,
            ApiErrorV,
        >(ApiErrorV::AuthRejected),
{
}

/// A second-factor submission from the anonymous or authenticated state is
/// rejected by the machine itself, before any remote contact.
pub proof fn lemma_second_factor_rejected_outside_pending(f: FacadeV)
    requires
        !(f.state is PendingSecondFactor),
    ensures
        spec_second_factor_target(f) == Err::<TwoFactorMethod, ApiErrorV>(
            ApiErrorV::SecondFactorRejected,
        ),
{
}

/// A wrong code while pending: the remote reports it unverified, the
/// machine stays exactly in its pending state, and the answer is the
/// not-verified step, not a failure.
pub proof fn lemma_wrong_code_keeps_state(f: FacadeV)
    ensures
        spec_second_factor_response(f, 200, Some(false)) == (
            f,
            Ok::<SecondFactorStep, ApiErrorV>(SecondFactorStep::NotVerified),
        ),
        spec_second_factor_response(f, 200, None) == (
            f,
            Ok::<SecondFactorStep, ApiErrorV>(SecondFactorStep::NotVerified),
        ),
{
}

/// A confirmed identity after a verified code completes authentication and
/// records the active material under the confirmed account.
pub proof fn lemma_second_factor_completes(f: FacadeV, account: Seq<char>)
    ensures
        ({
            let (nf, res) = spec_identity_response(f, 200, Some(account));
            &&& res == Ok::<Seq<char>, ApiErrorV>(account)
            &&& nf.state == (StateV::Authenticated { account_id: account })
            &&& nf.store.saved.contains_key(account)
            &&& nf.store.saved[account] == f.store.active
        }),
{
}

/// Resuming a persisted session authenticates without writing any cookie
/// material: the store is untouched in every outcome.
pub proof fn lemma_resume_writes_nothing(
    f: FacadeV,
    account: Seq<char>,
    status: u16,
    ok: Option<bool>,
)
    ensures
        spec_verify_session(f, account, status, ok).0.store == f.store,
        status == 200 && ok == Some(true) ==> spec_verify_session(f, account, status, ok)
            == (
            FacadeV { state: StateV::Authenticated { account_id: account }, store: f.store },
            Ok::<bool, ApiErrorV>(true),
        ),
{
}

} // verus!
