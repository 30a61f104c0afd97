//! Authentication: who a connection is.
//!
//! A login is one step of the PLAIN mechanism: three fields parted by NUL,
//! the identity asked for, the login name and the password.

use crate::access::{engine_decision, PolicyEngine};
use crate::error::{Error, ErrorView};
use casbin::Enforcer;
use vstd::hash_map::StringHashMap;
use vstd::prelude::*;
use vstd::string::*;
use vstd::utf8::*;

verus! {

broadcast use vstd::string::group_string_axioms;

/// A login step that could not be carried out.
#[derive(Clone, Copy, Debug, PartialEq, Eq, Structural)]
pub enum SASLError {
    /// Expected UTF-8, got something else.
    UTF8,
    /// A bad challenge was provided.
    BadChallenge,
    /// The policy engine failed.
    Enforcer,
}

impl SASLError {
    /// What every failed exchange is reported as.
    pub fn message(&self) -> (text: String)
        ensures
            text@ == "Bad SASL Exchange"@,
    {
        "Bad SASL Exchange".to_owned()
    }
}

/// The places at which `text` holds a NUL, in rising order.
pub open spec fn nul_positions(text: Seq<char>) -> Seq<int>
    decreases text.len(),
{
    if text.len() == 0 {
        Seq::empty()
    } else if text.last() == '\0' {
        nul_positions(text.drop_last()).push(text.len() - 1)
    } else {
        nul_positions(text.drop_last())
    }
}

/// The three fields of a text that holds exactly two NULs; nothing for any
/// other text.
pub open spec fn split_nul_spec(text: Seq<char>) -> Option<(Seq<char>, Seq<char>, Seq<char>)> {
    let at = nul_positions(text);
    if at.len() == 2 {
        Some(
            (
                text.subrange(0, at[0]),
                text.subrange(at[0] + 1, at[1]),
                text.subrange(at[1] + 1, text.len() as int),
            ),
        )
    } else {
        None
    }
}

/// Three texts as plain values.
pub open spec fn fields_view(fields: Option<(&str, &str, &str)>) -> Option<
    (Seq<char>, Seq<char>, Seq<char>),
> {
    match fields {
        Some((a, b, c)) => Some((a@, b@, c@)),
        None => None,
    }
}

/// Every position listed is a place in the text, and they rise.
pub proof fn lemma_nul_positions_bounds(text: Seq<char>)
    ensures
        forall|i: int|
            0 <= i < nul_positions(text).len() ==> 0 <= (#[trigger] nul_positions(text)[i])
                < text.len(),
        forall|i: int, j: int|
            0 <= i < j < nul_positions(text).len() ==> (#[trigger] nul_positions(text)[i]) < (
            #[trigger] nul_positions(text)[j]),
    decreases text.len(),
{
    if text.len() > 0 {
        let rest = text.drop_last();
        lemma_nul_positions_bounds(rest);
        let at = nul_positions(text);
        let before = nul_positions(rest);
        assert forall|i: int| 0 <= i < at.len() implies 0 <= (#[trigger] at[i]) < text.len() by {
            if i < before.len() {
                assert(at[i] == before[i]);
            }
        }
        assert forall|i: int, j: int| 0 <= i < j < at.len() implies (#[trigger] at[i]) < (
        #[trigger] at[j]) by {
            assert(at[i] == before[i]);
            if j < before.len() {
                assert(at[j] == before[j]);
            }
        }
    }
}

/// Splits a text on NUL into exactly three fields.
pub fn split_nul(string: &str) -> (fields: Option<(&str, &str, &str)>)
    ensures
        fields_view(fields) == split_nul_spec(string@),
{
    let len = string.unicode_len();
    let mut count: usize = 0;
    let mut first: usize = 0;
    let mut second: usize = 0;
    let mut pos: usize = 0;
    proof {
        assert(string@.take(0) =~= Seq::<char>::empty());
    }
    for c in it: string.chars()
        invariant
            it.seq() == string@,
            len == string@.len(),
            pos == it.index(),
            pos <= len,
            count <= 3,
            count < 3 ==> nul_positions(string@.take(pos as int)).len() == count,
            count == 3 ==> nul_positions(string@.take(pos as int)).len() >= 3,
            count >= 1 ==> nul_positions(string@.take(pos as int))[0] == first,
            count >= 2 ==> nul_positions(string@.take(pos as int))[1] == second,
    {
        proof {
            let before = string@.take(pos as int);
            let now = string@.take(pos as int + 1);
            assert(now.drop_last() =~= before);
            assert(now.last() == c);
        }
        if c == '\0' {
            if count == 0 {
                first = pos;
            } else if count == 1 {
                second = pos;
            }
            if count < 3 {
                count = count + 1;
            }
        }
        pos = pos + 1;
    }
    proof {
        assert(string@.take(pos as int) =~= string@);
        lemma_nul_positions_bounds(string@);
    }
    if count == 2 {
        let a = string.substring_char(0, first);
        let b = string.substring_char(first + 1, second);
        let c = string.substring_char(second + 1, len);
        Some((a, b, c))
    } else {
        None
    }
}

/// `std::str::from_utf8`: the text that `data` encodes, where `data` is
/// valid UTF-8, and nothing where it is not.
#[verifier::external_body]
fn text_from_utf8(data: &[u8]) -> (text: Option<&str>)
    ensures
        text is Some <==> valid_utf8(data@),
        text matches Some(t) ==> t@ == decode_utf8(data@),
{
    std::str::from_utf8(data).ok()
}

/// Whether two texts are the same.
pub(crate) fn same_text(a: &str, b: &str) -> (same: bool)
    ensures
        same == (a@ == b@),
{
    let x = a.as_bytes();
    let y = b.as_bytes();
    proof {
        encode_utf8_decode_utf8(a@);
        encode_utf8_decode_utf8(b@);
    }
    if x.len() != y.len() {
        return false;
    }
    let mut i: usize = 0;
    while i < x.len()
        invariant
            i <= x.len(),
            x.len() == y.len(),
            x@ == a.spec_bytes(),
            y@ == b.spec_bytes(),
            forall|k: int| 0 <= k < i ==> x@[k] == y@[k],
        decreases x.len() - i,
    {
        if x[i] != y[i] {
            return false;
        }
        i = i + 1;
    }
    proof {
        assert(x@ =~= y@);
    }
    true
}

/// The credential store as a plain value: login name to secret.
pub type PassMap = Map<Seq<char>, Seq<char>>;

/// The credential store: the secret of each login name.
pub struct PassDB {
    map: StringHashMap<String>,
}

impl View for PassDB {
    type V = PassMap;

    closed spec fn view(&self) -> PassMap {
        Map::new(|name: Seq<char>| self.map@.contains_key(name), |name: Seq<char>| self.map@[name]@)
    }
}

/// The store that a list of `(name, secret)` fills, later entries
/// replacing earlier ones of the same name.
pub open spec fn pairs_map(pairs: Seq<(String, String)>) -> PassMap
    decreases pairs.len(),
{
    if pairs.len() == 0 {
        Map::empty()
    } else {
        pairs_map(pairs.drop_last()).insert(pairs.last().0@, pairs.last().1@)
    }
}

/// The store of a first run: one built-in test credential.
pub open spec fn first_run_map() -> PassMap {
    Map::empty().insert("Testuser"@, "Testpass"@)
}

impl PassDB {
    /// An empty store.
    pub fn new() -> (db: PassDB)
        ensures
            db@ == Map::<Seq<char>, Seq<char>>::empty(),
    {
        let db = PassDB { map: StringHashMap::new() };
        assert(db@ =~= Map::<Seq<char>, Seq<char>>::empty());
        db
    }

    /// Files `secret` under `name`, in place of any secret that was there.
    pub fn insert(&mut self, name: String, secret: String)
        ensures
            final(self)@ == old(self)@.insert(name@, secret@),
    {
        let ghost before = self@;
        let ghost key = name@;
        let ghost value = secret@;
        self.map.insert(name, secret);
        assert(self@ =~= before.insert(key, value));
    }

    /// The secret filed under `name`.
    pub fn get(&self, name: &str) -> (secret: Option<&String>)
        ensures
            secret is Some <==> self@.contains_key(name@),
            secret matches Some(s) ==> s@ == self@[name@],
    {
        self.map.get(name)
    }

    /// Whether `secret` is exactly what is filed under `name`.
    pub fn check(&self, name: &str, secret: &str) -> (right: bool)
        ensures
            right == credentials_match(self@, name@, secret@),
    {
        match self.map.get(name) {
            Some(stored) => same_text(stored.as_str(), secret),
            None => false,
        }
    }
}

/// Whether `secret` is exactly what `db` files under `name`.
pub open spec fn credentials_match(db: PassMap, name: Seq<char>, secret: Seq<char>) -> bool {
    db.contains_key(name) && db[name] == secret
}

/// The credentials of a first run: one built-in test credential.
pub fn first_run_credentials() -> (pairs: Vec<(String, String)>)
    ensures
        pairs@.len() == 1,
        pairs@[0].0@ == "Testuser"@,
        pairs@[0].1@ == "Testpass"@,
        pairs_map(pairs@) == first_run_map(),
{
    let mut pairs: Vec<(String, String)> = Vec::new();
    pairs.push(("Testuser".to_owned(), "Testpass".to_owned()));
    proof {
        assert(pairs@.drop_last() =~= Seq::<(String, String)>::empty());
        assert(pairs_map(pairs@.drop_last()) =~= Map::<Seq<char>, Seq<char>>::empty());
    }
    pairs
}

/// The store that holds what the list holds.
fn passdb_of(pairs: &Vec<(String, String)>) -> (db: PassDB)
    ensures
        db@ == pairs_map(pairs@),
{
    let mut db = PassDB::new();
    let mut i: usize = 0;
    proof {
        assert(pairs@.take(0) =~= Seq::<(String, String)>::empty());
    }
    while i < pairs.len()
        invariant
            i <= pairs.len(),
            db@ == pairs_map(pairs@.take(i as int)),
        decreases pairs.len() - i,
    {
        proof {
            assert(pairs@.take(i + 1).drop_last() =~= pairs@.take(i as int));
        }
        let name = pairs[i].0.clone();
        let secret = pairs[i].1.clone();
        db.insert(name, secret);
        i = i + 1;
    }
    proof {
        assert(pairs@.take(pairs.len() as int) =~= pairs@);
    }
    db
}

/// The credential store to start with: what was stored, or, where nothing
/// was, the store of a first run.
pub fn open_passdb(stored: Option<Vec<(String, String)>>) -> (db: PassDB)
    ensures
        db@ == match stored {
            Some(pairs) => pairs_map(pairs@),
            None => first_run_map(),
        },
{
    match stored {
        Some(pairs) => passdb_of(&pairs),
        None => passdb_of(&first_run_credentials()),
    }
}

/// What a login comes to before the policy engine has been asked.
pub enum StepPlan<'a> {
    /// Decided: granted or not, and the identity that the outcome names.
    Decided(bool, &'a str),
    /// The credentials are right and the login asks to act as somebody
    /// else: the policy decides.
    Impersonate { authcid: &'a str, authzid: &'a str },
}

/// A plan as a plain value.
pub enum PlanView {
    Decided(bool, Seq<char>),
    Impersonate { authcid: Seq<char>, authzid: Seq<char> },
}

impl<'a> View for StepPlan<'a> {
    type V = PlanView;

    open spec fn view(&self) -> PlanView {
        match self {
            StepPlan::Decided(granted, identity) => PlanView::Decided(*granted, identity@),
            StepPlan::Impersonate { authcid, authzid } => PlanView::Impersonate {
                authcid: authcid@,
                authzid: authzid@,
            },
        }
    }
}

/// What a login text comes to, given the credential store alone.
///
/// A text that is not three fields is turned down before the store is
/// looked at. Wrong credentials are denied under the identity that was
/// asked for, so that nothing tells whether the login name exists.
pub open spec fn plain_plan(db: PassMap, text: Seq<char>) -> Result<PlanView, ErrorView> {
    match split_nul_spec(text) {
        None => Err(ErrorView::SASL(SASLError::BadChallenge)),
        Some((authzid, authcid, passwd)) => {
            if !credentials_match(db, authcid, passwd) {
                Ok(PlanView::Decided(false, authzid))
            } else if authzid.len() == 0 || authzid == authcid {
                Ok(PlanView::Decided(true, authcid))
            } else {
                Ok(PlanView::Impersonate { authcid, authzid })
            }
        },
    }
}

/// The request that a plan puts to the policy engine: subject, object and
/// action. A decided plan puts none.
pub open spec fn policy_request(plan: PlanView) -> Option<(Seq<char>, Seq<char>, Seq<char>)> {
    match plan {
        PlanView::Decided(_, _) => None,
        PlanView::Impersonate { authcid, authzid } => Some((authcid, authzid, "su"@)),
    }
}

/// What a plan comes to once the engine has answered: `Some` with its
/// decision, or `None` where it failed.
pub open spec fn plan_outcome(plan: PlanView, decision: Option<bool>) -> Result<
    (bool, Seq<char>),
    ErrorView,
> {
    match plan {
        PlanView::Decided(granted, identity) => Ok((granted, identity)),
        PlanView::Impersonate { authcid, authzid } => match decision {
            Some(allowed) => Ok((allowed, authzid)),
            None => Err(ErrorView::SASL(SASLError::Enforcer)),
        },
    }
}

/// What a login text comes to: whether it is granted, and under which
/// identity.
pub open spec fn plain_outcome(db: PassMap, text: Seq<char>, decision: Option<bool>) -> Result<
    (bool, Seq<char>),
    ErrorView,
> {
    match plain_plan(db, text) {
        Err(e) => Err(e),
        Ok(plan) => plan_outcome(plan, decision),
    }
}

/// What a login payload comes to: bytes that are not UTF-8 are turned down,
/// any other payload is read as text.
pub open spec fn step_outcome(db: PassMap, data: Seq<u8>, decision: Option<bool>) -> Result<
    (bool, Seq<char>),
    ErrorView,
> {
    if valid_utf8(data) {
        plain_outcome(db, decode_utf8(data), decision)
    } else {
        Err(ErrorView::SASL(SASLError::UTF8))
    }
}

/// The decision that a plan waits for: the engine's answer to the request
/// that the plan puts, with a failure of the engine as none; none where
/// the plan puts no request.
pub open spec fn plan_decision(engine: Enforcer, plan: PlanView) -> Option<bool> {
    match plan {
        PlanView::Decided(_, _) => None,
        PlanView::Impersonate { authcid, authzid } => match engine_decision(
            engine,
            authcid,
            authzid,
            "su"@,
        ) {
            Ok(allowed) => Some(allowed),
            Err(_) => None,
        },
    }
}

/// The decision that a login payload waits for.
pub open spec fn step_decision(engine: Enforcer, db: PassMap, data: Seq<u8>) -> Option<bool> {
    if valid_utf8(data) {
        match plain_plan(db, decode_utf8(data)) {
            Ok(plan) => plan_decision(engine, plan),
            Err(_) => None,
        }
    } else {
        None
    }
}

/// An engine's answer with the words of a failure left out.
pub open spec fn decision_view(decision: Result<bool, String>) -> Option<bool> {
    match decision {
        Ok(allowed) => Some(allowed),
        Err(_) => None,
    }
}

/// The result of a step as a plain value.
pub open spec fn step_view(result: Result<(bool, &str), Error>) -> Result<
    (bool, Seq<char>),
    ErrorView,
> {
    match result {
        Ok((granted, identity)) => Ok((granted, identity@)),
        Err(e) => Err(e@),
    }
}

/// A plan, or the failure to make one, as a plain value.
pub open spec fn plan_view(plan: Result<StepPlan<'_>, Error>) -> Result<PlanView, ErrorView> {
    match plan {
        Ok(p) => Ok(p@),
        Err(e) => Err(e@),
    }
}

/// A request to the policy engine as a plain value.
pub open spec fn request_view(request: Option<(&str, &str, &str)>) -> Option<
    (Seq<char>, Seq<char>, Seq<char>),
> {
    match request {
        Some((subject, object, action)) => Some((subject@, object@, action@)),
        None => None,
    }
}

impl<'a> StepPlan<'a> {
    /// The request to put to the policy engine, if the plan needs one.
    pub fn request(&self) -> (request: Option<(&'a str, &'a str, &'static str)>)
        ensures
            request_view(request) == policy_request(self@),
    {
        match self {
            StepPlan::Decided(_, _) => None,
            StepPlan::Impersonate { authcid, authzid } => Some((*authcid, *authzid, "su")),
        }
    }

    /// The outcome of the login, given the engine's answer. A failure of
    /// the engine fails the step; it is never read as a denial.
    pub fn conclude(self, decision: Result<bool, String>) -> (result: Result<(bool, &'a str), Error>)
        ensures
            step_view(result) == plan_outcome(self@, decision_view(decision)),
    {
        match self {
            StepPlan::Decided(granted, identity) => Ok((granted, identity)),
            StepPlan::Impersonate { authcid, authzid } => match decision {
                Ok(allowed) => Ok((allowed, authzid)),
                Err(_) => Err(Error::SASL(SASLError::Enforcer)),
            },
        }
    }
}

/// The PLAIN mechanism: a login name and its password, and optionally the
/// identity to act as.
pub struct Plain {
    passdb: PassDB,
    enforcer: PolicyEngine,
}

impl Plain {
    pub fn new(passdb: PassDB, enforcer: PolicyEngine) -> (plain: Plain)
        ensures
            plain.credentials() == passdb@,
            plain.engine() == enforcer.engine(),
    {
        Plain { passdb, enforcer }
    }

    /// The credentials that logins are held against.
    pub closed spec fn credentials(&self) -> PassMap {
        self.passdb@
    }

    /// The engine that decides who may act as somebody else.
    pub closed spec fn engine(&self) -> Enforcer {
        self.enforcer.engine()
    }

    /// Reads a login text and holds it against the credential store.
    pub fn plan<'a>(&self, text: &'a str) -> (plan: Result<StepPlan<'a>, Error>)
        ensures
            plan_view(plan) == plain_plan(self.credentials(), text@),
    {
        match split_nul(text) {
            Some((authzid, authcid, passwd)) => {
                if !self.passdb.check(authcid, passwd) {
                    Ok(StepPlan::Decided(false, authzid))
                } else if authzid.is_empty() || same_text(authzid, authcid) {
                    Ok(StepPlan::Decided(true, authcid))
                } else {
                    Ok(StepPlan::Impersonate { authcid, authzid })
                }
            },
            None => Err(Error::SASL(SASLError::BadChallenge)),
        }
    }

    /// One login step on the payload that the client sent.
    ///
    /// Where the login does not ask to act as somebody else, the outcome is
    /// fixed by the payload and the credential store. Where it does, the
    /// policy engine is asked whether the login name may `su` to that
    /// identity, and the outcome is what `plan_outcome` gives for its
    /// answer.
    pub fn step<'a>(&self, data: &'a [u8]) -> (result: Result<(bool, &'a str), Error>)
        ensures
            step_view(result) == step_outcome(
                self.credentials(),
                data@,
                step_decision(self.engine(), self.credentials(), data@),
            ),
    {
        let text = match text_from_utf8(data) {
            Some(text) => text,
            None => {
                return Err(Error::SASL(SASLError::UTF8));
            },
        };
        let plan = match self.plan(text) {
            Ok(plan) => plan,
            Err(e) => {
                return Err(e);
            },
        };
        match plan.request() {
            Some((subject, object, action)) => {
                let decision = self.enforcer.ask(subject, object, action);
                plan.conclude(decision)
            },
            None => plan.conclude(Ok(false)),
        }
    }
}

/// Owns the credential store and the policy engine that logins are held
/// against.
pub struct AuthenticationProvider {
    pub plain: Plain,
}

impl AuthenticationProvider {
    pub fn new(passdb: PassDB, enforcer: PolicyEngine) -> (provider: AuthenticationProvider)
        ensures
            provider.plain.credentials() == passdb@,
            provider.plain.engine() == enforcer.engine(),
    {
        AuthenticationProvider { plain: Plain::new(passdb, enforcer) }
    }

    /// The mechanisms on offer, in order of preference.
    pub fn mechs(&self) -> (names: Vec<&'static str>)
        ensures
            names@.len() == 1,
            names@[0]@ == "PLAIN"@,
    {
        let mut names: Vec<&'static str> = Vec::new();
        names.push("PLAIN");
        names
    }
}

/// What the client is told of a login: whether it was granted.
pub struct Outcome {
    pub data: Option<Vec<u8>>,
    pub value: bool,
}

impl Outcome {
    /// An outcome that carries the decision and no further data.
    pub fn value(value: bool) -> (outcome: Outcome)
        ensures
            outcome.data is None,
            outcome.value == value,
    {
        Outcome { data: None, value: value }
    }
}

/// What a call to start a login comes to: whether it is granted, and under
/// which identity. Only PLAIN is on offer, and PLAIN needs its payload with
/// the first message.
pub open spec fn login_outcome(
    db: PassMap,
    mechanism: Seq<char>,
    initial_data: Option<Seq<u8>>,
    decision: Option<bool>,
) -> Result<(bool, Seq<char>), ErrorView> {
    if mechanism != "PLAIN"@ {
        Err(ErrorView::Unimplemented(mechanism))
    } else {
        match initial_data {
            None => Err(ErrorView::SASL(SASLError::BadChallenge)),
            Some(data) => step_outcome(db, data, decision),
        }
    }
}

/// The decision that a call to start a login waits for.
pub open spec fn login_decision(
    engine: Enforcer,
    db: PassMap,
    mechanism: Seq<char>,
    initial_data: Option<Seq<u8>>,
) -> Option<bool> {
    if mechanism == "PLAIN"@ && initial_data is Some {
        step_decision(engine, db, initial_data->Some_0)
    } else {
        None
    }
}

/// What a call to start a login comes to with the engine that the
/// provider holds.
pub open spec fn provider_login_outcome(
    engine: Enforcer,
    db: PassMap,
    mechanism: Seq<char>,
    initial_data: Option<Seq<u8>>,
) -> Result<(bool, Seq<char>), ErrorView> {
    login_outcome(db, mechanism, initial_data, login_decision(engine, db, mechanism, initial_data))
}

/// The identity of a connection after a login with the given outcome. Only
/// a granted login sets it, and only where none was set before.
pub open spec fn identity_after(
    before: Option<Seq<char>>,
    outcome: Result<(bool, Seq<char>), ErrorView>,
) -> Option<Seq<char>> {
    match (before, outcome) {
        (None, Ok((true, identity))) => Some(identity),
        _ => before,
    }
}

/// What the client is told, as a plain value.
pub open spec fn reply_view(reply: Result<Outcome, Error>) -> Result<bool, ErrorView> {
    match reply {
        Ok(outcome) => Ok(outcome.value),
        Err(e) => Err(e@),
    }
}

/// What the client is told of a login with the given outcome.
pub open spec fn reply_for(outcome: Result<(bool, Seq<char>), ErrorView>) -> Result<
    bool,
    ErrorView,
> {
    match outcome {
        Ok((granted, _)) => Ok(granted),
        Err(e) => Err(e),
    }
}

/// A payload as a plain value.
pub open spec fn payload_view(data: Option<&[u8]>) -> Option<Seq<u8>> {
    match data {
        Some(bytes) => Some(bytes@),
        None => None,
    }
}

/// The authentication state of one connection: the identity that was
/// negotiated, or none yet. Only a granted login sets it.
pub struct Authentication {
    state: Option<String>,
}

impl Authentication {
    /// The state of a new connection: nobody has logged in.
    pub fn new() -> (auth: Authentication)
        ensures
            auth.identity() is None,
    {
        Authentication { state: None }
    }

    /// The identity of the connection, if it has one.
    pub closed spec fn identity(&self) -> Option<Seq<char>> {
        match self.state {
            Some(name) => Some(name@),
            None => None,
        }
    }

    /// The identity of the connection, if it has one.
    pub fn identity_name(&self) -> (name: Option<&str>)
        ensures
            name is Some == self.identity() is Some,
            name matches Some(n) ==> self.identity() == Some(n@),
    {
        match &self.state {
            Some(name) => Some(name.as_str()),
            None => None,
        }
    }

    /// The mechanisms that a client can choose from.
    pub fn available_mechanisms(&self, provider: &AuthenticationProvider) -> (names: Vec<
        &'static str,
    >)
        ensures
            names@.len() == 1,
            names@[0]@ == "PLAIN"@,
    {
        provider.mechs()
    }

    /// Starts a login with the mechanism and the payload that the client
    /// sent, and remembers the identity where the login is granted.
    pub fn initialize_authentication(
        &mut self,
        provider: &AuthenticationProvider,
        mechanism: &str,
        initial_data: Option<&[u8]>,
    ) -> (reply: Result<Outcome, Error>)
        ensures
            reply_view(reply) == reply_for(
                provider_login_outcome(
                    provider.plain.engine(),
                    provider.plain.credentials(),
                    mechanism@,
                    payload_view(initial_data),
                ),
            ),
            final(self).identity() == identity_after(
                old(self).identity(),
                provider_login_outcome(
                    provider.plain.engine(),
                    provider.plain.credentials(),
                    mechanism@,
                    payload_view(initial_data),
                ),
            ),
            reply matches Ok(outcome) ==> outcome.data is None,
    {
        if !same_text(mechanism, "PLAIN") {
            return Err(Error::Unimplemented(mechanism.to_owned()));
        }
        let data = match initial_data {
            Some(data) => data,
            None => {
                return Err(Error::SASL(SASLError::BadChallenge));
            },
        };
        match provider.plain.step(data) {
            Ok((granted, name)) => {
                if granted && self.state.is_none() {
                    self.state = Some(name.to_owned());
                }
                Ok(Outcome::value(granted))
            },
            Err(e) => Err(e),
        }
    }

    /// The identity of the connection, or the empty text where nobody has
    /// logged in.
    pub fn get_authzid(&self) -> (name: String)
        ensures
            name@ == match self.identity() {
                Some(identity) => identity,
                None => Seq::<char>::empty(),
            },
    {
        match &self.state {
            Some(name) => name.clone(),
            None => String::new(),
        }
    }
}

} // verus!
