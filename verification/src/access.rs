//! Authorization: what an identity may do.
//!
//! The decision itself is the policy engine's. This module builds the
//! engine from a model that it has read and can vouch for, keeps it to
//! itself, asks it, and keeps a refusal apart from a failure of the engine.

use crate::auth::{request_view, same_text, Authentication};
use crate::error::{Error, ErrorView};
use casbin::CoreApi;
use casbin::DefaultModel;
use casbin::Enforcer;
use casbin::Model;
use casbin::StringAdapter;
use vstd::prelude::*;
use vstd::string::*;

verus! {

broadcast use vstd::string::group_string_axioms;

/// `casbin::Enforcer`, the policy engine, carried as it is: nothing is
/// known of what it holds.
#[verifier::external_type_specification]
#[verifier::external_body]
pub struct ExEnforcer(casbin::Enforcer);

/// `casbin::DefaultModel`, a policy model as casbin reads it, carried as
/// it is.
#[verifier::external_type_specification]
#[verifier::external_body]
pub struct ExDefaultModel(casbin::DefaultModel);

/// The model that casbin reads from a text, or the words of its failure.
pub uninterp spec fn parsed_model(text: Seq<char>) -> Result<DefaultModel, Seq<char>>;

/// The text that a model keeps in `section` under `key`, as casbin stored
/// it; nothing where the model has no such entry.
pub uninterp spec fn model_entry(model: DefaultModel, section: Seq<char>, key: Seq<char>) -> Option<
    Seq<char>,
>;

/// The engine that casbin builds from a model and the text of the rules,
/// or the words of its failure.
pub uninterp spec fn built_engine(model: DefaultModel, policy: Seq<char>) -> Result<
    Enforcer,
    Seq<char>,
>;

/// The engine's answer to the request `(subject, object, action)`, or the
/// words of its failure.
pub uninterp spec fn engine_decision(
    engine: Enforcer,
    subject: Seq<char>,
    object: Seq<char>,
    action: Seq<char>,
) -> Result<bool, Seq<char>>;

/// `casbin::DefaultModel::from_str`, run to its end by
/// `async_std::task::block_on`: the model read from `text`; a failure comes
/// back as the text that casbin prints for it. The text is only read and
/// stored: no part of it is compiled or run.
#[verifier::external_body]
fn parse_model(text: &str) -> (model: Result<DefaultModel, String>)
    ensures
        parsed_model(text@) == match model {
            Ok(m) => Ok::<DefaultModel, Seq<char>>(m),
            Err(words) => Err(words@),
        },
{
    match async_std::task::block_on(DefaultModel::from_str(text)) {
        Ok(model) => Ok(model),
        Err(failure) => Err(failure.to_string()),
    }
}

/// `casbin::Model::get_model` on a `DefaultModel`: the text kept in
/// `section` under `key`.
#[verifier::external_body]
fn model_text(model: &DefaultModel, section: &str, key: &str) -> (text: Option<String>)
    ensures
        model_entry(*model, section@, key@) == match text {
            Some(t) => Some(t@),
            None => None,
        },
{
    model.get_model().get(section).and_then(|part| part.get(key)).map(|entry| entry.value.clone())
}

/// `casbin::CoreApi::new` on an `Enforcer`, with the model and a
/// `StringAdapter` over the text of the rules, run to its end by
/// `async_std::task::block_on`; a failure comes back as the text that
/// casbin prints for it. Casbin compiles every matcher of the
/// model here and files the rules; left out are the models that the
/// library cannot vouch for.
#[verifier::external_body]
fn new_engine(model: DefaultModel, policy: &str) -> (engine: Result<Enforcer, String>)
    requires
        model_vouched_for(model),
    ensures
        built_engine(model, policy@) == match engine {
            Ok(e) => Ok::<Enforcer, Seq<char>>(e),
            Err(words) => Err(words@),
        },
{
    match async_std::task::block_on(Enforcer::new(model, StringAdapter::new(policy))) {
        Ok(engine) => Ok(engine),
        Err(failure) => Err(failure.to_string()),
    }
}

/// `casbin::CoreApi::enforce` on an `Enforcer`, with the request
/// `(subject, object, action)`; a failure comes back as the text that casbin
/// prints for it. The answer is the engine's, and depends on the model and
/// the rules it was built with. Left out is every engine but those that
/// are as `Enforcer::new` built them from a model that was vouched for:
/// with another effect casbin's effector stops, with another matcher the
/// evaluation may.
#[verifier::external_body]
fn engine_enforce(engine: &Enforcer, subject: &str, object: &str, action: &str) -> (decision: Result<
    bool,
    String,
>)
    requires
        engine_sound(*engine),
    ensures
        engine_decision(*engine, subject@, object@, action@) == match decision {
            Ok(allowed) => Ok::<bool, Seq<char>>(allowed),
            Err(words) => Err(words@),
        },
{
    match engine.enforce((subject, object, action)) {
        Ok(allowed) => Ok(allowed),
        Err(failure) => Err(failure.to_string()),
    }
}

/// Whether an effect is one of the four that casbin's effector can work
/// with; it stops on any other.
pub open spec fn known_effect(effect: Seq<char>) -> bool {
    ||| effect == "some(where (p_eft == allow))"@
    ||| effect == "some(where (p_eft == allow)) && !some(where (p_eft == deny))"@
    ||| effect == "priority(p_eft) || deny"@
    ||| effect == "!some(where (p_eft == deny))"@
}

/// Whether a character can stand in a name: a letter, a digit or `_`.
pub open spec fn name_char(c: char) -> bool {
    ('a' <= c && c <= 'z') || ('A' <= c && c <= 'Z') || ('0' <= c && c <= '9') || c == '_'
}

/// Whether a character is one of those that the signs `==`, `!=`, `&&`,
/// `||` and `!` are made of.
pub open spec fn sign_char(c: char) -> bool {
    c == '=' || c == '!' || c == '&' || c == '|'
}

/// Where the reading of a matcher stands.
#[derive(Clone, Copy, Debug, PartialEq, Eq, Structural)]
pub enum Scan {
    /// At the start, or behind a sign or an opening bracket: a bracket that
    /// opens here groups.
    Open,
    /// Behind a name, a literal or a closing bracket: a bracket that opens
    /// here would be a call.
    Closed,
    /// Inside a text literal.
    Literal,
    /// The matcher holds something that is not admitted.
    Rejected,
}

/// Where the reading stands after one more character.
pub open spec fn scan_step(state: Scan, c: char) -> Scan {
    match state {
        Scan::Rejected => Scan::Rejected,
        Scan::Literal => if c == '"' {
            Scan::Closed
        } else if c == '\\' {
            Scan::Rejected
        } else {
            Scan::Literal
        },
        _ => if c == ' ' {
            state
        } else if name_char(c) || c == ')' {
            Scan::Closed
        } else if sign_char(c) {
            Scan::Open
        } else if c == '"' {
            Scan::Literal
        } else if c == '(' && state == Scan::Open {
            Scan::Open
        } else {
            Scan::Rejected
        },
    }
}

/// Where the reading stands at the end of a text.
pub open spec fn scan(text: Seq<char>) -> Scan
    decreases text.len(),
{
    if text.len() == 0 {
        Scan::Open
    } else {
        scan_step(scan(text.drop_last()), text.last())
    }
}

/// The longest matcher that is admitted, in characters. It bounds how deep
/// the engine has to go to read and to evaluate one.
pub const MATCHER_LIMIT: usize = 256;

/// Whether a matcher is built from nothing but names, text literals in
/// double quotes without `\`, the signs `==`, `!=`, `&&`, `||` and `!`,
/// blanks, and brackets that group, and is no longer than the limit. Such
/// a matcher only compares and combines: it calls no function, and it does
/// no arithmetic.
pub open spec fn plain_matcher(matcher: Seq<char>) -> bool {
    &&& matcher.len() <= MATCHER_LIMIT
    &&& (scan(matcher) == Scan::Open || scan(matcher) == Scan::Closed)
}

/// What a model holds that bears on whether the engine can be built from
/// it and asked: its effect, its matcher, a second matcher and a role
/// definition, each where the model has one.
pub struct ModelParts {
    pub effect: Option<Seq<char>>,
    pub matcher: Option<Seq<char>>,
    pub second_matcher: Option<Seq<char>>,
    pub roles: Option<Seq<char>>,
}

/// Whether a model with these parts is one that the library vouches for:
/// the effect is known, the one matcher is plain, and there is no role
/// definition. A model without effect or without matcher is no obstacle:
/// the engine reports it as a failure.
pub open spec fn model_vouched(parts: ModelParts) -> bool {
    &&& parts.effect is Some ==> known_effect(parts.effect->Some_0)
    &&& parts.matcher is Some ==> plain_matcher(parts.matcher->Some_0)
    &&& parts.second_matcher is None
    &&& parts.roles is None
}

/// The words with which a model is turned down.
pub open spec fn model_refusal(parts: ModelParts) -> Seq<char> {
    if parts.effect is Some && !known_effect(parts.effect->Some_0) {
        "The effect of the policy model is not supported"@
    } else if parts.matcher is Some && !plain_matcher(parts.matcher->Some_0) {
        "The matcher of the policy model is not supported"@
    } else if parts.second_matcher is Some {
        "A second matcher in the policy model is not supported"@
    } else {
        "A role definition in the policy model is not supported"@
    }
}

/// The parts of a model as casbin stored them.
pub open spec fn parts_of(model: DefaultModel) -> ModelParts {
    ModelParts {
        effect: model_entry(model, "e"@, "e"@),
        matcher: model_entry(model, "m"@, "m"@),
        second_matcher: model_entry(model, "m"@, "m2"@),
        roles: model_entry(model, "g"@, "g"@),
    }
}

/// Whether the library vouches for a model.
pub open spec fn model_vouched_for(model: DefaultModel) -> bool {
    model_vouched(parts_of(model))
}

/// Whether an engine is as casbin built it from a model that was vouched
/// for.
pub open spec fn engine_sound(engine: Enforcer) -> bool {
    exists|model: DefaultModel, policy: Seq<char>|
        model_vouched_for(model) && #[trigger] built_engine(model, policy) == Ok::<
            Enforcer,
            Seq<char>,
        >(engine)
}

/// A text that is lent, or none, as a plain value.
pub open spec fn option_text_view(text: Option<&str>) -> Option<Seq<char>> {
    match text {
        Some(t) => Some(t@),
        None => None,
    }
}

/// Whether an effect is one that casbin's effector can work with.
pub fn effect_is_known(effect: &str) -> (known: bool)
    ensures
        known == known_effect(effect@),
{
    same_text(effect, "some(where (p_eft == allow))") || same_text(
        effect,
        "some(where (p_eft == allow)) && !some(where (p_eft == deny))",
    ) || same_text(effect, "priority(p_eft) || deny") || same_text(
        effect,
        "!some(where (p_eft == deny))",
    )
}

/// Whether a character can stand in a name.
fn is_name_char(c: char) -> (is: bool)
    ensures
        is == name_char(c),
{
    ('a' <= c && c <= 'z') || ('A' <= c && c <= 'Z') || ('0' <= c && c <= '9') || c == '_'
}

/// Where the reading stands after one more character.
fn next_scan(state: Scan, c: char) -> (next: Scan)
    ensures
        next == scan_step(state, c),
{
    match state {
        Scan::Rejected => Scan::Rejected,
        Scan::Literal => if c == '"' {
            Scan::Closed
        } else if c == '\\' {
            Scan::Rejected
        } else {
            Scan::Literal
        },
        _ => if c == ' ' {
            state
        } else if is_name_char(c) || c == ')' {
            Scan::Closed
        } else if c == '=' || c == '!' || c == '&' || c == '|' {
            Scan::Open
        } else if c == '"' {
            Scan::Literal
        } else if c == '(' && state == Scan::Open {
            Scan::Open
        } else {
            Scan::Rejected
        },
    }
}

/// Whether a matcher is plain.
pub fn matcher_is_plain(matcher: &str) -> (plain: bool)
    ensures
        plain == plain_matcher(matcher@),
{
    if matcher.unicode_len() > MATCHER_LIMIT {
        return false;
    }
    let mut state = Scan::Open;
    proof {
        assert(matcher@.take(0) =~= Seq::<char>::empty());
    }
    for c in it: matcher.chars()
        invariant
            it.seq() == matcher@,
            state == scan(matcher@.take(it.index())),
    {
        proof {
            let now = matcher@.take(it.index() + 1);
            assert(now.drop_last() =~= matcher@.take(it.index()));
            assert(now.last() == c);
        }
        state = next_scan(state, c);
    }
    proof {
        assert(matcher@.take(matcher@.len() as int) =~= matcher@);
    }
    state == Scan::Open || state == Scan::Closed
}

/// The parts handed to `vet_model`, as a plain value.
pub open spec fn parts_view(
    effect: Option<&str>,
    matcher: Option<&str>,
    second_matcher: Option<&str>,
    roles: Option<&str>,
) -> ModelParts {
    ModelParts {
        effect: option_text_view(effect),
        matcher: option_text_view(matcher),
        second_matcher: option_text_view(second_matcher),
        roles: option_text_view(roles),
    }
}

/// Tests the parts of a model before an engine is built from it: a model
/// that is not vouched for is turned down in words.
pub fn vet_model(
    effect: Option<&str>,
    matcher: Option<&str>,
    second_matcher: Option<&str>,
    roles: Option<&str>,
) -> (verdict: Result<(), String>)
    ensures
        verdict is Ok == model_vouched(parts_view(effect, matcher, second_matcher, roles)),
        verdict is Err ==> verdict->Err_0@ == model_refusal(
            parts_view(effect, matcher, second_matcher, roles),
        ),
{
    let effect_known = match effect {
        Some(text) => effect_is_known(text),
        None => true,
    };
    let matcher_plain = match matcher {
        Some(text) => matcher_is_plain(text),
        None => true,
    };
    if !effect_known {
        Err("The effect of the policy model is not supported".to_owned())
    } else if !matcher_plain {
        Err("The matcher of the policy model is not supported".to_owned())
    } else if second_matcher.is_some() {
        Err("A second matcher in the policy model is not supported".to_owned())
    } else if roles.is_some() {
        Err("A role definition in the policy model is not supported".to_owned())
    } else {
        Ok(())
    }
}

/// A text that is held, lent out.
fn lend(text: &Option<String>) -> (lent: Option<&str>)
    ensures
        option_text_view(lent) == match *text {
            Some(t) => Some(t@),
            None => None,
        },
{
    match text {
        Some(t) => Some(t.as_str()),
        None => None,
    }
}

/// What a call reports for an answer of the policy engine: the decision as
/// it is, and a failure of the engine as a failure, never as a refusal.
pub fn policy_answer(decision: Result<bool, String>) -> (answer: Result<bool, Error>)
    ensures
        answer == match decision {
            Ok(allowed) => Ok::<bool, Error>(allowed),
            Err(failure) => Err(Error::Policy(failure)),
        },
{
    match decision {
        Ok(allowed) => Ok(allowed),
        Err(failure) => Err(Error::Policy(failure)),
    }
}

/// The answer to a check as a plain value.
pub open spec fn answer_view(answer: Result<bool, Error>) -> Result<bool, ErrorView> {
    match answer {
        Ok(allowed) => Ok(allowed),
        Err(e) => Err(e@),
    }
}

/// What a call reports for an answer of the policy engine, as a plain
/// value.
pub open spec fn policy_view(decision: Result<bool, Seq<char>>) -> Result<bool, ErrorView> {
    match decision {
        Ok(allowed) => Ok(allowed),
        Err(words) => Err(ErrorView::Policy(words)),
    }
}

/// What building an engine from the text of a model and the text of the
/// rules comes to: the engine that casbin builds, where casbin can read
/// the model and the library vouches for it, and a failure in words
/// otherwise.
pub open spec fn build_outcome(model: Seq<char>, policy: Seq<char>) -> Result<Enforcer, ErrorView> {
    match parsed_model(model) {
        Err(words) => Err(ErrorView::Policy(words)),
        Ok(parsed) => if !model_vouched_for(parsed) {
            Err(ErrorView::Policy(model_refusal(parts_of(parsed))))
        } else {
            match built_engine(parsed, policy) {
                Ok(engine) => Ok(engine),
                Err(words) => Err(ErrorView::Policy(words)),
            }
        },
    }
}

/// A policy engine that the library has built and keeps to itself: it is
/// as casbin built it, from a model that was vouched for.
pub struct PolicyEngine {
    engine: Enforcer,
}

/// The result of building as a plain value.
pub open spec fn build_view(built: Result<PolicyEngine, Error>) -> Result<Enforcer, ErrorView> {
    match built {
        Ok(engine) => Ok(engine.engine()),
        Err(e) => Err(e@),
    }
}

impl PolicyEngine {
    #[verifier::type_invariant]
    spec fn sound(self) -> bool {
        engine_sound(self.engine)
    }

    /// The engine itself.
    pub closed spec fn engine(&self) -> Enforcer {
        self.engine
    }

    /// Builds an engine from the text of a model and the text of the
    /// rules, one rule to a line. The model is read first and tested; the
    /// engine is built, and the matcher compiled, only where the library
    /// vouches for the model.
    pub fn build(model: &str, policy: &str) -> (built: Result<PolicyEngine, Error>)
        ensures
            build_view(built) == build_outcome(model@, policy@),
    {
        let parsed = match parse_model(model) {
            Ok(parsed) => parsed,
            Err(words) => {
                return Err(Error::Policy(words));
            },
        };
        let effect = model_text(&parsed, "e", "e");
        let matcher = model_text(&parsed, "m", "m");
        let second_matcher = model_text(&parsed, "m", "m2");
        let roles = model_text(&parsed, "g", "g");
        match vet_model(lend(&effect), lend(&matcher), lend(&second_matcher), lend(&roles)) {
            Ok(()) => {},
            Err(words) => {
                return Err(Error::Policy(words));
            },
        }
        match new_engine(parsed, policy) {
            Ok(engine) => {
                assert(built_engine(parsed, policy@) == Ok::<Enforcer, Seq<char>>(engine));
                Ok(PolicyEngine { engine })
            },
            Err(words) => Err(Error::Policy(words)),
        }
    }

    /// Asks the engine. The answer is the engine's; a failure comes back
    /// in the engine's words.
    pub fn ask(&self, subject: &str, object: &str, action: &str) -> (decision: Result<bool, String>)
        ensures
            engine_decision(self.engine(), subject@, object@, action@) == match decision {
                Ok(allowed) => Ok::<bool, Seq<char>>(allowed),
                Err(words) => Err(words@),
            },
    {
        proof {
            use_type_invariant(self);
        }
        engine_enforce(&self.engine, subject, object, action)
    }
}

/// Asks the policy engine on behalf of any actor.
pub struct PermissionsProvider {
    pdb: PolicyEngine,
}

impl PermissionsProvider {
    pub fn new(pdb: PolicyEngine) -> (provider: PermissionsProvider)
        ensures
            provider.engine() == pdb.engine(),
    {
        PermissionsProvider { pdb }
    }

    /// The engine that decides.
    pub closed spec fn engine(&self) -> Enforcer {
        self.pdb.engine()
    }

    /// Whether the policy allows `actor` to do `action` on `object`: the
    /// engine's answer to the request `(actor, object, action)`. A failure
    /// of the engine comes back as `Error::Policy`.
    pub fn enforce(&self, actor: &str, object: &str, action: &str) -> (answer: Result<bool, Error>)
        ensures
            answer_view(answer) == policy_view(
                engine_decision(self.engine(), actor@, object@, action@),
            ),
    {
        policy_answer(self.pdb.ask(actor, object, action))
    }
}

/// The request that a check puts to the policy engine for a connection with
/// the given identity: none where nobody has logged in.
pub open spec fn check_request(identity: Option<Seq<char>>, object: Seq<char>, action: Seq<char>)
    -> Option<(Seq<char>, Seq<char>, Seq<char>)> {
    match identity {
        Some(actor) => Some((actor, object, action)),
        None => None,
    }
}

/// The answer to a check in the name of a connection with the given
/// identity: a refusal where nobody has logged in, and the engine's answer
/// to `(identity, object, action)` otherwise.
pub open spec fn check_answer(
    engine: Enforcer,
    identity: Option<Seq<char>>,
    object: Seq<char>,
    action: Seq<char>,
) -> Result<bool, ErrorView> {
    match identity {
        Some(actor) => policy_view(engine_decision(engine, actor, object, action)),
        None => Ok(false),
    }
}

/// What one connection may do: checks are made in the name of whoever has
/// logged in on it.
pub struct Permissions<'a> {
    inner: &'a PermissionsProvider,
    auth: &'a Authentication,
}

impl<'a> Permissions<'a> {
    pub fn new(inner: &'a PermissionsProvider, auth: &'a Authentication) -> (perm: Permissions<'a>)
        ensures
            perm.identity() == auth.identity(),
            perm.engine() == inner.engine(),
    {
        Permissions { inner, auth }
    }

    /// The identity in whose name checks are made.
    pub closed spec fn identity(&self) -> Option<Seq<char>> {
        self.auth.identity()
    }

    /// The engine that decides.
    pub closed spec fn engine(&self) -> Enforcer {
        self.inner.engine()
    }

    /// The request that a check of `action` on `object` puts to the policy
    /// engine. A connection on which nobody has logged in puts none.
    pub fn request<'b>(&'b self, object: &'b str, action: &'b str) -> (request: Option<
        (&'b str, &'b str, &'b str),
    >)
        ensures
            request_view(request) == check_request(self.identity(), object@, action@),
    {
        match self.auth.identity_name() {
            Some(actor) => Some((actor, object, action)),
            None => None,
        }
    }

    /// Whether the connection's identity may do `action` on `object`.
    ///
    /// A connection without an identity is refused, and the engine is not
    /// asked. Otherwise the answer is the engine's to the request
    /// `(identity, object, action)`; a failure of the engine comes back as
    /// `Error::Policy`, never as a refusal.
    pub fn enforce(&self, object: &str, action: &str) -> (answer: Result<bool, Error>)
        ensures
            answer_view(answer) == check_answer(
                self.engine(),
                self.identity(),
                object@,
                action@,
            ),
    {
        match self.request(object, action) {
            Some((actor, object, action)) => self.inner.enforce(actor, object, action),
            None => Ok(false),
        }
    }
}

} // verus!
