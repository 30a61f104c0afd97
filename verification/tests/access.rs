use diflouroborane::access::{
    effect_is_known, matcher_is_plain, policy_answer, vet_model, Permissions, PermissionsProvider,
    PolicyEngine, MATCHER_LIMIT,
};
use diflouroborane::auth::{Authentication, AuthenticationProvider, PassDB};
use diflouroborane::error::Error;

const RULES_MODEL: &str = "[request_definition]
r = sub, obj, act

[policy_definition]
p = sub, obj, act

[policy_effect]
e = some(where (p.eft == allow))

[matchers]
m = r.sub == p.sub && r.obj == p.obj && r.act == p.act
";

/// A model whose requests have two parts: every request of three fails.
const BROKEN_MODEL: &str = "[request_definition]
r = sub, obj

[policy_definition]
p = sub, obj

[policy_effect]
e = some(where (p.eft == allow))

[matchers]
m = r.sub == p.sub && r.obj == p.obj
";

fn access_engine(model: &str, rules: &[(&str, &str, &str)]) -> PolicyEngine {
    let mut policy = String::new();
    for (sub, obj, act) in rules {
        policy.push_str(&format!("p, {}, {}, {}\n", sub, obj, act));
    }
    PolicyEngine::build(model, &policy).unwrap()
}

fn logged_in(name: &str) -> Authentication {
    let mut db = PassDB::new();
    db.insert(name.to_string(), "pw".to_string());
    let provider = AuthenticationProvider::new(db, access_engine(RULES_MODEL, &[]));
    let mut auth = Authentication::new();
    let payload = format!("\0{}\0pw", name);
    let reply = auth
        .initialize_authentication(&provider, "PLAIN", Some(payload.as_bytes()))
        .unwrap();
    assert!(reply.value);
    auth
}

#[test]
fn policy_answer_keeps_decisions_and_failures_apart() {
    assert_eq!(policy_answer(Ok(true)), Ok(true));
    assert_eq!(policy_answer(Ok(false)), Ok(false));
    assert_eq!(
        policy_answer(Err("engine down".to_string())),
        Err(Error::Policy("engine down".to_string()))
    );
}

#[test]
fn provider_enforce_goes_by_the_rules() {
    let provider =
        PermissionsProvider::new(access_engine(RULES_MODEL, &[("alice", "lab", "write")]));
    assert_eq!(provider.enforce("alice", "lab", "write"), Ok(true));
    assert_eq!(provider.enforce("alice", "lab", "manage"), Ok(false));
    assert_eq!(provider.enforce("alice", "shop", "write"), Ok(false));
    assert_eq!(provider.enforce("bob", "lab", "write"), Ok(false));
    // The request is (actor, object, action), in that order.
    assert_eq!(provider.enforce("lab", "alice", "write"), Ok(false));
    assert_eq!(provider.enforce("write", "lab", "alice"), Ok(false));
}

#[test]
fn provider_enforce_reports_engine_failure_as_failure() {
    let provider = PermissionsProvider::new(access_engine(BROKEN_MODEL, &[]));
    let answer = provider.enforce("alice", "lab", "write");
    assert!(matches!(answer, Err(Error::Policy(_))));
    assert_ne!(answer, Ok(false));
}

#[test]
fn enforce_without_login_is_refused() {
    let provider =
        PermissionsProvider::new(access_engine(RULES_MODEL, &[("", "lab", "write")]));
    let auth = Authentication::new();
    let perm = Permissions::new(&provider, &auth);
    assert_eq!(perm.request("lab", "write"), None);
    assert_eq!(perm.enforce("lab", "write"), Ok(false));
    assert_eq!(perm.enforce("", ""), Ok(false));
}

#[test]
fn enforce_without_login_does_not_ask_the_engine() {
    // This engine fails on every request; a refusal shows it was not asked.
    let provider = PermissionsProvider::new(access_engine(BROKEN_MODEL, &[]));
    assert!(provider.enforce("alice", "lab", "write").is_err());
    let auth = Authentication::new();
    let perm = Permissions::new(&provider, &auth);
    assert_eq!(perm.enforce("lab", "write"), Ok(false));
}

#[test]
fn enforce_after_denied_login_is_refused() {
    let mut db = PassDB::new();
    db.insert("alice".to_string(), "secret".to_string());
    let logins = AuthenticationProvider::new(db, access_engine(RULES_MODEL, &[]));
    let mut auth = Authentication::new();
    let reply = auth
        .initialize_authentication(&logins, "PLAIN", Some(b"\0alice\0wrong"))
        .unwrap();
    assert!(!reply.value);
    let provider = PermissionsProvider::new(access_engine(BROKEN_MODEL, &[]));
    assert_eq!(Permissions::new(&provider, &auth).enforce("lab", "write"), Ok(false));
}

#[test]
fn enforce_acts_in_the_name_of_who_logged_in() {
    let provider = PermissionsProvider::new(access_engine(
        RULES_MODEL,
        &[("alice", "lab", "write"), ("bob", "lab", "manage")],
    ));
    let alice = logged_in("alice");
    let perm = Permissions::new(&provider, &alice);
    assert_eq!(perm.request("lab", "write"), Some(("alice", "lab", "write")));
    assert_eq!(perm.enforce("lab", "write"), Ok(true));
    assert_eq!(perm.enforce("lab", "manage"), Ok(false));
    assert_eq!(perm.enforce("shop", "write"), Ok(false));
    let bob = logged_in("bob");
    let perm = Permissions::new(&provider, &bob);
    assert_eq!(perm.enforce("lab", "write"), Ok(false));
    assert_eq!(perm.enforce("lab", "manage"), Ok(true));
}

#[test]
fn enforce_reports_engine_failure_as_failure() {
    let provider = PermissionsProvider::new(access_engine(BROKEN_MODEL, &[]));
    let alice = logged_in("alice");
    let answer = Permissions::new(&provider, &alice).enforce("lab", "write");
    assert!(matches!(answer, Err(Error::Policy(_))));
}

const EFFECT_NOT_SUPPORTED: &str = "The effect of the policy model is not supported";
const MATCHER_NOT_SUPPORTED: &str = "The matcher of the policy model is not supported";
const SECOND_MATCHER: &str = "A second matcher in the policy model is not supported";
const ROLES_NOT_SUPPORTED: &str = "A role definition in the policy model is not supported";

fn model_with(effect: &str, matcher: &str) -> String {
    format!(
        "[request_definition]\nr = sub, obj, act\n\n[policy_definition]\np = sub, obj, act\n\n[policy_effect]\ne = {}\n\n[matchers]\nm = {}\n",
        effect, matcher
    )
}

fn refusal_of(model: &str) -> Option<Error> {
    PolicyEngine::build(model, "p, alice, lab, write\n").err()
}

const USUAL_EFFECT: &str = "some(where (p.eft == allow))";
const USUAL_MATCHER: &str = "r.sub == p.sub && r.obj == p.obj && r.act == p.act";

/// Denies where a rule says so, and allows everything else.
const DENY_MODEL: &str = "[request_definition]
r = sub, obj, act

[policy_definition]
p = sub, obj, act, eft

[policy_effect]
e = !some(where (p.eft == deny))

[matchers]
m = r.sub == p.sub && r.obj == p.obj && r.act == p.act
";

/// Roles are defined, and the matcher asks for them.
const ROLE_MODEL: &str = "[request_definition]
r = sub, obj, act

[policy_definition]
p = sub, obj, act

[role_definition]
g = _, _

[policy_effect]
e = some(where (p.eft == allow))

[matchers]
m = g(r.sub, p.sub) && r.obj == p.obj && r.act == p.act
";

#[test]
fn effect_is_known_for_the_four_effects() {
    assert!(effect_is_known("some(where (p_eft == allow))"));
    assert!(effect_is_known("some(where (p_eft == allow)) && !some(where (p_eft == deny))"));
    assert!(effect_is_known("priority(p_eft) || deny"));
    assert!(effect_is_known("!some(where (p_eft == deny))"));
}

#[test]
fn effect_is_known_for_no_other_text() {
    assert!(!effect_is_known(""));
    assert!(!effect_is_known("some(where (p_eft==allow))"));
    assert!(!effect_is_known("some(where (p.eft == allow))"));
    assert!(!effect_is_known("some(where (p_eft == allow)) "));
    assert!(!effect_is_known(" some(where (p_eft == allow))"));
    assert!(!effect_is_known("some(where (p_eft == deny))"));
    assert!(!effect_is_known("priority(p_eft) || allow"));
}

#[test]
fn matcher_is_plain_with_names_literals_and_signs() {
    assert!(matcher_is_plain(""));
    assert!(matcher_is_plain("r_sub == p_sub && r_obj == p_obj && r_act == p_act"));
    assert!(matcher_is_plain("r_sub == p_sub || r_sub == \"root\""));
    assert!(matcher_is_plain("r_sub != p_sub && !r_flag"));
    assert!(matcher_is_plain("r_sub == \"a name, with (brackets) and 1 / 0\""));
    assert!(matcher_is_plain("r_sub == \"\u{4e16}\u{754c}\""));
}

#[test]
fn matcher_is_plain_with_brackets_that_group() {
    assert!(matcher_is_plain("(r_sub == p_sub)"));
    assert!(matcher_is_plain("r_sub == p_sub && (r_act == p_act || p_act == \"any\")"));
    assert!(matcher_is_plain("!(r_sub == p_sub)"));
    assert!(matcher_is_plain("((r_sub == p_sub) && ( r_obj == p_obj ))"));
}

#[test]
fn matcher_is_plain_not_with_a_call() {
    assert!(!matcher_is_plain("regexMatch(r_obj, p_obj)"));
    assert!(!matcher_is_plain("g(r_sub, p_sub) && r_obj == p_obj"));
    assert!(!matcher_is_plain("r_sub == p_sub && keyMatch (r_obj, p_obj)"));
    assert!(!matcher_is_plain("(r_sub == p_sub)(r_obj)"));
    assert!(!matcher_is_plain("\"f\"(r_obj)"));
    assert!(!matcher_is_plain("r_sub.len() == 3"));
}

#[test]
fn matcher_is_plain_not_with_arithmetic_or_other_signs() {
    for matcher in [
        "1 / 0 == 1",
        "r_n % 2 == 0",
        "r_n + 1 == 2",
        "r_n - 1 == 0",
        "r_n * 2 == 2",
        "r_n < 2",
        "r_n > 2",
        "r_n << 70 == 0",
        "r_sub == p_sub /* regexMatch */ (r_obj)",
        "r_sub == p_sub // note",
        "r_sub == 'a'",
        "r_sub == `a${1}`",
        "r_sub == \"a\\\"b\"",
        "r_sub == [1]",
        "r_sub == #{a: 1}",
        "r_sub == p_sub; 1",
        "r_sub ==\tp_sub",
        "r_sub ==\np_sub",
        "r.sub == p.sub",
    ] {
        assert!(!matcher_is_plain(matcher), "{}", matcher);
    }
}

#[test]
fn matcher_is_plain_not_with_an_open_literal() {
    assert!(!matcher_is_plain("r_sub == \"root"));
    assert!(!matcher_is_plain("\""));
}

#[test]
fn matcher_is_plain_up_to_the_limit() {
    assert_eq!(MATCHER_LIMIT, 256);
    let longest = "a".repeat(256);
    assert!(matcher_is_plain(&longest));
    let too_long = "a".repeat(257);
    assert!(!matcher_is_plain(&too_long));
    // Characters count, not bytes.
    let wide = format!("\"{}\"", "\u{4e16}".repeat(254));
    assert!(matcher_is_plain(&wide));
    let nested = format!("{}a{}", "(".repeat(128), ")".repeat(128));
    assert!(!matcher_is_plain(&nested));
}

#[test]
fn vet_model_accepts_a_model_that_is_vouched_for() {
    let effect = "some(where (p_eft == allow))";
    let matcher = "r_sub == p_sub && r_obj == p_obj";
    assert_eq!(vet_model(Some(effect), Some(matcher), None, None), Ok(()));
    assert_eq!(vet_model(None, Some(matcher), None, None), Ok(()));
    assert_eq!(vet_model(Some(effect), None, None, None), Ok(()));
    assert_eq!(vet_model(None, None, None, None), Ok(()));
}

#[test]
fn vet_model_turns_down_in_words() {
    let effect = "some(where (p_eft == allow))";
    let matcher = "r_sub == p_sub && r_obj == p_obj";
    assert_eq!(
        vet_model(Some("anything"), Some(matcher), None, None),
        Err(EFFECT_NOT_SUPPORTED.to_string())
    );
    assert_eq!(vet_model(Some(""), None, None, None), Err(EFFECT_NOT_SUPPORTED.to_string()));
    assert_eq!(
        vet_model(Some(effect), Some("f(r_sub)"), None, None),
        Err(MATCHER_NOT_SUPPORTED.to_string())
    );
    assert_eq!(
        vet_model(None, Some("1 / 0 == 1"), None, None),
        Err(MATCHER_NOT_SUPPORTED.to_string())
    );
    assert_eq!(
        vet_model(Some(effect), Some(matcher), Some(matcher), None),
        Err(SECOND_MATCHER.to_string())
    );
    assert_eq!(
        vet_model(Some(effect), Some(matcher), None, Some("_, _")),
        Err(ROLES_NOT_SUPPORTED.to_string())
    );
    // The first fault is the one that is named.
    assert_eq!(
        vet_model(Some("anything"), Some("f(r_sub)"), Some(matcher), Some("_, _")),
        Err(EFFECT_NOT_SUPPORTED.to_string())
    );
    assert_eq!(
        vet_model(Some(effect), Some("f(r_sub)"), Some(matcher), Some("_, _")),
        Err(MATCHER_NOT_SUPPORTED.to_string())
    );
    assert_eq!(
        vet_model(Some(effect), Some(matcher), Some(matcher), Some("_, _")),
        Err(SECOND_MATCHER.to_string())
    );
}

#[test]
fn build_turns_down_an_effect_that_is_spaced_otherwise() {
    let model = model_with("some(where (p.eft==allow))", USUAL_MATCHER);
    assert_eq!(refusal_of(&model), Some(Error::Policy(EFFECT_NOT_SUPPORTED.to_string())));
}

#[test]
fn build_turns_down_a_matcher_that_calls_or_computes() {
    for matcher in [
        "r.sub == p.sub && regexMatch(p.obj, r.obj) && r.act == p.act",
        "keyMatch(r.obj, p.obj)",
        "1 / 0 == 1",
        "r.sub == p.sub && 1 % 0 == 1",
    ] {
        let model = model_with(USUAL_EFFECT, matcher);
        assert_eq!(
            refusal_of(&model),
            Some(Error::Policy(MATCHER_NOT_SUPPORTED.to_string())),
            "{}",
            matcher
        );
    }
}

#[test]
fn build_turns_down_a_role_definition() {
    assert_eq!(refusal_of(ROLE_MODEL), Some(Error::Policy(MATCHER_NOT_SUPPORTED.to_string())));
    let roles_unused = ROLE_MODEL.replace("g(r.sub, p.sub)", "r.sub == p.sub");
    assert_eq!(refusal_of(&roles_unused), Some(Error::Policy(ROLES_NOT_SUPPORTED.to_string())));
}

#[test]
fn build_turns_down_a_second_matcher() {
    let model = format!("{}m2 = r.sub == p.sub\n", model_with(USUAL_EFFECT, USUAL_MATCHER));
    assert_eq!(refusal_of(&model), Some(Error::Policy(SECOND_MATCHER.to_string())));
}

#[test]
fn build_reports_a_text_that_is_no_model() {
    assert!(matches!(refusal_of("no model at all"), Some(Error::Policy(_))));
}

#[test]
fn engine_with_a_grouping_matcher_is_asked() {
    let model = model_with(
        USUAL_EFFECT,
        "r.sub == p.sub && (r.obj == p.obj || p.obj == \"any\") && r.act == p.act",
    );
    let engine = PolicyEngine::build(&model, "p, alice, lab, write\np, bob, any, write\n").unwrap();
    let provider = PermissionsProvider::new(engine);
    assert_eq!(provider.enforce("alice", "lab", "write"), Ok(true));
    assert_eq!(provider.enforce("alice", "shop", "write"), Ok(false));
    assert_eq!(provider.enforce("bob", "shop", "write"), Ok(true));
    assert_eq!(provider.enforce("bob", "shop", "manage"), Ok(false));
}

#[test]
fn engine_takes_any_text_in_a_request() {
    let provider =
        PermissionsProvider::new(access_engine(RULES_MODEL, &[("alice", "lab", "write")]));
    for text in ["", "lab(", "1 / 0", "\"", "a\\b", "\u{4e16}\u{754c}", "[", "*"] {
        assert_eq!(provider.enforce("alice", text, "write"), Ok(false));
        assert_eq!(provider.enforce(text, "lab", "write"), Ok(false));
    }
}

#[test]
fn engine_with_another_known_effect_is_asked() {
    let engine = PolicyEngine::build(DENY_MODEL, "p, alice, lab, write, deny\n").unwrap();
    let provider = PermissionsProvider::new(engine);
    assert_eq!(provider.enforce("alice", "lab", "write"), Ok(false));
    assert_eq!(provider.enforce("bob", "lab", "write"), Ok(true));
}

#[test]
fn engine_ask_gives_the_answer_in_the_engines_words() {
    let engine = access_engine(RULES_MODEL, &[("alice", "lab", "write")]);
    assert_eq!(engine.ask("alice", "lab", "write"), Ok(true));
    assert_eq!(engine.ask("alice", "lab", "manage"), Ok(false));
    let broken = access_engine(BROKEN_MODEL, &[]);
    assert!(broken.ask("alice", "lab", "write").is_err());
}

#[test]
fn engine_with_the_deepest_matcher_that_is_admitted_is_asked() {
    // Brackets nested as deep as the limit lets them.
    let inner = "r.sub == p.sub";
    let depth = 118;
    let nested = format!("{}{}{}", "(".repeat(depth), inner, ")".repeat(depth));
    assert!(nested.len() <= MATCHER_LIMIT);
    let engine = PolicyEngine::build(&model_with(USUAL_EFFECT, &nested), "p, alice, lab, write\n")
        .unwrap();
    assert_eq!(engine.ask("alice", "lab", "write"), Ok(true));
    assert_eq!(engine.ask("bob", "lab", "write"), Ok(false));
    // As many negations as the limit lets in a row.
    let negated = format!("{}(r.sub == p.sub)", "!".repeat(240));
    assert!(negated.len() <= MATCHER_LIMIT);
    let engine = PolicyEngine::build(&model_with(USUAL_EFFECT, &negated), "p, alice, lab, write\n")
        .unwrap();
    assert_eq!(engine.ask("alice", "lab", "write"), Ok(true));
    assert_eq!(engine.ask("bob", "lab", "write"), Ok(false));
    // The longest chain of comparisons.
    let chain = vec!["r.sub == p.sub"; 14].join(" && ");
    assert!(chain.len() <= MATCHER_LIMIT);
    let engine = PolicyEngine::build(&model_with(USUAL_EFFECT, &chain), "p, alice, lab, write\n")
        .unwrap();
    assert_eq!(engine.ask("alice", "lab", "write"), Ok(true));
    assert_eq!(engine.ask("bob", "lab", "write"), Ok(false));
}
