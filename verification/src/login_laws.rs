//! What holds of every login.

use crate::auth::{
    credentials_match, identity_after, lemma_nul_positions_bounds, nul_positions, plain_outcome,
    plain_plan, policy_request, split_nul_spec, step_outcome, PassMap, SASLError,
};
use crate::error::ErrorView;
use vstd::prelude::*;
use vstd::utf8::*;

verus! {

/// Whether a text holds no NUL.
pub open spec fn nul_free(text: Seq<char>) -> bool {
    forall|i: int| 0 <= i < text.len() ==> text[i] != '\0'
}

/// The text that a client sends to log in: the identity asked for, the
/// login name and the password, parted by NUL.
pub open spec fn login_text(authzid: Seq<char>, authcid: Seq<char>, passwd: Seq<char>) -> Seq<
    char,
> {
    authzid + seq!['\0'] + authcid + seq!['\0'] + passwd
}

/// Positions moved to the right by `by`.
pub open spec fn shifted(at: Seq<int>, by: int) -> Seq<int> {
    Seq::new(at.len(), |i: int| at[i] + by)
}

/// The positions listed for a text are exactly the places where it holds a
/// NUL.
pub proof fn lemma_nul_positions_exact(text: Seq<char>)
    ensures
        forall|i: int|
            0 <= i < nul_positions(text).len() ==> 0 <= (#[trigger] nul_positions(text)[i])
                < text.len() && text[nul_positions(text)[i]] == '\0',
        forall|k: int|
            0 <= k < text.len() && text[k] == '\0' ==> #[trigger] nul_positions(text).contains(k),
    decreases text.len(),
{
    lemma_nul_positions_bounds(text);
    if text.len() > 0 {
        let rest = text.drop_last();
        lemma_nul_positions_exact(rest);
        let at = nul_positions(text);
        let before = nul_positions(rest);
        assert forall|i: int| 0 <= i < at.len() implies text[#[trigger] at[i]] == '\0' by {
            if i < before.len() {
                assert(at[i] == before[i]);
                assert(rest[before[i]] == text[before[i]]);
            }
        }
        assert forall|k: int| 0 <= k < text.len() && text[k] == '\0' implies #[trigger] at.contains(
            k,
        ) by {
            if k < rest.len() {
                assert(rest[k] == text[k]);
                assert(before.contains(k));
                let i = choose|i: int| 0 <= i < before.len() && before[i] == k;
                assert(at[i] == k);
            } else {
                assert(at[at.len() - 1] == k);
            }
        }
    }
}

/// A text without NUL has no position listed.
pub proof fn lemma_nul_free_positions(text: Seq<char>)
    requires
        nul_free(text),
    ensures
        nul_positions(text) == Seq::<int>::empty(),
    decreases text.len(),
{
    if text.len() > 0 {
        lemma_nul_free_positions(text.drop_last());
    }
}

/// The NULs of two texts joined are those of the first and then those of
/// the second, moved right by the length of the first.
pub proof fn lemma_nul_positions_concat(x: Seq<char>, y: Seq<char>)
    ensures
        nul_positions(x + y) == nul_positions(x) + shifted(nul_positions(y), x.len() as int),
    decreases y.len(),
{
    if y.len() == 0 {
        assert(x + y =~= x);
        assert(nul_positions(y) =~= Seq::<int>::empty());
        assert(nul_positions(x) + shifted(nul_positions(y), x.len() as int) =~= nul_positions(x));
    } else {
        let rest = y.drop_last();
        lemma_nul_positions_concat(x, rest);
        assert((x + y).drop_last() =~= x + rest);
        assert((x + y).last() == y.last());
        assert(nul_positions(x + y) =~= nul_positions(x) + shifted(
            nul_positions(y),
            x.len() as int,
        ));
    }
}

/// The NULs of a login text whose fields hold none are the two that part
/// the fields.
pub proof fn lemma_login_text_positions(authzid: Seq<char>, authcid: Seq<char>, passwd: Seq<char>)
    requires
        nul_free(authzid),
        nul_free(authcid),
        nul_free(passwd),
    ensures
        nul_positions(login_text(authzid, authcid, passwd)) == seq![
            authzid.len() as int,
            (authzid.len() + 1 + authcid.len()) as int,
        ],
{
    let nul = seq!['\0'];
    lemma_nul_free_positions(authzid);
    lemma_nul_free_positions(authcid);
    lemma_nul_free_positions(passwd);
    assert(nul.drop_last() =~= Seq::<char>::empty());
    assert(nul_positions(nul) =~= seq![0int]) by {
        assert(nul.last() == '\0');
        assert(nul_positions(nul.drop_last()) =~= Seq::<int>::empty());
    }
    let s1 = authzid + nul;
    let s2 = s1 + authcid;
    let s3 = s2 + nul;
    let s4 = s3 + passwd;
    lemma_nul_positions_concat(authzid, nul);
    assert(nul_positions(s1) =~= seq![authzid.len() as int]);
    lemma_nul_positions_concat(s1, authcid);
    assert(nul_positions(s2) =~= seq![authzid.len() as int]);
    lemma_nul_positions_concat(s2, nul);
    assert(nul_positions(s3) =~= seq![
        authzid.len() as int,
        (authzid.len() + 1 + authcid.len()) as int,
    ]);
    lemma_nul_positions_concat(s3, passwd);
    assert(nul_positions(s4) =~= seq![
        authzid.len() as int,
        (authzid.len() + 1 + authcid.len()) as int,
    ]);
}

/// Three fields without NUL, joined by NUL, split into those three fields
/// again.
pub proof fn lemma_split_of_login_text(authzid: Seq<char>, authcid: Seq<char>, passwd: Seq<char>)
    requires
        nul_free(authzid),
        nul_free(authcid),
        nul_free(passwd),
    ensures
        split_nul_spec(login_text(authzid, authcid, passwd)) == Some((authzid, authcid, passwd)),
{
    let text = login_text(authzid, authcid, passwd);
    lemma_login_text_positions(authzid, authcid, passwd);
    let at = nul_positions(text);
    assert(text.subrange(0, at[0]) =~= authzid);
    assert(text.subrange(at[0] + 1, at[1]) =~= authcid);
    assert(text.subrange(at[1] + 1, text.len() as int) =~= passwd);
}

/// A text splits into three fields only if it is those fields joined by
/// NUL, and then none of them holds a NUL.
pub proof fn lemma_fields_of_split(text: Seq<char>)
    ensures
        split_nul_spec(text) is Some <==> nul_positions(text).len() == 2,
        split_nul_spec(text) matches Some((authzid, authcid, passwd)) ==> {
            &&& text == login_text(authzid, authcid, passwd)
            &&& nul_free(authzid)
            &&& nul_free(authcid)
            &&& nul_free(passwd)
        },
{
    let at = nul_positions(text);
    if at.len() == 2 {
        lemma_nul_positions_exact(text);
        lemma_nul_positions_bounds(text);
        let p = at[0];
        let q = at[1];
        assert(0 <= p < q < text.len());
        assert(text[p] == '\0' && text[q] == '\0');
        let authzid = text.subrange(0, p);
        let authcid = text.subrange(p + 1, q);
        let passwd = text.subrange(q + 1, text.len() as int);
        assert(text =~= login_text(authzid, authcid, passwd));
        assert forall|k: int| 0 <= k < text.len() && text[k] == '\0' implies k == p || k == q by {
            assert(at.contains(k));
            let i = choose|i: int| 0 <= i < at.len() && at[i] == k;
            assert(i == 0 || i == 1);
        }
        assert(nul_free(authzid)) by {
            assert forall|i: int| 0 <= i < authzid.len() implies authzid[i] != '\0' by {
                assert(authzid[i] == text[i]);
            }
        }
        assert(nul_free(authcid)) by {
            assert forall|i: int| 0 <= i < authcid.len() implies authcid[i] != '\0' by {
                assert(authcid[i] == text[p + 1 + i]);
            }
        }
        assert(nul_free(passwd)) by {
            assert forall|i: int| 0 <= i < passwd.len() implies passwd[i] != '\0' by {
                assert(passwd[i] == text[q + 1 + i]);
            }
        }
    }
}

/// A login with the exact secret that is stored for the login name, which
/// asks for no other identity, is granted under the login name, whatever
/// the policy engine would say.
pub proof fn lemma_exact_secret_grants(
    db: PassMap,
    authzid: Seq<char>,
    authcid: Seq<char>,
    passwd: Seq<char>,
    decision: Option<bool>,
)
    requires
        nul_free(authzid),
        nul_free(authcid),
        nul_free(passwd),
        db.contains_key(authcid),
        db[authcid] == passwd,
        authzid.len() == 0 || authzid == authcid,
    ensures
        plain_outcome(db, login_text(authzid, authcid, passwd), decision) == Ok::<
            (bool, Seq<char>),
            ErrorView,
        >((true, authcid)),
{
    lemma_split_of_login_text(authzid, authcid, passwd);
}

/// A login with a secret other than the stored one, or with a login name
/// that is not on file, is denied, and the outcome names the identity that
/// was asked for.
pub proof fn lemma_wrong_secret_denies(
    db: PassMap,
    authzid: Seq<char>,
    authcid: Seq<char>,
    passwd: Seq<char>,
    decision: Option<bool>,
)
    requires
        nul_free(authzid),
        nul_free(authcid),
        nul_free(passwd),
        !db.contains_key(authcid) || db[authcid] != passwd,
    ensures
        plain_outcome(db, login_text(authzid, authcid, passwd), decision) == Ok::<
            (bool, Seq<char>),
            ErrorView,
        >((false, authzid)),
{
    lemma_split_of_login_text(authzid, authcid, passwd);
}

/// A login that asks to act as somebody else is granted only where the
/// credentials are right and the policy engine, asked whether the login
/// name may `su` to that identity, says yes. Whether granted or denied, the
/// outcome names the identity that was asked for, never the login name.
pub proof fn lemma_impersonation_needs_policy(
    db: PassMap,
    authzid: Seq<char>,
    authcid: Seq<char>,
    passwd: Seq<char>,
    decision: Option<bool>,
)
    requires
        nul_free(authzid),
        nul_free(authcid),
        nul_free(passwd),
        authzid.len() > 0,
        authzid != authcid,
    ensures
        credentials_match(db, authcid, passwd) ==> {
            let plan = plain_plan(db, login_text(authzid, authcid, passwd));
            plan is Ok && policy_request(plan->Ok_0) == Some((authcid, authzid, "su"@))
        },
        plain_outcome(db, login_text(authzid, authcid, passwd), decision) == Ok::<
            (bool, Seq<char>),
            ErrorView,
        >((true, authzid)) <==> (credentials_match(db, authcid, passwd) && decision == Some(true)),
        ({
            let outcome = plain_outcome(db, login_text(authzid, authcid, passwd), decision);
            outcome is Ok ==> outcome->Ok_0.1 == authzid
        }),
{
    lemma_split_of_login_text(authzid, authcid, passwd);
}

/// A text that is not exactly three fields parted by NUL fails as a bad
/// challenge, whatever the credential store holds and whatever the policy
/// engine would say.
pub proof fn lemma_malformed_text_fails(text: Seq<char>)
    requires
        nul_positions(text).len() != 2,
    ensures
        forall|db: PassMap, decision: Option<bool>| #[trigger]
            plain_outcome(db, text, decision) == Err::<(bool, Seq<char>), ErrorView>(
                ErrorView::SASL(SASLError::BadChallenge),
            ),
{
}

/// A payload that is the UTF-8 encoding of a text comes to what that text
/// comes to.
pub proof fn lemma_step_of_encoded_text(db: PassMap, text: Seq<char>, decision: Option<bool>)
    ensures
        step_outcome(db, encode_utf8(text), decision) == plain_outcome(db, text, decision),
{
    encode_utf8_valid_utf8(text);
    encode_utf8_decode_utf8(text);
}

/// The identity of a connection changes only by a granted login on a
/// connection that had none, and then it is the identity that the outcome
/// names.
pub proof fn lemma_identity_set_once(
    before: Option<Seq<char>>,
    outcome: Result<(bool, Seq<char>), ErrorView>,
)
    ensures
        before is Some ==> identity_after(before, outcome) == before,
        identity_after(before, outcome) != before ==> (outcome is Ok && outcome->Ok_0.0
            && identity_after(before, outcome) == Some(outcome->Ok_0.1)),
        !(outcome is Ok && outcome->Ok_0.0) ==> identity_after(before, outcome) == before,
{
}

} // verus!
