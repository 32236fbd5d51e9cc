//! Looking a stored access token up, and the session it grants.
//!
//! A token grants the roles it was issued with, as far as its account still
//! holds them; a token issued with no roles grants all the account's roles.

use vstd::prelude::*;

use super::{role_name_list, role_names, texts, RoleValue};
use crate::auth::AuthResponse;

verus! {

/// The query that looks a stored access token up by its hash.
pub struct FetchAuthToken;

/// What the query sends: the stored form of the token.
#[derive(Debug, Clone)]
pub struct FetchAuthTokenVariables {
    pub token: String,
}

/// The account a token belongs to.
#[derive(Debug, Clone)]
pub struct FetchAuthTokenAccount {
    pub id: String,
    pub actor_id: String,
    pub account_has_roles: Vec<RoleValue>,
}

/// A stored access token.
#[derive(Debug, Clone)]
pub struct FetchAuthTokenAccessToken {
    pub overwrite_actor_id: Option<String>,
    pub account: FetchAuthTokenAccount,
    pub access_token_has_roles: Vec<RoleValue>,
}

/// The data of the query's answer.
#[derive(Debug, Clone)]
pub struct FetchAuthTokenData {
    pub auth_access_token: Vec<FetchAuthTokenAccessToken>,
}

/// Whether a role is among `roles`.
pub open spec fn held_by(roles: Seq<Seq<char>>) -> spec_fn(Seq<char>) -> bool {
    |role: Seq<char>| roles.contains(role)
}

/// The roles a token grants: those it was issued with that its account
/// holds, in the token's order; all the account's roles if it was issued
/// with none.
pub open spec fn allowed_roles_of(token_roles: Seq<Seq<char>>, account_roles: Seq<Seq<char>>) -> Seq<
    Seq<char>,
> {
    if token_roles.len() == 0 {
        account_roles
    } else {
        token_roles.filter(held_by(account_roles))
    }
}

/// The actor a token acts as: the one it overrides with, else its account's.
pub open spec fn actor_of(t: FetchAuthTokenAccessToken) -> Seq<char> {
    match t.overwrite_actor_id {
        Some(id) => id@,
        None => t.account.actor_id@,
    }
}

/// `resp` is the session that the token `t` grants.
pub open spec fn is_session_of(resp: AuthResponse, t: FetchAuthTokenAccessToken) -> bool {
    &&& resp.user_id matches Some(u) && u@ == t.account.id@
    &&& resp.actor_id matches Some(a) && a@ == actor_of(t)
    &&& resp.role is None
    &&& resp.cache_control is None
    &&& resp.allowed_roles matches Some(v) && texts(v@) == allowed_roles_of(
        role_names(t.access_token_has_roles@),
        role_names(t.account.account_has_roles@),
    )
}

/// A token never grants a role its account does not hold. A token issued
/// with roles grants exactly those of them that the account holds; one
/// issued with none grants all the account's roles.
pub proof fn lemma_allowed_roles(token_roles: Seq<Seq<char>>, account_roles: Seq<Seq<char>>)
    ensures
        forall|role: Seq<char>| #[trigger]
            allowed_roles_of(token_roles, account_roles).contains(role) ==> account_roles.contains(
                role,
            ),
        token_roles.len() > 0 ==> forall|role: Seq<char>| #[trigger]
            allowed_roles_of(token_roles, account_roles).contains(role) <==> (token_roles.contains(
                role,
            ) && account_roles.contains(role)),
        token_roles.len() == 0 ==> allowed_roles_of(token_roles, account_roles) == account_roles,
{
    if token_roles.len() > 0 {
        let pred = held_by(account_roles);
        let kept = token_roles.filter(pred);
        assert forall|role: Seq<char>| #[trigger] kept.contains(role) <==> (token_roles.contains(
            role,
        ) && account_roles.contains(role)) by {
            if kept.contains(role) {
                let k = choose|k: int| 0 <= k < kept.len() && kept[k] == role;
                token_roles.lemma_filter_pred(pred, k);
                token_roles.lemma_filter_contains_rev(pred, role);
            }
            if token_roles.contains(role) && account_roles.contains(role) {
                let k = choose|k: int| 0 <= k < token_roles.len() && token_roles[k] == role;
                token_roles.lemma_filter_contains(pred, k);
            }
        }
    }
}

/// Whether `role` is among `roles`.
fn holds_role(roles: &Vec<String>, role: &String) -> (b: bool)
    ensures
        b == texts(roles@).contains(role@),
{
    for i in 0..roles.len()
        invariant
            forall|k: int| 0 <= k < i ==> roles@[k]@ != role@,
    {
        if roles[i] == *role {
            assert(texts(roles@)[i as int] == role@);
            return true;
        }
    }
    assert forall|k: int| 0 <= k < texts(roles@).len() implies texts(roles@)[k] != role@ by {
        assert(texts(roles@)[k] == roles@[k]@);
    }
    false
}

/// The roles of `token_roles` that `account_roles` holds, in order.
fn keep_held_roles(token_roles: &Vec<String>, account_roles: &Vec<String>) -> (kept: Vec<String>)
    ensures
        texts(kept@) == texts(token_roles@).filter(held_by(texts(account_roles@))),
{
    let ghost t = texts(token_roles@);
    let ghost pred = held_by(texts(account_roles@));
    let mut kept: Vec<String> = Vec::new();
    for i in 0..token_roles.len()
        invariant
            t == texts(token_roles@),
            pred == held_by(texts(account_roles@)),
            texts(kept@) == t.take(i as int).filter(pred),
    {
        proof {
            reveal(Seq::filter);
            assert(t.take(i + 1).drop_last() =~= t.take(i as int));
            assert(t.take(i + 1).last() == token_roles@[i as int]@);
        }
        if holds_role(account_roles, &token_roles[i]) {
            kept.push(token_roles[i].clone());
        }
        assert(texts(kept@) =~= t.take(i + 1).filter(pred));
    }
    assert(t.take(token_roles.len() as int) =~= t);
    kept
}

impl FetchAuthToken {
    /// The variables for looking up the token stored as `token`.
    pub fn variables(token: &str) -> (v: FetchAuthTokenVariables)
        ensures
            v.token@ == token@,
    {
        FetchAuthTokenVariables { token: String::from_str(token) }
    }

    /// The session granted by the first token the backend returned, or
    /// `None` when it returned none (no such token).
    pub fn response(data: &FetchAuthTokenData) -> (r: Option<AuthResponse>)
        ensures
            data.auth_access_token@.len() == 0 ==> r is None,
            data.auth_access_token@.len() > 0 ==> (r matches Some(resp) && is_session_of(
                resp,
                data.auth_access_token@[0],
            )),
    {
        if data.auth_access_token.len() == 0 {
            return None;
        }
        let token = &data.auth_access_token[0];
        let account_roles = role_name_list(&token.account.account_has_roles);
        let actor_id = match &token.overwrite_actor_id {
            Some(id) => id.clone(),
            None => token.account.actor_id.clone(),
        };
        let allowed_roles = if token.access_token_has_roles.len() == 0 {
            account_roles
        } else {
            let token_roles = role_name_list(&token.access_token_has_roles);
            keep_held_roles(&token_roles, &account_roles)
        };
        Some(
            AuthResponse {
                user_id: Some(token.account.id.clone()),
                actor_id: Some(actor_id),
                role: None,
                cache_control: None,
                allowed_roles: Some(allowed_roles),
            },
        )
    }
}

} // verus!
