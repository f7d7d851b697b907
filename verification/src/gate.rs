//! The permission gate: whether a credential meets the tier an operation
//! requires.

use vstd::prelude::*;
use vstd::string::StringExecFns;

use crate::credential::{Auth, AuthView, StoreReply, StoreReplyView};
use crate::error::{not_authed, AuthError};
use crate::tier::tier_view;

verus! {

/// Whether an operation that requires `required` is open to the credential
/// `cred`, resolved against `reply`.
///
/// An operation without a requirement is closed to everyone. `public` is open
/// to everyone. `admin` needs a resolved identity whose tier is `admin`;
/// `user` and `self` need a resolved identity of any tier. For `self` the
/// gate does not compare the identity with the owner of what is asked for:
/// that is left to the caller. Any other name is closed to everyone.
pub open spec fn grants(required: Option<Seq<char>>, cred: AuthView, reply: StoreReplyView) -> bool {
    match required {
        None => false,
        Some(tier) => if tier == "public"@ {
            true
        } else if tier == "admin"@ {
            cred.identified(reply) && cred.validated(reply).access == Some("admin"@)
        } else if tier == "user"@ || tier == "self"@ {
            cred.identified(reply)
        } else {
            false
        },
    }
}

/// The outcome for the caller: `Ok(true)` where the operation is open to the
/// credential, the uniform denial where it is not.
pub open spec fn decision(required: Option<Seq<char>>, cred: AuthView, reply: StoreReplyView) -> Result<
    bool,
    AuthError,
> {
    if grants(required, cred, reply) {
        Ok(true)
    } else {
        Err(AuthError::NotAuthenticated)
    }
}

/// Whether `name` is the tier `tier`.
fn is_tier(name: &String, tier: &str) -> (same: bool)
    ensures
        same == (name@ == tier@),
{
    *name == String::from_str(tier)
}

/// Decides whether the credential meets the requirement of an operation.
///
/// The credential is resolved first, whatever is required, so that later
/// checks on the same request find the identity and ask the store no more.
pub fn auth_met(required: &Option<String>, auth: &mut Auth, reply: &StoreReply) -> (r: Result<
    bool,
    AuthError,
>)
    ensures
        r == decision(tier_view(*required), old(auth)@, reply@),
        final(auth)@ == old(auth)@.validated(reply@),
{
    let identified = match auth.validate(reply) {
        Ok(Some(_)) => true,
        _ => false,
    };

    match required {
        None => Err(not_authed()),
        Some(req) => {
            if is_tier(req, "public") {
                Ok(true)
            } else if is_tier(req, "admin") {
                let admin = match &auth.access {
                    Some(access) => is_tier(access, "admin"),
                    None => false,
                };
                if identified && admin {
                    Ok(true)
                } else {
                    Err(not_authed())
                }
            } else if is_tier(req, "user") || is_tier(req, "self") {
                if identified {
                    Ok(true)
                } else {
                    Err(not_authed())
                }
            } else {
                Err(not_authed())
            }
        },
    }
}

/// The four tier names are pairwise different.
pub proof fn lemma_tier_names_differ()
    ensures
        "public"@ != "admin"@,
        "public"@ != "user"@,
        "public"@ != "self"@,
        "admin"@ != "user"@,
        "admin"@ != "self"@,
        "user"@ != "self"@,
{
    reveal_strlit("public");
    reveal_strlit("admin");
    reveal_strlit("user");
    reveal_strlit("self");
    assert("public"@.len() == 6);
    assert("admin"@.len() == 5);
    assert("user"@.len() == 4);
    assert("self"@.len() == 4);
    assert("user"@[0] == 'u');
    assert("self"@[0] == 's');
}

/// An operation with no declared tier is closed to every credential.
pub proof fn lemma_undeclared_is_closed(cred: AuthView, reply: StoreReplyView)
    ensures
        !grants(None, cred, reply),
{
}

/// A public operation is open to every credential, resolved or not.
pub proof fn lemma_public_is_open(cred: AuthView, reply: StoreReplyView)
    ensures
        grants(Some("public"@), cred, reply),
{
}

/// An admin operation is open exactly to a resolved identity of tier `admin`.
pub proof fn lemma_admin_needs_admin(cred: AuthView, reply: StoreReplyView)
    ensures
        grants(Some("admin"@), cred, reply) <==> cred.identified(reply) && cred.validated(
            reply,
        ).access == Some("admin"@),
{
    lemma_tier_names_differ();
}

/// A `user` or `self` operation is open exactly to a resolved identity,
/// whatever its tier.
pub proof fn lemma_user_needs_identity(cred: AuthView, reply: StoreReplyView)
    ensures
        grants(Some("user"@), cred, reply) <==> cred.identified(reply),
        grants(Some("self"@), cred, reply) <==> cred.identified(reply),
{
    lemma_tier_names_differ();
}

} // verus!
