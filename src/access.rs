//! The authorization workflow: who is calling, and whether the session's
//! cached admin flag lets them through.
//!
//! The flag is looked up in storage only by the dashboard entry; every guard
//! here reads the cached value alone, so a change of the stored flag shows
//! only in a session that has not cached it yet.

use vstd::prelude::*;
use crate::reply::{Reply, redirect, redirects};
use crate::session::Session;

verus! {

/// A caller that passed a guard: the username and the cached admin flag.
#[derive(Debug, Clone)]
pub struct Caller {
    pub username: String,
    pub is_admin: bool,
}

/// A caller that the member guard lets through: logged in, flag cached.
pub open spec fn passes_member(s: Session) -> bool {
    s.identity is Some && s.is_admin is Some
}

/// A caller that the admin guard lets through: logged in, cached flag true.
pub open spec fn passes_admin(s: Session) -> bool {
    s.identity is Some && s.is_admin == Some(true)
}

/// How the member guard refuses: 401 for an anonymous caller, a redirect to
/// the dashboard entry (which caches the flag) for one without a cached flag.
pub open spec fn member_refusal(s: Session, r: Reply) -> bool {
    &&& s.identity is None ==> r == Reply::Unauthorized
    &&& (s.identity is Some && s.is_admin is None) ==> redirects(r, "/dashboard"@)
}

/// How the admin guard refuses: as the member guard, and 401 for a cached
/// flag that is false.
pub open spec fn admin_refusal(s: Session, r: Reply) -> bool {
    &&& member_refusal(s, r)
    &&& (s.identity is Some && s.is_admin == Some(false)) ==> r == Reply::Unauthorized
}

/// The outcome of the guard for pages that any logged-in caller may see once
/// the flag is cached.
pub open spec fn member_guard(s: Session, r: Result<Caller, Reply>) -> bool {
    &&& passes_member(s) ==> r == Ok::<Caller, Reply>(
        Caller { username: s.identity->Some_0, is_admin: s.is_admin->Some_0 },
    )
    &&& !passes_member(s) ==> (r is Err && member_refusal(s, r->Err_0))
}

/// The outcome of the guard for administrator pages.
pub open spec fn admin_guard(s: Session, r: Result<Caller, Reply>) -> bool {
    &&& passes_admin(s) ==> r == Ok::<Caller, Reply>(
        Caller { username: s.identity->Some_0, is_admin: true },
    )
    &&& !passes_admin(s) ==> (r is Err && admin_refusal(s, r->Err_0))
}

/// The guard of the login and registration forms: a logged-in caller is sent home.
pub fn anonymous(s: &Session) -> (r: Result<(), Reply>)
    ensures
        s.identity is None ==> r is Ok,
        s.identity is Some ==> (r is Err && redirects(r->Err_0, "/"@)),
{
    if s.identity.is_some() {
        Err(redirect("/"))
    } else {
        Ok(())
    }
}

/// The identity check: the username, or 401 for an anonymous caller.
pub fn authenticated(s: &Session) -> (r: Result<String, Reply>)
    ensures
        s.identity is Some ==> r == Ok::<String, Reply>(s.identity->Some_0),
        s.identity is None ==> r == Err::<String, Reply>(Reply::Unauthorized),
{
    match &s.identity {
        Some(n) => Ok(n.clone()),
        None => Err(Reply::Unauthorized),
    }
}

/// The guard of pages open to every logged-in caller with a cached flag.
pub fn member(s: &Session) -> (r: Result<Caller, Reply>)
    ensures
        member_guard(*s, r),
{
    match &s.identity {
        None => Err(Reply::Unauthorized),
        Some(n) => match s.is_admin {
            None => Err(redirect("/dashboard")),
            Some(b) => Ok(Caller { username: n.clone(), is_admin: b }),
        },
    }
}

/// The guard of administrator pages.
pub fn admin(s: &Session) -> (r: Result<Caller, Reply>)
    ensures
        admin_guard(*s, r),
{
    match &s.identity {
        None => Err(Reply::Unauthorized),
        Some(n) => match s.is_admin {
            None => Err(redirect("/dashboard")),
            Some(false) => Err(Reply::Unauthorized),
            Some(true) => Ok(Caller { username: n.clone(), is_admin: true }),
        },
    }
}

/// Once a session has cached its admin flag, the guards decide from that flag
/// alone: they never send the caller back to have it looked up again, and two
/// sessions of the same caller with the same cached flag get the same answer,
/// whatever the stored flag has become since.
pub proof fn admin_cache_is_sticky(
    s1: Session,
    s2: Session,
    r1: Result<Caller, Reply>,
    r2: Result<Caller, Reply>,
)
    requires
        s1.identity is Some,
        s1.is_admin is Some,
        s2.identity == s1.identity,
        s2.is_admin == s1.is_admin,
        admin_guard(s1, r1),
        admin_guard(s2, r2),
    ensures
        r1 == r2,
        r1 is Ok <==> s1.is_admin == Some(true),
        r1 is Err ==> r1 == Err::<Caller, Reply>(Reply::Unauthorized),
{
    if s1.is_admin->Some_0 {
        assert(s1.is_admin == Some(true));
    } else {
        assert(s1.is_admin == Some(false));
    }
}

} // verus!
