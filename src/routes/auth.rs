//! Logging in and out, and registering.

use vstd::prelude::*;
use crate::models::{LoginForm, RegisterForm, SlimUser, User};
use crate::reply::{Page, Reply, redirect, redirects};
use crate::repo::{register_user, user_exists};
use crate::session::{Session, SessionView, shown, shown_text};
use crate::store::{Tables, UserWrite};

verus! {

/// The login form; a logged-in caller is sent home.
pub fn login_form(s: &Session) -> (r: Reply)
    ensures
        s.identity is Some ==> redirects(r, "/"@),
        s.identity is None ==> (r matches Reply::Render(Page::Login { failed }) && failed@ == shown(
            s@.login_failure,
        )),
{
    if s.identity.is_some() {
        redirect("/")
    } else {
        Reply::Render(Page::Login { failed: shown_text(&s.login_failure) })
    }
}

/// What a login does. A logged-in caller is sent home and nothing changes.
/// Otherwise, given the credentials stored for the submitted
/// username (or the lookup's error): on a match the caller becomes that user
/// and the login flash is cleared; otherwise the flash says why and the
/// identity stays as it was.
pub open spec fn login_result(
    s: SessionView,
    form: LoginForm,
    found: Result<SlimUser, String>,
    s2: SessionView,
    r: Reply,
) -> bool {
    if s.identity is Some {
        s2 == s && redirects(r, "/"@)
    } else {
        match found {
        Err(e) => s2 == (SessionView { login_failure: Some(e@), ..s }) && redirects(r, "/login"@),
        Ok(u) => if u.password@ == form.password@ {
            &&& s2 == (SessionView {
                identity: Some(u.username@),
                login_failure: Some(Seq::<char>::empty()),
                ..s
            })
            &&& redirects(r, "/"@)
        } else {
            &&& s2 == (SessionView { login_failure: Some("Bad password"@), ..s })
            &&& redirects(r, "/login"@)
        },
        }
    }
}

/// A login attempt; `found` is what `repo::get_user` gave for the username.
/// A caller already logged in is sent home, and nothing is looked up for
/// them: `access::anonymous` says so before the lookup.
pub fn login(s: &mut Session, form: &LoginForm, found: Result<SlimUser, String>) -> (r: Reply)
    ensures
        login_result(old(s)@, *form, found, final(s)@, r),
{
    if s.identity.is_some() {
        return redirect("/");
    }
    match found {
        Err(e) => {
            s.login_failure = Some(e);
            redirect("/login")
        },
        Ok(u) => {
            if u.password != form.password {
                s.login_failure = Some(String::from_str("Bad password"));
                redirect("/login")
            } else {
                s.identity = Some(u.username);
                s.login_failure = Some(String::new());
                redirect("/")
            }
        },
    }
}

/// Logging out forgets the identity, whether or not there was one.
pub fn logout(s: &mut Session) -> (r: Reply)
    ensures
        final(s)@ == (SessionView { identity: None, ..old(s)@ }),
        redirects(r, "/"@),
{
    s.identity = None;
    redirect("/")
}

/// The registration form; a logged-in caller is sent home.
pub fn register_form(s: &Session) -> (r: Reply)
    ensures
        s.identity is Some ==> redirects(r, "/"@),
        s.identity is None ==> (r matches Reply::Render(Page::Register { failed }) && failed@
            == shown(s@.register_failure)),
{
    if s.identity.is_some() {
        redirect("/")
    } else {
        Reply::Render(Page::Register { failed: shown_text(&s.register_failure) })
    }
}

/// The checks of a registration, in order: a logged-in caller is sent home
/// with nothing changed; then the e-mail verdict, the password
/// confirmation, then whether the username is taken. A failed check sets the
/// registration flash and sends the browser back to the form; a registration
/// that passes them yields the insert to run and leaves the session alone.
pub open spec fn register_result(
    s: SessionView,
    form: RegisterForm,
    email_blocked: bool,
    taken: bool,
    s2: SessionView,
    r: Result<UserWrite, Reply>,
) -> bool {
    let refused = |why: Seq<char>|
        s2 == (SessionView { register_failure: Some(why), ..s }) && (r matches Err(e) && redirects(
            e,
            "/register"@,
        ));
    if s.identity is Some {
        s2 == s && (r is Err && redirects(r->Err_0, "/"@))
    } else if email_blocked {
        refused("Invalid email"@)
    } else if form.password@ != form.password_confirm@ {
        refused("Password do not match"@)
    } else if taken {
        refused(user_exists(form.username@))
    } else {
        s2 == s && r == Ok::<UserWrite, Reply>(
            UserWrite::Insert(SlimUser { username: form.username, password: form.password }),
        )
    }
}

/// A registration attempt, after `access::anonymous` has let the caller
/// through. `email_blocked` is the e-mail checking service's
/// verdict on the address; `taken` says whether the username has a row.
/// The insert's outcome goes to `finish_write` with `WriteOrigin::Registration`.
pub fn register(s: &mut Session, form: RegisterForm, email_blocked: bool, taken: bool) -> (r: Result<
    UserWrite,
    Reply,
>)
    ensures
        register_result(old(s)@, form, email_blocked, taken, final(s)@, r),
{
    if s.identity.is_some() {
        return Err(redirect("/"));
    }
    if email_blocked {
        s.register_failure = Some(String::from_str("Invalid email"));
        return Err(redirect("/register"));
    }
    if form.password != form.password_confirm {
        s.register_failure = Some(String::from_str("Password do not match"));
        return Err(redirect("/register"));
    }
    match register_user(taken, SlimUser { username: form.username, password: form.password }) {
        Err(e) => {
            s.register_failure = Some(e);
            Err(redirect("/register"))
        },
        Ok(w) => Ok(w),
    }
}

/// The credentials that a lookup of a user's row yields.
pub open spec fn credentials(u: User) -> SlimUser {
    SlimUser { username: u.username, password: u.password }
}

/// For a stored user and an anonymous caller, logging in with the stored password makes the caller
/// that user and sends them home; any other password leaves the identity as
/// it was, sets the login flash and sends them back to the form.
pub proof fn login_correctness(
    t: Tables,
    i: int,
    s: SessionView,
    form: LoginForm,
    s2: SessionView,
    r: Reply,
)
    requires
        t.wf(),
        0 <= i < t.users.len(),
        form.username@ == t.users[i].username@,
        s.identity is None,
        login_result(s, form, Ok(credentials(t.user_named(form.username@))), s2, r),
    ensures
        form.password@ == t.users[i].password@ ==> s2.identity == Some(form.username@)
            && redirects(r, "/"@),
        form.password@ != t.users[i].password@ ==> s2.identity == s.identity
            && s2.login_failure == Some("Bad password"@) && redirects(r, "/login"@),
{
    assert(t.has_user(form.username@));
    let j = choose|j: int| 0 <= j < t.users.len() && #[trigger] t.users[j].username@ == form.username@;
    assert(t.users[j].username@ == t.users[i].username@);
    assert(j == i);
}

} // verus!
