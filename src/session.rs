//! The per-client state that travels with every request: the identity from
//! the signed identity cookie and the typed contents of the session cookie.

use vstd::prelude::*;

verus! {

/// What one client's cookies hold.
///
/// `identity` is the username of the logged-in user, `None` when anonymous.
/// `is_admin` caches the administrator flag once the dashboard has looked it
/// up; it is trusted for the rest of the session. `article_focus` is the id of
/// the article that the edit form shows. The three failure texts are flash
/// messages: set by a failed attempt, cleared (set to empty) by a successful one.
#[derive(Debug, Clone)]
pub struct Session {
    pub identity: Option<String>,
    pub is_admin: Option<bool>,
    pub article_focus: Option<i32>,
    pub login_failure: Option<String>,
    pub register_failure: Option<String>,
    pub create_article_failure: Option<String>,
}

/// The session with every string seen as its characters.
pub struct SessionView {
    pub identity: Option<Seq<char>>,
    pub is_admin: Option<bool>,
    pub article_focus: Option<i32>,
    pub login_failure: Option<Seq<char>>,
    pub register_failure: Option<Seq<char>>,
    pub create_article_failure: Option<Seq<char>>,
}

pub open spec fn text_of(o: Option<String>) -> Option<Seq<char>> {
    match o {
        Some(t) => Some(t@),
        None => None,
    }
}

/// The failure text that a form shows for a flash entry: empty when unset.
pub open spec fn shown(o: Option<Seq<char>>) -> Seq<char> {
    match o {
        Some(t) => t,
        None => Seq::<char>::empty(),
    }
}

impl View for Session {
    type V = SessionView;

    open spec fn view(&self) -> SessionView {
        SessionView {
            identity: text_of(self.identity),
            is_admin: self.is_admin,
            article_focus: self.article_focus,
            login_failure: text_of(self.login_failure),
            register_failure: text_of(self.register_failure),
            create_article_failure: text_of(self.create_article_failure),
        }
    }
}

impl Session {
    /// A fresh session: anonymous, nothing cached, no flash messages.
    pub fn new() -> (r: Session)
        ensures
            r.identity is None,
            r.is_admin is None,
            r.article_focus is None,
            r.login_failure is None,
            r.register_failure is None,
            r.create_article_failure is None,
    {
        Session {
            identity: None,
            is_admin: None,
            article_focus: None,
            login_failure: None,
            register_failure: None,
            create_article_failure: None,
        }
    }
}

/// A copy of a flash entry's text, empty when the entry is unset.
pub fn shown_text(o: &Option<String>) -> (r: String)
    ensures
        r@ == shown(text_of(*o)),
{
    match o {
        Some(t) => t.clone(),
        None => String::new(),
    }
}

} // verus!
