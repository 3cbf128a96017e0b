//! What a request handler answers: a redirect, a refusal, a server error or
//! a page with the values that its template shows.

use vstd::prelude::*;
use crate::models::{Article, User};

verus! {

#[derive(Debug)]
pub enum Page {
    Index { is_loggedin: bool, articles: Vec<Article> },
    Login { failed: String },
    Register { failed: String },
    CreateArticle { failed: String },
    Options { is_admin: bool, users: Vec<User> },
    Users { users: Vec<User>, failed: String },
    Articles { is_admin: bool, articles: Vec<Article>, focus: Article, failed: String },
}

#[derive(Debug)]
pub enum Reply {
    /// 302 Found, with the location.
    Redirect(String),
    /// 401, for an anonymous caller or a caller without the rights.
    Unauthorized,
    /// 500, with the cause.
    ServerError(String),
    /// 200 with a rendered page.
    Render(Page),
}

pub open spec fn redirects(r: Reply, to: Seq<char>) -> bool {
    r matches Reply::Redirect(l) && l@ == to
}

pub open spec fn fails_with(r: Reply, cause: Seq<char>) -> bool {
    r matches Reply::ServerError(c) && c@ == cause
}

/// A redirect to the given location.
pub fn redirect(to: &str) -> (r: Reply)
    ensures
        redirects(r, to@),
{
    Reply::Redirect(String::from_str(to))
}

} // verus!
