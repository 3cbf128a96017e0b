//! The decisions of the request handlers. Each handler is split where it
//! talks to storage: one function says what to read or write, the next one
//! takes what storage answered and says what the session and the reply become.

use vstd::prelude::*;
use crate::models::{Article, CreateArticleForm};
use crate::reply::{Page, Reply, fails_with, redirect, redirects};
use crate::session::{Session, SessionView, shown, shown_text};
use crate::store::ArticleWrite;

pub mod auth;
pub mod dashboard;

verus! {

/// The form whose write a handler finishes.
#[derive(Debug, Clone, Copy, PartialEq, Eq, Structural)]
pub enum WriteOrigin {
    Registration,
    NewArticle,
    DashboardArticle,
}

/// Where the browser goes once a write from `origin` has succeeded or failed.
pub open spec fn after_write(origin: WriteOrigin, ok: bool) -> Seq<char> {
    match origin {
        WriteOrigin::Registration => if ok {
            "/login"@
        } else {
            "/register"@
        },
        WriteOrigin::NewArticle => if ok {
            "/login"@
        } else {
            "/article/create"@
        },
        WriteOrigin::DashboardArticle => "/dashboard/articles"@,
    }
}

/// The flash text that a write leaves: its error, or empty on success.
pub open spec fn outcome_text(outcome: Result<(), String>) -> Seq<char> {
    match outcome {
        Ok(_) => Seq::<char>::empty(),
        Err(e) => e@,
    }
}

/// The home page: every article, and whether the caller is logged in.
pub fn index(s: &Session, articles: Result<Vec<Article>, String>) -> (r: Reply)
    ensures
        articles matches Err(e) ==> fails_with(r, e@),
        articles matches Ok(v) ==> r == Reply::Render(
            Page::Index { is_loggedin: s.identity is Some, articles: v },
        ),
{
    match articles {
        Err(e) => Reply::ServerError(e),
        Ok(v) => Reply::Render(Page::Index { is_loggedin: s.identity.is_some(), articles: v }),
    }
}

/// The form for a new article, with the last article failure.
pub fn create_article(s: &Session) -> (r: Reply)
    ensures
        r matches Reply::Render(Page::CreateArticle { failed }) && failed@ == shown(
            s@.create_article_failure,
        ),
{
    Reply::Render(Page::CreateArticle { failed: shown_text(&s.create_article_failure) })
}

/// A new article by the caller: the insert to run, or 401 when anonymous.
pub fn post_new_article(s: &Session, form: CreateArticleForm) -> (r: Result<ArticleWrite, Reply>)
    ensures
        s.identity is None ==> r == Err::<ArticleWrite, Reply>(Reply::Unauthorized),
        s.identity is Some ==> r == Ok::<ArticleWrite, Reply>(
            ArticleWrite::Insert {
                owner: s.identity->Some_0,
                title: form.title,
                description: form.description,
            },
        ),
{
    match &s.identity {
        None => Err(Reply::Unauthorized),
        Some(n) => Ok(
            ArticleWrite::Insert {
                owner: n.clone(),
                title: form.title,
                description: form.description,
            },
        ),
    }
}

/// After a write from a form: its error, or empty on success, becomes the
/// flash of that form (the registration flash after a registration, the
/// article flash after an article write), and the browser is redirected.
pub fn finish_write(s: &mut Session, origin: WriteOrigin, outcome: Result<(), String>) -> (r: Reply)
    ensures
        origin == WriteOrigin::Registration ==> final(s)@ == (SessionView {
            register_failure: Some(outcome_text(outcome)),
            ..old(s)@
        }),
        origin != WriteOrigin::Registration ==> final(s)@ == (SessionView {
            create_article_failure: Some(outcome_text(outcome)),
            ..old(s)@
        }),
        redirects(r, after_write(origin, outcome is Ok)),
{
    let ok = outcome.is_ok();
    let text = match outcome {
        Ok(_) => String::new(),
        Err(e) => e,
    };
    match origin {
        WriteOrigin::Registration => {
            s.register_failure = Some(text);
            if ok {
                redirect("/login")
            } else {
                redirect("/register")
            }
        },
        WriteOrigin::NewArticle => {
            s.create_article_failure = Some(text);
            if ok {
                redirect("/login")
            } else {
                redirect("/article/create")
            }
        },
        WriteOrigin::DashboardArticle => {
            s.create_article_failure = Some(text);
            redirect("/dashboard/articles")
        },
    }
}

} // verus!
