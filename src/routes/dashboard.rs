//! The dashboard: caching the admin flag, managing users, and editing
//! articles. Every function here runs the guard of its route from `access`
//! itself and answers with the guard's refusal when it fails; the application
//! runs the same guard before it reads storage, so a refused caller causes no
//! read.

use vstd::prelude::*;
use crate::access::{
    Caller, admin, admin_refusal, authenticated, member, member_refusal, passes_admin,
    passes_member,
};
use crate::models::{Article, CreateArticleForm, User, UNSAVED_ID, is_blank};
use crate::reply::{Page, Reply, fails_with, redirect, redirects};
use crate::repo::{post_article, upsert_write};
use crate::session::{Session, SessionView, shown, shown_text};
use crate::store::{ArticleQuery, ArticleWrite, Tables, UserWrite, owned_by};

verus! {

/// The dashboard entry, with the stored admin flag of the logged-in caller
/// (or the lookup's error): the flag is cached in the session, the article
/// focus is reset, and the browser goes on to the options page. An anonymous
/// caller gets 401 and the session stays as it was.
pub fn dashboard(s: &mut Session, flag: Result<bool, String>) -> (r: Reply)
    ensures
        old(s).identity is None ==> r == Reply::Unauthorized && final(s)@ == old(s)@,
        old(s).identity is Some && flag is Ok ==> final(s)@ == (SessionView {
            is_admin: Some(flag->Ok_0),
            article_focus: Some(UNSAVED_ID),
            ..old(s)@
        }) && redirects(r, "/dashboard/options"@),
        old(s).identity is Some && flag is Err ==> final(s)@ == (SessionView {
            article_focus: Some(UNSAVED_ID),
            ..old(s)@
        }) && fails_with(r, flag->Err_0@),
{
    if let Err(r) = authenticated(s) {
        return r;
    }
    s.article_focus = Some(UNSAVED_ID);
    match flag {
        Ok(b) => {
            s.is_admin = Some(b);
            redirect("/dashboard/options")
        },
        Err(e) => Reply::ServerError(e),
    }
}

/// The options page, with every user, for a caller with a cached flag.
pub fn dashboard_options(s: &Session, users: Result<Vec<User>, String>) -> (r: Reply)
    ensures
        !passes_member(*s) ==> member_refusal(*s, r),
        passes_member(*s) && users is Err ==> fails_with(r, users->Err_0@),
        passes_member(*s) && users is Ok ==> r == Reply::Render(
            Page::Options { is_admin: s.is_admin->Some_0, users: users->Ok_0 },
        ),
{
    let caller = match member(s) {
        Err(r) => {
            return r;
        },
        Ok(c) => c,
    };
    match users {
        Err(e) => Reply::ServerError(e),
        Ok(v) => Reply::Render(Page::Options { is_admin: caller.is_admin, users: v }),
    }
}

/// The user administration page, with every user and the last registration
/// failure, for an administrator.
pub fn dashboard_users(s: &Session, users: Result<Vec<User>, String>) -> (r: Reply)
    ensures
        !passes_admin(*s) ==> admin_refusal(*s, r),
        passes_admin(*s) && users is Err ==> fails_with(r, users->Err_0@),
        passes_admin(*s) && users is Ok ==> (r matches Reply::Render(Page::Users { users: listed, failed }) && listed
            == users->Ok_0 && failed@ == shown(s@.register_failure)),
{
    if let Err(r) = admin(s) {
        return r;
    }
    match users {
        Err(e) => Reply::ServerError(e),
        Ok(v) => Reply::Render(Page::Users { users: v, failed: shown_text(&s.register_failure) }),
    }
}

/// Deleting user `uid`: the write, for an administrator.
pub fn dashboard_user_del(s: &Session, uid: i32) -> (r: Result<UserWrite, Reply>)
    ensures
        !passes_admin(*s) ==> (r is Err && admin_refusal(*s, r->Err_0)),
        passes_admin(*s) ==> r == Ok::<UserWrite, Reply>(UserWrite::Delete(uid)),
{
    match admin(s) {
        Err(r) => Err(r),
        Ok(_) => Ok(crate::repo::del_user(uid)),
    }
}

/// Promoting user `uid`: the write, for an administrator.
pub fn dashboard_user_promote(s: &Session, uid: i32) -> (r: Result<UserWrite, Reply>)
    ensures
        !passes_admin(*s) ==> (r is Err && admin_refusal(*s, r->Err_0)),
        passes_admin(*s) ==> r == Ok::<UserWrite, Reply>(UserWrite::SetAdmin(uid, true)),
{
    match admin(s) {
        Err(r) => Err(r),
        Ok(_) => Ok(crate::repo::promote_user(uid)),
    }
}

/// Demoting user `uid`: the write, for an administrator.
pub fn dashboard_user_demote(s: &Session, uid: i32) -> (r: Result<UserWrite, Reply>)
    ensures
        !passes_admin(*s) ==> (r is Err && admin_refusal(*s, r->Err_0)),
        passes_admin(*s) ==> r == Ok::<UserWrite, Reply>(UserWrite::SetAdmin(uid, false)),
{
    match admin(s) {
        Err(r) => Err(r),
        Ok(_) => Ok(crate::repo::demote_user(uid)),
    }
}

/// After deleting, promoting or demoting a user: back to the user list, or
/// a server error.
pub fn users_changed(outcome: Result<(), String>) -> (r: Reply)
    ensures
        outcome is Ok ==> redirects(r, "/dashboard/users"@),
        outcome matches Err(e) ==> fails_with(r, e@),
{
    match outcome {
        Ok(_) => redirect("/dashboard/users"),
        Err(e) => Reply::ServerError(e),
    }
}

/// The articles a caller's dashboard lists: all of them for an administrator,
/// the caller's own otherwise.
pub open spec fn visible_query(c: Caller) -> ArticleQuery {
    if c.is_admin {
        ArticleQuery::All
    } else {
        ArticleQuery::ByOwner(c.username)
    }
}

pub fn articles_query(caller: &Caller) -> (r: ArticleQuery)
    ensures
        r == visible_query(*caller),
{
    if caller.is_admin {
        ArticleQuery::All
    } else {
        ArticleQuery::ByOwner(caller.username.clone())
    }
}

/// The article that the edit form must be filled from, if any is focused.
pub fn focus_target(s: &Session) -> (r: Option<i32>)
    ensures
        r == (match s.article_focus {
            Some(id) => if id == UNSAVED_ID {
                None
            } else {
                Some(id)
            },
            None => None,
        }),
{
    match s.article_focus {
        Some(id) => if id == UNSAVED_ID {
            None
        } else {
            Some(id)
        },
        None => None,
    }
}

/// The article page, for a caller with a cached flag: the listed articles,
/// the focused article (the blank one when `focus` is `None`, that is, when
/// `focus_target` named none) and the last article failure. A failed listing
/// is a server error. A focused article that is not found becomes the
/// article flash, the focus is cleared and the page is asked for again.
pub fn dashboard_articles(
    s: &mut Session,
    articles: Result<Vec<Article>, String>,
    focus: Option<Result<Article, String>>,
) -> (r: Reply)
    ensures
        !passes_member(*old(s)) ==> member_refusal(*old(s), r) && final(s)@ == old(s)@,
        passes_member(*old(s)) && articles is Err ==> fails_with(r, articles->Err_0@)
            && final(s)@ == old(s)@,
        passes_member(*old(s)) && articles is Ok && focus is Some && focus->Some_0 is Err
            ==> final(s)@ == (SessionView {
            article_focus: Some(UNSAVED_ID),
            create_article_failure: Some(focus->Some_0->Err_0@),
            ..old(s)@
        }) && redirects(r, "/dashboard/articles"@),
        passes_member(*old(s)) && articles is Ok && !(focus is Some && focus->Some_0 is Err)
            ==> final(s)@ == old(s)@ && (r matches Reply::Render(
            Page::Articles { is_admin, articles: listed, focus: shown_focus, failed },
        ) && is_admin == old(s).is_admin->Some_0 && listed == articles->Ok_0 && failed@ == shown(
            old(s)@.create_article_failure,
        ) && (if focus is Some {
            shown_focus == focus->Some_0->Ok_0
        } else {
            is_blank(shown_focus)
        })),
{
    let caller = match member(s) {
        Err(r) => {
            return r;
        },
        Ok(c) => c,
    };
    let v = match articles {
        Err(e) => {
            return Reply::ServerError(e);
        },
        Ok(v) => v,
    };
    let shown_focus = match focus {
        Some(Err(e)) => {
            s.article_focus = Some(UNSAVED_ID);
            s.create_article_failure = Some(e);
            return redirect("/dashboard/articles");
        },
        Some(Ok(a)) => a,
        None => Article::blank(),
    };
    Reply::Render(
        Page::Articles {
            is_admin: caller.is_admin,
            articles: v,
            focus: shown_focus,
            failed: shown_text(&s.create_article_failure),
        },
    )
}

/// Choosing the article to edit, for a caller with a cached flag. Choosing
/// the unsaved id clears the focus at once (`Err` holds the redirect); any
/// other id is returned, to be looked up and handed to `article_focused`.
pub fn dashboard_article_focus(s: &mut Session, uid: i32) -> (r: Result<i32, Reply>)
    ensures
        !passes_member(*old(s)) ==> (r is Err && member_refusal(*old(s), r->Err_0))
            && final(s)@ == old(s)@,
        passes_member(*old(s)) && uid == UNSAVED_ID ==> final(s)@ == (SessionView {
            article_focus: Some(UNSAVED_ID),
            ..old(s)@
        }) && (r is Err && redirects(r->Err_0, "/dashboard/articles"@)),
        passes_member(*old(s)) && uid != UNSAVED_ID ==> final(s)@ == old(s)@ && r == Ok::<
            i32,
            Reply,
        >(uid),
{
    if let Err(r) = member(s) {
        return Err(r);
    }
    if uid == UNSAVED_ID {
        s.article_focus = Some(UNSAVED_ID);
        Err(redirect("/dashboard/articles"))
    } else {
        Ok(uid)
    }
}

/// The focus moves to the article found; an article that is not found
/// becomes the article flash. Either way the browser goes back to the
/// article page.
pub fn article_focused(s: &mut Session, found: Result<Article, String>) -> (r: Reply)
    ensures
        !passes_member(*old(s)) ==> member_refusal(*old(s), r) && final(s)@ == old(s)@,
        passes_member(*old(s)) && found is Ok ==> final(s)@ == (SessionView {
            article_focus: Some(found->Ok_0.id),
            ..old(s)@
        }) && redirects(r, "/dashboard/articles"@),
        passes_member(*old(s)) && found is Err ==> final(s)@ == (SessionView {
            create_article_failure: Some(found->Err_0@),
            ..old(s)@
        }) && redirects(r, "/dashboard/articles"@),
{
    if let Err(r) = member(s) {
        return r;
    }
    match found {
        Ok(a) => {
            s.article_focus = Some(a.id);
        },
        Err(e) => {
            s.create_article_failure = Some(e);
        },
    }
    redirect("/dashboard/articles")
}

/// Whether the caller may change an article of `owner`: an administrator
/// may change any, anyone else only their own.
pub open spec fn may_change(s: Session, owner: Seq<char>) -> bool {
    s.is_admin == Some(true) || owner == s.identity->Some_0@
}

fn may_change_exec(s: &Session, owner: &String) -> (r: bool)
    requires
        s.identity is Some,
    ensures
        r == may_change(*s, owner@),
{
    match (s.is_admin, &s.identity) {
        (Some(true), _) => true,
        (_, Some(name)) => *owner == *name,
        (_, None) => false,
    }
}

/// Saving the edit form for article `uid`, for a caller with a cached flag.
/// `existing_owner` is the owner of the row with id `uid`, if there is one.
/// Another user's row is refused to a caller who is not an administrator;
/// otherwise the write is the upsert of the form under the caller's name.
/// Its outcome goes to `finish_write` with `WriteOrigin::DashboardArticle`.
pub fn dashboard_article_post(
    s: &Session,
    uid: i32,
    form: CreateArticleForm,
    existing_owner: Option<String>,
) -> (r: Result<ArticleWrite, Reply>)
    ensures
        !passes_member(*s) ==> (r is Err && member_refusal(*s, r->Err_0)),
        passes_member(*s) && uid != UNSAVED_ID && existing_owner is Some && !may_change(
            *s,
            existing_owner->Some_0@,
        ) ==> r == Err::<ArticleWrite, Reply>(Reply::Unauthorized),
        passes_member(*s) && !(uid != UNSAVED_ID && existing_owner is Some && !may_change(
            *s,
            existing_owner->Some_0@,
        )) ==> r == Ok::<ArticleWrite, Reply>(
            upsert_write(
                existing_owner is Some,
                Article {
                    id: uid,
                    owner: s.identity->Some_0,
                    title: form.title,
                    description: form.description,
                },
            ),
        ),
{
    let caller = match member(s) {
        Err(r) => {
            return Err(r);
        },
        Ok(c) => c,
    };
    let found = existing_owner.is_some();
    if let Some(owner) = &existing_owner {
        if uid != UNSAVED_ID && !may_change_exec(s, owner) {
            return Err(Reply::Unauthorized);
        }
    }
    Ok(
        post_article(
            found,
            Article {
                id: uid,
                owner: caller.username,
                title: form.title,
                description: form.description,
            },
        ),
    )
}

/// Deleting article `uid`, for a caller with a cached flag. `existing_owner`
/// is the owner of the row with id `uid`, if there is one. Another user's
/// row is refused to a caller who is not an administrator; otherwise the
/// write is the delete, which is a no-op where no row has the id. Its outcome
/// goes to `finish_write` with `WriteOrigin::DashboardArticle`.
pub fn dashboard_article_del(s: &Session, uid: i32, existing_owner: Option<String>) -> (r: Result<
    ArticleWrite,
    Reply,
>)
    ensures
        !passes_member(*s) ==> (r is Err && member_refusal(*s, r->Err_0)),
        passes_member(*s) && existing_owner is Some && !may_change(*s, existing_owner->Some_0@)
            ==> r == Err::<ArticleWrite, Reply>(Reply::Unauthorized),
        passes_member(*s) && !(existing_owner is Some && !may_change(
            *s,
            existing_owner->Some_0@,
        )) ==> r == Ok::<ArticleWrite, Reply>(ArticleWrite::Delete(uid)),
{
    if let Err(r) = member(s) {
        return Err(r);
    }
    if let Some(owner) = &existing_owner {
        if !may_change_exec(s, owner) {
            return Err(Reply::Unauthorized);
        }
    }
    Ok(crate::repo::del_article(uid))
}

/// A caller who is not an administrator sees exactly their own articles, in
/// table order; an administrator sees every article.
pub proof fn ownership_filtering(t: Tables, caller: Caller)
    ensures
        caller.is_admin ==> t.listed(visible_query(caller)) == t.articles,
        !caller.is_admin ==> t.listed(visible_query(caller)) == owned_by(
            t.articles,
            caller.username@,
        ),
        !caller.is_admin ==> forall|i: int|
            0 <= i < t.listed(visible_query(caller)).len() ==> (#[trigger] t.listed(
                visible_query(caller),
            )[i]).owner@ == caller.username@,
        !caller.is_admin ==> forall|i: int|
            0 <= i < t.articles.len() && (#[trigger] t.articles[i]).owner@ == caller.username@
                ==> t.listed(visible_query(caller)).contains(t.articles[i]),
{
    broadcast use vstd::seq_lib::group_filter_ensures;
}

} // verus!
