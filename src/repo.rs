//! The gateway's own decisions: what each verb asks the storage to do, and
//! how the rows it reads become results and errors.

use vstd::prelude::*;
use crate::models::{Article, SlimUser, User, UNSAVED_ID};
use crate::store::{ArticleWrite, Tables, UserWrite, articles_without, lemma_filter_keeps_all, users_without};
use crate::text::{decimal, decimal_text, enclose};

verus! {

pub open spec fn user_not_found(name: Seq<char>) -> Seq<char> {
    "User '"@ + name + "' was not found"@
}

pub open spec fn user_exists(name: Seq<char>) -> Seq<char> {
    "User '"@ + name + "' already exists"@
}

pub open spec fn article_not_found(id: i32) -> Seq<char> {
    "Article '"@ + decimal(id as int) + "' was not found"@
}

/// The password that a user listing shows in place of the real one.
pub open spec fn redacted() -> Seq<char> {
    "#foo"@
}

/// The credentials of `username`, from the row that the lookup found.
pub fn get_user(row: Option<SlimUser>, username: &String) -> (r: Result<SlimUser, String>)
    ensures
        row is Some ==> r == Ok::<SlimUser, String>(row->Some_0),
        row is None ==> (r matches Err(m) && m@ == user_not_found(username@)),
{
    match row {
        Some(u) => Ok(u),
        None => Err(enclose("User '", username.as_str(), "' was not found")),
    }
}

/// The admin flag of `username`, from the row that the lookup found.
pub fn check_permissions(row: Option<bool>, username: &String) -> (r: Result<bool, String>)
    ensures
        row is Some ==> r == Ok::<bool, String>(row->Some_0),
        row is None ==> (r matches Err(m) && m@ == user_not_found(username@)),
{
    match row {
        Some(b) => Ok(b),
        None => Err(enclose("User '", username.as_str(), "' was not found")),
    }
}

/// The write that registering `data` runs, given whether its username is taken.
pub open spec fn registration_write(taken: bool, data: SlimUser) -> Option<UserWrite> {
    if taken {
        None
    } else {
        Some(UserWrite::Insert(data))
    }
}

/// The tables after registering `data`.
pub open spec fn registered(t: Tables, data: SlimUser) -> Tables {
    match registration_write(t.has_user(data.username@), data) {
        Some(w) => t.after_user_write(w),
        None => t,
    }
}

/// Registration: a taken username is refused, any other is inserted.
pub fn register_user(taken: bool, data: SlimUser) -> (r: Result<UserWrite, String>)
    ensures
        r is Ok <==> !taken,
        r is Ok ==> registration_write(taken, data) == Some(r->Ok_0),
        r matches Err(m) ==> m@ == user_exists(data.username@),
{
    if taken {
        Err(enclose("User '", data.username.as_str(), "' already exists"))
    } else {
        Ok(UserWrite::Insert(data))
    }
}

/// The user listing, from rows of id, username and admin flag; the password
/// is never listed.
pub fn get_users(rows: &Vec<(i32, String, bool)>) -> (r: Vec<User>)
    ensures
        r@.len() == rows@.len(),
        forall|i: int| 0 <= i < rows@.len() ==> {
            &&& (#[trigger] r@[i]).id == rows@[i].0
            &&& r@[i].username == rows@[i].1
            &&& r@[i].is_admin == rows@[i].2
            &&& r@[i].password@ == redacted()
        },
{
    let mut r: Vec<User> = Vec::new();
    let mut i: usize = 0;
    while i < rows.len()
        invariant
            i <= rows@.len(),
            r@.len() == i,
            forall|k: int| 0 <= k < i ==> {
                &&& (#[trigger] r@[k]).id == rows@[k].0
                &&& r@[k].username == rows@[k].1
                &&& r@[k].is_admin == rows@[k].2
                &&& r@[k].password@ == redacted()
            },
        decreases rows@.len() - i,
    {
        let row = &rows[i];
        r.push(
            User {
                id: row.0,
                username: row.1.clone(),
                password: String::from_str("#foo"),
                is_admin: row.2,
            },
        );
        i = i + 1;
    }
    r
}

/// The article with id `id`, from the row that the lookup found.
pub fn get_article(row: Option<Article>, id: i32) -> (r: Result<Article, String>)
    ensures
        row is Some ==> r == Ok::<Article, String>(row->Some_0),
        row is None ==> (r matches Err(m) && m@ == article_not_found(id)),
{
    match row {
        Some(a) => Ok(a),
        None => {
            let n = decimal_text(id);
            Err(enclose("Article '", n.as_str(), "' was not found"))
        },
    }
}

/// The write that storing `data` runs, given whether a row with its id exists.
pub open spec fn upsert_write(found: bool, data: Article) -> ArticleWrite {
    if data.id != UNSAVED_ID && found {
        ArticleWrite::Update { id: data.id, title: data.title, description: data.description }
    } else {
        ArticleWrite::Insert { owner: data.owner, title: data.title, description: data.description }
    }
}

/// Storing an article: an unsaved one, or one whose id has no row, is
/// inserted; otherwise its row gets the new title and description.
pub fn post_article(found: bool, data: Article) -> (r: ArticleWrite)
    ensures
        r == upsert_write(found, data),
{
    if data.id != UNSAVED_ID && found {
        ArticleWrite::Update { id: data.id, title: data.title, description: data.description }
    } else {
        ArticleWrite::Insert { owner: data.owner, title: data.title, description: data.description }
    }
}

pub fn del_user(id: i32) -> (r: UserWrite)
    ensures
        r == UserWrite::Delete(id),
{
    UserWrite::Delete(id)
}

pub fn promote_user(id: i32) -> (r: UserWrite)
    ensures
        r == UserWrite::SetAdmin(id, true),
{
    UserWrite::SetAdmin(id, true)
}

pub fn demote_user(id: i32) -> (r: UserWrite)
    ensures
        r == UserWrite::SetAdmin(id, false),
{
    UserWrite::SetAdmin(id, false)
}

pub fn del_article(id: i32) -> (r: ArticleWrite)
    ensures
        r == ArticleWrite::Delete(id),
{
    ArticleWrite::Delete(id)
}

/// Registering a username that is already present changes nothing; any
/// registration keeps usernames unique.
pub proof fn registration_uniqueness(t: Tables, data: SlimUser)
    requires
        t.wf(),
        t.next_user_id <= i32::MAX,
    ensures
        t.has_user(data.username@) ==> registered(t, data) == t,
        registered(t, data).wf(),
{
    let t2 = registered(t, data);
    if !t.has_user(data.username@) {
        assert forall|i: int, j: int|
            0 <= i < t2.users.len() && 0 <= j < t2.users.len() && i != j
                implies #[trigger] t2.users[i].username@ != #[trigger] t2.users[j].username@ by {
            if i == t.users.len() {
                assert(t.users[j].username@ != data.username@);
            } else if j == t.users.len() {
                assert(t.users[i].username@ != data.username@);
            }
        }
        assert forall|i: int| 0 <= i < t2.users.len()
            implies 1 <= #[trigger] t2.users[i].id < t2.next_user_id by {
            if i < t.users.len() {
                assert(t2.users[i] == t.users[i]);
            }
        }
    }
}

/// Storing an unsaved article adds one row with a fresh id; storing it again
/// under that id changes its title and description in place, keeping its id
/// and owner.
pub proof fn upsert_idempotence_on_id(t: Tables, data: Article, title: String, description: String)
    requires
        t.wf(),
        t.next_article_id <= i32::MAX,
        data.id == UNSAVED_ID,
    ensures
        ({
            let t1 = t.after_article_write(upsert_write(t.has_article(data.id), data));
            let id = t.next_article_id as i32;
            let again = Article { id, owner: data.owner, title, description };
            let t2 = t1.after_article_write(upsert_write(t1.has_article(id), again));
            &&& !t.has_article(id)
            &&& t1.wf()
            &&& t1.articles == t.articles.push(
                Article { id, owner: data.owner, title: data.title, description: data.description },
            )
            &&& t2.articles.len() == t1.articles.len()
            &&& t2.articles.last() == Article { id, owner: data.owner, title, description }
            &&& t2.articles.drop_last() == t.articles
        }),
{
    let t1 = t.after_article_write(upsert_write(t.has_article(data.id), data));
    let id = t.next_article_id as i32;
    let again = Article { id, owner: data.owner, title, description };
    assert(t1.articles[t.articles.len() as int].id == id);
    assert(t1.has_article(id));
    assert forall|i: int| 0 <= i < t1.articles.len()
        implies 1 <= #[trigger] t1.articles[i].id < t1.next_article_id by {
        if i < t.articles.len() {
            assert(t1.articles[i] == t.articles[i]);
        }
    }
    let t2 = t1.after_article_write(upsert_write(t1.has_article(id), again));
    assert forall|i: int| 0 <= i < t.articles.len() implies t2.articles[i] == t.articles[i] by {
        assert(t1.articles[i] == t.articles[i]);
    }
    assert(t2.articles.drop_last() =~= t.articles);
}

/// Deleting a user id or an article id that has no row leaves the tables as
/// they were.
pub proof fn deletion_is_idempotent(t: Tables, id: i32)
    ensures
        (forall|i: int| 0 <= i < t.users.len() ==> #[trigger] t.users[i].id != id)
            ==> t.after_user_write(UserWrite::Delete(id)) == t,
        !t.has_article(id) ==> t.after_article_write(ArticleWrite::Delete(id)) == t,
{
    if forall|i: int| 0 <= i < t.users.len() ==> #[trigger] t.users[i].id != id {
        lemma_filter_keeps_all(t.users, |u: User| u.id != id);
        assert(users_without(t.users, id) == t.users);
    }
    if !t.has_article(id) {
        lemma_filter_keeps_all(t.articles, |a: Article| a.id != id);
        assert(articles_without(t.articles, id) == t.articles);
    }
}

} // verus!
