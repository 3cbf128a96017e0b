//! The persistence gateway as the library sees it: a model of the two tables,
//! the writes and queries that the handlers ask the storage to run, and what
//! each of them does to the model or returns from it.

use vstd::prelude::*;
use crate::models::{Article, SlimUser, User};

verus! {

/// A write to the user table.
#[derive(Debug)]
pub enum UserWrite {
    /// A new row with a fresh id, the given credentials and no admin rights.
    Insert(SlimUser),
    /// Remove the row with this id, if there is one.
    Delete(i32),
    /// Set the admin flag of the row with this id, if there is one.
    SetAdmin(i32, bool),
}

/// A write to the article table.
#[derive(Debug)]
pub enum ArticleWrite {
    /// A new row with a fresh id.
    Insert { owner: String, title: String, description: String },
    /// New title and description for the row with this id; its id and owner stay.
    Update { id: i32, title: String, description: String },
    /// Remove the row with this id, if there is one.
    Delete(i32),
}

/// Which articles a listing reads.
#[derive(Debug)]
pub enum ArticleQuery {
    All,
    ByOwner(String),
}

/// The contents of the two tables, with the id that the next insert into
/// each of them receives.
pub struct Tables {
    pub users: Seq<User>,
    pub articles: Seq<Article>,
    pub next_user_id: int,
    pub next_article_id: int,
}

impl Tables {
    /// Ids are positive and below the next id to hand out; usernames are unique.
    pub open spec fn wf(self) -> bool {
        &&& 1 <= self.next_user_id <= i32::MAX + 1
        &&& 1 <= self.next_article_id <= i32::MAX + 1
        &&& forall|i: int| 0 <= i < self.users.len()
            ==> 1 <= #[trigger] self.users[i].id < self.next_user_id
        &&& forall|i: int| 0 <= i < self.articles.len()
            ==> 1 <= #[trigger] self.articles[i].id < self.next_article_id
        &&& forall|i: int, j: int|
            0 <= i < self.users.len() && 0 <= j < self.users.len() && i != j
                ==> #[trigger] self.users[i].username@ != #[trigger] self.users[j].username@
    }

    pub open spec fn has_user(self, name: Seq<char>) -> bool {
        exists|i: int| 0 <= i < self.users.len() && #[trigger] self.users[i].username@ == name
    }

    /// The row of the user with this name.
    pub open spec fn user_named(self, name: Seq<char>) -> User
        recommends
            self.has_user(name),
    {
        self.users[choose|i: int| 0 <= i < self.users.len() && #[trigger] self.users[i].username@ == name]
    }

    pub open spec fn has_article(self, id: i32) -> bool {
        exists|i: int| 0 <= i < self.articles.len() && #[trigger] self.articles[i].id == id
    }

    /// What a listing of articles returns, in table order.
    pub open spec fn listed(self, q: ArticleQuery) -> Seq<Article> {
        match q {
            ArticleQuery::All => self.articles,
            ArticleQuery::ByOwner(o) => owned_by(self.articles, o@),
        }
    }

    pub open spec fn after_user_write(self, w: UserWrite) -> Tables {
        match w {
            UserWrite::Insert(u) => Tables {
                users: self.users.push(
                    User {
                        id: self.next_user_id as i32,
                        username: u.username,
                        password: u.password,
                        is_admin: false,
                    },
                ),
                next_user_id: self.next_user_id + 1,
                ..self
            },
            UserWrite::Delete(id) => Tables { users: users_without(self.users, id), ..self },
            UserWrite::SetAdmin(id, b) => Tables { users: with_admin(self.users, id, b), ..self },
        }
    }

    pub open spec fn after_article_write(self, w: ArticleWrite) -> Tables {
        match w {
            ArticleWrite::Insert { owner, title, description } => Tables {
                articles: self.articles.push(
                    Article { id: self.next_article_id as i32, owner, title, description },
                ),
                next_article_id: self.next_article_id + 1,
                ..self
            },
            ArticleWrite::Update { id, title, description } => Tables {
                articles: retitled(self.articles, id, title, description),
                ..self
            },
            ArticleWrite::Delete(id) => Tables {
                articles: articles_without(self.articles, id),
                ..self
            },
        }
    }
}

pub open spec fn owned_by(arts: Seq<Article>, owner: Seq<char>) -> Seq<Article> {
    arts.filter(|a: Article| a.owner@ == owner)
}

pub open spec fn users_without(users: Seq<User>, id: i32) -> Seq<User> {
    users.filter(|u: User| u.id != id)
}

pub open spec fn articles_without(arts: Seq<Article>, id: i32) -> Seq<Article> {
    arts.filter(|a: Article| a.id != id)
}

pub open spec fn with_admin(users: Seq<User>, id: i32, b: bool) -> Seq<User> {
    users.map_values(|u: User| if u.id == id { User { is_admin: b, ..u } } else { u })
}

pub open spec fn retitled(arts: Seq<Article>, id: i32, title: String, description: String) -> Seq<
    Article,
> {
    arts.map_values(
        |a: Article|
            if a.id == id {
                Article { id: a.id, owner: a.owner, title, description }
            } else {
                a
            },
    )
}

/// Filtering out what no element matches leaves a sequence as it was.
pub proof fn lemma_filter_keeps_all<A>(s: Seq<A>, pred: spec_fn(A) -> bool)
    requires
        forall|i: int| 0 <= i < s.len() ==> pred(#[trigger] s[i]),
    ensures
        s.filter(pred) == s,
    decreases s.len(),
{
    reveal(Seq::filter);
    if s.len() > 0 {
        lemma_filter_keeps_all(s.drop_last(), pred);
        assert(s.drop_last().push(s.last()) =~= s);
    }
}

} // verus!
