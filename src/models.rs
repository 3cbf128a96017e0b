//! The records of the two tables and the forms that requests carry.

use vstd::prelude::*;

verus! {

/// The article id that marks a record not yet stored; as an edit focus it
/// means that no article is selected.
pub const UNSAVED_ID: i32 = -1;

/// A user row as listed on the dashboard.
#[derive(Debug, Clone)]
pub struct User {
    pub id: i32,
    pub username: String,
    pub password: String,
    pub is_admin: bool,
}

/// The credentials of one user.
#[derive(Debug, Clone)]
pub struct SlimUser {
    pub username: String,
    pub password: String,
}

#[derive(Debug, Clone)]
pub struct LoginForm {
    pub username: String,
    pub password: String,
}

#[derive(Debug, Clone)]
pub struct RegisterForm {
    pub username: String,
    pub email: String,
    pub password: String,
    pub password_confirm: String,
}

/// An article row; `owner` is the username of its author.
#[derive(Debug, Clone)]
pub struct Article {
    pub id: i32,
    pub owner: String,
    pub title: String,
    pub description: String,
}

#[derive(Debug, Clone)]
pub struct SlimArticle {
    pub title: String,
    pub description: String,
}

#[derive(Debug, Clone)]
pub struct CreateArticleForm {
    pub title: String,
    pub description: String,
}

/// The owner written into the empty article that an edit form starts from.
pub open spec fn blank_owner() -> Seq<char> {
    "noowner"@
}

/// The empty, unsaved article.
pub open spec fn is_blank(a: Article) -> bool {
    &&& a.id == UNSAVED_ID
    &&& a.owner@ == blank_owner()
    &&& a.title@ == Seq::<char>::empty()
    &&& a.description@ == Seq::<char>::empty()
}

impl Article {
    /// The empty article that an edit form shows when nothing is focused.
    pub fn blank() -> (r: Article)
        ensures
            is_blank(r),
    {
        Article {
            id: UNSAVED_ID,
            owner: String::from_str("noowner"),
            title: String::new(),
            description: String::new(),
        }
    }
}

} // verus!
