use server::access::{admin, member, Caller};
use server::models::{Article, LoginForm, RegisterForm, SlimUser, User, UNSAVED_ID};
use server::reply::{Page, Reply};
use server::repo::{
    check_permissions, del_article, del_user, get_user, get_users, post_article, promote_user,
    register_user,
};
use server::routes::auth::{login, register};
use server::routes::dashboard::{articles_query, dashboard, dashboard_users, users_changed};
use server::routes::{finish_write, WriteOrigin};
use server::session::Session;
use server::store::{ArticleQuery, ArticleWrite, UserWrite};

/// A table store that runs the library's writes and queries the way the
/// SQLite statements of the application do.
#[derive(Default)]
struct Db {
    users: Vec<User>,
    articles: Vec<Article>,
    next_user: i32,
    next_article: i32,
}

impl Db {
    fn new() -> Db {
        Db { next_user: 1, next_article: 1, ..Default::default() }
    }

    fn user_row(&self, name: &str) -> Option<SlimUser> {
        self.users.iter().find(|u| u.username == name).map(|u| SlimUser {
            username: u.username.clone(),
            password: u.password.clone(),
        })
    }

    fn admin_flag(&self, name: &str) -> Option<bool> {
        self.users.iter().find(|u| u.username == name).map(|u| u.is_admin)
    }

    fn user_write(&mut self, w: UserWrite) -> Result<(), String> {
        match w {
            UserWrite::Insert(u) => {
                self.users.push(User { id: self.next_user, username: u.username, password: u.password, is_admin: false });
                self.next_user += 1;
            }
            UserWrite::Delete(id) => self.users.retain(|u| u.id != id),
            UserWrite::SetAdmin(id, b) => self.users.iter_mut().filter(|u| u.id == id).for_each(|u| u.is_admin = b),
        }
        Ok(())
    }

    fn article_write(&mut self, w: ArticleWrite) -> Result<(), String> {
        match w {
            ArticleWrite::Insert { owner, title, description } => {
                self.articles.push(Article { id: self.next_article, owner, title, description });
                self.next_article += 1;
            }
            ArticleWrite::Update { id, title, description } => {
                for a in self.articles.iter_mut().filter(|a| a.id == id) {
                    a.title = title.clone();
                    a.description = description.clone();
                }
            }
            ArticleWrite::Delete(id) => self.articles.retain(|a| a.id != id),
        }
        Ok(())
    }

    fn has_article(&self, id: i32) -> bool {
        self.articles.iter().any(|a| a.id == id)
    }

    fn listed(&self, q: &ArticleQuery) -> Vec<Article> {
        self.articles
            .iter()
            .filter(|a| match q {
                ArticleQuery::All => true,
                ArticleQuery::ByOwner(o) => &a.owner == o,
            })
            .cloned()
            .collect()
    }

    fn user_rows(&self) -> Vec<(i32, String, bool)> {
        self.users.iter().map(|u| (u.id, u.username.clone(), u.is_admin)).collect()
    }
}

fn location(r: &Reply) -> String {
    match r {
        Reply::Redirect(l) => l.clone(),
        other => panic!("not a redirect: {:?}", other),
    }
}

fn do_register(db: &mut Db, s: &mut Session, u: &str, p: &str, c: &str) -> Reply {
    let form = RegisterForm {
        username: u.to_string(),
        email: "someone@example.org".to_string(),
        password: p.to_string(),
        password_confirm: c.to_string(),
    };
    let taken = db.user_row(u).is_some();
    match register(s, form, false, taken) {
        Err(r) => r,
        Ok(w) => {
            let outcome = db.user_write(w);
            finish_write(s, WriteOrigin::Registration, outcome)
        }
    }
}

fn do_login(db: &Db, s: &mut Session, u: &str, p: &str) -> Reply {
    let form = LoginForm { username: u.to_string(), password: p.to_string() };
    let found = get_user(db.user_row(u), &form.username);
    login(s, &form, found)
}

fn do_dashboard(db: &Db, s: &mut Session) -> Reply {
    let name = s.identity.clone().expect("logged in");
    let flag = check_permissions(db.admin_flag(&name), &name);
    dashboard(s, flag)
}

#[test]
fn registration_of_taken_name_leaves_table() {
    let mut db = Db::new();
    let mut s = Session::new();
    assert_eq!(location(&do_register(&mut db, &mut s, "alice", "pw1", "pw1")), "/login");
    let before: Vec<(i32, String, String)> = db.users.iter().map(|u| (u.id, u.username.clone(), u.password.clone())).collect();
    let r = do_register(&mut db, &mut s, "alice", "other", "other");
    assert_eq!(location(&r), "/register");
    assert_eq!(s.register_failure.as_deref(), Some("User 'alice' already exists"));
    let after: Vec<(i32, String, String)> = db.users.iter().map(|u| (u.id, u.username.clone(), u.password.clone())).collect();
    assert_eq!(before, after);
    assert!(register_user(true, SlimUser { username: "alice".to_string(), password: "x".to_string() }).is_err());
}

#[test]
fn stale_admin_flag_stays_cached() {
    let mut db = Db::new();
    let mut s = Session::new();
    do_register(&mut db, &mut s, "root", "pw", "pw");
    db.user_write(promote_user(1)).unwrap();
    do_login(&db, &mut s, "root", "pw");
    assert_eq!(location(&do_dashboard(&db, &mut s)), "/dashboard/options");
    assert!(admin(&s).is_ok());

    // the stored flag changes; this session keeps its cached one
    db.user_write(server::repo::demote_user(1)).unwrap();
    assert_eq!(db.admin_flag("root"), Some(false));
    assert!(admin(&s).unwrap().is_admin);
    assert!(admin(&s).is_ok());

    // a fresh session looks the flag up again
    let mut fresh = Session::new();
    do_login(&db, &mut fresh, "root", "pw");
    assert_eq!(location(&admin(&fresh).unwrap_err()), "/dashboard");
    do_dashboard(&db, &mut fresh);
    assert!(matches!(admin(&fresh), Err(Reply::Unauthorized)));
}

#[test]
fn upsert_keeps_id_and_owner() {
    let mut db = Db::new();
    db.article_write(post_article(false, Article { id: 1, owner: "x".to_string(), title: "a".to_string(), description: "b".to_string() })).unwrap();
    let first = Article { id: UNSAVED_ID, owner: "alice".to_string(), title: "T".to_string(), description: "D".to_string() };
    let found = db.has_article(first.id);
    db.article_write(post_article(found, first)).unwrap();
    assert_eq!(db.articles.len(), 2);
    let fresh = db.articles[1].id;
    assert_eq!(fresh, 2);
    assert_ne!(fresh, db.articles[0].id);

    let again = Article { id: fresh, owner: "mallory".to_string(), title: "T2".to_string(), description: "D2".to_string() };
    let found = db.has_article(again.id);
    db.article_write(post_article(found, again)).unwrap();
    assert_eq!(db.articles.len(), 2);
    let a = &db.articles[1];
    assert_eq!((a.id, a.owner.as_str(), a.title.as_str(), a.description.as_str()), (2, "alice", "T2", "D2"));
}

#[test]
fn listing_is_filtered_by_owner_for_non_admins() {
    let mut db = Db::new();
    for (owner, t) in [("alice", "a1"), ("bob", "b1"), ("alice", "a2")] {
        db.article_write(ArticleWrite::Insert { owner: owner.to_string(), title: t.to_string(), description: String::new() }).unwrap();
    }
    let alice = Caller { username: "alice".to_string(), is_admin: false };
    let own = db.listed(&articles_query(&alice));
    assert_eq!(own.iter().map(|a| a.title.as_str()).collect::<Vec<_>>(), vec!["a1", "a2"]);
    let root = Caller { username: "root".to_string(), is_admin: true };
    assert_eq!(db.listed(&articles_query(&root)).len(), 3);
    let mut s = Session::new();
    s.identity = Some("alice".to_string());
    s.is_admin = Some(false);
    assert!(!member(&s).unwrap().is_admin);
}

#[test]
fn deleting_missing_rows_is_a_no_op() {
    let mut db = Db::new();
    let mut s = Session::new();
    do_register(&mut db, &mut s, "alice", "pw", "pw");
    db.article_write(ArticleWrite::Insert { owner: "alice".to_string(), title: "t".to_string(), description: "d".to_string() }).unwrap();
    let outcome = db.user_write(del_user(77));
    assert_eq!(location(&users_changed(outcome)), "/dashboard/users");
    assert_eq!(db.users.len(), 1);
    let outcome = db.article_write(del_article(77));
    assert_eq!(location(&finish_write(&mut s, WriteOrigin::DashboardArticle, outcome)), "/dashboard/articles");
    assert_eq!(db.articles.len(), 1);
    assert_eq!(s.create_article_failure.as_deref(), Some(""));
}

#[test]
fn register_login_and_promote_end_to_end() {
    let mut db = Db::new();
    // an administrator already exists
    db.user_write(UserWrite::Insert(SlimUser { username: "root".to_string(), password: "rootpw".to_string() })).unwrap();
    db.user_write(promote_user(1)).unwrap();

    let mut s = Session::new();
    let r = do_register(&mut db, &mut s, "alice", "pw1", "pw1");
    assert_eq!(location(&r), "/login");
    assert_eq!(s.register_failure.as_deref(), Some(""));

    let r = do_login(&db, &mut s, "alice", "pw1");
    assert_eq!(location(&r), "/");
    assert_eq!(s.identity.as_deref(), Some("alice"));

    let mut other = Session::new();
    let r = do_login(&db, &mut other, "alice", "wrong");
    assert_eq!(location(&r), "/login");
    assert_eq!(other.login_failure.as_deref(), Some("Bad password"));
    assert!(other.identity.is_none());

    let mut root = Session::new();
    assert_eq!(location(&do_login(&db, &mut root, "root", "rootpw")), "/");
    do_dashboard(&db, &mut root);
    assert!(admin(&root).is_ok());
    let alice_id = db.users.iter().find(|u| u.username == "alice").unwrap().id;
    let outcome = db.user_write(promote_user(alice_id));
    assert_eq!(location(&users_changed(outcome)), "/dashboard/users");

    match dashboard_users(&root, Ok(get_users(&db.user_rows()))) {
        Reply::Render(Page::Users { users, .. }) => {
            let alice = users.iter().find(|u| u.username == "alice").unwrap();
            assert!(alice.is_admin);
            assert_eq!(alice.password, "#foo");
        }
        other => panic!("unexpected {:?}", other),
    }
}
