//! The mathematical model of the service's database: three tables keyed by
//! their serial ids, and the meaning of every statement and query that the
//! service sends to it.
use vstd::prelude::*;

verus! {

/// A row of the `users` table, without its key `user_id`.
pub struct UserRow {
    pub username: Seq<char>,
    pub pass: Seq<char>,
}

/// A row of the `story` table, without its key `story_id`.
pub struct StoryRow {
    pub username: Seq<char>,
    pub story_content: Seq<char>,
}

/// A row of the `comment` table, without its key `comment_id`.
pub struct CommentRow {
    pub story_id: int,
    pub username: Seq<char>,
    pub comment_content: Seq<char>,
}

/// The whole database: each table maps a row's key to the rest of the row,
/// and each serial counter is the key that the next insert into its table gets.
#[verifier::ext_equal]
pub struct Db {
    pub users: Map<int, UserRow>,
    pub stories: Map<int, StoryRow>,
    pub comments: Map<int, CommentRow>,
    pub next_user_id: int,
    pub next_story_id: int,
    pub next_comment_id: int,
}

/// The rows of `m` that satisfy `keep`.
pub open spec fn retain<R>(m: Map<int, R>, keep: spec_fn(R) -> bool) -> Map<int, R> {
    Map::new(|k: int| m.contains_key(k) && keep(m[k]), |k: int| m[k])
}

/// Whether story `story_id` exists and was written by `username`.
pub open spec fn story_by(db: Db, story_id: int, username: Seq<char>) -> bool {
    db.stories.contains_key(story_id) && db.stories[story_id].username == username
}

/// What one statement does to the database.
pub enum Change {
    /// `insert into users (username, pass) values ($1, $2)`
    InsertUser { username: Seq<char>, pass: Seq<char> },
    /// `DELETE FROM users WHERE username = $1`
    DeleteUsersNamed { username: Seq<char> },
    /// `insert into story (username, story_content) values ($1, $2)`
    InsertStory { username: Seq<char>, story_content: Seq<char> },
    /// `DELETE FROM story WHERE story_id = $1`
    DeleteStory { story_id: int },
    /// `DELETE FROM story WHERE username = $1`
    DeleteStoriesByUser { username: Seq<char> },
    /// `DELETE FROM comment WHERE story_id IN (SELECT story_id FROM story WHERE username = $1)`
    DeleteCommentsOnStoriesByUser { username: Seq<char> },
    /// `insert into comment (story_id, username, comment_content) values ($1, $2, $3)`
    InsertComment { story_id: int, username: Seq<char>, comment_content: Seq<char> },
    /// `DELETE FROM comment WHERE username = $1`
    DeleteCommentsByUser { username: Seq<char> },
    /// `DELETE FROM comment WHERE comment_id = $1`
    DeleteComment { comment_id: int },
    /// `DELETE FROM comment WHERE story_id = $1`
    DeleteCommentsOnStory { story_id: int },
}

/// The database after one statement.
pub open spec fn apply(db: Db, change: Change) -> Db {
    match change {
        Change::InsertUser { username, pass } => Db {
            users: db.users.insert(db.next_user_id, UserRow { username, pass }),
            next_user_id: db.next_user_id + 1,
            ..db
        },
        Change::DeleteUsersNamed { username } => Db {
            users: retain(db.users, |r: UserRow| r.username != username),
            ..db
        },
        Change::InsertStory { username, story_content } => Db {
            stories: db.stories.insert(db.next_story_id, StoryRow { username, story_content }),
            next_story_id: db.next_story_id + 1,
            ..db
        },
        Change::DeleteStory { story_id } => Db { stories: db.stories.remove(story_id), ..db },
        Change::DeleteStoriesByUser { username } => Db {
            stories: retain(db.stories, |r: StoryRow| r.username != username),
            ..db
        },
        Change::DeleteCommentsOnStoriesByUser { username } => Db {
            comments: retain(db.comments, |c: CommentRow| !story_by(db, c.story_id, username)),
            ..db
        },
        Change::InsertComment { story_id, username, comment_content } => Db {
            comments: db.comments.insert(
                db.next_comment_id,
                CommentRow { story_id, username, comment_content },
            ),
            next_comment_id: db.next_comment_id + 1,
            ..db
        },
        Change::DeleteCommentsByUser { username } => Db {
            comments: retain(db.comments, |c: CommentRow| c.username != username),
            ..db
        },
        Change::DeleteComment { comment_id } => Db { comments: db.comments.remove(comment_id), ..db },
        Change::DeleteCommentsOnStory { story_id } => Db {
            comments: retain(db.comments, |c: CommentRow| c.story_id != story_id),
            ..db
        },
    }
}

/// The database after a sequence of statements, run in order.
pub open spec fn apply_all(db: Db, changes: Seq<Change>) -> Db
    decreases changes.len(),
{
    if changes.len() == 0 {
        db
    } else {
        apply_all(apply(db, changes[0]), changes.drop_first())
    }
}

/// What one query reads.
pub enum Read {
    /// `select * from users`
    AllUsers,
    /// `select * from story where username = $1`
    StoriesByUser { username: Seq<char> },
    /// `select * from comment where story_id = $1`
    CommentsByStory { story_id: int },
    /// `select * from comment where username = $1`
    CommentsByUser { username: Seq<char> },
}

/// The rows that a query returns, each with its key.
pub enum Rows {
    Users(Map<int, UserRow>),
    Stories(Map<int, StoryRow>),
    Comments(Map<int, CommentRow>),
}

/// The rows that a query returns on the database `db`.
pub open spec fn select(db: Db, read: Read) -> Rows {
    match read {
        Read::AllUsers => Rows::Users(db.users),
        Read::StoriesByUser { username } => Rows::Stories(
            retain(db.stories, |r: StoryRow| r.username == username),
        ),
        Read::CommentsByStory { story_id } => Rows::Comments(
            retain(db.comments, |c: CommentRow| c.story_id == story_id),
        ),
        Read::CommentsByUser { username } => Rows::Comments(
            retain(db.comments, |c: CommentRow| c.username == username),
        ),
    }
}

/// Every comment belongs to a story that exists.
pub open spec fn comments_have_stories(db: Db) -> bool {
    forall|k: int| #[trigger] db.comments.contains_key(k) ==> db.stories.contains_key(db.comments[k].story_id)
}

/// Every story was written by a user that exists.
pub open spec fn stories_have_authors(db: Db) -> bool {
    forall|k: int| #[trigger] db.stories.contains_key(k) ==> user_exists(db, db.stories[k].username)
}

/// Some user is named `username`.
pub open spec fn user_exists(db: Db, username: Seq<char>) -> bool {
    exists|k: int| #[trigger] db.users.contains_key(k) && db.users[k].username == username
}

/// The foreign keys of the schema hold: comments point at stories and
/// stories at users.
pub open spec fn consistent(db: Db) -> bool {
    comments_have_stories(db) && stories_have_authors(db)
}

} // verus!
