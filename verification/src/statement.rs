//! The SQL statements and queries that the service sends to the database,
//! with their bound parameters, their text, and their meaning in the model.
use vstd::prelude::*;

use crate::model::{Change, Read};

verus! {

/// A statement that changes the database, with its bound parameters.
pub enum Statement {
    InsertUser { username: String, pass: String },
    DeleteUsersNamed { username: String },
    InsertStory { username: String, story_content: String },
    DeleteStory { story_id: i32 },
    DeleteStoriesByUser { username: String },
    DeleteCommentsOnStoriesByUser { username: String },
    InsertComment { story_id: i32, username: String, comment_content: String },
    DeleteCommentsByUser { username: String },
    DeleteComment { comment_id: i32 },
    DeleteCommentsOnStory { story_id: i32 },
}

impl View for Statement {
    type V = Change;

    open spec fn view(&self) -> Change {
        match self {
            Statement::InsertUser { username, pass } => Change::InsertUser {
                username: username@,
                pass: pass@,
            },
            Statement::DeleteUsersNamed { username } => Change::DeleteUsersNamed {
                username: username@,
            },
            Statement::InsertStory { username, story_content } => Change::InsertStory {
                username: username@,
                story_content: story_content@,
            },
            Statement::DeleteStory { story_id } => Change::DeleteStory { story_id: *story_id as int },
            Statement::DeleteStoriesByUser { username } => Change::DeleteStoriesByUser {
                username: username@,
            },
            Statement::DeleteCommentsOnStoriesByUser { username } =>
                Change::DeleteCommentsOnStoriesByUser { username: username@ },
            Statement::InsertComment { story_id, username, comment_content } =>
                Change::InsertComment {
                    story_id: *story_id as int,
                    username: username@,
                    comment_content: comment_content@,
                },
            Statement::DeleteCommentsByUser { username } => Change::DeleteCommentsByUser {
                username: username@,
            },
            Statement::DeleteComment { comment_id } => Change::DeleteComment {
                comment_id: *comment_id as int,
            },
            Statement::DeleteCommentsOnStory { story_id } => Change::DeleteCommentsOnStory {
                story_id: *story_id as int,
            },
        }
    }
}

/// The changes that a sequence of statements makes, in order.
pub open spec fn changes(statements: Seq<Statement>) -> Seq<Change> {
    statements.map_values(|s: Statement| s@)
}

/// The SQL text of a change; its parameters are bound in the order
/// in which the change lists them.
pub open spec fn change_sql(change: Change) -> Seq<char> {
    match change {
        Change::InsertUser { .. } => "insert into users (username, pass) values ($1, $2)"@,
        Change::DeleteUsersNamed { .. } => "DELETE FROM users WHERE username = $1"@,
        Change::InsertStory { .. } => "insert into story (username, story_content) values ($1, $2)"@,
        Change::DeleteStory { .. } => "DELETE FROM story WHERE story_id = $1"@,
        Change::DeleteStoriesByUser { .. } => "DELETE FROM story WHERE username = $1"@,
        Change::DeleteCommentsOnStoriesByUser { .. } =>
            "DELETE FROM comment WHERE story_id IN (SELECT story_id FROM story WHERE username = $1)"@,
        Change::InsertComment { .. } =>
            "insert into comment (story_id, username, comment_content) values ($1, $2, $3)"@,
        Change::DeleteCommentsByUser { .. } => "DELETE FROM comment WHERE username = $1"@,
        Change::DeleteComment { .. } => "DELETE FROM comment WHERE comment_id = $1"@,
        Change::DeleteCommentsOnStory { .. } => "DELETE FROM comment WHERE story_id = $1"@,
    }
}

impl Statement {
    /// The SQL text of this statement.
    pub fn sql(&self) -> (text: &'static str)
        ensures
            text@ == change_sql(self@),
    {
        match self {
            Statement::InsertUser { .. } => "insert into users (username, pass) values ($1, $2)",
            Statement::DeleteUsersNamed { .. } => "DELETE FROM users WHERE username = $1",
            Statement::InsertStory { .. } =>
                "insert into story (username, story_content) values ($1, $2)",
            Statement::DeleteStory { .. } => "DELETE FROM story WHERE story_id = $1",
            Statement::DeleteStoriesByUser { .. } => "DELETE FROM story WHERE username = $1",
            Statement::DeleteCommentsOnStoriesByUser { .. } =>
                "DELETE FROM comment WHERE story_id IN (SELECT story_id FROM story WHERE username = $1)",
            Statement::InsertComment { .. } =>
                "insert into comment (story_id, username, comment_content) values ($1, $2, $3)",
            Statement::DeleteCommentsByUser { .. } => "DELETE FROM comment WHERE username = $1",
            Statement::DeleteComment { .. } => "DELETE FROM comment WHERE comment_id = $1",
            Statement::DeleteCommentsOnStory { .. } => "DELETE FROM comment WHERE story_id = $1",
        }
    }
}

/// A query that reads rows, with its bound parameter.
pub enum Query {
    AllUsers,
    StoriesByUser { username: String },
    CommentsByStory { story_id: i32 },
    CommentsByUser { username: String },
}

impl View for Query {
    type V = Read;

    open spec fn view(&self) -> Read {
        match self {
            Query::AllUsers => Read::AllUsers,
            Query::StoriesByUser { username } => Read::StoriesByUser { username: username@ },
            Query::CommentsByStory { story_id } => Read::CommentsByStory {
                story_id: *story_id as int,
            },
            Query::CommentsByUser { username } => Read::CommentsByUser { username: username@ },
        }
    }
}

/// The SQL text of a query.
pub open spec fn read_sql(read: Read) -> Seq<char> {
    match read {
        Read::AllUsers => "select * from users"@,
        Read::StoriesByUser { .. } => "select * from story where username = $1"@,
        Read::CommentsByStory { .. } => "select * from comment where story_id = $1"@,
        Read::CommentsByUser { .. } => "select * from comment where username = $1"@,
    }
}

impl Query {
    /// The SQL text of this query.
    pub fn sql(&self) -> (text: &'static str)
        ensures
            text@ == read_sql(self@),
    {
        match self {
            Query::AllUsers => "select * from users",
            Query::StoriesByUser { .. } => "select * from story where username = $1",
            Query::CommentsByStory { .. } => "select * from comment where story_id = $1",
            Query::CommentsByUser { .. } => "select * from comment where username = $1",
        }
    }
}

} // verus!
