//! The statements by which each operation of the service changes the
//! database, in the order in which they must run. Deletions cascade by hand:
//! a story's comments go before the story, a user's comments and stories
//! before the user.
use vstd::prelude::*;

use crate::model::Change;
use crate::statement::{changes, Statement};

verus! {

pub open spec fn insert_user_changes(username: Seq<char>, pass: Seq<char>) -> Seq<Change> {
    seq![Change::InsertUser { username, pass }]
}

pub open spec fn insert_story_changes(username: Seq<char>, story_content: Seq<char>) -> Seq<Change> {
    seq![Change::InsertStory { username, story_content }]
}

pub open spec fn insert_comment_changes(
    story_id: int,
    username: Seq<char>,
    comment_content: Seq<char>,
) -> Seq<Change> {
    seq![Change::InsertComment { story_id, username, comment_content }]
}

pub open spec fn delete_comments_by_user_changes(username: Seq<char>) -> Seq<Change> {
    seq![Change::DeleteCommentsByUser { username }]
}

pub open spec fn delete_comment_changes(comment_id: int) -> Seq<Change> {
    seq![Change::DeleteComment { comment_id }]
}

pub open spec fn delete_all_story_comments_changes(story_id: int) -> Seq<Change> {
    seq![Change::DeleteCommentsOnStory { story_id }]
}

/// A story's comments first, then the story.
pub open spec fn delete_story_changes(story_id: int) -> Seq<Change> {
    delete_all_story_comments_changes(story_id) + seq![Change::DeleteStory { story_id }]
}

/// The comments on the user's stories first, then the stories.
pub open spec fn delete_stories_by_user_changes(username: Seq<char>) -> Seq<Change> {
    seq![
        Change::DeleteCommentsOnStoriesByUser { username },
        Change::DeleteStoriesByUser { username },
    ]
}

/// The user's comments, then the user's stories with their comments, then the user.
pub open spec fn delete_user_changes(username: Seq<char>) -> Seq<Change> {
    delete_comments_by_user_changes(username) + delete_stories_by_user_changes(username) + seq![
        Change::DeleteUsersNamed { username },
    ]
}

/// Inserts a user with the given name and password.
pub fn insert_user_to_db(username: String, password: String) -> (plan: Vec<Statement>)
    ensures
        changes(plan@) == insert_user_changes(username@, password@),
{
    let mut plan: Vec<Statement> = Vec::new();
    plan.push(Statement::InsertUser { username, pass: password });
    assert(changes(plan@) =~= insert_user_changes(username@, password@));
    plan
}

/// Inserts a story by `username`.
pub fn insert_story_to_db(username: String, content: String) -> (plan: Vec<Statement>)
    ensures
        changes(plan@) == insert_story_changes(username@, content@),
{
    let mut plan: Vec<Statement> = Vec::new();
    plan.push(Statement::InsertStory { username, story_content: content });
    assert(changes(plan@) =~= insert_story_changes(username@, content@));
    plan
}

/// Inserts a comment by `username` on story `story_id`.
pub fn insert_comment_to_db(story_id: i32, username: String, content: String) -> (plan: Vec<
    Statement,
>)
    ensures
        changes(plan@) == insert_comment_changes(story_id as int, username@, content@),
{
    let mut plan: Vec<Statement> = Vec::new();
    plan.push(Statement::InsertComment { story_id, username, comment_content: content });
    assert(changes(plan@) =~= insert_comment_changes(story_id as int, username@, content@));
    plan
}

/// Deletes every comment written by `username`.
pub fn delete_comments_by_user(username: String) -> (plan: Vec<Statement>)
    ensures
        changes(plan@) == delete_comments_by_user_changes(username@),
{
    let mut plan: Vec<Statement> = Vec::new();
    plan.push(Statement::DeleteCommentsByUser { username });
    assert(changes(plan@) =~= delete_comments_by_user_changes(username@));
    plan
}

/// Deletes the comment with key `comment_id`.
pub fn delete_comment(comment_id: i32) -> (plan: Vec<Statement>)
    ensures
        changes(plan@) == delete_comment_changes(comment_id as int),
{
    let mut plan: Vec<Statement> = Vec::new();
    plan.push(Statement::DeleteComment { comment_id });
    assert(changes(plan@) =~= delete_comment_changes(comment_id as int));
    plan
}

/// Deletes every comment on story `story_id`.
pub fn delete_all_story_comments(story_id: i32) -> (plan: Vec<Statement>)
    ensures
        changes(plan@) == delete_all_story_comments_changes(story_id as int),
{
    let mut plan: Vec<Statement> = Vec::new();
    plan.push(Statement::DeleteCommentsOnStory { story_id });
    assert(changes(plan@) =~= delete_all_story_comments_changes(story_id as int));
    plan
}

/// Deletes story `story_id`, removing its comments before it.
pub fn delete_story(story_id: i32) -> (plan: Vec<Statement>)
    ensures
        changes(plan@) == delete_story_changes(story_id as int),
{
    let mut plan = delete_all_story_comments(story_id);
    let ghost first = plan@;
    plan.push(Statement::DeleteStory { story_id });
    assert(changes(plan@) =~= changes(first) + seq![Change::DeleteStory { story_id: story_id as int }]);
    plan
}

/// Deletes every story by `username`, removing the comments on those stories first.
pub fn delete_stories_by_user(username: String) -> (plan: Vec<Statement>)
    ensures
        changes(plan@) == delete_stories_by_user_changes(username@),
{
    let mut plan: Vec<Statement> = Vec::new();
    plan.push(Statement::DeleteCommentsOnStoriesByUser { username: username.clone() });
    plan.push(Statement::DeleteStoriesByUser { username });
    assert(changes(plan@) =~= delete_stories_by_user_changes(username@));
    plan
}

/// Deletes the users named `username`, removing before them their comments,
/// their stories and the comments on those stories.
pub fn delete_user(username: String) -> (plan: Vec<Statement>)
    ensures
        changes(plan@) == delete_user_changes(username@),
{
    let mut plan = delete_comments_by_user(username.clone());
    let mut stories = delete_stories_by_user(username.clone());
    let ghost first = plan@;
    let ghost second = stories@;
    plan.append(&mut stories);
    plan.push(Statement::DeleteUsersNamed { username });
    assert(changes(plan@) =~= changes(first) + changes(second) + seq![
        Change::DeleteUsersNamed { username: username@ },
    ]);
    plan
}

} // verus!
