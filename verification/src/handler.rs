//! What the service does for each request: the statements it runs, in
//! order, the notification it sends after creating a story, and its reply.
use vstd::prelude::*;

use crate::endpoint::{Request, RequestModel};
use crate::json::{json_string, to_json_string};
use crate::model::{Change, Read};
use crate::plan::{
    delete_all_story_comments, delete_all_story_comments_changes, delete_comment,
    delete_comment_changes, delete_comments_by_user, delete_comments_by_user_changes,
    delete_stories_by_user, delete_stories_by_user_changes, delete_story, delete_story_changes,
    delete_user, delete_user_changes, insert_comment_changes, insert_comment_to_db,
    insert_story_changes, insert_story_to_db, insert_user_changes, insert_user_to_db,
};
use crate::statement::{changes, Query, Statement};

verus! {

/// The body of the root endpoint.
pub open spec fn index_text() -> Seq<char> {
    "This endpoint does nothing, try out the other endpoints."@
}

/// Answers the root endpoint with a fixed greeting.
pub fn index() -> (text: &'static str)
    ensures
        text@ == index_text(),
{
    "This endpoint does nothing, try out the other endpoints."
}

/// The reply to a request that changed the database.
pub open spec fn success_text() -> Seq<char> {
    "Success"@
}

/// How the service answers a request.
pub enum Reply {
    /// A fixed text.
    Message(&'static str),
    /// The rows that a query reads, as JSON.
    Rows(Query),
}

/// A reply with its text or query as a model.
pub enum ReplyModel {
    Message(Seq<char>),
    Rows(Read),
}

pub open spec fn reply_view(reply: Reply) -> ReplyModel {
    match reply {
        Reply::Message(text) => ReplyModel::Message(text@),
        Reply::Rows(query) => ReplyModel::Rows(query@),
    }
}

/// A program to start, with its arguments, that tells another system of an event.
pub struct Notification {
    pub program: String,
    pub args: Vec<String>,
}

pub open spec fn notification_view(notification: Option<Notification>) -> Option<
    (Seq<char>, Seq<Seq<char>>),
> {
    match notification {
        Some(n) => Some((n.program@, n.args.deep_view())),
        None => None,
    }
}

/// The program that sends notifications.
pub open spec fn notifier_program() -> Seq<char> {
    "curl"@
}

/// The JSON object that names a story's author.
pub open spec fn story_notification_body(username: Seq<char>) -> Seq<char> {
    "{\"username\":"@ + json_string(username) + "}"@
}

/// The arguments that post, as JSON, the name of a story's author to the
/// hook that watches for new stories.
pub open spec fn story_notification_args(username: Seq<char>) -> Seq<Seq<char>> {
    seq![
        "-d"@,
        story_notification_body(username),
        "-H"@,
        "Content-Type: application/json"@,
        "https://en9l94zz8cpcg.x.pipedream.net/"@,
    ]
}

/// The notification sent when `username` has created a story.
pub fn story_notification(username: &String) -> (notification: Notification)
    ensures
        notification.program@ == notifier_program(),
        notification.args.deep_view() == story_notification_args(username@),
{
    let mut body = String::from_str("{\"username\":");
    let name = to_json_string(username.as_str());
    body.append(name.as_str());
    body.append("}");
    let mut args: Vec<String> = Vec::new();
    args.push(String::from_str("-d"));
    args.push(body);
    args.push(String::from_str("-H"));
    args.push(String::from_str("Content-Type: application/json"));
    args.push(String::from_str("https://en9l94zz8cpcg.x.pipedream.net/"));
    assert(args.deep_view() =~= story_notification_args(username@));
    Notification { program: String::from_str("curl"), args }
}

/// What to do for a request: run `statements` in order, then send
/// `notification` if there is one, then answer with `reply`.
pub struct Plan {
    pub statements: Vec<Statement>,
    pub notification: Option<Notification>,
    pub reply: Reply,
}

/// The changes that a request makes, in order.
pub open spec fn statements_for(request: RequestModel) -> Seq<Change> {
    match request {
        RequestModel::CreateUser { username, password } => insert_user_changes(username, password),
        RequestModel::DeleteUser { username } => delete_user_changes(username),
        RequestModel::CreateStory { username, content } => insert_story_changes(username, content),
        RequestModel::DeleteStory { story_id } => delete_story_changes(story_id as int),
        RequestModel::DeleteStoriesByUser { username } => delete_stories_by_user_changes(username),
        RequestModel::CreateComment { story_id, username, content } => insert_comment_changes(
            story_id as int,
            username,
            content,
        ),
        RequestModel::DeleteCommentsByUser { username } => delete_comments_by_user_changes(
            username,
        ),
        RequestModel::DeleteComment { comment_id } => delete_comment_changes(comment_id as int),
        RequestModel::DeleteAllStoryComments { story_id } => delete_all_story_comments_changes(
            story_id as int,
        ),
        _ => seq![],
    }
}

/// The notification that a request sends: only creating a story sends one.
pub open spec fn notification_for(request: RequestModel) -> Option<(Seq<char>, Seq<Seq<char>>)> {
    match request {
        RequestModel::CreateStory { username, .. } => Some(
            (notifier_program(), story_notification_args(username)),
        ),
        _ => None,
    }
}

/// The reply to a request: the greeting at the root, the rows read for a
/// read, and the success text for a change.
pub open spec fn reply_for(request: RequestModel) -> ReplyModel {
    match request {
        RequestModel::Index => ReplyModel::Message(index_text()),
        RequestModel::GetAllUsers => ReplyModel::Rows(Read::AllUsers),
        RequestModel::GetStoriesByUser { username } => ReplyModel::Rows(
            Read::StoriesByUser { username },
        ),
        RequestModel::GetCommentsByStory { story_id } => ReplyModel::Rows(
            Read::CommentsByStory { story_id: story_id as int },
        ),
        RequestModel::GetCommentsByUser { username } => ReplyModel::Rows(
            Read::CommentsByUser { username },
        ),
        _ => ReplyModel::Message(success_text()),
    }
}

/// Decides what to do for a request.
pub fn plan_request(request: Request) -> (plan: Plan)
    ensures
        changes(plan.statements@) == statements_for(request@),
        notification_view(plan.notification) == notification_for(request@),
        reply_view(plan.reply) == reply_for(request@),
{
    let none: Vec<Statement> = Vec::new();
    assert(changes(none@) =~= Seq::<Change>::empty());
    match request {
        Request::Index => Plan { statements: none, notification: None, reply: Reply::Message(index()) },
        Request::GetAllUsers => Plan {
            statements: none,
            notification: None,
            reply: Reply::Rows(Query::AllUsers),
        },
        Request::GetStoriesByUser { username } => Plan {
            statements: none,
            notification: None,
            reply: Reply::Rows(Query::StoriesByUser { username }),
        },
        Request::GetCommentsByStory { story_id } => Plan {
            statements: none,
            notification: None,
            reply: Reply::Rows(Query::CommentsByStory { story_id }),
        },
        Request::GetCommentsByUser { username } => Plan {
            statements: none,
            notification: None,
            reply: Reply::Rows(Query::CommentsByUser { username }),
        },
        Request::CreateUser { username, password } => Plan {
            statements: insert_user_to_db(username, password),
            notification: None,
            reply: Reply::Message("Success"),
        },
        Request::DeleteUser { username } => Plan {
            statements: delete_user(username),
            notification: None,
            reply: Reply::Message("Success"),
        },
        Request::CreateStory { username, content } => {
            let notification = story_notification(&username);
            Plan {
                statements: insert_story_to_db(username, content),
                notification: Some(notification),
                reply: Reply::Message("Success"),
            }
        },
        Request::DeleteStory { story_id } => Plan {
            statements: delete_story(story_id),
            notification: None,
            reply: Reply::Message("Success"),
        },
        Request::DeleteStoriesByUser { username } => Plan {
            statements: delete_stories_by_user(username),
            notification: None,
            reply: Reply::Message("Success"),
        },
        Request::CreateComment { story_id, username, content } => Plan {
            statements: insert_comment_to_db(story_id, username, content),
            notification: None,
            reply: Reply::Message("Success"),
        },
        Request::DeleteCommentsByUser { username } => Plan {
            statements: delete_comments_by_user(username),
            notification: None,
            reply: Reply::Message("Success"),
        },
        Request::DeleteComment { comment_id } => Plan {
            statements: delete_comment(comment_id),
            notification: None,
            reply: Reply::Message("Success"),
        },
        Request::DeleteAllStoryComments { story_id } => Plan {
            statements: delete_all_story_comments(story_id),
            notification: None,
            reply: Reply::Message("Success"),
        },
    }
}

} // verus!
