//! What each request does to any database and what it answers, stated row by
//! row from the request's own values: which rows it adds, which it removes,
//! which it keeps unchanged, and which rows its reply reads.
use vstd::prelude::*;

use crate::endpoint::RequestModel;
use crate::handler::{notification_for, reply_for, statements_for, ReplyModel};
use crate::json::{json_string, json_string_reads_back, json_string_value};
use crate::laws::{
    apply_all_one, delete_stories_by_user_cascades, delete_story_cascades, delete_user_cascades,
};
use crate::model::{apply, apply_all, select, Change, CommentRow, Db, Read, Rows, StoryRow, UserRow};

verus! {

/// `after` holds exactly the rows of `before` for which `keep` holds, each unchanged.
pub open spec fn keeps_exactly<R>(
    before: Map<int, R>,
    after: Map<int, R>,
    keep: spec_fn(int, R) -> bool,
) -> bool {
    &&& forall|k: int|
        #![trigger after.contains_key(k)]
        #![trigger before.contains_key(k)]
        after.contains_key(k) <==> (before.contains_key(k) && keep(k, before[k]))
    &&& forall|k: int| #[trigger] after.contains_key(k) ==> after[k] == before[k]
}

/// The serial counters of two databases agree.
pub open spec fn same_serials(a: Db, b: Db) -> bool {
    &&& a.next_user_id == b.next_user_id
    &&& a.next_story_id == b.next_story_id
    &&& a.next_comment_id == b.next_comment_id
}

/// The database after the statements that a request runs.
pub open spec fn after_request(db: Db, request: RequestModel) -> Db {
    apply_all(db, statements_for(request))
}

/// Creating a user adds one user row, named and with the password as sent,
/// under the next user key, and changes nothing else; the reply is "Success".
pub proof fn create_user_request_adds_that_user(db: Db, username: Seq<char>, password: Seq<char>)
    ensures
        after_request(db, RequestModel::CreateUser { username, password }) == (Db {
            users: db.users.insert(db.next_user_id, UserRow { username: username, pass: password }),
            next_user_id: db.next_user_id + 1,
            ..db
        }),
        reply_for(RequestModel::CreateUser { username, password }) == ReplyModel::Message(
            "Success"@,
        ),
        notification_for(RequestModel::CreateUser { username, password }) is None,
{
    apply_all_one(db, Change::InsertUser { username, pass: password });
}

/// Creating a story adds one story row, by the author and with the content as
/// sent, under the next story key, changes nothing else, posts with curl to
/// the story hook a JSON object whose "username" member reads back as the
/// author, and replies "Success".
pub proof fn create_story_request_adds_that_story(db: Db, username: Seq<char>, content: Seq<char>)
    ensures
        after_request(db, RequestModel::CreateStory { username, content }) == (Db {
            stories: db.stories.insert(
                db.next_story_id,
                StoryRow { username: username, story_content: content },
            ),
            next_story_id: db.next_story_id + 1,
            ..db
        }),
        reply_for(RequestModel::CreateStory { username, content }) == ReplyModel::Message(
            "Success"@,
        ),
        notification_for(RequestModel::CreateStory { username, content }) matches Some(
            (program, args),
        ) && program == "curl"@ && args.len() == 5 && args[0] == "-d"@ && args[2] == "-H"@
            && args[3] == "Content-Type: application/json"@ && args[4]
            == "https://en9l94zz8cpcg.x.pipedream.net/"@ && args[1].len() >= 13 && args[1].subrange(
            0,
            12,
        ) == "{\"username\":"@ && args[1].last() == '}' && json_string_value(
            args[1].subrange(12, args[1].len() - 1),
        ) == Some(username),
{
    json_string_reads_back(username);
    reveal_strlit("{\"username\":");
    reveal_strlit("}");
    let body = "{\"username\":"@ + json_string(username) + "}"@;
    assert(body.subrange(0, 12) =~= "{\"username\":"@);
    assert(body.subrange(12, body.len() - 1) =~= json_string(username));
    apply_all_one(db, Change::InsertStory { username, story_content: content });
}

/// Creating a comment adds one comment row, on the story, by the author and
/// with the content as sent, under the next comment key, and changes nothing
/// else; the reply is "Success".
pub proof fn create_comment_request_adds_that_comment(
    db: Db,
    story_id: i32,
    username: Seq<char>,
    content: Seq<char>,
)
    ensures
        after_request(db, RequestModel::CreateComment { story_id, username, content }) == (Db {
            comments: db.comments.insert(
                db.next_comment_id,
                CommentRow {
                    story_id: story_id as int,
                    username: username,
                    comment_content: content,
                },
            ),
            next_comment_id: db.next_comment_id + 1,
            ..db
        }),
        reply_for(RequestModel::CreateComment { story_id, username, content })
            == ReplyModel::Message("Success"@),
        notification_for(RequestModel::CreateComment { story_id, username, content }) is None,
{
    apply_all_one(
        db,
        Change::InsertComment { story_id: story_id as int, username, comment_content: content },
    );
}

/// Deleting a user removes exactly the users of that name, the stories they
/// wrote, the comments they wrote and every comment, by anyone, on a story
/// they wrote; every other row stays as it was.
pub proof fn delete_user_request_removes_exactly(db: Db, username: Seq<char>)
    ensures
        keeps_exactly(
            db.users,
            after_request(db, RequestModel::DeleteUser { username }).users,
            |k: int, r: UserRow| r.username != username,
        ),
        keeps_exactly(
            db.stories,
            after_request(db, RequestModel::DeleteUser { username }).stories,
            |k: int, r: StoryRow| r.username != username,
        ),
        keeps_exactly(
            db.comments,
            after_request(db, RequestModel::DeleteUser { username }).comments,
            |k: int, c: CommentRow|
                c.username != username && !(db.stories.contains_key(c.story_id)
                    && db.stories[c.story_id].username == username),
        ),
        same_serials(db, after_request(db, RequestModel::DeleteUser { username })),
        reply_for(RequestModel::DeleteUser { username }) == ReplyModel::Message("Success"@),
        notification_for(RequestModel::DeleteUser { username }) is None,
{
    delete_user_cascades(db, username);
}

/// Deleting a user's stories removes exactly those stories and every comment,
/// by anyone, on them; the user's comments on other stories, the users and
/// every other row stay as they were.
pub proof fn delete_stories_by_user_request_removes_exactly(db: Db, username: Seq<char>)
    ensures
        after_request(db, RequestModel::DeleteStoriesByUser { username }).users == db.users,
        keeps_exactly(
            db.stories,
            after_request(db, RequestModel::DeleteStoriesByUser { username }).stories,
            |k: int, r: StoryRow| r.username != username,
        ),
        keeps_exactly(
            db.comments,
            after_request(db, RequestModel::DeleteStoriesByUser { username }).comments,
            |k: int, c: CommentRow|
                !(db.stories.contains_key(c.story_id) && db.stories[c.story_id].username
                    == username),
        ),
        same_serials(db, after_request(db, RequestModel::DeleteStoriesByUser { username })),
        reply_for(RequestModel::DeleteStoriesByUser { username }) == ReplyModel::Message(
            "Success"@,
        ),
        notification_for(RequestModel::DeleteStoriesByUser { username }) is None,
{
    delete_stories_by_user_cascades(db, username);
}

/// Deleting a story removes exactly that story and the comments on it.
pub proof fn delete_story_request_removes_exactly(db: Db, story_id: i32)
    ensures
        after_request(db, RequestModel::DeleteStory { story_id }).users == db.users,
        keeps_exactly(
            db.stories,
            after_request(db, RequestModel::DeleteStory { story_id }).stories,
            |k: int, r: StoryRow| k != story_id as int,
        ),
        keeps_exactly(
            db.comments,
            after_request(db, RequestModel::DeleteStory { story_id }).comments,
            |k: int, c: CommentRow| c.story_id != story_id as int,
        ),
        same_serials(db, after_request(db, RequestModel::DeleteStory { story_id })),
        reply_for(RequestModel::DeleteStory { story_id }) == ReplyModel::Message("Success"@),
        notification_for(RequestModel::DeleteStory { story_id }) is None,
{
    delete_story_cascades(db, story_id as int);
}

/// Deleting a comment removes exactly the comment with that key.
pub proof fn delete_comment_request_removes_exactly(db: Db, comment_id: i32)
    ensures
        after_request(db, RequestModel::DeleteComment { comment_id }).users == db.users,
        after_request(db, RequestModel::DeleteComment { comment_id }).stories == db.stories,
        keeps_exactly(
            db.comments,
            after_request(db, RequestModel::DeleteComment { comment_id }).comments,
            |k: int, c: CommentRow| k != comment_id as int,
        ),
        same_serials(db, after_request(db, RequestModel::DeleteComment { comment_id })),
        reply_for(RequestModel::DeleteComment { comment_id }) == ReplyModel::Message("Success"@),
        notification_for(RequestModel::DeleteComment { comment_id }) is None,
{
    apply_all_one(db, Change::DeleteComment { comment_id: comment_id as int });
}

/// Deleting a user's comments removes exactly the comments that user wrote.
pub proof fn delete_comments_by_user_request_removes_exactly(db: Db, username: Seq<char>)
    ensures
        after_request(db, RequestModel::DeleteCommentsByUser { username }).users == db.users,
        after_request(db, RequestModel::DeleteCommentsByUser { username }).stories == db.stories,
        keeps_exactly(
            db.comments,
            after_request(db, RequestModel::DeleteCommentsByUser { username }).comments,
            |k: int, c: CommentRow| c.username != username,
        ),
        same_serials(db, after_request(db, RequestModel::DeleteCommentsByUser { username })),
        reply_for(RequestModel::DeleteCommentsByUser { username }) == ReplyModel::Message(
            "Success"@,
        ),
        notification_for(RequestModel::DeleteCommentsByUser { username }) is None,
{
    apply_all_one(db, Change::DeleteCommentsByUser { username });
}

/// Deleting a story's comments removes exactly the comments on that story.
pub proof fn delete_all_story_comments_request_removes_exactly(db: Db, story_id: i32)
    ensures
        after_request(db, RequestModel::DeleteAllStoryComments { story_id }).users == db.users,
        after_request(db, RequestModel::DeleteAllStoryComments { story_id }).stories
            == db.stories,
        keeps_exactly(
            db.comments,
            after_request(db, RequestModel::DeleteAllStoryComments { story_id }).comments,
            |k: int, c: CommentRow| c.story_id != story_id as int,
        ),
        same_serials(db, after_request(db, RequestModel::DeleteAllStoryComments { story_id })),
        reply_for(RequestModel::DeleteAllStoryComments { story_id }) == ReplyModel::Message(
            "Success"@,
        ),
        notification_for(RequestModel::DeleteAllStoryComments { story_id }) is None,
{
    apply_all_one(db, Change::DeleteCommentsOnStory { story_id: story_id as int });
}

/// The reads change nothing and send nothing; each replies with exactly the
/// rows it names: all users, the stories by a user, the comments on a story,
/// the comments by a user. The root replies with its greeting.
pub proof fn reads_change_nothing_and_read_exactly(db: Db, username: Seq<char>, story_id: i32)
    ensures
        after_request(db, RequestModel::Index) == db,
        after_request(db, RequestModel::GetAllUsers) == db,
        after_request(db, RequestModel::GetStoriesByUser { username }) == db,
        after_request(db, RequestModel::GetCommentsByStory { story_id }) == db,
        after_request(db, RequestModel::GetCommentsByUser { username }) == db,
        notification_for(RequestModel::Index) is None,
        notification_for(RequestModel::GetAllUsers) is None,
        notification_for(RequestModel::GetStoriesByUser { username }) is None,
        notification_for(RequestModel::GetCommentsByStory { story_id }) is None,
        notification_for(RequestModel::GetCommentsByUser { username }) is None,
        reply_for(RequestModel::Index) == ReplyModel::Message(
            "This endpoint does nothing, try out the other endpoints."@,
        ),
        reply_for(RequestModel::GetAllUsers) matches ReplyModel::Rows(read) && select(db, read)
            == Rows::Users(db.users),
        reply_for(RequestModel::GetStoriesByUser { username }) matches ReplyModel::Rows(read)
            && select(db, read) matches Rows::Stories(rows) && keeps_exactly(
            db.stories,
            rows,
            |k: int, r: StoryRow| r.username == username,
        ),
        reply_for(RequestModel::GetCommentsByStory { story_id }) matches ReplyModel::Rows(read)
            && select(db, read) matches Rows::Comments(rows) && keeps_exactly(
            db.comments,
            rows,
            |k: int, c: CommentRow| c.story_id == story_id as int,
        ),
        reply_for(RequestModel::GetCommentsByUser { username }) matches ReplyModel::Rows(read)
            && select(db, read) matches Rows::Comments(rows) && keeps_exactly(
            db.comments,
            rows,
            |k: int, c: CommentRow| c.username == username,
        ),
{
}

} // verus!
