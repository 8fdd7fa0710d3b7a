//! What the operations' statement plans do to any database: the cascades of
//! the deletions, the consistency that they keep, what a read gives back
//! after a write or a deletion, through any later changes that do not undo
//! it, and that a deletion repeated changes nothing more.
use vstd::prelude::*;

use crate::model::{
    apply, apply_all, consistent, comments_have_stories, retain, select, stories_have_authors,
    story_by, user_exists, Change, CommentRow, Db, Read, Rows, StoryRow, UserRow,
};
use crate::plan::{
    delete_all_story_comments_changes, delete_comment_changes, delete_comments_by_user_changes,
    delete_stories_by_user_changes, delete_story_changes, delete_user_changes,
    insert_comment_changes, insert_story_changes, insert_user_changes,
};

verus! {

/// Running `s` then `t` is running their concatenation.
pub proof fn apply_all_concat(db: Db, s: Seq<Change>, t: Seq<Change>)
    ensures
        apply_all(db, s + t) == apply_all(apply_all(db, s), t),
    decreases s.len(),
{
    if s.len() == 0 {
        assert(s + t =~= t);
    } else {
        assert((s + t).drop_first() =~= s.drop_first() + t);
        assert((s + t)[0] == s[0]);
        apply_all_concat(apply(db, s[0]), s.drop_first(), t);
    }
}

/// Running a single statement.
pub proof fn apply_all_one(db: Db, c: Change)
    ensures
        apply_all(db, seq![c]) == apply(db, c),
{
    assert(seq![c].drop_first() =~= Seq::<Change>::empty());
    assert(apply_all(apply(db, c), Seq::<Change>::empty()) == apply(db, c));
}

/// Running two statements.
pub proof fn apply_all_two(db: Db, a: Change, b: Change)
    ensures
        apply_all(db, seq![a, b]) == apply(apply(db, a), b),
{
    assert(seq![a, b] =~= seq![a] + seq![b]);
    apply_all_concat(db, seq![a], seq![b]);
    apply_all_one(db, a);
    apply_all_one(apply(db, a), b);
}

/// A user name stays taken when every user row stays as it was.
pub proof fn user_still_exists(db: Db, after: Db, username: Seq<char>)
    requires
        user_exists(db, username),
        forall|k: int| #[trigger]
            db.users.contains_key(k) ==> after.users.contains_key(k) && after.users[k]
                == db.users[k],
    ensures
        user_exists(after, username),
{
    let w = choose|w: int| #[trigger] db.users.contains_key(w) && db.users[w].username == username;
    assert(after.users.contains_key(w) && after.users[w].username == username);
}

/// The database after deleting a story.
pub open spec fn after_delete_story(db: Db, story_id: int) -> Db {
    Db {
        stories: db.stories.remove(story_id),
        comments: retain(db.comments, |c: CommentRow| c.story_id != story_id),
        ..db
    }
}

/// The database after deleting the stories of a user.
pub open spec fn after_delete_stories_by_user(db: Db, username: Seq<char>) -> Db {
    Db {
        stories: retain(db.stories, |r: StoryRow| r.username != username),
        comments: retain(db.comments, |c: CommentRow| !story_by(db, c.story_id, username)),
        ..db
    }
}

/// The database after deleting a user.
pub open spec fn after_delete_user(db: Db, username: Seq<char>) -> Db {
    Db {
        users: retain(db.users, |r: UserRow| r.username != username),
        stories: retain(db.stories, |r: StoryRow| r.username != username),
        comments: retain(
            db.comments,
            |c: CommentRow| c.username != username && !story_by(db, c.story_id, username),
        ),
        ..db
    }
}

/// Deleting a story removes that story and exactly the comments on it,
/// and leaves everything else as it was: afterwards no comment of it is read.
pub proof fn delete_story_cascades(db: Db, story_id: int)
    ensures
        apply_all(db, delete_story_changes(story_id)) == after_delete_story(db, story_id),
        !apply_all(db, delete_story_changes(story_id)).stories.contains_key(story_id),
        select(apply_all(db, delete_story_changes(story_id)), Read::CommentsByStory { story_id })
            == Rows::Comments(Map::<int, CommentRow>::empty()),
{
    let a = Change::DeleteCommentsOnStory { story_id };
    let b = Change::DeleteStory { story_id };
    assert(delete_story_changes(story_id) =~= seq![a, b]);
    apply_all_two(db, a, b);
    let after = after_delete_story(db, story_id);
    assert(apply(apply(db, a), b) =~= after);
    assert(retain(after.comments, |c: CommentRow| c.story_id == story_id) =~= Map::<
        int,
        CommentRow,
    >::empty());
}

/// Deleting a user's stories removes exactly those stories and the comments
/// on them, whoever wrote those comments; afterwards none of the user's
/// stories is read.
pub proof fn delete_stories_by_user_cascades(db: Db, username: Seq<char>)
    ensures
        apply_all(db, delete_stories_by_user_changes(username)) == after_delete_stories_by_user(
            db,
            username,
        ),
        select(
            apply_all(db, delete_stories_by_user_changes(username)),
            Read::StoriesByUser { username },
        ) == Rows::Stories(Map::<int, StoryRow>::empty()),
{
    let a = Change::DeleteCommentsOnStoriesByUser { username };
    let b = Change::DeleteStoriesByUser { username };
    assert(delete_stories_by_user_changes(username) =~= seq![a, b]);
    apply_all_two(db, a, b);
    let after = after_delete_stories_by_user(db, username);
    assert(apply(apply(db, a), b) =~= after);
    assert(retain(after.stories, |r: StoryRow| r.username == username) =~= Map::<
        int,
        StoryRow,
    >::empty());
}

/// Deleting a user removes the users of that name, their stories, their
/// comments and every comment on their stories, and nothing else; afterwards
/// no user of that name exists and none of their stories or comments is read.
pub proof fn delete_user_cascades(db: Db, username: Seq<char>)
    ensures
        apply_all(db, delete_user_changes(username)) == after_delete_user(db, username),
        !user_exists(apply_all(db, delete_user_changes(username)), username),
        select(apply_all(db, delete_user_changes(username)), Read::StoriesByUser { username })
            == Rows::Stories(Map::<int, StoryRow>::empty()),
        select(apply_all(db, delete_user_changes(username)), Read::CommentsByUser { username })
            == Rows::Comments(Map::<int, CommentRow>::empty()),
{
    let a = Change::DeleteCommentsByUser { username };
    let b = Change::DeleteCommentsOnStoriesByUser { username };
    let c = Change::DeleteStoriesByUser { username };
    let d = Change::DeleteUsersNamed { username };
    assert(delete_user_changes(username) =~= seq![a] + (seq![b, c] + seq![d]));
    apply_all_concat(db, seq![a], seq![b, c] + seq![d]);
    apply_all_one(db, a);
    let db1 = apply(db, a);
    apply_all_concat(db1, seq![b, c], seq![d]);
    apply_all_two(db1, b, c);
    let db3 = apply(apply(db1, b), c);
    apply_all_one(db3, d);
    let after = after_delete_user(db, username);
    assert(db1.stories == db.stories);
    assert(apply(db3, d) =~= after);
    assert(retain(after.stories, |r: StoryRow| r.username == username) =~= Map::<
        int,
        StoryRow,
    >::empty());
    assert(retain(after.comments, |r: CommentRow| r.username == username) =~= Map::<
        int,
        CommentRow,
    >::empty());
}

/// Deleting a story keeps the database consistent.
pub proof fn delete_story_keeps_consistency(db: Db, story_id: int)
    requires
        consistent(db),
    ensures
        consistent(apply_all(db, delete_story_changes(story_id))),
{
    delete_story_cascades(db, story_id);
    let after = after_delete_story(db, story_id);
    assert forall|k: int| #[trigger] after.stories.contains_key(k) implies user_exists(
        after,
        after.stories[k].username,
    ) by {
        assert(db.stories.contains_key(k));
        let u = db.stories[k].username;
        let w = choose|w: int| #[trigger] db.users.contains_key(w) && db.users[w].username == u;
        assert(after.users.contains_key(w));
    }
}

/// Deleting a user's stories keeps the database consistent.
pub proof fn delete_stories_by_user_keeps_consistency(db: Db, username: Seq<char>)
    requires
        consistent(db),
    ensures
        consistent(apply_all(db, delete_stories_by_user_changes(username))),
{
    delete_stories_by_user_cascades(db, username);
    let after = after_delete_stories_by_user(db, username);
    assert forall|k: int| #[trigger] after.comments.contains_key(k) implies after.stories.contains_key(
        after.comments[k].story_id,
    ) by {
        assert(db.comments.contains_key(k));
    }
    assert forall|k: int| #[trigger] after.stories.contains_key(k) implies user_exists(
        after,
        after.stories[k].username,
    ) by {
        assert(db.stories.contains_key(k));
        let u = db.stories[k].username;
        let w = choose|w: int| #[trigger] db.users.contains_key(w) && db.users[w].username == u;
        assert(after.users.contains_key(w));
    }
}

/// Deleting a user keeps the database consistent: no story is left without
/// its author and no comment without its story.
pub proof fn delete_user_keeps_consistency(db: Db, username: Seq<char>)
    requires
        consistent(db),
    ensures
        consistent(apply_all(db, delete_user_changes(username))),
{
    delete_user_cascades(db, username);
    let after = after_delete_user(db, username);
    assert forall|k: int| #[trigger] after.comments.contains_key(k) implies after.stories.contains_key(
        after.comments[k].story_id,
    ) by {
        assert(db.comments.contains_key(k));
        assert(db.stories.contains_key(db.comments[k].story_id));
    }
    assert forall|k: int| #[trigger] after.stories.contains_key(k) implies user_exists(
        after,
        after.stories[k].username,
    ) by {
        assert(db.stories.contains_key(k));
        let u = db.stories[k].username;
        let w = choose|w: int| #[trigger] db.users.contains_key(w) && db.users[w].username == u;
        assert(after.users.contains_key(w));
    }
}

/// Deleting comments, one by key, all of a user's, or all on a story, keeps
/// the database consistent.
pub proof fn comment_deletions_keep_consistency(
    db: Db,
    comment_id: int,
    username: Seq<char>,
    story_id: int,
)
    requires
        consistent(db),
    ensures
        consistent(apply_all(db, delete_comment_changes(comment_id))),
        consistent(apply_all(db, delete_comments_by_user_changes(username))),
        consistent(apply_all(db, delete_all_story_comments_changes(story_id))),
{
    apply_all_one(db, Change::DeleteComment { comment_id });
    apply_all_one(db, Change::DeleteCommentsByUser { username });
    apply_all_one(db, Change::DeleteCommentsOnStory { story_id });
    let a1 = apply(db, Change::DeleteComment { comment_id });
    let a2 = apply(db, Change::DeleteCommentsByUser { username });
    let a3 = apply(db, Change::DeleteCommentsOnStory { story_id });
    assert(comments_have_stories(a1));
    assert(comments_have_stories(a2));
    assert(comments_have_stories(a3));
    assert(stories_have_authors(a1)) by {
        assert forall|k: int| #[trigger] a1.stories.contains_key(k) implies user_exists(
            a1,
            a1.stories[k].username,
        ) by {
            user_still_exists(db, a1, db.stories[k].username);
        }
    }
    assert(stories_have_authors(a2)) by {
        assert forall|k: int| #[trigger] a2.stories.contains_key(k) implies user_exists(
            a2,
            a2.stories[k].username,
        ) by {
            user_still_exists(db, a2, db.stories[k].username);
        }
    }
    assert(stories_have_authors(a3)) by {
        assert forall|k: int| #[trigger] a3.stories.contains_key(k) implies user_exists(
            a3,
            a3.stories[k].username,
        ) by {
            user_still_exists(db, a3, db.stories[k].username);
        }
    }
}

/// Every key of a table is below the serial counter of that table, so the
/// next insert gets a fresh key.
pub open spec fn keys_below_serials(db: Db) -> bool {
    &&& forall|k: int| #[trigger] db.users.contains_key(k) ==> k < db.next_user_id
    &&& forall|k: int| #[trigger] db.stories.contains_key(k) ==> k < db.next_story_id
    &&& forall|k: int| #[trigger] db.comments.contains_key(k) ==> k < db.next_comment_id
}

/// After a user is inserted, reading all users gives the users read before
/// and the new one under the next serial key.
pub proof fn insert_user_then_read(db: Db, username: Seq<char>, pass: Seq<char>)
    requires
        keys_below_serials(db),
    ensures
        keys_below_serials(apply_all(db, insert_user_changes(username, pass))),
        select(apply_all(db, insert_user_changes(username, pass)), Read::AllUsers) == Rows::Users(
            db.users.insert(db.next_user_id, UserRow { username, pass }),
        ),
        !db.users.contains_key(db.next_user_id),
{
    apply_all_one(db, Change::InsertUser { username, pass });
}

/// After a story is inserted, reading its author's stories gives the ones
/// read before and the new one under the next serial key.
pub proof fn insert_story_then_read(db: Db, username: Seq<char>, story_content: Seq<char>)
    requires
        keys_below_serials(db),
    ensures
        keys_below_serials(apply_all(db, insert_story_changes(username, story_content))),
        select(
            apply_all(db, insert_story_changes(username, story_content)),
            Read::StoriesByUser { username },
        ) == Rows::Stories(
            retain(db.stories, |r: StoryRow| r.username == username).insert(
                db.next_story_id,
                StoryRow { username, story_content },
            ),
        ),
        !db.stories.contains_key(db.next_story_id),
{
    apply_all_one(db, Change::InsertStory { username, story_content });
    let after = apply(db, Change::InsertStory { username, story_content });
    assert(retain(after.stories, |r: StoryRow| r.username == username) =~= retain(
        db.stories,
        |r: StoryRow| r.username == username,
    ).insert(db.next_story_id, StoryRow { username, story_content }));
}

/// After a comment is inserted, reading the comments of its story, or of its
/// author, gives the ones read before and the new one under the next serial key.
pub proof fn insert_comment_then_read(
    db: Db,
    story_id: int,
    username: Seq<char>,
    comment_content: Seq<char>,
)
    requires
        keys_below_serials(db),
    ensures
        keys_below_serials(
            apply_all(db, insert_comment_changes(story_id, username, comment_content)),
        ),
        select(
            apply_all(db, insert_comment_changes(story_id, username, comment_content)),
            Read::CommentsByStory { story_id },
        ) == Rows::Comments(
            retain(db.comments, |c: CommentRow| c.story_id == story_id).insert(
                db.next_comment_id,
                CommentRow { story_id, username, comment_content },
            ),
        ),
        select(
            apply_all(db, insert_comment_changes(story_id, username, comment_content)),
            Read::CommentsByUser { username },
        ) == Rows::Comments(
            retain(db.comments, |c: CommentRow| c.username == username).insert(
                db.next_comment_id,
                CommentRow { story_id, username, comment_content },
            ),
        ),
        !db.comments.contains_key(db.next_comment_id),
{
    let c = Change::InsertComment { story_id, username, comment_content };
    apply_all_one(db, c);
    let after = apply(db, c);
    let row = CommentRow { story_id, username, comment_content };
    assert(retain(after.comments, |x: CommentRow| x.story_id == story_id) =~= retain(
        db.comments,
        |x: CommentRow| x.story_id == story_id,
    ).insert(db.next_comment_id, row));
    assert(retain(after.comments, |x: CommentRow| x.username == username) =~= retain(
        db.comments,
        |x: CommentRow| x.username == username,
    ).insert(db.next_comment_id, row));
}

/// Inserting into a database whose keys are below its serials keeps it
/// consistent when what the new row points at exists: a comment's story, a
/// story's author.
pub proof fn inserts_keep_consistency(
    db: Db,
    username: Seq<char>,
    text: Seq<char>,
    story_id: int,
)
    requires
        consistent(db),
        keys_below_serials(db),
    ensures
        consistent(apply_all(db, insert_user_changes(username, text))),
        user_exists(db, username) ==> consistent(
            apply_all(db, insert_story_changes(username, text)),
        ),
        db.stories.contains_key(story_id) ==> consistent(
            apply_all(db, insert_comment_changes(story_id, username, text)),
        ),
{
    let iu = Change::InsertUser { username, pass: text };
    let is = Change::InsertStory { username, story_content: text };
    let ic = Change::InsertComment { story_id, username, comment_content: text };
    apply_all_one(db, iu);
    apply_all_one(db, is);
    apply_all_one(db, ic);
    let a1 = apply(db, iu);
    let a2 = apply(db, is);
    let a3 = apply(db, ic);
    assert forall|k: int| #[trigger] a1.stories.contains_key(k) implies user_exists(
        a1,
        a1.stories[k].username,
    ) by {
        user_still_exists(db, a1, db.stories[k].username);
    }
    if user_exists(db, username) {
        assert forall|k: int| #[trigger] a2.stories.contains_key(k) implies user_exists(
            a2,
            a2.stories[k].username,
        ) by {
            if k != db.next_story_id {
                user_still_exists(db, a2, db.stories[k].username);
            } else {
                user_still_exists(db, a2, username);
            }
        }
        assert forall|k: int| #[trigger] a2.comments.contains_key(k) implies a2.stories.contains_key(
            a2.comments[k].story_id,
        ) by {
            assert(db.stories.contains_key(db.comments[k].story_id));
        }
    }
    if db.stories.contains_key(story_id) {
        assert forall|k: int| #[trigger] a3.comments.contains_key(k) implies a3.stories.contains_key(
            a3.comments[k].story_id,
        ) by {
            if k != db.next_comment_id {
                assert(db.stories.contains_key(db.comments[k].story_id));
            }
        }
        assert forall|k: int| #[trigger] a3.stories.contains_key(k) implies user_exists(
            a3,
            a3.stories[k].username,
        ) by {
            user_still_exists(db, a3, db.stories[k].username);
        }
    }
}

/// Deleting a user a second time changes nothing more.
pub proof fn delete_user_is_idempotent(db: Db, username: Seq<char>)
    ensures
        apply_all(apply_all(db, delete_user_changes(username)), delete_user_changes(username))
            == apply_all(db, delete_user_changes(username)),
{
    delete_user_cascades(db, username);
    let once = after_delete_user(db, username);
    delete_user_cascades(once, username);
    let twice = after_delete_user(once, username);
    assert(twice.users =~= once.users);
    assert(twice.stories =~= once.stories);
    assert(twice.comments =~= once.comments);
    assert(twice =~= once);
}

/// Deleting a story a second time changes nothing more.
pub proof fn delete_story_is_idempotent(db: Db, story_id: int)
    ensures
        apply_all(apply_all(db, delete_story_changes(story_id)), delete_story_changes(story_id))
            == apply_all(db, delete_story_changes(story_id)),
{
    delete_story_cascades(db, story_id);
    let once = after_delete_story(db, story_id);
    delete_story_cascades(once, story_id);
    let twice = after_delete_story(once, story_id);
    assert(twice.stories =~= once.stories);
    assert(twice.comments =~= once.comments);
    assert(twice =~= once);
}

/// Deleting a user's stories a second time changes nothing more.
pub proof fn delete_stories_by_user_is_idempotent(db: Db, username: Seq<char>)
    ensures
        apply_all(
            apply_all(db, delete_stories_by_user_changes(username)),
            delete_stories_by_user_changes(username),
        ) == apply_all(db, delete_stories_by_user_changes(username)),
{
    delete_stories_by_user_cascades(db, username);
    let once = after_delete_stories_by_user(db, username);
    delete_stories_by_user_cascades(once, username);
    let twice = after_delete_stories_by_user(once, username);
    assert(twice.stories =~= once.stories);
    assert(twice.comments =~= once.comments);
    assert(twice =~= once);
}


/// Whether a change deletes the users named `username`.
pub open spec fn removes_users_named(change: Change, username: Seq<char>) -> bool {
    change matches Change::DeleteUsersNamed { username: u } && u == username
}

/// Whether a change deletes story `story_id`, whose author is `username`.
pub open spec fn removes_story(change: Change, story_id: int, username: Seq<char>) -> bool {
    ||| change matches Change::DeleteStory { story_id: s } && s == story_id
    ||| change matches Change::DeleteStoriesByUser { username: u } && u == username
}

/// Whether a change inserts a story by `username`.
pub open spec fn inserts_story_by(change: Change, username: Seq<char>) -> bool {
    change matches Change::InsertStory { username: u, .. } && u == username
}

/// Whether a change inserts a comment on story `story_id`.
pub open spec fn inserts_comment_on(change: Change, story_id: int) -> bool {
    change matches Change::InsertComment { story_id: s, .. } && s == story_id
}

/// No story is by `username`.
pub open spec fn no_story_by(db: Db, username: Seq<char>) -> bool {
    forall|k: int| #[trigger] db.stories.contains_key(k) ==> db.stories[k].username != username
}

/// No comment is on story `story_id`.
pub open spec fn no_comment_on(db: Db, story_id: int) -> bool {
    forall|k: int| #[trigger] db.comments.contains_key(k) ==> db.comments[k].story_id != story_id
}

/// Every change keeps every key below its table's serial counter.
pub proof fn change_keeps_keys_below_serials(db: Db, change: Change)
    requires
        keys_below_serials(db),
    ensures
        keys_below_serials(apply(db, change)),
{
}

/// Every sequence of changes keeps every key below its table's serial counter,
/// so each insert gets a key that no row holds.
pub proof fn changes_keep_keys_below_serials(db: Db, changes: Seq<Change>)
    requires
        keys_below_serials(db),
    ensures
        keys_below_serials(apply_all(db, changes)),
    decreases changes.len(),
{
    if changes.len() > 0 {
        change_keeps_keys_below_serials(db, changes[0]);
        changes_keep_keys_below_serials(apply(db, changes[0]), changes.drop_first());
    }
}

/// A user row stays as it is through every sequence of changes that deletes
/// no user of its name.
pub proof fn user_row_persists(db: Db, later: Seq<Change>, key: int)
    requires
        keys_below_serials(db),
        db.users.contains_key(key),
        forall|i: int| 0 <= i < later.len() ==> !removes_users_named(#[trigger] later[i], db.users[key].username),
    ensures
        apply_all(db, later).users.contains_key(key),
        apply_all(db, later).users[key] == db.users[key],
    decreases later.len(),
{
    if later.len() > 0 {
        assert(!removes_users_named(later[0], db.users[key].username));
        let next = apply(db, later[0]);
        change_keeps_keys_below_serials(db, later[0]);
        assert forall|i: int| 0 <= i < later.drop_first().len() implies !removes_users_named(
            #[trigger] later.drop_first()[i],
            next.users[key].username,
        ) by {
            assert(later.drop_first()[i] == later[i + 1]);
        }
        user_row_persists(next, later.drop_first(), key);
    }
}

/// A story row stays as it is through every sequence of changes that deletes
/// neither that story nor its author's stories.
pub proof fn story_row_persists(db: Db, later: Seq<Change>, key: int)
    requires
        keys_below_serials(db),
        db.stories.contains_key(key),
        forall|i: int| 0 <= i < later.len() ==> !removes_story(#[trigger] later[i], key, db.stories[key].username),
    ensures
        apply_all(db, later).stories.contains_key(key),
        apply_all(db, later).stories[key] == db.stories[key],
    decreases later.len(),
{
    if later.len() > 0 {
        assert(!removes_story(later[0], key, db.stories[key].username));
        let next = apply(db, later[0]);
        change_keeps_keys_below_serials(db, later[0]);
        assert forall|i: int| 0 <= i < later.drop_first().len() implies !removes_story(
            #[trigger] later.drop_first()[i],
            key,
            next.stories[key].username,
        ) by {
            assert(later.drop_first()[i] == later[i + 1]);
        }
        story_row_persists(next, later.drop_first(), key);
    }
}

/// No story by `username` appears through a sequence of changes that inserts
/// none by that user.
pub proof fn no_story_by_persists(db: Db, later: Seq<Change>, username: Seq<char>)
    requires
        no_story_by(db, username),
        forall|i: int| 0 <= i < later.len() ==> !inserts_story_by(#[trigger] later[i], username),
    ensures
        no_story_by(apply_all(db, later), username),
    decreases later.len(),
{
    if later.len() > 0 {
        assert(!inserts_story_by(later[0], username));
        let next = apply(db, later[0]);
        assert(no_story_by(next, username));
        assert forall|i: int| 0 <= i < later.drop_first().len() implies !inserts_story_by(
            #[trigger] later.drop_first()[i],
            username,
        ) by {
            assert(later.drop_first()[i] == later[i + 1]);
        }
        no_story_by_persists(next, later.drop_first(), username);
    }
}

/// No comment on story `story_id` appears through a sequence of changes that
/// inserts none on it.
pub proof fn no_comment_on_persists(db: Db, later: Seq<Change>, story_id: int)
    requires
        no_comment_on(db, story_id),
        forall|i: int| 0 <= i < later.len() ==> !inserts_comment_on(#[trigger] later[i], story_id),
    ensures
        no_comment_on(apply_all(db, later), story_id),
    decreases later.len(),
{
    if later.len() > 0 {
        assert(!inserts_comment_on(later[0], story_id));
        let next = apply(db, later[0]);
        assert(no_comment_on(next, story_id));
        assert forall|i: int| 0 <= i < later.drop_first().len() implies !inserts_comment_on(
            #[trigger] later.drop_first()[i],
            story_id,
        ) by {
            assert(later.drop_first()[i] == later[i + 1]);
        }
        no_comment_on_persists(next, later.drop_first(), story_id);
    }
}

/// A created user, with its password, is read back by every later read of all
/// users until a user of that name is deleted; its key was held by no row before.
pub proof fn created_user_stays_readable(
    db: Db,
    username: Seq<char>,
    pass: Seq<char>,
    later: Seq<Change>,
)
    requires
        keys_below_serials(db),
        forall|i: int| 0 <= i < later.len() ==> !removes_users_named(#[trigger] later[i], username),
    ensures
        !db.users.contains_key(db.next_user_id),
        select(apply_all(apply_all(db, insert_user_changes(username, pass)), later), Read::AllUsers)
            matches Rows::Users(rows) && rows.contains_key(db.next_user_id) && rows[db.next_user_id]
            == (UserRow { username, pass }),
{
    insert_user_then_read(db, username, pass);
    let created = apply_all(db, insert_user_changes(username, pass));
    apply_all_one(db, Change::InsertUser { username, pass });
    user_row_persists(created, later, db.next_user_id);
}

/// A created story is read back among its author's stories by every later
/// read until that story or its author's stories are deleted; its key was held
/// by no row before.
pub proof fn created_story_stays_readable(
    db: Db,
    username: Seq<char>,
    story_content: Seq<char>,
    later: Seq<Change>,
)
    requires
        keys_below_serials(db),
        forall|i: int| 0 <= i < later.len() ==> !removes_story(#[trigger] later[i], db.next_story_id, username),
    ensures
        !db.stories.contains_key(db.next_story_id),
        select(
            apply_all(apply_all(db, insert_story_changes(username, story_content)), later),
            Read::StoriesByUser { username },
        ) matches Rows::Stories(rows) && rows.contains_key(db.next_story_id)
            && rows[db.next_story_id] == (StoryRow { username, story_content }),
{
    insert_story_then_read(db, username, story_content);
    let created = apply_all(db, insert_story_changes(username, story_content));
    apply_all_one(db, Change::InsertStory { username, story_content });
    story_row_persists(created, later, db.next_story_id);
}

/// After a user's stories are deleted, whether alone or with the user, no
/// story of theirs is read until one is inserted again.
pub proof fn deleted_stories_stay_gone(db: Db, username: Seq<char>, later: Seq<Change>)
    requires
        forall|i: int| 0 <= i < later.len() ==> !inserts_story_by(#[trigger] later[i], username),
    ensures
        select(
            apply_all(apply_all(db, delete_stories_by_user_changes(username)), later),
            Read::StoriesByUser { username },
        ) == Rows::Stories(Map::<int, StoryRow>::empty()),
        select(
            apply_all(apply_all(db, delete_user_changes(username)), later),
            Read::StoriesByUser { username },
        ) == Rows::Stories(Map::<int, StoryRow>::empty()),
{
    delete_stories_by_user_cascades(db, username);
    delete_user_cascades(db, username);
    let a = apply_all(db, delete_stories_by_user_changes(username));
    let b = apply_all(db, delete_user_changes(username));
    assert(no_story_by(a, username));
    assert(no_story_by(b, username));
    no_story_by_persists(a, later, username);
    no_story_by_persists(b, later, username);
    let a2 = apply_all(a, later);
    let b2 = apply_all(b, later);
    assert(retain(a2.stories, |r: StoryRow| r.username == username) =~= Map::<int, StoryRow>::empty());
    assert(retain(b2.stories, |r: StoryRow| r.username == username) =~= Map::<int, StoryRow>::empty());
}

/// After a story is deleted, whether alone, with its author's stories or with
/// its author, no comment on it is read until one is inserted on it again.
pub proof fn deleted_story_comments_stay_gone(
    db: Db,
    username: Seq<char>,
    story_id: int,
    later: Seq<Change>,
)
    requires
        forall|i: int| 0 <= i < later.len() ==> !inserts_comment_on(#[trigger] later[i], story_id),
    ensures
        select(
            apply_all(apply_all(db, delete_story_changes(story_id)), later),
            Read::CommentsByStory { story_id },
        ) == Rows::Comments(Map::<int, CommentRow>::empty()),
        story_by(db, story_id, username) ==> select(
            apply_all(apply_all(db, delete_stories_by_user_changes(username)), later),
            Read::CommentsByStory { story_id },
        ) == Rows::Comments(Map::<int, CommentRow>::empty()),
        story_by(db, story_id, username) ==> select(
            apply_all(apply_all(db, delete_user_changes(username)), later),
            Read::CommentsByStory { story_id },
        ) == Rows::Comments(Map::<int, CommentRow>::empty()),
{
    delete_story_cascades(db, story_id);
    let s = apply_all(db, delete_story_changes(story_id));
    assert(no_comment_on(s, story_id));
    no_comment_on_persists(s, later, story_id);
    let s2 = apply_all(s, later);
    assert(retain(s2.comments, |c: CommentRow| c.story_id == story_id) =~= Map::<int, CommentRow>::empty());
    if story_by(db, story_id, username) {
        delete_stories_by_user_cascades(db, username);
        delete_user_cascades(db, username);
        let a = apply_all(db, delete_stories_by_user_changes(username));
        let b = apply_all(db, delete_user_changes(username));
        assert(no_comment_on(a, story_id));
        assert(no_comment_on(b, story_id));
        no_comment_on_persists(a, later, story_id);
        no_comment_on_persists(b, later, story_id);
        let a2 = apply_all(a, later);
        let b2 = apply_all(b, later);
        assert(retain(a2.comments, |c: CommentRow| c.story_id == story_id) =~= Map::<int, CommentRow>::empty());
        assert(retain(b2.comments, |c: CommentRow| c.story_id == story_id) =~= Map::<int, CommentRow>::empty());
    }
}

} // verus!
