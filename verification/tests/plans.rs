use story_api::endpoint::Request;
use story_api::handler::{index, plan_request, story_notification, Reply};
use story_api::plan::{delete_stories_by_user, delete_story, delete_user, insert_comment_to_db};
use story_api::statement::{Query, Statement};

fn sqls(statements: &[Statement]) -> Vec<&'static str> {
    statements.iter().map(|s| s.sql()).collect()
}

#[test]
fn index_greets() {
    assert_eq!(index(), "This endpoint does nothing, try out the other endpoints.");
}

#[test]
fn delete_story_removes_comments_first() {
    let plan = delete_story(9);
    assert_eq!(plan.len(), 2);
    assert!(matches!(plan[0], Statement::DeleteCommentsOnStory { story_id: 9 }));
    assert!(matches!(plan[1], Statement::DeleteStory { story_id: 9 }));
    assert_eq!(
        sqls(&plan),
        vec!["DELETE FROM comment WHERE story_id = $1", "DELETE FROM story WHERE story_id = $1"]
    );
}

#[test]
fn delete_stories_by_user_removes_their_comments_first() {
    let plan = delete_stories_by_user("ann".to_string());
    assert_eq!(
        sqls(&plan),
        vec![
            "DELETE FROM comment WHERE story_id IN (SELECT story_id FROM story WHERE username = $1)",
            "DELETE FROM story WHERE username = $1",
        ]
    );
    match &plan[0] {
        Statement::DeleteCommentsOnStoriesByUser { username } => assert_eq!(username, "ann"),
        _ => panic!("wrong first statement"),
    }
}

#[test]
fn delete_user_cascades_in_order() {
    let plan = delete_user("ann".to_string());
    assert_eq!(
        sqls(&plan),
        vec![
            "DELETE FROM comment WHERE username = $1",
            "DELETE FROM comment WHERE story_id IN (SELECT story_id FROM story WHERE username = $1)",
            "DELETE FROM story WHERE username = $1",
            "DELETE FROM users WHERE username = $1",
        ]
    );
    for s in plan.iter() {
        match s {
            Statement::DeleteCommentsByUser { username }
            | Statement::DeleteCommentsOnStoriesByUser { username }
            | Statement::DeleteStoriesByUser { username }
            | Statement::DeleteUsersNamed { username } => assert_eq!(username, "ann"),
            _ => panic!("unexpected statement"),
        }
    }
}

#[test]
fn insert_comment_binds_its_values() {
    let plan = insert_comment_to_db(5, "bob".to_string(), "nice".to_string());
    assert_eq!(plan.len(), 1);
    match &plan[0] {
        Statement::InsertComment { story_id, username, comment_content } => {
            assert_eq!(*story_id, 5);
            assert_eq!(username, "bob");
            assert_eq!(comment_content, "nice");
        },
        _ => panic!("unexpected statement"),
    }
    assert_eq!(
        plan[0].sql(),
        "insert into comment (story_id, username, comment_content) values ($1, $2, $3)"
    );
}

#[test]
fn story_notification_posts_the_author_as_json() {
    let n = story_notification(&"ann".to_string());
    assert_eq!(n.program, "curl");
    assert_eq!(
        n.args,
        vec![
            "-d".to_string(),
            "{\"username\":\"ann\"}".to_string(),
            "-H".to_string(),
            "Content-Type: application/json".to_string(),
            "https://en9l94zz8cpcg.x.pipedream.net/".to_string(),
        ]
    );
}

#[test]
fn story_notification_body_is_valid_json() {
    for name in ["ann", "o'neil", "say \"hi\"", "back\\slash", "tab\there", "bell\u{7}", "\u{1f}x\n\r\u{8}\u{c}", "é✓"] {
        let n = story_notification(&name.to_string());
        let expected = format!("{{\"username\":{}}}", serde_json::to_string(name).unwrap());
        assert_eq!(n.args[1], expected, "{:?}", name);
        let parsed: serde_json::Value = serde_json::from_str(&n.args[1]).unwrap();
        assert_eq!(parsed["username"], serde_json::Value::String(name.to_string()));
    }
}

#[test]
fn create_story_inserts_then_notifies_and_succeeds() {
    let plan = plan_request(Request::CreateStory {
        username: "ann".to_string(),
        content: "once upon a time".to_string(),
    });
    assert_eq!(
        sqls(&plan.statements),
        vec!["insert into story (username, story_content) values ($1, $2)"]
    );
    match &plan.statements[0] {
        Statement::InsertStory { username, story_content } => {
            assert_eq!(username, "ann");
            assert_eq!(story_content, "once upon a time");
        },
        _ => panic!("unexpected statement"),
    }
    let n = plan.notification.expect("a notification");
    assert_eq!(n.args[1], "{\"username\":\"ann\"}");
    assert!(matches!(plan.reply, Reply::Message("Success")));
}

#[test]
fn create_user_succeeds_without_notification() {
    let plan = plan_request(Request::CreateUser {
        username: "ann".to_string(),
        password: "pw".to_string(),
    });
    assert_eq!(sqls(&plan.statements), vec!["insert into users (username, pass) values ($1, $2)"]);
    assert!(plan.notification.is_none());
    assert!(matches!(plan.reply, Reply::Message("Success")));
}

#[test]
fn reads_change_nothing_and_reply_with_rows() {
    let plan = plan_request(Request::GetAllUsers);
    assert!(plan.statements.is_empty());
    match plan.reply {
        Reply::Rows(q) => {
            assert!(matches!(q, Query::AllUsers));
            assert_eq!(q.sql(), "select * from users");
        },
        _ => panic!("expected rows"),
    }
    let plan = plan_request(Request::GetCommentsByStory { story_id: 4 });
    assert!(plan.statements.is_empty());
    match plan.reply {
        Reply::Rows(q) => {
            assert!(matches!(q, Query::CommentsByStory { story_id: 4 }));
            assert_eq!(q.sql(), "select * from comment where story_id = $1");
        },
        _ => panic!("expected rows"),
    }
    let plan = plan_request(Request::GetStoriesByUser { username: "ann".to_string() });
    match plan.reply {
        Reply::Rows(Query::StoriesByUser { username }) => assert_eq!(username, "ann"),
        _ => panic!("expected rows"),
    }
    let plan = plan_request(Request::GetCommentsByUser { username: "ann".to_string() });
    match plan.reply {
        Reply::Rows(q) => assert_eq!(q.sql(), "select * from comment where username = $1"),
        _ => panic!("expected rows"),
    }
}

#[test]
fn index_request_replies_greeting() {
    let plan = plan_request(Request::Index);
    assert!(plan.statements.is_empty());
    assert!(plan.notification.is_none());
    match plan.reply {
        Reply::Message(m) => assert_eq!(m, index()),
        _ => panic!("expected a message"),
    }
}

#[test]
fn deletions_by_request() {
    let plan = plan_request(Request::DeleteUser { username: "ann".to_string() });
    assert_eq!(plan.statements.len(), 4);
    assert!(matches!(plan.reply, Reply::Message("Success")));
    let plan = plan_request(Request::DeleteComment { comment_id: 8 });
    assert!(matches!(plan.statements[..], [Statement::DeleteComment { comment_id: 8 }]));
    assert_eq!(plan.statements[0].sql(), "DELETE FROM comment WHERE comment_id = $1");
    let plan = plan_request(Request::DeleteAllStoryComments { story_id: 2 });
    assert!(matches!(plan.statements[..], [Statement::DeleteCommentsOnStory { story_id: 2 }]));
    let plan = plan_request(Request::DeleteCommentsByUser { username: "ann".to_string() });
    assert_eq!(plan.statements[0].sql(), "DELETE FROM comment WHERE username = $1");
    let plan = plan_request(Request::DeleteStory { story_id: 2 });
    assert_eq!(plan.statements.len(), 2);
    let plan = plan_request(Request::DeleteStoriesByUser { username: "ann".to_string() });
    assert_eq!(plan.statements.len(), 2);
    let plan = plan_request(Request::CreateComment {
        story_id: 1,
        username: "a".to_string(),
        content: "b".to_string(),
    });
    assert_eq!(plan.statements.len(), 1);
    assert!(plan.notification.is_none());
}
