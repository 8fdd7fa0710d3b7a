use story_api::endpoint::{decode, DecodeError, Endpoint, Field, Request};
use story_api::form::{Form, FormEntry};
use story_api::number::parse_id;

fn form(pairs: &[(&str, &[&str])]) -> Form {
    Form {
        entries: pairs
            .iter()
            .map(|(name, values)| FormEntry {
                name: name.to_string(),
                values: values.iter().map(|v| v.to_string()).collect(),
            })
            .collect(),
    }
}

#[test]
fn parse_id_reads_plain_and_signed_numbers() {
    assert_eq!(parse_id("42"), Some(42));
    assert_eq!(parse_id("0"), Some(0));
    assert_eq!(parse_id("-7"), Some(-7));
    assert_eq!(parse_id("+5"), Some(5));
    assert_eq!(parse_id("007"), Some(7));
    assert_eq!(parse_id("2147483647"), Some(i32::MAX));
    assert_eq!(parse_id("-2147483648"), Some(i32::MIN));
}

#[test]
fn parse_id_refuses_what_is_not_a_decimal_i32() {
    assert_eq!(parse_id(""), None);
    assert_eq!(parse_id("-"), None);
    assert_eq!(parse_id("+"), None);
    assert_eq!(parse_id("12a"), None);
    assert_eq!(parse_id(" 1"), None);
    assert_eq!(parse_id("1 "), None);
    assert_eq!(parse_id("--1"), None);
    assert_eq!(parse_id("+-1"), None);
    assert_eq!(parse_id("2147483648"), None);
    assert_eq!(parse_id("-2147483649"), None);
    assert_eq!(parse_id("99999999999999999999"), None);
    assert_eq!(parse_id("\u{0663}"), None);
}

#[test]
fn parse_id_agrees_with_std() {
    let samples = [
        "1", "-1", "+1", "", "x", "12x", "x12", "2147483647", "2147483648", "-2147483648",
        "-2147483649", "0000000000002147483647", "-0", "+0", "- 1", "1_000", "1.0",
        "4294967296", "-4294967296", "123456789012",
    ];
    for s in samples.iter() {
        assert_eq!(parse_id(s), s.parse::<i32>().ok(), "{:?}", s);
    }
}

#[test]
fn form_text_takes_first_value_of_first_entry() {
    let f = form(&[("username", &["ann", "bob"]), ("username", &["carl"])]);
    assert_eq!(f.text("username"), Some("ann".to_string()));
    assert_eq!(f.text("password"), None);
    let empty = form(&[("username", &[]), ("username", &["carl"])]);
    assert_eq!(empty.text("username"), None);
}

#[test]
fn decode_create_user() {
    let f = form(&[("password", &["pw"]), ("username", &["ann"])]);
    match decode(Endpoint::CreateUser, &f) {
        Ok(Request::CreateUser { username, password }) => {
            assert_eq!(username, "ann");
            assert_eq!(password, "pw");
        },
        _ => panic!("expected a CreateUser request"),
    }
}

#[test]
fn decode_reports_first_missing_field() {
    let f = form(&[]);
    assert!(matches!(
        decode(Endpoint::CreateUser, &f),
        Err(DecodeError::Missing(Field::Username))
    ));
    let f = form(&[("username", &["ann"])]);
    assert!(matches!(
        decode(Endpoint::CreateUser, &f),
        Err(DecodeError::Missing(Field::Password))
    ));
    assert!(matches!(
        decode(Endpoint::CreateStory, &f),
        Err(DecodeError::Missing(Field::Content))
    ));
}

#[test]
fn decode_create_comment_reads_story_id_first() {
    let f = form(&[("username", &["ann"]), ("content", &["hi"]), ("story_id", &["x"])]);
    assert!(matches!(
        decode(Endpoint::CreateComment, &f),
        Err(DecodeError::NotAnInteger(Field::StoryId))
    ));
    let f = form(&[("story_id", &["3"]), ("content", &["hi"])]);
    assert!(matches!(
        decode(Endpoint::CreateComment, &f),
        Err(DecodeError::Missing(Field::Username))
    ));
    let f = form(&[("story_id", &["3"]), ("username", &["ann"]), ("content", &["hi"])]);
    match decode(Endpoint::CreateComment, &f) {
        Ok(Request::CreateComment { story_id, username, content }) => {
            assert_eq!(story_id, 3);
            assert_eq!(username, "ann");
            assert_eq!(content, "hi");
        },
        _ => panic!("expected a CreateComment request"),
    }
}

#[test]
fn decode_id_endpoints() {
    let f = form(&[("story_id", &["17"]), ("comment_id", &["-4"])]);
    assert!(matches!(decode(Endpoint::DeleteStory, &f), Ok(Request::DeleteStory { story_id: 17 })));
    assert!(matches!(
        decode(Endpoint::GetCommentsByStory, &f),
        Ok(Request::GetCommentsByStory { story_id: 17 })
    ));
    assert!(matches!(
        decode(Endpoint::DeleteAllStoryComments, &f),
        Ok(Request::DeleteAllStoryComments { story_id: 17 })
    ));
    assert!(matches!(
        decode(Endpoint::DeleteComment, &f),
        Ok(Request::DeleteComment { comment_id: -4 })
    ));
    let bad = form(&[("comment_id", &["2147483648"])]);
    assert!(matches!(
        decode(Endpoint::DeleteComment, &bad),
        Err(DecodeError::NotAnInteger(Field::CommentId))
    ));
    assert!(matches!(
        decode(Endpoint::DeleteStory, &bad),
        Err(DecodeError::Missing(Field::StoryId))
    ));
}

#[test]
fn decode_username_endpoints() {
    let f = form(&[("username", &["ann"])]);
    for endpoint in [
        Endpoint::DeleteUser,
        Endpoint::GetStoriesByUser,
        Endpoint::DeleteStoriesByUser,
        Endpoint::GetCommentsByUser,
        Endpoint::DeleteCommentsByUser,
    ] {
        let username = match decode(endpoint, &f) {
            Ok(Request::DeleteUser { username })
            | Ok(Request::GetStoriesByUser { username })
            | Ok(Request::DeleteStoriesByUser { username })
            | Ok(Request::GetCommentsByUser { username })
            | Ok(Request::DeleteCommentsByUser { username }) => username,
            _ => panic!("unexpected outcome for {:?}", endpoint),
        };
        assert_eq!(username, "ann");
    }
    let none = form(&[]);
    assert!(matches!(decode(Endpoint::GetAllUsers, &none), Ok(Request::GetAllUsers)));
    assert!(matches!(decode(Endpoint::Index, &none), Ok(Request::Index)));
    assert!(matches!(
        decode(Endpoint::DeleteUser, &none),
        Err(DecodeError::Missing(Field::Username))
    ));
}

#[test]
fn endpoints_paths_and_fields() {
    assert_eq!(Endpoint::Index.mount_path(), "/");
    assert_eq!(Endpoint::CreateUser.mount_path(), "/create_user");
    assert_eq!(Endpoint::DeleteAllStoryComments.mount_path(), "/delete_all_story_comments");
    assert_eq!(Endpoint::GetCommentsByStory.mount_path(), "/get_comments_by_story");
    assert_eq!(Endpoint::CreateComment.form_fields(), vec![Field::StoryId, Field::Username, Field::Content]);
    assert_eq!(Endpoint::CreateUser.form_fields(), vec![Field::Username, Field::Password]);
    assert_eq!(Endpoint::GetAllUsers.form_fields(), vec![]);
    assert_eq!(Endpoint::DeleteComment.form_fields(), vec![Field::CommentId]);
    assert_eq!(Field::StoryId.name(), "story_id");
    assert_eq!(Field::CommentId.name(), "comment_id");
    assert_eq!(Field::Content.name(), "content");
}
