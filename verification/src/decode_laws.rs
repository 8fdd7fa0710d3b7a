//! How each endpoint reads its form, stated from the field names as sent:
//! which request a form gives when its fields are there, and which field is
//! reported when one is missing or is not a number.
use vstd::prelude::*;

use crate::endpoint::{decoded, endpoint_fields, field_name, DecodeError, Endpoint, Field, RequestModel};
use crate::form::{first_text, FormEntry};
use crate::number::parse_i32;

verus! {

/// Creating a user takes the name from the field "username" and the password
/// from the field "password", in that order.
pub proof fn create_user_reads_its_fields(e: Seq<FormEntry>, u: Seq<char>, p: Seq<char>)
    ensures
        first_text(e, "username"@) == Some(u) && first_text(e, "password"@) == Some(p)
            ==> decoded(Endpoint::CreateUser, e) == Ok::<RequestModel, DecodeError>(
            RequestModel::CreateUser { username: u, password: p },
        ),
        first_text(e, "username"@) is None ==> decoded(Endpoint::CreateUser, e) == Err::<
            RequestModel,
            DecodeError,
        >(DecodeError::Missing(Field::Username)),
        first_text(e, "username"@) is Some && first_text(e, "password"@) is None ==> decoded(
            Endpoint::CreateUser,
            e,
        ) == Err::<RequestModel, DecodeError>(DecodeError::Missing(Field::Password)),
{
}

/// Creating a story takes the author from the field "username" and the
/// content from the field "content", in that order.
pub proof fn create_story_reads_its_fields(e: Seq<FormEntry>, u: Seq<char>, c: Seq<char>)
    ensures
        first_text(e, "username"@) == Some(u) && first_text(e, "content"@) == Some(c)
            ==> decoded(Endpoint::CreateStory, e) == Ok::<RequestModel, DecodeError>(
            RequestModel::CreateStory { username: u, content: c },
        ),
        first_text(e, "username"@) is None ==> decoded(Endpoint::CreateStory, e) == Err::<
            RequestModel,
            DecodeError,
        >(DecodeError::Missing(Field::Username)),
        first_text(e, "username"@) is Some && first_text(e, "content"@) is None ==> decoded(
            Endpoint::CreateStory,
            e,
        ) == Err::<RequestModel, DecodeError>(DecodeError::Missing(Field::Content)),
{
}

/// Creating a comment takes the story's key from the field "story_id", read
/// as a decimal number, then the author from "username", then the content
/// from "content".
pub proof fn create_comment_reads_its_fields(
    e: Seq<FormEntry>,
    t: Seq<char>,
    id: i32,
    u: Seq<char>,
    c: Seq<char>,
)
    ensures
        first_text(e, "story_id"@) == Some(t) && parse_i32(t) == Some(id) && first_text(
            e,
            "username"@,
        ) == Some(u) && first_text(e, "content"@) == Some(c) ==> decoded(
            Endpoint::CreateComment,
            e,
        ) == Ok::<RequestModel, DecodeError>(
            RequestModel::CreateComment { story_id: id, username: u, content: c },
        ),
        first_text(e, "story_id"@) is None ==> decoded(Endpoint::CreateComment, e) == Err::<
            RequestModel,
            DecodeError,
        >(DecodeError::Missing(Field::StoryId)),
        first_text(e, "story_id"@) == Some(t) && parse_i32(t) is None ==> decoded(
            Endpoint::CreateComment,
            e,
        ) == Err::<RequestModel, DecodeError>(DecodeError::NotAnInteger(Field::StoryId)),
        first_text(e, "story_id"@) == Some(t) && parse_i32(t) is Some && first_text(
            e,
            "username"@,
        ) is None ==> decoded(Endpoint::CreateComment, e) == Err::<RequestModel, DecodeError>(
            DecodeError::Missing(Field::Username),
        ),
        first_text(e, "story_id"@) == Some(t) && parse_i32(t) is Some && first_text(
            e,
            "username"@,
        ) is Some && first_text(e, "content"@) is None ==> decoded(Endpoint::CreateComment, e)
            == Err::<RequestModel, DecodeError>(DecodeError::Missing(Field::Content)),
{
}

/// The endpoints that name a user take it from the field "username".
pub proof fn user_endpoints_read_username(e: Seq<FormEntry>, u: Seq<char>)
    ensures
        first_text(e, "username"@) == Some(u) ==> {
            &&& decoded(Endpoint::DeleteUser, e) == Ok::<RequestModel, DecodeError>(
                RequestModel::DeleteUser { username: u },
            )
            &&& decoded(Endpoint::GetStoriesByUser, e) == Ok::<RequestModel, DecodeError>(
                RequestModel::GetStoriesByUser { username: u },
            )
            &&& decoded(Endpoint::DeleteStoriesByUser, e) == Ok::<RequestModel, DecodeError>(
                RequestModel::DeleteStoriesByUser { username: u },
            )
            &&& decoded(Endpoint::GetCommentsByUser, e) == Ok::<RequestModel, DecodeError>(
                RequestModel::GetCommentsByUser { username: u },
            )
            &&& decoded(Endpoint::DeleteCommentsByUser, e) == Ok::<RequestModel, DecodeError>(
                RequestModel::DeleteCommentsByUser { username: u },
            )
        },
        first_text(e, "username"@) is None ==> {
            &&& decoded(Endpoint::DeleteUser, e) == Err::<RequestModel, DecodeError>(
                DecodeError::Missing(Field::Username),
            )
            &&& decoded(Endpoint::GetStoriesByUser, e) == Err::<RequestModel, DecodeError>(
                DecodeError::Missing(Field::Username),
            )
            &&& decoded(Endpoint::DeleteStoriesByUser, e) == Err::<RequestModel, DecodeError>(
                DecodeError::Missing(Field::Username),
            )
            &&& decoded(Endpoint::GetCommentsByUser, e) == Err::<RequestModel, DecodeError>(
                DecodeError::Missing(Field::Username),
            )
            &&& decoded(Endpoint::DeleteCommentsByUser, e) == Err::<RequestModel, DecodeError>(
                DecodeError::Missing(Field::Username),
            )
        },
{
}

/// The endpoints that name a story take its key from the field "story_id",
/// and deleting a comment takes its key from "comment_id", read as decimal numbers.
pub proof fn key_endpoints_read_their_key(e: Seq<FormEntry>, t: Seq<char>, id: i32)
    ensures
        first_text(e, "story_id"@) == Some(t) && parse_i32(t) == Some(id) ==> {
            &&& decoded(Endpoint::DeleteStory, e) == Ok::<RequestModel, DecodeError>(
                RequestModel::DeleteStory { story_id: id },
            )
            &&& decoded(Endpoint::GetCommentsByStory, e) == Ok::<RequestModel, DecodeError>(
                RequestModel::GetCommentsByStory { story_id: id },
            )
            &&& decoded(Endpoint::DeleteAllStoryComments, e) == Ok::<RequestModel, DecodeError>(
                RequestModel::DeleteAllStoryComments { story_id: id },
            )
        },
        first_text(e, "story_id"@) == Some(t) && parse_i32(t) is None ==> {
            &&& decoded(Endpoint::DeleteStory, e) == Err::<RequestModel, DecodeError>(
                DecodeError::NotAnInteger(Field::StoryId),
            )
            &&& decoded(Endpoint::GetCommentsByStory, e) == Err::<RequestModel, DecodeError>(
                DecodeError::NotAnInteger(Field::StoryId),
            )
            &&& decoded(Endpoint::DeleteAllStoryComments, e) == Err::<RequestModel, DecodeError>(
                DecodeError::NotAnInteger(Field::StoryId),
            )
        },
        first_text(e, "story_id"@) is None ==> {
            &&& decoded(Endpoint::DeleteStory, e) == Err::<RequestModel, DecodeError>(
                DecodeError::Missing(Field::StoryId),
            )
            &&& decoded(Endpoint::GetCommentsByStory, e) == Err::<RequestModel, DecodeError>(
                DecodeError::Missing(Field::StoryId),
            )
            &&& decoded(Endpoint::DeleteAllStoryComments, e) == Err::<RequestModel, DecodeError>(
                DecodeError::Missing(Field::StoryId),
            )
        },
        first_text(e, "comment_id"@) == Some(t) && parse_i32(t) == Some(id) ==> decoded(
            Endpoint::DeleteComment,
            e,
        ) == Ok::<RequestModel, DecodeError>(RequestModel::DeleteComment { comment_id: id }),
        first_text(e, "comment_id"@) == Some(t) && parse_i32(t) is None ==> decoded(
            Endpoint::DeleteComment,
            e,
        ) == Err::<RequestModel, DecodeError>(DecodeError::NotAnInteger(Field::CommentId)),
        first_text(e, "comment_id"@) is None ==> decoded(Endpoint::DeleteComment, e) == Err::<
            RequestModel,
            DecodeError,
        >(DecodeError::Missing(Field::CommentId)),
{
}

/// The root and the list of all users read no form.
pub proof fn formless_endpoints_read_nothing(e: Seq<FormEntry>)
    ensures
        decoded(Endpoint::Index, e) == Ok::<RequestModel, DecodeError>(RequestModel::Index),
        decoded(Endpoint::GetAllUsers, e) == Ok::<RequestModel, DecodeError>(
            RequestModel::GetAllUsers,
        ),
{
}

/// Every field in the list is sent, and a key field holds a decimal `i32`.
pub open spec fn fields_readable(e: Seq<FormEntry>, fields: Seq<Field>) -> bool {
    forall|i: int|
        0 <= i < fields.len() ==> (first_text(e, field_name(#[trigger] fields[i])) matches Some(t)
            && ((fields[i] == Field::StoryId || fields[i] == Field::CommentId) ==> parse_i32(t) is Some))
}

/// The fields that an endpoint lists are the ones its form is read by: when
/// all of them are sent and readable the form gives a request, and a field
/// that is reported missing or not a number is one that the endpoint lists.
pub proof fn endpoint_reads_exactly_its_fields(endpoint: Endpoint, e: Seq<FormEntry>)
    ensures
        fields_readable(e, endpoint_fields(endpoint)) ==> decoded(endpoint, e) is Ok,
        decoded(endpoint, e) matches Err(DecodeError::Missing(f)) ==> endpoint_fields(
            endpoint,
        ).contains(f),
        decoded(endpoint, e) matches Err(DecodeError::NotAnInteger(f)) ==> endpoint_fields(
            endpoint,
        ).contains(f),
{
    let fields = endpoint_fields(endpoint);
    if fields.len() > 0 {
        assert(fields[0] == fields[0]);
    }
    if fields.len() > 1 {
        assert(fields[1] == fields[1]);
    }
    if fields.len() > 2 {
        assert(fields[2] == fields[2]);
    }
}

} // verus!
