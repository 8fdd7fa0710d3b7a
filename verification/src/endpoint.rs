//! The service's endpoints: where each is mounted, the form fields it reads,
//! and how a submitted form becomes a request.
use vstd::prelude::*;

use crate::form::{first_text, Form, FormEntry};
use crate::number::{parse_i32, parse_id};

verus! {

/// A form field that some endpoint reads.
#[derive(Clone, Copy, PartialEq, Eq, Structural, Debug)]
pub enum Field {
    Username,
    Password,
    Content,
    StoryId,
    CommentId,
}

pub open spec fn field_name(field: Field) -> Seq<char> {
    match field {
        Field::Username => "username"@,
        Field::Password => "password"@,
        Field::Content => "content"@,
        Field::StoryId => "story_id"@,
        Field::CommentId => "comment_id"@,
    }
}

impl Field {
    /// The name under which the field is sent.
    pub fn name(&self) -> (name: &'static str)
        ensures
            name@ == field_name(*self),
    {
        match self {
            Field::Username => "username",
            Field::Password => "password",
            Field::Content => "content",
            Field::StoryId => "story_id",
            Field::CommentId => "comment_id",
        }
    }
}

/// An endpoint of the service.
#[derive(Clone, Copy, PartialEq, Eq, Structural, Debug)]
pub enum Endpoint {
    Index,
    CreateUser,
    GetAllUsers,
    DeleteUser,
    GetStoriesByUser,
    CreateStory,
    DeleteStory,
    DeleteStoriesByUser,
    GetCommentsByStory,
    GetCommentsByUser,
    CreateComment,
    DeleteCommentsByUser,
    DeleteComment,
    DeleteAllStoryComments,
}

/// The path at which an endpoint is mounted.
pub open spec fn endpoint_path(endpoint: Endpoint) -> Seq<char> {
    match endpoint {
        Endpoint::Index => "/"@,
        Endpoint::CreateUser => "/create_user"@,
        Endpoint::GetAllUsers => "/get_all_users"@,
        Endpoint::DeleteUser => "/delete_user"@,
        Endpoint::GetStoriesByUser => "/get_stories_by_user"@,
        Endpoint::CreateStory => "/create_story"@,
        Endpoint::DeleteStory => "/delete_story"@,
        Endpoint::DeleteStoriesByUser => "/delete_stories_by_user"@,
        Endpoint::GetCommentsByStory => "/get_comments_by_story"@,
        Endpoint::GetCommentsByUser => "/get_comments_by_user"@,
        Endpoint::CreateComment => "/create_comment"@,
        Endpoint::DeleteCommentsByUser => "/delete_comments_by_user"@,
        Endpoint::DeleteComment => "/delete_comment"@,
        Endpoint::DeleteAllStoryComments => "/delete_all_story_comments"@,
    }
}

/// The form fields that an endpoint reads, in the order in which it reads them.
pub open spec fn endpoint_fields(endpoint: Endpoint) -> Seq<Field> {
    match endpoint {
        Endpoint::Index | Endpoint::GetAllUsers => seq![],
        Endpoint::CreateUser => seq![Field::Username, Field::Password],
        Endpoint::DeleteUser | Endpoint::GetStoriesByUser | Endpoint::DeleteStoriesByUser
        | Endpoint::GetCommentsByUser | Endpoint::DeleteCommentsByUser => seq![Field::Username],
        Endpoint::CreateStory => seq![Field::Username, Field::Content],
        Endpoint::DeleteStory | Endpoint::GetCommentsByStory | Endpoint::DeleteAllStoryComments =>
            seq![Field::StoryId],
        Endpoint::CreateComment => seq![Field::StoryId, Field::Username, Field::Content],
        Endpoint::DeleteComment => seq![Field::CommentId],
    }
}

impl Endpoint {
    /// The path at which the endpoint is mounted.
    pub fn mount_path(&self) -> (path: &'static str)
        ensures
            path@ == endpoint_path(*self),
    {
        match self {
            Endpoint::Index => "/",
            Endpoint::CreateUser => "/create_user",
            Endpoint::GetAllUsers => "/get_all_users",
            Endpoint::DeleteUser => "/delete_user",
            Endpoint::GetStoriesByUser => "/get_stories_by_user",
            Endpoint::CreateStory => "/create_story",
            Endpoint::DeleteStory => "/delete_story",
            Endpoint::DeleteStoriesByUser => "/delete_stories_by_user",
            Endpoint::GetCommentsByStory => "/get_comments_by_story",
            Endpoint::GetCommentsByUser => "/get_comments_by_user",
            Endpoint::CreateComment => "/create_comment",
            Endpoint::DeleteCommentsByUser => "/delete_comments_by_user",
            Endpoint::DeleteComment => "/delete_comment",
            Endpoint::DeleteAllStoryComments => "/delete_all_story_comments",
        }
    }

    /// The form fields that the endpoint reads, in the order in which it reads them.
    pub fn form_fields(&self) -> (fields: Vec<Field>)
        ensures
            fields@ == endpoint_fields(*self),
    {
        let mut fields: Vec<Field> = Vec::new();
        match self {
            Endpoint::Index | Endpoint::GetAllUsers => {},
            Endpoint::CreateUser => {
                fields.push(Field::Username);
                fields.push(Field::Password);
            },
            Endpoint::DeleteUser | Endpoint::GetStoriesByUser | Endpoint::DeleteStoriesByUser
            | Endpoint::GetCommentsByUser | Endpoint::DeleteCommentsByUser => {
                fields.push(Field::Username);
            },
            Endpoint::CreateStory => {
                fields.push(Field::Username);
                fields.push(Field::Content);
            },
            Endpoint::DeleteStory | Endpoint::GetCommentsByStory
            | Endpoint::DeleteAllStoryComments => {
                fields.push(Field::StoryId);
            },
            Endpoint::CreateComment => {
                fields.push(Field::StoryId);
                fields.push(Field::Username);
                fields.push(Field::Content);
            },
            Endpoint::DeleteComment => {
                fields.push(Field::CommentId);
            },
        }
        assert(fields@ =~= endpoint_fields(*self));
        fields
    }
}

/// A request with the values read from its form.
pub enum Request {
    Index,
    CreateUser { username: String, password: String },
    GetAllUsers,
    DeleteUser { username: String },
    GetStoriesByUser { username: String },
    CreateStory { username: String, content: String },
    DeleteStory { story_id: i32 },
    DeleteStoriesByUser { username: String },
    GetCommentsByStory { story_id: i32 },
    GetCommentsByUser { username: String },
    CreateComment { story_id: i32, username: String, content: String },
    DeleteCommentsByUser { username: String },
    DeleteComment { comment_id: i32 },
    DeleteAllStoryComments { story_id: i32 },
}

/// A request with its texts as sequences of characters.
pub enum RequestModel {
    Index,
    CreateUser { username: Seq<char>, password: Seq<char> },
    GetAllUsers,
    DeleteUser { username: Seq<char> },
    GetStoriesByUser { username: Seq<char> },
    CreateStory { username: Seq<char>, content: Seq<char> },
    DeleteStory { story_id: i32 },
    DeleteStoriesByUser { username: Seq<char> },
    GetCommentsByStory { story_id: i32 },
    GetCommentsByUser { username: Seq<char> },
    CreateComment { story_id: i32, username: Seq<char>, content: Seq<char> },
    DeleteCommentsByUser { username: Seq<char> },
    DeleteComment { comment_id: i32 },
    DeleteAllStoryComments { story_id: i32 },
}

impl View for Request {
    type V = RequestModel;

    open spec fn view(&self) -> RequestModel {
        match self {
            Request::Index => RequestModel::Index,
            Request::CreateUser { username, password } => RequestModel::CreateUser {
                username: username@,
                password: password@,
            },
            Request::GetAllUsers => RequestModel::GetAllUsers,
            Request::DeleteUser { username } => RequestModel::DeleteUser { username: username@ },
            Request::GetStoriesByUser { username } => RequestModel::GetStoriesByUser {
                username: username@,
            },
            Request::CreateStory { username, content } => RequestModel::CreateStory {
                username: username@,
                content: content@,
            },
            Request::DeleteStory { story_id } => RequestModel::DeleteStory { story_id: *story_id },
            Request::DeleteStoriesByUser { username } => RequestModel::DeleteStoriesByUser {
                username: username@,
            },
            Request::GetCommentsByStory { story_id } => RequestModel::GetCommentsByStory {
                story_id: *story_id,
            },
            Request::GetCommentsByUser { username } => RequestModel::GetCommentsByUser {
                username: username@,
            },
            Request::CreateComment { story_id, username, content } => RequestModel::CreateComment {
                story_id: *story_id,
                username: username@,
                content: content@,
            },
            Request::DeleteCommentsByUser { username } => RequestModel::DeleteCommentsByUser {
                username: username@,
            },
            Request::DeleteComment { comment_id } => RequestModel::DeleteComment {
                comment_id: *comment_id,
            },
            Request::DeleteAllStoryComments { story_id } => RequestModel::DeleteAllStoryComments {
                story_id: *story_id,
            },
        }
    }
}

/// Why a form could not be read.
#[derive(Clone, Copy, PartialEq, Eq, Structural, Debug)]
pub enum DecodeError {
    /// The field was not sent, or was sent with no text.
    Missing(Field),
    /// The field's text is not a decimal `i32`.
    NotAnInteger(Field),
}

/// The text of a field that must be present.
pub open spec fn text_field(entries: Seq<FormEntry>, field: Field) -> Result<Seq<char>, DecodeError> {
    match first_text(entries, field_name(field)) {
        Some(text) => Ok(text),
        None => Err(DecodeError::Missing(field)),
    }
}

/// The integer in a field that must be present.
pub open spec fn id_field(entries: Seq<FormEntry>, field: Field) -> Result<i32, DecodeError> {
    match first_text(entries, field_name(field)) {
        Some(text) => match parse_i32(text) {
            Some(id) => Ok(id),
            None => Err(DecodeError::NotAnInteger(field)),
        },
        None => Err(DecodeError::Missing(field)),
    }
}

/// The request that a form sent to an endpoint makes, or the first field,
/// in the endpoint's reading order, that could not be read.
pub open spec fn decoded(endpoint: Endpoint, entries: Seq<FormEntry>) -> Result<
    RequestModel,
    DecodeError,
> {
    match endpoint {
        Endpoint::Index => Ok(RequestModel::Index),
        Endpoint::GetAllUsers => Ok(RequestModel::GetAllUsers),
        Endpoint::CreateUser => match text_field(entries, Field::Username) {
            Err(e) => Err(e),
            Ok(username) => match text_field(entries, Field::Password) {
                Err(e) => Err(e),
                Ok(password) => Ok(RequestModel::CreateUser { username, password }),
            },
        },
        Endpoint::DeleteUser => match text_field(entries, Field::Username) {
            Err(e) => Err(e),
            Ok(username) => Ok(RequestModel::DeleteUser { username }),
        },
        Endpoint::GetStoriesByUser => match text_field(entries, Field::Username) {
            Err(e) => Err(e),
            Ok(username) => Ok(RequestModel::GetStoriesByUser { username }),
        },
        Endpoint::CreateStory => match text_field(entries, Field::Username) {
            Err(e) => Err(e),
            Ok(username) => match text_field(entries, Field::Content) {
                Err(e) => Err(e),
                Ok(content) => Ok(RequestModel::CreateStory { username, content }),
            },
        },
        Endpoint::DeleteStory => match id_field(entries, Field::StoryId) {
            Err(e) => Err(e),
            Ok(story_id) => Ok(RequestModel::DeleteStory { story_id }),
        },
        Endpoint::DeleteStoriesByUser => match text_field(entries, Field::Username) {
            Err(e) => Err(e),
            Ok(username) => Ok(RequestModel::DeleteStoriesByUser { username }),
        },
        Endpoint::GetCommentsByStory => match id_field(entries, Field::StoryId) {
            Err(e) => Err(e),
            Ok(story_id) => Ok(RequestModel::GetCommentsByStory { story_id }),
        },
        Endpoint::GetCommentsByUser => match text_field(entries, Field::Username) {
            Err(e) => Err(e),
            Ok(username) => Ok(RequestModel::GetCommentsByUser { username }),
        },
        Endpoint::CreateComment => match id_field(entries, Field::StoryId) {
            Err(e) => Err(e),
            Ok(story_id) => match text_field(entries, Field::Username) {
                Err(e) => Err(e),
                Ok(username) => match text_field(entries, Field::Content) {
                    Err(e) => Err(e),
                    Ok(content) => Ok(RequestModel::CreateComment { story_id, username, content }),
                },
            },
        },
        Endpoint::DeleteCommentsByUser => match text_field(entries, Field::Username) {
            Err(e) => Err(e),
            Ok(username) => Ok(RequestModel::DeleteCommentsByUser { username }),
        },
        Endpoint::DeleteComment => match id_field(entries, Field::CommentId) {
            Err(e) => Err(e),
            Ok(comment_id) => Ok(RequestModel::DeleteComment { comment_id }),
        },
        Endpoint::DeleteAllStoryComments => match id_field(entries, Field::StoryId) {
            Err(e) => Err(e),
            Ok(story_id) => Ok(RequestModel::DeleteAllStoryComments { story_id }),
        },
    }
}

/// A decoding outcome with its request as a model.
pub open spec fn outcome(result: Result<Request, DecodeError>) -> Result<RequestModel, DecodeError> {
    match result {
        Ok(request) => Ok(request@),
        Err(e) => Err(e),
    }
}

/// The text of a field that must be present.
pub fn require_text(form: &Form, field: Field) -> (text: Result<String, DecodeError>)
    ensures
        match text {
            Ok(t) => text_field(form.entries@, field) == Ok::<Seq<char>, DecodeError>(t@),
            Err(e) => text_field(form.entries@, field) == Err::<Seq<char>, DecodeError>(e),
        },
{
    match form.text(field.name()) {
        Some(t) => Ok(t),
        None => Err(DecodeError::Missing(field)),
    }
}

/// The integer in a field that must be present.
pub fn require_id(form: &Form, field: Field) -> (id: Result<i32, DecodeError>)
    ensures
        id == id_field(form.entries@, field),
{
    match form.text(field.name()) {
        Some(t) => match parse_id(t.as_str()) {
            Some(id) => Ok(id),
            None => Err(DecodeError::NotAnInteger(field)),
        },
        None => Err(DecodeError::Missing(field)),
    }
}

/// Reads the request that a form sent to an endpoint makes.
pub fn decode(endpoint: Endpoint, form: &Form) -> (request: Result<Request, DecodeError>)
    ensures
        outcome(request) == decoded(endpoint, form.entries@),
{
    match endpoint {
        Endpoint::Index => Ok(Request::Index),
        Endpoint::GetAllUsers => Ok(Request::GetAllUsers),
        Endpoint::CreateUser => {
            let username = match require_text(form, Field::Username) {
                Ok(t) => t,
                Err(e) => return Err(e),
            };
            let password = match require_text(form, Field::Password) {
                Ok(t) => t,
                Err(e) => return Err(e),
            };
            Ok(Request::CreateUser { username, password })
        },
        Endpoint::DeleteUser => match require_text(form, Field::Username) {
            Ok(username) => Ok(Request::DeleteUser { username }),
            Err(e) => Err(e),
        },
        Endpoint::GetStoriesByUser => match require_text(form, Field::Username) {
            Ok(username) => Ok(Request::GetStoriesByUser { username }),
            Err(e) => Err(e),
        },
        Endpoint::CreateStory => {
            let username = match require_text(form, Field::Username) {
                Ok(t) => t,
                Err(e) => return Err(e),
            };
            let content = match require_text(form, Field::Content) {
                Ok(t) => t,
                Err(e) => return Err(e),
            };
            Ok(Request::CreateStory { username, content })
        },
        Endpoint::DeleteStory => match require_id(form, Field::StoryId) {
            Ok(story_id) => Ok(Request::DeleteStory { story_id }),
            Err(e) => Err(e),
        },
        Endpoint::DeleteStoriesByUser => match require_text(form, Field::Username) {
            Ok(username) => Ok(Request::DeleteStoriesByUser { username }),
            Err(e) => Err(e),
        },
        Endpoint::GetCommentsByStory => match require_id(form, Field::StoryId) {
            Ok(story_id) => Ok(Request::GetCommentsByStory { story_id }),
            Err(e) => Err(e),
        },
        Endpoint::GetCommentsByUser => match require_text(form, Field::Username) {
            Ok(username) => Ok(Request::GetCommentsByUser { username }),
            Err(e) => Err(e),
        },
        Endpoint::CreateComment => {
            let story_id = match require_id(form, Field::StoryId) {
                Ok(id) => id,
                Err(e) => return Err(e),
            };
            let username = match require_text(form, Field::Username) {
                Ok(t) => t,
                Err(e) => return Err(e),
            };
            let content = match require_text(form, Field::Content) {
                Ok(t) => t,
                Err(e) => return Err(e),
            };
            Ok(Request::CreateComment { story_id, username, content })
        },
        Endpoint::DeleteCommentsByUser => match require_text(form, Field::Username) {
            Ok(username) => Ok(Request::DeleteCommentsByUser { username }),
            Err(e) => Err(e),
        },
        Endpoint::DeleteComment => match require_id(form, Field::CommentId) {
            Ok(comment_id) => Ok(Request::DeleteComment { comment_id }),
            Err(e) => Err(e),
        },
        Endpoint::DeleteAllStoryComments => match require_id(form, Field::StoryId) {
            Ok(story_id) => Ok(Request::DeleteAllStoryComments { story_id }),
            Err(e) => Err(e),
        },
    }
}

} // verus!
