//! The values exchanged between the server and its clients.

use vstd::prelude::*;

pub use crate::user::{Permissions, User};

verus! {

/// An image, known by the link where it is hosted.
#[derive(Clone, Debug, PartialEq)]
pub struct Image {
    pub id: i64,
    pub link: String,
    pub preview_link: Option<String>,
}

/// An image together with the tags it carries.
#[derive(Clone, Debug, PartialEq)]
pub struct ImageWithTags {
    pub image: Image,
    pub tags: Vec<String>,
}

/// Site-wide settings an administrator can change.
#[derive(Clone, Copy, Debug, PartialEq, Eq, Structural)]
pub struct GlobalSettings {
    pub create_unknown_tags: bool,
    pub anyone_can_delete_any_image: bool,
    pub anyone_can_upload: bool,
}

/// The settings the site runs with when nothing else was configured.
pub open spec fn default_settings() -> GlobalSettings {
    GlobalSettings {
        create_unknown_tags: true,
        anyone_can_delete_any_image: false,
        anyone_can_upload: true,
    }
}

/// By default unknown tags are created on upload, and anyone may upload but
/// not delete every image.
pub proof fn lemma_default_settings()
    ensures
        default_settings().create_unknown_tags,
        !default_settings().anyone_can_delete_any_image,
        default_settings().anyone_can_upload,
{
}

impl Default for GlobalSettings {
    fn default() -> (settings: Self)
        ensures
            settings == default_settings(),
    {
        GlobalSettings {
            create_unknown_tags: true,
            anyone_can_delete_any_image: false,
            anyone_can_upload: true,
        }
    }
}

/// The errors the server reports to its clients.
#[derive(Clone, Copy, Debug, PartialEq, Eq, Structural)]
pub enum ServerError {
    CreateUnknownTag,
    InvalidImageLink,
    NotAnImage,
    UsernameExists,
    FailedLogin,
    InvalidPerms,
    UnknownError,
}

impl ServerError {
    /// The message shown for the error.
    pub fn message(&self) -> (text: &'static str)
        ensures
            text@ == server_error_message(*self),
    {
        match self {
            ServerError::CreateUnknownTag => "Cannot create image with unknown tags",
            ServerError::InvalidImageLink => "Invalid image link",
            ServerError::NotAnImage => "Not an image",
            ServerError::UsernameExists => "Username already exists",
            ServerError::FailedLogin => "Invalid username or password",
            ServerError::InvalidPerms => "You don't have the permission to perform this action",
            ServerError::UnknownError => "Unknown error",
        }
    }
}

/// The message of each error.
pub open spec fn server_error_message(e: ServerError) -> Seq<char> {
    match e {
        ServerError::CreateUnknownTag => "Cannot create image with unknown tags"@,
        ServerError::InvalidImageLink => "Invalid image link"@,
        ServerError::NotAnImage => "Not an image"@,
        ServerError::UsernameExists => "Username already exists"@,
        ServerError::FailedLogin => "Invalid username or password"@,
        ServerError::InvalidPerms => "You don't have the permission to perform this action"@,
        ServerError::UnknownError => "Unknown error"@,
    }
}

} // verus!
