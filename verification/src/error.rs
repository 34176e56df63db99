//! The ways in which a run fails.

use crate::messages::Messages;
use crate::status::{push_status, status_line};
use vstd::prelude::*;

verus! {

/// A fatal outcome of a run.
#[derive(Clone, Debug)]
pub enum ReleaseError {
    /// The repository could not be opened, or its remote could not be fetched.
    RepositoryAccess { detail: String },
    /// The tag to start from is not among the version tags.
    UnknownTag { tag: String },
    /// An end of the revision range names no commit.
    RevisionRange { detail: String },
    /// The version given by hand is no semantic version.
    InvalidVersion { text: String, detail: String },
    /// The tag of the release is no semantic version.
    InvalidTag { tag: String },
    /// The request to create the release got no answer that could be read.
    Transport { detail: String },
    /// The release API answered the request to create the release with a
    /// status outside the success class.
    RemoteApi { status: u16, body: String },
    /// The answer to the request to create the release describes no release.
    ResponseDecode { detail: String },
}

/// A [`ReleaseError`] with its texts as sequences of characters.
pub enum ReleaseErrorModel {
    RepositoryAccess { detail: Seq<char> },
    UnknownTag { tag: Seq<char> },
    RevisionRange { detail: Seq<char> },
    InvalidVersion { text: Seq<char>, detail: Seq<char> },
    InvalidTag { tag: Seq<char> },
    Transport { detail: Seq<char> },
    RemoteApi { status: u16, body: Seq<char> },
    ResponseDecode { detail: Seq<char> },
}

impl DeepView for ReleaseError {
    type V = ReleaseErrorModel;

    open spec fn deep_view(&self) -> ReleaseErrorModel {
        match self {
            ReleaseError::RepositoryAccess { detail } => ReleaseErrorModel::RepositoryAccess {
                detail: detail@,
            },
            ReleaseError::UnknownTag { tag } => ReleaseErrorModel::UnknownTag { tag: tag@ },
            ReleaseError::RevisionRange { detail } => ReleaseErrorModel::RevisionRange {
                detail: detail@,
            },
            ReleaseError::InvalidVersion { text, detail } => ReleaseErrorModel::InvalidVersion {
                text: text@,
                detail: detail@,
            },
            ReleaseError::InvalidTag { tag } => ReleaseErrorModel::InvalidTag { tag: tag@ },
            ReleaseError::Transport { detail } => ReleaseErrorModel::Transport { detail: detail@ },
            ReleaseError::RemoteApi { status, body } => ReleaseErrorModel::RemoteApi {
                status: *status,
                body: body@,
            },
            ReleaseError::ResponseDecode { detail } => ReleaseErrorModel::ResponseDecode {
                detail: detail@,
            },
        }
    }
}

impl ReleaseErrorModel {
    /// The text that tells of this error, in the language of `messages`.
    pub open spec fn message(self, messages: Messages) -> Seq<char> {
        match self {
            ReleaseErrorModel::RepositoryAccess { detail } => detail,
            ReleaseErrorModel::UnknownTag { tag } => "Previous tag "@ + tag + " not found"@,
            ReleaseErrorModel::RevisionRange { detail } => detail,
            ReleaseErrorModel::InvalidVersion { text, detail } => detail,
            ReleaseErrorModel::InvalidTag { tag } => messages.invalid_tag@ + ": "@ + tag,
            ReleaseErrorModel::Transport { detail } => detail,
            ReleaseErrorModel::RemoteApi { status, body } => messages.api_error@ + ": "@
                + status_line(status) + " - "@ + body,
            ReleaseErrorModel::ResponseDecode { detail } =>
                "Failed to parse release creation response: "@ + detail,
        }
    }
}

impl ReleaseError {
    /// The text that tells of this error, in the language of `messages`.
    pub fn message(&self, messages: &Messages) -> (text: String)
        ensures
            text@ == self.deep_view().message(*messages),
    {
        let mut text = String::new();
        match self {
            ReleaseError::RepositoryAccess { detail } => text.append(detail.as_str()),
            ReleaseError::UnknownTag { tag } => {
                text.append("Previous tag ");
                text.append(tag.as_str());
                text.append(" not found");
            },
            ReleaseError::RevisionRange { detail } => text.append(detail.as_str()),
            ReleaseError::InvalidVersion { text: _, detail } => text.append(detail.as_str()),
            ReleaseError::InvalidTag { tag } => {
                text.append(messages.invalid_tag);
                text.append(": ");
                text.append(tag.as_str());
            },
            ReleaseError::Transport { detail } => text.append(detail.as_str()),
            ReleaseError::RemoteApi { status, body } => {
                text.append(messages.api_error);
                text.append(": ");
                push_status(&mut text, *status);
                text.append(" - ");
                text.append(body.as_str());
            },
            ReleaseError::ResponseDecode { detail } => {
                text.append("Failed to parse release creation response: ");
                text.append(detail.as_str());
            },
        }
        text
    }
}

} // verus!
