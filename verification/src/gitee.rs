//! The run of a release, as a machine of states: the release is described,
//! from the options or from the history of the repository; its tag is
//! validated; it is created through the Gitee API; and its artifacts are
//! uploaded, each on its own.
//!
//! The machine decides; it neither reads nor sends anything. Each step takes
//! the state and the outcome of the last action, and gives the next state,
//! the lines to log and the next action. Whoever drives it performs the
//! action and comes back with its outcome, until the action is
//! [`PublishAction::Finish`].

use crate::args::{Args, ArgsModel};
use crate::conventional::{
    bump_for, classify_commits, commit_url_base, commit_url_base_of, generate_release_info,
    lemma_classified, lemma_tag_of_release, next_version_text, refused_version, release_info,
    ReleaseInfo, ReleaseInfoModel,
};
use crate::error::{ReleaseError, ReleaseErrorModel};
use crate::history::{
    all_well_formed, all_wf, walk_for, walk_request, CommitModel, CommitRecord, WalkRequest,
    WalkRequestModel,
};
use crate::ledger::{base_among, lemma_base_is_determined, Ledger};
use crate::messages::Messages;
use crate::status::{is_success, push_status, status_is_success, status_line};
use crate::text::{contains, decimal, joined, occurs_at, push_signed_decimal, signed_decimal};
use crate::version::{version_of_tag, SemanticVersion};
use vstd::prelude::*;

verus! {

/// The address of the API where none is given.
pub const DEFAULT_API_BASE: &'static str = "https://gitee.com";

/// The media type of the request that creates a release, and of every
/// answer asked for: the value of the `Content-Type` and `Accept` headers.
pub const JSON_MEDIA_TYPE: &'static str = "application/json";

/// The media type under which the file of an artifact is uploaded.
pub const ARTIFACT_MEDIA_TYPE: &'static str = "application/octet-stream";

/// The name of the form field that carries the access token in an upload.
pub const TOKEN_FIELD: &'static str = "access_token";

/// The name of the form field that carries the file in an upload.
pub const FILE_FIELD: &'static str = "file";

/// The body of the request that creates a release.
#[derive(Clone, Debug)]
pub struct ReleaseRequest {
    pub tag_name: String,
    pub target_commitish: String,
    pub name: String,
    pub body: String,
    pub draft: bool,
    pub prerelease: bool,
}

/// A [`ReleaseRequest`] with its texts as sequences of characters.
pub struct ReleaseRequestModel {
    pub tag_name: Seq<char>,
    pub target_commitish: Seq<char>,
    pub name: Seq<char>,
    pub body: Seq<char>,
    pub draft: bool,
    pub prerelease: bool,
}

impl DeepView for ReleaseRequest {
    type V = ReleaseRequestModel;

    open spec fn deep_view(&self) -> ReleaseRequestModel {
        ReleaseRequestModel {
            tag_name: self.tag_name@,
            target_commitish: self.target_commitish@,
            name: self.name@,
            body: self.body@,
            draft: self.draft,
            prerelease: self.prerelease,
        }
    }
}

/// The release as the API describes it once it exists.
#[derive(Clone, Debug)]
pub struct RemoteRelease {
    /// The number under which artifacts are attached.
    pub id: i64,
    /// The page of the release, where the API names one.
    pub url: Option<String>,
}

/// A [`RemoteRelease`] with its texts as sequences of characters.
pub struct RemoteReleaseModel {
    pub id: i64,
    pub url: Option<Seq<char>>,
}

impl DeepView for RemoteRelease {
    type V = RemoteReleaseModel;

    open spec fn deep_view(&self) -> RemoteReleaseModel {
        RemoteReleaseModel { id: self.id, url: self.url.deep_view() }
    }
}

/// An answer of the API: its status code, and its body or the reason why
/// the body could not be read.
#[derive(Debug)]
pub struct HttpReply {
    pub status: u16,
    pub body: Result<String, String>,
}

/// An [`HttpReply`] with its texts as sequences of characters.
pub struct HttpReplyModel {
    pub status: u16,
    pub body: Result<Seq<char>, Seq<char>>,
}

/// A text or the reason why there is none, as sequences of characters.
pub open spec fn text_or_reason(outcome: Result<String, String>) -> Result<Seq<char>, Seq<char>> {
    match outcome {
        Ok(text) => Ok(text@),
        Err(reason) => Err(reason@),
    }
}

impl DeepView for HttpReply {
    type V = HttpReplyModel;

    open spec fn deep_view(&self) -> HttpReplyModel {
        HttpReplyModel { status: self.status, body: text_or_reason(self.body) }
    }
}

/// What a repository tells of its remote and its tags, once every tag of
/// the remote has been fetched.
#[derive(Clone, Debug)]
pub struct RemoteTags {
    /// The address of the remote, empty where it has none.
    pub origin_url: String,
    /// The names of the tags.
    pub tag_names: Vec<String>,
}

/// A [`RemoteTags`] with its texts as sequences of characters.
pub struct RemoteTagsModel {
    pub origin_url: Seq<char>,
    pub tag_names: Seq<Seq<char>>,
}

impl DeepView for RemoteTags {
    type V = RemoteTagsModel;

    open spec fn deep_view(&self) -> RemoteTagsModel {
        RemoteTagsModel { origin_url: self.origin_url@, tag_names: self.tag_names.deep_view() }
    }
}

/// How much a log line matters.
#[derive(Clone, Copy, Debug, PartialEq, Eq, Structural)]
pub enum LogLevel {
    Info,
    Warn,
    Error,
}

/// A line for the log.
#[derive(Clone, Debug)]
pub struct LogLine {
    pub level: LogLevel,
    pub text: String,
}

/// A [`LogLine`] with its text as a sequence of characters.
pub struct LogLineModel {
    pub level: LogLevel,
    pub text: Seq<char>,
}

impl DeepView for LogLine {
    type V = LogLineModel;

    open spec fn deep_view(&self) -> LogLineModel {
        LogLineModel { level: self.level, text: self.text@ }
    }
}

/// Why an artifact was passed over without an upload.
#[derive(Clone, Debug)]
pub enum SkipReason {
    /// The path names no regular file.
    NotAFile,
    /// The path ends in no file name.
    NoFileName,
    /// The file could not be read.
    Unreadable { detail: String },
}

/// A [`SkipReason`] with its text as a sequence of characters.
pub enum SkipReasonModel {
    NotAFile,
    NoFileName,
    Unreadable { detail: Seq<char> },
}

impl DeepView for SkipReason {
    type V = SkipReasonModel;

    open spec fn deep_view(&self) -> SkipReasonModel {
        match self {
            SkipReason::NotAFile => SkipReasonModel::NotAFile,
            SkipReason::NoFileName => SkipReasonModel::NoFileName,
            SkipReason::Unreadable { detail } => SkipReasonModel::Unreadable { detail: detail@ },
        }
    }
}

/// What became of one artifact. None of these ends the run.
#[derive(Clone, Debug)]
pub enum ArtifactOutcome {
    /// The API took the file.
    Uploaded { file_name: String },
    /// Nothing was sent.
    Skipped { path: String, reason: SkipReason },
    /// The upload got no answer, or one outside the success class.
    UploadFailed { file_name: String, detail: String },
}

/// An [`ArtifactOutcome`] with its texts as sequences of characters.
pub enum ArtifactOutcomeModel {
    Uploaded { file_name: Seq<char> },
    Skipped { path: Seq<char>, reason: SkipReasonModel },
    UploadFailed { file_name: Seq<char>, detail: Seq<char> },
}

impl DeepView for ArtifactOutcome {
    type V = ArtifactOutcomeModel;

    open spec fn deep_view(&self) -> ArtifactOutcomeModel {
        match self {
            ArtifactOutcome::Uploaded { file_name } => ArtifactOutcomeModel::Uploaded {
                file_name: file_name@,
            },
            ArtifactOutcome::Skipped { path, reason } => ArtifactOutcomeModel::Skipped {
                path: path@,
                reason: reason.deep_view(),
            },
            ArtifactOutcome::UploadFailed { file_name, detail } => {
                ArtifactOutcomeModel::UploadFailed { file_name: file_name@, detail: detail@ }
            },
        }
    }
}

/// How far the artifact in hand has come.
#[derive(Clone, Debug)]
pub enum ArtifactStage {
    /// Its path is being looked at.
    Inspecting,
    /// Its file is being read.
    Reading { file_name: String },
    /// Its upload is under way.
    Uploading { file_name: String },
}

/// An [`ArtifactStage`] with its texts as sequences of characters.
pub enum ArtifactStageModel {
    Inspecting,
    Reading { file_name: Seq<char> },
    Uploading { file_name: Seq<char> },
}

impl DeepView for ArtifactStage {
    type V = ArtifactStageModel;

    open spec fn deep_view(&self) -> ArtifactStageModel {
        match self {
            ArtifactStage::Inspecting => ArtifactStageModel::Inspecting,
            ArtifactStage::Reading { file_name } => ArtifactStageModel::Reading {
                file_name: file_name@,
            },
            ArtifactStage::Uploading { file_name } => ArtifactStageModel::Uploading {
                file_name: file_name@,
            },
        }
    }
}

/// Where a run stands.
#[derive(Clone, Debug)]
pub enum PublishState {
    /// Nothing has been decided yet.
    Start,
    /// The release is to be described from the history, and the tags of the
    /// repository are being fetched.
    AwaitingTags,
    /// The base of the release is known, and the history since then is
    /// being walked.
    AwaitingHistory { base: SemanticVersion, url_base: String },
    /// The tag is a semantic version and the request to create the release
    /// is under way.
    TagValidated,
    /// The API answered with success and its answer is being decoded.
    Decoding,
    /// The release exists. One outcome is recorded for each artifact that
    /// has been dealt with; the next one is in hand.
    RemoteReleaseCreated { release_id: i64, outcomes: Vec<ArtifactOutcome>, stage: ArtifactStage },
    /// The release exists and every artifact has been dealt with.
    Done { outcomes: Vec<ArtifactOutcome> },
    /// The run failed before the release existed.
    Failed { error: ReleaseError },
}

/// A [`PublishState`] with its texts as sequences of characters.
pub enum PublishStateModel {
    Start,
    AwaitingTags,
    AwaitingHistory { base: SemanticVersion, url_base: Seq<char> },
    TagValidated,
    Decoding,
    RemoteReleaseCreated {
        release_id: i64,
        outcomes: Seq<ArtifactOutcomeModel>,
        stage: ArtifactStageModel,
    },
    Done { outcomes: Seq<ArtifactOutcomeModel> },
    Failed { error: ReleaseErrorModel },
}

impl DeepView for PublishState {
    type V = PublishStateModel;

    open spec fn deep_view(&self) -> PublishStateModel {
        match self {
            PublishState::Start => PublishStateModel::Start,
            PublishState::AwaitingTags => PublishStateModel::AwaitingTags,
            PublishState::AwaitingHistory { base, url_base } => {
                PublishStateModel::AwaitingHistory { base: *base, url_base: url_base@ }
            },
            PublishState::TagValidated => PublishStateModel::TagValidated,
            PublishState::Decoding => PublishStateModel::Decoding,
            PublishState::RemoteReleaseCreated { release_id, outcomes, stage } => {
                PublishStateModel::RemoteReleaseCreated {
                    release_id: *release_id,
                    outcomes: outcomes.deep_view(),
                    stage: stage.deep_view(),
                }
            },
            PublishState::Done { outcomes } => PublishStateModel::Done {
                outcomes: outcomes.deep_view(),
            },
            PublishState::Failed { error } => PublishStateModel::Failed {
                error: error.deep_view(),
            },
        }
    }
}

/// The outcome of an action, handed back to the machine.
#[derive(Debug)]
pub enum PublishEvent {
    /// The run begins.
    Start,
    /// The tags were fetched, or the repository could not be reached.
    TagsFetched { fetched: Result<RemoteTags, ReleaseError> },
    /// The history was walked, oldest commit first, or an end of the walk
    /// names no commit.
    HistoryWalked { walked: Result<Vec<CommitRecord>, ReleaseError> },
    /// The request to create the release was answered, or got no answer.
    CreationAnswered { answer: Result<HttpReply, String> },
    /// The answer was decoded, or describes no release.
    ReleaseDecoded { decoded: Result<RemoteRelease, String> },
    /// The path of the artifact was looked at: whether it names a regular
    /// file, and the file name it ends in, if any.
    ArtifactInspected { is_file: bool, file_name: Option<String> },
    /// The file of the artifact was read, or could not be.
    ArtifactRead { content: Result<Vec<u8>, String> },
    /// The upload was answered, or got no answer.
    UploadAnswered { answer: Result<HttpReply, String> },
}

/// A [`PublishEvent`] with its texts as sequences of characters.
pub enum PublishEventModel {
    Start,
    TagsFetched { fetched: Result<RemoteTagsModel, ReleaseErrorModel> },
    HistoryWalked { walked: Result<Seq<CommitModel>, ReleaseErrorModel> },
    CreationAnswered { answer: Result<HttpReplyModel, Seq<char>> },
    ReleaseDecoded { decoded: Result<RemoteReleaseModel, Seq<char>> },
    ArtifactInspected { is_file: bool, file_name: Option<Seq<char>> },
    ArtifactRead { content: Result<Seq<u8>, Seq<char>> },
    UploadAnswered { answer: Result<HttpReplyModel, Seq<char>> },
}

/// An answer or the reason why there is none, as sequences of characters.
pub open spec fn reply_or_reason(answer: Result<HttpReply, String>) -> Result<
    HttpReplyModel,
    Seq<char>,
> {
    match answer {
        Ok(reply) => Ok(reply.deep_view()),
        Err(reason) => Err(reason@),
    }
}

impl DeepView for PublishEvent {
    type V = PublishEventModel;

    open spec fn deep_view(&self) -> PublishEventModel {
        match self {
            PublishEvent::Start => PublishEventModel::Start,
            PublishEvent::TagsFetched { fetched } => PublishEventModel::TagsFetched {
                fetched: match fetched {
                    Ok(tags) => Ok(tags.deep_view()),
                    Err(error) => Err(error.deep_view()),
                },
            },
            PublishEvent::HistoryWalked { walked } => PublishEventModel::HistoryWalked {
                walked: match walked {
                    Ok(commits) => Ok(commits.deep_view()),
                    Err(error) => Err(error.deep_view()),
                },
            },
            PublishEvent::CreationAnswered { answer } => PublishEventModel::CreationAnswered {
                answer: reply_or_reason(*answer),
            },
            PublishEvent::ReleaseDecoded { decoded } => PublishEventModel::ReleaseDecoded {
                decoded: match decoded {
                    Ok(release) => Ok(release.deep_view()),
                    Err(reason) => Err(reason@),
                },
            },
            PublishEvent::ArtifactInspected { is_file, file_name } => {
                PublishEventModel::ArtifactInspected {
                    is_file: *is_file,
                    file_name: file_name.deep_view(),
                }
            },
            PublishEvent::ArtifactRead { content } => PublishEventModel::ArtifactRead {
                content: match content {
                    Ok(bytes) => Ok(bytes@),
                    Err(reason) => Err(reason@),
                },
            },
            PublishEvent::UploadAnswered { answer } => PublishEventModel::UploadAnswered {
                answer: reply_or_reason(*answer),
            },
        }
    }
}

/// What the driver is to do next.
#[derive(Clone, Debug)]
pub enum PublishAction {
    /// Fetch every tag from the remote `origin` of the repository at
    /// `repo_path`, and tell the address of the remote and the names of the
    /// tags.
    FetchTags { repo_path: String },
    /// Walk the history of the repository at `repo_path` as `request` says,
    /// parents before children and oldest first.
    WalkHistory { repo_path: String, request: WalkRequest },
    /// Send the request that creates the release: a `POST` of `request` as
    /// JSON to `url`, with `authorization` as its `Authorization` header.
    CreateRelease { url: String, authorization: String, request: ReleaseRequest },
    /// Decode `body` as the description of a release.
    DecodeRelease { body: String },
    /// Look at the path of an artifact.
    InspectArtifact { path: String },
    /// Read the file of an artifact.
    ReadArtifact { path: String },
    /// Upload an artifact: a multipart `POST` to `url`, with `authorization`
    /// as its `Authorization` header, `access_token` as the text field of
    /// that name, and `content` as the file field, named `file_name`.
    UploadArtifact {
        url: String,
        authorization: String,
        access_token: String,
        file_name: String,
        content: Vec<u8>,
    },
    /// End the run; the state tells how it ended.
    Finish,
    /// Nothing: the event did not answer the last action, which is still
    /// awaited.
    Wait,
}

/// A [`PublishAction`] with its texts as sequences of characters.
pub enum PublishActionModel {
    FetchTags { repo_path: Seq<char> },
    WalkHistory { repo_path: Seq<char>, request: WalkRequestModel },
    CreateRelease { url: Seq<char>, authorization: Seq<char>, request: ReleaseRequestModel },
    DecodeRelease { body: Seq<char> },
    InspectArtifact { path: Seq<char> },
    ReadArtifact { path: Seq<char> },
    UploadArtifact {
        url: Seq<char>,
        authorization: Seq<char>,
        access_token: Seq<char>,
        file_name: Seq<char>,
        content: Seq<u8>,
    },
    Finish,
    Wait,
}

impl DeepView for PublishAction {
    type V = PublishActionModel;

    open spec fn deep_view(&self) -> PublishActionModel {
        match self {
            PublishAction::FetchTags { repo_path } => PublishActionModel::FetchTags {
                repo_path: repo_path@,
            },
            PublishAction::WalkHistory { repo_path, request } => PublishActionModel::WalkHistory {
                repo_path: repo_path@,
                request: request.deep_view(),
            },
            PublishAction::CreateRelease { url, authorization, request } => {
                PublishActionModel::CreateRelease {
                    url: url@,
                    authorization: authorization@,
                    request: request.deep_view(),
                }
            },
            PublishAction::DecodeRelease { body } => PublishActionModel::DecodeRelease {
                body: body@,
            },
            PublishAction::InspectArtifact { path } => PublishActionModel::InspectArtifact {
                path: path@,
            },
            PublishAction::ReadArtifact { path } => PublishActionModel::ReadArtifact {
                path: path@,
            },
            PublishAction::UploadArtifact {
                url,
                authorization,
                access_token,
                file_name,
                content,
            } => PublishActionModel::UploadArtifact {
                url: url@,
                authorization: authorization@,
                access_token: access_token@,
                file_name: file_name@,
                content: content@,
            },
            PublishAction::Finish => PublishActionModel::Finish,
            PublishAction::Wait => PublishActionModel::Wait,
        }
    }
}

/// One step of the machine: the state it leads to, the lines to log, and
/// the next action.
#[derive(Clone, Debug)]
pub struct PublishStep {
    pub state: PublishState,
    pub logs: Vec<LogLine>,
    pub action: PublishAction,
}

/// A [`PublishStep`] with its texts as sequences of characters.
pub struct PublishStepModel {
    pub state: PublishStateModel,
    pub logs: Seq<LogLineModel>,
    pub action: PublishActionModel,
}

impl DeepView for PublishStep {
    type V = PublishStepModel;

    open spec fn deep_view(&self) -> PublishStepModel {
        PublishStepModel {
            state: self.state.deep_view(),
            logs: self.logs.deep_view(),
            action: self.action.deep_view(),
        }
    }
}

/// What stays the same throughout a run: its options, the address of the
/// API and the language of its messages.
#[derive(Clone, Debug)]
pub struct Publisher {
    pub args: Args,
    pub base_url: String,
    pub messages: Messages,
}

/// A [`Publisher`] with its texts as sequences of characters.
pub struct PublisherModel {
    pub args: ArgsModel,
    pub base_url: Seq<char>,
    pub messages: Messages,
}

impl DeepView for Publisher {
    type V = PublisherModel;

    open spec fn deep_view(&self) -> PublisherModel {
        PublisherModel {
            args: self.args.deep_view(),
            base_url: self.base_url@,
            messages: self.messages,
        }
    }
}

/// A log line of a given level and text.
pub open spec fn line(level: LogLevel, text: Seq<char>) -> LogLineModel {
    LogLineModel { level, text }
}

/// A text where there is one, the empty text where there is none.
pub open spec fn text_or_empty(text: Option<Seq<char>>) -> Seq<char> {
    match text {
        Some(text) => text,
        None => Seq::empty(),
    }
}

/// The complaint about a field of the release that was left empty, where
/// `text` is empty.
pub open spec fn complaint_if_empty(text: Seq<char>) -> Seq<LogLineModel> {
    if text.len() == 0 {
        seq![line(LogLevel::Error, "Tag name, release name, and body cannot be empty"@)]
    } else {
        Seq::empty()
    }
}

/// The body of an answer, or a placeholder where it could not be read.
pub open spec fn body_or_placeholder(body: Result<Seq<char>, Seq<char>>) -> Seq<char> {
    match body {
        Ok(text) => text,
        Err(_) => "Could not read error body"@,
    }
}

/// The complaint about a body that could not be read, where it could not.
pub open spec fn complaint_if_unread(
    body: Result<Seq<char>, Seq<char>>,
    label: Seq<char>,
) -> Seq<LogLineModel> {
    match body {
        Ok(_) => Seq::empty(),
        Err(reason) => seq![line(LogLevel::Error, label + reason)],
    }
}

/// A step that ends the run with a failure.
pub open spec fn failure(error: ReleaseErrorModel, logs: Seq<LogLineModel>) -> PublishStepModel {
    PublishStepModel {
        state: PublishStateModel::Failed { error },
        logs,
        action: PublishActionModel::Finish,
    }
}

/// The step for an event that does not answer the action awaited in
/// `state`: the state stays, nothing is logged, and the run ends only where
/// it had ended before.
pub open spec fn ignored(state: PublishStateModel) -> PublishStepModel {
    PublishStepModel {
        state,
        logs: Seq::empty(),
        action: if state is Done || state is Failed {
            PublishActionModel::Finish
        } else {
            PublishActionModel::Wait
        },
    }
}

impl PublisherModel {
    /// The address at which releases of the repository are created.
    pub open spec fn releases_url(self) -> Seq<char> {
        self.base_url + "/api/v5/repos/"@ + self.args.owner + "/"@ + self.args.repo
            + "/releases"@
    }

    /// The address at which files are attached to a release.
    pub open spec fn attach_url(self, release_id: i64) -> Seq<char> {
        self.releases_url() + "/"@ + signed_decimal(release_id as int) + "/attach_files"@
    }

    /// The value of the `Authorization` header.
    pub open spec fn authorization(self) -> Seq<char> {
        "token "@ + self.args.token
    }

    /// The description of the release as the options give it, each part
    /// empty where it was left out.
    pub open spec fn manual_info(self) -> ReleaseInfoModel {
        ReleaseInfoModel {
            tag_name: text_or_empty(self.args.tag_name),
            name: text_or_empty(self.args.name),
            body: text_or_empty(self.args.body),
        }
    }

    /// The request that creates the release described by `info`.
    pub open spec fn request(self, info: ReleaseInfoModel) -> ReleaseRequestModel {
        ReleaseRequestModel {
            tag_name: info.tag_name,
            target_commitish: self.args.target_commitish,
            name: info.name,
            body: info.body,
            draft: self.args.draft,
            prerelease: self.args.prerelease,
        }
    }

    /// The step that validates the tag before anything is sent: with its
    /// leading `v` taken off, if it has one, the tag must be a semantic
    /// version.
    pub open spec fn validate(
        self,
        info: ReleaseInfoModel,
        logs: Seq<LogLineModel>,
    ) -> PublishStepModel {
        if version_of_tag(info.tag_name) is Some {
            PublishStepModel {
                state: PublishStateModel::TagValidated,
                logs: logs.push(
                    line(LogLevel::Info, "Sending request to Gitee API: "@ + self.releases_url()),
                ),
                action: PublishActionModel::CreateRelease {
                    url: self.releases_url(),
                    authorization: self.authorization(),
                    request: self.request(info),
                },
            }
        } else {
            let error = ReleaseErrorModel::InvalidTag { tag: info.tag_name };
            failure(error, logs.push(line(LogLevel::Error, error.message(self.messages))))
        }
    }

    /// The first step of a run.
    pub open spec fn on_start(self) -> PublishStepModel {
        if self.args.auto_gen_notes {
            PublishStepModel {
                state: PublishStateModel::AwaitingTags,
                logs: seq![line(LogLevel::Info, "Auto-generating release notes..."@)],
                action: PublishActionModel::FetchTags { repo_path: self.args.repo_path },
            }
        } else {
            let info = self.manual_info();
            self.validate(
                info,
                complaint_if_empty(info.tag_name) + complaint_if_empty(info.name)
                    + complaint_if_empty(info.body),
            )
        }
    }

    /// The step once the tags were fetched, or could not be: the base of
    /// the release is found among them, and the history from the tag of the
    /// base to the target is asked for. A tag to start from that is not
    /// among the version tags ends the run.
    pub open spec fn on_tags(
        self,
        fetched: Result<RemoteTagsModel, ReleaseErrorModel>,
    ) -> PublishStepModel {
        match fetched {
            Err(error) => failure(error, Seq::empty()),
            Ok(tags) => match base_among(tags.tag_names, self.args.previous_tag) {
                None => failure(
                    ReleaseErrorModel::UnknownTag { tag: text_or_empty(self.args.previous_tag) },
                    Seq::empty(),
                ),
                Some(base) => PublishStepModel {
                    state: PublishStateModel::AwaitingHistory {
                        base: base.version,
                        url_base: commit_url_base_of(tags.origin_url),
                    },
                    logs: Seq::empty(),
                    action: PublishActionModel::WalkHistory {
                        repo_path: self.args.repo_path,
                        request: walk_for(base.name, self.args.target_commitish),
                    },
                },
            },
        }
    }

    /// The step once the history was walked, or could not be: the release
    /// is described from the commits, with the tag name of the options as
    /// the version given by hand, and its tag is validated.
    pub open spec fn on_history(
        self,
        base: SemanticVersion,
        url_base: Seq<char>,
        walked: Result<Seq<CommitModel>, ReleaseErrorModel>,
    ) -> PublishStepModel {
        match walked {
            Err(error) => failure(error, Seq::empty()),
            Ok(commits) => match next_version_text(base, commits, self.args.tag_name) {
                Some(version) => self.validate(
                    release_info(version, commits, url_base),
                    Seq::empty(),
                ),
                None => failure(refused_version(self.args.tag_name).unwrap(), Seq::empty()),
            },
        }
    }

    /// Whether the machine takes `event` in `state`. It takes every event
    /// but a history that it cannot describe: one with a commit whose
    /// identifier is not forty hexadecimal digits, or one that asks for a
    /// bump of a version number that is at its limit.
    pub open spec fn admits(self, state: PublishStateModel, event: PublishEventModel) -> bool {
        match (state, event) {
            (
                PublishStateModel::AwaitingHistory { base, .. },
                PublishEventModel::HistoryWalked { walked: Ok(commits) },
            ) => all_wf(commits) && (self.args.tag_name is None ==> base.allows(bump_for(commits))),
            _ => true,
        }
    }

    /// The step once the request to create the release was answered, or
    /// got no answer.
    pub open spec fn on_creation(
        self,
        answer: Result<HttpReplyModel, Seq<char>>,
    ) -> PublishStepModel {
        match answer {
            Err(reason) => failure(ReleaseErrorModel::Transport { detail: reason }, Seq::empty()),
            Ok(reply) => if is_success(reply.status) {
                match reply.body {
                    Ok(body) => PublishStepModel {
                        state: PublishStateModel::Decoding,
                        logs: Seq::empty(),
                        action: PublishActionModel::DecodeRelease { body },
                    },
                    Err(reason) => failure(
                        ReleaseErrorModel::Transport { detail: reason },
                        Seq::empty(),
                    ),
                }
            } else {
                failure(
                    ReleaseErrorModel::RemoteApi {
                        status: reply.status,
                        body: body_or_placeholder(reply.body),
                    },
                    complaint_if_unread(reply.body, "Failed to read error response body: "@).push(
                        line(
                            LogLevel::Error,
                            self.messages.failure@ + ": "@ + status_line(reply.status),
                        ),
                    ),
                )
            },
        }
    }

    /// The step once the answer was decoded, or describes no release.
    pub open spec fn on_decoded(
        self,
        decoded: Result<RemoteReleaseModel, Seq<char>>,
    ) -> PublishStepModel {
        match decoded {
            Err(reason) => {
                let error = ReleaseErrorModel::ResponseDecode { detail: reason };
                failure(error, seq![line(LogLevel::Error, error.message(self.messages))])
            },
            Ok(release) => self.next_artifact(
                release.id,
                Seq::empty(),
                seq![
                    line(
                        LogLevel::Info,
                        match release.url {
                            Some(url) => self.messages.success@ + ": "@ + url,
                            None => self.messages.success@,
                        },
                    ),
                ],
            ),
        }
    }

    /// The step that takes the next artifact in hand, or ends the run with
    /// success when an outcome is recorded for each of them.
    pub open spec fn next_artifact(
        self,
        release_id: i64,
        outcomes: Seq<ArtifactOutcomeModel>,
        logs: Seq<LogLineModel>,
    ) -> PublishStepModel {
        let paths = self.args.artifact_paths();
        if outcomes.len() < paths.len() {
            PublishStepModel {
                state: PublishStateModel::RemoteReleaseCreated {
                    release_id,
                    outcomes,
                    stage: ArtifactStageModel::Inspecting,
                },
                logs,
                action: PublishActionModel::InspectArtifact { path: paths[outcomes.len() as int] },
            }
        } else {
            PublishStepModel {
                state: PublishStateModel::Done { outcomes },
                logs,
                action: PublishActionModel::Finish,
            }
        }
    }

    /// The step once the path of the artifact in hand was looked at.
    pub open spec fn on_inspected(
        self,
        release_id: i64,
        outcomes: Seq<ArtifactOutcomeModel>,
        is_file: bool,
        file_name: Option<Seq<char>>,
    ) -> PublishStepModel {
        let paths = self.args.artifact_paths();
        if outcomes.len() >= paths.len() {
            self.next_artifact(release_id, outcomes, Seq::empty())
        } else {
            let path = paths[outcomes.len() as int];
            if !is_file {
                self.next_artifact(
                    release_id,
                    outcomes.push(
                        ArtifactOutcomeModel::Skipped { path, reason: SkipReasonModel::NotAFile },
                    ),
                    seq![
                        line(
                            LogLevel::Warn,
                            "Artifact path is not a file or does not exist, skipping: "@ + path,
                        ),
                    ],
                )
            } else {
                match file_name {
                    None => self.next_artifact(
                        release_id,
                        outcomes.push(
                            ArtifactOutcomeModel::Skipped {
                                path,
                                reason: SkipReasonModel::NoFileName,
                            },
                        ),
                        seq![
                            line(
                                LogLevel::Warn,
                                "Could not get filename for artifact, skipping: "@ + path,
                            ),
                        ],
                    ),
                    Some(name) => PublishStepModel {
                        state: PublishStateModel::RemoteReleaseCreated {
                            release_id,
                            outcomes,
                            stage: ArtifactStageModel::Reading { file_name: name },
                        },
                        logs: seq![
                            line(LogLevel::Info, self.messages.upload_start@ + ": "@ + name),
                        ],
                        action: PublishActionModel::ReadArtifact { path },
                    },
                }
            }
        }
    }

    /// The step once the file of the artifact in hand was read, or could
    /// not be.
    pub open spec fn on_read(
        self,
        release_id: i64,
        outcomes: Seq<ArtifactOutcomeModel>,
        file_name: Seq<char>,
        content: Result<Seq<u8>, Seq<char>>,
    ) -> PublishStepModel {
        let paths = self.args.artifact_paths();
        if outcomes.len() >= paths.len() {
            self.next_artifact(release_id, outcomes, Seq::empty())
        } else {
            let path = paths[outcomes.len() as int];
            match content {
                Err(reason) => self.next_artifact(
                    release_id,
                    outcomes.push(
                        ArtifactOutcomeModel::Skipped {
                            path,
                            reason: SkipReasonModel::Unreadable { detail: reason },
                        },
                    ),
                    seq![
                        line(
                            LogLevel::Error,
                            self.messages.file_read_error@ + ": "@ + path + " - "@ + reason,
                        ),
                    ],
                ),
                Ok(bytes) => PublishStepModel {
                    state: PublishStateModel::RemoteReleaseCreated {
                        release_id,
                        outcomes,
                        stage: ArtifactStageModel::Uploading { file_name },
                    },
                    logs: seq![
                        line(LogLevel::Info, "Uploading to: "@ + self.attach_url(release_id)),
                    ],
                    action: PublishActionModel::UploadArtifact {
                        url: self.attach_url(release_id),
                        authorization: self.authorization(),
                        access_token: self.args.token,
                        file_name,
                        content: bytes,
                    },
                },
            }
        }
    }

    /// The step once the upload of the artifact in hand was answered, or
    /// got no answer. Whatever the answer, the run goes on.
    pub open spec fn on_uploaded(
        self,
        release_id: i64,
        outcomes: Seq<ArtifactOutcomeModel>,
        file_name: Seq<char>,
        answer: Result<HttpReplyModel, Seq<char>>,
    ) -> PublishStepModel {
        match answer {
            Err(reason) => self.next_artifact(
                release_id,
                outcomes.push(ArtifactOutcomeModel::UploadFailed { file_name, detail: reason }),
                seq![line(LogLevel::Error, self.messages.upload_failure@ + ": "@ + file_name)],
            ),
            Ok(reply) => if is_success(reply.status) {
                self.next_artifact(
                    release_id,
                    outcomes.push(ArtifactOutcomeModel::Uploaded { file_name }),
                    seq![line(LogLevel::Info, self.messages.upload_success@ + ": "@ + file_name)],
                )
            } else {
                let detail = "Status: "@ + status_line(reply.status) + ", Details: "@
                    + body_or_placeholder(reply.body);
                self.next_artifact(
                    release_id,
                    outcomes.push(ArtifactOutcomeModel::UploadFailed { file_name, detail }),
                    complaint_if_unread(
                        reply.body,
                        "Failed to read upload error response body: "@,
                    ).push(
                        line(
                            LogLevel::Error,
                            self.messages.upload_failure@ + ": "@ + file_name + " - "@ + detail,
                        ),
                    ),
                )
            },
        }
    }

    /// The step that `event` leads to from `state`.
    pub open spec fn step(
        self,
        state: PublishStateModel,
        event: PublishEventModel,
    ) -> PublishStepModel {
        match (state, event) {
            (PublishStateModel::Start, PublishEventModel::Start) => self.on_start(),
            (PublishStateModel::AwaitingTags, PublishEventModel::TagsFetched { fetched }) => {
                self.on_tags(fetched)
            },
            (
                PublishStateModel::AwaitingHistory { base, url_base },
                PublishEventModel::HistoryWalked { walked },
            ) => self.on_history(base, url_base, walked),
            (PublishStateModel::TagValidated, PublishEventModel::CreationAnswered { answer }) => {
                self.on_creation(answer)
            },
            (PublishStateModel::Decoding, PublishEventModel::ReleaseDecoded { decoded }) => {
                self.on_decoded(decoded)
            },
            (
                PublishStateModel::RemoteReleaseCreated {
                    release_id,
                    outcomes,
                    stage: ArtifactStageModel::Inspecting,
                },
                PublishEventModel::ArtifactInspected { is_file, file_name },
            ) => self.on_inspected(release_id, outcomes, is_file, file_name),
            (
                PublishStateModel::RemoteReleaseCreated {
                    release_id,
                    outcomes,
                    stage: ArtifactStageModel::Reading { file_name },
                },
                PublishEventModel::ArtifactRead { content },
            ) => self.on_read(release_id, outcomes, file_name, content),
            (
                PublishStateModel::RemoteReleaseCreated {
                    release_id,
                    outcomes,
                    stage: ArtifactStageModel::Uploading { file_name },
                },
                PublishEventModel::UploadAnswered { answer },
            ) => self.on_uploaded(release_id, outcomes, file_name, answer),
            _ => ignored(state),
        }
    }
}

/// No log lines.
fn no_logs() -> (logs: Vec<LogLine>)
    ensures
        logs.deep_view() == Seq::<LogLineModel>::empty(),
{
    let logs: Vec<LogLine> = Vec::new();
    logs
}

/// Adds a line to `logs`.
fn push_log(logs: &mut Vec<LogLine>, level: LogLevel, text: String)
    ensures
        final(logs).deep_view() == old(logs).deep_view().push(line(level, text@)),
{
    logs.push(LogLine { level, text });
}

/// One log line.
fn one_log(level: LogLevel, text: String) -> (logs: Vec<LogLine>)
    ensures
        logs.deep_view() == seq![line(level, text@)],
{
    let mut logs = no_logs();
    push_log(&mut logs, level, text);
    logs
}

/// Records the outcome of one more artifact.
fn push_outcome(outcomes: &mut Vec<ArtifactOutcome>, outcome: ArtifactOutcome)
    ensures
        final(outcomes).deep_view() == old(outcomes).deep_view().push(outcome.deep_view()),
{
    outcomes.push(outcome);
}

/// A label, a colon and a space, and a text.
fn labelled(label: &str, text: &str) -> (whole: String)
    ensures
        whole@ == label@ + ": "@ + text@,
{
    let mut whole = String::from_str(label);
    whole.append(": ");
    whole.append(text);
    whole
}

/// A text where there is one, the empty text where there is none.
fn text_or_default(text: &Option<String>) -> (copy: String)
    ensures
        copy@ == text_or_empty(text.deep_view()),
{
    match text {
        Some(text) => text.clone(),
        None => String::new(),
    }
}

/// Adds the complaint about an empty field of the release to `logs`, where
/// `text` is empty.
fn complain_if_empty(logs: &mut Vec<LogLine>, text: &String)
    ensures
        final(logs).deep_view() == old(logs).deep_view() + complaint_if_empty(text@),
{
    if text.as_str().is_empty() {
        push_log(
            logs,
            LogLevel::Error,
            String::from_str("Tag name, release name, and body cannot be empty"),
        );
    }
}

/// Adds the complaint about a body that could not be read to `logs`, where
/// it could not.
fn complain_if_unread(logs: &mut Vec<LogLine>, body: &Result<String, String>, label: &str)
    ensures
        final(logs).deep_view() == old(logs).deep_view() + complaint_if_unread(
            text_or_reason(*body),
            label@,
        ),
{
    match body {
        Ok(_) => {},
        Err(reason) => {
            push_log(logs, LogLevel::Error, joined(label, reason.as_str()));
        },
    }
}

/// The body of an answer, or a placeholder where it could not be read.
fn body_text(body: Result<String, String>) -> (text: String)
    ensures
        text@ == body_or_placeholder(text_or_reason(body)),
{
    match body {
        Ok(text) => text,
        Err(_) => String::from_str("Could not read error body"),
    }
}

/// A step that ends the run with a failure.
fn fail(error: ReleaseError, logs: Vec<LogLine>) -> (step: PublishStep)
    ensures
        step.deep_view() == failure(error.deep_view(), logs.deep_view()),
{
    PublishStep { state: PublishState::Failed { error }, logs, action: PublishAction::Finish }
}

/// The step for an event that does not answer the action awaited in `state`.
fn ignore(state: PublishState) -> (step: PublishStep)
    ensures
        step.deep_view() == ignored(state.deep_view()),
{
    let ended = match &state {
        PublishState::Done { .. } => true,
        PublishState::Failed { .. } => true,
        _ => false,
    };
    let action = if ended {
        PublishAction::Finish
    } else {
        PublishAction::Wait
    };
    PublishStep { state, logs: no_logs(), action }
}

impl Publisher {
    /// What stays the same throughout the run that `args` asks for, against
    /// the API at `api_base_url`, or at `https://gitee.com` where none is
    /// given.
    pub fn new(args: Args, api_base_url: Option<&str>) -> (publisher: Publisher)
        ensures
            publisher.deep_view() == (PublisherModel {
                args: args.deep_view(),
                base_url: match api_base_url {
                    Some(url) => url@,
                    None => DEFAULT_API_BASE@,
                },
                messages: Messages::table(args.lang@),
            }),
    {
        let messages = Messages::new(args.lang.as_str());
        let base_url = match api_base_url {
            Some(url) => String::from_str(url),
            None => String::from_str(DEFAULT_API_BASE),
        };
        Publisher { args, base_url, messages }
    }

    /// The state in which every run begins.
    pub fn initial_state() -> (state: PublishState)
        ensures
            state.deep_view() == PublishStateModel::Start,
    {
        PublishState::Start
    }

    /// The address at which releases of the repository are created.
    pub fn releases_url(&self) -> (url: String)
        ensures
            url@ == self.deep_view().releases_url(),
    {
        let mut url = self.base_url.clone();
        url.append("/api/v5/repos/");
        url.append(self.args.owner.as_str());
        url.append("/");
        url.append(self.args.repo.as_str());
        url.append("/releases");
        url
    }

    /// The address at which files are attached to a release.
    pub fn attach_url(&self, release_id: i64) -> (url: String)
        ensures
            url@ == self.deep_view().attach_url(release_id),
    {
        let mut url = self.releases_url();
        url.append("/");
        push_signed_decimal(&mut url, release_id);
        url.append("/attach_files");
        url
    }

    /// The value of the `Authorization` header.
    pub fn authorization(&self) -> (value: String)
        ensures
            value@ == self.deep_view().authorization(),
    {
        joined("token ", self.args.token.as_str())
    }

    /// The path of the artifact at `index`, if there are that many.
    fn artifact_path(&self, index: usize) -> (path: Option<String>)
        ensures
            (match path {
                Some(path) => index < self.deep_view().args.artifact_paths().len() && path@
                    == self.deep_view().args.artifact_paths()[index as int],
                None => index >= self.deep_view().args.artifact_paths().len(),
            }),
    {
        match &self.args.artifacts {
            Some(paths) => {
                if index < paths.len() {
                    Some(paths[index].clone())
                } else {
                    None
                }
            },
            None => None,
        }
    }

    /// Validates the tag of `info` before anything is sent.
    fn validate(&self, info: ReleaseInfo, logs: Vec<LogLine>) -> (step: PublishStep)
        ensures
            step.deep_view() == self.deep_view().validate(info.deep_view(), logs.deep_view()),
    {
        let mut logs = logs;
        match SemanticVersion::parse_tag(info.tag_name.as_str()) {
            Ok(_) => {
                let url = self.releases_url();
                push_log(
                    &mut logs,
                    LogLevel::Info,
                    joined("Sending request to Gitee API: ", url.as_str()),
                );
                let request = ReleaseRequest {
                    tag_name: info.tag_name,
                    target_commitish: self.args.target_commitish.clone(),
                    name: info.name,
                    body: info.body,
                    draft: self.args.draft,
                    prerelease: self.args.prerelease,
                };
                PublishStep {
                    state: PublishState::TagValidated,
                    logs,
                    action: PublishAction::CreateRelease {
                        url,
                        authorization: self.authorization(),
                        request,
                    },
                }
            },
            Err(_) => {
                let error = ReleaseError::InvalidTag { tag: info.tag_name };
                push_log(&mut logs, LogLevel::Error, error.message(&self.messages));
                fail(error, logs)
            },
        }
    }

    /// The first step of a run.
    fn on_start(&self) -> (step: PublishStep)
        ensures
            step.deep_view() == self.deep_view().on_start(),
    {
        if self.args.auto_gen_notes {
            PublishStep {
                state: PublishState::AwaitingTags,
                logs: one_log(LogLevel::Info, String::from_str("Auto-generating release notes...")),
                action: PublishAction::FetchTags { repo_path: self.args.repo_path.clone() },
            }
        } else {
            let info = ReleaseInfo {
                tag_name: text_or_default(&self.args.tag_name),
                name: text_or_default(&self.args.name),
                body: text_or_default(&self.args.body),
            };
            let mut logs = no_logs();
            complain_if_empty(&mut logs, &info.tag_name);
            complain_if_empty(&mut logs, &info.name);
            complain_if_empty(&mut logs, &info.body);
            self.validate(info, logs)
        }
    }

    /// The step once the tags were fetched, or could not be.
    fn on_tags(&self, fetched: Result<RemoteTags, ReleaseError>) -> (step: PublishStep)
        ensures
            step.deep_view() == self.deep_view().on_tags(
                match fetched {
                    Ok(tags) => Ok(tags.deep_view()),
                    Err(error) => Err(error.deep_view()),
                },
            ),
    {
        match fetched {
            Err(error) => fail(error, no_logs()),
            Ok(tags) => {
                let ledger = Ledger::from_tag_names(&tags.tag_names);
                let previous_tag = match &self.args.previous_tag {
                    Some(name) => Some(name.as_str()),
                    None => None,
                };
                proof {
                    lemma_base_is_determined(
                        ledger.deep_view(),
                        tags.tag_names.deep_view(),
                        self.args.previous_tag.deep_view(),
                    );
                }
                match ledger.resolve_base(previous_tag) {
                    Err(error) => fail(error, no_logs()),
                    Ok(base) => PublishStep {
                        state: PublishState::AwaitingHistory {
                            base: base.version,
                            url_base: commit_url_base(tags.origin_url.as_str()),
                        },
                        logs: no_logs(),
                        action: PublishAction::WalkHistory {
                            repo_path: self.args.repo_path.clone(),
                            request: walk_request(
                                base.name.as_str(),
                                self.args.target_commitish.as_str(),
                            ),
                        },
                    },
                }
            },
        }
    }

    /// The step once the history was walked, or could not be.
    fn on_history(
        &self,
        base: SemanticVersion,
        url_base: String,
        walked: Result<Vec<CommitRecord>, ReleaseError>,
    ) -> (step: PublishStep)
        requires
            walked matches Ok(commits) ==> all_wf(commits.deep_view()) && (self.args.tag_name
                is None ==> base.allows(bump_for(commits.deep_view()))),
        ensures
            step.deep_view() == self.deep_view().on_history(
                base,
                url_base@,
                match walked {
                    Ok(commits) => Ok(commits.deep_view()),
                    Err(error) => Err(error.deep_view()),
                },
            ),
    {
        match walked {
            Err(error) => fail(error, no_logs()),
            Ok(commits) => {
                let manual_version = match &self.args.tag_name {
                    Some(text) => Some(text.as_str()),
                    None => None,
                };
                match generate_release_info(&base, &commits, manual_version, url_base.as_str()) {
                    Ok(info) => self.validate(info, no_logs()),
                    Err(error) => fail(error, no_logs()),
                }
            },
        }
    }

    /// Whether the machine takes `event` in `state`.
    pub fn admits(&self, state: &PublishState, event: &PublishEvent) -> (ok: bool)
        ensures
            ok == self.deep_view().admits(state.deep_view(), event.deep_view()),
    {
        match (state, event) {
            (
                PublishState::AwaitingHistory { base, .. },
                PublishEvent::HistoryWalked { walked: Ok(commits) },
            ) => {
                proof {
                    lemma_classified(commits.deep_view());
                }
                all_well_formed(commits) && (self.args.tag_name.is_some() || base.can_bump(
                    classify_commits(commits).bump(),
                ))
            },
            _ => true,
        }
    }

    /// The step once the request to create the release was answered, or
    /// got no answer.
    fn on_creation(&self, answer: Result<HttpReply, String>) -> (step: PublishStep)
        ensures
            step.deep_view() == self.deep_view().on_creation(reply_or_reason(answer)),
    {
        match answer {
            Err(reason) => fail(ReleaseError::Transport { detail: reason }, no_logs()),
            Ok(reply) => {
                if status_is_success(reply.status) {
                    match reply.body {
                        Ok(body) => PublishStep {
                            state: PublishState::Decoding,
                            logs: no_logs(),
                            action: PublishAction::DecodeRelease { body },
                        },
                        Err(reason) => fail(ReleaseError::Transport { detail: reason }, no_logs()),
                    }
                } else {
                    let mut logs = no_logs();
                    complain_if_unread(
                        &mut logs,
                        &reply.body,
                        "Failed to read error response body: ",
                    );
                    let mut text = joined(self.messages.failure, ": ");
                    push_status(&mut text, reply.status);
                    push_log(&mut logs, LogLevel::Error, text);
                    fail(
                        ReleaseError::RemoteApi {
                            status: reply.status,
                            body: body_text(reply.body),
                        },
                        logs,
                    )
                }
            },
        }
    }

    /// The step that takes the next artifact in hand, or ends the run with
    /// success.
    fn next_artifact(
        &self,
        release_id: i64,
        outcomes: Vec<ArtifactOutcome>,
        logs: Vec<LogLine>,
    ) -> (step: PublishStep)
        ensures
            step.deep_view() == self.deep_view().next_artifact(
                release_id,
                outcomes.deep_view(),
                logs.deep_view(),
            ),
    {
        match self.artifact_path(outcomes.len()) {
            Some(path) => PublishStep {
                state: PublishState::RemoteReleaseCreated {
                    release_id,
                    outcomes,
                    stage: ArtifactStage::Inspecting,
                },
                logs,
                action: PublishAction::InspectArtifact { path },
            },
            None => PublishStep {
                state: PublishState::Done { outcomes },
                logs,
                action: PublishAction::Finish,
            },
        }
    }

    /// The step once the answer was decoded, or describes no release.
    fn on_decoded(&self, decoded: Result<RemoteRelease, String>) -> (step: PublishStep)
        ensures
            step.deep_view() == self.deep_view().on_decoded(
                match decoded {
                    Ok(release) => Ok(release.deep_view()),
                    Err(reason) => Err(reason@),
                },
            ),
    {
        match decoded {
            Err(reason) => {
                let error = ReleaseError::ResponseDecode { detail: reason };
                let logs = one_log(LogLevel::Error, error.message(&self.messages));
                fail(error, logs)
            },
            Ok(release) => {
                let text = match &release.url {
                    Some(url) => labelled(self.messages.success, url.as_str()),
                    None => String::from_str(self.messages.success),
                };
                let outcomes: Vec<ArtifactOutcome> = Vec::new();
                assert(outcomes.deep_view() =~= Seq::<ArtifactOutcomeModel>::empty());
                self.next_artifact(release.id, outcomes, one_log(LogLevel::Info, text))
            },
        }
    }

    /// The step once the path of the artifact in hand was looked at.
    fn on_inspected(
        &self,
        release_id: i64,
        outcomes: Vec<ArtifactOutcome>,
        is_file: bool,
        file_name: Option<String>,
    ) -> (step: PublishStep)
        ensures
            step.deep_view() == self.deep_view().on_inspected(
                release_id,
                outcomes.deep_view(),
                is_file,
                file_name.deep_view(),
            ),
    {
        let mut outcomes = outcomes;
        match self.artifact_path(outcomes.len()) {
            None => self.next_artifact(release_id, outcomes, no_logs()),
            Some(path) => {
                if !is_file {
                    let logs = one_log(
                        LogLevel::Warn,
                        joined(
                            "Artifact path is not a file or does not exist, skipping: ",
                            path.as_str(),
                        ),
                    );
                    push_outcome(
                        &mut outcomes,
                        ArtifactOutcome::Skipped { path, reason: SkipReason::NotAFile },
                    );
                    self.next_artifact(release_id, outcomes, logs)
                } else {
                    match file_name {
                        None => {
                            let logs = one_log(
                                LogLevel::Warn,
                                joined(
                                    "Could not get filename for artifact, skipping: ",
                                    path.as_str(),
                                ),
                            );
                            push_outcome(
                                &mut outcomes,
                                ArtifactOutcome::Skipped { path, reason: SkipReason::NoFileName },
                            );
                            self.next_artifact(release_id, outcomes, logs)
                        },
                        Some(name) => {
                            let logs = one_log(
                                LogLevel::Info,
                                labelled(self.messages.upload_start, name.as_str()),
                            );
                            PublishStep {
                                state: PublishState::RemoteReleaseCreated {
                                    release_id,
                                    outcomes,
                                    stage: ArtifactStage::Reading { file_name: name },
                                },
                                logs,
                                action: PublishAction::ReadArtifact { path },
                            }
                        },
                    }
                }
            },
        }
    }

    /// The step once the file of the artifact in hand was read, or could
    /// not be.
    fn on_read(
        &self,
        release_id: i64,
        outcomes: Vec<ArtifactOutcome>,
        file_name: String,
        content: Result<Vec<u8>, String>,
    ) -> (step: PublishStep)
        ensures
            step.deep_view() == self.deep_view().on_read(
                release_id,
                outcomes.deep_view(),
                file_name@,
                match content {
                    Ok(bytes) => Ok(bytes@),
                    Err(reason) => Err(reason@),
                },
            ),
    {
        let mut outcomes = outcomes;
        match self.artifact_path(outcomes.len()) {
            None => self.next_artifact(release_id, outcomes, no_logs()),
            Some(path) => match content {
                Err(reason) => {
                    let mut text = labelled(self.messages.file_read_error, path.as_str());
                    text.append(" - ");
                    text.append(reason.as_str());
                    let logs = one_log(LogLevel::Error, text);
                    push_outcome(
                        &mut outcomes,
                        ArtifactOutcome::Skipped {
                            path,
                            reason: SkipReason::Unreadable { detail: reason },
                        },
                    );
                    self.next_artifact(release_id, outcomes, logs)
                },
                Ok(bytes) => {
                    let url = self.attach_url(release_id);
                    let logs = one_log(LogLevel::Info, joined("Uploading to: ", url.as_str()));
                    PublishStep {
                        state: PublishState::RemoteReleaseCreated {
                            release_id,
                            outcomes,
                            stage: ArtifactStage::Uploading { file_name: file_name.clone() },
                        },
                        logs,
                        action: PublishAction::UploadArtifact {
                            url,
                            authorization: self.authorization(),
                            access_token: self.args.token.clone(),
                            file_name,
                            content: bytes,
                        },
                    }
                },
            },
        }
    }

    /// The step once the upload of the artifact in hand was answered, or
    /// got no answer.
    fn on_uploaded(
        &self,
        release_id: i64,
        outcomes: Vec<ArtifactOutcome>,
        file_name: String,
        answer: Result<HttpReply, String>,
    ) -> (step: PublishStep)
        ensures
            step.deep_view() == self.deep_view().on_uploaded(
                release_id,
                outcomes.deep_view(),
                file_name@,
                reply_or_reason(answer),
            ),
    {
        let mut outcomes = outcomes;
        match answer {
            Err(reason) => {
                let logs = one_log(
                    LogLevel::Error,
                    labelled(self.messages.upload_failure, file_name.as_str()),
                );
                push_outcome(
                    &mut outcomes,
                    ArtifactOutcome::UploadFailed { file_name, detail: reason },
                );
                self.next_artifact(release_id, outcomes, logs)
            },
            Ok(reply) => {
                if status_is_success(reply.status) {
                    let logs = one_log(
                        LogLevel::Info,
                        labelled(self.messages.upload_success, file_name.as_str()),
                    );
                    push_outcome(&mut outcomes, ArtifactOutcome::Uploaded { file_name });
                    self.next_artifact(release_id, outcomes, logs)
                } else {
                    let mut logs = no_logs();
                    complain_if_unread(
                        &mut logs,
                        &reply.body,
                        "Failed to read upload error response body: ",
                    );
                    let mut detail = String::from_str("Status: ");
                    push_status(&mut detail, reply.status);
                    detail.append(", Details: ");
                    detail.append(body_text(reply.body).as_str());
                    let mut text = labelled(self.messages.upload_failure, file_name.as_str());
                    text.append(" - ");
                    text.append(detail.as_str());
                    push_log(&mut logs, LogLevel::Error, text);
                    push_outcome(
                        &mut outcomes,
                        ArtifactOutcome::UploadFailed { file_name, detail },
                    );
                    self.next_artifact(release_id, outcomes, logs)
                }
            },
        }
    }

    /// One step of the machine: from `state`, on `event`, to the next state,
    /// the lines to log and the next action.
    pub fn step(&self, state: PublishState, event: PublishEvent) -> (step: PublishStep)
        requires
            self.deep_view().admits(state.deep_view(), event.deep_view()),
        ensures
            step.deep_view() == self.deep_view().step(state.deep_view(), event.deep_view()),
    {
        match (state, event) {
            (PublishState::Start, PublishEvent::Start) => self.on_start(),
            (PublishState::AwaitingTags, PublishEvent::TagsFetched { fetched }) => self.on_tags(
                fetched,
            ),
            (
                PublishState::AwaitingHistory { base, url_base },
                PublishEvent::HistoryWalked { walked },
            ) => self.on_history(base, url_base, walked),
            (PublishState::TagValidated, PublishEvent::CreationAnswered { answer }) => {
                self.on_creation(answer)
            },
            (PublishState::Decoding, PublishEvent::ReleaseDecoded { decoded }) => self.on_decoded(
                decoded,
            ),
            (
                PublishState::RemoteReleaseCreated {
                    release_id,
                    outcomes,
                    stage: ArtifactStage::Inspecting,
                },
                PublishEvent::ArtifactInspected { is_file, file_name },
            ) => self.on_inspected(release_id, outcomes, is_file, file_name),
            (
                PublishState::RemoteReleaseCreated {
                    release_id,
                    outcomes,
                    stage: ArtifactStage::Reading { file_name },
                },
                PublishEvent::ArtifactRead { content },
            ) => self.on_read(release_id, outcomes, file_name, content),
            (
                PublishState::RemoteReleaseCreated {
                    release_id,
                    outcomes,
                    stage: ArtifactStage::Uploading { file_name },
                },
                PublishEvent::UploadAnswered { answer },
            ) => self.on_uploaded(release_id, outcomes, file_name, answer),
            (state, _) => ignore(state),
        }
    }
}

/// Begins the run that `args` ask for, against the API at `api_base_url`
/// or at its usual address: what stays the same throughout the run, and its
/// first step. The run goes on with [`Publisher::step`], from the state of
/// each step and the outcome of its action, until the action is to finish.
pub fn create_release(args: Args, api_base_url: Option<&str>) -> (run: (Publisher, PublishStep))
    ensures
        run.0.deep_view() == (PublisherModel {
            args: args.deep_view(),
            base_url: match api_base_url {
                Some(url) => url@,
                None => DEFAULT_API_BASE@,
            },
            messages: Messages::table(args.lang@),
        }),
        run.1.deep_view() == run.0.deep_view().on_start(),
{
    let publisher = Publisher::new(args, api_base_url);
    let first = publisher.step(Publisher::initial_state(), PublishEvent::Start);
    (publisher, first)
}

impl PublishStateModel {
    /// Whether the outcomes on record account for the artifacts at `paths`
    /// so far: while the release has an artifact in hand there is one
    /// outcome for each artifact before it, and once the run is done there
    /// is one for each artifact.
    pub open spec fn accounts_for(self, paths: Seq<Seq<char>>) -> bool {
        match self {
            PublishStateModel::RemoteReleaseCreated { outcomes, .. } => outcomes.len()
                < paths.len(),
            PublishStateModel::Done { outcomes } => outcomes.len() == paths.len(),
            _ => true,
        }
    }
}

/// Every artifact gets its outcome, one after the other: a step keeps the
/// outcomes in step with the artifacts, adds at most one outcome, and the
/// artifact it asks to look at is the first without an outcome.
pub proof fn lemma_every_artifact_is_accounted_for(
    publisher: PublisherModel,
    state: PublishStateModel,
    event: PublishEventModel,
)
    requires
        state.accounts_for(publisher.args.artifact_paths()),
    ensures
        publisher.step(state, event).state.accounts_for(publisher.args.artifact_paths()),
        publisher.step(state, event).action matches PublishActionModel::InspectArtifact { path }
            ==> publisher.step(state, event).state
            matches PublishStateModel::RemoteReleaseCreated { outcomes, .. } && path
            == publisher.args.artifact_paths()[outcomes.len() as int],
        state matches PublishStateModel::RemoteReleaseCreated { outcomes: before, .. } ==> (
        publisher.step(state, event).state matches PublishStateModel::RemoteReleaseCreated {
            outcomes: after,
            ..
        } ==> after == before || after.drop_last() == before),
{
}

/// A tag that is no semantic version ends the run before anything is
/// sent: the state is the failure, and the action is to finish.
pub proof fn lemma_invalid_tag_sends_nothing(
    publisher: PublisherModel,
    info: ReleaseInfoModel,
    logs: Seq<LogLineModel>,
)
    ensures
        version_of_tag(info.tag_name) is None ==> {
            &&& publisher.validate(info, logs).state == (PublishStateModel::Failed {
                error: ReleaseErrorModel::InvalidTag { tag: info.tag_name },
            })
            &&& publisher.validate(info, logs).action == PublishActionModel::Finish
        },
{
}

/// The tag of a release that is described from the history is never
/// refused: once the history is walked, the request to create the release
/// is sent under the generated tag, unless the version given by hand is no
/// semantic version, which ends the run as an invalid version.
pub proof fn lemma_generated_tag_is_accepted(
    publisher: PublisherModel,
    base: SemanticVersion,
    url_base: Seq<char>,
    commits: Seq<CommitModel>,
)
    ensures
        ({
            let next = publisher.step(
                PublishStateModel::AwaitingHistory { base, url_base },
                PublishEventModel::HistoryWalked { walked: Ok(commits) },
            );
            match next_version_text(base, commits, publisher.args.tag_name) {
                Some(version) => {
                    &&& next.state == PublishStateModel::TagValidated
                    &&& next.action matches PublishActionModel::CreateRelease { request, .. }
                    &&& request.tag_name == "v"@ + version
                    &&& request.name == "Release "@ + version
                },
                None => {
                    &&& next.state matches PublishStateModel::Failed { error }
                    &&& error is InvalidVersion
                    &&& next.action == PublishActionModel::Finish
                },
            }
        }),
{
    lemma_tag_of_release(base, commits, publisher.args.tag_name, url_base);
}

/// An answer outside the success class to the request that creates the
/// release ends the run with a failure whose message shows the status code
/// and the body of the answer.
pub proof fn lemma_rejected_creation(publisher: PublisherModel, status: u16, body: Seq<char>)
    requires
        !is_success(status),
    ensures
        publisher.step(
            PublishStateModel::TagValidated,
            PublishEventModel::CreationAnswered {
                answer: Ok(HttpReplyModel { status, body: Ok(body) }),
            },
        ).state == (PublishStateModel::Failed {
            error: ReleaseErrorModel::RemoteApi { status, body },
        }),
        publisher.step(
            PublishStateModel::TagValidated,
            PublishEventModel::CreationAnswered {
                answer: Ok(HttpReplyModel { status, body: Ok(body) }),
            },
        ).action == PublishActionModel::Finish,
        contains(
            (ReleaseErrorModel::RemoteApi { status, body }).message(publisher.messages),
            decimal(status as nat),
        ),
        contains(
            (ReleaseErrorModel::RemoteApi { status, body }).message(publisher.messages),
            body,
        ),
{
    let message = (ReleaseErrorModel::RemoteApi { status, body }).message(publisher.messages);
    let head = publisher.messages.api_error@ + ": "@;
    let line = status_line(status);
    let number = decimal(status as nat);
    assert(message.subrange(head.len() as int, head.len() as int + number.len()) =~= number);
    assert(occurs_at(message, number, head.len() as int));
    let before = head + line + " - "@;
    assert(message.subrange(before.len() as int, before.len() as int + body.len()) =~= body);
    assert(occurs_at(message, body, before.len() as int));
}

/// Once the release exists, no event makes the run fail: whatever becomes
/// of an artifact, the run goes on to the next one or ends with success,
/// under the same release.
pub proof fn lemma_artifacts_never_fail(
    publisher: PublisherModel,
    release_id: i64,
    outcomes: Seq<ArtifactOutcomeModel>,
    stage: ArtifactStageModel,
    event: PublishEventModel,
)
    ensures
        ({
            let next = publisher.step(
                PublishStateModel::RemoteReleaseCreated { release_id, outcomes, stage },
                event,
            );
            ||| next.state is Done
            ||| next.state matches PublishStateModel::RemoteReleaseCreated { release_id: id, .. }
                && id == release_id
        }),
{
}

/// An upload is asked for only once the release exists and the file of the
/// artifact in hand has been read.
pub proof fn lemma_upload_needs_release(
    publisher: PublisherModel,
    state: PublishStateModel,
    event: PublishEventModel,
)
    requires
        publisher.step(state, event).action is UploadArtifact,
    ensures
        state matches PublishStateModel::RemoteReleaseCreated { stage, .. } && stage is Reading,
        event matches PublishEventModel::ArtifactRead { content } && content is Ok,
{
}

} // verus!
