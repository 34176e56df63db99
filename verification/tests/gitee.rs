use gitee_release::args::Args;
use gitee_release::error::ReleaseError;
use gitee_release::gitee::{
    create_release, ArtifactOutcome, ArtifactStage, HttpReply, LogLevel, LogLine, PublishAction,
    PublishEvent, PublishState, Publisher, ReleaseRequest, RemoteRelease, RemoteTags, SkipReason,
    ARTIFACT_MEDIA_TYPE, DEFAULT_API_BASE, FILE_FIELD, JSON_MEDIA_TYPE, TOKEN_FIELD,
};
use gitee_release::history::{CommitRecord, WalkRequest};
use gitee_release::version::SemanticVersion;

/// What the release API and the disk answer in a test.
struct World {
    creation: Result<(u16, Result<String, String>), String>,
    upload: Result<(u16, Result<String, String>), String>,
    files: Vec<(String, Result<Vec<u8>, String>)>,
    tags: Result<RemoteTags, ReleaseError>,
    history: Result<Vec<CommitRecord>, ReleaseError>,
    walks: Vec<(String, WalkRequest)>,
    creations: Vec<(String, String, ReleaseRequest)>,
    uploads: Vec<(String, String, String, String, Vec<u8>)>,
    logs: Vec<LogLine>,
}

impl World {
    fn answering(status: u16, body: &str) -> World {
        World {
            creation: Ok((status, Ok(body.to_string()))),
            upload: Ok((200, Ok(String::from("{}")))),
            files: Vec::new(),
            tags: Ok(RemoteTags { origin_url: String::new(), tag_names: Vec::new() }),
            history: Ok(Vec::new()),
            walks: Vec::new(),
            creations: Vec::new(),
            uploads: Vec::new(),
            logs: Vec::new(),
        }
    }

    fn with_file(mut self, path: &str, content: &[u8]) -> World {
        self.files.push((path.to_string(), Ok(content.to_vec())));
        self
    }

    fn logged(&self, level: LogLevel, text: &str) -> bool {
        self.logs.iter().any(|l| l.level == level && l.text == text)
    }
}

fn reply(answer: &Result<(u16, Result<String, String>), String>) -> Result<HttpReply, String> {
    match answer {
        Ok((status, body)) => Ok(HttpReply { status: *status, body: body.clone() }),
        Err(reason) => Err(reason.clone()),
    }
}

fn decode(body: &str) -> Result<RemoteRelease, String> {
    let value: serde_json::Value = serde_json::from_str(body).map_err(|e| e.to_string())?;
    let id = value
        .get("id")
        .and_then(|id| id.as_i64())
        .ok_or_else(|| String::from("missing field `id`"))?;
    let url = value
        .get("html_url")
        .and_then(|url| url.as_str())
        .map(|url| url.to_string());
    Ok(RemoteRelease { id, url })
}

fn file_name(path: &str) -> Option<String> {
    match path.rsplit('/').next() {
        Some("") | Some("..") | None => None,
        Some(name) => Some(name.to_string()),
    }
}

/// Drives the machine against `world` until it asks to finish.
fn run(args: Args, api_base_url: Option<&str>, world: &mut World) -> PublishState {
    let publisher = Publisher::new(args, api_base_url);
    let mut state = Publisher::initial_state();
    let mut event = PublishEvent::Start;
    for _ in 0..1000 {
        assert!(publisher.admits(&state, &event));
        let step = publisher.step(state, event);
        world.logs.extend(step.logs);
        state = step.state;
        event = match step.action {
            PublishAction::Finish => return state,
            PublishAction::Wait => panic!("the machine waits in {:?}", state),
            PublishAction::FetchTags { .. } => PublishEvent::TagsFetched {
                fetched: world.tags.clone(),
            },
            PublishAction::WalkHistory { repo_path, request } => {
                world.walks.push((repo_path, request));
                PublishEvent::HistoryWalked { walked: world.history.clone() }
            }
            PublishAction::CreateRelease { url, authorization, request } => {
                world.creations.push((url, authorization, request));
                PublishEvent::CreationAnswered { answer: reply(&world.creation) }
            }
            PublishAction::DecodeRelease { body } => {
                PublishEvent::ReleaseDecoded { decoded: decode(&body) }
            }
            PublishAction::InspectArtifact { path } => PublishEvent::ArtifactInspected {
                is_file: world.files.iter().any(|(p, _)| *p == path),
                file_name: file_name(&path),
            },
            PublishAction::ReadArtifact { path } => PublishEvent::ArtifactRead {
                content: world
                    .files
                    .iter()
                    .find(|(p, _)| *p == path)
                    .map(|(_, content)| content.clone())
                    .unwrap_or_else(|| Err(String::from("No such file or directory"))),
            },
            PublishAction::UploadArtifact { url, authorization, access_token, file_name, content } => {
                world.uploads.push((url, authorization, access_token, file_name, content));
                PublishEvent::UploadAnswered { answer: reply(&world.upload) }
            }
        };
    }
    panic!("the machine does not finish");
}

fn outcome(state: &PublishState, messages_lang: &str) -> Result<(), String> {
    match state {
        PublishState::Done { .. } => Ok(()),
        PublishState::Failed { error } => {
            Err(error.message(&gitee_release::messages::Messages::new(messages_lang)))
        }
        other => panic!("the run ended in {:?}", other),
    }
}

fn default_args() -> Args {
    Args {
        owner: "test_owner".to_string(),
        repo: "test_repo".to_string(),
        token: "test_token".to_string(),
        repo_path: ".".to_string(),
        previous_tag: None,
        tag_name: Some("v1.0.0".to_string()),
        name: Some("Test Release".to_string()),
        body: Some("This is a test release.".to_string()),
        target_commitish: "main".to_string(),
        draft: false,
        prerelease: false,
        lang: "zh-cn".to_string(),
        artifacts: None,
        auto_gen_notes: false,
    }
}

const SERVER: &str = "http://127.0.0.1:1234";
const CREATED: &str =
    r#"{"id": 1, "tag_name": "v1.0.0", "html_url": "http://example.com/release/v1.0.0"}"#;

fn create_release_success() {
    let args = default_args();
    let api_path = format!("/api/v5/repos/{}/{}/releases", args.owner, args.repo);
    let mut world = World::answering(201, CREATED);
    let state = run(args, Some(SERVER), &mut world);
    let result = outcome(&state, "zh-cn");
    assert!(result.is_ok());
    assert_eq!(world.creations.len(), 1);
    assert_eq!(world.creations[0].0, format!("{}{}", SERVER, api_path));
}

fn create_release_with_artifacts_success() {
    let file_path1 = "/tmp/artifacts/artifact1.zip";
    let file_path2 = "/tmp/artifacts/artifact2.txt";
    let args = Args {
        artifacts: Some(vec![file_path1.to_string(), file_path2.to_string()]),
        ..default_args()
    };
    let release_api_path = format!("/api/v5/repos/{}/{}/releases", args.owner, args.repo);
    let release_id = 123;
    let tag = args.tag_name.clone().unwrap();
    let upload_path = format!(
        "/api/v5/repos/{}/{}/releases/{}/attach_files",
        args.owner, args.repo, release_id
    );
    let token = args.token.clone();
    let mut world = World::answering(
        201,
        &format!(
            r#"{{"id": {}, "tag_name": "{}", "html_url": "http://example.com/release/{}"}}"#,
            release_id, tag, tag
        ),
    )
    .with_file(file_path1, b"zip content")
    .with_file(file_path2, b"text content");
    world.upload = Ok((200, Ok(String::from(r#"{\"name\": \"artifact1.zip\", \"url\": \"...\"}"#))));
    let state = run(args, Some(SERVER), &mut world);
    let result = outcome(&state, "zh-cn");
    assert!(result.is_ok(), "create_release failed: {:?}", result.err());
    assert_eq!(world.creations.len(), 1);
    assert_eq!(world.creations[0].0, format!("{}{}", SERVER, release_api_path));
    assert_eq!(world.uploads.len(), 2);
    for upload in &world.uploads {
        assert_eq!(upload.0, format!("{}{}", SERVER, upload_path));
        assert_eq!(upload.1, format!("token {}", token));
        assert_eq!(upload.2, token);
    }
    assert_eq!(world.uploads[0].3, "artifact1.zip");
    assert_eq!(world.uploads[0].4, b"zip content");
    assert_eq!(world.uploads[1].3, "artifact2.txt");
    assert_eq!(world.uploads[1].4, b"text content");
}

fn create_release_success_no_html_url() {
    let args = default_args();
    let mut world = World::answering(201, r#"{"id": 1, "tag_name": "v1.0.0"}"#);
    let state = run(args, Some(SERVER), &mut world);
    let result = outcome(&state, "zh-cn");
    assert!(result.is_ok());
    assert_eq!(world.creations.len(), 1);
    assert!(world.logged(LogLevel::Info, "版本发布成功创建"));
}

fn create_release_api_error() {
    let args = default_args();
    let mut world = World::answering(401, r#"{"message": "Unauthorized"}"#);
    let state = run(args, Some(SERVER), &mut world);
    let result = outcome(&state, "zh-cn");
    assert!(result.is_err());
    assert!(result
        .unwrap_err()
        .to_string()
        .contains("API 请求失败，状态码: 401 Unauthorized - {\"message\": \"Unauthorized\"}"));
    assert_eq!(world.creations.len(), 1);
}

fn create_release_invalid_tag() {
    let args = Args {
        tag_name: Some("invalid-tag".to_string()),
        ..default_args()
    };
    let mut world = World::answering(201, CREATED);
    let state = run(args, None, &mut world);
    let result = outcome(&state, "zh-cn");
    assert!(result.is_err());
    assert!(result
        .unwrap_err()
        .to_string()
        .contains("无效的语义化版本标签名称: invalid-tag"));
    assert!(world.creations.is_empty());
}

fn create_release_success_en_us() {
    let args = Args {
        lang: "en-us".to_string(),
        ..default_args()
    };
    let mut world = World::answering(201, CREATED);
    let state = run(args, Some(SERVER), &mut world);
    let result = outcome(&state, "en-us");
    assert!(result.is_ok());
    assert_eq!(world.creations.len(), 1);
    assert!(world.logged(
        LogLevel::Info,
        "Release created successfully: http://example.com/release/v1.0.0"
    ));
}

fn create_release_api_error_en_us() {
    let args = Args {
        lang: "en-us".to_string(),
        ..default_args()
    };
    let mut world = World::answering(404, r#"{"message": "Not Found"}"#);
    let state = run(args, Some(SERVER), &mut world);
    let result = outcome(&state, "en-us");
    assert!(result.is_err());
    assert!(result.unwrap_err().to_string().contains(
        "API request failed with status: 404 Not Found - {\"message\": \"Not Found\"}"
    ));
    assert_eq!(world.creations.len(), 1);
}

#[test]
fn gitee_test_create_release_success() {
    create_release_success();
}

#[test]
fn gitee_test_create_release_with_artifacts_success() {
    create_release_with_artifacts_success();
}

#[test]
fn gitee_test_create_release_success_no_html_url() {
    create_release_success_no_html_url();
}

#[test]
fn gitee_test_create_release_api_error() {
    create_release_api_error();
}

#[test]
fn gitee_test_create_release_invalid_tag() {
    create_release_invalid_tag();
}

#[test]
fn gitee_test_create_release_success_en_us() {
    create_release_success_en_us();
}

#[test]
fn gitee_test_create_release_api_error_en_us() {
    create_release_api_error_en_us();
}

#[test]
fn main_test_create_release_success() {
    create_release_success();
}

#[test]
fn main_test_create_release_with_artifacts_success() {
    create_release_with_artifacts_success();
}

#[test]
fn main_test_create_release_success_no_html_url() {
    create_release_success_no_html_url();
}

#[test]
fn main_test_create_release_api_error() {
    create_release_api_error();
}

#[test]
fn main_test_create_release_invalid_tag() {
    create_release_invalid_tag();
}

#[test]
fn main_test_create_release_success_en_us() {
    create_release_success_en_us();
}

#[test]
fn main_test_create_release_api_error_en_us() {
    create_release_api_error_en_us();
}

#[test]
fn a_run_begins_with_its_first_step() {
    let (publisher, first) = create_release(default_args(), Some(SERVER));
    assert_eq!(publisher.base_url, SERVER);
    assert_eq!(publisher.args.owner, "test_owner");
    assert!(matches!(first.state, PublishState::TagValidated));
    match first.action {
        PublishAction::CreateRelease { url, authorization, request } => {
            assert_eq!(url, format!("{}/api/v5/repos/test_owner/test_repo/releases", SERVER));
            assert_eq!(authorization, "token test_token");
            assert_eq!(request.tag_name, "v1.0.0");
        }
        other => panic!("unexpected action: {:?}", other),
    }
    let refused = Args { tag_name: Some("invalid-tag".to_string()), ..default_args() };
    let (_, first) = create_release(refused, None);
    assert!(matches!(first.state, PublishState::Failed { .. }));
    assert!(matches!(first.action, PublishAction::Finish));
}

#[test]
fn the_wire_constants() {
    assert_eq!(DEFAULT_API_BASE, "https://gitee.com");
    assert_eq!(JSON_MEDIA_TYPE, "application/json");
    assert_eq!(ARTIFACT_MEDIA_TYPE, "application/octet-stream");
    assert_eq!(TOKEN_FIELD, "access_token");
    assert_eq!(FILE_FIELD, "file");
}

#[test]
fn addresses_and_authorization() {
    let publisher = Publisher::new(default_args(), None);
    assert_eq!(publisher.base_url, "https://gitee.com");
    assert_eq!(publisher.messages.success, "版本发布成功创建");
    assert_eq!(
        publisher.releases_url(),
        "https://gitee.com/api/v5/repos/test_owner/test_repo/releases"
    );
    assert_eq!(
        publisher.attach_url(123),
        "https://gitee.com/api/v5/repos/test_owner/test_repo/releases/123/attach_files"
    );
    assert_eq!(
        publisher.attach_url(-7),
        "https://gitee.com/api/v5/repos/test_owner/test_repo/releases/-7/attach_files"
    );
    assert_eq!(publisher.authorization(), "token test_token");
    let local = Publisher::new(default_args(), Some("http://localhost:8080"));
    assert_eq!(
        local.releases_url(),
        "http://localhost:8080/api/v5/repos/test_owner/test_repo/releases"
    );
}

#[test]
fn the_request_carries_the_release() {
    let args = Args {
        draft: true,
        prerelease: true,
        target_commitish: "develop".to_string(),
        ..default_args()
    };
    let mut world = World::answering(201, CREATED);
    run(args, None, &mut world);
    let (url, authorization, request) = &world.creations[0];
    assert_eq!(url, "https://gitee.com/api/v5/repos/test_owner/test_repo/releases");
    assert_eq!(authorization, "token test_token");
    assert_eq!(request.tag_name, "v1.0.0");
    assert_eq!(request.target_commitish, "develop");
    assert_eq!(request.name, "Test Release");
    assert_eq!(request.body, "This is a test release.");
    assert!(request.draft);
    assert!(request.prerelease);
    assert!(world.logged(
        LogLevel::Info,
        "Sending request to Gitee API: https://gitee.com/api/v5/repos/test_owner/test_repo/releases"
    ));
}

#[test]
fn a_tag_that_is_no_version_sends_nothing() {
    let args = Args {
        tag_name: Some("not-a-version".to_string()),
        artifacts: Some(vec!["/tmp/a.zip".to_string()]),
        ..default_args()
    };
    let mut world = World::answering(201, CREATED).with_file("/tmp/a.zip", b"a");
    let state = run(args, Some(SERVER), &mut world);
    match &state {
        PublishState::Failed { error: ReleaseError::InvalidTag { tag } } => {
            assert_eq!(tag, "not-a-version")
        }
        other => panic!("unexpected state: {:?}", other),
    }
    assert!(world.creations.is_empty());
    assert!(world.uploads.is_empty());
    assert!(world.logged(LogLevel::Error, "无效的语义化版本标签名称: not-a-version"));
}

#[test]
fn a_missing_artifact_is_skipped_and_the_run_succeeds() {
    let args = Args {
        artifacts: Some(vec!["/tmp/missing.zip".to_string(), "/tmp/present.txt".to_string()]),
        ..default_args()
    };
    let mut world = World::answering(201, r#"{"id": 123}"#).with_file("/tmp/present.txt", b"text");
    let state = run(args, Some(SERVER), &mut world);
    assert_eq!(world.creations.len(), 1);
    assert_eq!(world.uploads.len(), 1);
    assert_eq!(
        world.uploads[0].0,
        format!("{}/api/v5/repos/test_owner/test_repo/releases/123/attach_files", SERVER)
    );
    assert_eq!(world.uploads[0].3, "present.txt");
    assert!(world.logged(
        LogLevel::Warn,
        "Artifact path is not a file or does not exist, skipping: /tmp/missing.zip"
    ));
    assert!(world.logged(LogLevel::Info, "开始上传 artifact: present.txt"));
    assert!(world.logged(
        LogLevel::Info,
        &format!(
            "Uploading to: {}/api/v5/repos/test_owner/test_repo/releases/123/attach_files",
            SERVER
        )
    ));
    assert!(world.logged(LogLevel::Info, "成功上传 artifact: present.txt"));
    match state {
        PublishState::Done { outcomes } => {
            assert_eq!(outcomes.len(), 2);
            match &outcomes[0] {
                ArtifactOutcome::Skipped { path, reason: SkipReason::NotAFile } => {
                    assert_eq!(path, "/tmp/missing.zip")
                }
                other => panic!("unexpected outcome: {:?}", other),
            }
            match &outcomes[1] {
                ArtifactOutcome::Uploaded { file_name } => assert_eq!(file_name, "present.txt"),
                other => panic!("unexpected outcome: {:?}", other),
            }
        }
        other => panic!("unexpected state: {:?}", other),
    }
}

#[test]
fn a_refused_creation_uploads_nothing() {
    let args = Args {
        artifacts: Some(vec!["/tmp/present.txt".to_string()]),
        ..default_args()
    };
    let mut world =
        World::answering(401, r#"{"message": "Unauthorized"}"#).with_file("/tmp/present.txt", b"x");
    let state = run(args, Some(SERVER), &mut world);
    let text = outcome(&state, "zh-cn").unwrap_err();
    assert!(text.contains("401"));
    assert!(text.contains(r#"{"message": "Unauthorized"}"#));
    match state {
        PublishState::Failed { error: ReleaseError::RemoteApi { status, body } } => {
            assert_eq!(status, 401);
            assert_eq!(body, r#"{"message": "Unauthorized"}"#);
        }
        other => panic!("unexpected state: {:?}", other),
    }
    assert_eq!(world.creations.len(), 1);
    assert!(world.uploads.is_empty());
    assert!(world.logged(LogLevel::Error, "创建版本发布失败: 401 Unauthorized"));
}

#[test]
fn a_creation_without_answer_fails_the_run() {
    let mut world = World::answering(201, CREATED);
    world.creation = Err(String::from("connection refused"));
    let state = run(default_args(), Some(SERVER), &mut world);
    match state {
        PublishState::Failed { error: ReleaseError::Transport { detail } } => {
            assert_eq!(detail, "connection refused")
        }
        other => panic!("unexpected state: {:?}", other),
    }
    assert!(world.uploads.is_empty());
}

#[test]
fn a_success_whose_body_cannot_be_read_fails_the_run() {
    let mut world = World::answering(201, CREATED);
    world.creation = Ok((201, Err(String::from("body cut short"))));
    let state = run(default_args(), Some(SERVER), &mut world);
    match state {
        PublishState::Failed { error: ReleaseError::Transport { detail } } => {
            assert_eq!(detail, "body cut short")
        }
        other => panic!("unexpected state: {:?}", other),
    }
}

#[test]
fn a_refusal_whose_body_cannot_be_read_shows_a_placeholder() {
    let mut world = World::answering(500, "");
    world.creation = Ok((500, Err(String::from("body cut short"))));
    let state = run(default_args(), Some(SERVER), &mut world);
    assert_eq!(
        outcome(&state, "zh-cn").unwrap_err(),
        "API 请求失败，状态码: 500 Internal Server Error - Could not read error body"
    );
    assert!(world.logged(LogLevel::Error, "Failed to read error response body: body cut short"));
    assert!(world.logged(LogLevel::Error, "创建版本发布失败: 500 Internal Server Error"));
}

#[test]
fn an_answer_that_describes_no_release_fails_the_run() {
    for body in ["", "not json", "{}", r#"{"id": "one"}"#, r#"{"html_url": "x"}"#] {
        let args = Args {
            artifacts: Some(vec!["/tmp/present.txt".to_string()]),
            ..default_args()
        };
        let mut world = World::answering(200, body).with_file("/tmp/present.txt", b"x");
        let state = run(args, Some(SERVER), &mut world);
        let text = outcome(&state, "en-us").unwrap_err();
        assert!(text.starts_with("Failed to parse release creation response: "));
        match state {
            PublishState::Failed { error: ReleaseError::ResponseDecode { .. } } => {}
            other => panic!("unexpected state: {:?}", other),
        }
        assert!(world.uploads.is_empty());
        assert!(world.logged(LogLevel::Error, &text));
    }
}

#[test]
fn no_artifact_failure_fails_the_run() {
    let args = Args {
        lang: "en-us".to_string(),
        artifacts: Some(vec![
            "/tmp/a.zip".to_string(),
            "/tmp/dir/".to_string(),
            "/tmp/unreadable.bin".to_string(),
            "/tmp/b.zip".to_string(),
        ]),
        ..default_args()
    };
    let mut world = World::answering(201, r#"{"id": 9}"#)
        .with_file("/tmp/a.zip", b"a")
        .with_file("/tmp/dir/", b"")
        .with_file("/tmp/b.zip", b"b");
    world.files.push(("/tmp/unreadable.bin".to_string(), Err(String::from("Permission denied"))));
    world.upload = Ok((413, Ok(String::from("too large"))));
    let state = run(args, Some(SERVER), &mut world);
    assert!(outcome(&state, "en-us").is_ok());
    assert_eq!(world.uploads.len(), 2);
    assert!(world.logged(
        LogLevel::Error,
        "Failed to upload artifact: a.zip - Status: 413 Payload Too Large, Details: too large"
    ));
    assert!(world.logged(
        LogLevel::Warn,
        "Could not get filename for artifact, skipping: /tmp/dir/"
    ));
    assert!(world.logged(
        LogLevel::Error,
        "Failed to read artifact file: /tmp/unreadable.bin - Permission denied"
    ));
    match state {
        PublishState::Done { outcomes } => {
            assert_eq!(outcomes.len(), 4);
            match &outcomes[0] {
                ArtifactOutcome::UploadFailed { file_name, detail } => {
                    assert_eq!(file_name, "a.zip");
                    assert_eq!(detail, "Status: 413 Payload Too Large, Details: too large");
                }
                other => panic!("unexpected outcome: {:?}", other),
            }
            match &outcomes[1] {
                ArtifactOutcome::Skipped { path, reason: SkipReason::NoFileName } => {
                    assert_eq!(path, "/tmp/dir/")
                }
                other => panic!("unexpected outcome: {:?}", other),
            }
            match &outcomes[2] {
                ArtifactOutcome::Skipped { path, reason: SkipReason::Unreadable { detail } } => {
                    assert_eq!(path, "/tmp/unreadable.bin");
                    assert_eq!(detail, "Permission denied");
                }
                other => panic!("unexpected outcome: {:?}", other),
            }
            match &outcomes[3] {
                ArtifactOutcome::UploadFailed { file_name, .. } => assert_eq!(file_name, "b.zip"),
                other => panic!("unexpected outcome: {:?}", other),
            }
        }
        other => panic!("unexpected state: {:?}", other),
    }
}

#[test]
fn an_upload_without_answer_is_logged_and_passed_over() {
    let args = Args {
        lang: "en-us".to_string(),
        artifacts: Some(vec!["/tmp/a.zip".to_string()]),
        ..default_args()
    };
    let mut world = World::answering(201, r#"{"id": 9}"#).with_file("/tmp/a.zip", b"a");
    world.upload = Err(String::from("connection reset"));
    let state = run(args, Some(SERVER), &mut world);
    assert!(world.logged(LogLevel::Error, "Failed to upload artifact: a.zip"));
    match state {
        PublishState::Done { outcomes } => match &outcomes[0] {
            ArtifactOutcome::UploadFailed { file_name, detail } => {
                assert_eq!(file_name, "a.zip");
                assert_eq!(detail, "connection reset");
            }
            other => panic!("unexpected outcome: {:?}", other),
        },
        other => panic!("unexpected state: {:?}", other),
    }
}

#[test]
fn an_upload_refusal_whose_body_cannot_be_read_shows_a_placeholder() {
    let args = Args {
        lang: "en-us".to_string(),
        artifacts: Some(vec!["/tmp/a.zip".to_string()]),
        ..default_args()
    };
    let mut world = World::answering(201, r#"{"id": 9}"#).with_file("/tmp/a.zip", b"a");
    world.upload = Ok((500, Err(String::from("body cut short"))));
    let state = run(args, Some(SERVER), &mut world);
    assert!(outcome(&state, "en-us").is_ok());
    assert!(world.logged(
        LogLevel::Error,
        "Failed to read upload error response body: body cut short"
    ));
    assert!(world.logged(
        LogLevel::Error,
        "Failed to upload artifact: a.zip - Status: 500 Internal Server Error, Details: Could not read error body"
    ));
}

#[test]
fn without_artifacts_the_run_ends_with_the_release() {
    for artifacts in [None, Some(vec![])] {
        let args = Args { artifacts, ..default_args() };
        let mut world = World::answering(201, CREATED);
        let state = run(args, Some(SERVER), &mut world);
        match state {
            PublishState::Done { outcomes } => assert!(outcomes.is_empty()),
            other => panic!("unexpected state: {:?}", other),
        }
        assert!(world.uploads.is_empty());
    }
}

#[test]
fn empty_fields_are_complained_about() {
    let args = Args {
        tag_name: Some("v1.0.0".to_string()),
        name: None,
        body: Some(String::new()),
        ..default_args()
    };
    let mut world = World::answering(201, CREATED);
    let state = run(args, Some(SERVER), &mut world);
    assert!(outcome(&state, "zh-cn").is_ok());
    let complaints = world
        .logs
        .iter()
        .filter(|l| {
            l.level == LogLevel::Error
                && l.text == "Tag name, release name, and body cannot be empty"
        })
        .count();
    assert_eq!(complaints, 2);
    assert_eq!(world.creations[0].2.name, "");
    assert_eq!(world.creations[0].2.body, "");
}

#[test]
fn a_missing_tag_fails_as_an_invalid_tag() {
    let args = Args { tag_name: None, ..default_args() };
    let mut world = World::answering(201, CREATED);
    let state = run(args, Some(SERVER), &mut world);
    assert_eq!(outcome(&state, "en-us").unwrap_err(), "Invalid semantic version tag name: ");
    assert!(world.creations.is_empty());
}

fn sha(digit: char) -> String {
    std::iter::repeat(digit).take(40).collect()
}

fn commit(digit: char, summary: &str) -> CommitRecord {
    CommitRecord::new(&sha(digit), summary).unwrap()
}

fn generating() -> Args {
    Args {
        auto_gen_notes: true,
        repo_path: "/srv/repo".to_string(),
        previous_tag: None,
        tag_name: None,
        name: Some("not used".to_string()),
        body: Some("not used".to_string()),
        ..default_args()
    }
}

#[test]
fn a_release_is_described_from_the_history() {
    let mut world = World::answering(201, CREATED);
    world.tags = Ok(RemoteTags {
        origin_url: "git@gitee.com:test_owner/test_repo.git".to_string(),
        tag_names: vec!["v1.2.3".to_string(), "nightly".to_string(), "v1.10.0".to_string()],
    });
    world.history = Ok(vec![commit('a', "feat: add X"), commit('b', "fix: correct Y")]);
    let state = run(generating(), Some(SERVER), &mut world);
    assert!(outcome(&state, "zh-cn").is_ok());
    assert!(world.logged(LogLevel::Info, "Auto-generating release notes..."));
    assert_eq!(world.walks.len(), 1);
    assert_eq!(world.walks[0].0, "/srv/repo");
    match &world.walks[0].1 {
        WalkRequest::Range { range } => assert_eq!(range, "v1.10.0..main"),
        other => panic!("unexpected walk: {:?}", other),
    }
    let request = &world.creations[0].2;
    assert_eq!(request.tag_name, "v1.11.0");
    assert_eq!(request.name, "Release 1.11.0");
    let link = "https://gitee.com/test_owner/test_repo/commit";
    assert_eq!(
        request.body,
        format!(
            "## ‚ú® Features\n- feat: add X ([aaaaaaa]({}/{}))\n\n## \u{f8ff}üêõ Bug Fixes\n- fix: correct Y ([bbbbbbb]({}/{}))\n\n",
            link,
            sha('a'),
            link,
            sha('b')
        )
    );
    assert_eq!(request.target_commitish, "main");
}

#[test]
fn without_tags_the_whole_history_is_described() {
    let mut world = World::answering(201, CREATED);
    world.history = Ok(vec![commit('a', "feat: add X"), commit('b', "fix: correct Y")]);
    let state = run(generating(), Some(SERVER), &mut world);
    assert!(outcome(&state, "zh-cn").is_ok());
    match &world.walks[0].1 {
        WalkRequest::FullAncestry { target } => assert_eq!(target, "main"),
        other => panic!("unexpected walk: {:?}", other),
    }
    assert_eq!(world.creations[0].2.tag_name, "v0.1.0");
}

#[test]
fn the_history_starts_at_the_tag_asked_for() {
    let args = Args { previous_tag: Some("v1.2.3".to_string()), ..generating() };
    let mut world = World::answering(201, CREATED);
    world.tags = Ok(RemoteTags {
        origin_url: "https://gitee.com/o/r.git".to_string(),
        tag_names: vec!["v2.0.0".to_string(), "v1.2.3".to_string()],
    });
    world.history = Ok(vec![commit('a', "feat!: remove old API"), commit('b', "fix: minor patch")]);
    let state = run(args, Some(SERVER), &mut world);
    assert!(outcome(&state, "zh-cn").is_ok());
    match &world.walks[0].1 {
        WalkRequest::Range { range } => assert_eq!(range, "v1.2.3..main"),
        other => panic!("unexpected walk: {:?}", other),
    }
    assert_eq!(world.creations[0].2.tag_name, "v2.0.0");
    assert!(world.creations[0].2.body.contains("(https://gitee.com/o/r/commit/"));
}

#[test]
fn a_tag_to_start_from_that_is_unknown_fails_the_run() {
    let args = Args { previous_tag: Some("v0.9.0".to_string()), ..generating() };
    let mut world = World::answering(201, CREATED);
    world.tags = Ok(RemoteTags {
        origin_url: String::new(),
        tag_names: vec!["v1.0.0".to_string()],
    });
    let state = run(args, Some(SERVER), &mut world);
    assert_eq!(outcome(&state, "zh-cn").unwrap_err(), "Previous tag v0.9.0 not found");
    assert!(world.walks.is_empty());
    assert!(world.creations.is_empty());
}

#[test]
fn a_version_given_by_hand_takes_the_place_of_the_computed_one() {
    let args = Args { tag_name: Some("v9.9.9".to_string()), ..generating() };
    let mut world = World::answering(201, CREATED);
    world.history = Ok(vec![commit('a', "feat: add X")]);
    let state = run(args, Some(SERVER), &mut world);
    assert!(outcome(&state, "zh-cn").is_ok());
    assert_eq!(world.creations[0].2.tag_name, "v9.9.9");
    assert_eq!(world.creations[0].2.name, "Release 9.9.9");
}

#[test]
fn a_version_given_by_hand_that_is_none_fails_after_the_walk() {
    let args = Args { tag_name: Some("next".to_string()), ..generating() };
    let mut world = World::answering(201, CREATED);
    let state = run(args, Some(SERVER), &mut world);
    match &state {
        PublishState::Failed { error: ReleaseError::InvalidVersion { text, detail } } => {
            assert_eq!(text, "next");
            assert_eq!(detail, "unexpected character 'n' while parsing major version number");
        }
        other => panic!("unexpected state: {:?}", other),
    }
    assert_eq!(
        outcome(&state, "zh-cn").unwrap_err(),
        "unexpected character 'n' while parsing major version number"
    );
    assert_eq!(world.walks.len(), 1);
    assert!(world.creations.is_empty());
}

#[test]
fn a_repository_that_cannot_be_reached_fails_the_run() {
    let mut world = World::answering(201, CREATED);
    world.tags = Err(ReleaseError::RepositoryAccess { detail: "no repository".to_string() });
    let state = run(generating(), Some(SERVER), &mut world);
    assert_eq!(outcome(&state, "zh-cn").unwrap_err(), "no repository");
    assert!(matches!(
        state,
        PublishState::Failed { error: ReleaseError::RepositoryAccess { .. } }
    ));
    assert!(world.walks.is_empty());
    assert!(world.creations.is_empty());
}

#[test]
fn a_walk_whose_end_names_no_commit_fails_the_run() {
    let mut world = World::answering(201, CREATED);
    world.history = Err(ReleaseError::RevisionRange { detail: "revspec 'x' not found".to_string() });
    let state = run(generating(), Some(SERVER), &mut world);
    assert_eq!(outcome(&state, "zh-cn").unwrap_err(), "revspec 'x' not found");
    assert!(matches!(
        state,
        PublishState::Failed { error: ReleaseError::RevisionRange { .. } }
    ));
    assert!(world.creations.is_empty());
}

#[test]
fn a_history_that_cannot_be_described_is_not_admitted() {
    let publisher = Publisher::new(generating(), Some(SERVER));
    let waiting = |base: SemanticVersion| PublishState::AwaitingHistory {
        base,
        url_base: String::new(),
    };
    let walked = |commits: Vec<CommitRecord>| PublishEvent::HistoryWalked { walked: Ok(commits) };
    let short = CommitRecord { sha: "abc".to_string(), summary: "fix: x".to_string() };
    let base = SemanticVersion::new(1, 2, 3);
    assert!(publisher.admits(&waiting(base), &walked(vec![commit('a', "fix: x")])));
    assert!(!publisher.admits(&waiting(base), &walked(vec![commit('a', "fix: x"), short.clone()])));
    assert!(publisher.admits(&PublishState::Start, &walked(vec![short])));
    let full = SemanticVersion::new(1, u64::MAX, 3);
    assert!(!publisher.admits(&waiting(full), &walked(vec![commit('a', "feat: x")])));
    assert!(publisher.admits(&waiting(full), &walked(vec![commit('a', "fix: x")])));
    assert!(publisher.admits(&waiting(full), &walked(vec![commit('a', "feat!: x")])));
    let by_hand = Publisher::new(
        Args { tag_name: Some("v2.0.0".to_string()), ..generating() },
        Some(SERVER),
    );
    assert!(by_hand.admits(&waiting(full), &walked(vec![commit('a', "feat: x")])));
    assert!(publisher.admits(
        &waiting(full),
        &PublishEvent::HistoryWalked {
            walked: Err(ReleaseError::RevisionRange { detail: String::new() })
        }
    ));
}

#[test]
fn an_event_that_answers_nothing_is_ignored() {
    let publisher = Publisher::new(default_args(), Some(SERVER));
    let step = publisher.step(
        PublishState::TagValidated,
        PublishEvent::ArtifactInspected { is_file: true, file_name: None },
    );
    assert!(matches!(step.state, PublishState::TagValidated));
    assert!(matches!(step.action, PublishAction::Wait));
    assert!(step.logs.is_empty());
    let again = publisher.step(PublishState::Start, PublishEvent::ReleaseDecoded {
        decoded: Ok(RemoteRelease { id: 1, url: None }),
    });
    assert!(matches!(again.state, PublishState::Start));
    assert!(matches!(again.action, PublishAction::Wait));
    let reading = publisher.step(
        PublishState::RemoteReleaseCreated {
            release_id: 1,
            outcomes: vec![],
            stage: ArtifactStage::Reading { file_name: "a".to_string() },
        },
        PublishEvent::UploadAnswered { answer: Err("x".to_string()) },
    );
    assert!(matches!(reading.action, PublishAction::Wait));
    assert!(matches!(
        reading.state,
        PublishState::RemoteReleaseCreated { release_id: 1, stage: ArtifactStage::Reading { .. }, .. }
    ));
}

#[test]
fn a_run_that_has_ended_stays_ended() {
    let publisher = Publisher::new(default_args(), Some(SERVER));
    let done = publisher.step(PublishState::Done { outcomes: vec![] }, PublishEvent::Start);
    assert!(matches!(done.state, PublishState::Done { .. }));
    assert!(matches!(done.action, PublishAction::Finish));
    let failed = publisher.step(
        PublishState::Failed { error: ReleaseError::InvalidTag { tag: "x".to_string() } },
        PublishEvent::CreationAnswered { answer: Err("late".to_string()) },
    );
    assert!(matches!(
        failed.state,
        PublishState::Failed { error: ReleaseError::InvalidTag { .. } }
    ));
    assert!(matches!(failed.action, PublishAction::Finish));
}
