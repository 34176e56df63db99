use gitee_release::error::ReleaseError;
use gitee_release::messages::Messages;

fn text(value: &str) -> String {
    String::from(value)
}

#[test]
fn an_invalid_tag_is_told_in_the_language() {
    let error = ReleaseError::InvalidTag { tag: text("invalid-tag") };
    assert_eq!(
        error.message(&Messages::new("zh-cn")),
        "无效的语义化版本标签名称: invalid-tag"
    );
    assert_eq!(
        error.message(&Messages::new("en-us")),
        "Invalid semantic version tag name: invalid-tag"
    );
}

#[test]
fn an_api_error_shows_status_and_body() {
    let unauthorized = ReleaseError::RemoteApi {
        status: 401,
        body: text("{\"message\": \"Unauthorized\"}"),
    };
    assert_eq!(
        unauthorized.message(&Messages::new("zh-cn")),
        "API 请求失败，状态码: 401 Unauthorized - {\"message\": \"Unauthorized\"}"
    );
    let not_found = ReleaseError::RemoteApi {
        status: 404,
        body: text("{\"message\": \"Not Found\"}"),
    };
    assert_eq!(
        not_found.message(&Messages::new("en-us")),
        "API request failed with status: 404 Not Found - {\"message\": \"Not Found\"}"
    );
    let unread = ReleaseError::RemoteApi { status: 500, body: text("Could not read error body") };
    assert_eq!(
        unread.message(&Messages::new("en-us")),
        "API request failed with status: 500 Internal Server Error - Could not read error body"
    );
}

#[test]
fn the_other_errors_have_one_text() {
    for messages in [Messages::new("en-us"), Messages::new("zh-cn")] {
        assert_eq!(
            ReleaseError::UnknownTag { tag: text("v0.9.0") }.message(&messages),
            "Previous tag v0.9.0 not found"
        );
        assert_eq!(
            ReleaseError::ResponseDecode { detail: text("missing field `id`") }.message(&messages),
            "Failed to parse release creation response: missing field `id`"
        );
        assert_eq!(
            ReleaseError::InvalidVersion { text: text("x"), detail: text("bad version") }
                .message(&messages),
            "bad version"
        );
        assert_eq!(
            ReleaseError::Transport { detail: text("connection refused") }.message(&messages),
            "connection refused"
        );
        assert_eq!(
            ReleaseError::RepositoryAccess { detail: text("no repository") }.message(&messages),
            "no repository"
        );
        assert_eq!(
            ReleaseError::RevisionRange { detail: text("no such revision") }.message(&messages),
            "no such revision"
        );
    }
}
