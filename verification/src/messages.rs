//! The texts shown to people, by language.

use crate::text::same_text;
use vstd::prelude::*;

verus! {

/// The texts of one language. The first four name fatal outcomes and the
/// success of a release; the last four tell of the upload of one artifact.
#[derive(Clone, Copy, Debug)]
pub struct Messages {
    pub invalid_tag: &'static str,
    pub success: &'static str,
    pub failure: &'static str,
    pub api_error: &'static str,
    pub upload_start: &'static str,
    pub upload_success: &'static str,
    pub upload_failure: &'static str,
    pub file_read_error: &'static str,
}

impl Messages {
    /// The English texts.
    pub open spec fn english() -> Messages {
        Messages {
            invalid_tag: "Invalid semantic version tag name",
            success: "Release created successfully",
            failure: "Failed to create release",
            api_error: "API request failed with status",
            upload_start: "Uploading artifact",
            upload_success: "Successfully uploaded artifact",
            upload_failure: "Failed to upload artifact",
            file_read_error: "Failed to read artifact file",
        }
    }

    /// The Chinese texts.
    pub open spec fn chinese() -> Messages {
        Messages {
            invalid_tag: "无效的语义化版本标签名称",
            success: "版本发布成功创建",
            failure: "创建版本发布失败",
            api_error: "API 请求失败，状态码",
            upload_start: "开始上传 artifact",
            upload_success: "成功上传 artifact",
            upload_failure: "上传 artifact 失败",
            file_read_error: "读取 artifact 文件失败",
        }
    }

    /// The texts of a language: English for `en-us`, Chinese for any other
    /// name.
    pub open spec fn table(lang: Seq<char>) -> Messages {
        if lang == "en-us"@ {
            Self::english()
        } else {
            Self::chinese()
        }
    }

    /// The texts of the language named `lang`.
    pub fn new(lang: &str) -> (messages: Messages)
        ensures
            messages == Self::table(lang@),
    {
        if same_text(lang, "en-us") {
            Messages {
                invalid_tag: "Invalid semantic version tag name",
                success: "Release created successfully",
                failure: "Failed to create release",
                api_error: "API request failed with status",
                upload_start: "Uploading artifact",
                upload_success: "Successfully uploaded artifact",
                upload_failure: "Failed to upload artifact",
                file_read_error: "Failed to read artifact file",
            }
        } else {
            Messages {
                invalid_tag: "无效的语义化版本标签名称",
                success: "版本发布成功创建",
                failure: "创建版本发布失败",
                api_error: "API 请求失败，状态码",
                upload_start: "开始上传 artifact",
                upload_success: "成功上传 artifact",
                upload_failure: "上传 artifact 失败",
                file_read_error: "读取 artifact 文件失败",
            }
        }
    }
}

} // verus!
