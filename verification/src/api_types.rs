//! Plain data shapes exchanged with the surrounding application and the
//! provider REST clients. The clients themselves are external collaborators;
//! only their request and response shapes live here.

use vstd::prelude::*;

verus! {

/// Common response wrapper: either data or an error message.
#[derive(Debug)]
pub struct ApiResponse<T> {
    pub success: bool,
    pub data: Option<T>,
    pub error: Option<String>,
}

impl<T> ApiResponse<T> {
    /// A successful response carrying its data and no error.
    pub fn success(data: T) -> (r: Self)
        ensures
            r.success == true,
            r.data == Some(data),
            r.error is None,
    {
        ApiResponse { success: true, data: Some(data), error: None }
    }

    /// A failed response carrying its message and no data.
    pub fn error(message: String) -> (r: Self)
        ensures
            r.success == false,
            r.data is None,
            r.error == Some(message),
    {
        ApiResponse { success: false, data: None, error: Some(message) }
    }
}

/// Token response of the Baidu token exchange.
#[derive(Debug, PartialEq)]
pub struct BaiduTokenResponse {
    pub access_token: String,
    pub expires_in: u64,
    pub refresh_token: String,
    pub scope: String,
}

/// One entry of a Baidu Netdisk file listing.
#[derive(Debug, PartialEq)]
pub struct BaiduFileInfo {
    pub fs_id: u64,
    pub path: String,
    pub server_filename: String,
    pub size: u64,
    pub isdir: u8,
    pub category: u32,
    pub md5: Option<String>,
    pub server_mtime: u64,
    pub local_mtime: u64,
}

/// A Baidu Netdisk file listing with its error code.
#[derive(Debug)]
pub struct BaiduFileListResponse {
    pub errno: i32,
    pub list: Vec<BaiduFileInfo>,
}

/// Token usage counters of a Qwen chat completion.
#[derive(Debug, PartialEq, Eq, Structural)]
pub struct QwenUsage {
    pub prompt_tokens: u32,
    pub completion_tokens: u32,
    pub total_tokens: u32,
}

/// One model entry of the Qwen models listing.
#[derive(Debug, PartialEq)]
pub struct QwenModel {
    pub id: String,
    pub object: String,
    pub created: u64,
    pub owned_by: String,
}

/// The Qwen models listing.
#[derive(Debug)]
pub struct QwenModelsResponse {
    pub object: String,
    pub data: Vec<QwenModel>,
}

/// One speech-synthesis voice.
#[derive(Debug, PartialEq)]
pub struct TtsVoice {
    pub short_name: String,
    pub friendly_name: String,
    pub locale: String,
    pub gender: String,
    pub description: Option<String>,
}

/// The voice listing: every voice, and the Chinese subset.
#[derive(Debug)]
pub struct TtsVoicesResponse {
    pub all: Vec<TtsVoice>,
    pub chinese: Vec<TtsVoice>,
}

/// A speech-synthesis request: the text, the voice, and prosody offsets in
/// percent, each within -100 to 100 with 0 as the default.
#[derive(Debug, PartialEq)]
pub struct TtsSynthesisRequest {
    pub text: String,
    pub voice: String,
    pub rate: i32,
    pub pitch: i32,
    pub volume: i32,
}

/// The voice a synthesis request falls back to when none is named.
pub fn default_voice() -> (r: String)
    ensures
        r@ == "zh-CN-XiaoxiaoNeural"@,
{
    "zh-CN-XiaoxiaoNeural".to_owned()
}

} // verus!
