//! Plain data models of the provider's responses. The surrounding
//! application decodes JSON payloads into these shapes; the library's
//! contracts speak of their fields.

use vstd::prelude::*;

verus! {

/// The provider's uniform response envelope: a numeric status, an optional
/// message, and the payload fields flattened beside them.
#[derive(Debug, Clone, PartialEq, Eq)]
pub struct ApiResponse<T> {
    /// Error code; zero means success.
    pub errno: i32,
    /// Error message, if any.
    pub errmsg: Option<String>,
    /// Decoded payload, if any.
    pub data: Option<T>,
}

/// One remote file or directory record.
#[derive(Debug, Clone, PartialEq, Eq)]
pub struct FileInfo {
    /// Server-assigned file id.
    pub fs_id: Option<i64>,
    /// Full remote path.
    pub path: Option<String>,
    /// Display name.
    pub server_filename: Option<String>,
    /// Size in bytes.
    pub size: Option<i64>,
    /// Directory flag (0: file, 1: directory).
    pub isdir: Option<i32>,
    /// Category code.
    pub category: Option<i32>,
    /// Creation timestamp.
    pub ctime: Option<i64>,
    /// Modification timestamp.
    pub mtime: Option<i64>,
    /// Content digest.
    pub md5: Option<String>,
    /// Source type.
    pub from_type: Option<i32>,
}

/// A page of file records.
#[derive(Debug, Clone, PartialEq, Eq)]
pub struct FileListResponse {
    /// The records.
    pub list: Vec<FileInfo>,
    /// Paging cursor.
    pub cursor: Option<String>,
    /// Whether more records follow (0: no, 1: yes).
    pub has_more: Option<i32>,
}

/// Outcome of a precreate call.
#[derive(Debug, Clone, PartialEq, Eq)]
pub struct FilePrecreateResponse {
    /// Opaque upload session id, consumed by slice uploads and create.
    pub uploadid: String,
    /// Discriminator: 1 means the server matched every chunk digest and the
    /// upload is already complete; any other value means slices are needed.
    pub return_type: i32,
    /// Indices of the chunks still wanted, when given.
    pub block_list: Option<Vec<i32>>,
    /// The finished record, populated when the digests matched.
    pub file_info: Option<FileInfo>,
}

/// The authoritative record of a created file.
#[derive(Debug, Clone, PartialEq, Eq)]
pub struct FileCreateResponse {
    /// Server-assigned file id.
    pub fs_id: i64,
    /// Full remote path.
    pub path: String,
    /// Display name.
    pub server_filename: String,
    /// Size in bytes.
    pub size: i64,
    /// Content digest.
    pub md5: Option<String>,
    /// Creation timestamp.
    pub ctime: i64,
    /// Modification timestamp.
    pub mtime: i64,
    /// Directory flag.
    pub isdir: i32,
    /// Category code.
    pub category: i32,
}

/// Outcome of a file-management call (delete, move, copy, rename).
#[derive(Debug, Clone, PartialEq, Eq)]
pub struct FileOperationResponse {
    /// Task id, for asynchronous operations.
    pub taskid: Option<i64>,
    /// Per-item outcomes, passed through from the provider.
    pub info: Option<Vec<FileOperationInfo>>,
}

/// One item of a file-management outcome.
#[derive(Debug, Clone, PartialEq, Eq)]
pub struct FileOperationInfo {
    /// Remote path.
    pub path: Option<String>,
    /// Server-assigned file id.
    pub fs_id: Option<i64>,
}

/// One record of the metadata service; may carry a signed download link.
#[derive(Debug, Clone, PartialEq, Eq)]
pub struct FileMetaInfo {
    /// Server-assigned file id.
    pub fs_id: Option<i64>,
    /// Full remote path.
    pub path: Option<String>,
    /// Display name.
    pub server_filename: Option<String>,
    /// Size in bytes.
    pub size: Option<i64>,
    /// Directory flag.
    pub isdir: Option<i32>,
    /// Category code.
    pub category: Option<i32>,
    /// Creation timestamp.
    pub ctime: Option<i64>,
    /// Modification timestamp.
    pub mtime: Option<i64>,
    /// Content digest.
    pub md5: Option<String>,
    /// Short-lived signed download link.
    pub dlink: Option<String>,
    /// Thumbnail descriptor, as raw JSON text.
    pub thumbs: Option<String>,
    /// Extra media information, as raw JSON text.
    pub extra: Option<String>,
    /// Source type.
    pub from_type: Option<i32>,
}

/// Records returned by the metadata service.
#[derive(Debug, Clone, PartialEq, Eq)]
pub struct FileMetasResponse {
    /// The records.
    pub list: Vec<FileMetaInfo>,
}

/// An OAuth token grant.
#[derive(Debug, Clone, PartialEq, Eq)]
pub struct OAuthTokenResponse {
    /// Access token.
    pub access_token: String,
    /// Refresh token, if granted.
    pub refresh_token: Option<String>,
    /// Lifetime in seconds.
    pub expires_in: i64,
    /// Token type.
    pub token_type: Option<String>,
    /// Granted scope.
    pub scope: Option<String>,
}

/// A device-code grant.
#[derive(Debug, Clone, PartialEq, Eq)]
pub struct DeviceCodeResponse {
    /// Device code.
    pub device_code: String,
    /// Code the user enters.
    pub user_code: String,
    /// URL where the user confirms.
    pub verification_url: String,
    /// URL of a QR code for the confirmation page.
    pub qrcode_url: String,
    /// Lifetime in seconds.
    pub expires_in: i64,
    /// Polling interval in seconds.
    pub interval: i64,
}

/// Account information.
#[derive(Debug, Clone, PartialEq, Eq)]
pub struct UserInfoResponse {
    /// Account name.
    pub baidu_name: Option<String>,
    /// Storage account name.
    pub netdisk_name: Option<String>,
    /// Avatar URL.
    pub avatar_url: Option<String>,
    /// Subscription tier (0: free, 1: member, 2: premium).
    pub vip_type: Option<i32>,
    /// Numeric user key.
    pub uk: Option<i64>,
}

/// Storage quota.
#[derive(Debug, Clone, PartialEq, Eq)]
pub struct QuotaResponse {
    /// Total space in bytes.
    pub total: i64,
    /// Used space in bytes.
    pub used: i64,
    /// Free space in bytes, when reported.
    pub free: Option<i64>,
}

} // verus!
