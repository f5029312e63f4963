//! Unified REST error contract: stable machine-readable codes, their HTTP
//! status, and the `{ "error": { code, message, request_id, details } }`
//! envelope with scalar-only, sanitized `details.params`.

use vstd::prelude::*;
use crate::json::{
    deep_clone, entries_get, entries_view, entries_without, entries_insert, lemma_object_view,
    safe_entries, Json, JsonV,
};
use crate::text::{chars_of, has_sub, is_blank, is_blank_chars, lower, own, str_eq, to_lower_chars, contains, trim, trim_chars, string_from_chars, append_str};

verus! {

/// Canonical machine-readable REST error registry.
#[derive(Clone, Copy, Debug, PartialEq, Eq, Structural)]
pub enum ErrorCode {
    InvalidJson,
    InvalidQuery,
    InvalidPathParam,
    MethodNotAllowed,
    RequestBodyTooLarge,
    InvalidContentType,
    ValidationFailed,
    RateLimited,
    AuthRequired,
    SessionExpired,
    PermissionDenied,
    CsrfInvalid,
    ResourceNotFound,
    ResourceConflict,
    CapabilityNotSupported,
    InternalError,
    LongJobAccepted,
    LongRunningActionRequiresJob,
    PhiraAuthFailed,
    PhiraReauthRequired,
    PhiraApiUnavailable,
    GithubOauthNotConfigured,
    GithubIdentityNotBound,
    GithubOauthFailed,
    GithubApiUnavailable,
    GithubOauthStateInvalid,
    AuthLegalConsentRequired,
    AuthLegalDocumentsUnavailable,
    RootPasswordInvalid,
    RootPasswordChangeRequired,
    CurrentSessionRevokeForbidden,
    PmpUnavailable,
    PmpCommandFailed,
    PmpCommandTimeout,
    PmpCapabilityMissing,
    PmpConfigNotAvailable,
    PmpInvalidResponse,
    RoomNotFound,
    RoomIdRequired,
    RoomHostRequired,
    RoomUserNotPresent,
    RoomBatchTargetRequired,
    RoomBatchActionUnsupported,
    RoomMoveTargetRequired,
    RoomChatEmpty,
    RoomChatTooLong,
    UserNotFound,
    AlreadyFriends,
    FriendRequestAlreadySent,
    FriendRequestNotFound,
    FriendRelationRequired,
    UserBlocked,
    ReplayNotFound,
    ReplayAccessDenied,
    ReplayVisibilityInvalid,
    ReplayPlayerRequired,
    ReplayShareInvalid,
    ReplayShareExpired,
    ReplayShareRevoked,
    NotificationNotFound,
    NotificationActionNotAvailable,
    NotificationActionTargetInvalid,
    NotificationInputNotAllowed,
    NotificationInputEmpty,
    NotificationInputTooLong,
    ConfigValidationFailed,
    ConfigSnapshotNotFound,
    ConfigScopeInvalid,
    JobNotFound,
    JobTypeUnknown,
    JobAlreadyRunning,
    JobNotRetryable,
    JobNotCancellable,
    RedemptionCodeNotFound,
    RedemptionCodeAlreadyUsed,
    RedemptionCodeRevoked,
    RedemptionCodeExpired,
    RedemptionCodeLimitReached,
    RedemptionActionUnsupported,
    GroupNotFound,
    GroupNameRequired,
    UserActionTargetInvalid,
}

impl ErrorCode {
    /// The wire string of the code (SCREAMING_SNAKE_CASE).
    pub open spec fn code_str(self) -> Seq<char> {
        match self {
            ErrorCode::InvalidJson => "INVALID_JSON"@,
            ErrorCode::InvalidQuery => "INVALID_QUERY"@,
            ErrorCode::InvalidPathParam => "INVALID_PATH_PARAM"@,
            ErrorCode::MethodNotAllowed => "METHOD_NOT_ALLOWED"@,
            ErrorCode::RequestBodyTooLarge => "REQUEST_BODY_TOO_LARGE"@,
            ErrorCode::InvalidContentType => "INVALID_CONTENT_TYPE"@,
            ErrorCode::ValidationFailed => "VALIDATION_FAILED"@,
            ErrorCode::RateLimited => "RATE_LIMITED"@,
            ErrorCode::AuthRequired => "AUTH_REQUIRED"@,
            ErrorCode::SessionExpired => "SESSION_EXPIRED"@,
            ErrorCode::PermissionDenied => "PERMISSION_DENIED"@,
            ErrorCode::CsrfInvalid => "CSRF_INVALID"@,
            ErrorCode::ResourceNotFound => "RESOURCE_NOT_FOUND"@,
            ErrorCode::ResourceConflict => "RESOURCE_CONFLICT"@,
            ErrorCode::CapabilityNotSupported => "CAPABILITY_NOT_SUPPORTED"@,
            ErrorCode::InternalError => "INTERNAL_ERROR"@,
            ErrorCode::LongJobAccepted => "LONG_JOB_ACCEPTED"@,
            ErrorCode::LongRunningActionRequiresJob => "LONG_RUNNING_ACTION_REQUIRES_JOB"@,
            ErrorCode::PhiraAuthFailed => "PHIRA_AUTH_FAILED"@,
            ErrorCode::PhiraReauthRequired => "PHIRA_REAUTH_REQUIRED"@,
            ErrorCode::PhiraApiUnavailable => "PHIRA_API_UNAVAILABLE"@,
            ErrorCode::GithubOauthNotConfigured => "GITHUB_OAUTH_NOT_CONFIGURED"@,
            ErrorCode::GithubIdentityNotBound => "GITHUB_IDENTITY_NOT_BOUND"@,
            ErrorCode::GithubOauthFailed => "GITHUB_OAUTH_FAILED"@,
            ErrorCode::GithubApiUnavailable => "GITHUB_API_UNAVAILABLE"@,
            ErrorCode::GithubOauthStateInvalid => "GITHUB_OAUTH_STATE_INVALID"@,
            ErrorCode::AuthLegalConsentRequired => "AUTH_LEGAL_CONSENT_REQUIRED"@,
            ErrorCode::AuthLegalDocumentsUnavailable => "AUTH_LEGAL_DOCUMENTS_UNAVAILABLE"@,
            ErrorCode::RootPasswordInvalid => "ROOT_PASSWORD_INVALID"@,
            ErrorCode::RootPasswordChangeRequired => "ROOT_PASSWORD_CHANGE_REQUIRED"@,
            ErrorCode::CurrentSessionRevokeForbidden => "CURRENT_SESSION_REVOKE_FORBIDDEN"@,
            ErrorCode::PmpUnavailable => "PMP_UNAVAILABLE"@,
            ErrorCode::PmpCommandFailed => "PMP_COMMAND_FAILED"@,
            ErrorCode::PmpCommandTimeout => "PMP_COMMAND_TIMEOUT"@,
            ErrorCode::PmpCapabilityMissing => "PMP_CAPABILITY_MISSING"@,
            ErrorCode::PmpConfigNotAvailable => "PMP_CONFIG_NOT_AVAILABLE"@,
            ErrorCode::PmpInvalidResponse => "PMP_INVALID_RESPONSE"@,
            ErrorCode::RoomNotFound => "ROOM_NOT_FOUND"@,
            ErrorCode::RoomIdRequired => "ROOM_ID_REQUIRED"@,
            ErrorCode::RoomHostRequired => "ROOM_HOST_REQUIRED"@,
            ErrorCode::RoomUserNotPresent => "ROOM_USER_NOT_PRESENT"@,
            ErrorCode::RoomBatchTargetRequired => "ROOM_BATCH_TARGET_REQUIRED"@,
            ErrorCode::RoomBatchActionUnsupported => "ROOM_BATCH_ACTION_UNSUPPORTED"@,
            ErrorCode::RoomMoveTargetRequired => "ROOM_MOVE_TARGET_REQUIRED"@,
            ErrorCode::RoomChatEmpty => "ROOM_CHAT_EMPTY"@,
            ErrorCode::RoomChatTooLong => "ROOM_CHAT_TOO_LONG"@,
            ErrorCode::UserNotFound => "USER_NOT_FOUND"@,
            ErrorCode::AlreadyFriends => "ALREADY_FRIENDS"@,
            ErrorCode::FriendRequestAlreadySent => "FRIEND_REQUEST_ALREADY_SENT"@,
            ErrorCode::FriendRequestNotFound => "FRIEND_REQUEST_NOT_FOUND"@,
            ErrorCode::FriendRelationRequired => "FRIEND_RELATION_REQUIRED"@,
            ErrorCode::UserBlocked => "USER_BLOCKED"@,
            ErrorCode::ReplayNotFound => "REPLAY_NOT_FOUND"@,
            ErrorCode::ReplayAccessDenied => "REPLAY_ACCESS_DENIED"@,
            ErrorCode::ReplayVisibilityInvalid => "REPLAY_VISIBILITY_INVALID"@,
            ErrorCode::ReplayPlayerRequired => "REPLAY_PLAYER_REQUIRED"@,
            ErrorCode::ReplayShareInvalid => "REPLAY_SHARE_INVALID"@,
            ErrorCode::ReplayShareExpired => "REPLAY_SHARE_EXPIRED"@,
            ErrorCode::ReplayShareRevoked => "REPLAY_SHARE_REVOKED"@,
            ErrorCode::NotificationNotFound => "NOTIFICATION_NOT_FOUND"@,
            ErrorCode::NotificationActionNotAvailable => "NOTIFICATION_ACTION_NOT_AVAILABLE"@,
            ErrorCode::NotificationActionTargetInvalid => "NOTIFICATION_ACTION_TARGET_INVALID"@,
            ErrorCode::NotificationInputNotAllowed => "NOTIFICATION_INPUT_NOT_ALLOWED"@,
            ErrorCode::NotificationInputEmpty => "NOTIFICATION_INPUT_EMPTY"@,
            ErrorCode::NotificationInputTooLong => "NOTIFICATION_INPUT_TOO_LONG"@,
            ErrorCode::ConfigValidationFailed => "CONFIG_VALIDATION_FAILED"@,
            ErrorCode::ConfigSnapshotNotFound => "CONFIG_SNAPSHOT_NOT_FOUND"@,
            ErrorCode::ConfigScopeInvalid => "CONFIG_SCOPE_INVALID"@,
            ErrorCode::JobNotFound => "JOB_NOT_FOUND"@,
            ErrorCode::JobTypeUnknown => "JOB_TYPE_UNKNOWN"@,
            ErrorCode::JobAlreadyRunning => "JOB_ALREADY_RUNNING"@,
            ErrorCode::JobNotRetryable => "JOB_NOT_RETRYABLE"@,
            ErrorCode::JobNotCancellable => "JOB_NOT_CANCELLABLE"@,
            ErrorCode::RedemptionCodeNotFound => "REDEMPTION_CODE_NOT_FOUND"@,
            ErrorCode::RedemptionCodeAlreadyUsed => "REDEMPTION_CODE_ALREADY_USED"@,
            ErrorCode::RedemptionCodeRevoked => "REDEMPTION_CODE_REVOKED"@,
            ErrorCode::RedemptionCodeExpired => "REDEMPTION_CODE_EXPIRED"@,
            ErrorCode::RedemptionCodeLimitReached => "REDEMPTION_CODE_LIMIT_REACHED"@,
            ErrorCode::RedemptionActionUnsupported => "REDEMPTION_ACTION_UNSUPPORTED"@,
            ErrorCode::GroupNotFound => "GROUP_NOT_FOUND"@,
            ErrorCode::GroupNameRequired => "GROUP_NAME_REQUIRED"@,
            ErrorCode::UserActionTargetInvalid => "USER_ACTION_TARGET_INVALID"@,
        }
    }

    /// Default HTTP status of the code.
    pub open spec fn code_status(self) -> u16 {
        match self {
            ErrorCode::InvalidJson => 400,
            ErrorCode::InvalidQuery => 400,
            ErrorCode::InvalidPathParam => 400,
            ErrorCode::MethodNotAllowed => 405,
            ErrorCode::RequestBodyTooLarge => 413,
            ErrorCode::InvalidContentType => 400,
            ErrorCode::ValidationFailed => 422,
            ErrorCode::RateLimited => 429,
            ErrorCode::AuthRequired => 401,
            ErrorCode::SessionExpired => 401,
            ErrorCode::PermissionDenied => 403,
            ErrorCode::CsrfInvalid => 403,
            ErrorCode::ResourceNotFound => 404,
            ErrorCode::ResourceConflict => 409,
            ErrorCode::CapabilityNotSupported => 501,
            ErrorCode::InternalError => 500,
            ErrorCode::LongJobAccepted => 202,
            ErrorCode::LongRunningActionRequiresJob => 409,
            ErrorCode::PhiraAuthFailed => 401,
            ErrorCode::PhiraReauthRequired => 401,
            ErrorCode::PhiraApiUnavailable => 502,
            ErrorCode::GithubOauthNotConfigured => 503,
            ErrorCode::GithubIdentityNotBound => 401,
            ErrorCode::GithubOauthFailed => 502,
            ErrorCode::GithubApiUnavailable => 502,
            ErrorCode::GithubOauthStateInvalid => 401,
            ErrorCode::AuthLegalConsentRequired => 422,
            ErrorCode::AuthLegalDocumentsUnavailable => 503,
            ErrorCode::RootPasswordInvalid => 401,
            ErrorCode::RootPasswordChangeRequired => 403,
            ErrorCode::CurrentSessionRevokeForbidden => 403,
            ErrorCode::PmpUnavailable => 502,
            ErrorCode::PmpCommandFailed => 502,
            ErrorCode::PmpCommandTimeout => 502,
            ErrorCode::PmpCapabilityMissing => 501,
            ErrorCode::PmpConfigNotAvailable => 501,
            ErrorCode::PmpInvalidResponse => 502,
            ErrorCode::RoomNotFound => 404,
            ErrorCode::RoomIdRequired => 422,
            ErrorCode::RoomHostRequired => 409,
            ErrorCode::RoomUserNotPresent => 409,
            ErrorCode::RoomBatchTargetRequired => 422,
            ErrorCode::RoomBatchActionUnsupported => 422,
            ErrorCode::RoomMoveTargetRequired => 422,
            ErrorCode::RoomChatEmpty => 422,
            ErrorCode::RoomChatTooLong => 422,
            ErrorCode::UserNotFound => 404,
            ErrorCode::AlreadyFriends => 409,
            ErrorCode::FriendRequestAlreadySent => 409,
            ErrorCode::FriendRequestNotFound => 404,
            ErrorCode::FriendRelationRequired => 403,
            ErrorCode::UserBlocked => 403,
            ErrorCode::ReplayNotFound => 404,
            ErrorCode::ReplayAccessDenied => 403,
            ErrorCode::ReplayVisibilityInvalid => 422,
            ErrorCode::ReplayPlayerRequired => 422,
            ErrorCode::ReplayShareInvalid => 401,
            ErrorCode::ReplayShareExpired => 409,
            ErrorCode::ReplayShareRevoked => 409,
            ErrorCode::NotificationNotFound => 404,
            ErrorCode::NotificationActionNotAvailable => 422,
            ErrorCode::NotificationActionTargetInvalid => 422,
            ErrorCode::NotificationInputNotAllowed => 422,
            ErrorCode::NotificationInputEmpty => 422,
            ErrorCode::NotificationInputTooLong => 422,
            ErrorCode::ConfigValidationFailed => 422,
            ErrorCode::ConfigSnapshotNotFound => 404,
            ErrorCode::ConfigScopeInvalid => 422,
            ErrorCode::JobNotFound => 404,
            ErrorCode::JobTypeUnknown => 404,
            ErrorCode::JobAlreadyRunning => 409,
            ErrorCode::JobNotRetryable => 409,
            ErrorCode::JobNotCancellable => 409,
            ErrorCode::RedemptionCodeNotFound => 404,
            ErrorCode::RedemptionCodeAlreadyUsed => 409,
            ErrorCode::RedemptionCodeRevoked => 409,
            ErrorCode::RedemptionCodeExpired => 409,
            ErrorCode::RedemptionCodeLimitReached => 409,
            ErrorCode::RedemptionActionUnsupported => 501,
            ErrorCode::GroupNotFound => 404,
            ErrorCode::GroupNameRequired => 422,
            ErrorCode::UserActionTargetInvalid => 422,
        }
    }

    /// The wire string of the code (SCREAMING_SNAKE_CASE).
    pub fn as_str(&self) -> (s: &'static str)
        ensures
            s@ == self.code_str(),
    {
        match self {
            ErrorCode::InvalidJson => "INVALID_JSON",
            ErrorCode::InvalidQuery => "INVALID_QUERY",
            ErrorCode::InvalidPathParam => "INVALID_PATH_PARAM",
            ErrorCode::MethodNotAllowed => "METHOD_NOT_ALLOWED",
            ErrorCode::RequestBodyTooLarge => "REQUEST_BODY_TOO_LARGE",
            ErrorCode::InvalidContentType => "INVALID_CONTENT_TYPE",
            ErrorCode::ValidationFailed => "VALIDATION_FAILED",
            ErrorCode::RateLimited => "RATE_LIMITED",
            ErrorCode::AuthRequired => "AUTH_REQUIRED",
            ErrorCode::SessionExpired => "SESSION_EXPIRED",
            ErrorCode::PermissionDenied => "PERMISSION_DENIED",
            ErrorCode::CsrfInvalid => "CSRF_INVALID",
            ErrorCode::ResourceNotFound => "RESOURCE_NOT_FOUND",
            ErrorCode::ResourceConflict => "RESOURCE_CONFLICT",
            ErrorCode::CapabilityNotSupported => "CAPABILITY_NOT_SUPPORTED",
            ErrorCode::InternalError => "INTERNAL_ERROR",
            ErrorCode::LongJobAccepted => "LONG_JOB_ACCEPTED",
            ErrorCode::LongRunningActionRequiresJob => "LONG_RUNNING_ACTION_REQUIRES_JOB",
            ErrorCode::PhiraAuthFailed => "PHIRA_AUTH_FAILED",
            ErrorCode::PhiraReauthRequired => "PHIRA_REAUTH_REQUIRED",
            ErrorCode::PhiraApiUnavailable => "PHIRA_API_UNAVAILABLE",
            ErrorCode::GithubOauthNotConfigured => "GITHUB_OAUTH_NOT_CONFIGURED",
            ErrorCode::GithubIdentityNotBound => "GITHUB_IDENTITY_NOT_BOUND",
            ErrorCode::GithubOauthFailed => "GITHUB_OAUTH_FAILED",
            ErrorCode::GithubApiUnavailable => "GITHUB_API_UNAVAILABLE",
            ErrorCode::GithubOauthStateInvalid => "GITHUB_OAUTH_STATE_INVALID",
            ErrorCode::AuthLegalConsentRequired => "AUTH_LEGAL_CONSENT_REQUIRED",
            ErrorCode::AuthLegalDocumentsUnavailable => "AUTH_LEGAL_DOCUMENTS_UNAVAILABLE",
            ErrorCode::RootPasswordInvalid => "ROOT_PASSWORD_INVALID",
            ErrorCode::RootPasswordChangeRequired => "ROOT_PASSWORD_CHANGE_REQUIRED",
            ErrorCode::CurrentSessionRevokeForbidden => "CURRENT_SESSION_REVOKE_FORBIDDEN",
            ErrorCode::PmpUnavailable => "PMP_UNAVAILABLE",
            ErrorCode::PmpCommandFailed => "PMP_COMMAND_FAILED",
            ErrorCode::PmpCommandTimeout => "PMP_COMMAND_TIMEOUT",
            ErrorCode::PmpCapabilityMissing => "PMP_CAPABILITY_MISSING",
            ErrorCode::PmpConfigNotAvailable => "PMP_CONFIG_NOT_AVAILABLE",
            ErrorCode::PmpInvalidResponse => "PMP_INVALID_RESPONSE",
            ErrorCode::RoomNotFound => "ROOM_NOT_FOUND",
            ErrorCode::RoomIdRequired => "ROOM_ID_REQUIRED",
            ErrorCode::RoomHostRequired => "ROOM_HOST_REQUIRED",
            ErrorCode::RoomUserNotPresent => "ROOM_USER_NOT_PRESENT",
            ErrorCode::RoomBatchTargetRequired => "ROOM_BATCH_TARGET_REQUIRED",
            ErrorCode::RoomBatchActionUnsupported => "ROOM_BATCH_ACTION_UNSUPPORTED",
            ErrorCode::RoomMoveTargetRequired => "ROOM_MOVE_TARGET_REQUIRED",
            ErrorCode::RoomChatEmpty => "ROOM_CHAT_EMPTY",
            ErrorCode::RoomChatTooLong => "ROOM_CHAT_TOO_LONG",
            ErrorCode::UserNotFound => "USER_NOT_FOUND",
            ErrorCode::AlreadyFriends => "ALREADY_FRIENDS",
            ErrorCode::FriendRequestAlreadySent => "FRIEND_REQUEST_ALREADY_SENT",
            ErrorCode::FriendRequestNotFound => "FRIEND_REQUEST_NOT_FOUND",
            ErrorCode::FriendRelationRequired => "FRIEND_RELATION_REQUIRED",
            ErrorCode::UserBlocked => "USER_BLOCKED",
            ErrorCode::ReplayNotFound => "REPLAY_NOT_FOUND",
            ErrorCode::ReplayAccessDenied => "REPLAY_ACCESS_DENIED",
            ErrorCode::ReplayVisibilityInvalid => "REPLAY_VISIBILITY_INVALID",
            ErrorCode::ReplayPlayerRequired => "REPLAY_PLAYER_REQUIRED",
            ErrorCode::ReplayShareInvalid => "REPLAY_SHARE_INVALID",
            ErrorCode::ReplayShareExpired => "REPLAY_SHARE_EXPIRED",
            ErrorCode::ReplayShareRevoked => "REPLAY_SHARE_REVOKED",
            ErrorCode::NotificationNotFound => "NOTIFICATION_NOT_FOUND",
            ErrorCode::NotificationActionNotAvailable => "NOTIFICATION_ACTION_NOT_AVAILABLE",
            ErrorCode::NotificationActionTargetInvalid => "NOTIFICATION_ACTION_TARGET_INVALID",
            ErrorCode::NotificationInputNotAllowed => "NOTIFICATION_INPUT_NOT_ALLOWED",
            ErrorCode::NotificationInputEmpty => "NOTIFICATION_INPUT_EMPTY",
            ErrorCode::NotificationInputTooLong => "NOTIFICATION_INPUT_TOO_LONG",
            ErrorCode::ConfigValidationFailed => "CONFIG_VALIDATION_FAILED",
            ErrorCode::ConfigSnapshotNotFound => "CONFIG_SNAPSHOT_NOT_FOUND",
            ErrorCode::ConfigScopeInvalid => "CONFIG_SCOPE_INVALID",
            ErrorCode::JobNotFound => "JOB_NOT_FOUND",
            ErrorCode::JobTypeUnknown => "JOB_TYPE_UNKNOWN",
            ErrorCode::JobAlreadyRunning => "JOB_ALREADY_RUNNING",
            ErrorCode::JobNotRetryable => "JOB_NOT_RETRYABLE",
            ErrorCode::JobNotCancellable => "JOB_NOT_CANCELLABLE",
            ErrorCode::RedemptionCodeNotFound => "REDEMPTION_CODE_NOT_FOUND",
            ErrorCode::RedemptionCodeAlreadyUsed => "REDEMPTION_CODE_ALREADY_USED",
            ErrorCode::RedemptionCodeRevoked => "REDEMPTION_CODE_REVOKED",
            ErrorCode::RedemptionCodeExpired => "REDEMPTION_CODE_EXPIRED",
            ErrorCode::RedemptionCodeLimitReached => "REDEMPTION_CODE_LIMIT_REACHED",
            ErrorCode::RedemptionActionUnsupported => "REDEMPTION_ACTION_UNSUPPORTED",
            ErrorCode::GroupNotFound => "GROUP_NOT_FOUND",
            ErrorCode::GroupNameRequired => "GROUP_NAME_REQUIRED",
            ErrorCode::UserActionTargetInvalid => "USER_ACTION_TARGET_INVALID",
        }
    }

    /// Default HTTP status; business codes never encode transport by themselves.
    pub fn status(&self) -> (s: u16)
        ensures
            s == self.code_status(),
    {
        match self {
            ErrorCode::InvalidJson | ErrorCode::InvalidQuery | ErrorCode::InvalidPathParam | ErrorCode::InvalidContentType => 400,
            ErrorCode::MethodNotAllowed => 405,
            ErrorCode::RequestBodyTooLarge => 413,
            ErrorCode::ValidationFailed | ErrorCode::AuthLegalConsentRequired | ErrorCode::RoomIdRequired | ErrorCode::RoomBatchTargetRequired | ErrorCode::RoomBatchActionUnsupported | ErrorCode::RoomMoveTargetRequired | ErrorCode::RoomChatEmpty | ErrorCode::RoomChatTooLong | ErrorCode::ReplayVisibilityInvalid | ErrorCode::ReplayPlayerRequired | ErrorCode::NotificationActionNotAvailable | ErrorCode::NotificationActionTargetInvalid | ErrorCode::NotificationInputNotAllowed | ErrorCode::NotificationInputEmpty | ErrorCode::NotificationInputTooLong | ErrorCode::ConfigValidationFailed | ErrorCode::ConfigScopeInvalid | ErrorCode::GroupNameRequired | ErrorCode::UserActionTargetInvalid => 422,
            ErrorCode::RateLimited => 429,
            ErrorCode::AuthRequired | ErrorCode::SessionExpired | ErrorCode::PhiraAuthFailed | ErrorCode::PhiraReauthRequired | ErrorCode::GithubIdentityNotBound | ErrorCode::GithubOauthStateInvalid | ErrorCode::RootPasswordInvalid | ErrorCode::ReplayShareInvalid => 401,
            ErrorCode::PermissionDenied | ErrorCode::CsrfInvalid | ErrorCode::RootPasswordChangeRequired | ErrorCode::CurrentSessionRevokeForbidden | ErrorCode::FriendRelationRequired | ErrorCode::UserBlocked | ErrorCode::ReplayAccessDenied => 403,
            ErrorCode::ResourceNotFound | ErrorCode::RoomNotFound | ErrorCode::UserNotFound | ErrorCode::FriendRequestNotFound | ErrorCode::ReplayNotFound | ErrorCode::NotificationNotFound | ErrorCode::ConfigSnapshotNotFound | ErrorCode::JobNotFound | ErrorCode::JobTypeUnknown | ErrorCode::RedemptionCodeNotFound | ErrorCode::GroupNotFound => 404,
            ErrorCode::ResourceConflict | ErrorCode::LongRunningActionRequiresJob | ErrorCode::RoomHostRequired | ErrorCode::RoomUserNotPresent | ErrorCode::AlreadyFriends | ErrorCode::FriendRequestAlreadySent | ErrorCode::ReplayShareExpired | ErrorCode::ReplayShareRevoked | ErrorCode::JobAlreadyRunning | ErrorCode::JobNotRetryable | ErrorCode::JobNotCancellable | ErrorCode::RedemptionCodeAlreadyUsed | ErrorCode::RedemptionCodeRevoked | ErrorCode::RedemptionCodeExpired | ErrorCode::RedemptionCodeLimitReached => 409,
            ErrorCode::CapabilityNotSupported | ErrorCode::PmpCapabilityMissing | ErrorCode::PmpConfigNotAvailable | ErrorCode::RedemptionActionUnsupported => 501,
            ErrorCode::InternalError => 500,
            ErrorCode::LongJobAccepted => 202,
            ErrorCode::PhiraApiUnavailable | ErrorCode::GithubOauthFailed | ErrorCode::GithubApiUnavailable | ErrorCode::PmpUnavailable | ErrorCode::PmpCommandFailed | ErrorCode::PmpCommandTimeout | ErrorCode::PmpInvalidResponse => 502,
            ErrorCode::GithubOauthNotConfigured | ErrorCode::AuthLegalDocumentsUnavailable => 503,
        }
    }
}

/// The code whose wire string is `name`, if any.
pub open spec fn code_named(name: Seq<char>) -> Option<ErrorCode> {
    if name == "INVALID_JSON"@ {
        Some(ErrorCode::InvalidJson)
    } else if name == "INVALID_QUERY"@ {
        Some(ErrorCode::InvalidQuery)
    } else if name == "INVALID_PATH_PARAM"@ {
        Some(ErrorCode::InvalidPathParam)
    } else if name == "METHOD_NOT_ALLOWED"@ {
        Some(ErrorCode::MethodNotAllowed)
    } else if name == "REQUEST_BODY_TOO_LARGE"@ {
        Some(ErrorCode::RequestBodyTooLarge)
    } else if name == "INVALID_CONTENT_TYPE"@ {
        Some(ErrorCode::InvalidContentType)
    } else if name == "VALIDATION_FAILED"@ {
        Some(ErrorCode::ValidationFailed)
    } else if name == "RATE_LIMITED"@ {
        Some(ErrorCode::RateLimited)
    } else if name == "AUTH_REQUIRED"@ {
        Some(ErrorCode::AuthRequired)
    } else if name == "SESSION_EXPIRED"@ {
        Some(ErrorCode::SessionExpired)
    } else if name == "PERMISSION_DENIED"@ {
        Some(ErrorCode::PermissionDenied)
    } else if name == "CSRF_INVALID"@ {
        Some(ErrorCode::CsrfInvalid)
    } else if name == "RESOURCE_NOT_FOUND"@ {
        Some(ErrorCode::ResourceNotFound)
    } else if name == "RESOURCE_CONFLICT"@ {
        Some(ErrorCode::ResourceConflict)
    } else if name == "CAPABILITY_NOT_SUPPORTED"@ {
        Some(ErrorCode::CapabilityNotSupported)
    } else if name == "INTERNAL_ERROR"@ {
        Some(ErrorCode::InternalError)
    } else if name == "LONG_JOB_ACCEPTED"@ {
        Some(ErrorCode::LongJobAccepted)
    } else if name == "LONG_RUNNING_ACTION_REQUIRES_JOB"@ {
        Some(ErrorCode::LongRunningActionRequiresJob)
    } else if name == "PHIRA_AUTH_FAILED"@ {
        Some(ErrorCode::PhiraAuthFailed)
    } else if name == "PHIRA_REAUTH_REQUIRED"@ {
        Some(ErrorCode::PhiraReauthRequired)
    } else if name == "PHIRA_API_UNAVAILABLE"@ {
        Some(ErrorCode::PhiraApiUnavailable)
    } else if name == "GITHUB_OAUTH_NOT_CONFIGURED"@ {
        Some(ErrorCode::GithubOauthNotConfigured)
    } else if name == "GITHUB_IDENTITY_NOT_BOUND"@ {
        Some(ErrorCode::GithubIdentityNotBound)
    } else if name == "GITHUB_OAUTH_FAILED"@ {
        Some(ErrorCode::GithubOauthFailed)
    } else if name == "GITHUB_API_UNAVAILABLE"@ {
        Some(ErrorCode::GithubApiUnavailable)
    } else if name == "GITHUB_OAUTH_STATE_INVALID"@ {
        Some(ErrorCode::GithubOauthStateInvalid)
    } else if name == "AUTH_LEGAL_CONSENT_REQUIRED"@ {
        Some(ErrorCode::AuthLegalConsentRequired)
    } else if name == "AUTH_LEGAL_DOCUMENTS_UNAVAILABLE"@ {
        Some(ErrorCode::AuthLegalDocumentsUnavailable)
    } else if name == "ROOT_PASSWORD_INVALID"@ {
        Some(ErrorCode::RootPasswordInvalid)
    } else if name == "ROOT_PASSWORD_CHANGE_REQUIRED"@ {
        Some(ErrorCode::RootPasswordChangeRequired)
    } else if name == "CURRENT_SESSION_REVOKE_FORBIDDEN"@ {
        Some(ErrorCode::CurrentSessionRevokeForbidden)
    } else if name == "PMP_UNAVAILABLE"@ {
        Some(ErrorCode::PmpUnavailable)
    } else if name == "PMP_COMMAND_FAILED"@ {
        Some(ErrorCode::PmpCommandFailed)
    } else if name == "PMP_COMMAND_TIMEOUT"@ {
        Some(ErrorCode::PmpCommandTimeout)
    } else if name == "PMP_CAPABILITY_MISSING"@ {
        Some(ErrorCode::PmpCapabilityMissing)
    } else if name == "PMP_CONFIG_NOT_AVAILABLE"@ {
        Some(ErrorCode::PmpConfigNotAvailable)
    } else if name == "PMP_INVALID_RESPONSE"@ {
        Some(ErrorCode::PmpInvalidResponse)
    } else if name == "ROOM_NOT_FOUND"@ {
        Some(ErrorCode::RoomNotFound)
    } else if name == "ROOM_ID_REQUIRED"@ {
        Some(ErrorCode::RoomIdRequired)
    } else if name == "ROOM_HOST_REQUIRED"@ {
        Some(ErrorCode::RoomHostRequired)
    } else if name == "ROOM_USER_NOT_PRESENT"@ {
        Some(ErrorCode::RoomUserNotPresent)
    } else if name == "ROOM_BATCH_TARGET_REQUIRED"@ {
        Some(ErrorCode::RoomBatchTargetRequired)
    } else if name == "ROOM_BATCH_ACTION_UNSUPPORTED"@ {
        Some(ErrorCode::RoomBatchActionUnsupported)
    } else if name == "ROOM_MOVE_TARGET_REQUIRED"@ {
        Some(ErrorCode::RoomMoveTargetRequired)
    } else if name == "ROOM_CHAT_EMPTY"@ {
        Some(ErrorCode::RoomChatEmpty)
    } else if name == "ROOM_CHAT_TOO_LONG"@ {
        Some(ErrorCode::RoomChatTooLong)
    } else if name == "USER_NOT_FOUND"@ {
        Some(ErrorCode::UserNotFound)
    } else if name == "ALREADY_FRIENDS"@ {
        Some(ErrorCode::AlreadyFriends)
    } else if name == "FRIEND_REQUEST_ALREADY_SENT"@ {
        Some(ErrorCode::FriendRequestAlreadySent)
    } else if name == "FRIEND_REQUEST_NOT_FOUND"@ {
        Some(ErrorCode::FriendRequestNotFound)
    } else if name == "FRIEND_RELATION_REQUIRED"@ {
        Some(ErrorCode::FriendRelationRequired)
    } else if name == "USER_BLOCKED"@ {
        Some(ErrorCode::UserBlocked)
    } else if name == "REPLAY_NOT_FOUND"@ {
        Some(ErrorCode::ReplayNotFound)
    } else if name == "REPLAY_ACCESS_DENIED"@ {
        Some(ErrorCode::ReplayAccessDenied)
    } else if name == "REPLAY_VISIBILITY_INVALID"@ {
        Some(ErrorCode::ReplayVisibilityInvalid)
    } else if name == "REPLAY_PLAYER_REQUIRED"@ {
        Some(ErrorCode::ReplayPlayerRequired)
    } else if name == "REPLAY_SHARE_INVALID"@ {
        Some(ErrorCode::ReplayShareInvalid)
    } else if name == "REPLAY_SHARE_EXPIRED"@ {
        Some(ErrorCode::ReplayShareExpired)
    } else if name == "REPLAY_SHARE_REVOKED"@ {
        Some(ErrorCode::ReplayShareRevoked)
    } else if name == "NOTIFICATION_NOT_FOUND"@ {
        Some(ErrorCode::NotificationNotFound)
    } else if name == "NOTIFICATION_ACTION_NOT_AVAILABLE"@ {
        Some(ErrorCode::NotificationActionNotAvailable)
    } else if name == "NOTIFICATION_ACTION_TARGET_INVALID"@ {
        Some(ErrorCode::NotificationActionTargetInvalid)
    } else if name == "NOTIFICATION_INPUT_NOT_ALLOWED"@ {
        Some(ErrorCode::NotificationInputNotAllowed)
    } else if name == "NOTIFICATION_INPUT_EMPTY"@ {
        Some(ErrorCode::NotificationInputEmpty)
    } else if name == "NOTIFICATION_INPUT_TOO_LONG"@ {
        Some(ErrorCode::NotificationInputTooLong)
    } else if name == "CONFIG_VALIDATION_FAILED"@ {
        Some(ErrorCode::ConfigValidationFailed)
    } else if name == "CONFIG_SNAPSHOT_NOT_FOUND"@ {
        Some(ErrorCode::ConfigSnapshotNotFound)
    } else if name == "CONFIG_SCOPE_INVALID"@ {
        Some(ErrorCode::ConfigScopeInvalid)
    } else if name == "JOB_NOT_FOUND"@ {
        Some(ErrorCode::JobNotFound)
    } else if name == "JOB_TYPE_UNKNOWN"@ {
        Some(ErrorCode::JobTypeUnknown)
    } else if name == "JOB_ALREADY_RUNNING"@ {
        Some(ErrorCode::JobAlreadyRunning)
    } else if name == "JOB_NOT_RETRYABLE"@ {
        Some(ErrorCode::JobNotRetryable)
    } else if name == "JOB_NOT_CANCELLABLE"@ {
        Some(ErrorCode::JobNotCancellable)
    } else if name == "REDEMPTION_CODE_NOT_FOUND"@ {
        Some(ErrorCode::RedemptionCodeNotFound)
    } else if name == "REDEMPTION_CODE_ALREADY_USED"@ {
        Some(ErrorCode::RedemptionCodeAlreadyUsed)
    } else if name == "REDEMPTION_CODE_REVOKED"@ {
        Some(ErrorCode::RedemptionCodeRevoked)
    } else if name == "REDEMPTION_CODE_EXPIRED"@ {
        Some(ErrorCode::RedemptionCodeExpired)
    } else if name == "REDEMPTION_CODE_LIMIT_REACHED"@ {
        Some(ErrorCode::RedemptionCodeLimitReached)
    } else if name == "REDEMPTION_ACTION_UNSUPPORTED"@ {
        Some(ErrorCode::RedemptionActionUnsupported)
    } else if name == "GROUP_NOT_FOUND"@ {
        Some(ErrorCode::GroupNotFound)
    } else if name == "GROUP_NAME_REQUIRED"@ {
        Some(ErrorCode::GroupNameRequired)
    } else if name == "USER_ACTION_TARGET_INVALID"@ {
        Some(ErrorCode::UserActionTargetInvalid)
    } else {
        None
    }
}

/// Every code is named back by its own wire string.
pub proof fn lemma_code_named_round_trip(c: ErrorCode)
    ensures
        code_named(c.code_str()) == Some(c),
{
    reveal_strlit("INVALID_JSON");
    reveal_strlit("INVALID_QUERY");
    reveal_strlit("INVALID_PATH_PARAM");
    reveal_strlit("METHOD_NOT_ALLOWED");
    reveal_strlit("REQUEST_BODY_TOO_LARGE");
    reveal_strlit("INVALID_CONTENT_TYPE");
    reveal_strlit("VALIDATION_FAILED");
    reveal_strlit("RATE_LIMITED");
    reveal_strlit("AUTH_REQUIRED");
    reveal_strlit("SESSION_EXPIRED");
    reveal_strlit("PERMISSION_DENIED");
    reveal_strlit("CSRF_INVALID");
    reveal_strlit("RESOURCE_NOT_FOUND");
    reveal_strlit("RESOURCE_CONFLICT");
    reveal_strlit("CAPABILITY_NOT_SUPPORTED");
    reveal_strlit("INTERNAL_ERROR");
    reveal_strlit("LONG_JOB_ACCEPTED");
    reveal_strlit("LONG_RUNNING_ACTION_REQUIRES_JOB");
    reveal_strlit("PHIRA_AUTH_FAILED");
    reveal_strlit("PHIRA_REAUTH_REQUIRED");
    reveal_strlit("PHIRA_API_UNAVAILABLE");
    reveal_strlit("GITHUB_OAUTH_NOT_CONFIGURED");
    reveal_strlit("GITHUB_IDENTITY_NOT_BOUND");
    reveal_strlit("GITHUB_OAUTH_FAILED");
    reveal_strlit("GITHUB_API_UNAVAILABLE");
    reveal_strlit("GITHUB_OAUTH_STATE_INVALID");
    reveal_strlit("AUTH_LEGAL_CONSENT_REQUIRED");
    reveal_strlit("AUTH_LEGAL_DOCUMENTS_UNAVAILABLE");
    reveal_strlit("ROOT_PASSWORD_INVALID");
    reveal_strlit("ROOT_PASSWORD_CHANGE_REQUIRED");
    reveal_strlit("CURRENT_SESSION_REVOKE_FORBIDDEN");
    reveal_strlit("PMP_UNAVAILABLE");
    reveal_strlit("PMP_COMMAND_FAILED");
    reveal_strlit("PMP_COMMAND_TIMEOUT");
    reveal_strlit("PMP_CAPABILITY_MISSING");
    reveal_strlit("PMP_CONFIG_NOT_AVAILABLE");
    reveal_strlit("PMP_INVALID_RESPONSE");
    reveal_strlit("ROOM_NOT_FOUND");
    reveal_strlit("ROOM_ID_REQUIRED");
    reveal_strlit("ROOM_HOST_REQUIRED");
    reveal_strlit("ROOM_USER_NOT_PRESENT");
    reveal_strlit("ROOM_BATCH_TARGET_REQUIRED");
    reveal_strlit("ROOM_BATCH_ACTION_UNSUPPORTED");
    reveal_strlit("ROOM_MOVE_TARGET_REQUIRED");
    reveal_strlit("ROOM_CHAT_EMPTY");
    reveal_strlit("ROOM_CHAT_TOO_LONG");
    reveal_strlit("USER_NOT_FOUND");
    reveal_strlit("ALREADY_FRIENDS");
    reveal_strlit("FRIEND_REQUEST_ALREADY_SENT");
    reveal_strlit("FRIEND_REQUEST_NOT_FOUND");
    reveal_strlit("FRIEND_RELATION_REQUIRED");
    reveal_strlit("USER_BLOCKED");
    reveal_strlit("REPLAY_NOT_FOUND");
    reveal_strlit("REPLAY_ACCESS_DENIED");
    reveal_strlit("REPLAY_VISIBILITY_INVALID");
    reveal_strlit("REPLAY_PLAYER_REQUIRED");
    reveal_strlit("REPLAY_SHARE_INVALID");
    reveal_strlit("REPLAY_SHARE_EXPIRED");
    reveal_strlit("REPLAY_SHARE_REVOKED");
    reveal_strlit("NOTIFICATION_NOT_FOUND");
    reveal_strlit("NOTIFICATION_ACTION_NOT_AVAILABLE");
    reveal_strlit("NOTIFICATION_ACTION_TARGET_INVALID");
    reveal_strlit("NOTIFICATION_INPUT_NOT_ALLOWED");
    reveal_strlit("NOTIFICATION_INPUT_EMPTY");
    reveal_strlit("NOTIFICATION_INPUT_TOO_LONG");
    reveal_strlit("CONFIG_VALIDATION_FAILED");
    reveal_strlit("CONFIG_SNAPSHOT_NOT_FOUND");
    reveal_strlit("CONFIG_SCOPE_INVALID");
    reveal_strlit("JOB_NOT_FOUND");
    reveal_strlit("JOB_TYPE_UNKNOWN");
    reveal_strlit("JOB_ALREADY_RUNNING");
    reveal_strlit("JOB_NOT_RETRYABLE");
    reveal_strlit("JOB_NOT_CANCELLABLE");
    reveal_strlit("REDEMPTION_CODE_NOT_FOUND");
    reveal_strlit("REDEMPTION_CODE_ALREADY_USED");
    reveal_strlit("REDEMPTION_CODE_REVOKED");
    reveal_strlit("REDEMPTION_CODE_EXPIRED");
    reveal_strlit("REDEMPTION_CODE_LIMIT_REACHED");
    reveal_strlit("REDEMPTION_ACTION_UNSUPPORTED");
    reveal_strlit("GROUP_NOT_FOUND");
    reveal_strlit("GROUP_NAME_REQUIRED");
    reveal_strlit("USER_ACTION_TARGET_INVALID");
    assert("INVALID_JSON"@.len() == 12);
    assert("INVALID_QUERY"@.len() == 13);
    assert("INVALID_PATH_PARAM"@.len() == 18);
    assert("METHOD_NOT_ALLOWED"@.len() == 18);
    assert("REQUEST_BODY_TOO_LARGE"@.len() == 22);
    assert("INVALID_CONTENT_TYPE"@.len() == 20);
    assert("VALIDATION_FAILED"@.len() == 17);
    assert("RATE_LIMITED"@.len() == 12);
    assert("AUTH_REQUIRED"@.len() == 13);
    assert("SESSION_EXPIRED"@.len() == 15);
    assert("PERMISSION_DENIED"@.len() == 17);
    assert("CSRF_INVALID"@.len() == 12);
    assert("RESOURCE_NOT_FOUND"@.len() == 18);
    assert("RESOURCE_CONFLICT"@.len() == 17);
    assert("CAPABILITY_NOT_SUPPORTED"@.len() == 24);
    assert("INTERNAL_ERROR"@.len() == 14);
    assert("LONG_JOB_ACCEPTED"@.len() == 17);
    assert("LONG_RUNNING_ACTION_REQUIRES_JOB"@.len() == 32);
    assert("PHIRA_AUTH_FAILED"@.len() == 17);
    assert("PHIRA_REAUTH_REQUIRED"@.len() == 21);
    assert("PHIRA_API_UNAVAILABLE"@.len() == 21);
    assert("GITHUB_OAUTH_NOT_CONFIGURED"@.len() == 27);
    assert("GITHUB_IDENTITY_NOT_BOUND"@.len() == 25);
    assert("GITHUB_OAUTH_FAILED"@.len() == 19);
    assert("GITHUB_API_UNAVAILABLE"@.len() == 22);
    assert("GITHUB_OAUTH_STATE_INVALID"@.len() == 26);
    assert("AUTH_LEGAL_CONSENT_REQUIRED"@.len() == 27);
    assert("AUTH_LEGAL_DOCUMENTS_UNAVAILABLE"@.len() == 32);
    assert("ROOT_PASSWORD_INVALID"@.len() == 21);
    assert("ROOT_PASSWORD_CHANGE_REQUIRED"@.len() == 29);
    assert("CURRENT_SESSION_REVOKE_FORBIDDEN"@.len() == 32);
    assert("PMP_UNAVAILABLE"@.len() == 15);
    assert("PMP_COMMAND_FAILED"@.len() == 18);
    assert("PMP_COMMAND_TIMEOUT"@.len() == 19);
    assert("PMP_CAPABILITY_MISSING"@.len() == 22);
    assert("PMP_CONFIG_NOT_AVAILABLE"@.len() == 24);
    assert("PMP_INVALID_RESPONSE"@.len() == 20);
    assert("ROOM_NOT_FOUND"@.len() == 14);
    assert("ROOM_ID_REQUIRED"@.len() == 16);
    assert("ROOM_HOST_REQUIRED"@.len() == 18);
    assert("ROOM_USER_NOT_PRESENT"@.len() == 21);
    assert("ROOM_BATCH_TARGET_REQUIRED"@.len() == 26);
    assert("ROOM_BATCH_ACTION_UNSUPPORTED"@.len() == 29);
    assert("ROOM_MOVE_TARGET_REQUIRED"@.len() == 25);
    assert("ROOM_CHAT_EMPTY"@.len() == 15);
    assert("ROOM_CHAT_TOO_LONG"@.len() == 18);
    assert("USER_NOT_FOUND"@.len() == 14);
    assert("ALREADY_FRIENDS"@.len() == 15);
    assert("FRIEND_REQUEST_ALREADY_SENT"@.len() == 27);
    assert("FRIEND_REQUEST_NOT_FOUND"@.len() == 24);
    assert("FRIEND_RELATION_REQUIRED"@.len() == 24);
    assert("USER_BLOCKED"@.len() == 12);
    assert("REPLAY_NOT_FOUND"@.len() == 16);
    assert("REPLAY_ACCESS_DENIED"@.len() == 20);
    assert("REPLAY_VISIBILITY_INVALID"@.len() == 25);
    assert("REPLAY_PLAYER_REQUIRED"@.len() == 22);
    assert("REPLAY_SHARE_INVALID"@.len() == 20);
    assert("REPLAY_SHARE_EXPIRED"@.len() == 20);
    assert("REPLAY_SHARE_REVOKED"@.len() == 20);
    assert("NOTIFICATION_NOT_FOUND"@.len() == 22);
    assert("NOTIFICATION_ACTION_NOT_AVAILABLE"@.len() == 33);
    assert("NOTIFICATION_ACTION_TARGET_INVALID"@.len() == 34);
    assert("NOTIFICATION_INPUT_NOT_ALLOWED"@.len() == 30);
    assert("NOTIFICATION_INPUT_EMPTY"@.len() == 24);
    assert("NOTIFICATION_INPUT_TOO_LONG"@.len() == 27);
    assert("CONFIG_VALIDATION_FAILED"@.len() == 24);
    assert("CONFIG_SNAPSHOT_NOT_FOUND"@.len() == 25);
    assert("CONFIG_SCOPE_INVALID"@.len() == 20);
    assert("JOB_NOT_FOUND"@.len() == 13);
    assert("JOB_TYPE_UNKNOWN"@.len() == 16);
    assert("JOB_ALREADY_RUNNING"@.len() == 19);
    assert("JOB_NOT_RETRYABLE"@.len() == 17);
    assert("JOB_NOT_CANCELLABLE"@.len() == 19);
    assert("REDEMPTION_CODE_NOT_FOUND"@.len() == 25);
    assert("REDEMPTION_CODE_ALREADY_USED"@.len() == 28);
    assert("REDEMPTION_CODE_REVOKED"@.len() == 23);
    assert("REDEMPTION_CODE_EXPIRED"@.len() == 23);
    assert("REDEMPTION_CODE_LIMIT_REACHED"@.len() == 29);
    assert("REDEMPTION_ACTION_UNSUPPORTED"@.len() == 29);
    assert("GROUP_NOT_FOUND"@.len() == 15);
    assert("GROUP_NAME_REQUIRED"@.len() == 19);
    assert("USER_ACTION_TARGET_INVALID"@.len() == 26);
    assert("METHOD_NOT_ALLOWED"@[0] != "INVALID_PATH_PARAM"@[0]);
    assert("RATE_LIMITED"@[0] != "INVALID_JSON"@[0]);
    assert("AUTH_REQUIRED"@[0] != "INVALID_QUERY"@[0]);
    assert("PERMISSION_DENIED"@[0] != "VALIDATION_FAILED"@[0]);
    assert("CSRF_INVALID"@[0] != "INVALID_JSON"@[0]);
    assert("CSRF_INVALID"@[0] != "RATE_LIMITED"@[0]);
    assert("RESOURCE_NOT_FOUND"@[0] != "INVALID_PATH_PARAM"@[0]);
    assert("RESOURCE_NOT_FOUND"@[0] != "METHOD_NOT_ALLOWED"@[0]);
    assert("RESOURCE_CONFLICT"@[0] != "VALIDATION_FAILED"@[0]);
    assert("RESOURCE_CONFLICT"@[0] != "PERMISSION_DENIED"@[0]);
    assert("LONG_JOB_ACCEPTED"@[0] != "VALIDATION_FAILED"@[0]);
    assert("LONG_JOB_ACCEPTED"@[0] != "PERMISSION_DENIED"@[0]);
    assert("LONG_JOB_ACCEPTED"@[0] != "RESOURCE_CONFLICT"@[0]);
    assert("PHIRA_AUTH_FAILED"@[0] != "VALIDATION_FAILED"@[0]);
    assert("PHIRA_AUTH_FAILED"@[1] != "PERMISSION_DENIED"@[1]);
    assert("PHIRA_AUTH_FAILED"@[0] != "RESOURCE_CONFLICT"@[0]);
    assert("PHIRA_AUTH_FAILED"@[0] != "LONG_JOB_ACCEPTED"@[0]);
    assert("PHIRA_API_UNAVAILABLE"@[6] != "PHIRA_REAUTH_REQUIRED"@[6]);
    assert("GITHUB_API_UNAVAILABLE"@[0] != "REQUEST_BODY_TOO_LARGE"@[0]);
    assert("AUTH_LEGAL_CONSENT_REQUIRED"@[0] != "GITHUB_OAUTH_NOT_CONFIGURED"@[0]);
    assert("AUTH_LEGAL_DOCUMENTS_UNAVAILABLE"@[0] != "LONG_RUNNING_ACTION_REQUIRES_JOB"@[0]);
    assert("ROOT_PASSWORD_INVALID"@[0] != "PHIRA_REAUTH_REQUIRED"@[0]);
    assert("ROOT_PASSWORD_INVALID"@[0] != "PHIRA_API_UNAVAILABLE"@[0]);
    assert("CURRENT_SESSION_REVOKE_FORBIDDEN"@[0] != "LONG_RUNNING_ACTION_REQUIRES_JOB"@[0]);
    assert("CURRENT_SESSION_REVOKE_FORBIDDEN"@[0] != "AUTH_LEGAL_DOCUMENTS_UNAVAILABLE"@[0]);
    assert("PMP_UNAVAILABLE"@[0] != "SESSION_EXPIRED"@[0]);
    assert("PMP_COMMAND_FAILED"@[0] != "INVALID_PATH_PARAM"@[0]);
    assert("PMP_COMMAND_FAILED"@[0] != "METHOD_NOT_ALLOWED"@[0]);
    assert("PMP_COMMAND_FAILED"@[0] != "RESOURCE_NOT_FOUND"@[0]);
    assert("PMP_COMMAND_TIMEOUT"@[0] != "GITHUB_OAUTH_FAILED"@[0]);
    assert("PMP_CAPABILITY_MISSING"@[0] != "REQUEST_BODY_TOO_LARGE"@[0]);
    assert("PMP_CAPABILITY_MISSING"@[0] != "GITHUB_API_UNAVAILABLE"@[0]);
    assert("PMP_CONFIG_NOT_AVAILABLE"@[0] != "CAPABILITY_NOT_SUPPORTED"@[0]);
    assert("PMP_INVALID_RESPONSE"@[0] != "INVALID_CONTENT_TYPE"@[0]);
    assert("ROOM_NOT_FOUND"@[0] != "INTERNAL_ERROR"@[0]);
    assert("ROOM_HOST_REQUIRED"@[0] != "INVALID_PATH_PARAM"@[0]);
    assert("ROOM_HOST_REQUIRED"@[0] != "METHOD_NOT_ALLOWED"@[0]);
    assert("ROOM_HOST_REQUIRED"@[1] != "RESOURCE_NOT_FOUND"@[1]);
    assert("ROOM_HOST_REQUIRED"@[0] != "PMP_COMMAND_FAILED"@[0]);
    assert("ROOM_USER_NOT_PRESENT"@[0] != "PHIRA_REAUTH_REQUIRED"@[0]);
    assert("ROOM_USER_NOT_PRESENT"@[0] != "PHIRA_API_UNAVAILABLE"@[0]);
    assert("ROOM_USER_NOT_PRESENT"@[3] != "ROOT_PASSWORD_INVALID"@[3]);
    assert("ROOM_BATCH_TARGET_REQUIRED"@[0] != "GITHUB_OAUTH_STATE_INVALID"@[0]);
    assert("ROOM_BATCH_ACTION_UNSUPPORTED"@[3] != "ROOT_PASSWORD_CHANGE_REQUIRED"@[3]);
    assert("ROOM_MOVE_TARGET_REQUIRED"@[0] != "GITHUB_IDENTITY_NOT_BOUND"@[0]);
    assert("ROOM_CHAT_EMPTY"@[0] != "SESSION_EXPIRED"@[0]);
    assert("ROOM_CHAT_EMPTY"@[0] != "PMP_UNAVAILABLE"@[0]);
    assert("ROOM_CHAT_TOO_LONG"@[0] != "INVALID_PATH_PARAM"@[0]);
    assert("ROOM_CHAT_TOO_LONG"@[0] != "METHOD_NOT_ALLOWED"@[0]);
    assert("ROOM_CHAT_TOO_LONG"@[1] != "RESOURCE_NOT_FOUND"@[1]);
    assert("ROOM_CHAT_TOO_LONG"@[0] != "PMP_COMMAND_FAILED"@[0]);
    assert("ROOM_CHAT_TOO_LONG"@[5] != "ROOM_HOST_REQUIRED"@[5]);
    assert("USER_NOT_FOUND"@[0] != "INTERNAL_ERROR"@[0]);
    assert("USER_NOT_FOUND"@[0] != "ROOM_NOT_FOUND"@[0]);
    assert("ALREADY_FRIENDS"@[0] != "SESSION_EXPIRED"@[0]);
    assert("ALREADY_FRIENDS"@[0] != "PMP_UNAVAILABLE"@[0]);
    assert("ALREADY_FRIENDS"@[0] != "ROOM_CHAT_EMPTY"@[0]);
    assert("FRIEND_REQUEST_ALREADY_SENT"@[0] != "GITHUB_OAUTH_NOT_CONFIGURED"@[0]);
    assert("FRIEND_REQUEST_ALREADY_SENT"@[0] != "AUTH_LEGAL_CONSENT_REQUIRED"@[0]);
    assert("FRIEND_REQUEST_NOT_FOUND"@[0] != "CAPABILITY_NOT_SUPPORTED"@[0]);
    assert("FRIEND_REQUEST_NOT_FOUND"@[0] != "PMP_CONFIG_NOT_AVAILABLE"@[0]);
    assert("FRIEND_RELATION_REQUIRED"@[0] != "CAPABILITY_NOT_SUPPORTED"@[0]);
    assert("FRIEND_RELATION_REQUIRED"@[0] != "PMP_CONFIG_NOT_AVAILABLE"@[0]);
    assert("FRIEND_RELATION_REQUIRED"@[9] != "FRIEND_REQUEST_NOT_FOUND"@[9]);
    assert("USER_BLOCKED"@[0] != "INVALID_JSON"@[0]);
    assert("USER_BLOCKED"@[0] != "RATE_LIMITED"@[0]);
    assert("USER_BLOCKED"@[0] != "CSRF_INVALID"@[0]);
    assert("REPLAY_NOT_FOUND"@[1] != "ROOM_ID_REQUIRED"@[1]);
    assert("REPLAY_ACCESS_DENIED"@[0] != "INVALID_CONTENT_TYPE"@[0]);
    assert("REPLAY_ACCESS_DENIED"@[0] != "PMP_INVALID_RESPONSE"@[0]);
    assert("REPLAY_VISIBILITY_INVALID"@[0] != "GITHUB_IDENTITY_NOT_BOUND"@[0]);
    assert("REPLAY_VISIBILITY_INVALID"@[1] != "ROOM_MOVE_TARGET_REQUIRED"@[1]);
    assert("REPLAY_PLAYER_REQUIRED"@[2] != "REQUEST_BODY_TOO_LARGE"@[2]);
    assert("REPLAY_PLAYER_REQUIRED"@[0] != "GITHUB_API_UNAVAILABLE"@[0]);
    assert("REPLAY_PLAYER_REQUIRED"@[0] != "PMP_CAPABILITY_MISSING"@[0]);
    assert("REPLAY_SHARE_INVALID"@[0] != "INVALID_CONTENT_TYPE"@[0]);
    assert("REPLAY_SHARE_INVALID"@[0] != "PMP_INVALID_RESPONSE"@[0]);
    assert("REPLAY_SHARE_INVALID"@[7] != "REPLAY_ACCESS_DENIED"@[7]);
    assert("REPLAY_SHARE_EXPIRED"@[0] != "INVALID_CONTENT_TYPE"@[0]);
    assert("REPLAY_SHARE_EXPIRED"@[0] != "PMP_INVALID_RESPONSE"@[0]);
    assert("REPLAY_SHARE_EXPIRED"@[7] != "REPLAY_ACCESS_DENIED"@[7]);
    assert("REPLAY_SHARE_EXPIRED"@[13] != "REPLAY_SHARE_INVALID"@[13]);
    assert("REPLAY_SHARE_REVOKED"@[0] != "INVALID_CONTENT_TYPE"@[0]);
    assert("REPLAY_SHARE_REVOKED"@[0] != "PMP_INVALID_RESPONSE"@[0]);
    assert("REPLAY_SHARE_REVOKED"@[7] != "REPLAY_ACCESS_DENIED"@[7]);
    assert("REPLAY_SHARE_REVOKED"@[13] != "REPLAY_SHARE_INVALID"@[13]);
    assert("REPLAY_SHARE_REVOKED"@[13] != "REPLAY_SHARE_EXPIRED"@[13]);
    assert("NOTIFICATION_NOT_FOUND"@[0] != "REQUEST_BODY_TOO_LARGE"@[0]);
    assert("NOTIFICATION_NOT_FOUND"@[0] != "GITHUB_API_UNAVAILABLE"@[0]);
    assert("NOTIFICATION_NOT_FOUND"@[0] != "PMP_CAPABILITY_MISSING"@[0]);
    assert("NOTIFICATION_NOT_FOUND"@[0] != "REPLAY_PLAYER_REQUIRED"@[0]);
    assert("NOTIFICATION_INPUT_EMPTY"@[0] != "CAPABILITY_NOT_SUPPORTED"@[0]);
    assert("NOTIFICATION_INPUT_EMPTY"@[0] != "PMP_CONFIG_NOT_AVAILABLE"@[0]);
    assert("NOTIFICATION_INPUT_EMPTY"@[0] != "FRIEND_REQUEST_NOT_FOUND"@[0]);
    assert("NOTIFICATION_INPUT_EMPTY"@[0] != "FRIEND_RELATION_REQUIRED"@[0]);
    assert("NOTIFICATION_INPUT_TOO_LONG"@[0] != "GITHUB_OAUTH_NOT_CONFIGURED"@[0]);
    assert("NOTIFICATION_INPUT_TOO_LONG"@[0] != "AUTH_LEGAL_CONSENT_REQUIRED"@[0]);
    assert("NOTIFICATION_INPUT_TOO_LONG"@[0] != "FRIEND_REQUEST_ALREADY_SENT"@[0]);
    assert("CONFIG_VALIDATION_FAILED"@[1] != "CAPABILITY_NOT_SUPPORTED"@[1]);
    assert("CONFIG_VALIDATION_FAILED"@[0] != "PMP_CONFIG_NOT_AVAILABLE"@[0]);
    assert("CONFIG_VALIDATION_FAILED"@[0] != "FRIEND_REQUEST_NOT_FOUND"@[0]);
    assert("CONFIG_VALIDATION_FAILED"@[0] != "FRIEND_RELATION_REQUIRED"@[0]);
    assert("CONFIG_VALIDATION_FAILED"@[0] != "NOTIFICATION_INPUT_EMPTY"@[0]);
    assert("CONFIG_SNAPSHOT_NOT_FOUND"@[0] != "GITHUB_IDENTITY_NOT_BOUND"@[0]);
    assert("CONFIG_SNAPSHOT_NOT_FOUND"@[0] != "ROOM_MOVE_TARGET_REQUIRED"@[0]);
    assert("CONFIG_SNAPSHOT_NOT_FOUND"@[0] != "REPLAY_VISIBILITY_INVALID"@[0]);
    assert("CONFIG_SCOPE_INVALID"@[0] != "INVALID_CONTENT_TYPE"@[0]);
    assert("CONFIG_SCOPE_INVALID"@[0] != "PMP_INVALID_RESPONSE"@[0]);
    assert("CONFIG_SCOPE_INVALID"@[0] != "REPLAY_ACCESS_DENIED"@[0]);
    assert("CONFIG_SCOPE_INVALID"@[0] != "REPLAY_SHARE_INVALID"@[0]);
    assert("CONFIG_SCOPE_INVALID"@[0] != "REPLAY_SHARE_EXPIRED"@[0]);
    assert("CONFIG_SCOPE_INVALID"@[0] != "REPLAY_SHARE_REVOKED"@[0]);
    assert("JOB_NOT_FOUND"@[0] != "INVALID_QUERY"@[0]);
    assert("JOB_NOT_FOUND"@[0] != "AUTH_REQUIRED"@[0]);
    assert("JOB_TYPE_UNKNOWN"@[0] != "ROOM_ID_REQUIRED"@[0]);
    assert("JOB_TYPE_UNKNOWN"@[0] != "REPLAY_NOT_FOUND"@[0]);
    assert("JOB_ALREADY_RUNNING"@[0] != "GITHUB_OAUTH_FAILED"@[0]);
    assert("JOB_ALREADY_RUNNING"@[0] != "PMP_COMMAND_TIMEOUT"@[0]);
    assert("JOB_NOT_RETRYABLE"@[0] != "VALIDATION_FAILED"@[0]);
    assert("JOB_NOT_RETRYABLE"@[0] != "PERMISSION_DENIED"@[0]);
    assert("JOB_NOT_RETRYABLE"@[0] != "RESOURCE_CONFLICT"@[0]);
    assert("JOB_NOT_RETRYABLE"@[0] != "LONG_JOB_ACCEPTED"@[0]);
    assert("JOB_NOT_RETRYABLE"@[0] != "PHIRA_AUTH_FAILED"@[0]);
    assert("JOB_NOT_CANCELLABLE"@[0] != "GITHUB_OAUTH_FAILED"@[0]);
    assert("JOB_NOT_CANCELLABLE"@[0] != "PMP_COMMAND_TIMEOUT"@[0]);
    assert("JOB_NOT_CANCELLABLE"@[4] != "JOB_ALREADY_RUNNING"@[4]);
    assert("REDEMPTION_CODE_NOT_FOUND"@[0] != "GITHUB_IDENTITY_NOT_BOUND"@[0]);
    assert("REDEMPTION_CODE_NOT_FOUND"@[1] != "ROOM_MOVE_TARGET_REQUIRED"@[1]);
    assert("REDEMPTION_CODE_NOT_FOUND"@[2] != "REPLAY_VISIBILITY_INVALID"@[2]);
    assert("REDEMPTION_CODE_NOT_FOUND"@[0] != "CONFIG_SNAPSHOT_NOT_FOUND"@[0]);
    assert("REDEMPTION_CODE_EXPIRED"@[16] != "REDEMPTION_CODE_REVOKED"@[16]);
    assert("REDEMPTION_CODE_LIMIT_REACHED"@[1] != "ROOT_PASSWORD_CHANGE_REQUIRED"@[1]);
    assert("REDEMPTION_CODE_LIMIT_REACHED"@[1] != "ROOM_BATCH_ACTION_UNSUPPORTED"@[1]);
    assert("REDEMPTION_ACTION_UNSUPPORTED"@[1] != "ROOT_PASSWORD_CHANGE_REQUIRED"@[1]);
    assert("REDEMPTION_ACTION_UNSUPPORTED"@[1] != "ROOM_BATCH_ACTION_UNSUPPORTED"@[1]);
    assert("REDEMPTION_ACTION_UNSUPPORTED"@[11] != "REDEMPTION_CODE_LIMIT_REACHED"@[11]);
    assert("GROUP_NOT_FOUND"@[0] != "SESSION_EXPIRED"@[0]);
    assert("GROUP_NOT_FOUND"@[0] != "PMP_UNAVAILABLE"@[0]);
    assert("GROUP_NOT_FOUND"@[0] != "ROOM_CHAT_EMPTY"@[0]);
    assert("GROUP_NOT_FOUND"@[0] != "ALREADY_FRIENDS"@[0]);
    assert("GROUP_NAME_REQUIRED"@[1] != "GITHUB_OAUTH_FAILED"@[1]);
    assert("GROUP_NAME_REQUIRED"@[0] != "PMP_COMMAND_TIMEOUT"@[0]);
    assert("GROUP_NAME_REQUIRED"@[0] != "JOB_ALREADY_RUNNING"@[0]);
    assert("GROUP_NAME_REQUIRED"@[0] != "JOB_NOT_CANCELLABLE"@[0]);
    assert("USER_ACTION_TARGET_INVALID"@[0] != "GITHUB_OAUTH_STATE_INVALID"@[0]);
    assert("USER_ACTION_TARGET_INVALID"@[0] != "ROOM_BATCH_TARGET_REQUIRED"@[0]);
}

/// Distinct codes have distinct wire strings.
pub proof fn lemma_code_strings_distinct(a: ErrorCode, b: ErrorCode)
    ensures
        a != b ==> a.code_str() != b.code_str(),
{
    lemma_code_named_round_trip(a);
    lemma_code_named_round_trip(b);
}
/// The error-code choice for a missing resource, from its lower-cased name.
pub open spec fn not_found_code_for(lower_name: Seq<char>) -> ErrorCode {
    if has_sub(lower_name, "room"@) {
        ErrorCode::RoomNotFound
    } else if has_sub(lower_name, "replay"@) || has_sub(lower_name, "round"@) {
        ErrorCode::ReplayNotFound
    } else if has_sub(lower_name, "notification"@) {
        ErrorCode::NotificationNotFound
    } else if has_sub(lower_name, "friend request"@) {
        ErrorCode::FriendRequestNotFound
    } else if has_sub(lower_name, "user"@) || has_sub(lower_name, "profile"@) {
        ErrorCode::UserNotFound
    } else if has_sub(lower_name, "snapshot"@) {
        ErrorCode::ConfigSnapshotNotFound
    } else if has_sub(lower_name, "job"@) {
        ErrorCode::JobNotFound
    } else if has_sub(lower_name, "redemption"@) || has_sub(lower_name, "coupon"@) {
        ErrorCode::RedemptionCodeNotFound
    } else if has_sub(lower_name, "group"@) {
        ErrorCode::GroupNotFound
    } else {
        ErrorCode::ResourceNotFound
    }
}

fn lower_has(lower_name: &Vec<char>, word: &str) -> (r: bool)
    ensures
        r == has_sub(lower_name@, word@),
{
    let w = chars_of(word);
    contains(lower_name.as_slice(), w.as_slice())
}

/// Resource-name helper: the caller names the resource explicitly; arbitrary
/// handler messages are never parsed here.
pub fn not_found_code(resource: &str) -> (c: ErrorCode)
    ensures
        c == not_found_code_for(lower(resource@)),
{
    let rc = chars_of(resource);
    let l = to_lower_chars(rc.as_slice());
    if lower_has(&l, "room") {
        ErrorCode::RoomNotFound
    } else if lower_has(&l, "replay") || lower_has(&l, "round") {
        ErrorCode::ReplayNotFound
    } else if lower_has(&l, "notification") {
        ErrorCode::NotificationNotFound
    } else if lower_has(&l, "friend request") {
        ErrorCode::FriendRequestNotFound
    } else if lower_has(&l, "user") || lower_has(&l, "profile") {
        ErrorCode::UserNotFound
    } else if lower_has(&l, "snapshot") {
        ErrorCode::ConfigSnapshotNotFound
    } else if lower_has(&l, "job") {
        ErrorCode::JobNotFound
    } else if lower_has(&l, "redemption") || lower_has(&l, "coupon") {
        ErrorCode::RedemptionCodeNotFound
    } else if lower_has(&l, "group") {
        ErrorCode::GroupNotFound
    } else {
        ErrorCode::ResourceNotFound
    }
}

// ── details sanitization ──────────────────────────────────────────────

/// `{ "params": p }`.
pub open spec fn params_doc(p: Seq<(Seq<char>, JsonV)>) -> JsonV {
    JsonV::Object(seq![("params"@, JsonV::Object(p))])
}

/// The scalar params that survive sanitization of an arbitrary details value:
/// the scalar members of `details.params` when that is an object, otherwise
/// the scalar top-level members; nothing for a non-object.
pub open spec fn sanitized_params(v: JsonV) -> Seq<(Seq<char>, JsonV)> {
    match v {
        JsonV::Object(es) => match entries_get(es, "params"@) {
            Some(JsonV::Object(p)) => safe_entries(p),
            _ => safe_entries(es),
        },
        _ => Seq::empty(),
    }
}

/// The scalar members of an existing `details.params` object (nothing when
/// `params` is absent or not an object).
pub open spec fn existing_params(v: JsonV) -> Seq<(Seq<char>, JsonV)> {
    match v.get("params"@) {
        Some(JsonV::Object(p)) => safe_entries(p),
        _ => Seq::empty(),
    }
}

/// The scalar entries of `es`, deep-copied, in order.
pub fn safe_entries_of(es: &Vec<(String, Json)>) -> (r: Vec<(String, Json)>)
    ensures
        entries_view(r@) == safe_entries(entries_view(es@)),
{
    let ghost ev = entries_view(es@);
    let n = es.len();
    let mut r: Vec<(String, Json)> = Vec::new();
    let mut i: usize = 0;
    assert(ev.subrange(0, n as int) =~= ev);
    while i < n
        invariant
            n == es@.len(),
            ev == entries_view(es@),
            i <= n,
            entries_view(r@) + safe_entries(ev.subrange(i as int, n as int)) == safe_entries(ev),
        decreases n - i,
    {
        let ghost before = entries_view(r@);
        let ghost rest = ev.subrange(i as int, n as int);
        assert(rest[0] == ev[i as int]);
        assert(rest.drop_first() =~= ev.subrange(i + 1, n as int));
        if es[i].1.is_safe_scalar() {
            let v = deep_clone(&es[i].1);
            let k = es[i].0.clone();
            r.push((k, v));
            assert(entries_view(r@) =~= before.push(ev[i as int]));
            assert(entries_view(r@) + safe_entries(ev.subrange(i + 1, n as int)) =~= before + (seq![ev[i as int]]
                + safe_entries(ev.subrange(i + 1, n as int))));
        } else {
            assert(entries_view(r@) =~= before);
        }
        i = i + 1;
    }
    assert(ev.subrange(n as int, n as int) =~= Seq::<(Seq<char>, JsonV)>::empty());
    assert(entries_view(r@) + Seq::<(Seq<char>, JsonV)>::empty() =~= entries_view(r@));
    r
}

/// `es` with every binding of `key` removed (deep-copied).
pub fn entries_without_exec(es: &Vec<(String, Json)>, key: &str) -> (r: Vec<(String, Json)>)
    ensures
        entries_view(r@) == entries_without(entries_view(es@), key@),
{
    let ghost ev = entries_view(es@);
    let n = es.len();
    let mut r: Vec<(String, Json)> = Vec::new();
    let mut i: usize = 0;
    assert(ev.subrange(0, n as int) =~= ev);
    while i < n
        invariant
            n == es@.len(),
            ev == entries_view(es@),
            i <= n,
            entries_view(r@) + entries_without(ev.subrange(i as int, n as int), key@) == entries_without(ev, key@),
        decreases n - i,
    {
        let ghost before = entries_view(r@);
        let ghost rest = ev.subrange(i as int, n as int);
        assert(rest[0] == ev[i as int]);
        assert(rest.drop_first() =~= ev.subrange(i + 1, n as int));
        if !str_eq(es[i].0.as_str(), key) {
            let v = deep_clone(&es[i].1);
            let k = es[i].0.clone();
            r.push((k, v));
            assert(entries_view(r@) =~= before.push(ev[i as int]));
            assert(entries_view(r@) + entries_without(ev.subrange(i + 1, n as int), key@) =~= before + (seq![
                ev[i as int],
            ] + entries_without(ev.subrange(i + 1, n as int), key@)));
        } else {
            assert(entries_view(r@) =~= before);
        }
        i = i + 1;
    }
    assert(ev.subrange(n as int, n as int) =~= Seq::<(Seq<char>, JsonV)>::empty());
    assert(entries_view(r@) + Seq::<(Seq<char>, JsonV)>::empty() =~= entries_view(r@));
    r
}

/// The scalar params kept from an object `value` whose members are `es`.
fn kept_params(value: &Json, es: &Vec<(String, Json)>) -> (r: Vec<(String, Json)>)
    requires
        *value == Json::Object(*es),
    ensures
        entries_view(r@) == sanitized_params(value@),
{
    proof {
        lemma_object_view(*value);
    }
    match value.get("params") {
        Some(pv) => match pv {
            Json::Object(p) => {
                proof {
                    lemma_object_view(*pv);
                }
                safe_entries_of(p)
            },
            _ => {
                assert(!(pv@ is Object));
                safe_entries_of(es)
            },
        },
        None => safe_entries_of(es),
    }
}

/// `{ "params": <entries> }`.
pub fn params_value(p: Vec<(String, Json)>) -> (r: Json)
    ensures
        r@ == params_doc(entries_view(p@)),
{
    let inner = Json::Object(p);
    proof {
        lemma_object_view(inner);
    }
    let mut outer: Vec<(String, Json)> = Vec::new();
    outer.push((own("params"), inner));
    let r = Json::Object(outer);
    proof {
        lemma_object_view(r);
        assert(entries_view(outer@) =~= seq![("params"@, JsonV::Object(entries_view(p@)))]);
    }
    r
}

/// Normalize an arbitrary details value into `{ "params": { scalars } }`.
pub fn sanitize_details(value: &Json) -> (r: Json)
    ensures
        r@ == params_doc(sanitized_params(value@)),
{
    match value {
        Json::Object(es) => {
            proof {
                lemma_object_view(*value);
            }
            params_value(kept_params(value, es))
        },
        _ => {
            let none: Vec<(String, Json)> = Vec::new();
            assert(entries_view(none@) =~= sanitized_params(value@));
            params_value(none)
        },
    }
}

#[derive(Debug)]
/// Safe details body: scalar params only.
pub struct ErrorDetails {
    pub params: Vec<(String, Json)>,
}

#[derive(Debug)]
/// Serializable error body (`error` member).
pub struct ErrorBody {
    pub code: ErrorCode,
    pub message: String,
    pub request_id: String,
    pub details: ErrorDetails,
}

#[derive(Debug)]
/// The JSON `{ "error": ... }` envelope.
pub struct ErrorEnvelope {
    pub error: ErrorBody,
}

/// The sanitized params of a details value.
pub fn details_from_value(value: &Json) -> (d: ErrorDetails)
    ensures
        entries_view(d.params@) == sanitized_params(value@),
{
    match value {
        Json::Object(es) => {
            proof {
                lemma_object_view(*value);
            }
            ErrorDetails { params: kept_params(value, es) }
        },
        _ => ErrorDetails { params: Vec::new() },
    }
}

// ── ApiError ──────────────────────────────────────────────────────────

/// The REST message kept for a code: `INTERNAL_ERROR` never leaks its text.
pub open spec fn visible_message(code: ErrorCode, message: Seq<char>) -> Seq<char> {
    if code == ErrorCode::InternalError {
        "internal server error"@
    } else {
        message
    }
}

#[derive(Debug)]
/// An API error ready to be returned to a client. An empty `request_id` is
/// stamped with the current request's id at the HTTP boundary.
pub struct ApiError {
    pub code: ErrorCode,
    pub message: String,
    pub request_id: String,
    pub details: Json,
    /// When set (rate limit), adds `Retry-After` to the response.
    pub retry_after_secs: Option<u64>,
}

impl ApiError {
    pub fn new(code: ErrorCode, message: &str) -> (e: ApiError)
        ensures
            e.code == code,
            e.message@ == visible_message(code, message@),
            e.request_id@ == Seq::<char>::empty(),
            e.details@ == params_doc(Seq::empty()),
            e.retry_after_secs is None,
    {
        let message = if code == ErrorCode::InternalError {
            own("internal server error")
        } else {
            own(message)
        };
        let details = params_value(Vec::new());
        proof {
            assert(entries_view(Seq::<(String, Json)>::empty()) =~= Seq::<(Seq<char>, JsonV)>::empty());
        }
        ApiError { code, message, request_id: String::new(), details, retry_after_secs: None }
    }

    pub fn with_details(code: ErrorCode, message: &str, details: &Json) -> (e: ApiError)
        ensures
            e.code == code,
            e.message@ == visible_message(code, message@),
            e.request_id@ == Seq::<char>::empty(),
            e.details@ == params_doc(sanitized_params(details@)),
            e.retry_after_secs is None,
    {
        let mut error = ApiError::new(code, message);
        error.details = sanitize_details(details);
        error
    }

    pub fn validation(message: &str) -> (e: ApiError)
        ensures
            e.code == ErrorCode::ValidationFailed,
            e.message@ == message@,
            e.details@ == params_doc(Seq::empty()),
            e.retry_after_secs is None,
    {
        ApiError::new(ErrorCode::ValidationFailed, message)
    }

    pub fn conflict(message: &str) -> (e: ApiError)
        ensures
            e.code == ErrorCode::ResourceConflict,
            e.message@ == message@,
            e.details@ == params_doc(Seq::empty()),
            e.retry_after_secs is None,
    {
        ApiError::new(ErrorCode::ResourceConflict, message)
    }

    pub fn permission_denied() -> (e: ApiError)
        ensures
            e.code == ErrorCode::PermissionDenied,
            e.message@ == "permission denied"@,
            e.details@ == params_doc(Seq::empty()),
            e.retry_after_secs is None,
    {
        ApiError::new(ErrorCode::PermissionDenied, "permission denied")
    }

    pub fn session(message: &str) -> (e: ApiError)
        ensures
            e.code == ErrorCode::SessionExpired,
            e.message@ == message@,
            e.details@ == params_doc(Seq::empty()),
            e.retry_after_secs is None,
    {
        ApiError::new(ErrorCode::SessionExpired, message)
    }

    pub fn internal() -> (e: ApiError)
        ensures
            e.code == ErrorCode::InternalError,
            e.message@ == "internal server error"@,
            e.details@ == params_doc(Seq::empty()),
            e.retry_after_secs is None,
    {
        ApiError::new(ErrorCode::InternalError, "internal server error")
    }

    /// Adds (or replaces) the string param `key`, keeping only the scalar
    /// members of the existing `details.params`.
    pub fn with_param(self, key: &str, value: &str) -> (e: ApiError)
        ensures
            e.code == self.code,
            e.message == self.message,
            e.request_id == self.request_id,
            e.retry_after_secs == self.retry_after_secs,
            e.details@ == params_doc(entries_insert(existing_params(self.details@), key@, JsonV::Str(value@))),
    {
        let existing = match self.details.get("params") {
            Some(Json::Object(p)) => {
                proof {
                    lemma_object_view(Json::Object(*p));
                }
                safe_entries_of(p)
            },
            _ => Vec::new(),
        };
        proof {
            assert(entries_view(Seq::<(String, Json)>::empty()) =~= Seq::<(Seq<char>, JsonV)>::empty());
        }
        let mut params = entries_without_exec(&existing, key);
        let ghost before = entries_view(params@);
        params.push((own(key), Json::Str(own(value))));
        proof {
            assert(entries_view(params@) =~= before.push((key@, JsonV::Str(value@))));
        }
        ApiError {
            code: self.code,
            message: self.message,
            request_id: self.request_id,
            details: params_value(params),
            retry_after_secs: self.retry_after_secs,
        }
    }

    /// Attach a request id explicitly.
    pub fn with_request_id(self, request_id: &str) -> (e: ApiError)
        ensures
            e.code == self.code,
            e.message == self.message,
            e.request_id@ == request_id@,
            e.details == self.details,
            e.retry_after_secs == self.retry_after_secs,
    {
        ApiError {
            code: self.code,
            message: self.message,
            request_id: own(request_id),
            details: self.details,
            retry_after_secs: self.retry_after_secs,
        }
    }

    /// A missing named resource: resource-specific code, message
    /// `resource not found: <name>` and param `resource`.
    pub fn not_found(resource: &str) -> (e: ApiError)
        ensures
            e.code == not_found_code_for(lower(resource@)),
            e.message@ == "resource not found: "@ + resource@,
            e.details@ == params_doc(seq![("resource"@, JsonV::Str(resource@))]),
            e.retry_after_secs is None,
    {
        let code = not_found_code(resource);
        let mut message = own("resource not found: ");
        append_str(&mut message, resource);
        let e = ApiError::new(code, message.as_str());
        assert(code != ErrorCode::InternalError);
        let r = e.with_param("resource", resource);
        proof {
            assert(existing_params(e.details@) =~= Seq::empty()) by {
                assert(e.details@ == params_doc(Seq::empty()));
                assert(params_doc(Seq::<(Seq<char>, JsonV)>::empty()).get("params"@) == Some(JsonV::Object(Seq::<(Seq<char>, JsonV)>::empty())));
            }
            assert(entries_insert(Seq::empty(), "resource"@, JsonV::Str(resource@)) =~= seq![("resource"@, JsonV::Str(resource@))]);
        }
        r
    }

    /// `"<CODE>: <message>"` (the error's display text).
    pub fn describe(&self) -> (s: String)
        ensures
            s@ == self.code.code_str() + ": "@ + self.message@,
    {
        let mut s = own(self.code.as_str());
        append_str(&mut s, ": ");
        append_str(&mut s, self.message.as_str());
        s
    }

    /// The response envelope: blank request ids take `fallback_request_id`,
    /// `INTERNAL_ERROR` is redacted (message and details), details keep
    /// scalar params only.
    pub fn into_envelope(self, fallback_request_id: &str) -> (env: ErrorEnvelope)
        ensures
            env.error.code == self.code,
            env.error.message@ == visible_message(self.code, self.message@),
            env.error.request_id@ == (if is_blank(self.request_id@) { fallback_request_id@ } else { self.request_id@ }),
            entries_view(env.error.details.params@) == (if self.code == ErrorCode::InternalError {
                Seq::empty()
            } else {
                sanitized_params(self.details@)
            }),
    {
        let rid = chars_of(self.request_id.as_str());
        let request_id = if is_blank_chars(rid.as_slice()) {
            own(fallback_request_id)
        } else {
            self.request_id
        };
        let internal = self.code == ErrorCode::InternalError;
        let message = if internal { own("internal server error") } else { self.message };
        let details = if internal {
            ErrorDetails { params: Vec::new() }
        } else {
            details_from_value(&self.details)
        };
        proof {
            assert(entries_view(Seq::<(String, Json)>::empty()) =~= Seq::<(Seq<char>, JsonV)>::empty());
        }
        ErrorEnvelope { error: ErrorBody { code: self.code, message, request_id, details } }
    }
}

/// Status-only classification of framework rejections (404/405/…); body text
/// is never parsed.
pub open spec fn framework_code_for(status: u16) -> ErrorCode {
    if status == 400 || status == 422 {
        ErrorCode::ValidationFailed
    } else if status == 404 {
        ErrorCode::ResourceNotFound
    } else if status == 405 {
        ErrorCode::MethodNotAllowed
    } else if status == 413 {
        ErrorCode::RequestBodyTooLarge
    } else if status == 415 {
        ErrorCode::InvalidContentType
    } else if status == 401 {
        ErrorCode::AuthRequired
    } else if status == 403 {
        ErrorCode::PermissionDenied
    } else if status == 429 {
        ErrorCode::RateLimited
    } else if 500 <= status && status <= 599 {
        ErrorCode::InternalError
    } else {
        ErrorCode::ValidationFailed
    }
}

pub fn framework_error_code(status: u16) -> (c: ErrorCode)
    ensures
        c == framework_code_for(status),
{
    if status == 400 || status == 422 {
        ErrorCode::ValidationFailed
    } else if status == 404 {
        ErrorCode::ResourceNotFound
    } else if status == 405 {
        ErrorCode::MethodNotAllowed
    } else if status == 413 {
        ErrorCode::RequestBodyTooLarge
    } else if status == 415 {
        ErrorCode::InvalidContentType
    } else if status == 401 {
        ErrorCode::AuthRequired
    } else if status == 403 {
        ErrorCode::PermissionDenied
    } else if status == 429 {
        ErrorCode::RateLimited
    } else if 500 <= status && status <= 599 {
        ErrorCode::InternalError
    } else {
        ErrorCode::ValidationFailed
    }
}

pub open spec fn framework_message_for(code: ErrorCode) -> Seq<char> {
    match code {
        ErrorCode::InvalidJson => "invalid json request"@,
        ErrorCode::InvalidQuery => "invalid query parameters"@,
        ErrorCode::InvalidPathParam => "invalid path parameter"@,
        ErrorCode::MethodNotAllowed => "method not allowed"@,
        ErrorCode::RequestBodyTooLarge => "request body too large"@,
        ErrorCode::InvalidContentType => "invalid content type"@,
        ErrorCode::ResourceNotFound => "route not found"@,
        ErrorCode::AuthRequired => "authentication required"@,
        ErrorCode::PermissionDenied => "permission denied"@,
        ErrorCode::RateLimited => "rate limited"@,
        ErrorCode::InternalError => "internal server error"@,
        _ => "request validation failed"@,
    }
}

pub fn framework_message(code: ErrorCode) -> (m: &'static str)
    ensures
        m@ == framework_message_for(code),
{
    match code {
        ErrorCode::InvalidJson => "invalid json request",
        ErrorCode::InvalidQuery => "invalid query parameters",
        ErrorCode::InvalidPathParam => "invalid path parameter",
        ErrorCode::MethodNotAllowed => "method not allowed",
        ErrorCode::RequestBodyTooLarge => "request body too large",
        ErrorCode::InvalidContentType => "invalid content type",
        ErrorCode::ResourceNotFound => "route not found",
        ErrorCode::AuthRequired => "authentication required",
        ErrorCode::PermissionDenied => "permission denied",
        ErrorCode::RateLimited => "rate limited",
        ErrorCode::InternalError => "internal server error",
        _ => "request validation failed",
    }
}

/// The error code an extractor reports for a rejected JSON body, by the
/// rejection's HTTP status.
pub open spec fn json_rejection_code_for(status: u16) -> ErrorCode {
    if status == 415 {
        ErrorCode::InvalidContentType
    } else if status == 413 {
        ErrorCode::RequestBodyTooLarge
    } else {
        ErrorCode::InvalidJson
    }
}

/// Code and message for a rejected JSON request body.
pub fn json_rejection(status: u16) -> (e: ApiError)
    ensures
        e.code == json_rejection_code_for(status),
        e.message@ == (if status == 415 {
            "request content type must be application/json"@
        } else if status == 413 {
            "request body too large"@
        } else {
            "invalid json request"@
        }),
        e.details@ == params_doc(Seq::empty()),
{
    if status == 415 {
        ApiError::new(ErrorCode::InvalidContentType, "request content type must be application/json")
    } else if status == 413 {
        ApiError::new(ErrorCode::RequestBodyTooLarge, "request body too large")
    } else {
        ApiError::new(ErrorCode::InvalidJson, "invalid json request")
    }
}

/// A rejected query string.
pub fn query_rejection() -> (e: ApiError)
    ensures
        e.code == ErrorCode::InvalidQuery,
        e.message@ == "invalid query parameters"@,
{
    ApiError::new(ErrorCode::InvalidQuery, "invalid query parameters")
}

/// A rejected path parameter.
pub fn path_rejection() -> (e: ApiError)
    ensures
        e.code == ErrorCode::InvalidPathParam,
        e.message@ == "invalid path parameter"@,
{
    ApiError::new(ErrorCode::InvalidPathParam, "invalid path parameter")
}

} // verus!
