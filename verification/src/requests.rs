use vstd::prelude::*;

use crate::entities::{Comment, CommunityFollower, CommunityModerator, Mention, Person, PrivateMessage, Post};

verus! {

pub struct Login {
    pub username_or_email: String,
    pub password: String,
}

pub struct Register {
    pub username: String,
    pub email: Option<String>,
    pub password: String,
    pub password_verify: String,
    pub show_nsfw: bool,
    pub captcha_uuid: Option<String>,
    pub captcha_answer: Option<String>,
}

/// The federation key pair of a new actor, produced by the caller's signing
/// layer; the core only stores it.
pub struct ActorKeyPair {
    pub private_key: String,
    pub public_key: String,
}

pub struct LoginResponse {
    pub jwt: String,
}

pub struct CaptchaResponse {
    pub png: String,
    pub uuid: String,
    pub wav: Option<String>,
}

pub struct GetCaptchaResponse {
    pub ok: Option<CaptchaResponse>,
}

pub struct SaveUserSettings {
    pub auth: String,
    pub show_nsfw: bool,
    pub theme: String,
    pub default_sort_type: u8,
    pub default_listing_type: u8,
    pub lang: String,
    pub avatar: Option<String>,
    pub banner: Option<String>,
    pub preferred_username: Option<String>,
    pub email: Option<String>,
    pub bio: Option<String>,
    pub matrix_user_id: Option<String>,
    pub new_password: Option<String>,
    pub new_password_verify: Option<String>,
    pub old_password: Option<String>,
    pub show_avatars: bool,
    pub send_notifications_to_email: bool,
}

pub struct GetUserDetails {
    pub auth: Option<String>,
    pub user_id: Option<u64>,
    pub username: Option<String>,
    pub page: Option<u64>,
    pub limit: Option<u64>,
    pub community_id: Option<u64>,
}

pub struct GetUserDetailsResponse {
    pub person: Person,
    pub follows: Vec<CommunityFollower>,
    pub moderates: Vec<CommunityModerator>,
    pub posts: Vec<Post>,
    pub comments: Vec<Comment>,
}

pub struct AddAdmin {
    pub auth: String,
    pub user_id: u64,
    pub added: bool,
}

pub struct AddAdminResponse {
    pub admins: Vec<Person>,
}

pub struct BanUser {
    pub auth: String,
    pub user_id: u64,
    pub ban: bool,
    pub remove_data: bool,
    pub reason: Option<String>,
    pub expires: Option<i64>,
}

pub struct BanUserResponse {
    pub person: Person,
    pub banned: bool,
}

pub struct GetReplies {
    pub auth: String,
    pub page: Option<u64>,
    pub limit: Option<u64>,
    pub unread_only: bool,
}

pub struct GetRepliesResponse {
    pub replies: Vec<Comment>,
}

pub struct GetUserMentions {
    pub auth: String,
    pub page: Option<u64>,
    pub limit: Option<u64>,
    pub unread_only: bool,
}

pub struct GetUserMentionsResponse {
    pub mentions: Vec<Mention>,
}

pub struct MarkUserMentionAsRead {
    pub auth: String,
    pub user_mention_id: u64,
    pub read: bool,
}

pub struct UserMentionResponse {
    pub user_mention_view: Mention,
}

pub struct MarkAllAsRead {
    pub auth: String,
}

pub struct DeleteAccount {
    pub auth: String,
    pub password: String,
}

pub struct PasswordReset {
    pub email: String,
}

pub struct PasswordResetResponse {}

pub struct PasswordChange {
    pub token: String,
    pub password: String,
    pub password_verify: String,
}

pub struct CreatePrivateMessage {
    pub auth: String,
    pub content: String,
    pub recipient_id: u64,
}

pub struct EditPrivateMessage {
    pub auth: String,
    pub private_message_id: u64,
    pub content: String,
}

pub struct DeletePrivateMessage {
    pub auth: String,
    pub private_message_id: u64,
    pub deleted: bool,
}

pub struct MarkPrivateMessageAsRead {
    pub auth: String,
    pub private_message_id: u64,
    pub read: bool,
}

pub struct GetPrivateMessages {
    pub auth: String,
    pub page: Option<u64>,
    pub limit: Option<u64>,
    pub unread_only: bool,
}

pub struct PrivateMessageResponse {
    pub private_message_view: PrivateMessage,
}

pub struct PrivateMessagesResponse {
    pub private_messages: Vec<PrivateMessage>,
}

pub struct GetReportCount {
    pub auth: String,
    pub community: Option<u64>,
}

pub struct GetReportCountResponse {
    pub community: Option<u64>,
    pub comment_reports: u64,
    pub post_reports: u64,
}

} // verus!
