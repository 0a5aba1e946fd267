use vstd::prelude::*;

verus! {

/// Errors returned to clients. Clients match on the string identifiers
/// returned by [`ApiError::code`], so those strings are part of the
/// library's stable contract and must never change.
#[derive(Clone, Copy, PartialEq, Eq, Structural, Debug)]
pub enum ApiError {
    CouldntFindThatUsernameOrEmail,
    PasswordIncorrect,
    InvalidPassword,
    RegistrationClosed,
    PasswordsDontMatch,
    CaptchaIncorrect,
    InvalidUsername,
    Slurs,
    UserAlreadyExists,
    EmailAlreadyExists,
    CommunityFollowerAlreadyExists,
    CommunityModeratorAlreadyExists,
    BioLengthOverflow,
    CouldntUpdateUser,
    CouldntUpdateComment,
    CouldntUpdatePrivateMessage,
    NoPrivateMessageEditAllowed,
    CouldntCreatePrivateMessage,
    CouldntUpdatePost,
    NotLoggedIn,
    NotAnAdmin,
}

impl ApiError {
    /// The stable string identifier of this error, as a spec-level value.
    pub open spec fn spec_code(self) -> Seq<char> {
        match self {
            ApiError::CouldntFindThatUsernameOrEmail => "couldnt_find_that_username_or_email"@,
            ApiError::PasswordIncorrect => "password_incorrect"@,
            ApiError::InvalidPassword => "invalid_password"@,
            ApiError::RegistrationClosed => "registration_closed"@,
            ApiError::PasswordsDontMatch => "passwords_dont_match"@,
            ApiError::CaptchaIncorrect => "captcha_incorrect"@,
            ApiError::InvalidUsername => "invalid_username"@,
            ApiError::Slurs => "slurs"@,
            ApiError::UserAlreadyExists => "user_already_exists"@,
            ApiError::EmailAlreadyExists => "email_already_exists"@,
            ApiError::CommunityFollowerAlreadyExists => "community_follower_already_exists"@,
            ApiError::CommunityModeratorAlreadyExists => "community_moderator_already_exists"@,
            ApiError::BioLengthOverflow => "bio_length_overflow"@,
            ApiError::CouldntUpdateUser => "couldnt_update_user"@,
            ApiError::CouldntUpdateComment => "couldnt_update_comment"@,
            ApiError::CouldntUpdatePrivateMessage => "couldnt_update_private_message"@,
            ApiError::NoPrivateMessageEditAllowed => "no_private_message_edit_allowed"@,
            ApiError::CouldntCreatePrivateMessage => "couldnt_create_private_message"@,
            ApiError::CouldntUpdatePost => "couldnt_update_post"@,
            ApiError::NotLoggedIn => "not_logged_in"@,
            ApiError::NotAnAdmin => "not_an_admin"@,
        }
    }

    /// The stable string identifier of this error, verbatim.
    pub fn code(&self) -> (r: &'static str)
        ensures
            r@ == self.spec_code(),
    {
        match self {
            ApiError::CouldntFindThatUsernameOrEmail => "couldnt_find_that_username_or_email",
            ApiError::PasswordIncorrect => "password_incorrect",
            ApiError::InvalidPassword => "invalid_password",
            ApiError::RegistrationClosed => "registration_closed",
            ApiError::PasswordsDontMatch => "passwords_dont_match",
            ApiError::CaptchaIncorrect => "captcha_incorrect",
            ApiError::InvalidUsername => "invalid_username",
            ApiError::Slurs => "slurs",
            ApiError::UserAlreadyExists => "user_already_exists",
            ApiError::EmailAlreadyExists => "email_already_exists",
            ApiError::CommunityFollowerAlreadyExists => "community_follower_already_exists",
            ApiError::CommunityModeratorAlreadyExists => "community_moderator_already_exists",
            ApiError::BioLengthOverflow => "bio_length_overflow",
            ApiError::CouldntUpdateUser => "couldnt_update_user",
            ApiError::CouldntUpdateComment => "couldnt_update_comment",
            ApiError::CouldntUpdatePrivateMessage => "couldnt_update_private_message",
            ApiError::NoPrivateMessageEditAllowed => "no_private_message_edit_allowed",
            ApiError::CouldntCreatePrivateMessage => "couldnt_create_private_message",
            ApiError::CouldntUpdatePost => "couldnt_update_post",
            ApiError::NotLoggedIn => "not_logged_in",
            ApiError::NotAnAdmin => "not_an_admin",
        }
    }
}

} // verus!
