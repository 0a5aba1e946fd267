use vstd::prelude::*;

verus! {

/// Clones an optional string, keeping the value.
pub fn clone_opt_string(o: &Option<String>) -> (r: Option<String>)
    ensures
        r == *o,
{
    match o {
        Some(s) => Some(s.clone()),
        None => None,
    }
}

/// A federated identity, hosted here (`local`) or on another instance.
pub struct Person {
    pub id: u64,
    pub name: String,
    pub display_name: Option<String>,
    pub bio: Option<String>,
    pub avatar: Option<String>,
    pub banner: Option<String>,
    pub actor_id: String,
    pub inbox_url: String,
    pub shared_inbox_url: String,
    pub private_key: Option<String>,
    pub public_key: Option<String>,
    pub banned: bool,
    pub deleted: bool,
    pub local: bool,
    pub published: i64,
}

/// The client-facing form of a person: identical, with the federation key
/// pair withheld.
pub open spec fn safe_person(p: Person) -> Person {
    Person { private_key: Option::None, public_key: Option::None, ..p }
}

impl Person {
    /// A copy safe to hand to clients: the federation key pair never leaves
    /// the server.
    pub fn safe_view(&self) -> (r: Person)
        ensures
            r == safe_person(*self),
    {
        Person { private_key: None, public_key: None, ..self.clone() }
    }
}

impl Clone for Person {
    fn clone(&self) -> (r: Self)
        ensures
            r == *self,
    {
        Person {
            id: self.id,
            name: self.name.clone(),
            display_name: clone_opt_string(&self.display_name),
            bio: clone_opt_string(&self.bio),
            avatar: clone_opt_string(&self.avatar),
            banner: clone_opt_string(&self.banner),
            actor_id: self.actor_id.clone(),
            inbox_url: self.inbox_url.clone(),
            shared_inbox_url: self.shared_inbox_url.clone(),
            private_key: clone_opt_string(&self.private_key),
            public_key: clone_opt_string(&self.public_key),
            banned: self.banned,
            deleted: self.deleted,
            local: self.local,
            published: self.published,
        }
    }
}

/// Credentials and preferences of a local Person; exactly one per local
/// Person, enforced by the registration workflow.
pub struct LocalUser {
    pub id: u64,
    pub person_id: u64,
    pub email: Option<String>,
    pub password_hash: String,
    pub admin: bool,
    pub matrix_user_id: Option<String>,
    pub show_nsfw: bool,
    pub theme: String,
    pub default_sort_type: u8,
    pub default_listing_type: u8,
    pub lang: String,
    pub show_avatars: bool,
    pub send_notifications_to_email: bool,
}

impl Clone for LocalUser {
    fn clone(&self) -> (r: Self)
        ensures
            r == *self,
    {
        LocalUser {
            id: self.id,
            person_id: self.person_id,
            email: clone_opt_string(&self.email),
            password_hash: self.password_hash.clone(),
            admin: self.admin,
            matrix_user_id: clone_opt_string(&self.matrix_user_id),
            show_nsfw: self.show_nsfw,
            theme: self.theme.clone(),
            default_sort_type: self.default_sort_type,
            default_listing_type: self.default_listing_type,
            lang: self.lang.clone(),
            show_avatars: self.show_avatars,
            send_notifications_to_email: self.send_notifications_to_email,
        }
    }
}

pub struct Community {
    pub id: u64,
    pub name: String,
    pub title: String,
    pub creator_id: u64,
    pub removed: bool,
    pub deleted: bool,
    pub local: bool,
    pub actor_id: String,
}

impl Clone for Community {
    fn clone(&self) -> (r: Self)
        ensures
            r == *self,
    {
        Community {
            id: self.id,
            name: self.name.clone(),
            title: self.title.clone(),
            creator_id: self.creator_id,
            removed: self.removed,
            deleted: self.deleted,
            local: self.local,
            actor_id: self.actor_id.clone(),
        }
    }
}

#[derive(Clone, Copy, PartialEq, Eq, Structural)]
pub struct CommunityFollower {
    pub community_id: u64,
    pub person_id: u64,
    pub pending: bool,
}

#[derive(Clone, Copy, PartialEq, Eq, Structural)]
pub struct CommunityModerator {
    pub community_id: u64,
    pub person_id: u64,
}

#[derive(Clone, Copy, PartialEq, Eq, Structural)]
pub struct Post {
    pub id: u64,
    pub creator_id: u64,
    pub community_id: u64,
    pub nsfw: bool,
    pub removed: bool,
    pub deleted: bool,
}

/// A comment; `recipient_id` is the person the comment replies to, when the
/// comment is a reply.
pub struct Comment {
    pub id: u64,
    pub creator_id: u64,
    pub post_id: u64,
    pub content: String,
    pub recipient_id: Option<u64>,
    pub read: bool,
    pub removed: bool,
    pub deleted: bool,
}

impl Clone for Comment {
    fn clone(&self) -> (r: Self)
        ensures
            r == *self,
    {
        Comment {
            id: self.id,
            creator_id: self.creator_id,
            post_id: self.post_id,
            content: self.content.clone(),
            recipient_id: self.recipient_id,
            read: self.read,
            removed: self.removed,
            deleted: self.deleted,
        }
    }
}

#[derive(Clone, Copy, PartialEq, Eq, Structural)]
pub struct Mention {
    pub id: u64,
    pub recipient_id: u64,
    pub comment_id: u64,
    pub read: bool,
}

pub struct PrivateMessage {
    pub id: u64,
    pub creator_id: u64,
    pub recipient_id: u64,
    pub content: String,
    pub deleted: bool,
    pub read: bool,
    pub ap_id: String,
    pub local: bool,
    pub published: i64,
}

impl Clone for PrivateMessage {
    fn clone(&self) -> (r: Self)
        ensures
            r == *self,
    {
        PrivateMessage {
            id: self.id,
            creator_id: self.creator_id,
            recipient_id: self.recipient_id,
            content: self.content.clone(),
            deleted: self.deleted,
            read: self.read,
            ap_id: self.ap_id.clone(),
            local: self.local,
            published: self.published,
        }
    }
}

/// An append-only audit record of a moderation action.
pub enum ModLogEntry {
    Add { mod_person_id: u64, other_person_id: u64, removed: bool },
    Ban {
        mod_person_id: u64,
        other_person_id: u64,
        reason: Option<String>,
        banned: bool,
        expires: Option<i64>,
    },
}

/// A pending password reset: the raw token mailed out, and the local user it
/// belongs to.
pub struct PasswordResetRequest {
    pub token: String,
    pub local_user_id: u64,
}

/// An ephemeral captcha challenge, valid until `expires`.
pub struct CaptchaChallenge {
    pub uuid: String,
    pub answer: String,
    pub expires: i64,
}

#[derive(Clone, Copy, PartialEq, Eq, Structural)]
pub struct CommentReport {
    pub id: u64,
    pub community_id: u64,
    pub resolved: bool,
}

#[derive(Clone, Copy, PartialEq, Eq, Structural)]
pub struct PostReport {
    pub id: u64,
    pub community_id: u64,
    pub resolved: bool,
}

/// A live session: an issued identity token bound to a person.
pub struct Session {
    pub token: String,
    pub person_id: u64,
}

/// An outbound email, handed to the delivery layer.
pub struct Email {
    pub to: String,
    pub subject: String,
    pub body: String,
}

} // verus!
