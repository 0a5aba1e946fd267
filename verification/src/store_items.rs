use vstd::prelude::*;

use crate::entities::{
    Comment, CommentReport, Community, CommunityFollower, CommunityModerator, Mention, ModLogEntry,
    PasswordResetRequest, Post, PostReport, PrivateMessage,
};
use crate::error::ApiError;
use crate::store::{has_follower, has_moderator, Store, StoreContents};

verus! {

impl Store {
    /// Creates a community row.
    pub fn insert_community(&mut self, c: Community)
        requires
            old(self).inv(),
            forall|i: int|
                0 <= i < old(self)@.communities.len() ==> (#[trigger] old(
                    self,
                )@.communities[i]).id < c.id,
            c.id < old(self)@.next_id,
        ensures
            final(self).inv(),
            final(self)@ =~= (StoreContents {
                communities: old(self)@.communities.push(c),
                ..old(self)@
            }),
    {
        self.communities.push(c);
    }

    /// Subscribes a person to a community. Fails exactly when the pair
    /// already exists.
    pub fn insert_follower(&mut self, f: CommunityFollower) -> (r: Result<(), ApiError>)
        requires
            old(self).inv(),
            f.person_id < old(self)@.next_id,
        ensures
            final(self).inv(),
            match r {
                Ok(()) => !has_follower(old(self)@.followers, f.community_id, f.person_id)
                    && final(self)@ =~= (StoreContents {
                    followers: old(self)@.followers.push(f),
                    ..old(self)@
                }),
                Err(e) => has_follower(old(self)@.followers, f.community_id, f.person_id) && e
                    == ApiError::CommunityFollowerAlreadyExists && final(self)@ =~= old(self)@,
            },
    {
        let mut i: usize = 0;
        while i < self.followers.len()
            invariant
                old(self).inv(),
                self@ =~= old(self)@,
                i <= self@.followers.len(),
                forall|t: int|
                    0 <= t < i ==> !((#[trigger] self@.followers[t]).community_id == f.community_id
                        && self@.followers[t].person_id == f.person_id),
            decreases self@.followers.len() - i,
        {
            let g = self.followers[i];
            if g.community_id == f.community_id && g.person_id == f.person_id {
                return Err(ApiError::CommunityFollowerAlreadyExists);
            }
            i += 1;
        }
        self.followers.push(f);
        proof {
            crate::store::lemma_inv_push_follower(old(self)@, self@);
        }
        Ok(())
    }

    /// Makes a person a moderator of a community. Fails exactly when the pair
    /// already exists.
    pub fn insert_moderator(&mut self, m: CommunityModerator) -> (r: Result<(), ApiError>)
        requires
            old(self).inv(),
            m.person_id < old(self)@.next_id,
        ensures
            final(self).inv(),
            match r {
                Ok(()) => !has_moderator(old(self)@.moderators, m.community_id, m.person_id)
                    && final(self)@ =~= (StoreContents {
                    moderators: old(self)@.moderators.push(m),
                    ..old(self)@
                }),
                Err(e) => has_moderator(old(self)@.moderators, m.community_id, m.person_id) && e
                    == ApiError::CommunityModeratorAlreadyExists && final(self)@ =~= old(self)@,
            },
    {
        let mut i: usize = 0;
        while i < self.moderators.len()
            invariant
                old(self).inv(),
                self@ =~= old(self)@,
                i <= self@.moderators.len(),
                forall|t: int|
                    0 <= t < i ==> !((#[trigger] self@.moderators[t]).community_id == m.community_id
                        && self@.moderators[t].person_id == m.person_id),
            decreases self@.moderators.len() - i,
        {
            let g = self.moderators[i];
            if g.community_id == m.community_id && g.person_id == m.person_id {
                return Err(ApiError::CommunityModeratorAlreadyExists);
            }
            i += 1;
        }
        self.moderators.push(m);
        proof {
            crate::store::lemma_inv_push_moderator(old(self)@, self@);
        }
        Ok(())
    }

    /// Creates a private message row.
    pub fn insert_private_message(&mut self, m: PrivateMessage)
        requires
            old(self).inv(),
            forall|i: int|
                0 <= i < old(self)@.private_messages.len() ==> (#[trigger] old(
                    self,
                )@.private_messages[i]).id < m.id,
            m.id < old(self)@.next_id,
        ensures
            final(self).inv(),
            final(self)@ =~= (StoreContents {
                private_messages: old(self)@.private_messages.push(m),
                ..old(self)@
            }),
    {
        self.private_messages.push(m);
    }

    /// Index of the private message with this id, if any.
    pub fn find_private_message_by_id(&self, id: u64) -> (r: Option<usize>)
        ensures
            match r {
                Some(i) => 0 <= i < self@.private_messages.len()
                    && self@.private_messages[i as int].id == id,
                None => forall|t: int|
                    0 <= t < self@.private_messages.len() ==> (
                    #[trigger] self@.private_messages[t]).id != id,
            },
    {
        let mut i: usize = 0;
        while i < self.private_messages.len()
            invariant
                i <= self@.private_messages.len(),
                forall|t: int| 0 <= t < i ==> (#[trigger] self@.private_messages[t]).id != id,
            decreases self@.private_messages.len() - i,
        {
            if self.private_messages[i].id == id {
                return Some(i);
            }
            i += 1;
        }
        None
    }

    /// Overwrites the private message at `i`, keeping its id.
    pub fn update_private_message_at(&mut self, i: usize, m: PrivateMessage)
        requires
            old(self).inv(),
            i < old(self)@.private_messages.len(),
            m.id == old(self)@.private_messages[i as int].id,
        ensures
            final(self).inv(),
            final(self)@ =~= (StoreContents {
                private_messages: old(self)@.private_messages.update(i as int, m),
                ..old(self)@
            }),
    {
        self.private_messages.set(i, m);
    }

    /// Index of the mention with this id, if any.
    pub fn find_mention_by_id(&self, id: u64) -> (r: Option<usize>)
        ensures
            match r {
                Some(i) => 0 <= i < self@.mentions.len() && self@.mentions[i as int].id == id,
                None => forall|t: int|
                    0 <= t < self@.mentions.len() ==> (#[trigger] self@.mentions[t]).id != id,
            },
    {
        let mut i: usize = 0;
        while i < self.mentions.len()
            invariant
                i <= self@.mentions.len(),
                forall|t: int| 0 <= t < i ==> (#[trigger] self@.mentions[t]).id != id,
            decreases self@.mentions.len() - i,
        {
            if self.mentions[i].id == id {
                return Some(i);
            }
            i += 1;
        }
        None
    }

    /// Overwrites the mention at `i`, keeping its id.
    pub fn update_mention_at(&mut self, i: usize, m: Mention)
        requires
            old(self).inv(),
            i < old(self)@.mentions.len(),
            m.id == old(self)@.mentions[i as int].id,
        ensures
            final(self).inv(),
            final(self)@ =~= (StoreContents {
                mentions: old(self)@.mentions.update(i as int, m),
                ..old(self)@
            }),
    {
        self.mentions.set(i, m);
    }

    /// Appends an audit record to the moderation log.
    pub fn push_mod_log(&mut self, e: ModLogEntry)
        requires
            old(self).inv(),
        ensures
            final(self).inv(),
            final(self)@ =~= (StoreContents {
                mod_log: old(self)@.mod_log.push(e),
                ..old(self)@
            }),
    {
        self.mod_log.push(e);
    }

    /// Stores a pending password reset request.
    pub fn push_password_reset(&mut self, p: PasswordResetRequest)
        requires
            old(self).inv(),
        ensures
            final(self).inv(),
            final(self)@ =~= (StoreContents {
                password_resets: old(self)@.password_resets.push(p),
                ..old(self)@
            }),
    {
        self.password_resets.push(p);
    }

    /// Index of the pending reset request carrying this token (first match),
    /// if any.
    pub fn find_password_reset_by_token(&self, token: &String) -> (r: Option<usize>)
        ensures
            match r {
                Some(i) => {
                    &&& 0 <= i < self@.password_resets.len()
                    &&& self@.password_resets[i as int].token@ == token@
                    &&& forall|t: int|
                        0 <= t < i ==> (#[trigger] self@.password_resets[t]).token@ != token@
                },
                None => forall|t: int|
                    0 <= t < self@.password_resets.len() ==> (
                    #[trigger] self@.password_resets[t]).token@ != token@,
            },
    {
        let mut i: usize = 0;
        while i < self.password_resets.len()
            invariant
                i <= self@.password_resets.len(),
                forall|t: int| 0 <= t < i ==> (#[trigger] self@.password_resets[t]).token@ != token@,
            decreases self@.password_resets.len() - i,
        {
            if self.password_resets[i].token.eq(token) {
                return Some(i);
            }
            i += 1;
        }
        None
    }

    /// Seeds a post; returns its id, or `None` when the id space is spent.
    pub fn create_post(&mut self, creator_id: u64, community_id: u64, nsfw: bool) -> (r: Option<
        u64,
    >)
        requires
            old(self).inv(),
        ensures
            final(self).inv(),
            match r {
                Some(id) => old(self)@.next_id < u64::MAX && final(self)@ =~= (StoreContents {
                    posts: old(self)@.posts.push(
                        Post {
                            id,
                            creator_id,
                            community_id,
                            nsfw,
                            removed: false,
                            deleted: false,
                        },
                    ),
                    next_id: (old(self)@.next_id + 1) as u64,
                    ..old(self)@
                }),
                None => final(self)@ =~= old(self)@,
            },
    {
        match self.fresh_id() {
            Some(id) => {
                self.posts.push(
                    Post { id, creator_id, community_id, nsfw, removed: false, deleted: false },
                );
                proof {
                    crate::store::lemma_inv_push_post(old(self)@, self@);
                }
                Some(id)
            },
            None => None,
        }
    }

    /// Seeds a comment; returns its id, or `None` when the id space is spent.
    pub fn create_comment(
        &mut self,
        creator_id: u64,
        post_id: u64,
        content: String,
        recipient_id: Option<u64>,
    ) -> (r: Option<u64>)
        requires
            old(self).inv(),
        ensures
            final(self).inv(),
            match r {
                Some(id) => old(self)@.next_id < u64::MAX && final(self)@ =~= (StoreContents {
                    comments: old(self)@.comments.push(
                        Comment {
                            id,
                            creator_id,
                            post_id,
                            content,
                            recipient_id,
                            read: false,
                            removed: false,
                            deleted: false,
                        },
                    ),
                    next_id: (old(self)@.next_id + 1) as u64,
                    ..old(self)@
                }),
                None => final(self)@ =~= old(self)@,
            },
    {
        match self.fresh_id() {
            Some(id) => {
                self.comments.push(
                    Comment {
                        id,
                        creator_id,
                        post_id,
                        content,
                        recipient_id,
                        read: false,
                        removed: false,
                        deleted: false,
                    },
                );
                proof {
                    crate::store::lemma_inv_push_comment(old(self)@, self@);
                }
                Some(id)
            },
            None => None,
        }
    }

    /// Seeds a mention; returns its id, or `None` when the id space is spent.
    pub fn create_mention(&mut self, recipient_id: u64, comment_id: u64) -> (r: Option<u64>)
        requires
            old(self).inv(),
        ensures
            final(self).inv(),
            match r {
                Some(id) => old(self)@.next_id < u64::MAX && final(self)@ =~= (StoreContents {
                    mentions: old(self)@.mentions.push(
                        Mention { id, recipient_id, comment_id, read: false },
                    ),
                    next_id: (old(self)@.next_id + 1) as u64,
                    ..old(self)@
                }),
                None => final(self)@ =~= old(self)@,
            },
    {
        match self.fresh_id() {
            Some(id) => {
                self.mentions.push(Mention { id, recipient_id, comment_id, read: false });
                proof {
                    crate::store::lemma_inv_push_mention(old(self)@, self@);
                }
                Some(id)
            },
            None => None,
        }
    }

    /// Files a comment report against a community.
    pub fn create_comment_report(&mut self, community_id: u64) -> (r: Option<u64>)
        requires
            old(self).inv(),
        ensures
            final(self).inv(),
            match r {
                Some(id) => old(self)@.next_id < u64::MAX && final(self)@ =~= (StoreContents {
                    comment_reports: old(self)@.comment_reports.push(
                        CommentReport { id, community_id, resolved: false },
                    ),
                    next_id: (old(self)@.next_id + 1) as u64,
                    ..old(self)@
                }),
                None => final(self)@ =~= old(self)@,
            },
    {
        match self.fresh_id() {
            Some(id) => {
                self.comment_reports.push(CommentReport { id, community_id, resolved: false });
                proof {
                    crate::store::lemma_inv_frame(old(self)@, self@);
                }
                Some(id)
            },
            None => None,
        }
    }

    /// Files a post report against a community.
    pub fn create_post_report(&mut self, community_id: u64) -> (r: Option<u64>)
        requires
            old(self).inv(),
        ensures
            final(self).inv(),
            match r {
                Some(id) => old(self)@.next_id < u64::MAX && final(self)@ =~= (StoreContents {
                    post_reports: old(self)@.post_reports.push(
                        PostReport { id, community_id, resolved: false },
                    ),
                    next_id: (old(self)@.next_id + 1) as u64,
                    ..old(self)@
                }),
                None => final(self)@ =~= old(self)@,
            },
    {
        match self.fresh_id() {
            Some(id) => {
                self.post_reports.push(PostReport { id, community_id, resolved: false });
                proof {
                    crate::store::lemma_inv_frame(old(self)@, self@);
                }
                Some(id)
            },
            None => None,
        }
    }
}

} // verus!
