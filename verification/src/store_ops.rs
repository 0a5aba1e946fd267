use vstd::prelude::*;

use crate::entities::{Comment, Community, Mention, Post, PrivateMessage};
use crate::store::{Store, StoreContents};

verus! {

/// Soft removal of a post when its creator is banned with data removal.
pub open spec fn post_removed_for(p: Post, creator: u64) -> Post {
    if p.creator_id == creator {
        Post { removed: true, ..p }
    } else {
        p
    }
}

/// Soft removal of a community when its creator is banned with data removal.
pub open spec fn community_removed_for(c: Community, creator: u64) -> Community {
    if c.creator_id == creator {
        Community { removed: true, ..c }
    } else {
        c
    }
}

/// Soft removal of a comment when its creator is banned with data removal.
pub open spec fn comment_removed_for(c: Comment, creator: u64) -> Comment {
    if c.creator_id == creator {
        Comment { removed: true, ..c }
    } else {
        c
    }
}

/// A reply-comment addressed to `recipient` becomes read.
pub open spec fn comment_read_for(c: Comment, recipient: u64) -> Comment {
    if c.recipient_id == Some(recipient) {
        Comment { read: true, ..c }
    } else {
        c
    }
}

/// A mention addressed to `recipient` becomes read.
pub open spec fn mention_read_for(m: Mention, recipient: u64) -> Mention {
    if m.recipient_id == recipient {
        Mention { read: true, ..m }
    } else {
        m
    }
}

/// A private message addressed to `recipient` becomes read.
pub open spec fn pm_read_for(m: PrivateMessage, recipient: u64) -> PrivateMessage {
    if m.recipient_id == recipient {
        PrivateMessage { read: true, ..m }
    } else {
        m
    }
}

impl Store {
    /// Marks all posts of this creator removed (one independent store call of
    /// the ban workflow).
    pub fn mark_posts_removed_for(&mut self, creator: u64)
        requires
            old(self).inv(),
        ensures
            final(self).inv(),
            final(self)@ =~= (StoreContents {
                posts: old(self)@.posts.map_values(|p: Post| post_removed_for(p, creator)),
                ..old(self)@
            }),
    {
        let n = self.posts.len();
        let mut i: usize = 0;
        while i < n
            invariant
                old(self).inv(),
                i <= n,
                n == old(self)@.posts.len(),
                self@.posts.len() == n,
                forall|t: int|
                    0 <= t < i ==> #[trigger] self@.posts[t] == post_removed_for(
                        old(self)@.posts[t],
                        creator,
                    ),
                forall|t: int| i <= t < n ==> #[trigger] self@.posts[t] == old(self)@.posts[t],
                self@ =~= (StoreContents { posts: self@.posts, ..old(self)@ }),
            decreases n - i,
        {
            let p = self.posts[i];
            if p.creator_id == creator {
                self.posts.set(i, Post { removed: true, ..p });
            }
            i += 1;
        }
        proof {
            assert(self@.posts =~= old(self)@.posts.map_values(
                |p: Post| post_removed_for(p, creator),
            ));
            assert(forall|t: int|
                0 <= t < self@.posts.len() ==> (#[trigger] self@.posts[t]).id
                    == old(self)@.posts[t].id);
        }
    }

    /// Marks all communities created by this person removed.
    pub fn mark_communities_removed_for(&mut self, creator: u64)
        requires
            old(self).inv(),
        ensures
            final(self).inv(),
            final(self)@ =~= (StoreContents {
                communities: old(self)@.communities.map_values(
                    |c: Community| community_removed_for(c, creator),
                ),
                ..old(self)@
            }),
    {
        let n = self.communities.len();
        let mut i: usize = 0;
        while i < n
            invariant
                old(self).inv(),
                i <= n,
                n == old(self)@.communities.len(),
                self@.communities.len() == n,
                forall|t: int|
                    0 <= t < i ==> #[trigger] self@.communities[t] == community_removed_for(
                        old(self)@.communities[t],
                        creator,
                    ),
                forall|t: int|
                    i <= t < n ==> #[trigger] self@.communities[t] == old(self)@.communities[t],
                self@ =~= (StoreContents { communities: self@.communities, ..old(self)@ }),
            decreases n - i,
        {
            let c = self.communities[i].clone();
            if c.creator_id == creator {
                self.communities.set(i, Community { removed: true, ..c });
            }
            i += 1;
        }
        proof {
            assert(self@.communities =~= old(self)@.communities.map_values(
                |c: Community| community_removed_for(c, creator),
            ));
            assert(forall|t: int|
                0 <= t < self@.communities.len() ==> (#[trigger] self@.communities[t]).id == old(
                    self,
                )@.communities[t].id);
        }
    }

    /// Marks all comments of this creator removed.
    pub fn mark_comments_removed_for(&mut self, creator: u64)
        requires
            old(self).inv(),
        ensures
            final(self).inv(),
            final(self)@ =~= (StoreContents {
                comments: old(self)@.comments.map_values(
                    |c: Comment| comment_removed_for(c, creator),
                ),
                ..old(self)@
            }),
    {
        let n = self.comments.len();
        let mut i: usize = 0;
        while i < n
            invariant
                old(self).inv(),
                i <= n,
                n == old(self)@.comments.len(),
                self@.comments.len() == n,
                forall|t: int|
                    0 <= t < i ==> #[trigger] self@.comments[t] == comment_removed_for(
                        old(self)@.comments[t],
                        creator,
                    ),
                forall|t: int| i <= t < n ==> #[trigger] self@.comments[t] == old(self)@.comments[t],
                self@ =~= (StoreContents { comments: self@.comments, ..old(self)@ }),
            decreases n - i,
        {
            let c = self.comments[i].clone();
            if c.creator_id == creator {
                self.comments.set(i, Comment { removed: true, ..c });
            }
            i += 1;
        }
        proof {
            assert(self@.comments =~= old(self)@.comments.map_values(
                |c: Comment| comment_removed_for(c, creator),
            ));
            assert(forall|t: int|
                0 <= t < self@.comments.len() ==> (#[trigger] self@.comments[t]).id
                    == old(self)@.comments[t].id);
        }
    }

    /// Marks every reply addressed to `recipient` read.
    pub fn mark_replies_read_for(&mut self, recipient: u64)
        requires
            old(self).inv(),
        ensures
            final(self).inv(),
            final(self)@ =~= (StoreContents {
                comments: old(self)@.comments.map_values(
                    |c: Comment| comment_read_for(c, recipient),
                ),
                ..old(self)@
            }),
    {
        let n = self.comments.len();
        let mut i: usize = 0;
        while i < n
            invariant
                old(self).inv(),
                i <= n,
                n == old(self)@.comments.len(),
                self@.comments.len() == n,
                forall|t: int|
                    0 <= t < i ==> #[trigger] self@.comments[t] == comment_read_for(
                        old(self)@.comments[t],
                        recipient,
                    ),
                forall|t: int| i <= t < n ==> #[trigger] self@.comments[t] == old(self)@.comments[t],
                self@ =~= (StoreContents { comments: self@.comments, ..old(self)@ }),
            decreases n - i,
        {
            let c = self.comments[i].clone();
            match c.recipient_id {
                Some(r) => {
                    if r == recipient {
                        self.comments.set(i, Comment { read: true, ..c });
                    }
                },
                None => {},
            }
            i += 1;
        }
        proof {
            assert(self@.comments =~= old(self)@.comments.map_values(
                |c: Comment| comment_read_for(c, recipient),
            ));
            assert(forall|t: int|
                0 <= t < self@.comments.len() ==> (#[trigger] self@.comments[t]).id
                    == old(self)@.comments[t].id);
        }
    }

    /// Marks every mention addressed to `recipient` read.
    pub fn mark_mentions_read_for(&mut self, recipient: u64)
        requires
            old(self).inv(),
        ensures
            final(self).inv(),
            final(self)@ =~= (StoreContents {
                mentions: old(self)@.mentions.map_values(
                    |m: Mention| mention_read_for(m, recipient),
                ),
                ..old(self)@
            }),
    {
        let n = self.mentions.len();
        let mut i: usize = 0;
        while i < n
            invariant
                old(self).inv(),
                i <= n,
                n == old(self)@.mentions.len(),
                self@.mentions.len() == n,
                forall|t: int|
                    0 <= t < i ==> #[trigger] self@.mentions[t] == mention_read_for(
                        old(self)@.mentions[t],
                        recipient,
                    ),
                forall|t: int| i <= t < n ==> #[trigger] self@.mentions[t] == old(self)@.mentions[t],
                self@ =~= (StoreContents { mentions: self@.mentions, ..old(self)@ }),
            decreases n - i,
        {
            let m = self.mentions[i];
            if m.recipient_id == recipient {
                self.mentions.set(i, Mention { read: true, ..m });
            }
            i += 1;
        }
        proof {
            assert(self@.mentions =~= old(self)@.mentions.map_values(
                |m: Mention| mention_read_for(m, recipient),
            ));
            assert(forall|t: int|
                0 <= t < self@.mentions.len() ==> (#[trigger] self@.mentions[t]).id
                    == old(self)@.mentions[t].id);
        }
    }

    /// Marks every private message addressed to `recipient` read.
    pub fn mark_private_messages_read_for(&mut self, recipient: u64)
        requires
            old(self).inv(),
        ensures
            final(self).inv(),
            final(self)@ =~= (StoreContents {
                private_messages: old(self)@.private_messages.map_values(
                    |m: PrivateMessage| pm_read_for(m, recipient),
                ),
                ..old(self)@
            }),
    {
        let n = self.private_messages.len();
        let mut i: usize = 0;
        while i < n
            invariant
                old(self).inv(),
                i <= n,
                n == old(self)@.private_messages.len(),
                self@.private_messages.len() == n,
                forall|t: int|
                    0 <= t < i ==> #[trigger] self@.private_messages[t] == pm_read_for(
                        old(self)@.private_messages[t],
                        recipient,
                    ),
                forall|t: int|
                    i <= t < n ==> #[trigger] self@.private_messages[t] == old(
                        self,
                    )@.private_messages[t],
                self@ =~= (StoreContents {
                    private_messages: self@.private_messages,
                    ..old(self)@
                }),
            decreases n - i,
        {
            let m = self.private_messages[i].clone();
            if m.recipient_id == recipient {
                self.private_messages.set(i, PrivateMessage { read: true, ..m });
            }
            i += 1;
        }
        proof {
            assert(self@.private_messages =~= old(self)@.private_messages.map_values(
                |m: PrivateMessage| pm_read_for(m, recipient),
            ));
            assert(forall|t: int|
                0 <= t < self@.private_messages.len() ==> (#[trigger] self@.private_messages[t]).id
                    == old(self)@.private_messages[t].id);
        }
    }

    /// Permanently blanks and deletes all comments of this creator (account
    /// deletion).
    pub fn permadelete_comments_for(&mut self, creator: u64)
        requires
            old(self).inv(),
        ensures
            final(self).inv(),
            final(self)@ =~= (StoreContents { comments: final(self)@.comments, ..old(self)@ }),
            final(self)@.comments.len() == old(self)@.comments.len(),
            forall|t: int|
                0 <= t < old(self)@.comments.len() ==> {
                    let oldc = old(self)@.comments[t];
                    let newc = #[trigger] final(self)@.comments[t];
                    if oldc.creator_id == creator {
                        newc.id == oldc.id && newc.creator_id == oldc.creator_id && newc.post_id
                            == oldc.post_id && newc.content@ == "*Permananently Deleted*"@
                            && newc.recipient_id == oldc.recipient_id && newc.read == oldc.read
                            && newc.removed == oldc.removed && newc.deleted
                    } else {
                        newc == oldc
                    }
                },
    {
        let n = self.comments.len();
        let mut i: usize = 0;
        while i < n
            invariant
                old(self).inv(),
                i <= n,
                n == old(self)@.comments.len(),
                self@.comments.len() == n,
                forall|t: int|
                    0 <= t < i ==> {
                        let oldc = old(self)@.comments[t];
                        let newc = #[trigger] self@.comments[t];
                        if oldc.creator_id == creator {
                            newc.id == oldc.id && newc.creator_id == oldc.creator_id && newc.post_id
                                == oldc.post_id && newc.content@ == "*Permananently Deleted*"@
                                && newc.recipient_id == oldc.recipient_id && newc.read == oldc.read
                                && newc.removed == oldc.removed && newc.deleted
                        } else {
                            newc == oldc
                        }
                    },
                forall|t: int| i <= t < n ==> #[trigger] self@.comments[t] == old(self)@.comments[t],
                self@ =~= (StoreContents { comments: self@.comments, ..old(self)@ }),
            decreases n - i,
        {
            let c = self.comments[i].clone();
            if c.creator_id == creator {
                let blanked = "*Permananently Deleted*".to_owned();
                self.comments.set(i, Comment { content: blanked, deleted: true, ..c });
            }
            i += 1;
        }
        proof {
            assert(forall|t: int|
                0 <= t < self@.comments.len() ==> (#[trigger] self@.comments[t]).id
                    == old(self)@.comments[t].id);
        }
    }

    /// Permanently deletes all posts of this creator (account deletion).
    pub fn permadelete_posts_for(&mut self, creator: u64)
        requires
            old(self).inv(),
        ensures
            final(self).inv(),
            final(self)@ =~= (StoreContents {
                posts: old(self)@.posts.map_values(
                    |p: Post|
                        if p.creator_id == creator {
                            Post { deleted: true, ..p }
                        } else {
                            p
                        },
                ),
                ..old(self)@
            }),
    {
        let n = self.posts.len();
        let mut i: usize = 0;
        while i < n
            invariant
                old(self).inv(),
                i <= n,
                n == old(self)@.posts.len(),
                self@.posts.len() == n,
                forall|t: int|
                    0 <= t < i ==> #[trigger] self@.posts[t] == (if old(self)@.posts[t].creator_id
                        == creator {
                        Post { deleted: true, ..old(self)@.posts[t] }
                    } else {
                        old(self)@.posts[t]
                    }),
                forall|t: int| i <= t < n ==> #[trigger] self@.posts[t] == old(self)@.posts[t],
                self@ =~= (StoreContents { posts: self@.posts, ..old(self)@ }),
            decreases n - i,
        {
            let p = self.posts[i];
            if p.creator_id == creator {
                self.posts.set(i, Post { deleted: true, ..p });
            }
            i += 1;
        }
        proof {
            assert(self@.posts =~= old(self)@.posts.map_values(
                |p: Post|
                    if p.creator_id == creator {
                        Post { deleted: true, ..p }
                    } else {
                        p
                    },
            ));
            assert(forall|t: int|
                0 <= t < self@.posts.len() ==> (#[trigger] self@.posts[t]).id
                    == old(self)@.posts[t].id);
        }
    }
}

} // verus!
