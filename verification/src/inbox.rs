use vstd::prelude::*;

use crate::engine::{token_person, Engine};
use crate::entities::{safe_person, Mention};
use crate::error::ApiError;
use crate::listing::{
    collect_follows, collect_mentions, collect_moderates, collect_pms, collect_posts,
    collect_profile_comments, collect_replies, follows_of, mention_listing, moderates_of,
    page_comments, page_mentions, page_of, page_pms, page_posts, pm_listing, post_listing,
    profile_comment_listing, reply_listing,
};
use crate::requests::{
    GetPrivateMessages, GetReplies, GetRepliesResponse, GetUserDetails, GetUserDetailsResponse,
    GetUserMentions, GetUserMentionsResponse, MarkAllAsRead, MarkUserMentionAsRead,
    PrivateMessagesResponse, UserMentionResponse,
};
use crate::store::{has_local_user_for, has_person, StoreContents};
use crate::store_ops::{comment_read_for, mention_read_for, pm_read_for};
use crate::{spec_limit, spec_offset};

verus! {

/// The mention at index `k` carries this id.
pub open spec fn mention_at(v: StoreContents, id: u64, k: int) -> bool {
    0 <= k < v.mentions.len() && v.mentions[k].id == id
}

/// The profile a details request asks about resolves to this person id.
pub open spec fn details_target(v: StoreContents, req: GetUserDetails, target: u64) -> bool {
    match req.user_id {
        Some(id) => target == id && has_person(v.persons, id),
        None => exists|t: int|
            0 <= t < v.persons.len() && (#[trigger] v.persons[t]).id == target && v.persons[t].name@
                == (match req.username {
                Some(u) => u@,
                None => "admin"@,
            }),
    }
}


/// One admissible profile view: who is asked about (`target`), who is asking
/// (`viewer`, with their nsfw preference), and the response fields that
/// follow from the two.
pub open spec fn details_view(
    e: Engine,
    req: GetUserDetails,
    resp: GetUserDetailsResponse,
    target: u64,
    viewer: Option<u64>,
    show_nsfw: bool,
) -> bool {
    let v = e.store@;
    &&& details_target(v, req, target)
    &&& (match req.auth {
        Some(auth) => viewer is Some && token_person(e.sessions@, auth@, viewer->0) && exists|
            j: int,
        |
            0 <= j < v.local_users.len() && (#[trigger] v.local_users[j]).person_id == viewer->0
                && show_nsfw == v.local_users[j].show_nsfw,
        None => viewer is None && !show_nsfw,
    })
    &&& exists|t: int|
        0 <= t < v.persons.len() && (#[trigger] v.persons[t]).id == target && resp.person
            == safe_person(v.persons[t])
    &&& resp.posts@ == page_of(
        post_listing(v.posts, target, show_nsfw, req.community_id),
        spec_offset(req.page, req.limit),
        spec_limit(req.limit),
    )
    &&& resp.comments@ == page_of(
        profile_comment_listing(v.comments, target),
        spec_offset(req.page, req.limit),
        spec_limit(req.limit),
    )
    &&& resp.moderates@ == moderates_of(v.moderators, target)
    &&& (viewer == Some(target) ==> resp.follows@ == follows_of(v.followers, target))
    &&& (viewer != Some(target) ==> resp.follows@.len() == 0)
}

impl Engine {
    /// The caller's reply inbox, paginated, optionally unread-only.
    pub fn get_replies(&mut self, req: &GetReplies) -> (r: Result<GetRepliesResponse, ApiError>)
        requires
            old(self).inv(),
        ensures
            *final(self) == *old(self),
            final(self).inv(),
            match r {
                Ok(resp) => exists|pid: u64|
                    #![auto]
                    {
                        &&& token_person(old(self).sessions@, req.auth@, pid)
                        &&& has_local_user_for(old(self).store@.local_users, pid)
                        &&& resp.replies@ == page_of(
                            reply_listing(old(self).store@.comments, pid, req.unread_only),
                            spec_offset(req.page, req.limit),
                            spec_limit(req.limit),
                        )
                    },
                Err(e) => e == ApiError::NotLoggedIn && !old(self).valid_auth(req.auth@),
            },
    {
        let (pi, _pj) = match self.resolve_auth(&req.auth) {
            Ok(p) => p,
            Err(e) => {
                return Err(e);
            },
        };
        let pid = self.store.persons[pi].id;
        let all = collect_replies(&self.store.comments, pid, req.unread_only);
        let (off, lim) = crate::limit_and_offset(req.page, req.limit);
        let replies = page_comments(all, off, lim);
        Ok(GetRepliesResponse { replies })
    }

    /// The caller's mention inbox, paginated, optionally unread-only.
    pub fn get_user_mentions(&mut self, req: &GetUserMentions) -> (r: Result<
        GetUserMentionsResponse,
        ApiError,
    >)
        requires
            old(self).inv(),
        ensures
            *final(self) == *old(self),
            final(self).inv(),
            match r {
                Ok(resp) => exists|pid: u64|
                    #![auto]
                    {
                        &&& token_person(old(self).sessions@, req.auth@, pid)
                        &&& has_local_user_for(old(self).store@.local_users, pid)
                        &&& resp.mentions@ == page_of(
                            mention_listing(old(self).store@.mentions, pid, req.unread_only),
                            spec_offset(req.page, req.limit),
                            spec_limit(req.limit),
                        )
                    },
                Err(e) => e == ApiError::NotLoggedIn && !old(self).valid_auth(req.auth@),
            },
    {
        let (pi, _pj) = match self.resolve_auth(&req.auth) {
            Ok(p) => p,
            Err(e) => {
                return Err(e);
            },
        };
        let pid = self.store.persons[pi].id;
        let all = collect_mentions(&self.store.mentions, pid, req.unread_only);
        let (off, lim) = crate::limit_and_offset(req.page, req.limit);
        let mentions = page_mentions(all, off, lim);
        Ok(GetUserMentionsResponse { mentions })
    }

    /// The caller's private messages, paginated, optionally unread-only.
    pub fn get_private_messages(&mut self, req: &GetPrivateMessages) -> (r: Result<
        PrivateMessagesResponse,
        ApiError,
    >)
        requires
            old(self).inv(),
        ensures
            *final(self) == *old(self),
            final(self).inv(),
            match r {
                Ok(resp) => exists|pid: u64|
                    #![auto]
                    {
                        &&& token_person(old(self).sessions@, req.auth@, pid)
                        &&& has_local_user_for(old(self).store@.local_users, pid)
                        &&& resp.private_messages@ == page_of(
                            pm_listing(old(self).store@.private_messages, pid, req.unread_only),
                            spec_offset(req.page, req.limit),
                            spec_limit(req.limit),
                        )
                    },
                Err(e) => e == ApiError::NotLoggedIn && !old(self).valid_auth(req.auth@),
            },
    {
        let (pi, _pj) = match self.resolve_auth(&req.auth) {
            Ok(p) => p,
            Err(e) => {
                return Err(e);
            },
        };
        let pid = self.store.persons[pi].id;
        let all = collect_pms(&self.store.private_messages, pid, req.unread_only);
        let (off, lim) = crate::limit_and_offset(req.page, req.limit);
        let private_messages = page_pms(all, off, lim);
        Ok(PrivateMessagesResponse { private_messages })
    }

    /// Flips a mention's read flag; only the mention's recipient may.
    pub fn mark_user_mention_as_read(&mut self, req: &MarkUserMentionAsRead) -> (r: Result<
        UserMentionResponse,
        ApiError,
    >)
        requires
            old(self).inv(),
        ensures
            final(self).inv(),
            final(self).config == old(self).config,
            final(self).captchas == old(self).captchas,
            final(self).sessions == old(self).sessions,
            final(self).outbox == old(self).outbox,
            final(self).events == old(self).events,
            final(self).store@ =~= (StoreContents {
                mentions: final(self).store@.mentions,
                ..old(self).store@
            }),
            match r {
                Ok(resp) => ({
                    let v = old(self).store@;
                    let f = final(self).store@;
                    exists|pid: u64, k: int|
                        #![auto]
                        {
                            &&& token_person(old(self).sessions@, req.auth@, pid)
                            &&& has_local_user_for(v.local_users, pid)
                            &&& mention_at(v, req.user_mention_id, k)
                            &&& v.mentions[k].recipient_id == pid
                            &&& f.mentions == v.mentions.update(
                                k,
                                Mention { read: req.read, ..v.mentions[k] },
                            )
                            &&& resp.user_mention_view == f.mentions[k]
                        }
                }),
                Err(e) => ({
                    let v = old(self).store@;
                    &&& final(self).store == old(self).store
                    &&& (e == ApiError::NotLoggedIn <==> !old(self).valid_auth(req.auth@))
                    &&& (e == ApiError::NotLoggedIn || e == ApiError::CouldntUpdateComment)
                    &&& (old(self).valid_auth(req.auth@) && e == ApiError::CouldntUpdateComment
                        ==> ((forall|k: int| !mention_at(v, req.user_mention_id, k)) || exists|
                        pid: u64,
                        k: int,
                    |
                        #![auto]
                        token_person(old(self).sessions@, req.auth@, pid) && mention_at(
                            v,
                            req.user_mention_id,
                            k,
                        ) && v.mentions[k].recipient_id != pid))
                }),
            },
    {
        let (pi, _pj) = match self.resolve_auth(&req.auth) {
            Ok(p) => p,
            Err(e) => {
                return Err(e);
            },
        };
        let pid = self.store.persons[pi].id;

        let k = match self.store.find_mention_by_id(req.user_mention_id) {
            Some(k) => k,
            None => {
                return Err(ApiError::CouldntUpdateComment);
            },
        };
        if self.store.mentions[k].recipient_id != pid {
            proof {
                assert(mention_at(old(self).store@, req.user_mention_id, k as int));
                assert(token_person(old(self).sessions@, req.auth@, pid));
            }
            return Err(ApiError::CouldntUpdateComment);
        }

        let orig = self.store.mentions[k];
        let updated = Mention { read: req.read, ..orig };
        self.store.update_mention_at(k, updated);
        let view = self.store.mentions[k];
        Ok(UserMentionResponse { user_mention_view: view })
    }

    /// Marks the caller's whole inbox read: every reply addressed to the
    /// caller, every mention, and every private message, in three independent
    /// store calls. Already-read items stay read, so a second run changes
    /// nothing.
    pub fn mark_all_as_read(&mut self, req: &MarkAllAsRead) -> (r: Result<
        GetRepliesResponse,
        ApiError,
    >)
        requires
            old(self).inv(),
        ensures
            final(self).inv(),
            final(self).config == old(self).config,
            final(self).captchas == old(self).captchas,
            final(self).sessions == old(self).sessions,
            final(self).outbox == old(self).outbox,
            final(self).events == old(self).events,
            match r {
                Ok(resp) => ({
                    let v = old(self).store@;
                    let f = final(self).store@;
                    &&& exists|pid: u64|
                        #![auto]
                        {
                            &&& token_person(old(self).sessions@, req.auth@, pid)
                            &&& has_local_user_for(v.local_users, pid)
                            &&& f =~= (StoreContents {
                                comments: v.comments.map_values(
                                    |c: crate::entities::Comment| comment_read_for(c, pid),
                                ),
                                mentions: v.mentions.map_values(
                                    |m: Mention| mention_read_for(m, pid),
                                ),
                                private_messages: v.private_messages.map_values(
                                    |m: crate::entities::PrivateMessage| pm_read_for(m, pid),
                                ),
                                ..v
                            })
                        }
                    &&& resp.replies@.len() == 0
                }),
                Err(e) => {
                    &&& final(self).store == old(self).store
                    &&& e == ApiError::NotLoggedIn
                    &&& !old(self).valid_auth(req.auth@)
                },
            },
    {
        let (pi, _pj) = match self.resolve_auth(&req.auth) {
            Ok(p) => p,
            Err(e) => {
                return Err(e);
            },
        };
        let pid = self.store.persons[pi].id;

        self.store.mark_replies_read_for(pid);
        self.store.mark_mentions_read_for(pid);
        self.store.mark_private_messages_read_for(pid);

        Ok(GetRepliesResponse { replies: Vec::new() })
    }

    /// A profile: the person, their subscriptions (only when viewing
    /// themselves), their moderator seats, and their paginated posts and
    /// comments, with nsfw posts only for viewers who opted in.
    pub fn get_user_details(&mut self, req: &GetUserDetails) -> (r: Result<
        GetUserDetailsResponse,
        ApiError,
    >)
        requires
            old(self).inv(),
        ensures
            *final(self) == *old(self),
            final(self).inv(),
            match r {
                Ok(resp) => exists|target: u64, viewer: Option<u64>, show_nsfw: bool|
                    #[trigger] details_view(*old(self), *req, resp, target, viewer, show_nsfw),
                Err(e) => {
                    &&& (e == ApiError::NotLoggedIn || e
                        == ApiError::CouldntFindThatUsernameOrEmail)
                    &&& (e == ApiError::NotLoggedIn ==> req.auth is Some && !old(self).valid_auth(
                        req.auth->0@,
                    ))
                    &&& (e == ApiError::CouldntFindThatUsernameOrEmail ==> !(exists|target: u64|
                        #[trigger] details_target(old(self).store@, *req, target)))
                },
            },
    {
        // resolve the optional viewer
        let (viewer, show_nsfw): (Option<u64>, bool) = match &req.auth {
            Some(auth) => {
                let (pi, pj) = match self.resolve_auth(auth) {
                    Ok(p) => p,
                    Err(e) => {
                        return Err(e);
                    },
                };
                (Some(self.store.persons[pi].id), self.store.local_users[pj].show_nsfw)
            },
            None => (None, false),
        };

        // resolve the target person
        let ti = match req.user_id {
            Some(id) => match self.store.find_person_by_id(id) {
                Some(t) => t,
                None => {
                    proof {
                        assert forall|target: u64|
                            !details_target(old(self).store@, *req, target) by {}
                    }
                    return Err(ApiError::CouldntFindThatUsernameOrEmail);
                },
            },
            None => {
                let name: String = match &req.username {
                    Some(u) => u.clone(),
                    None => "admin".to_owned(),
                };
                match self.store.find_person_by_name(&name) {
                    Some(t) => t,
                    None => {
                        proof {
                            assert forall|target: u64|
                                !details_target(old(self).store@, *req, target) by {}
                        }
                        return Err(ApiError::CouldntFindThatUsernameOrEmail);
                    },
                }
            },
        };
        let target = self.store.persons[ti].id;
        let person = self.store.persons[ti].safe_view();

        let follows = match viewer {
            Some(vid) => {
                if vid == target {
                    collect_follows(&self.store.followers, target)
                } else {
                    Vec::new()
                }
            },
            None => Vec::new(),
        };
        let moderates = collect_moderates(&self.store.moderators, target);

        let (off, lim) = crate::limit_and_offset(req.page, req.limit);
        let all_posts = collect_posts(&self.store.posts, target, show_nsfw, req.community_id);
        let posts = page_posts(all_posts, off, lim);
        let all_comments = collect_profile_comments(&self.store.comments, target);
        let comments = page_comments(all_comments, off, lim);

        let resp = GetUserDetailsResponse { person, follows, moderates, posts, comments };
        proof {
            assert(details_target(old(self).store@, *req, target));
            assert(details_view(*old(self), *req, resp, target, viewer, show_nsfw));
        }
        Ok(resp)
    }
}

} // verus!
