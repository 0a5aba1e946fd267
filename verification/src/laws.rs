use vstd::prelude::*;

use crate::account::{captcha_valid, no_admins, registered_community, registration_applied};
use crate::engine::{captcha_match_at, token_match_at, token_person, Config};
use crate::entities::{
    CaptchaChallenge, Comment, CommunityFollower, CommunityModerator, Mention, PrivateMessage,
    Session,
};
use crate::requests::{ActorKeyPair, Register};
use crate::store::{has_follower, has_moderator, StoreContents};
use crate::store_ops::{comment_read_for, mention_read_for, pm_read_for};

verus! {

/// The store after the caller's whole inbox is marked read, exactly as
/// `Engine::mark_all_as_read` leaves it.
pub open spec fn inbox_cleared(v: StoreContents, pid: u64) -> StoreContents {
    StoreContents {
        comments: v.comments.map_values(|c: Comment| comment_read_for(c, pid)),
        mentions: v.mentions.map_values(|m: Mention| mention_read_for(m, pid)),
        private_messages: v.private_messages.map_values(
            |m: PrivateMessage| pm_read_for(m, pid),
        ),
        ..v
    }
}

/// Marking the whole inbox read is idempotent: a second run over a store
/// where it already ran changes nothing, because every item it would touch is
/// already read.
pub proof fn lemma_mark_all_as_read_idempotent(v: StoreContents, pid: u64)
    ensures
        inbox_cleared(inbox_cleared(v, pid), pid) =~= inbox_cleared(v, pid),
{
    let once = inbox_cleared(v, pid);
    let twice = inbox_cleared(once, pid);
    assert forall|i: int| 0 <= i < v.comments.len() implies #[trigger] twice.comments[i]
        == once.comments[i] by {
        assert(once.comments[i] == comment_read_for(v.comments[i], pid));
        assert(twice.comments[i] == comment_read_for(once.comments[i], pid));
    }
    assert forall|i: int| 0 <= i < v.mentions.len() implies #[trigger] twice.mentions[i]
        == once.mentions[i] by {
        assert(once.mentions[i] == mention_read_for(v.mentions[i], pid));
        assert(twice.mentions[i] == mention_read_for(once.mentions[i], pid));
    }
    assert forall|i: int| 0 <= i < v.private_messages.len() implies #[trigger] twice.private_messages[i]
        == once.private_messages[i] by {
        assert(once.private_messages[i] == pm_read_for(v.private_messages[i], pid));
        assert(twice.private_messages[i] == pm_read_for(once.private_messages[i], pid));
    }
    assert(twice.comments =~= once.comments);
    assert(twice.mentions =~= once.mentions);
    assert(twice.private_messages =~= once.private_messages);
}

/// An expired challenge is rejected whatever answer is supplied: once `now`
/// is past the expiry of the stored challenge under this uuid, no lookup
/// succeeds.
pub proof fn lemma_expired_captcha_rejected(
    cs: Seq<CaptchaChallenge>,
    uuid: Seq<char>,
    ans: Seq<char>,
    now: i64,
    k: int,
)
    requires
        captcha_match_at(cs, uuid, k),
        now > cs[k].expires,
    ensures
        !captcha_valid(cs, uuid, ans, now),
{
    assert forall|i: int| #[trigger] captcha_match_at(cs, uuid, i) implies i == k by {
        if i < k {
            assert(cs[i].uuid@ != uuid);
        } else if i > k {
            assert(cs[k].uuid@ != uuid);
        }
    }
}

/// The first successfully registered account founds the instance: it holds
/// the admin flag, and it both follows and moderates the default community.
pub proof fn lemma_first_registration_founds(
    cfg: Config,
    v: StoreContents,
    f: StoreContents,
    req: Register,
    keys: ActorKeyPair,
    now: i64,
)
    requires
        no_admins(v),
        registration_applied(cfg, v, f, req, keys, now),
    ensures
        f.local_users.last().admin,
        exists|mid: u64|
            #![auto]
            has_follower(f.followers, mid, v.next_id) && has_moderator(
                f.moderators,
                mid,
                v.next_id,
            ),
{
    let pid = v.next_id;
    let mid = choose|mid: u64| #[trigger] registered_community(v, f, pid, no_admins(v), mid);
    assert(f.followers.last() == (CommunityFollower {
        community_id: mid,
        person_id: pid,
        pending: false,
    }));
    assert(has_follower(f.followers, mid, pid));
    assert(f.moderators.last() == (CommunityModerator { community_id: mid, person_id: pid }));
    assert(has_moderator(f.moderators, mid, pid));
}

/// No later registration receives moderator status implicitly: once an admin
/// exists, a newly registered account is not an admin and the moderator table
/// is untouched, while the subscription to the default community still
/// happens.
pub proof fn lemma_later_registration_not_moderator(
    cfg: Config,
    v: StoreContents,
    f: StoreContents,
    req: Register,
    keys: ActorKeyPair,
    now: i64,
)
    requires
        !no_admins(v),
        registration_applied(cfg, v, f, req, keys, now),
    ensures
        !f.local_users.last().admin,
        f.moderators == v.moderators,
        exists|mid: u64| #![auto] has_follower(f.followers, mid, v.next_id),
{
    let pid = v.next_id;
    let mid = choose|mid: u64| #[trigger] registered_community(v, f, pid, no_admins(v), mid);
    assert(f.followers.last() == (CommunityFollower {
        community_id: mid,
        person_id: pid,
        pending: false,
    }));
    assert(has_follower(f.followers, mid, pid));
}

/// A token issued for a person resolves back to that person, as long as the
/// token was fresh when the session was minted.
pub proof fn lemma_fresh_token_resolves(ss: Seq<Session>, t: Session)
    requires
        forall|i: int| 0 <= i < ss.len() ==> (#[trigger] ss[i]).token@ != t.token@,
    ensures
        token_person(ss.push(t), t.token@, t.person_id),
{
    let pushed = ss.push(t);
    assert(pushed[ss.len() as int] == t);
    assert(token_match_at(pushed, t.token@, ss.len() as int));
}

} // verus!
