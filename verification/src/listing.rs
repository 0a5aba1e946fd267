use vstd::prelude::*;

use crate::entities::{Comment, CommunityFollower, CommunityModerator, Mention, Post, PrivateMessage};

verus! {

/// One page of an already-ordered listing: `lim` entries starting `off` in,
/// clamped to the sequence.
pub open spec fn page_of<T>(s: Seq<T>, off: int, lim: int) -> Seq<T> {
    let lo: int = if off < s.len() {
        off
    } else {
        s.len() as int
    };
    let hi: int = if off + lim < s.len() {
        off + lim
    } else {
        s.len() as int
    };
    s.subrange(lo, hi)
}

/// A private message the caller's listing shows: unread-only narrows it to
/// unread received messages; otherwise both sides of the conversation appear,
/// minus deleted ones.
pub open spec fn visible_pm(m: PrivateMessage, uid: u64, unread_only: bool) -> bool {
    if unread_only {
        m.recipient_id == uid && !m.read && !m.deleted
    } else {
        (m.recipient_id == uid || m.creator_id == uid) && !m.deleted
    }
}

/// The caller's private messages, newest first.
pub open spec fn pm_listing(s: Seq<PrivateMessage>, uid: u64, unread_only: bool) -> Seq<
    PrivateMessage,
>
    decreases s.len(),
{
    if s.len() == 0 {
        Seq::empty()
    } else {
        pm_listing(s.drop_first(), uid, unread_only) + if visible_pm(s.first(), uid, unread_only) {
            seq![s.first()]
        } else {
            Seq::empty()
        }
    }
}

/// A reply shown in the caller's inbox.
pub open spec fn visible_reply(c: Comment, uid: u64, unread_only: bool) -> bool {
    &&& c.recipient_id == Some(uid)
    &&& !c.removed
    &&& !c.deleted
    &&& (unread_only ==> !c.read)
}

/// The caller's reply inbox, newest first.
pub open spec fn reply_listing(s: Seq<Comment>, uid: u64, unread_only: bool) -> Seq<Comment>
    decreases s.len(),
{
    if s.len() == 0 {
        Seq::empty()
    } else {
        reply_listing(s.drop_first(), uid, unread_only) + if visible_reply(
            s.first(),
            uid,
            unread_only,
        ) {
            seq![s.first()]
        } else {
            Seq::empty()
        }
    }
}

pub open spec fn visible_mention(m: Mention, uid: u64, unread_only: bool) -> bool {
    m.recipient_id == uid && (unread_only ==> !m.read)
}

/// The caller's mention inbox, newest first.
pub open spec fn mention_listing(s: Seq<Mention>, uid: u64, unread_only: bool) -> Seq<Mention>
    decreases s.len(),
{
    if s.len() == 0 {
        Seq::empty()
    } else {
        mention_listing(s.drop_first(), uid, unread_only) + if visible_mention(
            s.first(),
            uid,
            unread_only,
        ) {
            seq![s.first()]
        } else {
            Seq::empty()
        }
    }
}

/// A post shown on a profile: by the target, not removed or deleted, within
/// the optional community, and only nsfw-flagged when the viewer opted in.
pub open spec fn visible_post(p: Post, target: u64, show_nsfw: bool, community: Option<u64>) -> bool {
    &&& p.creator_id == target
    &&& !p.removed
    &&& !p.deleted
    &&& (p.nsfw ==> show_nsfw)
    &&& (community is Some ==> p.community_id == community->0)
}

/// A profile's posts, newest first.
pub open spec fn post_listing(
    s: Seq<Post>,
    target: u64,
    show_nsfw: bool,
    community: Option<u64>,
) -> Seq<Post>
    decreases s.len(),
{
    if s.len() == 0 {
        Seq::empty()
    } else {
        post_listing(s.drop_first(), target, show_nsfw, community) + if visible_post(
            s.first(),
            target,
            show_nsfw,
            community,
        ) {
            seq![s.first()]
        } else {
            Seq::empty()
        }
    }
}

pub open spec fn visible_profile_comment(c: Comment, target: u64) -> bool {
    c.creator_id == target && !c.removed && !c.deleted
}

/// A profile's comments, newest first.
pub open spec fn profile_comment_listing(s: Seq<Comment>, target: u64) -> Seq<Comment>
    decreases s.len(),
{
    if s.len() == 0 {
        Seq::empty()
    } else {
        profile_comment_listing(s.drop_first(), target) + if visible_profile_comment(
            s.first(),
            target,
        ) {
            seq![s.first()]
        } else {
            Seq::empty()
        }
    }
}

/// A person's community subscriptions, in store order.
pub open spec fn follows_of(s: Seq<CommunityFollower>, pid: u64) -> Seq<CommunityFollower>
    decreases s.len(),
{
    if s.len() == 0 {
        Seq::empty()
    } else {
        follows_of(s.drop_last(), pid) + if s.last().person_id == pid {
            seq![s.last()]
        } else {
            Seq::empty()
        }
    }
}

/// A person's moderator seats, in store order.
pub open spec fn moderates_of(s: Seq<CommunityModerator>, pid: u64) -> Seq<CommunityModerator>
    decreases s.len(),
{
    if s.len() == 0 {
        Seq::empty()
    } else {
        moderates_of(s.drop_last(), pid) + if s.last().person_id == pid {
            seq![s.last()]
        } else {
            Seq::empty()
        }
    }
}

/// Collects the caller's private messages, newest first.
pub fn collect_pms(v: &Vec<PrivateMessage>, uid: u64, unread_only: bool) -> (r: Vec<PrivateMessage>)
    ensures
        r@ == pm_listing(v@, uid, unread_only),
{
    let mut out: Vec<PrivateMessage> = Vec::new();
    let mut i: usize = v.len();
    while i > 0
        invariant
            i <= v@.len(),
            out@ =~= pm_listing(v@.skip(i as int), uid, unread_only),
        decreases i,
    {
        i -= 1;
        let m = &v[i];
        let hit = if unread_only {
            m.recipient_id == uid && !m.read && !m.deleted
        } else {
            (m.recipient_id == uid || m.creator_id == uid) && !m.deleted
        };
        if hit {
            out.push(m.clone());
        }
        proof {
            assert(v@.skip(i as int).drop_first() =~= v@.skip(i + 1));
            assert(v@.skip(i as int).first() == v@[i as int]);
            assert(out@ =~= pm_listing(v@.skip(i as int), uid, unread_only));
        }
    }
    proof {
        assert(v@.skip(0) =~= v@);
    }
    out
}

/// One page of a collected listing.
pub fn page_pms(all: Vec<PrivateMessage>, off: u64, lim: u64) -> (r: Vec<PrivateMessage>)
    ensures
        r@ == page_of(all@, off as int, lim as int),
{
    let n = all.len();
    let lo: usize = if off >= n as u64 {
        n
    } else {
        off as usize
    };
    let mut out: Vec<PrivateMessage> = Vec::new();
    let mut j: usize = lo;
    while j < n && (out.len() as u64) < lim
        invariant
            lo <= j <= n,
            n == all@.len(),
            out@ =~= all@.subrange(lo as int, j as int),
            out@.len() == j - lo,
            out@.len() <= lim,
        decreases n - j,
    {
        out.push(all[j].clone());
        j += 1;
        proof {
            assert(out@ =~= all@.subrange(lo as int, j as int));
        }
    }
    proof {
        assert(out@ =~= page_of(all@, off as int, lim as int));
    }
    out
}

/// Collects the caller's reply inbox, newest first.
pub fn collect_replies(v: &Vec<Comment>, uid: u64, unread_only: bool) -> (r: Vec<Comment>)
    ensures
        r@ == reply_listing(v@, uid, unread_only),
{
    let mut out: Vec<Comment> = Vec::new();
    let mut i: usize = v.len();
    while i > 0
        invariant
            i <= v@.len(),
            out@ =~= reply_listing(v@.skip(i as int), uid, unread_only),
        decreases i,
    {
        i -= 1;
        let c = &v[i];
        let is_reply_to = match c.recipient_id {
            Some(rid) => rid == uid,
            None => false,
        };
        let hit = is_reply_to && !c.removed && !c.deleted && (!unread_only || !c.read);
        if hit {
            out.push(c.clone());
        }
        proof {
            assert(v@.skip(i as int).drop_first() =~= v@.skip(i + 1));
            assert(v@.skip(i as int).first() == v@[i as int]);
            assert(out@ =~= reply_listing(v@.skip(i as int), uid, unread_only));
        }
    }
    proof {
        assert(v@.skip(0) =~= v@);
    }
    out
}

pub fn page_comments(all: Vec<Comment>, off: u64, lim: u64) -> (r: Vec<Comment>)
    ensures
        r@ == page_of(all@, off as int, lim as int),
{
    let n = all.len();
    let lo: usize = if off >= n as u64 {
        n
    } else {
        off as usize
    };
    let mut out: Vec<Comment> = Vec::new();
    let mut j: usize = lo;
    while j < n && (out.len() as u64) < lim
        invariant
            lo <= j <= n,
            n == all@.len(),
            out@ =~= all@.subrange(lo as int, j as int),
            out@.len() == j - lo,
            out@.len() <= lim,
        decreases n - j,
    {
        out.push(all[j].clone());
        j += 1;
        proof {
            assert(out@ =~= all@.subrange(lo as int, j as int));
        }
    }
    proof {
        assert(out@ =~= page_of(all@, off as int, lim as int));
    }
    out
}

/// Collects the caller's mention inbox, newest first.
pub fn collect_mentions(v: &Vec<Mention>, uid: u64, unread_only: bool) -> (r: Vec<Mention>)
    ensures
        r@ == mention_listing(v@, uid, unread_only),
{
    let mut out: Vec<Mention> = Vec::new();
    let mut i: usize = v.len();
    while i > 0
        invariant
            i <= v@.len(),
            out@ =~= mention_listing(v@.skip(i as int), uid, unread_only),
        decreases i,
    {
        i -= 1;
        let m = v[i];
        let hit = m.recipient_id == uid && (!unread_only || !m.read);
        if hit {
            out.push(m);
        }
        proof {
            assert(v@.skip(i as int).drop_first() =~= v@.skip(i + 1));
            assert(v@.skip(i as int).first() == v@[i as int]);
            assert(out@ =~= mention_listing(v@.skip(i as int), uid, unread_only));
        }
    }
    proof {
        assert(v@.skip(0) =~= v@);
    }
    out
}

pub fn page_mentions(all: Vec<Mention>, off: u64, lim: u64) -> (r: Vec<Mention>)
    ensures
        r@ == page_of(all@, off as int, lim as int),
{
    let n = all.len();
    let lo: usize = if off >= n as u64 {
        n
    } else {
        off as usize
    };
    let mut out: Vec<Mention> = Vec::new();
    let mut j: usize = lo;
    while j < n && (out.len() as u64) < lim
        invariant
            lo <= j <= n,
            n == all@.len(),
            out@ =~= all@.subrange(lo as int, j as int),
            out@.len() == j - lo,
            out@.len() <= lim,
        decreases n - j,
    {
        out.push(all[j]);
        j += 1;
        proof {
            assert(out@ =~= all@.subrange(lo as int, j as int));
        }
    }
    proof {
        assert(out@ =~= page_of(all@, off as int, lim as int));
    }
    out
}

/// Collects a profile's posts, newest first.
pub fn collect_posts(v: &Vec<Post>, target: u64, show_nsfw: bool, community: Option<u64>) -> (r:
    Vec<Post>)
    ensures
        r@ == post_listing(v@, target, show_nsfw, community),
{
    let mut out: Vec<Post> = Vec::new();
    let mut i: usize = v.len();
    while i > 0
        invariant
            i <= v@.len(),
            out@ =~= post_listing(v@.skip(i as int), target, show_nsfw, community),
        decreases i,
    {
        i -= 1;
        let p = v[i];
        let in_community = match community {
            Some(c) => p.community_id == c,
            None => true,
        };
        let hit = p.creator_id == target && !p.removed && !p.deleted && (!p.nsfw || show_nsfw)
            && in_community;
        if hit {
            out.push(p);
        }
        proof {
            assert(v@.skip(i as int).drop_first() =~= v@.skip(i + 1));
            assert(v@.skip(i as int).first() == v@[i as int]);
            assert(out@ =~= post_listing(v@.skip(i as int), target, show_nsfw, community));
        }
    }
    proof {
        assert(v@.skip(0) =~= v@);
    }
    out
}

pub fn page_posts(all: Vec<Post>, off: u64, lim: u64) -> (r: Vec<Post>)
    ensures
        r@ == page_of(all@, off as int, lim as int),
{
    let n = all.len();
    let lo: usize = if off >= n as u64 {
        n
    } else {
        off as usize
    };
    let mut out: Vec<Post> = Vec::new();
    let mut j: usize = lo;
    while j < n && (out.len() as u64) < lim
        invariant
            lo <= j <= n,
            n == all@.len(),
            out@ =~= all@.subrange(lo as int, j as int),
            out@.len() == j - lo,
            out@.len() <= lim,
        decreases n - j,
    {
        out.push(all[j]);
        j += 1;
        proof {
            assert(out@ =~= all@.subrange(lo as int, j as int));
        }
    }
    proof {
        assert(out@ =~= page_of(all@, off as int, lim as int));
    }
    out
}

/// Collects a profile's comments, newest first.
pub fn collect_profile_comments(v: &Vec<Comment>, target: u64) -> (r: Vec<Comment>)
    ensures
        r@ == profile_comment_listing(v@, target),
{
    let mut out: Vec<Comment> = Vec::new();
    let mut i: usize = v.len();
    while i > 0
        invariant
            i <= v@.len(),
            out@ =~= profile_comment_listing(v@.skip(i as int), target),
        decreases i,
    {
        i -= 1;
        let c = &v[i];
        if c.creator_id == target && !c.removed && !c.deleted {
            out.push(c.clone());
        }
        proof {
            assert(v@.skip(i as int).drop_first() =~= v@.skip(i + 1));
            assert(v@.skip(i as int).first() == v@[i as int]);
            assert(out@ =~= profile_comment_listing(v@.skip(i as int), target));
        }
    }
    proof {
        assert(v@.skip(0) =~= v@);
    }
    out
}

/// Collects a person's subscriptions, in store order.
pub fn collect_follows(v: &Vec<CommunityFollower>, pid: u64) -> (r: Vec<CommunityFollower>)
    ensures
        r@ == follows_of(v@, pid),
{
    let mut out: Vec<CommunityFollower> = Vec::new();
    let n = v.len();
    let mut i: usize = 0;
    while i < n
        invariant
            i <= n,
            n == v@.len(),
            out@ =~= follows_of(v@.take(i as int), pid),
        decreases n - i,
    {
        let g = v[i];
        if g.person_id == pid {
            out.push(g);
        }
        i += 1;
        proof {
            assert(v@.take(i as int).drop_last() =~= v@.take(i - 1));
            assert(v@.take(i as int).last() == v@[i - 1]);
            assert(out@ =~= follows_of(v@.take(i as int), pid));
        }
    }
    proof {
        assert(v@.take(n as int) =~= v@);
    }
    out
}

/// Collects a person's moderator seats, in store order.
pub fn collect_moderates(v: &Vec<CommunityModerator>, pid: u64) -> (r: Vec<CommunityModerator>)
    ensures
        r@ == moderates_of(v@, pid),
{
    let mut out: Vec<CommunityModerator> = Vec::new();
    let n = v.len();
    let mut i: usize = 0;
    while i < n
        invariant
            i <= n,
            n == v@.len(),
            out@ =~= moderates_of(v@.take(i as int), pid),
        decreases n - i,
    {
        let g = v[i];
        if g.person_id == pid {
            out.push(g);
        }
        i += 1;
        proof {
            assert(v@.take(i as int).drop_last() =~= v@.take(i - 1));
            assert(v@.take(i as int).last() == v@[i - 1]);
            assert(out@ =~= moderates_of(v@.take(i as int), pid));
        }
    }
    proof {
        assert(v@.take(n as int) =~= v@);
    }
    out
}

} // verus!
