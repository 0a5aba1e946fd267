use vstd::prelude::*;

use crate::engine::{token_person, BusEvent, Engine};
use crate::entities::{safe_person, CommentReport, LocalUser, ModLogEntry, Person, PostReport};
use crate::error::ApiError;
use crate::requests::{
    AddAdmin, AddAdminResponse, BanUser, BanUserResponse, GetReportCount, GetReportCountResponse,
};
use crate::store::{has_local_user_for, has_moderator, has_person, StoreContents};
use crate::store_ops::{comment_removed_for, community_removed_for, post_removed_for};

verus! {

/// Person `p` holds an admin account in this store.
pub open spec fn is_admin_person(v: StoreContents, p: Person) -> bool {
    exists|j: int|
        0 <= j < v.local_users.len() && (#[trigger] v.local_users[j]).person_id == p.id
            && v.local_users[j].admin
}

/// The caller this token resolves to holds an admin account.
pub open spec fn authed_admin(e: Engine, tok: Seq<char>, pid: u64) -> bool {
    &&& token_person(e.sessions@, tok, pid)
    &&& exists|j: int|
        0 <= j < e.store@.local_users.len() && (#[trigger] e.store@.local_users[j]).person_id
            == pid && e.store@.local_users[j].admin
}

/// How many of these comment reports are open and lie in the caller's scope:
/// a named community, or (with `None`) every community the person moderates.
pub open spec fn comment_report_count(
    s: Seq<CommentReport>,
    v: StoreContents,
    pid: u64,
    scope: Option<u64>,
) -> int
    decreases s.len(),
{
    if s.len() == 0 {
        0
    } else {
        comment_report_count(s.drop_last(), v, pid, scope) + if !s.last().resolved
            && report_in_scope(v, pid, scope, s.last().community_id) {
            1int
        } else {
            0int
        }
    }
}

pub open spec fn post_report_count(
    s: Seq<PostReport>,
    v: StoreContents,
    pid: u64,
    scope: Option<u64>,
) -> int
    decreases s.len(),
{
    if s.len() == 0 {
        0
    } else {
        post_report_count(s.drop_last(), v, pid, scope) + if !s.last().resolved
            && report_in_scope(v, pid, scope, s.last().community_id) {
            1int
        } else {
            0int
        }
    }
}

pub open spec fn report_in_scope(v: StoreContents, pid: u64, scope: Option<u64>, cid: u64) -> bool {
    match scope {
        Some(c) => cid == c,
        None => has_moderator(v.moderators, cid, pid),
    }
}

/// Index of the first person in the list with this id, if any.
fn find_person_index(v: &Vec<Person>, id: u64) -> (r: Option<usize>)
    ensures
        match r {
            Some(i) => i < v@.len() && v@[i as int].id == id,
            None => forall|t: int| 0 <= t < v@.len() ==> (#[trigger] v@[t]).id != id,
        },
{
    let mut i: usize = 0;
    while i < v.len()
        invariant
            i <= v@.len(),
            forall|t: int| 0 <= t < i ==> (#[trigger] v@[t]).id != id,
        decreases v@.len() - i,
    {
        if v[i].id == id {
            return Some(i);
        }
        i += 1;
    }
    None
}

impl Engine {
    /// Requires the resolved caller to hold an admin account.
    fn require_admin(&self, j: usize) -> (r: Result<(), ApiError>)
        requires
            j < self.store@.local_users.len(),
        ensures
            r is Ok <==> self.store@.local_users[j as int].admin,
            r is Err ==> r->Err_0 == ApiError::NotAnAdmin,
    {
        if self.store.local_users[j].admin {
            Ok(())
        } else {
            Err(ApiError::NotAnAdmin)
        }
    }

    /// Grants or revokes the admin flag of the target person's account,
    /// writes the audit record, and broadcasts the recomputed admin list with
    /// the site creator pinned to the front.
    pub fn add_admin(&mut self, req: &AddAdmin) -> (r: Result<AddAdminResponse, ApiError>)
        requires
            old(self).inv(),
        ensures
            final(self).inv(),
            final(self).config == old(self).config,
            final(self).captchas == old(self).captchas,
            final(self).sessions == old(self).sessions,
            final(self).outbox == old(self).outbox,
            final(self).store@ =~= (StoreContents {
                local_users: final(self).store@.local_users,
                mod_log: final(self).store@.mod_log,
                ..old(self).store@
            }),
            match r {
                Ok(resp) => ({
                    let v = old(self).store@;
                    let f = final(self).store@;
                    &&& exists|pid: u64| #[trigger] authed_admin(*old(self), req.auth@, pid)
                        && exists|tj: int|
                        {
                            &&& 0 <= tj < v.local_users.len()
                            &&& (#[trigger] v.local_users[tj]).person_id == req.user_id
                            &&& f.local_users == v.local_users.update(
                                tj,
                                LocalUser { admin: req.added, ..v.local_users[tj] },
                            )
                            &&& f.mod_log == v.mod_log.push(
                                ModLogEntry::Add {
                                    mod_person_id: pid,
                                    other_person_id: req.user_id,
                                    removed: !req.added,
                                },
                            )
                        }
                    &&& resp.admins@.len() > 0
                    &&& resp.admins@[0].id == old(self).config.site_creator_id
                    &&& (forall|t: int|
                        0 <= t < resp.admins@.len() ==> is_admin_person(
                            f,
                            #[trigger] resp.admins@[t],
                        ))
                    &&& (forall|t: int|
                        0 <= t < resp.admins@.len() ==> (#[trigger] resp.admins@[t]).private_key
                            is None && resp.admins@[t].public_key is None)
                    &&& (forall|t: int|
                        0 <= t < f.persons.len() && is_admin_person(f, #[trigger] f.persons[t])
                            ==> exists|u: int|
                            0 <= u < resp.admins@.len() && resp.admins@[u] == safe_person(
                                f.persons[t],
                            ))
                    &&& final(self).events@.len() == old(self).events@.len() + 1
                    &&& final(self).events@.drop_last() == old(self).events@
                    &&& final(self).events@.last() matches BusEvent::AddAdminGlobal { admin_ids }
                        && admin_ids@ == resp.admins@.map_values(|p: Person| p.id)
                }),
                Err(e) => {
                    &&& (e == ApiError::NotLoggedIn <==> !old(self).valid_auth(req.auth@))
                    &&& (e == ApiError::NotAnAdmin <==> old(self).valid_auth(req.auth@) && !(
                    exists|pid: u64| #[trigger] authed_admin(*old(self), req.auth@, pid)))
                    &&& (e == ApiError::NotLoggedIn || e == ApiError::NotAnAdmin || e
                        == ApiError::CouldntUpdateUser)
                    &&& final(self).events == old(self).events
                    &&& ((e == ApiError::NotLoggedIn || e == ApiError::NotAnAdmin)
                        ==> final(self).store == old(self).store)
                    &&& (e == ApiError::CouldntUpdateUser ==> (final(self).store == old(self).store
                        && !has_local_user_for(old(self).store@.local_users, req.user_id)) || !(
                    exists|t: int|
                        0 <= t < final(self).store@.persons.len() && (
                        #[trigger] final(self).store@.persons[t]).id == old(
                            self,
                        ).config.site_creator_id && is_admin_person(
                            final(self).store@,
                            final(self).store@.persons[t],
                        )))
                },
            },
    {
        let (pi, pj) = match self.resolve_auth(&req.auth) {
            Ok(p) => p,
            Err(e) => {
                return Err(e);
            },
        };
        let pid = self.store.persons[pi].id;
        match self.require_admin(pj) {
            Ok(()) => {
                proof {
                    assert(authed_admin(*old(self), req.auth@, pid));
                }
            },
            Err(e) => {
                proof {
                    assert forall|q: u64| !authed_admin(*old(self), req.auth@, q) by {
                        if token_person(old(self).sessions@, req.auth@, q) {
                            crate::engine::lemma_token_person_unique(
                                old(self).sessions@,
                                req.auth@,
                                q,
                                pid,
                            );
                            let v = old(self).store@;
                            if exists|j2: int|
                                0 <= j2 < v.local_users.len() && (
                                #[trigger] v.local_users[j2]).person_id == q
                                    && v.local_users[j2].admin {
                                let j2 = choose|j2: int|
                                    0 <= j2 < v.local_users.len() && (
                                    #[trigger] v.local_users[j2]).person_id == q
                                        && v.local_users[j2].admin;
                                if j2 < pj as int {
                                    assert(v.local_users[j2].person_id != v.local_users[
                                        pj as int
                                    ].person_id);
                                } else if j2 > pj as int {
                                    assert(v.local_users[pj as int].person_id != v.local_users[
                                        j2
                                    ].person_id);
                                }
                            }
                        }
                    }
                }
                return Err(e);
            },
        }

        // flip the target's admin flag
        let tj = match self.store.find_local_user_by_person(req.user_id) {
            Some(tj) => tj,
            None => {
                return Err(ApiError::CouldntUpdateUser);
            },
        };
        let target = self.store.local_users[tj].clone();
        let updated = LocalUser { admin: req.added, ..target };
        self.store.update_local_user_at(tj, updated);

        // the audit record
        self.store.push_mod_log(
            ModLogEntry::Add {
                mod_person_id: pid,
                other_person_id: req.user_id,
                removed: !req.added,
            },
        );

        // recompute the admin list, site creator first
        let mut admins = self.admin_list();
        let creator_id = self.config.site_creator_id;
        let ci = match find_person_index(&admins, creator_id) {
            Some(ci) => ci,
            None => {
                return Err(ApiError::CouldntUpdateUser);
            },
        };
        let ghost pre = admins@;
        let creator = admins.remove(ci);
        admins.insert(0, creator);
        proof {
            assert(admins@.len() == pre.len());
            assert(admins@[0] == pre[ci as int]);
            assert(forall|t: int| 0 < t <= ci ==> #[trigger] admins@[t] == pre[t - 1]);
            assert(forall|t: int| ci < t < pre.len() ==> #[trigger] admins@[t] == pre[t]);
            assert forall|t: int|
                0 <= t < self.store@.persons.len() && is_admin_person(
                    self.store@,
                    #[trigger] self.store@.persons[t],
                ) implies exists|u: int|
                0 <= u < admins@.len() && admins@[u] == safe_person(self.store@.persons[t]) by {
                let u0 = choose|u0: int|
                    0 <= u0 < pre.len() && #[trigger] pre[u0] == safe_person(
                        self.store@.persons[t],
                    );
                if u0 == ci {
                    assert(admins@[0] == safe_person(self.store@.persons[t]));
                } else if u0 < ci {
                    assert(admins@[u0 + 1] == safe_person(self.store@.persons[t]));
                } else {
                    assert(admins@[u0] == safe_person(self.store@.persons[t]));
                }
            }
        }

        // collect the ids and broadcast
        let mut admin_ids: Vec<u64> = Vec::new();
        let mut t: usize = 0;
        while t < admins.len()
            invariant
                t <= admins@.len(),
                admin_ids@.len() == t,
                forall|u: int| 0 <= u < t ==> #[trigger] admin_ids@[u] == admins@[u].id,
            decreases admins@.len() - t,
        {
            admin_ids.push(admins[t].id);
            t += 1;
        }
        proof {
            assert(admin_ids@ =~= admins@.map_values(|p: Person| p.id));
        }
        self.events.push(BusEvent::AddAdminGlobal { admin_ids });
        Ok(AddAdminResponse { admins })
    }

    /// Every person holding an admin account, in store order, each without
    /// its federation key pair.
    fn admin_list(&self) -> (r: Vec<Person>)
        requires
            self.inv(),
        ensures
            forall|t: int|
                0 <= t < r@.len() ==> is_admin_person(self.store@, #[trigger] r@[t]),
            forall|t: int|
                0 <= t < r@.len() ==> (#[trigger] r@[t]).private_key is None && r@[t].public_key
                    is None,
            forall|t: int|
                0 <= t < self.store@.persons.len() && is_admin_person(
                    self.store@,
                    #[trigger] self.store@.persons[t],
                ) ==> exists|u: int|
                    0 <= u < r@.len() && r@[u] == safe_person(self.store@.persons[t]),
    {
        let mut out: Vec<Person> = Vec::new();
        let n = self.store.persons.len();
        let mut i: usize = 0;
        while i < n
            invariant
                self.inv(),
                i <= n,
                n == self.store@.persons.len(),
                forall|t: int| 0 <= t < out@.len() ==> is_admin_person(self.store@, #[trigger] out@[t]),
                forall|t: int|
                    0 <= t < out@.len() ==> (#[trigger] out@[t]).private_key is None
                        && out@[t].public_key is None,
                forall|t: int|
                    0 <= t < i && is_admin_person(self.store@, #[trigger] self.store@.persons[t])
                        ==> exists|u: int|
                        0 <= u < out@.len() && out@[u] == safe_person(self.store@.persons[t]),
            decreases n - i,
        {
            let p_id = self.store.persons[i].id;
            match self.store.find_local_user_by_person(p_id) {
                Some(j) => {
                    if self.store.local_users[j].admin {
                        let ghost before = out@;
                        out.push(self.store.persons[i].safe_view());
                        proof {
                            assert(out@.last() == safe_person(self.store@.persons[i as int]));
                            assert(is_admin_person(self.store@, out@.last()));
                            assert(forall|t: int|
                                0 <= t < before.len() ==> #[trigger] out@[t] == before[t]);
                            assert forall|t: int|
                                0 <= t < i + 1 && is_admin_person(
                                    self.store@,
                                    #[trigger] self.store@.persons[t],
                                ) implies exists|u: int|
                                0 <= u < out@.len() && out@[u] == safe_person(
                                    self.store@.persons[t],
                                ) by {
                                if t < i {
                                    let u0 = choose|u0: int|
                                        0 <= u0 < before.len() && #[trigger] before[u0]
                                            == safe_person(self.store@.persons[t]);
                                    assert(out@[u0] == safe_person(self.store@.persons[t]));
                                } else {
                                    assert(out@[out@.len() - 1] == safe_person(
                                        self.store@.persons[t],
                                    ));
                                }
                            }
                        }
                    } else {
                        proof {
                            let v = self.store@;
                            assert forall|j2: int|
                                0 <= j2 < v.local_users.len() && (
                            #[trigger] v.local_users[j2]).person_id == p_id implies
                            !v.local_users[j2].admin by {
                                if j2 < j as int {
                                    assert(v.local_users[j2].person_id != v.local_users[
                                        j as int
                                    ].person_id);
                                } else if j2 > j as int {
                                    assert(v.local_users[j as int].person_id
                                        != v.local_users[j2].person_id);
                                }
                            }
                        }
                    }
                },
                None => {},
            }
            i += 1;
        }
        out
    }

    /// Bans or unbans the target person; with `remove_data` their posts,
    /// communities, and comments are soft-removed in three independent store
    /// calls; the audit record carries the reason and the absolute expiry;
    /// the outcome is broadcast globally.
    pub fn ban_user(&mut self, req: &BanUser) -> (r: Result<BanUserResponse, ApiError>)
        requires
            old(self).inv(),
        ensures
            final(self).inv(),
            final(self).config == old(self).config,
            final(self).captchas == old(self).captchas,
            final(self).sessions == old(self).sessions,
            final(self).outbox == old(self).outbox,
            match r {
                Ok(resp) => ({
                    let v = old(self).store@;
                    let f = final(self).store@;
                    &&& (exists|pid: u64|
                        #[trigger] authed_admin(*old(self), req.auth@, pid) && f.mod_log
                            == v.mod_log.push(
                            ModLogEntry::Ban {
                                mod_person_id: pid,
                                other_person_id: req.user_id,
                                reason: req.reason,
                                banned: req.ban,
                                expires: req.expires,
                            },
                        ))
                    &&& exists|t: int|
                        {
                            &&& 0 <= t < v.persons.len()
                            &&& (#[trigger] v.persons[t]).id == req.user_id
                            &&& f.persons == v.persons.update(
                                t,
                                Person { banned: req.ban, ..v.persons[t] },
                            )
                            &&& resp.person == safe_person(f.persons[t])
                        }
                    &&& resp.banned == req.ban
                    &&& (req.remove_data ==> {
                        &&& f.posts == v.posts.map_values(
                            |p: crate::entities::Post| post_removed_for(p, req.user_id),
                        )
                        &&& f.communities == v.communities.map_values(
                            |c: crate::entities::Community| community_removed_for(c, req.user_id),
                        )
                        &&& f.comments == v.comments.map_values(
                            |c: crate::entities::Comment| comment_removed_for(c, req.user_id),
                        )
                    })
                    &&& (!req.remove_data ==> f.posts == v.posts && f.communities == v.communities
                        && f.comments == v.comments)
                    &&& f.local_users == v.local_users
                    &&& f.private_messages == v.private_messages
                    &&& f.mentions == v.mentions
                    &&& f.followers == v.followers
                    &&& f.moderators == v.moderators
                    &&& f.password_resets == v.password_resets
                    &&& final(self).events@ == old(self).events@.push(
                        BusEvent::BanPersonGlobal { person_id: req.user_id, banned: req.ban },
                    )
                }),
                Err(e) => {
                    &&& final(self).store == old(self).store
                    &&& final(self).events == old(self).events
                    &&& (e == ApiError::NotLoggedIn <==> !old(self).valid_auth(req.auth@))
                    &&& (e == ApiError::NotAnAdmin <==> old(self).valid_auth(req.auth@) && !(
                    exists|pid: u64| #[trigger] authed_admin(*old(self), req.auth@, pid)))
                    &&& (e == ApiError::CouldntUpdateUser <==> (exists|pid: u64|
                        #[trigger] authed_admin(*old(self), req.auth@, pid)) && !has_person(
                        old(self).store@.persons,
                        req.user_id,
                    ))
                    &&& (e == ApiError::NotLoggedIn || e == ApiError::NotAnAdmin || e
                        == ApiError::CouldntUpdateUser)
                },
            },
    {
        let (pi, pj) = match self.resolve_auth(&req.auth) {
            Ok(p) => p,
            Err(e) => {
                return Err(e);
            },
        };
        let pid = self.store.persons[pi].id;
        match self.require_admin(pj) {
            Ok(()) => {
                proof {
                    assert(authed_admin(*old(self), req.auth@, pid));
                }
            },
            Err(e) => {
                proof {
                    assert forall|q: u64| !authed_admin(*old(self), req.auth@, q) by {
                        if token_person(old(self).sessions@, req.auth@, q) {
                            crate::engine::lemma_token_person_unique(
                                old(self).sessions@,
                                req.auth@,
                                q,
                                pid,
                            );
                            let v = old(self).store@;
                            if exists|j2: int|
                                0 <= j2 < v.local_users.len() && (
                                #[trigger] v.local_users[j2]).person_id == q
                                    && v.local_users[j2].admin {
                                let j2 = choose|j2: int|
                                    0 <= j2 < v.local_users.len() && (
                                    #[trigger] v.local_users[j2]).person_id == q
                                        && v.local_users[j2].admin;
                                if j2 < pj as int {
                                    assert(v.local_users[j2].person_id != v.local_users[
                                        pj as int
                                    ].person_id);
                                } else if j2 > pj as int {
                                    assert(v.local_users[pj as int].person_id != v.local_users[
                                        j2
                                    ].person_id);
                                }
                            }
                        }
                    }
                }
                return Err(e);
            },
        }

        // flip the ban flag on the person
        let ti = match self.store.find_person_by_id(req.user_id) {
            Some(ti) => ti,
            None => {
                return Err(ApiError::CouldntUpdateUser);
            },
        };
        let target = self.store.persons[ti].clone();
        let updated = Person { banned: req.ban, ..target };
        self.store.update_person_at(ti, updated);

        // remove their data if that is desired
        if req.remove_data {
            self.store.mark_posts_removed_for(req.user_id);
            self.store.mark_communities_removed_for(req.user_id);
            self.store.mark_comments_removed_for(req.user_id);
        }

        // the audit record, with the optional reason and absolute expiry
        self.store.push_mod_log(
            ModLogEntry::Ban {
                mod_person_id: pid,
                other_person_id: req.user_id,
                reason: crate::entities::clone_opt_string(&req.reason),
                banned: req.ban,
                expires: req.expires,
            },
        );

        let person = self.store.persons[ti].safe_view();
        self.events.push(
            BusEvent::BanPersonGlobal { person_id: req.user_id, banned: req.ban },
        );
        Ok(BanUserResponse { person, banned: req.ban })
    }

    /// Counts the open reports in the caller's moderation scope and sends the
    /// tallies to the caller's own sessions.
    pub fn get_report_count(&mut self, req: &GetReportCount) -> (r: Result<
        GetReportCountResponse,
        ApiError,
    >)
        requires
            old(self).inv(),
        ensures
            final(self).inv(),
            final(self).store == old(self).store,
            final(self).config == old(self).config,
            final(self).captchas == old(self).captchas,
            final(self).sessions == old(self).sessions,
            final(self).outbox == old(self).outbox,
            match r {
                Ok(resp) => ({
                    let v = old(self).store@;
                    &&& exists|pid: u64|
                        #![auto]
                        {
                            &&& token_person(old(self).sessions@, req.auth@, pid)
                            &&& has_local_user_for(v.local_users, pid)
                            &&& resp.comment_reports == comment_report_count(
                                v.comment_reports,
                                v,
                                pid,
                                req.community,
                            )
                            &&& resp.post_reports == post_report_count(
                                v.post_reports,
                                v,
                                pid,
                                req.community,
                            )
                            &&& final(self).events@ == old(self).events@.push(
                                BusEvent::ReportCountToUser {
                                    recipient_id: pid,
                                    comment_reports: resp.comment_reports,
                                    post_reports: resp.post_reports,
                                },
                            )
                        }
                    &&& resp.community == req.community
                }),
                Err(e) => {
                    &&& e == ApiError::NotLoggedIn
                    &&& !old(self).valid_auth(req.auth@)
                    &&& final(self).events == old(self).events
                },
            },
    {
        let (pi, _pj) = match self.resolve_auth(&req.auth) {
            Ok(p) => p,
            Err(e) => {
                return Err(e);
            },
        };
        let pid = self.store.persons[pi].id;

        let ghost v = self.store@;
        let mut comment_reports: u64 = 0;
        let ncr = self.store.comment_reports.len();
        let mut i: usize = 0;
        while i < ncr
            invariant
                i <= ncr,
                ncr == self.store@.comment_reports.len(),
                v == self.store@,
                comment_reports <= i,
                comment_reports == comment_report_count(
                    v.comment_reports.take(i as int),
                    v,
                    pid,
                    req.community,
                ),
            decreases ncr - i,
        {
            let rep = self.store.comment_reports[i];
            let hit = !rep.resolved && match req.community {
                Some(c) => rep.community_id == c,
                None => self.moderates_community(pid, rep.community_id),
            };
            if hit {
                comment_reports += 1;
            }
            proof {
                assert(v.comment_reports.take(i + 1).drop_last() =~= v.comment_reports.take(
                    i as int,
                ));
                assert(v.comment_reports.take(i + 1).last() == v.comment_reports[i as int]);
            }
            i += 1;
        }
        proof {
            assert(v.comment_reports.take(ncr as int) =~= v.comment_reports);
        }

        let mut post_reports: u64 = 0;
        let npr = self.store.post_reports.len();
        let mut k: usize = 0;
        while k < npr
            invariant
                k <= npr,
                npr == self.store@.post_reports.len(),
                v == self.store@,
                post_reports <= k,
                post_reports == post_report_count(
                    v.post_reports.take(k as int),
                    v,
                    pid,
                    req.community,
                ),
            decreases npr - k,
        {
            let rep = self.store.post_reports[k];
            let hit = !rep.resolved && match req.community {
                Some(c) => rep.community_id == c,
                None => self.moderates_community(pid, rep.community_id),
            };
            if hit {
                post_reports += 1;
            }
            proof {
                assert(v.post_reports.take(k + 1).drop_last() =~= v.post_reports.take(k as int));
                assert(v.post_reports.take(k + 1).last() == v.post_reports[k as int]);
            }
            k += 1;
        }
        proof {
            assert(v.post_reports.take(npr as int) =~= v.post_reports);
        }

        let community = match req.community {
            Some(c) => Some(c),
            None => None,
        };
        self.events.push(
            BusEvent::ReportCountToUser { recipient_id: pid, comment_reports, post_reports },
        );
        Ok(GetReportCountResponse { community, comment_reports, post_reports })
    }

    /// Does this person moderate this community?
    fn moderates_community(&self, pid: u64, cid: u64) -> (r: bool)
        ensures
            r == has_moderator(self.store@.moderators, cid, pid),
    {
        let n = self.store.moderators.len();
        let mut i: usize = 0;
        while i < n
            invariant
                i <= n,
                n == self.store@.moderators.len(),
                forall|t: int|
                    0 <= t < i ==> !((#[trigger] self.store@.moderators[t]).community_id == cid
                        && self.store@.moderators[t].person_id == pid),
            decreases n - i,
        {
            let m = self.store.moderators[i];
            if m.community_id == cid && m.person_id == pid {
                return true;
            }
            i += 1;
        }
        false
    }
}

} // verus!
