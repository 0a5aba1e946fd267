use vstd::prelude::*;

use crate::engine::{captcha_match_at, Config, Engine};
use crate::entities::{
    CaptchaChallenge, Community, CommunityFollower, CommunityModerator, LocalUser, Person, Session,
};
use crate::error::ApiError;
use crate::requests::{ActorKeyPair, Login, LoginResponse, Register};
use crate::store::{
    email_taken_except, has_community_named, has_local_user_for, has_person, has_person_named,
    StoreContents,
};
use crate::trusted::{hash_password, password_verifies, verify_password};
use crate::validate::{contains_forbidden, password_length_ok, valid_username};

verus! {

/// No admin account exists yet: the next registration founds the instance.
pub open spec fn no_admins(v: StoreContents) -> bool {
    forall|j: int| 0 <= j < v.local_users.len() ==> !(#[trigger] v.local_users[j]).admin
}

/// The view of an optional string; an absent input reads as empty.
pub open spec fn opt_view(o: Option<String>) -> Seq<char> {
    match o {
        Some(s) => s@,
        None => Seq::empty(),
    }
}

/// The stored challenge under this uuid accepts this answer and has not
/// expired.
pub open spec fn captcha_valid(
    cs: Seq<CaptchaChallenge>,
    uuid: Seq<char>,
    ans: Seq<char>,
    now: i64,
) -> bool {
    exists|i: int|
        #[trigger] captcha_match_at(cs, uuid, i) && cs[i].answer@ == ans && now <= cs[i].expires
}

/// Local user `j` is the account that the login input names: either its email
/// matches, or its person's name does.
pub open spec fn login_match(v: StoreContents, ue: Seq<char>, j: int) -> bool {
    &&& 0 <= j < v.local_users.len()
    &&& ({
        ||| (v.local_users[j].email is Some && v.local_users[j].email->0@ == ue)
        ||| exists|i: int|
            0 <= i < v.persons.len() && (#[trigger] v.persons[i]).id == v.local_users[j].person_id
                && v.persons[i].name@ == ue
    })
}

/// The validation and authorization decision of the registration workflow,
/// checked in the fixed handler order; `None` means the registration goes
/// through.
pub open spec fn register_decision(
    cfg: Config,
    v: StoreContents,
    cs: Seq<CaptchaChallenge>,
    req: Register,
    now: i64,
) -> Option<ApiError> {
    if !cfg.open_registration {
        Some(ApiError::RegistrationClosed)
    } else if !password_length_ok(req.password@) {
        Some(ApiError::InvalidPassword)
    } else if req.password@ != req.password_verify@ {
        Some(ApiError::PasswordsDontMatch)
    } else if !no_admins(v) && cfg.captcha_enabled && !captcha_valid(
        cs,
        opt_view(req.captcha_uuid),
        opt_view(req.captcha_answer),
        now,
    ) {
        Some(ApiError::CaptchaIncorrect)
    } else if contains_forbidden(req.username@, cfg.forbidden_words@) {
        Some(ApiError::Slurs)
    } else if !valid_username(req.username@) {
        Some(ApiError::InvalidUsername)
    } else if has_person_named(v.persons, req.username@) {
        Some(ApiError::UserAlreadyExists)
    } else if req.email is Some && email_taken_except(v.local_users, req.email->0@, -1) {
        Some(ApiError::EmailAlreadyExists)
    } else {
        None
    }
}


/// The community side of a successful registration: `mid` is the default
/// community's id; the new person follows it, and the founding account also
/// moderates it.
pub open spec fn registered_community(
    v: StoreContents,
    f: StoreContents,
    pid: u64,
    na: bool,
    mid: u64,
) -> bool {
    &&& (has_community_named(v.communities, "main"@) ==> f.communities == v.communities
        && exists|ci: int|
        0 <= ci < v.communities.len() && (#[trigger] v.communities[ci]).name@ == "main"@
            && v.communities[ci].id == mid)
    &&& (!has_community_named(v.communities, "main"@) ==> {
        &&& f.communities.len() == v.communities.len() + 1
        &&& f.communities.last().name@ == "main"@
        &&& f.communities.last().id == mid
        &&& f.communities.last().creator_id == pid
    })
    &&& f.followers == v.followers.push(
        CommunityFollower { community_id: mid, person_id: pid, pending: false },
    )
    &&& (na ==> f.moderators == v.moderators.push(
        CommunityModerator { community_id: mid, person_id: pid },
    ))
}


/// What a successful registration does to the store: a new Person with its
/// federation endpoints and key pair, a new LocalUser holding the hashed
/// credentials (admin exactly when it founds the instance), the default
/// community fetched or created, the subscription, the founder's moderator
/// seat, and nothing else.
pub open spec fn registration_applied(
    cfg: Config,
    v: StoreContents,
    f: StoreContents,
    req: Register,
    keys: ActorKeyPair,
    now: i64,
) -> bool {
    let pid = v.next_id;
    let na = no_admins(v);
    &&& f.persons.len() == v.persons.len() + 1
    &&& (forall|t: int| 0 <= t < v.persons.len() ==> #[trigger] f.persons[t] == v.persons[t])
    &&& ({
        let p = f.persons.last();
        &&& p.id == pid
        &&& p.name@ == req.username@
        &&& p.local
        &&& !p.banned
        &&& !p.deleted
        &&& p.actor_id@ == cfg.base_url@ + "/u/"@ + req.username@
        &&& p.private_key == Some(keys.private_key)
        &&& p.public_key == Some(keys.public_key)
        &&& p.published == now
    })
    &&& f.local_users.len() == v.local_users.len() + 1
    &&& (forall|t: int|
        0 <= t < v.local_users.len() ==> #[trigger] f.local_users[t] == v.local_users[t])
    &&& ({
        let lu = f.local_users.last();
        &&& lu.person_id == pid
        &&& lu.email == req.email
        &&& password_verifies(req.password@, lu.password_hash@)
        &&& lu.password_hash@.len() == 60
        &&& lu.admin == na
        &&& lu.show_nsfw == req.show_nsfw
    })
    &&& exists|mid: u64| #[trigger] registered_community(v, f, pid, na, mid)
    &&& (!na ==> f.moderators == v.moderators)
    &&& f.posts == v.posts
    &&& f.comments == v.comments
    &&& f.mentions == v.mentions
    &&& f.private_messages == v.private_messages
    &&& f.mod_log == v.mod_log
    &&& f.password_resets == v.password_resets
}

impl Engine {
    /// Index of the first local user the login input names, if any.
    fn find_login_match(&self, ue: &String) -> (r: Option<usize>)
        requires
            self.inv(),
        ensures
            match r {
                Some(j) => login_match(self.store@, ue@, j as int) && forall|t: int|
                    0 <= t < j ==> !login_match(self.store@, ue@, t),
                None => forall|t: int| !login_match(self.store@, ue@, t),
            },
    {
        let n = self.store.local_users.len();
        let mut j: usize = 0;
        while j < n
            invariant
                self.inv(),
                j <= n,
                n == self.store@.local_users.len(),
                forall|t: int| 0 <= t < j ==> !login_match(self.store@, ue@, t),
            decreases n - j,
        {
            let email_hit = match &self.store.local_users[j].email {
                Some(e) => e.eq(ue),
                None => false,
            };
            if email_hit {
                return Some(j);
            }
            let pid = self.store.local_users[j].person_id;
            match self.store.find_person_by_id(pid) {
                Some(i) => {
                    if self.store.persons[i].name.eq(ue) {
                        proof {
                            assert(login_match(self.store@, ue@, j as int));
                        }
                        return Some(j);
                    }
                    proof {
                        let v = self.store@;
                        assert forall|t: int|
                            0 <= t < v.persons.len() && (#[trigger] v.persons[t]).id == pid implies
                        v.persons[t].name@ != ue@ by {
                            if t < i as int {
                                assert(v.persons[t].id != v.persons[i as int].id);
                            } else if t > i as int {
                                assert(v.persons[i as int].id != v.persons[t].id);
                            }
                        }
                        assert(!login_match(self.store@, ue@, j as int));
                    }
                },
                None => {
                    proof {
                        assert(!login_match(self.store@, ue@, j as int));
                    }
                },
            }
            j += 1;
        }
        proof {
            assert forall|t: int| !login_match(self.store@, ue@, t) by {
                if 0 <= t < n {
                }
            }
        }
        None
    }

    /// Login: resolves the name or email, verifies the password with the
    /// password hasher, and issues an identity token bound to the account's
    /// person. A missing account and a failed verification map to the two
    /// stable error codes; no token is issued on failure.
    pub fn login(&mut self, req: &Login) -> (r: Result<LoginResponse, ApiError>)
        requires
            old(self).inv(),
        ensures
            final(self).inv(),
            final(self).store == old(self).store,
            final(self).captchas == old(self).captchas,
            final(self).events == old(self).events,
            final(self).outbox == old(self).outbox,
            final(self).config == old(self).config,
            match r {
                Ok(resp) => exists|j: int|
                    {
                        &&& #[trigger] login_match(old(self).store@, req.username_or_email@, j)
                        &&& forall|t: int|
                            0 <= t < j ==> !login_match(old(self).store@, req.username_or_email@, t)
                        &&& password_verifies(
                            req.password@,
                            old(self).store@.local_users[j].password_hash@,
                        )
                        &&& final(self).sessions@ == old(self).sessions@.push(
                            Session {
                                token: resp.jwt,
                                person_id: old(self).store@.local_users[j].person_id,
                            },
                        )
                    },
                Err(e) => {
                    &&& final(self).sessions == old(self).sessions
                    &&& (e == ApiError::CouldntFindThatUsernameOrEmail <==> forall|t: int|
                        !login_match(old(self).store@, req.username_or_email@, t))
                    &&& (e == ApiError::CouldntFindThatUsernameOrEmail || e
                        == ApiError::PasswordIncorrect)
                    &&& (e == ApiError::PasswordIncorrect ==> exists|j: int|
                        {
                            &&& #[trigger] login_match(old(self).store@, req.username_or_email@, j)
                            &&& forall|t: int|
                                0 <= t < j ==> !login_match(
                                    old(self).store@,
                                    req.username_or_email@,
                                    t,
                                )
                            &&& !password_verifies(
                                req.password@,
                                old(self).store@.local_users[j].password_hash@,
                            )
                        })
                },
            },
    {
        let j = match self.find_login_match(&req.username_or_email) {
            Some(j) => j,
            None => {
                return Err(ApiError::CouldntFindThatUsernameOrEmail);
            },
        };
        let valid = verify_password(req.password.as_str(), self.store.local_users[j].password_hash.as_str());
        if !valid {
            return Err(ApiError::PasswordIncorrect);
        }
        let pid = self.store.local_users[j].person_id;
        let jwt = self.mint_session(pid);
        Ok(LoginResponse { jwt })
    }

    /// Registration: the saga of §4.3. Validates the payload, checks the
    /// captcha when admins exist, creates the Person and then the LocalUser
    /// (deleting the Person again when the LocalUser cannot be created),
    /// ensures the default community exists, subscribes the new person to it,
    /// makes the first account its moderator and an admin, and returns a
    /// fresh identity token. On failure the store is exactly as before.
    #[verifier::rlimit(100)]
    pub fn register_with_hash(
        &mut self,
        req: &Register,
        keys: ActorKeyPair,
        now: i64,
        password_hash: String,
    ) -> (r: Result<LoginResponse, ApiError>)
        requires
            old(self).inv(),
            old(self).store@.next_id + 3 <= u64::MAX,
            password_verifies(req.password@, password_hash@),
            password_hash@.len() == 60,
        ensures
            final(self).inv(),
            final(self).config == old(self).config,
            final(self).events == old(self).events,
            final(self).outbox == old(self).outbox,
            final(self).captchas == old(self).captchas || exists|k: int|
                #![auto]
                0 <= k < old(self).captchas@.len() && final(self).captchas@ =~= old(
                    self,
                ).captchas@.remove(k),
            match r {
                Ok(resp) => {
                    &&& register_decision(
                        old(self).config,
                        old(self).store@,
                        old(self).captchas@,
                        *req,
                        now,
                    ) is None
                    &&& registration_applied(
                        old(self).config,
                        old(self).store@,
                        final(self).store@,
                        *req,
                        keys,
                        now,
                    )
                    &&& final(self).sessions@ == old(self).sessions@.push(
                        Session { token: resp.jwt, person_id: old(self).store@.next_id },
                    )
                },
                Err(e) => {
                    &&& register_decision(
                        old(self).config,
                        old(self).store@,
                        old(self).captchas@,
                        *req,
                        now,
                    ) == Some(e)
                    &&& final(self).store@ =~= (StoreContents {
                        next_id: final(self).store@.next_id,
                        ..old(self).store@
                    })
                    &&& final(self).sessions == old(self).sessions
                },
            },
    {
        if !self.config.open_registration {
            return Err(ApiError::RegistrationClosed);
        }
        match crate::validate::password_length_check(req.password.as_str()) {
            Ok(()) => {},
            Err(e) => {
                return Err(e);
            },
        }
        if !req.password.eq(&req.password_verify) {
            return Err(ApiError::PasswordsDontMatch);
        }

        // Is this the founding account? (no admins exist yet)
        let na = self.no_admin_accounts();

        // Everyone after the first operator has to pass the captcha.
        if !na && self.config.captcha_enabled {
            let uuid = match &req.captcha_uuid {
                Some(u) => u.clone(),
                None => String::new(),
            };
            let answer = match &req.captcha_answer {
                Some(a) => a.clone(),
                None => String::new(),
            };
            let check = self.check_captcha(&uuid, &answer, now);
            if !check {
                return Err(ApiError::CaptchaIncorrect);
            }
        }

        if crate::validate::contains_forbidden_word(
            req.username.as_str(),
            &self.config.forbidden_words,
        ) {
            return Err(ApiError::Slurs);
        }
        if !crate::validate::is_valid_username(req.username.as_str()) {
            return Err(ApiError::InvalidUsername);
        }

        let hash = password_hash;

        let ghost v = self.store@;
        proof {
            assert(v =~= old(self).store@);
        }

        // Create the Person.
        let pid = match self.store.fresh_id() {
            Some(id) => id,
            None => {
                proof {
                    assert(false);
                }
                return Err(ApiError::UserAlreadyExists);
            },
        };
        let actor_id = crate::apub::person_actor_id(
            self.config.base_url.as_str(),
            req.username.as_str(),
        );
        let inbox = crate::apub::inbox_url(actor_id.as_str());
        let shared_inbox = crate::apub::shared_inbox_url(self.config.base_url.as_str());
        let person = Person {
            id: pid,
            name: req.username.clone(),
            display_name: None,
            bio: None,
            avatar: None,
            banner: None,
            actor_id,
            inbox_url: inbox,
            shared_inbox_url: shared_inbox,
            private_key: Some(keys.private_key),
            public_key: Some(keys.public_key),
            banned: false,
            deleted: false,
            local: true,
            published: now,
        };
        match self.store.insert_person(person) {
            Ok(()) => {},
            Err(e) => {
                return Err(e);
            },
        }

        // Create the LocalUser; on failure delete the Person again.
        let lu_id = match self.store.fresh_id() {
            Some(id) => id,
            None => {
                proof {
                    assert(false);
                }
                return Err(ApiError::UserAlreadyExists);
            },
        };
        let local_user = LocalUser {
            id: lu_id,
            person_id: pid,
            email: crate::entities::clone_opt_string(&req.email),
            password_hash: hash,
            admin: na,
            matrix_user_id: None,
            show_nsfw: req.show_nsfw,
            theme: "browser".to_owned(),
            default_sort_type: 0,
            default_listing_type: 0,
            lang: "browser".to_owned(),
            show_avatars: true,
            send_notifications_to_email: false,
        };
        proof {
            assert(self.store@.persons[v.persons.len() as int].id == pid);
            assert(has_person(self.store@.persons, pid));
            assert(self.store@.local_users == v.local_users);
            assert forall|t: int|
                0 <= t < self.store@.local_users.len() implies (
            #[trigger] self.store@.local_users[t]).person_id != pid by {
                assert(has_person(v.persons, v.local_users[t].person_id));
                let k = choose|k: int|
                    0 <= k < v.persons.len() && #[trigger] v.persons[k].id
                        == v.local_users[t].person_id;
                assert(v.persons[k].id < v.next_id);
            }
        }
        match self.store.insert_local_user(local_user) {
            Ok(()) => {},
            Err(e) => {
                proof {
                    assert(!has_local_user_for(self.store@.local_users, pid));
                }
                self.store.delete_person(pid);
                proof {
                    let pushed = v.persons.push(self.store@.persons.last());
                    assert(self.store@.persons =~= v.persons) by {
                        let k = choose|k: int|
                            0 <= k < v.persons.push(person).len() && (#[trigger] v.persons.push(
                                person,
                            )[k]).id == pid && self.store@.persons =~= v.persons.push(
                                person,
                            ).remove(k);
                        assert(forall|t: int|
                            0 <= t < v.persons.len() ==> (#[trigger] v.persons[t]).id < pid);
                        assert(k == v.persons.len());
                        assert(v.persons.push(person).remove(v.persons.len() as int) =~= v.persons);
                    }
                    assert(self.store@ =~= (StoreContents {
                        next_id: self.store@.next_id,
                        ..v
                    }));
                }
                return Err(e);
            },
        }

        // Fetch or create the default community.
        let main_name = "main".to_owned();
        let (main_id, created): (u64, bool) = match self.store.find_community_by_name(&main_name) {
            Some(ci) => {
                proof {
                    assert(self.store@.communities == v.communities);
                    assert(v.communities[ci as int].name@ == "main"@);
                }
                (self.store.communities[ci].id, false)
            },
            None => {
                let cid = match self.store.fresh_id() {
                    Some(id) => id,
                    None => {
                        proof {
                            assert(false);
                        }
                        return Err(ApiError::UserAlreadyExists);
                    },
                };
                let c_actor = crate::apub::community_actor_id(
                    self.config.base_url.as_str(),
                    main_name.as_str(),
                );
                let community = Community {
                    id: cid,
                    name: main_name.clone(),
                    title: "The Default Community".to_owned(),
                    creator_id: pid,
                    removed: false,
                    deleted: false,
                    local: true,
                    actor_id: c_actor,
                };
                self.store.insert_community(community);
                (cid, true)
            },
        };

        // Sign the new person up for the default community.
        let follow = CommunityFollower { community_id: main_id, person_id: pid, pending: false };
        proof {
            assert forall|t: int|
                0 <= t < self.store@.followers.len() implies !((
            #[trigger] self.store@.followers[t]).community_id == main_id
                && self.store@.followers[t].person_id == pid) by {
                assert(v.followers[t].person_id < v.next_id);
            }
        }
        match self.store.insert_follower(follow) {
            Ok(()) => {},
            Err(_) => {
                proof {
                    assert(false);
                }
                return Err(ApiError::CommunityFollowerAlreadyExists);
            },
        }

        // The founding account moderates the default community.
        if na {
            let moderate = CommunityModerator { community_id: main_id, person_id: pid };
            proof {
                assert forall|t: int|
                    0 <= t < self.store@.moderators.len() implies !((
                #[trigger] self.store@.moderators[t]).community_id == main_id
                    && self.store@.moderators[t].person_id == pid) by {
                    assert(v.moderators[t].person_id < v.next_id);
                }
            }
            match self.store.insert_moderator(moderate) {
                Ok(()) => {},
                Err(_) => {
                    proof {
                        assert(false);
                    }
                    return Err(ApiError::CommunityModeratorAlreadyExists);
                },
            }
        }

        proof {
            assert(registered_community(v, self.store@, pid, na, main_id));
        }
        let jwt = self.mint_session(pid);
        proof {
            assert(registered_community(v, final(self).store@, pid, na, main_id));
        }
        Ok(LoginResponse { jwt })
    }


    /// Registration entry point: takes the workflow decision first, hashes
    /// the password only once every check has passed, and then runs
    /// [`Engine::register_with_hash`]. On failure the error is exactly the
    /// decision's code; the one exception is the password hasher itself,
    /// which draws OS randomness and may fail after all checks passed — that
    /// rare failure surfaces as `user_already_exists` with the store
    /// untouched.
    pub fn register(&mut self, req: &Register, keys: ActorKeyPair, now: i64) -> (r: Result<
        LoginResponse,
        ApiError,
    >)
        requires
            old(self).inv(),
            old(self).store@.next_id + 3 <= u64::MAX,
        ensures
            final(self).inv(),
            final(self).config == old(self).config,
            final(self).events == old(self).events,
            final(self).outbox == old(self).outbox,
            final(self).captchas == old(self).captchas || exists|k: int|
                #![auto]
                0 <= k < old(self).captchas@.len() && final(self).captchas@ =~= old(
                    self,
                ).captchas@.remove(k),
            match r {
                Ok(resp) => {
                    &&& register_decision(
                        old(self).config,
                        old(self).store@,
                        old(self).captchas@,
                        *req,
                        now,
                    ) is None
                    &&& registration_applied(
                        old(self).config,
                        old(self).store@,
                        final(self).store@,
                        *req,
                        keys,
                        now,
                    )
                    &&& final(self).sessions@ == old(self).sessions@.push(
                        Session { token: resp.jwt, person_id: old(self).store@.next_id },
                    )
                },
                Err(e) => {
                    &&& (match register_decision(
                        old(self).config,
                        old(self).store@,
                        old(self).captchas@,
                        *req,
                        now,
                    ) {
                        Some(d) => e == d,
                        None => e == ApiError::UserAlreadyExists,
                    })
                    &&& final(self).store@ =~= (StoreContents {
                        next_id: final(self).store@.next_id,
                        ..old(self).store@
                    })
                    &&& final(self).sessions == old(self).sessions
                },
            },
    {
        match self.registration_decision_check(req, now) {
            Some(d) => {
                return Err(d);
            },
            None => {},
        }
        match hash_password(req.password.as_str()) {
            Some(h) => self.register_with_hash(req, keys, now, h),
            None => Err(ApiError::UserAlreadyExists),
        }
    }

    /// Is the stored challenge under this uuid valid for this answer now?
    /// A read-only check: nothing is consumed.
    fn peek_captcha(&self, uuid: &String, answer: &String, now: i64) -> (r: bool)
        ensures
            r == captcha_valid(self.captchas@, uuid@, answer@, now),
    {
        let n = self.captchas.len();
        let mut i: usize = 0;
        while i < n
            invariant
                i <= n,
                n == self.captchas@.len(),
                forall|t: int| 0 <= t < i ==> (#[trigger] self.captchas@[t]).uuid@ != uuid@,
            decreases n - i,
        {
            if self.captchas[i].uuid.eq(uuid) {
                proof {
                    assert(captcha_match_at(self.captchas@, uuid@, i as int));
                    assert forall|t: int|
                        captcha_match_at(self.captchas@, uuid@, t) implies t == i as int by {
                        if t < i {
                            assert(self.captchas@[t].uuid@ != uuid@);
                        }
                        if t > i {
                            assert(self.captchas@[i as int].uuid@ == uuid@);
                        }
                    }
                }
                return self.captchas[i].answer.eq(answer) && now <= self.captchas[i].expires;
            }
            i += 1;
        }
        proof {
            assert forall|t: int| !captcha_match_at(self.captchas@, uuid@, t) by {
                if 0 <= t < self.captchas@.len() {
                    assert(self.captchas@[t].uuid@ != uuid@);
                }
            }
        }
        false
    }

    /// Takes the registration workflow's decision without touching anything:
    /// exactly [`register_decision`], check by check.
    fn registration_decision_check(&self, req: &Register, now: i64) -> (r: Option<ApiError>)
        requires
            self.inv(),
        ensures
            r == register_decision(self.config, self.store@, self.captchas@, *req, now),
    {
        if !self.config.open_registration {
            return Some(ApiError::RegistrationClosed);
        }
        match crate::validate::password_length_check(req.password.as_str()) {
            Ok(()) => {},
            Err(e) => {
                return Some(e);
            },
        }
        if !req.password.eq(&req.password_verify) {
            return Some(ApiError::PasswordsDontMatch);
        }
        let na = self.no_admin_accounts();
        if !na && self.config.captcha_enabled {
            let uuid = match &req.captcha_uuid {
                Some(u) => u.clone(),
                None => String::new(),
            };
            let answer = match &req.captcha_answer {
                Some(a) => a.clone(),
                None => String::new(),
            };
            if !self.peek_captcha(&uuid, &answer, now) {
                return Some(ApiError::CaptchaIncorrect);
            }
        }
        if crate::validate::contains_forbidden_word(
            req.username.as_str(),
            &self.config.forbidden_words,
        ) {
            return Some(ApiError::Slurs);
        }
        if !crate::validate::is_valid_username(req.username.as_str()) {
            return Some(ApiError::InvalidUsername);
        }
        if self.store.find_person_by_name(&req.username).is_some() {
            return Some(ApiError::UserAlreadyExists);
        }
        match &req.email {
            Some(em) => {
                if self.store.find_local_user_by_email(em).is_some() {
                    return Some(ApiError::EmailAlreadyExists);
                }
            },
            None => {},
        }
        None
    }

    /// Are there no admin accounts yet?
    pub fn no_admin_accounts(&self) -> (r: bool)
        ensures
            r == no_admins(self.store@),
    {
        let n = self.store.local_users.len();
        let mut j: usize = 0;
        while j < n
            invariant
                j <= n,
                n == self.store@.local_users.len(),
                forall|t: int| 0 <= t < j ==> !(#[trigger] self.store@.local_users[t]).admin,
            decreases n - j,
        {
            if self.store.local_users[j].admin {
                return false;
            }
            j += 1;
        }
        true
    }
}

} // verus!
