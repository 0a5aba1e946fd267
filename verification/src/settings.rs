use vstd::prelude::*;

use crate::engine::{token_person, Engine};
use crate::entities::{clone_opt_string, LocalUser, Person};
use crate::error::ApiError;
use crate::requests::{DeleteAccount, LoginResponse, SaveUserSettings};
use crate::store::{email_taken_except, StoreContents};
use crate::trusted::{hash_password, password_verifies, verify_password};
use crate::validate::{password_length_ok, valid_display_name};

verus! {

/// The overwrite convention of optional profile fields: an absent input keeps
/// the stored value, an empty string clears it, anything else replaces it.
pub open spec fn overwrite(cur: Option<String>, inp: Option<String>) -> Option<String> {
    match inp {
        None => cur,
        Some(s) => if s@.len() == 0 {
            None
        } else {
            Some(s)
        },
    }
}

/// Applies the overwrite convention to one optional field.
pub fn apply_overwrite(cur: &Option<String>, inp: &Option<String>) -> (r: Option<String>)
    ensures
        r == overwrite(*cur, *inp),
{
    match inp {
        None => clone_opt_string(cur),
        Some(s) => {
            if s.as_str().is_empty() {
                None
            } else {
                Some(s.clone())
            }
        },
    }
}

/// The validation decision of the settings command for the caller's account
/// at index `j`, in handler order; `None` means the update goes through
/// (barring an email conflict, checked against the store separately).
pub open spec fn settings_decision(v: StoreContents, req: SaveUserSettings, j: int) -> Option<
    ApiError,
> {
    let bio = overwrite(Option::None, req.bio);
    let display = overwrite(Option::None, req.preferred_username);
    if bio is Some && bio->0@.len() > 300 {
        Some(ApiError::BioLengthOverflow)
    } else if display is Some && !valid_display_name(display->0@) {
        Some(ApiError::InvalidUsername)
    } else if req.new_password is Some && req.new_password_verify is None {
        Some(ApiError::PasswordsDontMatch)
    } else if req.new_password is Some && !password_length_ok(req.new_password->0@) {
        Some(ApiError::InvalidPassword)
    } else if req.new_password is Some && req.new_password->0@ != req.new_password_verify->0@ {
        Some(ApiError::PasswordsDontMatch)
    } else if req.new_password is Some && req.old_password is None {
        Some(ApiError::PasswordIncorrect)
    } else if req.new_password is Some && !password_verifies(
        req.old_password->0@,
        v.local_users[j].password_hash@,
    ) {
        Some(ApiError::PasswordIncorrect)
    } else {
        let email = overwrite(v.local_users[j].email, req.email);
        if email is Some && email_taken_except(v.local_users, email->0@, j) {
            Some(ApiError::EmailAlreadyExists)
        } else {
            None
        }
    }
}

/// What a successful settings update does: the caller's account and person
/// rows are rewritten from the request under the overwrite convention, and a
/// fresh token is issued.
pub open spec fn settings_applied(
    a: Engine,
    b: Engine,
    req: SaveUserSettings,
    pid: u64,
    j: int,
) -> bool {
    let v = a.store@;
    let f = b.store@;
    &&& token_person(a.sessions@, req.auth@, pid)
    &&& 0 <= j < v.local_users.len()
    &&& v.local_users[j].person_id == pid
    &&& settings_decision(v, req, j) is None
    &&& f.local_users.len() == v.local_users.len()
    &&& (forall|t: int|
        0 <= t < v.local_users.len() && t != j ==> #[trigger] f.local_users[t] == v.local_users[t])
    &&& ({
        let lu = f.local_users[j];
        let o = v.local_users[j];
        &&& lu.id == o.id
        &&& lu.person_id == o.person_id
        &&& lu.email == overwrite(o.email, req.email)
        &&& lu.matrix_user_id == overwrite(o.matrix_user_id, req.matrix_user_id)
        &&& lu.admin == o.admin
        &&& lu.show_nsfw == req.show_nsfw
        &&& lu.theme == req.theme
        &&& lu.default_sort_type == req.default_sort_type
        &&& lu.default_listing_type == req.default_listing_type
        &&& lu.lang == req.lang
        &&& lu.show_avatars == req.show_avatars
        &&& lu.send_notifications_to_email == req.send_notifications_to_email
        &&& (req.new_password is Some ==> password_verifies(
            req.new_password->0@,
            lu.password_hash@,
        ) && lu.password_hash@.len() == 60)
        &&& (req.new_password is None ==> lu.password_hash == o.password_hash)
    })
    &&& exists|t: int|
        {
            &&& 0 <= t < v.persons.len()
            &&& (#[trigger] v.persons[t]).id == pid
            &&& f.persons == v.persons.update(
                t,
                Person {
                    display_name: overwrite(v.persons[t].display_name, req.preferred_username),
                    bio: overwrite(v.persons[t].bio, req.bio),
                    avatar: overwrite(v.persons[t].avatar, req.avatar),
                    banner: overwrite(v.persons[t].banner, req.banner),
                    ..v.persons[t]
                },
            )
        }
    &&& f =~= (StoreContents { persons: f.persons, local_users: f.local_users, ..v })
    &&& b.sessions@.len() == a.sessions@.len() + 1
    &&& b.sessions@.drop_last() == a.sessions@
    &&& b.sessions@.last().person_id == pid
}


/// What account deletion does: content blanked, identity rows scrubbed and
/// marked deleted; `j` is the account row, `t` the person row.
pub open spec fn deletion_applied(
    a: Engine,
    b: Engine,
    req: DeleteAccount,
    pid: u64,
    j: int,
    t: int,
) -> bool {
    let v = a.store@;
    let f = b.store@;
    &&& token_person(a.sessions@, req.auth@, pid)
    &&& 0 <= j < v.local_users.len()
    &&& v.local_users[j].person_id == pid
    &&& password_verifies(req.password@, v.local_users[j].password_hash@)
    &&& f.local_users.len() == v.local_users.len()
    &&& (forall|u: int|
        0 <= u < v.local_users.len() && u != j ==> #[trigger] f.local_users[u] == v.local_users[u])
    &&& f.local_users[j] == (LocalUser {
        email: Option::None,
        matrix_user_id: Option::None,
        ..v.local_users[j]
    })
    &&& 0 <= t < v.persons.len()
    &&& v.persons[t].id == pid
    &&& f.persons == v.persons.update(
        t,
        Person {
            display_name: Option::None,
            bio: Option::None,
            avatar: Option::None,
            banner: Option::None,
            deleted: true,
            ..v.persons[t]
        },
    )
    &&& f.comments.len() == v.comments.len()
    &&& (forall|u: int|
        0 <= u < v.comments.len() ==> {
            let oldc = v.comments[u];
            let newc = #[trigger] f.comments[u];
            if oldc.creator_id == pid {
                newc.content@ == "*Permananently Deleted*"@ && newc.deleted && newc.id == oldc.id
                    && newc.creator_id == oldc.creator_id
            } else {
                newc == oldc
            }
        })
    &&& f.posts == v.posts.map_values(
        |p: crate::entities::Post|
            if p.creator_id == pid {
                crate::entities::Post { deleted: true, ..p }
            } else {
                p
            },
    )
}

impl Engine {
    /// Saves the caller's profile and preference fields under the overwrite
    /// convention, optionally changing the password after verifying the old
    /// one, and returns a fresh identity token. The hasher may itself fail;
    /// that rare failure surfaces as `couldnt_update_user` with the store
    /// untouched.
    #[verifier::rlimit(100)]
    pub fn save_user_settings(&mut self, req: &SaveUserSettings) -> (r: Result<
        LoginResponse,
        ApiError,
    >)
        requires
            old(self).inv(),
        ensures
            final(self).inv(),
            final(self).config == old(self).config,
            final(self).captchas == old(self).captchas,
            final(self).events == old(self).events,
            final(self).outbox == old(self).outbox,
            r is Ok ==> exists|pid: u64, j: int|
                #[trigger] settings_applied(*old(self), *final(self), *req, pid, j),
            r is Ok ==> final(self).sessions@.len() == old(self).sessions@.len() + 1
                && final(self).sessions@.last().token == r->Ok_0.jwt,
            match r {
                Ok(resp) => true,
                Err(e) => {
                    &&& final(self).store == old(self).store
                    &&& final(self).sessions == old(self).sessions
                    &&& (e == ApiError::NotLoggedIn <==> !old(self).valid_auth(req.auth@))
                    &&& (e == ApiError::CouldntUpdateUser ==> req.new_password is Some)
                    &&& (old(self).valid_auth(req.auth@) ==> exists|pid: u64, j: int|
                        #![auto]
                        {
                            &&& token_person(old(self).sessions@, req.auth@, pid)
                            &&& 0 <= j < old(self).store@.local_users.len()
                            &&& old(self).store@.local_users[j].person_id == pid
                            &&& (match settings_decision(old(self).store@, *req, j) {
                                Some(d) => e == d,
                                None => e == ApiError::CouldntUpdateUser,
                            })
                        })
                },
            },
    {
        let (pi, pj) = match self.resolve_auth(&req.auth) {
            Ok(p) => p,
            Err(e) => {
                return Err(e);
            },
        };
        let pid = self.store.persons[pi].id;

        let bio = apply_overwrite(&None, &req.bio);
        let display = apply_overwrite(&None, &req.preferred_username);

        match &bio {
            Some(b) => {
                if b.as_str().unicode_len() > 300 {
                    return Err(ApiError::BioLengthOverflow);
                }
            },
            None => {},
        }
        match &display {
            Some(d) => {
                if !crate::validate::is_valid_display_name(d.as_str()) {
                    return Err(ApiError::InvalidUsername);
                }
            },
            None => {},
        }

        // the optional password change, verified against the old password
        match &req.new_password {
            Some(new_password) => {
                match &req.new_password_verify {
                    Some(new_password_verify) => {
                        match crate::validate::password_length_check(new_password.as_str()) {
                            Ok(()) => {},
                            Err(e) => {
                                return Err(e);
                            },
                        }
                        if !new_password.eq(new_password_verify) {
                            return Err(ApiError::PasswordsDontMatch);
                        }
                        match &req.old_password {
                            Some(old_password) => {
                                let valid = verify_password(
                                    old_password.as_str(),
                                    self.store.local_users[pj].password_hash.as_str(),
                                );
                                if !valid {
                                    return Err(ApiError::PasswordIncorrect);
                                }
                            },
                            None => {
                                return Err(ApiError::PasswordIncorrect);
                            },
                        }
                    },
                    None => {
                        return Err(ApiError::PasswordsDontMatch);
                    },
                }
            },
            None => {},
        }

        // the account row
        let o = self.store.local_users[pj].clone();
        let email = apply_overwrite(&o.email, &req.email);
        match &email {
            Some(em) => {
                match self.store.find_local_user_by_email(em) {
                    Some(other) => {
                        if other != pj {
                            return Err(ApiError::EmailAlreadyExists);
                        }
                    },
                    None => {},
                }
            },
            None => {},
        }
        proof {
            let v = self.store@;
            if overwrite(v.local_users[pj as int].email, req.email) is Some {
                let em = overwrite(v.local_users[pj as int].email, req.email)->0@;
                if email_taken_except(v.local_users, em, pj as int) {
                    let t = choose|t: int|
                        0 <= t < v.local_users.len() && t != pj as int && (
                        #[trigger] v.local_users[t]).email is Some && v.local_users[t].email->0@
                            == em;
                    assert(false);
                }
            }
        }
        let new_hash: Option<String> = match &req.new_password {
            Some(new_password) => match hash_password(new_password.as_str()) {
                Some(h) => Some(h),
                None => {
                    proof {
                        assert(token_person(old(self).sessions@, req.auth@, pid));
                        assert(0 <= pj < old(self).store@.local_users.len());
                        assert(old(self).store@.local_users[pj as int].person_id == pid);
                        assert(settings_decision(old(self).store@, *req, pj as int) is None);
                    }
                    return Err(ApiError::CouldntUpdateUser);
                },
            },
            None => None,
        };
        let lu = LocalUser {
            id: o.id,
            person_id: o.person_id,
            email,
            password_hash: match new_hash {
                Some(h) => h,
                None => o.password_hash,
            },
            admin: o.admin,
            matrix_user_id: apply_overwrite(&o.matrix_user_id, &req.matrix_user_id),
            show_nsfw: req.show_nsfw,
            theme: req.theme.clone(),
            default_sort_type: req.default_sort_type,
            default_listing_type: req.default_listing_type,
            lang: req.lang.clone(),
            show_avatars: req.show_avatars,
            send_notifications_to_email: req.send_notifications_to_email,
        };
        self.store.update_local_user_at(pj, lu);

        // the person row's profile fields
        let p = self.store.persons[pi].clone();
        let person = Person {
            display_name: apply_overwrite(&p.display_name, &req.preferred_username),
            bio: apply_overwrite(&p.bio, &req.bio),
            avatar: apply_overwrite(&p.avatar, &req.avatar),
            banner: apply_overwrite(&p.banner, &req.banner),
            ..p
        };
        self.store.update_person_at(pi, person);

        let jwt = self.mint_session(pid);
        let resp = LoginResponse { jwt };
        proof {
            let v = old(self).store@;
            assert(0 <= pi < v.persons.len() && v.persons[pi as int].id == pid);
            assert(self.store@.persons =~= v.persons.update(
                pi as int,
                Person {
                    display_name: overwrite(v.persons[pi as int].display_name, req.preferred_username),
                    bio: overwrite(v.persons[pi as int].bio, req.bio),
                    avatar: overwrite(v.persons[pi as int].avatar, req.avatar),
                    banner: overwrite(v.persons[pi as int].banner, req.banner),
                    ..v.persons[pi as int]
                },
            ));
            assert(self.sessions@.drop_last() =~= old(self).sessions@);
            assert(settings_applied(*old(self), *self, *req, pid, pj as int));
            assert(settings_applied(*old(self), *final(self), *req, pid, pj as int));
        }
        Ok(resp)
    }

    /// Deletes the caller's account after confirming the password: their
    /// comments and posts are permanently blanked, the person is marked
    /// deleted with the profile cleared, and the account's email is dropped.
    pub fn delete_account(&mut self, req: &DeleteAccount) -> (r: Result<LoginResponse, ApiError>)
        requires
            old(self).inv(),
        ensures
            final(self).inv(),
            final(self).config == old(self).config,
            final(self).captchas == old(self).captchas,
            final(self).events == old(self).events,
            final(self).outbox == old(self).outbox,
            final(self).sessions == old(self).sessions,
            match r {
                Ok(resp) => {
                    &&& resp.jwt == req.auth
                    &&& exists|pid: u64, j: int, t: int|
                        #[trigger] deletion_applied(*old(self), *final(self), *req, pid, j, t)
                },
                Err(e) => {
                    &&& final(self).store == old(self).store
                    &&& (e == ApiError::NotLoggedIn <==> !old(self).valid_auth(req.auth@))
                    &&& (e == ApiError::NotLoggedIn || e == ApiError::PasswordIncorrect)
                    &&& (e == ApiError::PasswordIncorrect ==> exists|pid: u64, j: int|
                        #![auto]
                        {
                            &&& token_person(old(self).sessions@, req.auth@, pid)
                            &&& 0 <= j < old(self).store@.local_users.len()
                            &&& old(self).store@.local_users[j].person_id == pid
                            &&& !password_verifies(
                                req.password@,
                                old(self).store@.local_users[j].password_hash@,
                            )
                        })
                },
            },
    {
        let (pi, pj) = match self.resolve_auth(&req.auth) {
            Ok(p) => p,
            Err(e) => {
                return Err(e);
            },
        };
        let pid = self.store.persons[pi].id;

        let valid = verify_password(
            req.password.as_str(),
            self.store.local_users[pj].password_hash.as_str(),
        );
        if !valid {
            return Err(ApiError::PasswordIncorrect);
        }

        // blank the content first, then the identity rows
        self.store.permadelete_comments_for(pid);
        self.store.permadelete_posts_for(pid);

        let o = self.store.local_users[pj].clone();
        let lu = LocalUser { email: None, matrix_user_id: None, ..o };
        self.store.update_local_user_at(pj, lu);

        let p = self.store.persons[pi].clone();
        let person = Person {
            display_name: None,
            bio: None,
            avatar: None,
            banner: None,
            deleted: true,
            ..p
        };
        self.store.update_person_at(pi, person);

        proof {
            assert(deletion_applied(*old(self), *self, *req, pid, pj as int, pi as int));
        }
        Ok(LoginResponse { jwt: req.auth.clone() })
    }
}

} // verus!
