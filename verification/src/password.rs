use vstd::prelude::*;

use crate::engine::Engine;
use crate::entities::{CaptchaChallenge, Email, LocalUser, PasswordResetRequest};
use crate::error::ApiError;
use crate::requests::{
    CaptchaResponse, GetCaptchaResponse, LoginResponse, PasswordChange, PasswordReset,
    PasswordResetResponse,
};
use crate::store::{email_taken_except, StoreContents};
use crate::trusted::{
    base64_encode, generate_captcha, hash_password, new_uuid, password_verifies,
};
use crate::validate::password_length_ok;

verus! {

/// How long a fresh captcha challenge stays valid, in seconds.
pub const CAPTCHA_TTL_SECONDS: i64 = 600;

/// The reset request at index `k` is the first one carrying this token.
pub open spec fn reset_match_at(rs: Seq<PasswordResetRequest>, token: Seq<char>, k: int) -> bool {
    &&& 0 <= k < rs.len()
    &&& rs[k].token@ == token
    &&& forall|t: int| 0 <= t < k ==> (#[trigger] rs[t]).token@ != token
}

/// What a successful password change does: the account named by the pending
/// reset request `k` gets the new hash, the request is consumed, and a fresh
/// token is issued for the account's person.
pub open spec fn password_change_applied(
    a: Engine,
    b: Engine,
    req: PasswordChange,
    k: int,
    j: int,
) -> bool {
    let v = a.store@;
    let f = b.store@;
    &&& reset_match_at(v.password_resets, req.token@, k)
    &&& 0 <= j < v.local_users.len()
    &&& v.local_users[j].id == v.password_resets[k].local_user_id
    &&& password_length_ok(req.password@)
    &&& req.password@ == req.password_verify@
    &&& f.local_users.len() == v.local_users.len()
    &&& (forall|t: int|
        0 <= t < v.local_users.len() && t != j ==> #[trigger] f.local_users[t] == v.local_users[t])
    &&& ({
        let lu = f.local_users[j];
        let o = v.local_users[j];
        &&& password_verifies(req.password@, lu.password_hash@)
        &&& lu.password_hash@.len() == 60
        &&& lu == (LocalUser { password_hash: lu.password_hash, ..o })
    })
    &&& f.password_resets == v.password_resets.remove(k)
    &&& f =~= (StoreContents {
        local_users: f.local_users,
        password_resets: f.password_resets,
        ..v
    })
    &&& b.sessions@.len() == a.sessions@.len() + 1
    &&& b.sessions@.drop_last() == a.sessions@
    &&& b.sessions@.last().person_id == v.local_users[j].person_id
}

impl Engine {
    /// Produces a captcha challenge when the feature is enabled: the rendered
    /// image, base64-encoded, and a fresh uuid under which the expected
    /// answer is stored until `now` plus the time to live. With the feature
    /// disabled — or should the renderer fail — the response is empty and
    /// nothing is stored.
    pub fn get_captcha(&mut self, now: i64) -> (r: GetCaptchaResponse)
        requires
            now <= i64::MAX - CAPTCHA_TTL_SECONDS,
        ensures
            final(self).store == old(self).store,
            final(self).sessions == old(self).sessions,
            final(self).events == old(self).events,
            final(self).outbox == old(self).outbox,
            final(self).config == old(self).config,
            !old(self).config.captcha_enabled ==> r.ok is None && final(self).captchas == old(
                self,
            ).captchas,
            match r.ok {
                Some(c) => {
                    &&& old(self).config.captcha_enabled
                    &&& final(self).captchas@.len() == old(self).captchas@.len() + 1
                    &&& final(self).captchas@.drop_last() == old(self).captchas@
                    &&& final(self).captchas@.last().uuid@ == c.uuid@
                    &&& final(self).captchas@.last().expires == now + CAPTCHA_TTL_SECONDS
                    &&& 4 <= final(self).captchas@.last().answer@.len() <= 6
                    &&& c.uuid@.len() == 36
                    &&& c.wav is None
                },
                None => final(self).captchas == old(self).captchas,
            },
    {
        if !self.config.captcha_enabled {
            return GetCaptchaResponse { ok: None };
        }
        let generated = generate_captcha(self.config.captcha_difficulty);
        match generated {
            Some((answer, png_bytes)) => {
                let png = base64_encode(&png_bytes);
                let uuid = new_uuid();
                let challenge = CaptchaChallenge {
                    uuid: uuid.clone(),
                    answer,
                    expires: now + CAPTCHA_TTL_SECONDS,
                };
                self.insert_captcha(challenge);
                proof {
                    assert(self.captchas@.drop_last() =~= old(self).captchas@);
                }
                GetCaptchaResponse { ok: Some(CaptchaResponse { png, uuid, wav: None }) }
            },
            None => GetCaptchaResponse { ok: None },
        }
    }

    /// Starts a password reset: looks the account up by email, stores a
    /// pending reset request under a fresh random token, and mails the reset
    /// link carrying the raw token to that address.
    pub fn password_reset(&mut self, req: &PasswordReset) -> (r: Result<
        PasswordResetResponse,
        ApiError,
    >)
        requires
            old(self).inv(),
        ensures
            final(self).inv(),
            final(self).config == old(self).config,
            final(self).captchas == old(self).captchas,
            final(self).sessions == old(self).sessions,
            final(self).events == old(self).events,
            match r {
                Ok(resp) => ({
                    let v = old(self).store@;
                    let f = final(self).store@;
                    &&& exists|j: int|
                        #![auto]
                        {
                            &&& 0 <= j < v.local_users.len()
                            &&& v.local_users[j].email is Some
                            &&& v.local_users[j].email->0@ == req.email@
                            &&& f.password_resets.len() == v.password_resets.len() + 1
                            &&& f.password_resets.drop_last() == v.password_resets
                            &&& f.password_resets.last().local_user_id == v.local_users[j].id
                            &&& f.password_resets.last().token@.len() == 36
                            &&& f =~= (StoreContents {
                                password_resets: f.password_resets,
                                ..v
                            })
                            &&& final(self).outbox@.len() == old(self).outbox@.len() + 1
                            &&& final(self).outbox@.drop_last() == old(self).outbox@
                            &&& final(self).outbox@.last().to@ == req.email@
                            &&& final(self).outbox@.last().body@ == old(self).config.base_url@
                                + "/password_change/"@ + f.password_resets.last().token@
                        }
                }),
                Err(e) => {
                    &&& e == ApiError::CouldntFindThatUsernameOrEmail
                    &&& !email_taken_except(old(self).store@.local_users, req.email@, -1)
                    &&& final(self).store == old(self).store
                    &&& final(self).outbox == old(self).outbox
                },
            },
    {
        let j = match self.store.find_local_user_by_email(&req.email) {
            Some(j) => j,
            None => {
                return Err(ApiError::CouldntFindThatUsernameOrEmail);
            },
        };
        let lu_id = self.store.local_users[j].id;

        let token = new_uuid();
        self.store.push_password_reset(
            PasswordResetRequest { token: token.clone(), local_user_id: lu_id },
        );

        let mut body = self.config.base_url.clone();
        body.append("/password_change/");
        body.append(token.as_str());
        self.outbox.push(
            Email { to: req.email.clone(), subject: "Password reset".to_owned(), body },
        );
        proof {
            assert(self.store@.password_resets.drop_last() =~= old(self).store@.password_resets);
            assert(self.outbox@.drop_last() =~= old(self).outbox@);
        }
        Ok(PasswordResetResponse {})
    }

    /// Completes a password reset: the pending request named by the token is
    /// consumed, the new password is validated, hashed, and stored, and a
    /// fresh identity token is returned. The hasher may itself fail; that
    /// rare failure surfaces as `couldnt_update_user` with the store
    /// untouched.
    pub fn password_change(&mut self, req: &PasswordChange) -> (r: Result<LoginResponse, ApiError>)
        requires
            old(self).inv(),
        ensures
            final(self).inv(),
            final(self).config == old(self).config,
            final(self).captchas == old(self).captchas,
            final(self).events == old(self).events,
            final(self).outbox == old(self).outbox,
            r is Ok ==> exists|k: int, j: int|
                #[trigger] password_change_applied(*old(self), *final(self), *req, k, j),
            r is Ok ==> final(self).sessions@.last().token == r->Ok_0.jwt,
            match r {
                Ok(resp) => true,
                Err(e) => {
                    &&& final(self).store == old(self).store
                    &&& final(self).sessions == old(self).sessions
                    &&& (e == ApiError::InvalidPassword <==> (exists|k: int|
                        #[trigger] reset_match_at(
                            old(self).store@.password_resets,
                            req.token@,
                            k,
                        )) && !password_length_ok(req.password@))
                    &&& (e == ApiError::PasswordsDontMatch <==> (exists|k: int|
                        #[trigger] reset_match_at(
                            old(self).store@.password_resets,
                            req.token@,
                            k,
                        )) && password_length_ok(req.password@) && req.password@
                        != req.password_verify@)
                    &&& (e == ApiError::CouldntUpdateUser ==> (forall|k: int|
                        !reset_match_at(old(self).store@.password_resets, req.token@, k)) || (
                    password_length_ok(req.password@) && req.password@ == req.password_verify@))
                    &&& (e == ApiError::InvalidPassword || e == ApiError::PasswordsDontMatch || e
                        == ApiError::CouldntUpdateUser)
                },
            },
    {
        let k = match self.store.find_password_reset_by_token(&req.token) {
            Some(k) => k,
            None => {
                proof {
                    assert forall|t: int|
                        !reset_match_at(old(self).store@.password_resets, req.token@, t) by {}
                }
                return Err(ApiError::CouldntUpdateUser);
            },
        };
        proof {
            assert(reset_match_at(old(self).store@.password_resets, req.token@, k as int));
        }
        match crate::validate::password_length_check(req.password.as_str()) {
            Ok(()) => {},
            Err(e) => {
                return Err(e);
            },
        }
        if !req.password.eq(&req.password_verify) {
            return Err(ApiError::PasswordsDontMatch);
        }

        let lu_id = self.store.password_resets[k].local_user_id;
        let j = match self.store.find_local_user_by_id(lu_id) {
            Some(j) => j,
            None => {
                return Err(ApiError::CouldntUpdateUser);
            },
        };
        let hash = match hash_password(req.password.as_str()) {
            Some(h) => h,
            None => {
                return Err(ApiError::CouldntUpdateUser);
            },
        };

        let o = self.store.local_users[j].clone();
        let pid = o.person_id;
        let lu = LocalUser { password_hash: hash, ..o };
        self.store.update_local_user_at(j, lu);

        // a reset token works once
        self.remove_password_reset(k);

        let jwt = self.mint_session(pid);
        let resp = LoginResponse { jwt };
        proof {
            assert(self.sessions@.drop_last() =~= old(self).sessions@);
            assert(password_change_applied(*old(self), *self, *req, k as int, j as int));
            assert(password_change_applied(*old(self), *final(self), *req, k as int, j as int));
        }
        Ok(resp)
    }

    /// Removes a consumed reset request.
    fn remove_password_reset(&mut self, k: usize)
        requires
            old(self).inv(),
            k < old(self).store@.password_resets.len(),
        ensures
            final(self).inv(),
            final(self).store@ =~= (StoreContents {
                password_resets: old(self).store@.password_resets.remove(k as int),
                ..old(self).store@
            }),
            final(self).captchas == old(self).captchas,
            final(self).sessions == old(self).sessions,
            final(self).events == old(self).events,
            final(self).outbox == old(self).outbox,
            final(self).config == old(self).config,
    {
        self.store.password_resets.remove(k);
        proof {
            crate::store::lemma_inv_frame(old(self).store@, self.store@);
        }
    }
}

} // verus!
