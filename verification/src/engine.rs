use vstd::prelude::*;

use crate::entities::{CaptchaChallenge, Email, Session};
use crate::error::ApiError;
use crate::store::Store;
use crate::trusted::{new_uuid, CaptchaDifficulty};

verus! {

/// The instance configuration, threaded explicitly into every handler; there
/// is no process-wide settings singleton.
pub struct Config {
    pub open_registration: bool,
    pub captcha_enabled: bool,
    pub captcha_difficulty: CaptchaDifficulty,
    /// Protocol and hostname, e.g. `https://example.com`, without a trailing
    /// slash.
    pub base_url: String,
    /// The person id of the site's original creator, pinned to the front of
    /// the admin list.
    pub site_creator_id: u64,
    /// Words rejected in usernames and masked in message content.
    pub forbidden_words: Vec<String>,
}

#[derive(Clone, Copy, PartialEq, Eq, Structural, Debug)]
pub enum PmOp {
    Create,
    Edit,
    Delete,
    MarkRead,
}

/// An event published on the broadcast bus: either to every live session, or
/// to the sessions of one recipient.
pub enum BusEvent {
    AddAdminGlobal { admin_ids: Vec<u64> },
    BanPersonGlobal { person_id: u64, banned: bool },
    PrivateMessageToRecipient { op: PmOp, recipient_id: u64, message_id: u64 },
    ReportCountToUser { recipient_id: u64, comment_reports: u64, post_reports: u64 },
}

/// The command core: the store, the ephemeral captcha challenges, the live
/// sessions of the token service, the broadcast bus (as the sequence of
/// published events), the outbound mail queue, and the configuration.
pub struct Engine {
    pub store: Store,
    pub captchas: Vec<CaptchaChallenge>,
    pub sessions: Vec<Session>,
    pub events: Vec<BusEvent>,
    pub outbox: Vec<Email>,
    pub config: Config,
}

/// The session at index `i` is the first one carrying this token, and it
/// belongs to `pid`.
pub open spec fn token_match_at(ss: Seq<Session>, tok: Seq<char>, i: int) -> bool {
    &&& 0 <= i < ss.len()
    &&& ss[i].token@ == tok
    &&& forall|t: int| 0 <= t < i ==> (#[trigger] ss[t]).token@ != tok
}

/// The token resolves to this person: its first session carries `pid`.
pub open spec fn token_person(ss: Seq<Session>, tok: Seq<char>, pid: u64) -> bool {
    exists|i: int| #[trigger] token_match_at(ss, tok, i) && ss[i].person_id == pid
}

impl Engine {
    pub open spec fn inv(self) -> bool {
        self.store.inv()
    }

    /// The token names a person who still has a local user: the identity an
    /// authenticated command runs as.
    pub open spec fn valid_auth(self, tok: Seq<char>) -> bool {
        exists|pid: u64|
            #[trigger] token_person(self.sessions@, tok, pid) && crate::store::has_local_user_for(
                self.store@.local_users,
                pid,
            )
    }

    /// A fresh core around an empty store.
    pub fn new(config: Config) -> (r: Engine)
        ensures
            r.inv(),
            r.store@.persons =~= Seq::<crate::entities::Person>::empty(),
            r.store@.local_users =~= Seq::<crate::entities::LocalUser>::empty(),
            r.store@.next_id == 0,
            r.captchas@ =~= Seq::<CaptchaChallenge>::empty(),
            r.sessions@ =~= Seq::<Session>::empty(),
            r.events@ =~= Seq::<BusEvent>::empty(),
            r.outbox@ =~= Seq::<Email>::empty(),
            r.config == config,
    {
        Engine {
            store: Store::new(),
            captchas: Vec::new(),
            sessions: Vec::new(),
            events: Vec::new(),
            outbox: Vec::new(),
            config,
        }
    }

    /// Issues a fresh identity token bound to this person.
    pub fn mint_session(&mut self, person_id: u64) -> (r: String)
        ensures
            final(self).sessions@ == old(self).sessions@.push(
                Session { token: r, person_id },
            ),
            final(self).store == old(self).store,
            final(self).captchas == old(self).captchas,
            final(self).events == old(self).events,
            final(self).outbox == old(self).outbox,
            final(self).config == old(self).config,
    {
        let tok = new_uuid();
        let entry = Session { token: tok.clone(), person_id };
        self.sessions.push(entry);
        tok
    }

    /// Index of the first session carrying this token, if any.
    pub fn find_session(&self, auth: &String) -> (r: Option<usize>)
        ensures
            match r {
                Some(i) => token_match_at(self.sessions@, auth@, i as int),
                None => forall|t: int|
                    0 <= t < self.sessions@.len() ==> (#[trigger] self.sessions@[t]).token@
                        != auth@,
            },
    {
        let mut i: usize = 0;
        while i < self.sessions.len()
            invariant
                i <= self.sessions@.len(),
                forall|t: int| 0 <= t < i ==> (#[trigger] self.sessions@[t]).token@ != auth@,
            decreases self.sessions@.len() - i,
        {
            if self.sessions[i].token.eq(auth) {
                return Some(i);
            }
            i += 1;
        }
        None
    }

    /// Resolves a bearer token to `(person index, local user index)`, or
    /// `NotLoggedIn` when the token is unknown or its identity is gone.
    pub fn resolve_auth(&self, auth: &String) -> (r: Result<(usize, usize), ApiError>)
        requires
            self.inv(),
        ensures
            match r {
                Ok((i, j)) => {
                    &&& i < self.store@.persons.len()
                    &&& j < self.store@.local_users.len()
                    &&& self.store@.local_users[j as int].person_id == self.store@.persons[
                        i as int
                    ].id
                    &&& token_person(
                        self.sessions@,
                        auth@,
                        self.store@.persons[i as int].id,
                    )
                    &&& self.valid_auth(auth@)
                },
                Err(e) => e == ApiError::NotLoggedIn && !self.valid_auth(auth@),
            },
    {
        let found = self.find_session(auth);
        let i: usize = match found {
            Some(i) => i,
            None => {
                proof {
                    assert forall|pid: u64| !token_person(self.sessions@, auth@, pid) by {
                        if exists|k: int|
                            #[trigger] token_match_at(self.sessions@, auth@, k)
                                && self.sessions@[k].person_id == pid {
                            let k = choose|k: int|
                                #[trigger] token_match_at(self.sessions@, auth@, k)
                                    && self.sessions@[k].person_id == pid;
                            assert(self.sessions@[k].token@ != auth@);
                        }
                    }
                }
                return Err(ApiError::NotLoggedIn);
            },
        };
        let pid = self.sessions[i].person_id;
        match self.store.find_local_user_by_person(pid) {
            Some(j) => {
                let person_id = self.store.local_users[j].person_id;
                match self.store.find_person_by_id(person_id) {
                    Some(pi) => {
                        proof {
                            assert(token_match_at(self.sessions@, auth@, i as int));
                            assert(self.sessions@[i as int].person_id == pid);
                            assert(token_person(self.sessions@, auth@, pid));
                            assert(crate::store::has_local_user_for(
                                self.store@.local_users,
                                pid,
                            ));
                            assert(self.valid_auth(auth@));
                        }
                        Ok((pi, j))
                    },
                    None => {
                        proof {
                            assert(false);
                        }
                        Err(ApiError::NotLoggedIn)
                    },
                }
            },
            None => {
                proof {
                    assert forall|q: u64|
                        !(token_person(self.sessions@, auth@, q)
                            && crate::store::has_local_user_for(
                            self.store@.local_users,
                            q,
                        )) by {
                        if token_person(self.sessions@, auth@, q) {
                            let k = choose|k: int|
                                #[trigger] token_match_at(self.sessions@, auth@, k)
                                    && self.sessions@[k].person_id == q;
                            assert(token_match_at(self.sessions@, auth@, i as int));
                            assert(k == i);
                            assert(q == pid);
                        }
                    }
                }
                Err(ApiError::NotLoggedIn)
            },
        }
    }

    /// Verifies and consumes a captcha challenge: the uuid must be known, the
    /// answer must match exactly, and the challenge must not be expired. A
    /// successful check removes the challenge, so it can be used only once.
    pub fn check_captcha(&mut self, uuid: &String, answer: &String, now: i64) -> (r: bool)
        ensures
            final(self).store == old(self).store,
            final(self).sessions == old(self).sessions,
            final(self).events == old(self).events,
            final(self).outbox == old(self).outbox,
            final(self).config == old(self).config,
            r == exists|i: int|
                #[trigger] captcha_match_at(old(self).captchas@, uuid@, i) && old(
                    self,
                ).captchas@[i].answer@ == answer@ && now <= old(self).captchas@[i].expires,
            r ==> exists|i: int|
                #[trigger] captcha_match_at(old(self).captchas@, uuid@, i) && final(self).captchas@
                    =~= old(self).captchas@.remove(i),
            !r ==> final(self).captchas == old(self).captchas,
    {
        let mut i: usize = 0;
        let n = self.captchas.len();
        while i < n
            invariant
                i <= n,
                n == self.captchas@.len(),
                self.store == old(self).store,
                self.sessions == old(self).sessions,
                self.events == old(self).events,
                self.outbox == old(self).outbox,
                self.config == old(self).config,
                self.captchas == old(self).captchas,
                forall|t: int| 0 <= t < i ==> (#[trigger] self.captchas@[t]).uuid@ != uuid@,
            decreases n - i,
        {
            if self.captchas[i].uuid.eq(uuid) {
                proof {
                    assert(captcha_match_at(self.captchas@, uuid@, i as int));
                }
                if self.captchas[i].answer.eq(answer) && now <= self.captchas[i].expires {
                    self.captchas.remove(i);
                    return true;
                } else {
                    proof {
                        assert forall|t: int|
                            captcha_match_at(self.captchas@, uuid@, t) implies t == i by {
                            if t < i {
                                assert(self.captchas@[t].uuid@ != uuid@);
                            }
                            if t > i {
                                assert(self.captchas@[i as int].uuid@ == uuid@);
                            }
                        }
                    }
                    return false;
                }
            }
            i += 1;
        }
        proof {
            assert forall|t: int| !captcha_match_at(self.captchas@, uuid@, t) by {
                if 0 <= t < self.captchas@.len() {
                    assert(self.captchas@[t].uuid@ != uuid@);
                }
            }
        }
        false
    }

    /// Stores a freshly generated captcha challenge.
    pub fn insert_captcha(&mut self, c: CaptchaChallenge)
        ensures
            final(self).captchas@ == old(self).captchas@.push(c),
            final(self).store == old(self).store,
            final(self).sessions == old(self).sessions,
            final(self).events == old(self).events,
            final(self).outbox == old(self).outbox,
            final(self).config == old(self).config,
    {
        self.captchas.push(c);
    }
}

/// A token resolves to at most one person: both sessions would be the first
/// match, so they are the same session.
pub proof fn lemma_token_person_unique(ss: Seq<Session>, tok: Seq<char>, a: u64, b: u64)
    requires
        token_person(ss, tok, a),
        token_person(ss, tok, b),
    ensures
        a == b,
{
    let i = choose|i: int| #[trigger] token_match_at(ss, tok, i) && ss[i].person_id == a;
    let j = choose|j: int| #[trigger] token_match_at(ss, tok, j) && ss[j].person_id == b;
    if i < j {
        assert(ss[i].token@ != tok);
    } else if j < i {
        assert(ss[j].token@ != tok);
    }
}

/// The challenge at index `i` is the first one keyed by this uuid.
pub open spec fn captcha_match_at(cs: Seq<CaptchaChallenge>, uuid: Seq<char>, i: int) -> bool {
    &&& 0 <= i < cs.len()
    &&& cs[i].uuid@ == uuid
    &&& forall|t: int| 0 <= t < i ==> (#[trigger] cs[t]).uuid@ != uuid
}

} // verus!
