use vstd::prelude::*;

use crate::engine::{token_person, BusEvent, Engine, PmOp};
use crate::entities::{Email, PrivateMessage};
use crate::error::ApiError;
use crate::requests::{
    CreatePrivateMessage, DeletePrivateMessage, EditPrivateMessage, MarkPrivateMessageAsRead,
    PrivateMessageResponse,
};
use crate::store::{has_local_user_for, has_person, StoreContents};
use crate::validate::filtered;

verus! {

/// The private message at index `k` carries this id.
pub open spec fn pm_at(v: StoreContents, id: u64, k: int) -> bool {
    0 <= k < v.private_messages.len() && v.private_messages[k].id == id
}


/// A successful content edit of message `k` by its creator `pid`.
pub open spec fn pm_edit_applied(
    a: Engine,
    b: Engine,
    req: EditPrivateMessage,
    pid: u64,
    k: int,
) -> bool {
    let v = a.store@;
    let f = b.store@;
    &&& token_person(a.sessions@, req.auth@, pid)
    &&& has_local_user_for(v.local_users, pid)
    &&& pm_at(v, req.private_message_id, k)
    &&& v.private_messages[k].creator_id == pid
    &&& f.private_messages.len() == v.private_messages.len()
    &&& (forall|t: int|
        0 <= t < v.private_messages.len() && t != k ==> #[trigger] f.private_messages[t]
            == v.private_messages[t])
    &&& ({
        let m = f.private_messages[k];
        let o = v.private_messages[k];
        &&& m.content@ == filtered(req.content@, a.config.forbidden_words@)
        &&& m.id == o.id
        &&& m.creator_id == o.creator_id
        &&& m.recipient_id == o.recipient_id
        &&& m.deleted == o.deleted
        &&& m.read == o.read
        &&& m.ap_id == o.ap_id
        &&& m.local == o.local
        &&& m.published == o.published
    })
    &&& b.events@ == a.events@.push(
        BusEvent::PrivateMessageToRecipient {
            op: PmOp::Edit,
            recipient_id: v.private_messages[k].recipient_id,
            message_id: req.private_message_id,
        },
    )
}

/// A successful deletion flag flip of message `k` by its creator `pid`.
pub open spec fn pm_delete_applied(
    a: Engine,
    b: Engine,
    req: DeletePrivateMessage,
    pid: u64,
    k: int,
) -> bool {
    let v = a.store@;
    let f = b.store@;
    &&& token_person(a.sessions@, req.auth@, pid)
    &&& has_local_user_for(v.local_users, pid)
    &&& pm_at(v, req.private_message_id, k)
    &&& v.private_messages[k].creator_id == pid
    &&& f.private_messages == v.private_messages.update(
        k,
        PrivateMessage { deleted: req.deleted, ..v.private_messages[k] },
    )
    &&& b.events@ == a.events@.push(
        BusEvent::PrivateMessageToRecipient {
            op: PmOp::Delete,
            recipient_id: v.private_messages[k].recipient_id,
            message_id: req.private_message_id,
        },
    )
}

impl Engine {
    /// Creates a private message: the caller becomes the creator, the content
    /// is filtered, the federation id is minted from the fresh row id, the
    /// recipient is notified by email when opted in, and the committed row is
    /// broadcast to the recipient's sessions.
    pub fn create_private_message(&mut self, req: &CreatePrivateMessage, now: i64) -> (r: Result<
        PrivateMessageResponse,
        ApiError,
    >)
        requires
            old(self).inv(),
            old(self).store@.next_id < u64::MAX,
        ensures
            final(self).inv(),
            final(self).config == old(self).config,
            final(self).captchas == old(self).captchas,
            final(self).sessions == old(self).sessions,
            match r {
                Ok(resp) => ({
                    let v = old(self).store@;
                    let f = final(self).store@;
                    let cfg = old(self).config;
                    let mid = v.next_id;
                    &&& exists|pid: u64|
                        #![auto]
                        {
                            &&& token_person(old(self).sessions@, req.auth@, pid)
                            &&& has_local_user_for(v.local_users, pid)
                            &&& f.private_messages.len() == v.private_messages.len() + 1
                            &&& (forall|t: int|
                                0 <= t < v.private_messages.len() ==> #[trigger] f.private_messages[t]
                                    == v.private_messages[t])
                            &&& ({
                                let m = f.private_messages.last();
                                &&& m.id == mid
                                &&& m.creator_id == pid
                                &&& m.recipient_id == req.recipient_id
                                &&& m.content@ == filtered(req.content@, cfg.forbidden_words@)
                                &&& !m.deleted
                                &&& !m.read
                                &&& m.ap_id@ == cfg.base_url@ + "/private_message/"@
                                    + crate::apub::dec_string(mid as int)
                                &&& m.local
                                &&& m.published == now
                            })
                            &&& resp.private_message_view == f.private_messages.last()
                        }
                    &&& has_person(v.persons, req.recipient_id)
                    &&& f =~= (StoreContents {
                        private_messages: f.private_messages,
                        next_id: f.next_id,
                        ..v
                    })
                    &&& final(self).events@ == old(self).events@.push(
                        BusEvent::PrivateMessageToRecipient {
                            op: PmOp::Create,
                            recipient_id: req.recipient_id,
                            message_id: mid,
                        },
                    )
                    // the recipient is emailed exactly when opted in with an address
                    &&& ({
                        ||| exists|rj: int|
                            #![auto]
                            {
                                &&& 0 <= rj < v.local_users.len()
                                &&& v.local_users[rj].person_id == req.recipient_id
                                &&& v.local_users[rj].send_notifications_to_email
                                &&& v.local_users[rj].email is Some
                                &&& final(self).outbox@.len() == old(self).outbox@.len() + 1
                                &&& final(self).outbox@.drop_last() == old(self).outbox@
                                &&& final(self).outbox@.last().to@ == v.local_users[rj].email->0@
                                &&& final(self).outbox@.last().body@ == filtered(
                                    req.content@,
                                    old(self).config.forbidden_words@,
                                )
                            }
                        ||| (final(self).outbox == old(self).outbox && forall|rj: int|
                            0 <= rj < v.local_users.len() && (
                            #[trigger] v.local_users[rj]).person_id == req.recipient_id ==> !(
                            v.local_users[rj].send_notifications_to_email
                                && v.local_users[rj].email is Some))
                    })
                }),
                Err(e) => {
                    &&& final(self).store@ =~= (StoreContents {
                        next_id: final(self).store@.next_id,
                        ..old(self).store@
                    })
                    &&& final(self).events == old(self).events
                    &&& final(self).outbox == old(self).outbox
                    &&& (e == ApiError::NotLoggedIn <==> !old(self).valid_auth(req.auth@))
                    &&& (e == ApiError::CouldntCreatePrivateMessage <==> old(self).valid_auth(
                        req.auth@,
                    ) && !has_person(old(self).store@.persons, req.recipient_id))
                    &&& (e == ApiError::NotLoggedIn || e == ApiError::CouldntCreatePrivateMessage)
                },
            },
    {
        let (pi, _pj) = match self.resolve_auth(&req.auth) {
            Ok(p) => p,
            Err(e) => {
                return Err(e);
            },
        };
        let pid = self.store.persons[pi].id;

        // the recipient must exist
        if self.store.find_person_by_id(req.recipient_id).is_none() {
            return Err(ApiError::CouldntCreatePrivateMessage);
        }

        let content = crate::validate::filter_forbidden_words(
            req.content.as_str(),
            &self.config.forbidden_words,
        );

        let mid = match self.store.fresh_id() {
            Some(id) => id,
            None => {
                proof {
                    assert(false);
                }
                return Err(ApiError::CouldntCreatePrivateMessage);
            },
        };
        let ap_id = crate::apub::private_message_ap_id(self.config.base_url.as_str(), mid);
        let message = PrivateMessage {
            id: mid,
            creator_id: pid,
            recipient_id: req.recipient_id,
            content: content.clone(),
            deleted: false,
            read: false,
            ap_id,
            local: true,
            published: now,
        };
        self.store.insert_private_message(message);

        // notify the recipient by email when opted in
        match self.store.find_local_user_by_person(req.recipient_id) {
            Some(rj) => {
                let wants = self.store.local_users[rj].send_notifications_to_email;
                let addr = crate::entities::clone_opt_string(&self.store.local_users[rj].email);
                match addr {
                    Some(to) => {
                        if wants {
                            self.outbox.push(
                                Email {
                                    to,
                                    subject: "Private Message from".to_owned(),
                                    body: content,
                                },
                            );
                        }
                    },
                    None => {},
                }
            },
            None => {
                proof {
                    let v = self.store@;
                    assert forall|rj: int|
                        0 <= rj < v.local_users.len() && (#[trigger] v.local_users[rj]).person_id
                            == req.recipient_id implies false by {}
                }
            },
        }

        let view = self.store.private_messages[self.store.private_messages.len() - 1].clone();
        self.events.push(
            BusEvent::PrivateMessageToRecipient {
                op: PmOp::Create,
                recipient_id: req.recipient_id,
                message_id: mid,
            },
        );
        Ok(PrivateMessageResponse { private_message_view: view })
    }

    /// Edits a private message's content; only the creator may, and the
    /// filtered new content is stored and broadcast.
    pub fn edit_private_message(&mut self, req: &EditPrivateMessage) -> (r: Result<
        PrivateMessageResponse,
        ApiError,
    >)
        requires
            old(self).inv(),
        ensures
            final(self).inv(),
            final(self).config == old(self).config,
            final(self).captchas == old(self).captchas,
            final(self).sessions == old(self).sessions,
            final(self).outbox == old(self).outbox,
            final(self).store@ =~= (StoreContents {
                private_messages: final(self).store@.private_messages,
                ..old(self).store@
            }),
            match r {
                Ok(resp) => ({
                    let f = final(self).store@;
                    &&& exists|pid: u64, k: int|
                        #[trigger] pm_edit_applied(*old(self), *final(self), *req, pid, k)
                    &&& (forall|pid: u64, k: int|
                        pm_edit_applied(*old(self), *final(self), *req, pid, k)
                            ==> resp.private_message_view == f.private_messages[k])
                }),
                Err(e) => ({
                    let v = old(self).store@;
                    &&& final(self).store == old(self).store
                    &&& final(self).events == old(self).events
                    &&& (e == ApiError::NotLoggedIn <==> !old(self).valid_auth(req.auth@))
                    &&& (e == ApiError::CouldntUpdatePrivateMessage <==> old(self).valid_auth(
                        req.auth@,
                    ) && (forall|k: int| !pm_at(v, req.private_message_id, k)))
                    &&& (e == ApiError::NoPrivateMessageEditAllowed ==> exists|pid: u64, k: int|
                        #![auto]
                        token_person(old(self).sessions@, req.auth@, pid) && pm_at(
                            v,
                            req.private_message_id,
                            k,
                        ) && v.private_messages[k].creator_id != pid)
                    &&& (e == ApiError::NotLoggedIn || e == ApiError::CouldntUpdatePrivateMessage
                        || e == ApiError::NoPrivateMessageEditAllowed)
                }),
            },
    {
        let (pi, _pj) = match self.resolve_auth(&req.auth) {
            Ok(p) => p,
            Err(e) => {
                return Err(e);
            },
        };
        let pid = self.store.persons[pi].id;

        let k = match self.store.find_private_message_by_id(req.private_message_id) {
            Some(k) => k,
            None => {
                return Err(ApiError::CouldntUpdatePrivateMessage);
            },
        };
        if self.store.private_messages[k].creator_id != pid {
            proof {
                assert(pm_at(old(self).store@, req.private_message_id, k as int));
                assert(token_person(old(self).sessions@, req.auth@, pid));
            }
            return Err(ApiError::NoPrivateMessageEditAllowed);
        }

        let content = crate::validate::filter_forbidden_words(
            req.content.as_str(),
            &self.config.forbidden_words,
        );
        let orig = self.store.private_messages[k].clone();
        let recipient_id = orig.recipient_id;
        let updated = PrivateMessage { content, ..orig };
        self.store.update_private_message_at(k, updated);

        let view = self.store.private_messages[k].clone();
        self.events.push(
            BusEvent::PrivateMessageToRecipient {
                op: PmOp::Edit,
                recipient_id,
                message_id: req.private_message_id,
            },
        );
        proof {
            assert(pm_edit_applied(*old(self), *self, *req, pid, k as int));
            assert forall|pid2: u64, k2: int|
                pm_edit_applied(*old(self), *self, *req, pid2, k2) implies view
                == self.store@.private_messages[k2] by {
                assert(old(self).store@.private_messages[k2].id == req.private_message_id);
                if k2 != k {
                    assert(old(self).store@.private_messages[k as int].id
                        == req.private_message_id);
                }
            }
        }
        Ok(PrivateMessageResponse { private_message_view: view })
    }

    /// Deletes or restores a private message; only the creator may flip the
    /// flag.
    pub fn delete_private_message(&mut self, req: &DeletePrivateMessage) -> (r: Result<
        PrivateMessageResponse,
        ApiError,
    >)
        requires
            old(self).inv(),
        ensures
            final(self).inv(),
            final(self).config == old(self).config,
            final(self).captchas == old(self).captchas,
            final(self).sessions == old(self).sessions,
            final(self).outbox == old(self).outbox,
            final(self).store@ =~= (StoreContents {
                private_messages: final(self).store@.private_messages,
                ..old(self).store@
            }),
            match r {
                Ok(resp) => ({
                    let f = final(self).store@;
                    &&& exists|pid: u64, k: int|
                        #[trigger] pm_delete_applied(*old(self), *final(self), *req, pid, k)
                    &&& (forall|pid: u64, k: int|
                        pm_delete_applied(*old(self), *final(self), *req, pid, k)
                            ==> resp.private_message_view == f.private_messages[k])
                }),
                Err(e) => ({
                    let v = old(self).store@;
                    &&& final(self).store == old(self).store
                    &&& final(self).events == old(self).events
                    &&& (e == ApiError::NotLoggedIn <==> !old(self).valid_auth(req.auth@))
                    &&& (e == ApiError::CouldntUpdatePrivateMessage <==> old(self).valid_auth(
                        req.auth@,
                    ) && (forall|k: int| !pm_at(v, req.private_message_id, k)))
                    &&& (e == ApiError::NoPrivateMessageEditAllowed ==> exists|pid: u64, k: int|
                        #![auto]
                        token_person(old(self).sessions@, req.auth@, pid) && pm_at(
                            v,
                            req.private_message_id,
                            k,
                        ) && v.private_messages[k].creator_id != pid)
                    &&& (e == ApiError::NotLoggedIn || e == ApiError::CouldntUpdatePrivateMessage
                        || e == ApiError::NoPrivateMessageEditAllowed)
                }),
            },
    {
        let (pi, _pj) = match self.resolve_auth(&req.auth) {
            Ok(p) => p,
            Err(e) => {
                return Err(e);
            },
        };
        let pid = self.store.persons[pi].id;

        let k = match self.store.find_private_message_by_id(req.private_message_id) {
            Some(k) => k,
            None => {
                return Err(ApiError::CouldntUpdatePrivateMessage);
            },
        };
        if self.store.private_messages[k].creator_id != pid {
            proof {
                assert(pm_at(old(self).store@, req.private_message_id, k as int));
                assert(token_person(old(self).sessions@, req.auth@, pid));
            }
            return Err(ApiError::NoPrivateMessageEditAllowed);
        }

        let orig = self.store.private_messages[k].clone();
        let recipient_id = orig.recipient_id;
        let updated = PrivateMessage { deleted: req.deleted, ..orig };
        self.store.update_private_message_at(k, updated);

        let view = self.store.private_messages[k].clone();
        self.events.push(
            BusEvent::PrivateMessageToRecipient {
                op: PmOp::Delete,
                recipient_id,
                message_id: req.private_message_id,
            },
        );
        proof {
            assert(pm_delete_applied(*old(self), *self, *req, pid, k as int));
            assert forall|pid2: u64, k2: int|
                pm_delete_applied(*old(self), *self, *req, pid2, k2) implies view
                == self.store@.private_messages[k2] by {
                assert(old(self).store@.private_messages[k2].id == req.private_message_id);
                if k2 != k {
                    assert(old(self).store@.private_messages[k as int].id
                        == req.private_message_id);
                }
            }
        }
        Ok(PrivateMessageResponse { private_message_view: view })
    }

    /// Flips a private message's read flag; only the recipient may.
    pub fn mark_private_message_as_read(&mut self, req: &MarkPrivateMessageAsRead) -> (r: Result<
        PrivateMessageResponse,
        ApiError,
    >)
        requires
            old(self).inv(),
        ensures
            final(self).inv(),
            final(self).config == old(self).config,
            final(self).captchas == old(self).captchas,
            final(self).sessions == old(self).sessions,
            final(self).outbox == old(self).outbox,
            final(self).store@ =~= (StoreContents {
                private_messages: final(self).store@.private_messages,
                ..old(self).store@
            }),
            match r {
                Ok(resp) => ({
                    let v = old(self).store@;
                    let f = final(self).store@;
                    &&& exists|pid: u64, k: int|
                        #![auto]
                        {
                            &&& token_person(old(self).sessions@, req.auth@, pid)
                            &&& has_local_user_for(v.local_users, pid)
                            &&& pm_at(v, req.private_message_id, k)
                            &&& v.private_messages[k].recipient_id == pid
                            &&& f.private_messages == v.private_messages.update(
                                k,
                                PrivateMessage { read: req.read, ..v.private_messages[k] },
                            )
                            &&& resp.private_message_view == f.private_messages[k]
                            &&& final(self).events@ == old(self).events@.push(
                                BusEvent::PrivateMessageToRecipient {
                                    op: PmOp::MarkRead,
                                    recipient_id: v.private_messages[k].recipient_id,
                                    message_id: req.private_message_id,
                                },
                            )
                        }
                }),
                Err(e) => ({
                    let v = old(self).store@;
                    &&& final(self).store == old(self).store
                    &&& final(self).events == old(self).events
                    &&& (e == ApiError::NotLoggedIn <==> !old(self).valid_auth(req.auth@))
                    &&& (e == ApiError::NotLoggedIn || e == ApiError::CouldntUpdatePrivateMessage)
                    &&& (old(self).valid_auth(req.auth@) && e
                        == ApiError::CouldntUpdatePrivateMessage ==> ((forall|k: int|
                        !pm_at(v, req.private_message_id, k)) || exists|pid: u64, k: int|
                        #![auto]
                        token_person(old(self).sessions@, req.auth@, pid) && pm_at(
                            v,
                            req.private_message_id,
                            k,
                        ) && v.private_messages[k].recipient_id != pid))
                }),
            },
    {
        let (pi, _pj) = match self.resolve_auth(&req.auth) {
            Ok(p) => p,
            Err(e) => {
                return Err(e);
            },
        };
        let pid = self.store.persons[pi].id;

        let k = match self.store.find_private_message_by_id(req.private_message_id) {
            Some(k) => k,
            None => {
                return Err(ApiError::CouldntUpdatePrivateMessage);
            },
        };
        if self.store.private_messages[k].recipient_id != pid {
            return Err(ApiError::CouldntUpdatePrivateMessage);
        }

        let orig = self.store.private_messages[k].clone();
        let recipient_id = orig.recipient_id;
        let updated = PrivateMessage { read: req.read, ..orig };
        self.store.update_private_message_at(k, updated);

        let view = self.store.private_messages[k].clone();
        self.events.push(
            BusEvent::PrivateMessageToRecipient {
                op: PmOp::MarkRead,
                recipient_id,
                message_id: req.private_message_id,
            },
        );
        Ok(PrivateMessageResponse { private_message_view: view })
    }
}

} // verus!
