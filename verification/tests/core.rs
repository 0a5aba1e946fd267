use account_core::engine::{BusEvent, Config, Engine, PmOp};
use account_core::entities::ModLogEntry;
use account_core::error::ApiError;
use account_core::requests::{
    ActorKeyPair, AddAdmin, BanUser, CreatePrivateMessage, DeleteAccount, DeletePrivateMessage,
    EditPrivateMessage, GetPrivateMessages, GetReplies, GetReportCount, GetUserDetails,
    GetUserMentions, Login, MarkAllAsRead, MarkPrivateMessageAsRead, MarkUserMentionAsRead,
    PasswordChange, PasswordReset, Register, SaveUserSettings,
};
use account_core::trusted::CaptchaDifficulty;

const NOW: i64 = 1_600_000_000;

fn test_config(captcha: bool) -> Config {
    Config {
        open_registration: true,
        captcha_enabled: captcha,
        captcha_difficulty: CaptchaDifficulty::Medium,
        base_url: "https://example.com".to_string(),
        site_creator_id: 0,
        forbidden_words: vec!["darn".to_string()],
    }
}

fn keys() -> ActorKeyPair {
    ActorKeyPair { private_key: "pem-private".to_string(), public_key: "pem-public".to_string() }
}

fn register_req(name: &str, email: Option<&str>) -> Register {
    Register {
        username: name.to_string(),
        email: email.map(|e| e.to_string()),
        password: "hunter22222".to_string(),
        password_verify: "hunter22222".to_string(),
        show_nsfw: false,
        captcha_uuid: None,
        captcha_answer: None,
    }
}

fn fresh_engine() -> Engine {
    Engine::new(test_config(false))
}

fn register_ok(e: &mut Engine, name: &str, email: Option<&str>) -> String {
    e.register(&register_req(name, email), keys(), NOW).expect("registration should succeed").jwt
}

#[test]
fn first_registration_founds_the_instance() {
    // the scenario: username "alice", password "hunter22222", no admins yet
    let mut e = fresh_engine();
    let jwt = register_ok(&mut e, "alice", None);
    assert!(!jwt.is_empty());
    // the token is valid and bound to alice's person
    let (pi, pj) = e.resolve_auth(&jwt).expect("token should resolve");
    assert_eq!(e.store.persons[pi].name, "alice");
    // alice is an admin
    assert!(e.store.local_users[pj].admin);
    // alice follows and moderates the default community
    assert_eq!(e.store.communities.len(), 1);
    assert_eq!(e.store.communities[0].name, "main");
    let cid = e.store.communities[0].id;
    let alice = e.store.persons[pi].id;
    assert!(e.store.followers.iter().any(|f| f.community_id == cid && f.person_id == alice));
    assert!(e.store.moderators.iter().any(|m| m.community_id == cid && m.person_id == alice));
}

#[test]
fn second_registration_gets_no_moderator_seat() {
    let mut e = fresh_engine();
    register_ok(&mut e, "alice", None);
    let mods_before = e.store.moderators.len();
    let jwt = register_ok(&mut e, "bob", None);
    let (_, pj) = e.resolve_auth(&jwt).expect("token should resolve");
    assert!(!e.store.local_users[pj].admin);
    assert_eq!(e.store.moderators.len(), mods_before);
}

#[test]
fn login_checks_the_password() {
    let mut e = fresh_engine();
    register_ok(&mut e, "alice", None);
    let sessions_before = e.sessions.len();
    let wrong = e.login(&Login {
        username_or_email: "alice".to_string(),
        password: "not-the-password".to_string(),
    });
    match wrong {
        Err(err) => assert_eq!(err.code(), "password_incorrect"),
        Ok(_) => panic!("wrong password must not log in"),
    }
    assert_eq!(e.sessions.len(), sessions_before);
    let right = e
        .login(&Login {
            username_or_email: "alice".to_string(),
            password: "hunter22222".to_string(),
        })
        .expect("correct password should log in");
    let (pi, _) = e.resolve_auth(&right.jwt).expect("token should resolve");
    assert_eq!(e.store.persons[pi].name, "alice");
}

#[test]
fn login_unknown_account() {
    let mut e = fresh_engine();
    register_ok(&mut e, "alice", None);
    let r = e.login(&Login {
        username_or_email: "nobody".to_string(),
        password: "hunter22222".to_string(),
    });
    match r {
        Err(err) => assert_eq!(err.code(), "couldnt_find_that_username_or_email"),
        Ok(_) => panic!("unknown account must not log in"),
    }
}

#[test]
fn login_by_email_works() {
    let mut e = fresh_engine();
    register_ok(&mut e, "alice", Some("alice@example.com"));
    let r = e
        .login(&Login {
            username_or_email: "alice@example.com".to_string(),
            password: "hunter22222".to_string(),
        })
        .expect("login by email should succeed");
    assert!(!r.jwt.is_empty());
}

#[test]
fn stored_hash_is_not_the_plaintext() {
    let mut e = fresh_engine();
    register_ok(&mut e, "alice", None);
    assert_ne!(e.store.local_users[0].password_hash, "hunter22222");
    assert_eq!(e.store.local_users[0].password_hash.len(), 60);
}

#[test]
fn registration_validation_errors() {
    let mut e = fresh_engine();
    // short password
    let mut r = register_req("alice", None);
    r.password = "short".to_string();
    r.password_verify = "short".to_string();
    assert_eq!(e.register(&r, keys(), NOW).err().unwrap().code(), "invalid_password");
    // mismatched passwords
    let mut r = register_req("alice", None);
    r.password_verify = "hunter33333".to_string();
    assert_eq!(e.register(&r, keys(), NOW).err().unwrap().code(), "passwords_dont_match");
    // forbidden word in the username
    let r = register_req("darnuser", None);
    assert_eq!(e.register(&r, keys(), NOW).err().unwrap().code(), "slurs");
    // malformed username
    let r = register_req("a!", None);
    assert_eq!(e.register(&r, keys(), NOW).err().unwrap().code(), "invalid_username");
    // duplicates
    register_ok(&mut e, "alice", Some("alice@example.com"));
    let r = register_req("alice", None);
    assert_eq!(e.register(&r, keys(), NOW).err().unwrap().code(), "user_already_exists");
    let persons_before = e.store.persons.len();
    let local_users_before = e.store.local_users.len();
    let r = register_req("alicia", Some("alice@example.com"));
    assert_eq!(e.register(&r, keys(), NOW).err().unwrap().code(), "email_already_exists");
    // the compensation removed the person again (no person without an account)
    assert_eq!(e.store.persons.len(), persons_before);
    assert_eq!(e.store.local_users.len(), local_users_before);
    assert!(!e.store.persons.iter().any(|p| p.name == "alicia"));
}

#[test]
fn registration_closed_is_rejected() {
    let mut cfg = test_config(false);
    cfg.open_registration = false;
    let mut e = Engine::new(cfg);
    let r = register_req("alice", None);
    assert_eq!(e.register(&r, keys(), NOW).err().unwrap().code(), "registration_closed");
}

#[test]
fn captcha_disabled_yields_empty_response() {
    // scenario: GetCaptcha with captcha disabled has no challenge payload
    let mut e = fresh_engine();
    let r = e.get_captcha(NOW);
    assert!(r.ok.is_none());
    assert!(e.captchas.is_empty());
}

#[test]
fn captcha_guards_later_registrations() {
    let mut e = Engine::new(test_config(true));
    // the founding account needs no captcha
    register_ok(&mut e, "alice", None);
    // the next one without a captcha is rejected
    let r = register_req("bob", None);
    assert_eq!(e.register(&r, keys(), NOW).err().unwrap().code(), "captcha_incorrect");
    // fetch a challenge and answer it
    let challenge = e.get_captcha(NOW).ok.expect("captcha should render");
    assert!(!challenge.png.is_empty());
    assert_eq!(challenge.uuid.len(), 36);
    let answer = e.captchas[0].answer.clone();
    let mut r = register_req("bob", None);
    r.captcha_uuid = Some(challenge.uuid.clone());
    r.captcha_answer = Some(answer);
    e.register(&r, keys(), NOW).expect("correct captcha should register");
    // the challenge was consumed
    assert!(e.captchas.is_empty());
}

#[test]
fn expired_captcha_is_rejected_even_with_the_right_answer() {
    let mut e = Engine::new(test_config(true));
    register_ok(&mut e, "alice", None);
    let challenge = e.get_captcha(NOW).ok.expect("captcha should render");
    let answer = e.captchas[0].answer.clone();
    let expires = e.captchas[0].expires;
    let mut r = register_req("bob", None);
    r.captcha_uuid = Some(challenge.uuid.clone());
    r.captcha_answer = Some(answer);
    let out = e.register(&r, keys(), expires + 1);
    assert_eq!(out.err().unwrap().code(), "captcha_incorrect");
}

#[test]
fn wrong_captcha_answer_is_rejected() {
    let mut e = Engine::new(test_config(true));
    register_ok(&mut e, "alice", None);
    let challenge = e.get_captcha(NOW).ok.expect("captcha should render");
    let mut r = register_req("bob", None);
    r.captcha_uuid = Some(challenge.uuid.clone());
    r.captcha_answer = Some("certainly-wrong".to_string());
    assert_eq!(e.register(&r, keys(), NOW).err().unwrap().code(), "captcha_incorrect");
}

#[test]
fn private_message_round_trip_with_word_filter() {
    let mut e = fresh_engine();
    let alice = register_ok(&mut e, "alice", None);
    register_ok(&mut e, "bob", None);
    let bob_id = e.store.persons.iter().find(|p| p.name == "bob").unwrap().id;
    let resp = e
        .create_private_message(
            &CreatePrivateMessage {
                auth: alice.clone(),
                content: "you darn fool".to_string(),
                recipient_id: bob_id,
            },
            NOW,
        )
        .expect("message should be created");
    let m = &resp.private_message_view;
    assert_eq!(m.content, "you **** fool");
    assert_eq!(m.recipient_id, bob_id);
    assert_eq!(
        m.ap_id,
        format!("https://example.com/private_message/{}", m.id)
    );
    // the recipient was notified on the bus
    match e.events.last().unwrap() {
        BusEvent::PrivateMessageToRecipient { op, recipient_id, message_id } => {
            assert_eq!(*op, PmOp::Create);
            assert_eq!(*recipient_id, bob_id);
            assert_eq!(*message_id, m.id);
        },
        _ => panic!("expected a private message event"),
    }
}

#[test]
fn private_message_ownership_rules() {
    // only the creator edits and deletes; only the recipient marks read
    let mut e = fresh_engine();
    let alice = register_ok(&mut e, "alice", None);
    let bob = register_ok(&mut e, "bob", None);
    let bob_id = e.store.persons.iter().find(|p| p.name == "bob").unwrap().id;
    let resp = e
        .create_private_message(
            &CreatePrivateMessage {
                auth: alice.clone(),
                content: "hello".to_string(),
                recipient_id: bob_id,
            },
            NOW,
        )
        .expect("message should be created");
    let mid = resp.private_message_view.id;

    let r = e.edit_private_message(&EditPrivateMessage {
        auth: bob.clone(),
        private_message_id: mid,
        content: "hacked".to_string(),
    });
    assert_eq!(r.err().unwrap().code(), "no_private_message_edit_allowed");

    let r = e.delete_private_message(&DeletePrivateMessage {
        auth: bob.clone(),
        private_message_id: mid,
        deleted: true,
    });
    assert_eq!(r.err().unwrap().code(), "no_private_message_edit_allowed");

    let r = e.mark_private_message_as_read(&MarkPrivateMessageAsRead {
        auth: alice.clone(),
        private_message_id: mid,
        read: true,
    });
    assert_eq!(r.err().unwrap().code(), "couldnt_update_private_message");

    let edited = e
        .edit_private_message(&EditPrivateMessage {
            auth: alice.clone(),
            private_message_id: mid,
            content: "hello again".to_string(),
        })
        .expect("the creator may edit");
    assert_eq!(edited.private_message_view.content, "hello again");

    let read = e
        .mark_private_message_as_read(&MarkPrivateMessageAsRead {
            auth: bob.clone(),
            private_message_id: mid,
            read: true,
        })
        .expect("the recipient may mark read");
    assert!(read.private_message_view.read);

    let deleted = e
        .delete_private_message(&DeletePrivateMessage {
            auth: alice.clone(),
            private_message_id: mid,
            deleted: true,
        })
        .expect("the creator may delete");
    assert!(deleted.private_message_view.deleted);
}

#[test]
fn private_message_listing_pages_newest_first() {
    let mut e = fresh_engine();
    let alice = register_ok(&mut e, "alice", None);
    let bob = register_ok(&mut e, "bob", None);
    let bob_id = e.store.persons.iter().find(|p| p.name == "bob").unwrap().id;
    let mut ids = Vec::new();
    for text in ["one", "two", "three"] {
        let resp = e
            .create_private_message(
                &CreatePrivateMessage {
                    auth: alice.clone(),
                    content: text.to_string(),
                    recipient_id: bob_id,
                },
                NOW,
            )
            .expect("message should be created");
        ids.push(resp.private_message_view.id);
    }
    let listed = e
        .get_private_messages(&GetPrivateMessages {
            auth: bob.clone(),
            page: Some(1),
            limit: Some(2),
            unread_only: false,
        })
        .expect("listing should succeed");
    assert_eq!(listed.private_messages.len(), 2);
    assert_eq!(listed.private_messages[0].id, ids[2]);
    assert_eq!(listed.private_messages[1].id, ids[1]);
    let second_page = e
        .get_private_messages(&GetPrivateMessages {
            auth: bob,
            page: Some(2),
            limit: Some(2),
            unread_only: false,
        })
        .expect("listing should succeed");
    assert_eq!(second_page.private_messages.len(), 1);
    assert_eq!(second_page.private_messages[0].id, ids[0]);
}

#[test]
fn mark_all_as_read_is_idempotent() {
    let mut e = fresh_engine();
    let alice = register_ok(&mut e, "alice", None);
    let bob = register_ok(&mut e, "bob", None);
    let alice_id = e.store.persons.iter().find(|p| p.name == "alice").unwrap().id;
    let bob_id = e.store.persons.iter().find(|p| p.name == "bob").unwrap().id;
    // a reply, a mention and a private message for alice
    let cid = e.store.communities[0].id;
    let post = e.store.create_post(bob_id, cid, false).unwrap();
    let comment = e
        .store
        .create_comment(bob_id, post, "a reply".to_string(), Some(alice_id))
        .unwrap();
    e.store.create_mention(alice_id, comment).unwrap();
    e.create_private_message(
        &CreatePrivateMessage {
            auth: bob.clone(),
            content: "ping".to_string(),
            recipient_id: alice_id,
        },
        NOW,
    )
    .expect("message should be created");

    let unread = |e: &mut Engine, auth: &String| {
        let replies = e
            .get_replies(&GetReplies {
                auth: auth.clone(),
                page: None,
                limit: None,
                unread_only: true,
            })
            .unwrap()
            .replies
            .len();
        let mentions = e
            .get_user_mentions(&GetUserMentions {
                auth: auth.clone(),
                page: None,
                limit: None,
                unread_only: true,
            })
            .unwrap()
            .mentions
            .len();
        let pms = e
            .get_private_messages(&GetPrivateMessages {
                auth: auth.clone(),
                page: None,
                limit: None,
                unread_only: true,
            })
            .unwrap()
            .private_messages
            .len();
        replies + mentions + pms
    };
    assert_eq!(unread(&mut e, &alice), 3);
    e.mark_all_as_read(&MarkAllAsRead { auth: alice.clone() }).expect("should mark all read");
    assert_eq!(unread(&mut e, &alice), 0);
    // the second run affects nothing new
    let comments_snapshot: Vec<bool> = e.store.comments.iter().map(|c| c.read).collect();
    e.mark_all_as_read(&MarkAllAsRead { auth: alice.clone() }).expect("should mark all read");
    assert_eq!(unread(&mut e, &alice), 0);
    let comments_after: Vec<bool> = e.store.comments.iter().map(|c| c.read).collect();
    assert_eq!(comments_snapshot, comments_after);
}

#[test]
fn mention_read_flag_is_owner_only() {
    let mut e = fresh_engine();
    let alice = register_ok(&mut e, "alice", None);
    let bob = register_ok(&mut e, "bob", None);
    let alice_id = e.store.persons.iter().find(|p| p.name == "alice").unwrap().id;
    let bob_id = e.store.persons.iter().find(|p| p.name == "bob").unwrap().id;
    let cid = e.store.communities[0].id;
    let post = e.store.create_post(bob_id, cid, false).unwrap();
    let comment = e.store.create_comment(bob_id, post, "hi @alice".to_string(), None).unwrap();
    let mention = e.store.create_mention(alice_id, comment).unwrap();

    let r = e.mark_user_mention_as_read(&MarkUserMentionAsRead {
        auth: bob,
        user_mention_id: mention,
        read: true,
    });
    assert_eq!(r.err().unwrap().code(), "couldnt_update_comment");

    let ok = e
        .mark_user_mention_as_read(&MarkUserMentionAsRead {
            auth: alice,
            user_mention_id: mention,
            read: true,
        })
        .expect("the recipient may mark the mention read");
    assert!(ok.user_mention_view.read);
}

#[test]
fn ban_with_remove_data() {
    // scenario: an admin bans bob and removes his data
    let mut e = fresh_engine();
    let alice = register_ok(&mut e, "alice", None);
    register_ok(&mut e, "bob", None);
    let bob_id = e.store.persons.iter().find(|p| p.name == "bob").unwrap().id;
    let cid = e.store.communities[0].id;
    let post = e.store.create_post(bob_id, cid, false).unwrap();
    e.store.create_comment(bob_id, post, "my comment".to_string(), None).unwrap();

    let resp = e
        .ban_user(&BanUser {
            auth: alice,
            user_id: bob_id,
            ban: true,
            remove_data: true,
            reason: Some("spam".to_string()),
            expires: Some(NOW + 86_400),
        })
        .expect("the admin may ban");
    assert!(resp.banned);
    assert!(resp.person.banned);
    // no key material leaves the server
    assert!(resp.person.private_key.is_none());
    assert!(resp.person.public_key.is_none());
    // bob's content is removed
    assert!(e.store.posts.iter().filter(|p| p.creator_id == bob_id).all(|p| p.removed));
    assert!(e.store.comments.iter().filter(|c| c.creator_id == bob_id).all(|c| c.removed));
    // the audit record exists
    assert!(e.store.mod_log.iter().any(|l| match l {
        ModLogEntry::Ban { other_person_id, banned, .. } => *other_person_id == bob_id && *banned,
        _ => false,
    }));
    // and the ban was broadcast globally
    match e.events.last().unwrap() {
        BusEvent::BanPersonGlobal { person_id, banned } => {
            assert_eq!(*person_id, bob_id);
            assert!(*banned);
        },
        _ => panic!("expected a ban broadcast"),
    }
}

#[test]
fn ban_requires_an_admin() {
    let mut e = fresh_engine();
    register_ok(&mut e, "alice", None);
    let bob = register_ok(&mut e, "bob", None);
    let alice_id = e.store.persons.iter().find(|p| p.name == "alice").unwrap().id;
    let r = e.ban_user(&BanUser {
        auth: bob,
        user_id: alice_id,
        ban: true,
        remove_data: false,
        reason: None,
        expires: None,
    });
    assert_eq!(r.err().unwrap().code(), "not_an_admin");
}

#[test]
fn add_admin_pins_the_creator_first() {
    let mut e = fresh_engine();
    let alice = register_ok(&mut e, "alice", None);
    register_ok(&mut e, "bob", None);
    let bob_id = e.store.persons.iter().find(|p| p.name == "bob").unwrap().id;
    let resp = e
        .add_admin(&AddAdmin { auth: alice, user_id: bob_id, added: true })
        .expect("the admin may promote");
    assert_eq!(resp.admins.len(), 2);
    assert_eq!(resp.admins[0].name, "alice");
    assert!(resp.admins.iter().all(|p| p.private_key.is_none() && p.public_key.is_none()));
    assert!(resp.admins.iter().any(|p| p.name == "bob"));
    // the audit record exists
    assert!(e.store.mod_log.iter().any(|l| match l {
        ModLogEntry::Add { other_person_id, removed, .. } => *other_person_id == bob_id && !removed,
        _ => false,
    }));
}

#[test]
fn password_reset_and_change() {
    let mut e = fresh_engine();
    register_ok(&mut e, "alice", Some("alice@example.com"));
    e.password_reset(&PasswordReset { email: "alice@example.com".to_string() })
        .expect("reset should start");
    let token = e.store.password_resets[0].token.clone();
    let mail = &e.outbox[e.outbox.len() - 1];
    assert_eq!(mail.to, "alice@example.com");
    assert!(mail.body.contains(&token));

    let r = e.password_change(&PasswordChange {
        token: token.clone(),
        password: "newpassword11".to_string(),
        password_verify: "different11".to_string(),
    });
    assert_eq!(r.err().unwrap().code(), "passwords_dont_match");

    e.password_change(&PasswordChange {
        token: token.clone(),
        password: "newpassword11".to_string(),
        password_verify: "newpassword11".to_string(),
    })
    .expect("change should succeed");

    // the token works only once
    let again = e.password_change(&PasswordChange {
        token,
        password: "anotherpass11".to_string(),
        password_verify: "anotherpass11".to_string(),
    });
    assert_eq!(again.err().unwrap().code(), "couldnt_update_user");

    // the new password logs in, the old one does not
    assert!(e
        .login(&Login {
            username_or_email: "alice".to_string(),
            password: "newpassword11".to_string(),
        })
        .is_ok());
    let old = e.login(&Login {
        username_or_email: "alice".to_string(),
        password: "hunter22222".to_string(),
    });
    assert_eq!(old.err().unwrap().code(), "password_incorrect");
}

#[test]
fn password_reset_unknown_email() {
    let mut e = fresh_engine();
    register_ok(&mut e, "alice", None);
    let r = e.password_reset(&PasswordReset { email: "nobody@example.com".to_string() });
    assert_eq!(r.err().unwrap().code(), "couldnt_find_that_username_or_email");
}

fn settings_req(auth: &String) -> SaveUserSettings {
    SaveUserSettings {
        auth: auth.clone(),
        show_nsfw: true,
        theme: "dark".to_string(),
        default_sort_type: 1,
        default_listing_type: 1,
        lang: "en".to_string(),
        avatar: None,
        banner: None,
        preferred_username: None,
        email: None,
        bio: None,
        matrix_user_id: None,
        new_password: None,
        new_password_verify: None,
        old_password: None,
        show_avatars: false,
        send_notifications_to_email: false,
    }
}

#[test]
fn save_settings_updates_profile_and_rejects_bad_input() {
    let mut e = fresh_engine();
    let alice = register_ok(&mut e, "alice", None);

    let mut req = settings_req(&alice);
    req.bio = Some("x".repeat(301));
    assert_eq!(e.save_user_settings(&req).err().unwrap().code(), "bio_length_overflow");

    let mut req = settings_req(&alice);
    req.preferred_username = Some("@me".to_string());
    assert_eq!(e.save_user_settings(&req).err().unwrap().code(), "invalid_username");

    let mut req = settings_req(&alice);
    req.bio = Some("hello there".to_string());
    req.preferred_username = Some("Alice A".to_string());
    let fresh = e.save_user_settings(&req).expect("settings should save");
    assert!(!fresh.jwt.is_empty());
    let (pi, pj) = e.resolve_auth(&fresh.jwt).expect("the new token should resolve");
    assert_eq!(e.store.persons[pi].bio.as_deref(), Some("hello there"));
    assert_eq!(e.store.persons[pi].display_name.as_deref(), Some("Alice A"));
    assert_eq!(e.store.local_users[pj].theme, "dark");
    assert!(e.store.local_users[pj].show_nsfw);
}

#[test]
fn password_change_in_settings_needs_the_old_password() {
    let mut e = fresh_engine();
    let alice = register_ok(&mut e, "alice", None);

    let mut req = settings_req(&alice);
    req.new_password = Some("freshpass111".to_string());
    req.new_password_verify = Some("freshpass111".to_string());
    req.old_password = Some("wrong-old".to_string());
    assert_eq!(e.save_user_settings(&req).err().unwrap().code(), "password_incorrect");

    let mut req = settings_req(&alice);
    req.new_password = Some("freshpass111".to_string());
    req.new_password_verify = Some("freshpass111".to_string());
    req.old_password = Some("hunter22222".to_string());
    e.save_user_settings(&req).expect("the password change should go through");
    assert!(e
        .login(&Login {
            username_or_email: "alice".to_string(),
            password: "freshpass111".to_string(),
        })
        .is_ok());
}

#[test]
fn delete_account_blanks_content() {
    let mut e = fresh_engine();
    let alice = register_ok(&mut e, "alice", None);
    let alice_id = e.store.persons.iter().find(|p| p.name == "alice").unwrap().id;
    let cid = e.store.communities[0].id;
    let post = e.store.create_post(alice_id, cid, false).unwrap();
    e.store.create_comment(alice_id, post, "my words".to_string(), None).unwrap();

    let wrong = e.delete_account(&DeleteAccount {
        auth: alice.clone(),
        password: "not-it".to_string(),
    });
    assert_eq!(wrong.err().unwrap().code(), "password_incorrect");

    e.delete_account(&DeleteAccount { auth: alice, password: "hunter22222".to_string() })
        .expect("deletion should succeed");
    let p = e.store.persons.iter().find(|p| p.id == alice_id).unwrap();
    assert!(p.deleted);
    assert!(e
        .store
        .comments
        .iter()
        .filter(|c| c.creator_id == alice_id)
        .all(|c| c.deleted && c.content == "*Permananently Deleted*"));
    assert!(e.store.posts.iter().filter(|p| p.creator_id == alice_id).all(|p| p.deleted));
}

#[test]
fn user_details_lists_profile_content() {
    let mut e = fresh_engine();
    let alice = register_ok(&mut e, "alice", None);
    let alice_id = e.store.persons.iter().find(|p| p.name == "alice").unwrap().id;
    let cid = e.store.communities[0].id;
    let mut post_ids = Vec::new();
    for _ in 0..3 {
        post_ids.push(e.store.create_post(alice_id, cid, false).unwrap());
    }
    // an nsfw post is hidden from anonymous viewers
    let nsfw_post = e.store.create_post(alice_id, cid, true).unwrap();

    let anon = e
        .get_user_details(&GetUserDetails {
            auth: None,
            user_id: None,
            username: Some("alice".to_string()),
            page: Some(1),
            limit: Some(2),
            community_id: None,
        })
        .expect("the profile should resolve");
    assert_eq!(anon.person.name, "alice");
    assert!(anon.person.private_key.is_none());
    assert!(anon.person.public_key.is_none());
    assert_eq!(anon.posts.len(), 2);
    // newest first, nsfw filtered out
    assert_eq!(anon.posts[0].id, post_ids[2]);
    assert_eq!(anon.posts[1].id, post_ids[1]);
    assert!(anon.follows.is_empty());

    // alice sees her own follows, and her nsfw post once opted in
    let mut req = settings_req(&alice);
    req.show_nsfw = true;
    let alice = e.save_user_settings(&req).expect("settings should save").jwt;
    let own = e
        .get_user_details(&GetUserDetails {
            auth: Some(alice),
            user_id: Some(alice_id),
            username: None,
            page: Some(1),
            limit: Some(10),
            community_id: None,
        })
        .expect("the profile should resolve");
    assert_eq!(own.follows.len(), 1);
    assert_eq!(own.posts.len(), 4);
    assert_eq!(own.posts[0].id, nsfw_post);

    let missing = e.get_user_details(&GetUserDetails {
        auth: None,
        user_id: None,
        username: Some("nobody".to_string()),
        page: None,
        limit: None,
        community_id: None,
    });
    assert_eq!(missing.err().unwrap().code(), "couldnt_find_that_username_or_email");
}

#[test]
fn report_counts_are_scoped_to_moderated_communities() {
    let mut e = fresh_engine();
    let alice = register_ok(&mut e, "alice", None);
    let bob = register_ok(&mut e, "bob", None);
    let cid = e.store.communities[0].id;
    e.store.create_comment_report(cid).unwrap();
    e.store.create_post_report(cid).unwrap();
    e.store.create_post_report(cid + 1000).unwrap();

    // alice moderates the default community
    let counted = e
        .get_report_count(&GetReportCount { auth: alice, community: None })
        .expect("the count should succeed");
    assert_eq!(counted.comment_reports, 1);
    assert_eq!(counted.post_reports, 1);

    // bob moderates nothing
    let none = e
        .get_report_count(&GetReportCount { auth: bob.clone(), community: None })
        .expect("the count should succeed");
    assert_eq!(none.comment_reports, 0);
    assert_eq!(none.post_reports, 0);

    // an explicit community scopes the count to it
    let scoped = e
        .get_report_count(&GetReportCount { auth: bob, community: Some(cid) })
        .expect("the count should succeed");
    assert_eq!(scoped.comment_reports, 1);
    assert_eq!(scoped.post_reports, 1);
    assert_eq!(scoped.community, Some(cid));
}

#[test]
fn requests_without_a_token_are_rejected() {
    let mut e = fresh_engine();
    register_ok(&mut e, "alice", None);
    let r = e.get_replies(&GetReplies {
        auth: "no-such-token".to_string(),
        page: None,
        limit: None,
        unread_only: false,
    });
    assert_eq!(r.err().unwrap().code(), "not_logged_in");
}

#[test]
fn error_codes_are_verbatim() {
    assert_eq!(ApiError::CouldntFindThatUsernameOrEmail.code(), "couldnt_find_that_username_or_email");
    assert_eq!(ApiError::PasswordIncorrect.code(), "password_incorrect");
    assert_eq!(ApiError::RegistrationClosed.code(), "registration_closed");
    assert_eq!(ApiError::PasswordsDontMatch.code(), "passwords_dont_match");
    assert_eq!(ApiError::CaptchaIncorrect.code(), "captcha_incorrect");
    assert_eq!(ApiError::InvalidUsername.code(), "invalid_username");
    assert_eq!(ApiError::UserAlreadyExists.code(), "user_already_exists");
    assert_eq!(ApiError::EmailAlreadyExists.code(), "email_already_exists");
    assert_eq!(ApiError::CommunityFollowerAlreadyExists.code(), "community_follower_already_exists");
    assert_eq!(ApiError::CommunityModeratorAlreadyExists.code(), "community_moderator_already_exists");
    assert_eq!(ApiError::BioLengthOverflow.code(), "bio_length_overflow");
    assert_eq!(ApiError::CouldntUpdateUser.code(), "couldnt_update_user");
    assert_eq!(ApiError::CouldntUpdateComment.code(), "couldnt_update_comment");
    assert_eq!(ApiError::CouldntUpdatePrivateMessage.code(), "couldnt_update_private_message");
    assert_eq!(ApiError::NoPrivateMessageEditAllowed.code(), "no_private_message_edit_allowed");
    assert_eq!(ApiError::CouldntCreatePrivateMessage.code(), "couldnt_create_private_message");
    assert_eq!(ApiError::CouldntUpdatePost.code(), "couldnt_update_post");
}

#[test]
fn word_filter_masks_every_occurrence() {
    let words = vec!["darn".to_string(), "heck".to_string()];
    let out = account_core::validate::filter_forbidden_words("darn the heckdarn heck", &words);
    assert_eq!(out, "**** the ******** ****");
    assert!(account_core::validate::contains_forbidden_word("a darn thing", &words));
    assert!(!account_core::validate::contains_forbidden_word("all fine here", &words));
}

#[test]
fn pagination_defaults_and_saturation() {
    assert_eq!(account_core::limit_and_offset(None, None), (0, 10));
    assert_eq!(account_core::limit_and_offset(Some(3), Some(5)), (10, 5));
    assert_eq!(account_core::limit_and_offset(Some(0), Some(5)), (0, 5));
    assert_eq!(account_core::limit_and_offset(Some(u64::MAX), Some(u64::MAX)), (u64::MAX, u64::MAX));
}

#[test]
fn decimal_rendering_is_exact() {
    assert_eq!(account_core::apub::u64_to_dec(0), "0");
    assert_eq!(account_core::apub::u64_to_dec(907), "907");
    assert_eq!(account_core::apub::u64_to_dec(u64::MAX), "18446744073709551615");
}
