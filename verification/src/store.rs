use vstd::prelude::*;

use crate::entities::{
    Comment, CommentReport, Community, CommunityFollower, CommunityModerator, LocalUser, Mention,
    ModLogEntry, PasswordResetRequest, Person, Post, PostReport, PrivateMessage,
};
use crate::error::ApiError;

verus! {

/// The transactional store of the command core, modeled in memory. Each
/// method is atomic at the single-entity level; multi-step workflows above it
/// get no cross-entity transaction, exactly as the handlers assume.
pub struct Store {
    pub persons: Vec<Person>,
    pub local_users: Vec<LocalUser>,
    pub communities: Vec<Community>,
    pub followers: Vec<CommunityFollower>,
    pub moderators: Vec<CommunityModerator>,
    pub posts: Vec<Post>,
    pub comments: Vec<Comment>,
    pub mentions: Vec<Mention>,
    pub private_messages: Vec<PrivateMessage>,
    pub mod_log: Vec<ModLogEntry>,
    pub password_resets: Vec<PasswordResetRequest>,
    pub comment_reports: Vec<CommentReport>,
    pub post_reports: Vec<PostReport>,
    pub next_id: u64,
}

/// The mathematical contents of the store.
#[verifier::ext_equal]
pub struct StoreContents {
    pub persons: Seq<Person>,
    pub local_users: Seq<LocalUser>,
    pub communities: Seq<Community>,
    pub followers: Seq<CommunityFollower>,
    pub moderators: Seq<CommunityModerator>,
    pub posts: Seq<Post>,
    pub comments: Seq<Comment>,
    pub mentions: Seq<Mention>,
    pub private_messages: Seq<PrivateMessage>,
    pub mod_log: Seq<ModLogEntry>,
    pub password_resets: Seq<PasswordResetRequest>,
    pub comment_reports: Seq<CommentReport>,
    pub post_reports: Seq<PostReport>,
    pub next_id: u64,
}

impl View for Store {
    type V = StoreContents;

    open spec fn view(&self) -> StoreContents {
        StoreContents {
            persons: self.persons@,
            local_users: self.local_users@,
            communities: self.communities@,
            followers: self.followers@,
            moderators: self.moderators@,
            posts: self.posts@,
            comments: self.comments@,
            mentions: self.mentions@,
            private_messages: self.private_messages@,
            mod_log: self.mod_log@,
            password_resets: self.password_resets@,
            comment_reports: self.comment_reports@,
            post_reports: self.post_reports@,
            next_id: self.next_id,
        }
    }
}

pub open spec fn has_person(ps: Seq<Person>, id: u64) -> bool {
    exists|i: int| 0 <= i < ps.len() && #[trigger] ps[i].id == id
}

pub open spec fn has_person_named(ps: Seq<Person>, name: Seq<char>) -> bool {
    exists|i: int| 0 <= i < ps.len() && #[trigger] ps[i].name@ == name
}

pub open spec fn has_local_user_for(ls: Seq<LocalUser>, person_id: u64) -> bool {
    exists|j: int| 0 <= j < ls.len() && #[trigger] ls[j].person_id == person_id
}

/// Some other row than `exclude` already uses this email.
pub open spec fn email_taken_except(ls: Seq<LocalUser>, email: Seq<char>, exclude: int) -> bool {
    exists|j: int|
        0 <= j < ls.len() && j != exclude && #[trigger] ls[j].email is Some
            && ls[j].email->0@ == email
}

pub open spec fn has_follower(fs: Seq<CommunityFollower>, community_id: u64, person_id: u64) -> bool {
    exists|i: int|
        0 <= i < fs.len() && (#[trigger] fs[i]).community_id == community_id && fs[i].person_id
            == person_id
}

pub open spec fn has_moderator(ms: Seq<CommunityModerator>, community_id: u64, person_id: u64) -> bool {
    exists|i: int|
        0 <= i < ms.len() && (#[trigger] ms[i]).community_id == community_id && ms[i].person_id
            == person_id
}

pub open spec fn has_community_named(cs: Seq<Community>, name: Seq<char>) -> bool {
    exists|i: int| 0 <= i < cs.len() && #[trigger] cs[i].name@ == name
}

/// Well-formedness of the store contents: identifiers are unique per table
/// and below the id counter, person names and local-user emails are unique,
/// persons and local users pair one to one, and a local user never exists
/// without a backing person.
pub open spec fn contents_inv(v: StoreContents) -> bool {
        &&& forall|i: int, j: int|
            0 <= i < j < v.persons.len() ==> (#[trigger] v.persons[i]).id != (
            #[trigger] v.persons[j]).id
        &&& forall|i: int, j: int|
            0 <= i < j < v.persons.len() ==> (#[trigger] v.persons[i]).name@ != (
            #[trigger] v.persons[j]).name@
        &&& forall|i: int| 0 <= i < v.persons.len() ==> (#[trigger] v.persons[i]).id < v.next_id
        &&& forall|i: int, j: int|
            0 <= i < j < v.local_users.len() ==> (#[trigger] v.local_users[i]).id != (
            #[trigger] v.local_users[j]).id
        &&& forall|i: int, j: int|
            0 <= i < j < v.local_users.len() ==> (#[trigger] v.local_users[i]).person_id != (
            #[trigger] v.local_users[j]).person_id
        &&& forall|i: int, j: int|
            0 <= i < j < v.local_users.len() && (#[trigger] v.local_users[i]).email is Some && (
            #[trigger] v.local_users[j]).email is Some ==> v.local_users[i].email->0@
                != v.local_users[j].email->0@
        &&& forall|i: int|
            0 <= i < v.local_users.len() ==> (#[trigger] v.local_users[i]).id < v.next_id
        &&& forall|i: int|
            0 <= i < v.local_users.len() ==> has_person(
                v.persons,
                (#[trigger] v.local_users[i]).person_id,
            )
        &&& forall|i: int, j: int|
            0 <= i < j < v.communities.len() ==> (#[trigger] v.communities[i]).id != (
            #[trigger] v.communities[j]).id
        &&& forall|i: int|
            0 <= i < v.communities.len() ==> (#[trigger] v.communities[i]).id < v.next_id
        &&& forall|i: int, j: int|
            0 <= i < j < v.posts.len() ==> (#[trigger] v.posts[i]).id != (#[trigger] v.posts[j]).id
        &&& forall|i: int| 0 <= i < v.posts.len() ==> (#[trigger] v.posts[i]).id < v.next_id
        &&& forall|i: int, j: int|
            0 <= i < j < v.comments.len() ==> (#[trigger] v.comments[i]).id != (
            #[trigger] v.comments[j]).id
        &&& forall|i: int| 0 <= i < v.comments.len() ==> (#[trigger] v.comments[i]).id < v.next_id
        &&& forall|i: int, j: int|
            0 <= i < j < v.mentions.len() ==> (#[trigger] v.mentions[i]).id != (
            #[trigger] v.mentions[j]).id
        &&& forall|i: int| 0 <= i < v.mentions.len() ==> (#[trigger] v.mentions[i]).id < v.next_id
        &&& forall|i: int, j: int|
            0 <= i < j < v.private_messages.len() ==> (#[trigger] v.private_messages[i]).id != (
            #[trigger] v.private_messages[j]).id
    &&& forall|i: int|
        0 <= i < v.private_messages.len() ==> (#[trigger] v.private_messages[i]).id < v.next_id
    &&& forall|i: int|
        0 <= i < v.followers.len() ==> (#[trigger] v.followers[i]).person_id < v.next_id
    &&& forall|i: int|
        0 <= i < v.moderators.len() ==> (#[trigger] v.moderators[i]).person_id < v.next_id
}

/// The invariant-preserving frame: a store whose invariant-bearing tables are
/// unchanged and whose id counter has not gone down keeps the invariant.
pub proof fn lemma_inv_frame(a: StoreContents, b: StoreContents)
    requires
        contents_inv(a),
        b.persons == a.persons,
        b.local_users == a.local_users,
        b.communities == a.communities,
        b.posts == a.posts,
        b.comments == a.comments,
        b.mentions == a.mentions,
        b.private_messages == a.private_messages,
        b.followers == a.followers,
        b.moderators == a.moderators,
        a.next_id <= b.next_id,
    ensures
        contents_inv(b),
{
}

/// Appending a subscription whose person is below the id counter keeps the
/// invariant.
pub proof fn lemma_inv_push_follower(a: StoreContents, b: StoreContents)
    requires
        contents_inv(a),
        b.persons == a.persons,
        b.local_users == a.local_users,
        b.communities == a.communities,
        b.posts == a.posts,
        b.comments == a.comments,
        b.mentions == a.mentions,
        b.private_messages == a.private_messages,
        b.moderators == a.moderators,
        a.next_id <= b.next_id,
        b.followers.len() == a.followers.len() + 1,
        forall|t: int| 0 <= t < a.followers.len() ==> #[trigger] b.followers[t] == a.followers[t],
        b.followers.last().person_id < b.next_id,
    ensures
        contents_inv(b),
{
}

/// Appending a moderator whose person is below the id counter keeps the
/// invariant.
pub proof fn lemma_inv_push_moderator(a: StoreContents, b: StoreContents)
    requires
        contents_inv(a),
        b.persons == a.persons,
        b.local_users == a.local_users,
        b.communities == a.communities,
        b.posts == a.posts,
        b.comments == a.comments,
        b.mentions == a.mentions,
        b.private_messages == a.private_messages,
        b.followers == a.followers,
        a.next_id <= b.next_id,
        b.moderators.len() == a.moderators.len() + 1,
        forall|t: int| 0 <= t < a.moderators.len() ==> #[trigger] b.moderators[t] == a.moderators[t],
        b.moderators.last().person_id < b.next_id,
    ensures
        contents_inv(b),
{
}

/// Appending a row with a fresh id to an id-keyed table keeps the invariant.
/// One lemma per table; `last` is the appended row's index.
pub proof fn lemma_inv_push_post(a: StoreContents, b: StoreContents)
    requires
        contents_inv(a),
        b.persons == a.persons,
        b.local_users == a.local_users,
        b.communities == a.communities,
        b.comments == a.comments,
        b.mentions == a.mentions,
        b.private_messages == a.private_messages,
        b.followers == a.followers,
        b.moderators == a.moderators,
        a.next_id <= b.next_id,
        b.posts.len() == a.posts.len() + 1,
        forall|t: int| 0 <= t < a.posts.len() ==> #[trigger] b.posts[t] == a.posts[t],
        b.posts.last().id < b.next_id,
        forall|t: int| 0 <= t < a.posts.len() ==> (#[trigger] a.posts[t]).id < b.posts.last().id,
    ensures
        contents_inv(b),
{
}

pub proof fn lemma_inv_push_comment(a: StoreContents, b: StoreContents)
    requires
        contents_inv(a),
        b.persons == a.persons,
        b.local_users == a.local_users,
        b.communities == a.communities,
        b.posts == a.posts,
        b.mentions == a.mentions,
        b.private_messages == a.private_messages,
        b.followers == a.followers,
        b.moderators == a.moderators,
        a.next_id <= b.next_id,
        b.comments.len() == a.comments.len() + 1,
        forall|t: int| 0 <= t < a.comments.len() ==> #[trigger] b.comments[t] == a.comments[t],
        b.comments.last().id < b.next_id,
        forall|t: int|
            0 <= t < a.comments.len() ==> (#[trigger] a.comments[t]).id < b.comments.last().id,
    ensures
        contents_inv(b),
{
}

pub proof fn lemma_inv_push_mention(a: StoreContents, b: StoreContents)
    requires
        contents_inv(a),
        b.persons == a.persons,
        b.local_users == a.local_users,
        b.communities == a.communities,
        b.posts == a.posts,
        b.comments == a.comments,
        b.private_messages == a.private_messages,
        b.followers == a.followers,
        b.moderators == a.moderators,
        a.next_id <= b.next_id,
        b.mentions.len() == a.mentions.len() + 1,
        forall|t: int| 0 <= t < a.mentions.len() ==> #[trigger] b.mentions[t] == a.mentions[t],
        b.mentions.last().id < b.next_id,
        forall|t: int|
            0 <= t < a.mentions.len() ==> (#[trigger] a.mentions[t]).id < b.mentions.last().id,
    ensures
        contents_inv(b),
{
}

impl Store {
    /// Well-formedness of the store; see [`contents_inv`].
    pub open spec fn inv(self) -> bool {
        contents_inv(self@)
    }

    /// An empty store, ready for the first registration.
    pub fn new() -> (r: Store)
        ensures
            r.inv(),
            r@.persons =~= Seq::<Person>::empty(),
            r@.local_users =~= Seq::<LocalUser>::empty(),
            r@.communities =~= Seq::<Community>::empty(),
            r@.followers =~= Seq::<CommunityFollower>::empty(),
            r@.moderators =~= Seq::<CommunityModerator>::empty(),
            r@.posts =~= Seq::<Post>::empty(),
            r@.comments =~= Seq::<Comment>::empty(),
            r@.mentions =~= Seq::<Mention>::empty(),
            r@.private_messages =~= Seq::<PrivateMessage>::empty(),
            r@.mod_log =~= Seq::<ModLogEntry>::empty(),
            r@.password_resets =~= Seq::<PasswordResetRequest>::empty(),
            r@.comment_reports =~= Seq::<CommentReport>::empty(),
            r@.post_reports =~= Seq::<PostReport>::empty(),
            r@.next_id == 0,
    {
        Store {
            persons: Vec::new(),
            local_users: Vec::new(),
            communities: Vec::new(),
            followers: Vec::new(),
            moderators: Vec::new(),
            posts: Vec::new(),
            comments: Vec::new(),
            mentions: Vec::new(),
            private_messages: Vec::new(),
            mod_log: Vec::new(),
            password_resets: Vec::new(),
            comment_reports: Vec::new(),
            post_reports: Vec::new(),
            next_id: 0,
        }
    }

    /// Draws a fresh identifier from the counter. `None` only when the id
    /// space is exhausted.
    pub fn fresh_id(&mut self) -> (r: Option<u64>)
        ensures
            match r {
                Some(id) => id == old(self)@.next_id && old(self)@.next_id < u64::MAX
                    && final(self)@ =~= (StoreContents {
                    next_id: (old(self)@.next_id + 1) as u64,
                    ..old(self)@
                }),
                None => final(self)@ =~= old(self)@ && old(self)@.next_id == u64::MAX,
            },
            old(self).inv() ==> final(self).inv(),
    {
        if self.next_id == u64::MAX {
            None
        } else {
            let id = self.next_id;
            self.next_id = self.next_id + 1;
            Some(id)
        }
    }

    /// Index of the person with this id, if any.
    pub fn find_person_by_id(&self, id: u64) -> (r: Option<usize>)
        ensures
            match r {
                Some(i) => 0 <= i < self@.persons.len() && self@.persons[i as int].id == id,
                None => !has_person(self@.persons, id),
            },
    {
        let mut i: usize = 0;
        while i < self.persons.len()
            invariant
                i <= self@.persons.len(),
                forall|j: int| 0 <= j < i ==> (#[trigger] self@.persons[j]).id != id,
            decreases self@.persons.len() - i,
        {
            if self.persons[i].id == id {
                return Some(i);
            }
            i += 1;
        }
        None
    }

    /// Index of the person with this name, if any.
    pub fn find_person_by_name(&self, name: &String) -> (r: Option<usize>)
        ensures
            match r {
                Some(i) => 0 <= i < self@.persons.len() && self@.persons[i as int].name@ == name@,
                None => !has_person_named(self@.persons, name@),
            },
    {
        let mut i: usize = 0;
        while i < self.persons.len()
            invariant
                i <= self@.persons.len(),
                forall|j: int| 0 <= j < i ==> (#[trigger] self@.persons[j]).name@ != name@,
            decreases self@.persons.len() - i,
        {
            if self.persons[i].name.eq(name) {
                return Some(i);
            }
            i += 1;
        }
        None
    }

    /// Index of the local user backing this person, if any.
    pub fn find_local_user_by_person(&self, person_id: u64) -> (r: Option<usize>)
        ensures
            match r {
                Some(j) => 0 <= j < self@.local_users.len() && self@.local_users[j as int].person_id
                    == person_id,
                None => !has_local_user_for(self@.local_users, person_id),
            },
    {
        let mut j: usize = 0;
        while j < self.local_users.len()
            invariant
                j <= self@.local_users.len(),
                forall|t: int|
                    0 <= t < j ==> (#[trigger] self@.local_users[t]).person_id != person_id,
            decreases self@.local_users.len() - j,
        {
            if self.local_users[j].person_id == person_id {
                return Some(j);
            }
            j += 1;
        }
        None
    }

    /// Index of the local user with this row id, if any.
    pub fn find_local_user_by_id(&self, id: u64) -> (r: Option<usize>)
        ensures
            match r {
                Some(j) => 0 <= j < self@.local_users.len() && self@.local_users[j as int].id == id,
                None => forall|t: int|
                    0 <= t < self@.local_users.len() ==> (#[trigger] self@.local_users[t]).id
                        != id,
            },
    {
        let mut j: usize = 0;
        while j < self.local_users.len()
            invariant
                j <= self@.local_users.len(),
                forall|t: int| 0 <= t < j ==> (#[trigger] self@.local_users[t]).id != id,
            decreases self@.local_users.len() - j,
        {
            if self.local_users[j].id == id {
                return Some(j);
            }
            j += 1;
        }
        None
    }

    /// Index of the local user registered under this email, if any.
    pub fn find_local_user_by_email(&self, email: &String) -> (r: Option<usize>)
        ensures
            match r {
                Some(j) => 0 <= j < self@.local_users.len() && self@.local_users[j as int].email
                    is Some && self@.local_users[j as int].email->0@ == email@,
                None => !email_taken_except(self@.local_users, email@, -1),
            },
    {
        let mut j: usize = 0;
        while j < self.local_users.len()
            invariant
                j <= self@.local_users.len(),
                forall|t: int|
                    0 <= t < j ==> !((#[trigger] self@.local_users[t]).email is Some
                        && self@.local_users[t].email->0@ == email@),
            decreases self@.local_users.len() - j,
        {
            match &self.local_users[j].email {
                Some(e) => {
                    if e.eq(email) {
                        return Some(j);
                    }
                },
                None => {},
            }
            j += 1;
        }
        None
    }

    /// Index of the community with this name, if any.
    pub fn find_community_by_name(&self, name: &String) -> (r: Option<usize>)
        ensures
            match r {
                Some(i) => 0 <= i < self@.communities.len() && self@.communities[i as int].name@
                    == name@,
                None => !has_community_named(self@.communities, name@),
            },
    {
        let mut i: usize = 0;
        while i < self.communities.len()
            invariant
                i <= self@.communities.len(),
                forall|j: int| 0 <= j < i ==> (#[trigger] self@.communities[j]).name@ != name@,
            decreases self@.communities.len() - i,
        {
            if self.communities[i].name.eq(name) {
                return Some(i);
            }
            i += 1;
        }
        None
    }

    /// Creates a person row. Fails exactly when the name is taken.
    pub fn insert_person(&mut self, p: Person) -> (r: Result<(), ApiError>)
        requires
            old(self).inv(),
            forall|i: int| 0 <= i < old(self)@.persons.len() ==> (#[trigger] old(self)@.persons[i]).id < p.id,
            p.id < old(self)@.next_id,
        ensures
            final(self).inv(),
            match r {
                Ok(()) => !has_person_named(old(self)@.persons, p.name@) && final(self)@ =~= (
                StoreContents { persons: old(self)@.persons.push(p), ..old(self)@ }),
                Err(e) => has_person_named(old(self)@.persons, p.name@) && e
                    == ApiError::UserAlreadyExists && final(self)@ =~= old(self)@,
            },
    {
        if self.find_person_by_name(&p.name).is_some() {
            return Err(ApiError::UserAlreadyExists);
        }
        proof {
            assert forall|i: int|
                0 <= i < self@.local_users.len() implies has_person(
                self@.persons.push(p),
                (#[trigger] self@.local_users[i]).person_id,
            ) by {
                let ps = self@.persons;
                let k = choose|k: int|
                    0 <= k < ps.len() && #[trigger] ps[k].id == self@.local_users[i].person_id;
                assert(ps.push(p)[k].id == self@.local_users[i].person_id);
            }
        }
        self.persons.push(p);
        Ok(())
    }

    /// Overwrites the person at `i`, keeping its identity (id and name).
    pub fn update_person_at(&mut self, i: usize, p: Person)
        requires
            old(self).inv(),
            i < old(self)@.persons.len(),
            p.id == old(self)@.persons[i as int].id,
            p.name@ == old(self)@.persons[i as int].name@,
        ensures
            final(self).inv(),
            final(self)@ =~= (StoreContents {
                persons: old(self)@.persons.update(i as int, p),
                ..old(self)@
            }),
    {
        proof {
            let ps = self@.persons;
            assert forall|t: int|
                0 <= t < self@.local_users.len() implies has_person(
                ps.update(i as int, p),
                (#[trigger] self@.local_users[t]).person_id,
            ) by {
                let pid = self@.local_users[t].person_id;
                let k = choose|k: int| 0 <= k < ps.len() && #[trigger] ps[k].id == pid;
                assert(ps.update(i as int, p)[k].id == pid);
            }
        }
        self.persons.set(i, p);
    }

    /// Deletes the person with this id (compensation step of registration).
    /// Requires that no local user still references it.
    #[verifier::rlimit(50)]
    pub fn delete_person(&mut self, id: u64)
        requires
            old(self).inv(),
            !has_local_user_for(old(self)@.local_users, id),
        ensures
            final(self).inv(),
            final(self)@ =~= (StoreContents { persons: final(self)@.persons, ..old(self)@ }),
            !has_person(old(self)@.persons, id) ==> final(self)@.persons =~= old(self)@.persons,
            has_person(old(self)@.persons, id) ==> exists|k: int|
                0 <= k < old(self)@.persons.len() && (#[trigger] old(self)@.persons[k]).id == id
                    && final(self)@.persons =~= old(self)@.persons.remove(k),
            !has_person(final(self)@.persons, id),
    {
        let found = self.find_person_by_id(id);
        match found {
            Some(i) => {
                proof {
                    let ps = self@.persons;
                    let removed = ps.remove(i as int);
                    assert(forall|t: int|
                        0 <= t < removed.len() ==> #[trigger] removed[t] == (if t < i {
                            ps[t]
                        } else {
                            ps[t + 1]
                        }));
                    assert forall|t: int|
                        0 <= t < self@.local_users.len() implies has_person(
                        removed,
                        (#[trigger] self@.local_users[t]).person_id,
                    ) by {
                        let pid = self@.local_users[t].person_id;
                        let k = choose|k: int| 0 <= k < ps.len() && #[trigger] ps[k].id == pid;
                        assert(pid != id);
                        if k < i {
                            assert(removed[k].id == pid);
                        } else {
                            assert(k != i);
                            assert(removed[k - 1].id == pid);
                        }
                    }
                    assert forall|t: int| 0 <= t < removed.len() implies (#[trigger] removed[t]).id
                        != id by {
                        if t < i {
                            assert(removed[t] == ps[t]);
                        } else {
                            assert(removed[t] == ps[t + 1]);
                        }
                    }
                }
                self.persons.remove(i);
                proof {
                    assert(self@.local_users == old(self)@.local_users);
                    assert(self@.communities == old(self)@.communities);
                    assert(self@.posts == old(self)@.posts);
                    assert(self@.comments == old(self)@.comments);
                    assert(self@.mentions == old(self)@.mentions);
                    assert(self@.private_messages == old(self)@.private_messages);
                    assert(self@.next_id == old(self)@.next_id);
                    assert(0 <= i < old(self)@.persons.len() && old(self)@.persons[i as int].id
                        == id && self@.persons =~= old(self)@.persons.remove(i as int));
                }
            },
            None => {},
        }
    }

    /// Creates a local user row. Fails with `EmailAlreadyExists` when the
    /// email is taken, and with `UserAlreadyExists` when the person already
    /// has a local user.
    pub fn insert_local_user(&mut self, lu: LocalUser) -> (r: Result<(), ApiError>)
        requires
            old(self).inv(),
            forall|i: int|
                0 <= i < old(self)@.local_users.len() ==> (#[trigger] old(
                    self,
                )@.local_users[i]).id < lu.id,
            lu.id < old(self)@.next_id,
            has_person(old(self)@.persons, lu.person_id),
        ensures
            final(self).inv(),
            match r {
                Ok(()) => {
                    &&& !(lu.email is Some && email_taken_except(
                        old(self)@.local_users,
                        lu.email->0@,
                        -1,
                    ))
                    &&& !has_local_user_for(old(self)@.local_users, lu.person_id)
                    &&& final(self)@ =~= (StoreContents {
                        local_users: old(self)@.local_users.push(lu),
                        ..old(self)@
                    })
                },
                Err(e) => {
                    &&& final(self)@ =~= old(self)@
                    &&& (e == ApiError::EmailAlreadyExists || e == ApiError::UserAlreadyExists)
                    &&& (e == ApiError::EmailAlreadyExists <==> (lu.email is Some
                        && email_taken_except(old(self)@.local_users, lu.email->0@, -1)))
                    &&& (e == ApiError::UserAlreadyExists ==> has_local_user_for(
                        old(self)@.local_users,
                        lu.person_id,
                    ))
                },
            },
    {
        match &lu.email {
            Some(e) => {
                let e2 = e.clone();
                if self.find_local_user_by_email(&e2).is_some() {
                    return Err(ApiError::EmailAlreadyExists);
                }
            },
            None => {},
        }
        if self.find_local_user_by_person(lu.person_id).is_some() {
            return Err(ApiError::UserAlreadyExists);
        }
        self.local_users.push(lu);
        Ok(())
    }

    /// Overwrites the local user at `j`, keeping its id and person, with the
    /// email either unchanged or free.
    pub fn update_local_user_at(&mut self, j: usize, lu: LocalUser)
        requires
            old(self).inv(),
            j < old(self)@.local_users.len(),
            lu.id == old(self)@.local_users[j as int].id,
            lu.person_id == old(self)@.local_users[j as int].person_id,
            lu.email is Some ==> !email_taken_except(
                old(self)@.local_users,
                lu.email->0@,
                j as int,
            ),
        ensures
            final(self).inv(),
            final(self)@ =~= (StoreContents {
                local_users: old(self)@.local_users.update(j as int, lu),
                ..old(self)@
            }),
    {
        self.local_users.set(j, lu);
    }
}

} // verus!
