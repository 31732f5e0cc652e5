use vstd::prelude::*;

use crate::models::User;
use crate::models::UserRecord;

verus! {

/// Some record in `users` carries the e-mail address `email`.
pub open spec fn has_email(users: Seq<UserRecord>, email: Seq<char>) -> bool {
    exists|i: int| 0 <= i < users.len() && users[i].email@ == email
}

/// Some record in `users` carries the identifier `id`.
pub open spec fn has_id(users: Seq<UserRecord>, id: Seq<char>) -> bool {
    exists|i: int| 0 <= i < users.len() && users[i].id@ == id
}

/// No two records share an e-mail address.
pub open spec fn emails_unique(users: Seq<UserRecord>) -> bool {
    forall|i: int, j: int| 0 <= i < j < users.len() ==> users[i].email@ != users[j].email@
}

/// The outward view of one record: id, name and e-mail; never the
/// password hash.
pub open spec fn public_view(rec: UserRecord) -> User {
    User { id: rec.id, name: rec.name, email: rec.email }
}

/// The store's answer when a record's e-mail address is already taken.
#[derive(Debug)]
pub enum InsertError {
    DuplicateEmail,
}

/// An in-memory users table: records in insertion order, with e-mail
/// uniqueness enforced by the store itself — an insert and its duplicate
/// check are one atomic step, so of two inserts of the same address
/// exactly one can succeed. Identifier uniqueness is not the store's
/// own invariant: it rests on the registrar drawing each record's id as
/// a fresh random 128-bit UUID, never on a check here.
pub struct UserStore {
    users: Vec<UserRecord>,
}

impl View for UserStore {
    type V = Seq<UserRecord>;

    closed spec fn view(&self) -> Seq<UserRecord> {
        self.users@
    }
}

impl UserStore {
    /// E-mail uniqueness: the store's standing invariant.
    pub open spec fn wf(&self) -> bool {
        emails_unique(self@)
    }

    /// An empty store.
    pub fn new() -> (s: Self)
        ensures
            s@ == Seq::<UserRecord>::empty(),
            s.wf(),
    {
        UserStore { users: Vec::new() }
    }

    /// The number of stored records.
    pub fn len(&self) -> (n: usize)
        ensures
            n == self@.len(),
    {
        self.users.len()
    }

    /// The position of the record carrying `email`, if any.
    fn index_of_email(&self, email: &String) -> (r: Option<usize>)
        ensures
            r matches Some(i) ==> i < self@.len() && self@[i as int].email@ == email@,
            r is None ==> !has_email(self@, email@),
    {
        let n = self.users.len();
        let mut i: usize = 0;
        while i < n
            invariant
                n == self@.len(),
                i <= n,
                forall|j: int| 0 <= j < i ==> self@[j].email@ != email@,
            decreases n - i,
        {
            if self.users[i].email == *email {
                return Some(i);
            }
            i = i + 1;
        }
        None
    }

    /// Inserts `rec` unless its e-mail address is already taken. Success
    /// exactly when the address was free; on a duplicate the store is
    /// unchanged and the conflict is reported as its own error kind.
    pub fn insert(&mut self, rec: UserRecord) -> (r: Result<(), InsertError>)
        requires
            old(self).wf(),
        ensures
            final(self).wf(),
            r is Ok <==> !has_email(old(self)@, rec.email@),
            r is Ok ==> final(self)@ == old(self)@.push(rec),
            r is Err ==> final(self)@ == old(self)@ && r == Err::<(), InsertError>(InsertError::DuplicateEmail),
    {
        match self.index_of_email(&rec.email) {
            Some(i) => {
                proof {
                    assert(has_email(self@, rec.email@));
                }
                Err(InsertError::DuplicateEmail)
            },
            None => {
                proof {
                    let pushed = self@.push(rec);
                    assert forall|i: int, j: int| 0 <= i < j < pushed.len() implies pushed[i].email@ != pushed[j].email@ by {
                        if j < self@.len() {
                            assert(self@[i].email@ != self@[j].email@);
                        } else {
                            assert(pushed[j] == rec);
                            assert(!(self@[i].email@ == rec.email@));
                        }
                    }
                }
                self.users.push(rec);
                Ok(())
            },
        }
    }

    /// Looks a record up by e-mail address: the record itself, hash
    /// included, for the credential engine's own use.
    pub fn find_by_email<'a>(&'a self, email: &String) -> (r: Option<&'a UserRecord>)
        ensures
            r matches Some(u) ==> exists|i: int|
                0 <= i < self@.len() && self@[i] == *u && (#[trigger] self@[i].email@) == email@,
            r is None ==> !has_email(self@, email@),
    {
        match self.index_of_email(email) {
            Some(i) => Some(&self.users[i]),
            None => None,
        }
    }

    /// Every stored record's outward view, in insertion order. No view
    /// carries a password hash: the view type has no such field.
    pub fn list_users(&self) -> (r: Vec<User>)
        ensures
            r@.len() == self@.len(),
            forall|i: int| 0 <= i < self@.len() ==> r@[i] == public_view(self@[i]),
    {
        let n = self.users.len();
        let mut out: Vec<User> = Vec::new();
        let mut i: usize = 0;
        while i < n
            invariant
                n == self@.len(),
                i <= n,
                out@.len() == i,
                forall|j: int| 0 <= j < i ==> out@[j] == public_view(self@[j]),
            decreases n - i,
        {
            let rec = &self.users[i];
            out.push(User {
                id: rec.id.clone(),
                name: rec.name.clone(),
                email: rec.email.clone(),
            });
            i = i + 1;
        }
        out
    }

    /// Looks a record up by identifier and returns its outward view.
    /// An absent identifier is a plain `None`, a distinct outcome rather
    /// than a failure. The store's own invariant covers only e-mail
    /// uniqueness; identifiers reach it already drawn as random UUIDs,
    /// so two records share one only with negligible probability, and
    /// should they ever, the answer is the earliest such record.
    pub fn get_by_id(&self, id: &String) -> (r: Option<User>)
        ensures
            r is Some <==> has_id(self@, id@),
            r matches Some(u) ==> exists|i: int|
                0 <= i < self@.len() && u == public_view(self@[i]) && (#[trigger] self@[i].id@) == id@
                && (forall|j: int| 0 <= j < i ==> self@[j].id@ != id@),
    {
        let n = self.users.len();
        let mut i: usize = 0;
        while i < n
            invariant
                n == self@.len(),
                i <= n,
                forall|j: int| 0 <= j < i ==> self@[j].id@ != id@,
            decreases n - i,
        {
            let rec = &self.users[i];
            if rec.id == *id {
                return Some(User {
                    id: rec.id.clone(),
                    name: rec.name.clone(),
                    email: rec.email.clone(),
                });
            }
            i = i + 1;
        }
        None
    }
}

} // verus!
