use vstd::prelude::*;

verus! {

/// A persisted user record. The password is stored only as the one-way hash
/// produced by the credential service, never as plaintext.
#[derive(PartialEq, Eq, Debug)]
pub struct User {
    pub id: u64,
    pub name: String,
    pub password_hash: String,
    pub email_address: Option<String>,
    pub created_at: u64,
    pub updated_at: u64,
    pub operation_at: u64,
}

/// Copies an optional string.
pub fn clone_opt_str(e: &Option<String>) -> (r: Option<String>)
    ensures
        r == *e,
{
    match e {
        Some(s) => Some(s.clone()),
        None => None,
    }
}

impl Clone for User {
    fn clone(&self) -> (res: Self)
        ensures
            res == *self,
    {
        User {
            id: self.id,
            name: self.name.clone(),
            password_hash: self.password_hash.clone(),
            email_address: clone_opt_str(&self.email_address),
            created_at: self.created_at,
            updated_at: self.updated_at,
            operation_at: self.operation_at,
        }
    }
}

/// Some stored user carries exactly this name.
pub open spec fn contains_name(s: Seq<User>, name: Seq<char>) -> bool {
    exists|i: int| 0 <= i < s.len() && s[i].name@ == name
}

/// The stored user carrying this name; meaningful only when `contains_name`
/// holds and names are unique.
pub open spec fn user_with_name(s: Seq<User>, name: Seq<char>) -> User {
    s[choose|i: int| 0 <= i < s.len() && s[i].name@ == name]
}

/// No two stored users carry the same name.
pub open spec fn names_unique(s: Seq<User>) -> bool {
    forall|i: int, j: int| 0 <= i < j < s.len() ==> s[i].name@ != s[j].name@
}

/// The in-memory user table: the rows plus the next identifier to assign.
pub struct UserStore {
    users: Vec<User>,
    next_id: u64,
}

impl UserStore {
    /// The stored rows, in insertion order.
    pub closed spec fn view(&self) -> Seq<User> {
        self.users@
    }

    /// The identifier the next inserted row will receive.
    pub closed spec fn spec_next_id(&self) -> u64 {
        self.next_id
    }

    /// Store invariant: names are unique and every assigned identifier is
    /// below the next one to hand out.
    pub open spec fn wf(&self) -> bool {
        &&& names_unique(self@)
        &&& forall|i: int| 0 <= i < self@.len() ==> (#[trigger] self@[i]).id < self.spec_next_id()
    }

    /// An empty table; identifiers start at 1.
    pub fn new() -> (s: Self)
        ensures
            s.wf(),
            s@ == Seq::<User>::empty(),
            s.spec_next_id() == 1u64,
    {
        UserStore { users: Vec::new(), next_id: 1 }
    }

    /// The identifier the next inserted row will receive.
    pub fn next_id(&self) -> (n: u64)
        ensures
            n == self.spec_next_id(),
    {
        self.next_id
    }

    /// Number of stored rows.
    pub fn len(&self) -> (n: usize)
        ensures
            n == self@.len(),
    {
        self.users.len()
    }

    /// Looks a user up by exact name. Returns the unique row carrying the
    /// name, or `None` when no row does.
    pub fn find_by_name(&self, name: &String) -> (r: Option<&User>)
        requires
            self.wf(),
        ensures
            match r {
                Some(u) => {
                    &&& contains_name(self@, name@)
                    &&& *u == user_with_name(self@, name@)
                    &&& u.name@ == name@
                },
                None => !contains_name(self@, name@),
            },
    {
        let n = self.users.len();
        let mut i: usize = 0;
        while i < n
            invariant
                self.wf(),
                n == self@.len(),
                0 <= i <= n,
                forall|k: int| 0 <= k < i ==> self@[k].name@ != name@,
            decreases n - i,
        {
            if self.users[i].name == *name {
                proof {
                    let j = choose|j: int| 0 <= j < self@.len() && self@[j].name@ == name@;
                    assert(self@[i as int].name@ == name@);
                    assert(j == i as int);
                }
                return Some(&self.users[i]);
            }
            i += 1;
        }
        None
    }

    /// Inserts a fresh row for a name not yet stored. The row gets the next
    /// identifier and its timestamps are all set to `now`; the inserted row
    /// is returned.
    pub fn insert_new_user(
        &mut self,
        name: &String,
        password_hash: String,
        email_address: Option<String>,
        now: u64,
    ) -> (u: User)
        requires
            old(self).wf(),
            !contains_name(old(self)@, name@),
            old(self).spec_next_id() < u64::MAX,
        ensures
            final(self).wf(),
            final(self)@ == old(self)@.push(u),
            final(self).spec_next_id() == old(self).spec_next_id() + 1,
            u.id == old(self).spec_next_id(),
            u.name@ == name@,
            u.password_hash == password_hash,
            u.email_address == email_address,
            u.created_at == now,
            u.updated_at == now,
            u.operation_at == now,
    {
        let u = User {
            id: self.next_id,
            name: name.clone(),
            password_hash,
            email_address,
            created_at: now,
            updated_at: now,
            operation_at: now,
        };
        let stored = u.clone();
        self.users.push(stored);
        self.next_id = self.next_id + 1;
        proof {
            assert(self@ =~= old(self)@.push(u));
            assert forall|i: int, j: int| 0 <= i < j < self@.len() implies self@[i].name@
                != self@[j].name@ by {
                if j == self@.len() - 1 {
                    assert(self@[i] == old(self)@[i]);
                    assert(!contains_name(old(self)@, name@));
                }
            }
        }
        u
    }
}

} // verus!
