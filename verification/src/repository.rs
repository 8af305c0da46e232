//! Account repository: durable, uniqueness-constrained account storage.
//!
//! The store models the persistence contract the workflow relies on: at most
//! one account per email, rows created unverified with their verification
//! code attached, no partial writes. A process that keeps its accounts in a
//! relational engine instead maps that engine's structured error signal
//! through [`classify_storage_error`].

use vstd::prelude::*;
use vstd::string::StringExecFns;

verus! {

/// A persisted account record, initially unverified.
#[derive(Debug)]
pub struct Account {
    pub id: u64,
    pub email: String,
    pub stored_secret: String,
    pub fullname: String,
    pub discord: String,
    pub age: i32,
    pub verification_code: Option<String>,
    pub is_verified: bool,
}

/// Why a repository write was refused.
#[derive(Debug, PartialEq, Eq)]
pub enum RepositoryError {
    /// Another account already holds this email.
    DuplicateEmail,
    /// Any other persistence failure, with its detail.
    Other(String),
}

/// Some account in `s` holds the email `email`.
pub open spec fn has_email(s: Seq<Account>, email: Seq<char>) -> bool {
    exists|i: int| 0 <= i < s.len() && s[i].email@ == email
}

/// No two accounts in `s` share an email.
pub open spec fn emails_unique(s: Seq<Account>) -> bool {
    forall|i: int, j: int| 0 <= i < j < s.len() ==> s[i].email@ != s[j].email@
}

/// Each account's identifier is its position in the store, so identifiers
/// are unique and stable (rows are never deleted).
pub open spec fn ids_are_positions(s: Seq<Account>) -> bool {
    forall|i: int| 0 <= i < s.len() ==> s[i].id == i as u64
}

/// Law: in a well-formed store no two rows share an email, so a submission
/// that is accepted is the only row ever holding its address.
pub proof fn lemma_no_two_rows_share_an_email(store: AccountStore, i: int, j: int)
    requires
        store.wf(),
        0 <= i < store@.len(),
        0 <= j < store@.len(),
        i != j,
    ensures
        store@[i].email@ != store@[j].email@,
{
}

/// The uniqueness-constrained account store.
pub struct AccountStore {
    pub accounts: Vec<Account>,
}

impl View for AccountStore {
    type V = Seq<Account>;

    open spec fn view(&self) -> Seq<Account> {
        self.accounts@
    }
}

impl AccountStore {
    /// The store's consistency invariant: emails unique, identifiers unique.
    pub open spec fn wf(&self) -> bool {
        &&& emails_unique(self@)
        &&& ids_are_positions(self@)
    }

    /// An empty store.
    pub fn new() -> (store: AccountStore)
        ensures
            store.wf(),
            store@.len() == 0,
    {
        AccountStore { accounts: Vec::new() }
    }

    /// How many accounts are stored.
    pub fn len(&self) -> (n: usize)
        ensures
            n == self@.len(),
    {
        self.accounts.len()
    }

    /// The account at a given position, if any.
    pub fn account_at(&self, i: usize) -> (r: Option<&Account>)
        ensures
            i < self@.len() ==> (r matches Some(a) && *a == self@[i as int]),
            i >= self@.len() ==> r is None,
    {
        if i < self.accounts.len() {
            Some(&self.accounts[i])
        } else {
            None
        }
    }

    /// Whether some stored account holds this email.
    pub fn contains_email(&self, email: &String) -> (r: bool)
        ensures
            r == has_email(self@, email@),
    {
        let n = self.accounts.len();
        let mut i: usize = 0;
        while i < n
            invariant
                n == self@.len(),
                i <= n,
                forall|j: int| 0 <= j < i ==> self@[j].email@ != email@,
            decreases n - i,
        {
            if self.accounts[i].email == *email {
                proof {
                    assert(self@[i as int].email@ == email@);
                }
                return true;
            }
            i = i + 1;
        }
        false
    }

    /// The stored account with this email, if one exists.
    pub fn find_by_email(&self, email: &String) -> (r: Option<&Account>)
        ensures
            (r is Some) == has_email(self@, email@),
            r matches Some(a) ==> a.email@ == email@ && self@.contains(*a),
    {
        let n = self.accounts.len();
        let mut i: usize = 0;
        while i < n
            invariant
                n == self@.len(),
                i <= n,
                forall|j: int| 0 <= j < i ==> self@[j].email@ != email@,
            decreases n - i,
        {
            if self.accounts[i].email == *email {
                proof {
                    assert(self@[i as int].email@ == email@);
                }
                return Some(&self.accounts[i]);
            }
            i = i + 1;
        }
        None
    }

    /// Persist one account: refused with `DuplicateEmail`, leaving the store
    /// unchanged, exactly when the email is already taken; otherwise exactly
    /// one row is appended, unverified, with the supplied code attached.
    pub fn create(
        &mut self,
        email: String,
        stored_secret: String,
        fullname: String,
        discord: String,
        age: i32,
        verification_code: String,
    ) -> (r: Result<u64, RepositoryError>)
        requires
            old(self).wf(),
        ensures
            final(self).wf(),
            has_email(old(self)@, email@) ==> {
                &&& r == Result::<u64, RepositoryError>::Err(RepositoryError::DuplicateEmail)
                &&& final(self)@ == old(self)@
            },
            !has_email(old(self)@, email@) ==> {
                &&& r matches Ok(id)
                &&& id == old(self)@.len()
                &&& final(self)@ == old(self)@.push(Account {
                    id: id,
                    email: email,
                    stored_secret: stored_secret,
                    fullname: fullname,
                    discord: discord,
                    age: age,
                    verification_code: Some(verification_code),
                    is_verified: false,
                })
            },
    {
        if self.contains_email(&email) {
            return Err(RepositoryError::DuplicateEmail);
        }
        let id = self.accounts.len() as u64;
        self.accounts.push(Account {
            id,
            email,
            stored_secret,
            fullname,
            discord,
            age,
            verification_code: Some(verification_code),
            is_verified: false,
        });
        Ok(id)
    }
}

/// Map a storage engine's structured error signal to the repository taxonomy:
/// SQLSTATE class 23505 (unique-constraint violation) means the email was
/// taken; anything else is an opaque persistence failure carrying its detail.
pub fn classify_storage_error(sqlstate: Option<String>, detail: String) -> (r: RepositoryError)
    ensures
        r == (match sqlstate {
            Some(code) => if code@ == "23505"@ {
                RepositoryError::DuplicateEmail
            } else {
                RepositoryError::Other(detail)
            },
            None => RepositoryError::Other(detail),
        }),
{
    match sqlstate {
        Some(code) => {
            let unique_violation = String::from_str("23505");
            if code == unique_violation {
                RepositoryError::DuplicateEmail
            } else {
                RepositoryError::Other(detail)
            }
        },
        None => RepositoryError::Other(detail),
    }
}

} // verus!
