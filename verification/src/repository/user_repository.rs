//! The answers of the user store, as plain values.

use crate::model::user::{Change, CreateUserDto, UpdateUserDto, UpdateUserPermissionDto};
use crate::service::password;
use vstd::prelude::*;

verus! {

/// What the user store does before it writes: passwords are hashed at the
/// configured cost, never stored in the clear.
#[derive(Debug)]
pub struct UserRepositoryImpl {
    hash_cost: u32,
}

impl UserRepositoryImpl {
    /// The cost that passwords are hashed at.
    pub closed spec fn cost(&self) -> u32 {
        self.hash_cost
    }

    pub fn new(hash_cost: u32) -> (repository: UserRepositoryImpl)
        ensures
            repository.cost() == hash_cost,
    {
        UserRepositoryImpl { hash_cost }
    }

    /// What is written for a new account: what was sent, with the hash of
    /// the password in its place. `None` where the password cannot be
    /// hashed.
    pub fn new_row(&self, user: CreateUserDto) -> (row: Option<CreateUserDto>)
        ensures
            row matches Some(written) ==> {
                &&& written.name@ == user.name@
                &&& written.age == user.age
                &&& written.email@ == user.email@
                &&& password::matches_hash(user.password@, written.password@)
            },
            !(4 <= self.cost() <= 31) ==> row is None,
    {
        // Whether there is a hash is for the hasher to decide, which salts
        // with fresh random bytes. What is written is then the same for
        // every answer it may give: the row with the hash in place of the
        // password, or nothing where there is no hash.
        let hash = self.stored_password(user.password.as_str());
        UserRepositoryImpl::row_with_hash(user, hash)
    }

    /// What is written to change an account: what was sent, with the hash
    /// of a new password in its place. `None` where there is a new password
    /// and it cannot be hashed.
    pub fn changed_row(&self, user: UpdateUserDto) -> (row: Option<UpdateUserDto>)
        ensures
            row matches Some(written) ==> {
                &&& written@.name == user@.name
                &&& written@.age == user@.age
                &&& match user.password {
                    Some(sent) => written.password matches Some(hash) && password::matches_hash(
                        sent@,
                        hash@,
                    ),
                    None => written.password is None,
                }
            },
            user.password is None ==> row is Some,
            user.password is Some && !(4 <= self.cost() <= 31) ==> row is None,
    {
        // The hasher is asked only where there is a new password, and then
        // decides whether there is a hash; what is written is the same for
        // every answer it may give.
        match &user.password {
            Some(sent) => {
                let hash = self.stored_password(sent.as_str());
                UserRepositoryImpl::change_with_hash(user, hash)
            },
            None => Some(user),
        }
    }

    /// The rows that replace the permissions of the account with the id
    /// `id`: one pair of account and permission for each id sent, in the
    /// order sent. The rows the account had before are all removed.
    pub fn permission_rows(id: i32, user: &UpdateUserPermissionDto) -> (rows: Vec<(i32, i32)>)
        ensures
            rows@ == user.permissions@.map_values(|permission: i32| (id, permission)),
    {
        let mut rows: Vec<(i32, i32)> = Vec::new();
        let mut i: usize = 0;
        while i < user.permissions.len()
            invariant
                i <= user.permissions@.len(),
                rows@ == user.permissions@.take(i as int).map_values(
                    |permission: i32| (id, permission),
                ),
            decreases user.permissions@.len() - i,
        {
            rows.push((id, user.permissions[i]));
            assert(rows@ =~= user.permissions@.take(i + 1).map_values(
                |permission: i32| (id, permission),
            ));
            i += 1;
        }
        rows
    }

    /// The hash under which a password is stored, or `None` where it
    /// cannot be hashed. The password checks against the hash.
    pub fn stored_password(&self, password: &str) -> (hash: Option<String>)
        ensures
            hash matches Some(text) ==> password::matches_hash(password@, text@),
            !(4 <= self.cost() <= 31) ==> hash is None,
    {
        password::hash(password, self.hash_cost)
    }

    /// What is written to change an account and its password, given what the
    /// hasher answered for the new password: what was sent, with that hash
    /// in place of the password; nothing where the hasher gave no hash.
    pub fn change_with_hash(user: UpdateUserDto, hash: Option<String>) -> (row: Option<
        UpdateUserDto,
    >)
        ensures
            match hash {
                Some(text) => row matches Some(written) && written@ == (Change {
                    name: user@.name,
                    age: user@.age,
                    password: Some(text@),
                }),
                None => row is None,
            },
    {
        match hash {
            Some(text) => Some(
                UpdateUserDto { name: user.name, age: user.age, password: Some(text) },
            ),
            None => None,
        }
    }

    /// What is written for a new account, given what the hasher answered for
    /// its password: what was sent, with that hash in place of the password;
    /// nothing where the hasher gave no hash.
    pub fn row_with_hash(user: CreateUserDto, hash: Option<String>) -> (row: Option<CreateUserDto>)
        ensures
            match hash {
                Some(text) => row matches Some(written) && written.name@ == user.name@
                    && written.age == user.age && written.email@ == user.email@
                    && written.password@ == text@,
                None => row is None,
            },
    {
        match hash {
            Some(text) => Some(
                CreateUserDto { name: user.name, age: user.age, email: user.email, password: text },
            ),
            None => None,
        }
    }
}

/// Why the user store did not answer with what was asked for. Each case
/// carries the text the store reported.
#[derive(Debug, PartialEq, Eq)]
pub enum StoreError {
    /// The query matched no row.
    RowNotFound(String),
    /// The database rejected the query.
    Database(String),
    /// Anything else: the connection, the protocol, the decoding of a row.
    Other(String),
}

/// A store failure as contracts speak of it.
pub enum StoreFailure {
    RowNotFound(Seq<char>),
    Database(Seq<char>),
    Other(Seq<char>),
}

impl View for StoreError {
    type V = StoreFailure;

    open spec fn view(&self) -> StoreFailure {
        match self {
            StoreError::RowNotFound(text) => StoreFailure::RowNotFound(text@),
            StoreError::Database(text) => StoreFailure::Database(text@),
            StoreError::Other(text) => StoreFailure::Other(text@),
        }
    }
}

} // verus!
