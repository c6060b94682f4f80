//! What the user routes answer, given what the user store answered.

use crate::model::user::{Profile, ReadUserDto, User};
use crate::repository::user_repository::{StoreError, StoreFailure};
use crate::util::api_response::{ApiError, Failure, ServiceError};
use crate::util::text::{decimal_digits, decimal_text, joined};
use vstd::prelude::*;

verus! {

/// The failure that a store failure becomes where a missing row has no
/// meaning of its own.
pub open spec fn store_failure(failure: StoreFailure) -> Failure {
    match failure {
        StoreFailure::Database(text) => Failure::Database(text),
        StoreFailure::RowNotFound(text) => Failure::Unknown(text),
        StoreFailure::Other(text) => Failure::Unknown(text),
    }
}

/// The failure that a store failure becomes where a missing row means that
/// the account with the id `id` does not exist.
pub open spec fn account_failure(id: u32, failure: StoreFailure) -> Failure {
    match failure {
        StoreFailure::Database(text) => Failure::Database(text),
        StoreFailure::RowNotFound(_) => Failure::NotFound(
            "User not found with id: "@ + decimal_digits(id as nat),
        ),
        StoreFailure::Other(text) => Failure::Unknown(text),
    }
}

/// The id under which the store knows an account that a route names by an
/// unsigned id: the same bits read as a signed number.
pub open spec fn stored_id(id: u32) -> i32 {
    if id <= i32::MAX {
        id as i32
    } else {
        (id - 0x1_0000_0000) as i32
    }
}

/// The accounts of a list as they are shown.
pub open spec fn all_shown(users: Seq<User>) -> Seq<Profile> {
    users.map_values(|user: User| user@.shown())
}

/// The answers of the user routes.
#[derive(Debug)]
pub struct UserServiceImpl;

impl UserServiceImpl {
    pub fn new() -> (service: UserServiceImpl) {
        UserServiceImpl {  }
    }

    /// The id to ask the store for.
    pub fn store_id(id: u32) -> (stored: i32)
        ensures
            stored == stored_id(id),
    {
        if id <= 0x7fff_ffff {
            id as i32
        } else {
            let below: u32 = 0xffff_ffff - id;
            -1 - (below as i32)
        }
    }

    fn failed(error: StoreError) -> (response: ApiError)
        ensures
            response@ == store_failure(error@).response(),
    {
        match error {
            StoreError::Database(db_err) => ApiError::from(ServiceError::Database(db_err)),
            StoreError::RowNotFound(text) => ApiError::from(ServiceError::Unknown(text)),
            StoreError::Other(text) => ApiError::from(ServiceError::Unknown(text)),
        }
    }

    fn failed_for(id: u32, error: StoreError) -> (response: ApiError)
        ensures
            response@ == account_failure(id, error@).response(),
    {
        match error {
            StoreError::Database(db_err) => ApiError::from(ServiceError::Database(db_err)),
            StoreError::RowNotFound(_) => {
                let number = decimal_text(id as u64);
                ApiError::from(
                    ServiceError::NotFound(joined("User not found with id: ", number.as_str())),
                )
            },
            StoreError::Other(text) => ApiError::from(ServiceError::Unknown(text)),
        }
    }

    /// The answer to creating an account.
    pub fn create(&self, created: Result<User, StoreError>) -> (answer: Result<
        ReadUserDto,
        ApiError,
    >)
        ensures
            match created {
                Ok(user) => answer matches Ok(shown) && shown@ == user@.shown(),
                Err(error) => answer matches Err(response) && response@ == store_failure(
                    error@,
                ).response(),
            },
    {
        match created {
            Ok(u) => Ok(ReadUserDto::from(u)),
            Err(e) => Err(UserServiceImpl::failed(e)),
        }
    }

    /// The answer to reading one account.
    pub fn get(&self, found: Result<User, StoreError>) -> (answer: Result<ReadUserDto, ApiError>)
        ensures
            match found {
                Ok(user) => answer matches Ok(shown) && shown@ == user@.shown(),
                Err(error) => answer matches Err(response) && response@ == store_failure(
                    error@,
                ).response(),
            },
    {
        match found {
            Ok(u) => Ok(ReadUserDto::from(u)),
            Err(e) => Err(UserServiceImpl::failed(e)),
        }
    }

    /// The answer to reading all accounts: each as it is shown, in the
    /// store's order.
    pub fn get_all(&self, found: Result<Vec<User>, StoreError>) -> (answer: Result<
        Vec<ReadUserDto>,
        ApiError,
    >)
        ensures
            match found {
                Ok(users) => answer matches Ok(shown) && shown@.map_values(
                    |one: ReadUserDto| one@,
                ) == all_shown(users@),
                Err(error) => answer matches Err(response) && response@ == store_failure(
                    error@,
                ).response(),
            },
    {
        match found {
            Ok(u_ls) => {
                // A vector gives up its items from the end: they are taken
                // off into `shown`, last first, and from there into order.
                let ghost users = u_ls@;
                let mut rest = u_ls;
                let mut shown: Vec<ReadUserDto> = Vec::new();
                while rest.len() > 0
                    invariant
                        rest@.len() <= users.len(),
                        rest@ == users.take(rest@.len() as int),
                        shown@.len() == users.len() - rest@.len(),
                        forall|j: int|
                            0 <= j < shown@.len() ==> (#[trigger] shown@[j])@ == users[users.len()
                                - 1 - j]@.shown(),
                    decreases rest@.len(),
                {
                    let u = rest.pop().unwrap();
                    shown.push(ReadUserDto::from(u));
                }
                let mut ordered: Vec<ReadUserDto> = Vec::new();
                let ghost backwards = shown@;
                while shown.len() > 0
                    invariant
                        backwards.len() == users.len(),
                        shown@ == backwards.take(shown@.len() as int),
                        ordered@.len() == users.len() - shown@.len(),
                        forall|j: int|
                            0 <= j < backwards.len() ==> (#[trigger] backwards[j])@
                                == users[users.len() - 1 - j]@.shown(),
                        forall|j: int|
                            0 <= j < ordered@.len() ==> (#[trigger] ordered@[j])@
                                == users[j]@.shown(),
                    decreases shown@.len(),
                {
                    let one = shown.pop().unwrap();
                    ordered.push(one);
                }
                Ok(ordered)
            },
            Err(e) => Err(UserServiceImpl::failed(e)),
        }
    }

    /// The answer to deleting an account.
    pub fn delete(&self, deleted: Result<bool, StoreError>) -> (answer: Result<bool, ApiError>)
        ensures
            match deleted {
                Ok(done) => answer == Ok::<bool, ApiError>(done),
                Err(error) => answer matches Err(response) && response@ == store_failure(
                    error@,
                ).response(),
            },
    {
        match deleted {
            Ok(done) => Ok(done),
            Err(e) => Err(UserServiceImpl::failed(e)),
        }
    }

    /// The answer to changing the account with the id `id`.
    pub fn update(&self, id: u32, updated: Result<User, StoreError>) -> (answer: Result<
        ReadUserDto,
        ApiError,
    >)
        ensures
            match updated {
                Ok(user) => answer matches Ok(shown) && shown@ == user@.shown(),
                Err(error) => answer matches Err(response) && response@ == account_failure(
                    id,
                    error@,
                ).response(),
            },
    {
        match updated {
            Ok(u) => Ok(ReadUserDto::from(u)),
            Err(e) => Err(UserServiceImpl::failed_for(id, e)),
        }
    }

    /// The answer to replacing the permissions of the account with the id
    /// `id`.
    pub fn update_permissions(&self, id: u32, updated: Result<User, StoreError>) -> (answer:
        Result<ReadUserDto, ApiError>)
        ensures
            match updated {
                Ok(user) => answer matches Ok(shown) && shown@ == user@.shown(),
                Err(error) => answer matches Err(response) && response@ == account_failure(
                    id,
                    error@,
                ).response(),
            },
    {
        match updated {
            Ok(u) => Ok(ReadUserDto::from(u)),
            Err(e) => Err(UserServiceImpl::failed_for(id, e)),
        }
    }
}

} // verus!
