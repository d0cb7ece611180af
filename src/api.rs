//! The bodies and the answers of the agent and app endpoints. The store
//! calls run outside the library; here is what each endpoint answers for
//! what the store reported.

use vstd::prelude::*;
use crate::store::StoreError;

verus! {

/// The body of a request to create an app.
pub struct CreateAppRequest {
    pub name: String,
    pub description: String,
}

/// The body of a request to replace an app's fields.
pub struct PutAppRequest {
    pub name: String,
    pub description: Option<String>,
}

pub const OK: u16 = 200;

pub const NOT_FOUND: u16 = 404;

pub const CONFLICT: u16 = 409;

pub const INTERNAL_SERVER_ERROR: u16 = 500;

/// Listing agents or apps: any store failure is a server error.
pub fn list_status(res: Result<(), StoreError>) -> (r: u16)
    ensures
        r == (if res is Ok { OK } else { INTERNAL_SERVER_ERROR }),
{
    match res {
        Ok(()) => OK,
        Err(_) => INTERNAL_SERVER_ERROR,
    }
}

/// Deleting an agent or an app by id: any store failure is a server error.
pub fn delete_status(res: Result<(), StoreError>) -> (r: u16)
    ensures
        r == (if res is Ok { OK } else { INTERNAL_SERVER_ERROR }),
{
    match res {
        Ok(()) => OK,
        Err(_) => INTERNAL_SERVER_ERROR,
    }
}

/// Creating an app: a taken name is the client's conflict, any other
/// failure the server's.
pub fn create_app_status(res: Result<(), StoreError>) -> (r: u16)
    ensures
        r == match res {
            Ok(()) => OK,
            Err(StoreError::UniqueViolation) => CONFLICT,
            Err(_) => INTERNAL_SERVER_ERROR,
        },
{
    match res {
        Ok(()) => OK,
        Err(StoreError::UniqueViolation) => CONFLICT,
        Err(_) => INTERNAL_SERVER_ERROR,
    }
}

/// Fetching an app: `Ok(found)` says whether a row had the id.
pub fn get_app_status(res: Result<bool, StoreError>) -> (r: u16)
    ensures
        r == match res {
            Ok(true) => OK,
            Ok(false) => NOT_FOUND,
            Err(_) => INTERNAL_SERVER_ERROR,
        },
{
    match res {
        Ok(true) => OK,
        Ok(false) => NOT_FOUND,
        Err(_) => INTERNAL_SERVER_ERROR,
    }
}

/// Updating an app: no row with the id is not found, a taken name a
/// conflict, any other failure the server's.
pub fn update_app_status(res: Result<(), StoreError>) -> (r: u16)
    ensures
        r == match res {
            Ok(()) => OK,
            Err(StoreError::RowNotFound) => NOT_FOUND,
            Err(StoreError::UniqueViolation) => CONFLICT,
            Err(StoreError::Unavailable) => INTERNAL_SERVER_ERROR,
        },
{
    match res {
        Ok(()) => OK,
        Err(StoreError::RowNotFound) => NOT_FOUND,
        Err(StoreError::UniqueViolation) => CONFLICT,
        Err(StoreError::Unavailable) => INTERNAL_SERVER_ERROR,
    }
}

} // verus!
