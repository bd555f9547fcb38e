//! The secret store, at its interface: secrets are kept per connection id
//! under one service name, and its failures are reported as such.

use vstd::prelude::*;
use vstd::string::*;
use crate::error::{AppError, AppErrorView, AppResult};

verus! {

/// The name under which the secret store keeps this application's secrets.
pub const SERVICE_NAME: &'static str = "dev.codycody31.baul";

/// The secret store.
pub struct CredentialService;

impl CredentialService {
    /// What storing a secret reports.
    pub fn store_secret(reply: Result<(), String>) -> (result: AppResult<()>)
        ensures
            match reply {
                Ok(_) => result is Ok,
                Err(description) => result matches Err(e) && e@
                    == AppErrorView::CredentialStoreError(description@),
            },
    {
        match reply {
            Ok(_) => Ok(()),
            Err(description) => Err(AppError::CredentialStoreError(description)),
        }
    }

    /// What reading a secret reports: the secret, or the store's failure.
    pub fn get_secret(reply: Result<String, String>) -> (result: AppResult<String>)
        ensures
            match reply {
                Ok(secret) => result matches Ok(found) && found@ == secret@,
                Err(description) => result matches Err(e) && e@
                    == AppErrorView::CredentialStoreError(description@),
            },
    {
        match reply {
            Ok(secret) => Ok(secret),
            Err(description) => Err(AppError::CredentialStoreError(description)),
        }
    }

    /// What deleting a secret reports.
    pub fn delete_secret(reply: Result<(), String>) -> (result: AppResult<()>)
        ensures
            match reply {
                Ok(_) => result is Ok,
                Err(description) => result matches Err(e) && e@
                    == AppErrorView::CredentialStoreError(description@),
            },
    {
        match reply {
            Ok(_) => Ok(()),
            Err(description) => Err(AppError::CredentialStoreError(description)),
        }
    }
}

} // verus!
