//! The data of the account-linking workflow: the local profile, the banks
//! and requisitions of the aggregation service, and the error taxonomy.

use vstd::prelude::*;
use crate::text::{trimmed, trim_text};

verus! {

/// A bank account whose linking flow has completed.
pub struct LinkedAccount {
    pub display_name: String,
    pub identifier: String,
}

/// The single local record: API token, requisition on record, linked accounts.
pub struct Profile {
    pub api_token: Option<String>,
    pub client_identifier: Option<String>,
    pub accounts: Vec<LinkedAccount>,
}

/// A bank offered by the aggregation service for a country.
pub struct Bank {
    pub identifier: String,
    pub display_name: String,
    pub bank_identifier_code: String,
}

/// A requisition (authorization session) as the aggregation service returns it.
pub struct Requisition {
    pub identifier: String,
    pub account_identifiers: Vec<String>,
    pub status: String,
}

/// The body of a requisition-creation request.
pub struct RequisitionPayload {
    pub enduser_id: String,
    pub reference: String,
    pub redirect: String,
    pub agreements: Vec<String>,
}

/// Why an invocation of the workflow ends without an authorization link.
#[derive(Clone, Copy, Debug, PartialEq, Eq, Structural)]
pub enum WorkflowError {
    /// A precondition of the local profile is missing (the API token).
    ConfigError,
    /// The service rejected the credentials.
    AuthError,
    /// The request could not be carried out.
    NetworkError,
    /// The response did not have the expected shape.
    DecodeError,
    /// The user's input is out of range or unreadable.
    ValidationError,
    /// An expected field of the response is absent.
    MissingFieldError,
}

impl WorkflowError {
    /// A short message for the user.
    pub fn message(&self) -> String {
        match self {
            WorkflowError::ConfigError => "Please set the API token using the set-token command".to_owned(),
            WorkflowError::AuthError => "The API token was rejected".to_owned(),
            WorkflowError::NetworkError => "The request to the banking service failed".to_owned(),
            WorkflowError::DecodeError => "The banking service sent an unexpected response".to_owned(),
            WorkflowError::ValidationError => "Invalid bank ID".to_owned(),
            WorkflowError::MissingFieldError => "Failed to get PSD2 authorization link".to_owned(),
        }
    }
}

/// The profile after recording the requisition `id`: the first one on record
/// stays, a later one is ignored.
pub open spec fn recorded(p: Profile, id: String) -> Profile {
    Profile {
        api_token: p.api_token,
        client_identifier: if p.client_identifier is Some {
            p.client_identifier
        } else {
            Some(id)
        },
        accounts: p.accounts,
    }
}

impl Profile {
    /// The profile of a first run: no token, no requisition, no accounts.
    pub fn new() -> (r: Profile)
        ensures
            r.api_token is None,
            r.client_identifier is None,
            r.accounts@.len() == 0,
    {
        Profile { api_token: None, client_identifier: None, accounts: Vec::new() }
    }

    /// Stores the pasted API token, without surrounding white space.
    pub fn set_token(&mut self, input: &str)
        ensures
            final(self).api_token matches Some(t) && t@ == trimmed(input@),
            final(self).client_identifier == old(self).client_identifier,
            final(self).accounts == old(self).accounts,
    {
        let t = trim_text(input).to_owned();
        self.api_token = Some(t);
    }

    /// Records the identifier of a newly created requisition, unless one is
    /// already on record.
    pub fn record_requisition(&mut self, id: String)
        ensures
            *final(self) == recorded(*old(self), id),
    {
        if self.client_identifier.is_none() {
            self.client_identifier = Some(id);
        }
    }

    /// Appends an account whose linking has been confirmed.
    pub fn link_account(&mut self, account: LinkedAccount)
        ensures
            final(self).accounts@ == old(self).accounts@.push(account),
            final(self).api_token == old(self).api_token,
            final(self).client_identifier == old(self).client_identifier,
    {
        self.accounts.push(account);
    }
}

impl Default for Profile {
    fn default() -> (r: Profile)
        ensures
            r.api_token is None,
            r.client_identifier is None,
            r.accounts@.len() == 0,
    {
        Profile::new()
    }
}

} // verus!
