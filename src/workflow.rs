//! The account-linking workflow as a state machine. The caller performs each
//! action it returns (a request, a prompt, a save) and hands back what came of
//! it as the next event; the decisions are all taken here.

use vstd::prelude::*;
use crate::link::{authorization_url, link_result};
use crate::model::{recorded, Bank, Profile, Requisition, RequisitionPayload, WorkflowError};
use crate::requisition::{ensure_requisition, is_creation_payload, RequisitionPlan};
use crate::selection::{bank_line, bank_listing, choose_bank, selection_outcome};
use crate::text::trimmed;

verus! {

/// Where the workflow stands.
#[derive(Clone, Copy, Debug, PartialEq, Eq, Structural)]
pub enum Phase {
    /// Nothing done yet.
    Ready,
    /// Waiting for the banks of the country.
    ListingBanks,
    /// Waiting for the user's choice of a bank.
    Choosing,
    /// Waiting for the creation of the first requisition.
    CreatingRequisition,
    /// Waiting for the profile to be saved with the new requisition.
    SavingProfile,
    /// Waiting for the authorization link.
    Linking,
    /// The authorization link was handed out.
    Finished,
    /// The workflow was aborted.
    Failed,
}

/// What came of the last action.
pub enum Event {
    /// The workflow is started.
    Begin,
    /// The banks of the country, in the order the service listed them.
    BanksListed(Vec<Bank>),
    /// The line the user typed to choose a bank.
    SelectionEntered(String),
    /// The requisition the service created.
    RequisitionCreated(Requisition),
    /// The profile was saved.
    ProfileSaved,
    /// The fields of the requisition-link response.
    LinkReceived(Vec<(String, String)>),
    /// The last action failed.
    Failed(WorkflowError),
}

/// What the caller is to do next.
pub enum Action {
    /// Fetch the banks of `country`.
    FetchBanks { country: String, token: String },
    /// Print these lines, then read the user's choice.
    AskSelection { lines: Vec<String> },
    /// Create a requisition with this payload.
    CreateRequisition { payload: RequisitionPayload, token: String },
    /// Save the profile, which now holds the new requisition.
    SaveProfile,
    /// Ask for the authorization link of the bank `bank_id`.
    ResolveLink { requisition_id: String, bank_id: String, token: String },
    /// Print the authorization link for the user to open.
    ShowLink { url: String },
    /// Stop with this error.
    Abort(WorkflowError),
}

/// One run of the "add account" operation for a country.
pub struct AccountLinking {
    pub country: String,
    pub profile: Profile,
    pub phase: Phase,
    pub token: String,
    pub banks: Vec<Bank>,
    pub bank_index: usize,
    pub requisition_id: String,
}

impl AccountLinking {
    /// A bank is chosen once requisition work starts, and a link is only ever
    /// asked for under the requisition on record.
    pub open spec fn well_formed(&self) -> bool {
        &&& (self.phase == Phase::CreatingRequisition || self.phase == Phase::SavingProfile
            || self.phase == Phase::Linking) ==> self.bank_index < self.banks@.len()
        &&& self.phase == Phase::CreatingRequisition ==> self.profile.client_identifier is None
        &&& (self.phase == Phase::SavingProfile || self.phase == Phase::Linking)
            ==> self.profile.client_identifier == Some(self.requisition_id)
    }

    /// Whether `event` answers the action of the current phase.
    pub open spec fn expects(&self, event: Event) -> bool {
        match event {
            Event::Begin => self.phase == Phase::Ready,
            Event::BanksListed(_) => self.phase == Phase::ListingBanks,
            Event::SelectionEntered(_) => self.phase == Phase::Choosing,
            Event::RequisitionCreated(_) => self.phase == Phase::CreatingRequisition,
            Event::ProfileSaved => self.phase == Phase::SavingProfile,
            Event::LinkReceived(_) => self.phase == Phase::Linking,
            Event::Failed(_) => self.phase != Phase::Finished && self.phase != Phase::Failed,
        }
    }

    /// A run for `country` on `profile`, not yet started.
    pub fn new(country: String, profile: Profile) -> (r: AccountLinking)
        ensures
            r.phase == Phase::Ready,
            r.country == country,
            r.profile == profile,
            r.well_formed(),
    {
        AccountLinking {
            country,
            profile,
            phase: Phase::Ready,
            token: String::new(),
            banks: Vec::new(),
            bank_index: 0,
            requisition_id: String::new(),
        }
    }

    /// Whether `event` answers the action of the current phase.
    pub fn accepts(&self, event: &Event) -> (r: bool)
        ensures
            r == self.expects(*event),
    {
        match event {
            Event::Begin => self.phase == Phase::Ready,
            Event::BanksListed(_) => self.phase == Phase::ListingBanks,
            Event::SelectionEntered(_) => self.phase == Phase::Choosing,
            Event::RequisitionCreated(_) => self.phase == Phase::CreatingRequisition,
            Event::ProfileSaved => self.phase == Phase::SavingProfile,
            Event::LinkReceived(_) => self.phase == Phase::Linking,
            Event::Failed(_) => self.phase != Phase::Finished && self.phase != Phase::Failed,
        }
    }

    /// Takes the decision that follows `event` and returns the next action.
    pub fn step(&mut self, event: Event) -> (r: Action)
        requires
            old(self).well_formed(),
            old(self).expects(event),
        ensures
            final(self).well_formed(),
            final(self).country == old(self).country,
            !(event is RequisitionCreated) ==> final(self).profile == old(self).profile,
            r is Abort ==> final(self).phase == Phase::Failed,
            event matches Event::Failed(e) ==> r == Action::Abort(e),
            event is Begin ==> match old(self).profile.api_token {
                None => r == Action::Abort(WorkflowError::ConfigError),
                Some(t) => r == (Action::FetchBanks { country: old(self).country, token: t })
                    && final(self).phase == Phase::ListingBanks && final(self).token == t,
            },
            event matches Event::BanksListed(banks) ==> {
                &&& final(self).banks == banks
                &&& final(self).token == old(self).token
                &&& final(self).phase == Phase::Choosing
                &&& r matches Action::AskSelection { lines } && lines@.len() == banks@.len() && forall|
                    i: int,
                | 0 <= i < lines@.len() ==> #[trigger] lines@[i]@ == bank_line(
                    (i + 1) as nat,
                    banks@[i].display_name@,
                )
            },
            event matches Event::SelectionEntered(text) ==> match selection_outcome(
                trimmed(text@),
                old(self).banks@.len(),
            ) {
                Err(e) => r == Action::Abort(e),
                Ok(i) => {
                    &&& final(self).bank_index == i
                    &&& final(self).banks == old(self).banks
                    &&& final(self).token == old(self).token
                    &&& match old(self).profile.client_identifier {
                        Some(id) => {
                            &&& r == (Action::ResolveLink {
                                requisition_id: id,
                                bank_id: old(self).banks@[i as int].identifier,
                                token: old(self).token,
                            })
                            &&& final(self).phase == Phase::Linking
                        },
                        None => {
                            &&& r matches Action::CreateRequisition { payload, token }
                                && is_creation_payload(payload) && token == old(self).token
                            &&& final(self).phase == Phase::CreatingRequisition
                        },
                    }
                },
            },
            event matches Event::RequisitionCreated(req) ==> {
                &&& final(self).profile == recorded(old(self).profile, req.identifier)
                &&& final(self).profile.client_identifier == Some(req.identifier)
                &&& final(self).requisition_id == req.identifier
                &&& final(self).banks == old(self).banks
                &&& final(self).bank_index == old(self).bank_index
                &&& final(self).token == old(self).token
                &&& r is SaveProfile
                &&& final(self).phase == Phase::SavingProfile
            },
            event is ProfileSaved ==> {
                &&& r == (Action::ResolveLink {
                    requisition_id: old(self).requisition_id,
                    bank_id: old(self).banks@[old(self).bank_index as int].identifier,
                    token: old(self).token,
                })
                &&& old(self).profile.client_identifier == Some(old(self).requisition_id)
                &&& final(self).phase == Phase::Linking
            },
            event matches Event::LinkReceived(entries) ==> match r {
                Action::ShowLink { url } => link_result(entries@, Ok(url)) && final(self).phase
                    == Phase::Finished,
                Action::Abort(e) => link_result(entries@, Err(e)),
                _ => false,
            },
    {
        match event {
            Event::Begin => {
                match &self.profile.api_token {
                    None => {
                        self.phase = Phase::Failed;
                        Action::Abort(WorkflowError::ConfigError)
                    },
                    Some(t) => {
                        self.token = t.clone();
                        self.phase = Phase::ListingBanks;
                        Action::FetchBanks { country: self.country.clone(), token: t.clone() }
                    },
                }
            },
            Event::BanksListed(banks) => {
                let lines = bank_listing(&banks);
                self.banks = banks;
                self.phase = Phase::Choosing;
                Action::AskSelection { lines }
            },
            Event::SelectionEntered(text) => {
                match choose_bank(&self.banks, text.as_str()) {
                    Err(e) => {
                        self.phase = Phase::Failed;
                        Action::Abort(e)
                    },
                    Ok(i) => {
                        self.bank_index = i;
                        match ensure_requisition(&self.profile) {
                            RequisitionPlan::Reuse(id) => {
                                self.requisition_id = id.clone();
                                self.phase = Phase::Linking;
                                Action::ResolveLink {
                                    requisition_id: id,
                                    bank_id: self.banks[i].identifier.clone(),
                                    token: self.token.clone(),
                                }
                            },
                            RequisitionPlan::Create(payload) => {
                                self.phase = Phase::CreatingRequisition;
                                Action::CreateRequisition { payload, token: self.token.clone() }
                            },
                        }
                    },
                }
            },
            Event::RequisitionCreated(req) => {
                self.requisition_id = req.identifier.clone();
                self.profile.record_requisition(req.identifier);
                self.phase = Phase::SavingProfile;
                Action::SaveProfile
            },
            Event::ProfileSaved => {
                self.phase = Phase::Linking;
                Action::ResolveLink {
                    requisition_id: self.requisition_id.clone(),
                    bank_id: self.banks[self.bank_index].identifier.clone(),
                    token: self.token.clone(),
                }
            },
            Event::LinkReceived(entries) => {
                match authorization_url(&entries) {
                    Ok(url) => {
                        self.phase = Phase::Finished;
                        Action::ShowLink { url }
                    },
                    Err(e) => {
                        self.phase = Phase::Failed;
                        Action::Abort(e)
                    },
                }
            },
            Event::Failed(e) => {
                self.phase = Phase::Failed;
                Action::Abort(e)
            },
        }
    }
}

/// A link is only ever asked for under a requisition that is already on
/// record in the profile: a run that waits for the profile to be saved, or for
/// the link, holds the requisition it works with as the profile's own.
pub proof fn link_asked_under_recorded_requisition(run: AccountLinking)
    requires
        run.well_formed(),
        run.phase == Phase::SavingProfile || run.phase == Phase::Linking,
    ensures
        run.profile.client_identifier == Some(run.requisition_id),
        run.bank_index < run.banks@.len(),
{
}

} // verus!
