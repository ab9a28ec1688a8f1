//! The requisition manager: reuse the requisition on record, or prepare the
//! creation of the first one under a fresh end-user identifier.

use vstd::prelude::*;
use crate::model::{recorded, Profile, RequisitionPayload};

verus! {

/// The reference under which requisitions are created.
pub const APP_REFERENCE: &'static str = "nordigen2fireflyiii";

/// Where the service sends the user once the bank authorized access.
pub const REDIRECT_URL: &'static str = "https://github.com/diogotcorreia/nordigen2fireflyiii/wiki/Account-Added";

pub open spec fn is_lower_hex(c: char) -> bool {
    ('0' <= c && c <= '9') || ('a' <= c && c <= 'f')
}

/// A version-4 UUID in its canonical hyphenated lower-case form:
/// 36 characters, hyphens after the 8th, 13th, 18th and 23rd, version digit
/// `4`, and an RFC 4122 variant digit.
pub open spec fn is_v4_hyphenated(s: Seq<char>) -> bool {
    &&& s.len() == 36
    &&& forall|i: int|
        0 <= i < 36 ==> if i == 8 || i == 13 || i == 18 || i == 23 {
            #[trigger] s[i] == '-'
        } else {
            is_lower_hex(s[i])
        }
    &&& s[14] == '4'
    &&& (s[19] == '8' || s[19] == '9' || s[19] == 'a' || s[19] == 'b')
}

/// Relies on `uuid::Uuid::new_v4` with `to_hyphenated` and `Display`: random
/// bytes with the version and variant bits set, written as lower-case hex in
/// hyphenated groups. (It panics if the system offers no random bytes.)
#[verifier::external_body]
fn fresh_user_identifier() -> (r: String)
    ensures
        is_v4_hyphenated(r@),
{
    uuid::Uuid::new_v4().to_hyphenated().to_string()
}

/// What the requisition manager does for a profile.
pub enum RequisitionPlan {
    /// Use the requisition on record; no request is made.
    Reuse(String),
    /// Create a requisition with this payload, then record its identifier.
    Create(RequisitionPayload),
}

/// The payload of a first requisition for the end user `enduser_id`.
pub open spec fn is_creation_payload(p: RequisitionPayload) -> bool {
    &&& is_v4_hyphenated(p.enduser_id@)
    &&& p.reference@ == APP_REFERENCE@
    &&& p.redirect@ == REDIRECT_URL@
    &&& p.agreements@.len() == 0
}

/// The plan for `p`: reuse when a requisition is on record.
pub open spec fn plans_reuse_of(p: Profile, plan: RequisitionPlan) -> bool {
    match p.client_identifier {
        Some(id) => plan == RequisitionPlan::Reuse(id),
        None => plan matches RequisitionPlan::Create(payload) && is_creation_payload(payload),
    }
}

/// Decides between reusing the requisition on record and creating the first
/// one under a fresh random end-user identifier.
pub fn ensure_requisition(profile: &Profile) -> (r: RequisitionPlan)
    ensures
        plans_reuse_of(*profile, r),
{
    match &profile.client_identifier {
        Some(id) => RequisitionPlan::Reuse(id.clone()),
        None => {
            let enduser_id = fresh_user_identifier();
            RequisitionPlan::Create(
                RequisitionPayload {
                    enduser_id,
                    reference: APP_REFERENCE.to_owned(),
                    redirect: REDIRECT_URL.to_owned(),
                    agreements: Vec::new(),
                },
            )
        },
    }
}

/// At most one requisition per profile: once the identifier `id` of a
/// created requisition is recorded, planning again reuses the requisition on
/// record (that is `id` when none was on record before) and creates none, and
/// recording further identifiers changes nothing.
pub proof fn requisition_created_once(p: Profile, id: String, later: String, plan: RequisitionPlan)
    requires
        plans_reuse_of(recorded(p, id), plan),
    ensures
        p.client_identifier is None ==> plan == RequisitionPlan::Reuse(id),
        p.client_identifier matches Some(old_id) ==> plan == RequisitionPlan::Reuse(old_id),
        recorded(recorded(p, id), later) == recorded(p, id),
{
}

} // verus!
