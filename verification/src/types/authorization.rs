//! The authorization record: an identity token paired with optional
//! status/expiry/parent metadata (the "IdTagInfo" concept). Composition is
//! pure — any validation already happened when the embedded tokens were
//! constructed — and the optionality of the metadata block is carried
//! faithfully, since its absence is meaningful to list-update consumers.

use vstd::prelude::*;

use crate::types::datetime::UtcTimestamp;
use crate::types::enumerations::AuthorizationStatus;
use crate::types::id_token::IdToken;

verus! {

/// Status, expiry and parent information about an identity token.
#[derive(Debug)]
pub struct IdTagInfo {
    /// Point in time at which the authorization expires, if any.
    pub expiry_date: Option<UtcTimestamp>,
    /// The parent identity token, used to model token hierarchies (e.g. a
    /// fleet card authorizing sub-tags), if any.
    pub parent_id_tag: Option<IdToken>,
    /// Whether the identifier is allowed for charging.
    pub status: AuthorizationStatus,
}

impl IdTagInfo {
    /// Pure composition: every field is held exactly as given. No
    /// cross-field rule applies (an expiry in the past is not rejected;
    /// that decision belongs to the caller).
    pub fn new(
        status: AuthorizationStatus,
        expiry_date: Option<UtcTimestamp>,
        parent_id_tag: Option<IdToken>,
    ) -> (r: IdTagInfo)
        ensures
            r.status == status,
            r.expiry_date == expiry_date,
            r.parent_id_tag == parent_id_tag,
    {
        IdTagInfo { expiry_date, parent_id_tag, status }
    }
}

/// One entry of a local authorization list: the identifier together with
/// the metadata that applies to it.
#[derive(Debug)]
pub struct AuthorizationData {
    /// The identifier to which this authorization applies.
    pub id_tag: IdToken,
    /// Information about authorization status, expiry and parent id. For a
    /// differential update the following applies: if this element is
    /// present, the entry shall be added or updated in the local
    /// authorization list; if it is absent, the entry shall be deleted.
    /// This record only carries the optionality; interpreting it belongs to
    /// the consumer.
    pub id_tag_info: Option<IdTagInfo>,
}

impl AuthorizationData {
    /// Pure composition: the token and the metadata block are held exactly
    /// as given. In particular an absent metadata block stays absent,
    /// distinguishable from one that is present with all optional
    /// sub-fields absent.
    pub fn new(id_tag: IdToken, id_tag_info: Option<IdTagInfo>) -> (r: AuthorizationData)
        ensures
            r.id_tag == id_tag,
            r.id_tag_info == id_tag_info,
            (r.id_tag_info is None) == (id_tag_info is None),
    {
        AuthorizationData { id_tag, id_tag_info }
    }
}

} // verus!
