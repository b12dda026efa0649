//! Records of applications the blocker kept from opening.
use vstd::prelude::*;
use crate::clock::Timestamp;

verus! {

/// One blocked application, as it is stored.
#[derive(Clone, Debug)]
pub struct BlockedActivity {
    pub id: String,
    pub external_app_id: String,
    pub created_at: Option<Timestamp>,
    pub updated_at: Option<Timestamp>,
}

/// A blocked activity with its text read as character sequences.
pub struct BlockedActivityView {
    pub id: Seq<char>,
    pub external_app_id: Seq<char>,
    pub created_at: Option<Timestamp>,
    pub updated_at: Option<Timestamp>,
}

impl DeepView for BlockedActivity {
    type V = BlockedActivityView;

    open spec fn deep_view(&self) -> BlockedActivityView {
        self@
    }
}

impl View for BlockedActivity {
    type V = BlockedActivityView;

    open spec fn view(&self) -> BlockedActivityView {
        BlockedActivityView {
            id: self.id@,
            external_app_id: self.external_app_id@,
            created_at: self.created_at,
            updated_at: self.updated_at,
        }
    }
}

impl BlockedActivity {
    /// The record of `external_app_id` blocked at `now`, under the
    /// identifier `id`.
    pub fn blocked_at(id: String, external_app_id: String, now: Timestamp) -> (record: BlockedActivity)
        ensures
            record@ == (BlockedActivityView {
                id: id@,
                external_app_id: external_app_id@,
                created_at: Some(now),
                updated_at: Some(now),
            }),
    {
        BlockedActivity { id, external_app_id, created_at: Some(now), updated_at: Some(now) }
    }
}

} // verus!
