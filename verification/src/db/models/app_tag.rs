//! Weighted links between applications and tags.
use vstd::prelude::*;
use crate::clock::Timestamp;
use crate::utils::text::{copy_opt_text, copy_text};

verus! {

/// The weight of a full association, in thousandths.
pub const FULL_WEIGHT: u32 = 1000;

/// A link between an application and a tag. The weight is kept in
/// thousandths, so `FULL_WEIGHT` stands for 1.0.
#[derive(Clone, Debug)]
pub struct AppTag {
    pub id: Option<String>,
    pub app_id: String,
    pub tag_id: String,
    pub weight: u32,
    pub created_at: Option<Timestamp>,
    pub updated_at: Option<Timestamp>,
}

/// A link with its text read as character sequences.
pub struct AppTagView {
    pub id: Option<Seq<char>>,
    pub app_id: Seq<char>,
    pub tag_id: Seq<char>,
    pub weight: u32,
    pub created_at: Option<Timestamp>,
    pub updated_at: Option<Timestamp>,
}

impl DeepView for AppTag {
    type V = AppTagView;

    open spec fn deep_view(&self) -> AppTagView {
        self@
    }
}

impl View for AppTag {
    type V = AppTagView;

    open spec fn view(&self) -> AppTagView {
        AppTagView {
            id: self.id.deep_view(),
            app_id: self.app_id@,
            tag_id: self.tag_id@,
            weight: self.weight,
            created_at: self.created_at,
            updated_at: self.updated_at,
        }
    }
}

impl AppTag {
    /// The unsaved link of `app_id` to `tag_id` under the identifier `id`.
    pub fn linking(id: String, app_id: String, tag_id: String, weight: u32) -> (link: AppTag)
        ensures
            link@ == (AppTagView {
                id: Some(id@),
                app_id: app_id@,
                tag_id: tag_id@,
                weight,
                created_at: None,
                updated_at: None,
            }),
    {
        AppTag { id: Some(id), app_id, tag_id, weight, created_at: None, updated_at: None }
    }

    /// A copy with the same contents.
    pub fn duplicate(&self) -> (copy: AppTag)
        ensures
            copy@ == self@,
    {
        AppTag {
            id: copy_opt_text(&self.id),
            app_id: copy_text(&self.app_id),
            tag_id: copy_text(&self.tag_id),
            weight: self.weight,
            created_at: self.created_at,
            updated_at: self.updated_at,
        }
    }
}

} // verus!
