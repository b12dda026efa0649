//! Tags: named productivity categories.
use vstd::prelude::*;
use crate::clock::Timestamp;
use crate::utils::text::{copy_opt_text, copy_text, same_text};

verus! {

/// A named category such as "creating", "consuming", "neutral" or "idle".
#[derive(Clone, Debug)]
pub struct Tag {
    pub id: Option<String>,
    pub created_at: Option<Timestamp>,
    pub updated_at: Option<Timestamp>,
    pub name: String,
    pub tag_type: Option<String>,
    pub parent_tag_id: Option<String>,
    pub is_default: bool,
    pub is_blocked: bool,
}

/// A tag with its text read as character sequences.
pub struct TagView {
    pub id: Option<Seq<char>>,
    pub created_at: Option<Timestamp>,
    pub updated_at: Option<Timestamp>,
    pub name: Seq<char>,
    pub tag_type: Option<Seq<char>>,
    pub parent_tag_id: Option<Seq<char>>,
    pub is_default: bool,
    pub is_blocked: bool,
}

impl DeepView for Tag {
    type V = TagView;

    open spec fn deep_view(&self) -> TagView {
        self@
    }
}

impl View for Tag {
    type V = TagView;

    open spec fn view(&self) -> TagView {
        TagView {
            id: self.id.deep_view(),
            created_at: self.created_at,
            updated_at: self.updated_at,
            name: self.name@,
            tag_type: self.tag_type.deep_view(),
            parent_tag_id: self.parent_tag_id.deep_view(),
            is_default: self.is_default,
            is_blocked: self.is_blocked,
        }
    }
}

impl TagView {
    /// Whether the tag is of the default type, the one tag derivation uses.
    pub open spec fn is_default_type(self) -> bool {
        self.tag_type == Some("default"@)
    }
}

impl Tag {
    /// Whether the tag is of the default type.
    pub fn is_default_type(&self) -> (default: bool)
        ensures
            default == self@.is_default_type(),
    {
        match &self.tag_type {
            Some(kind) => same_text(kind.as_str(), "default"),
            None => false,
        }
    }

    /// A copy with the same contents.
    pub fn duplicate(&self) -> (copy: Tag)
        ensures
            copy@ == self@,
    {
        Tag {
            id: copy_opt_text(&self.id),
            created_at: self.created_at,
            updated_at: self.updated_at,
            name: copy_text(&self.name),
            tag_type: copy_opt_text(&self.tag_type),
            parent_tag_id: copy_opt_text(&self.parent_tag_id),
            is_default: self.is_default,
            is_blocked: self.is_blocked,
        }
    }
}

} // verus!
