//! The application identity resolver: maps a window event to a durable
//! application, creating it on first sight.
//!
//! The resolver never touches storage itself. Each function here takes the
//! reply to the previous request and names the next one; the caller
//! performs the request and comes back with the reply.
use vstd::prelude::*;
use crate::db::error::StoreError;
use crate::db::models::app::{url_host, App, AppView};
use crate::db::models::app_tag::{AppTag, AppTagView, FULL_WEIGHT};
use crate::db::models::tag::{Tag, TagView};
use crate::event::WindowEvent;
use crate::utils::ids::{random_id, ID_LEN};
use crate::utils::text::copy_text;

verus! {

/// Name of the tag every new application starts with.
pub const DEFAULT_TAG_NAME: &'static str = "neutral";

/// Why a resolution ended without an identity.
#[derive(Clone, Copy, Debug, PartialEq, Eq, Structural)]
pub enum ResolveError {
    /// Storage failed; the failure is passed on to the caller.
    Store(StoreError),
    /// The tag every new application starts with is not seeded: the
    /// installation is broken and the process should stop.
    MissingDefaultTag,
}

/// What the caller has to do next.
#[derive(Debug)]
pub enum ResolveStep {
    /// Look up the application with the candidate's external id and call
    /// `after_find_app`.
    FindApp { candidate: App },
    /// Insert the candidate and call `after_save_app`.
    SaveApp { candidate: App },
    /// Another observer stored the application first: look it up again
    /// and call `after_find_app_again`.
    FindAppAgain { external_id: String },
    /// Look up the tag named `DEFAULT_TAG_NAME` and call
    /// `after_find_default_tag`.
    FindDefaultTag { app_id: String },
    /// Insert the link and call `after_save_default_tag`.
    SaveDefaultTag { app_id: String, link: AppTag },
    /// The application is resolved.
    Resolved { app_id: String },
    /// The resolution failed.
    Failed { error: ResolveError },
}

/// A step with its records read as plain values.
pub enum ResolveStepView {
    FindApp { candidate: AppView },
    SaveApp { candidate: AppView },
    FindAppAgain { external_id: Seq<char> },
    FindDefaultTag { app_id: Seq<char> },
    SaveDefaultTag { app_id: Seq<char>, link: AppTagView },
    Resolved { app_id: Seq<char> },
    Failed { error: ResolveError },
}

impl View for ResolveStep {
    type V = ResolveStepView;

    open spec fn view(&self) -> ResolveStepView {
        match self {
            ResolveStep::FindApp { candidate } => ResolveStepView::FindApp { candidate: candidate@ },
            ResolveStep::SaveApp { candidate } => ResolveStepView::SaveApp { candidate: candidate@ },
            ResolveStep::FindAppAgain { external_id } => ResolveStepView::FindAppAgain {
                external_id: external_id@,
            },
            ResolveStep::FindDefaultTag { app_id } => ResolveStepView::FindDefaultTag { app_id: app_id@ },
            ResolveStep::SaveDefaultTag { app_id, link } => ResolveStepView::SaveDefaultTag {
                app_id: app_id@,
                link: link@,
            },
            ResolveStep::Resolved { app_id } => ResolveStepView::Resolved { app_id: app_id@ },
            ResolveStep::Failed { error } => ResolveStepView::Failed { error: *error },
        }
    }
}

/// The reply to an application lookup, read as plain values.
pub open spec fn app_reply(found: Result<App, StoreError>) -> Result<AppView, StoreError> {
    match found {
        Ok(app) => Ok(app@),
        Err(e) => Err(e),
    }
}

/// The reply to a tag lookup, read as plain values.
pub open spec fn tag_reply(found: Result<Tag, StoreError>) -> Result<TagView, StoreError> {
    match found {
        Ok(tag) => Ok(tag@),
        Err(e) => Err(e),
    }
}

/// The step after a lookup found an application: its identity resolves
/// the event. A row without an id resolves nothing and reads as missing.
pub open spec fn resolved_as(app: AppView) -> ResolveStepView {
    match app.id {
        Some(id) => ResolveStepView::Resolved { app_id: id },
        None => ResolveStepView::Failed { error: ResolveError::Store(StoreError::NotFound) },
    }
}

/// The step after the first lookup: an application that exists resolves
/// the event and nothing else happens; one that is missing is created;
/// any other failure is passed on.
pub open spec fn spec_after_find_app(candidate: AppView, found: Result<AppView, StoreError>) -> ResolveStepView {
    match found {
        Ok(app) => resolved_as(app),
        Err(StoreError::NotFound) => ResolveStepView::SaveApp { candidate },
        Err(e) => ResolveStepView::Failed { error: ResolveError::Store(e) },
    }
}

/// The step after the insert: a stored candidate gets its default tag; a
/// uniqueness violation means another observer was first, so the stored
/// application is looked up and no tag is attached; any other failure is
/// passed on.
pub open spec fn spec_after_save_app(candidate: AppView, saved: Result<(), StoreError>) -> ResolveStepView {
    match saved {
        Ok(_) => match candidate.id {
            Some(id) => ResolveStepView::FindDefaultTag { app_id: id },
            None => ResolveStepView::Failed { error: ResolveError::Store(StoreError::NotFound) },
        },
        Err(StoreError::UniqueViolation) => ResolveStepView::FindAppAgain {
            external_id: candidate.app_external_id,
        },
        Err(e) => ResolveStepView::Failed { error: ResolveError::Store(e) },
    }
}

/// The step after the second lookup: the stored application resolves the
/// event; every error, a missing row too, is passed on.
pub open spec fn spec_after_find_app_again(found: Result<AppView, StoreError>) -> ResolveStepView {
    match found {
        Ok(app) => resolved_as(app),
        Err(e) => ResolveStepView::Failed { error: ResolveError::Store(e) },
    }
}

/// The step after the default tag was looked up: the tag is linked to
/// the new application with full weight under the identifier `link_id`.
/// A missing tag is a broken installation; a tag without an id, or any
/// other failure of the lookup, costs the application its default tag but
/// not its resolution.
pub open spec fn spec_after_find_default_tag(
    app_id: Seq<char>,
    found: Result<TagView, StoreError>,
    link_id: Seq<char>,
) -> ResolveStepView {
    match found {
        Ok(tag) => match tag.id {
            Some(tag_id) => ResolveStepView::SaveDefaultTag {
                app_id,
                link: AppTagView {
                    id: Some(link_id),
                    app_id,
                    tag_id,
                    weight: FULL_WEIGHT,
                    created_at: None,
                    updated_at: None,
                },
            },
            None => ResolveStepView::Resolved { app_id },
        },
        Err(StoreError::NotFound) => ResolveStepView::Failed { error: ResolveError::MissingDefaultTag },
        Err(_) => ResolveStepView::Resolved { app_id },
    }
}

/// The first step for a window event: look up the application it names.
/// The candidate carries a freshly drawn identifier.
pub fn handle_window_event(event: &WindowEvent) -> (step: ResolveStep)
    ensures
        step@ matches ResolveStepView::FindApp { candidate } && candidate.id is Some && candidate.id->0.len()
            == ID_LEN && candidate == App::spec_first_seen(
            event@,
            candidate.id->0,
            match event@.url {
                Some(url) => url_host(url),
                None => None,
            },
        ),
{
    ResolveStep::FindApp { candidate: App::new(event) }
}

/// The step after a lookup found `app`.
fn resolve_found(app: App) -> (step: ResolveStep)
    ensures
        step@ == resolved_as(app@),
{
    match app.id {
        Some(id) => ResolveStep::Resolved { app_id: id },
        None => ResolveStep::Failed { error: ResolveError::Store(StoreError::NotFound) },
    }
}

/// The step after the first lookup.
pub fn after_find_app(candidate: App, found: Result<App, StoreError>) -> (step: ResolveStep)
    ensures
        step@ == spec_after_find_app(candidate@, app_reply(found)),
{
    match found {
        Ok(app) => resolve_found(app),
        Err(StoreError::NotFound) => ResolveStep::SaveApp { candidate },
        Err(e) => ResolveStep::Failed { error: ResolveError::Store(e) },
    }
}

/// The step after the candidate was inserted.
pub fn after_save_app(candidate: App, saved: Result<(), StoreError>) -> (step: ResolveStep)
    ensures
        step@ == spec_after_save_app(candidate@, saved),
{
    match saved {
        Ok(_) => match candidate.id {
            Some(id) => ResolveStep::FindDefaultTag { app_id: id },
            None => ResolveStep::Failed { error: ResolveError::Store(StoreError::NotFound) },
        },
        Err(StoreError::UniqueViolation) => ResolveStep::FindAppAgain {
            external_id: candidate.app_external_id,
        },
        Err(e) => ResolveStep::Failed { error: ResolveError::Store(e) },
    }
}

/// The step after the second lookup.
pub fn after_find_app_again(found: Result<App, StoreError>) -> (step: ResolveStep)
    ensures
        step@ == spec_after_find_app_again(app_reply(found)),
{
    match found {
        Ok(app) => resolve_found(app),
        Err(e) => ResolveStep::Failed { error: ResolveError::Store(e) },
    }
}

/// The step after the default tag was looked up, with the identifier the
/// new link is to carry.
pub fn link_default_tag(app_id: String, found: Result<Tag, StoreError>, link_id: String) -> (step:
    ResolveStep)
    ensures
        step@ == spec_after_find_default_tag(app_id@, tag_reply(found), link_id@),
{
    match found {
        Ok(tag) => match tag.id {
            Some(tag_id) => {
                let link = AppTag::linking(link_id, copy_text(&app_id), tag_id, FULL_WEIGHT);
                ResolveStep::SaveDefaultTag { app_id, link }
            },
            None => ResolveStep::Resolved { app_id },
        },
        Err(StoreError::NotFound) => ResolveStep::Failed { error: ResolveError::MissingDefaultTag },
        Err(_) => ResolveStep::Resolved { app_id },
    }
}

/// The step after the default tag was looked up; the new link gets a
/// freshly drawn identifier.
pub fn after_find_default_tag(app_id: String, found: Result<Tag, StoreError>) -> (step: ResolveStep)
    ensures
        exists|link_id: Seq<char>|
            link_id.len() == ID_LEN && step@ == #[trigger] spec_after_find_default_tag(
                app_id@,
                tag_reply(found),
                link_id,
            ),
{
    let link_id = random_id();
    let ghost drawn = link_id@;
    let step = link_default_tag(app_id, found, link_id);
    assert(step@ == spec_after_find_default_tag(app_id@, tag_reply(found), drawn));
    step
}

/// The step after the link was inserted: the application is resolved
/// whether or not the link could be stored.
pub fn after_save_default_tag(app_id: String, saved: Result<(), StoreError>) -> (step: ResolveStep)
    ensures
        step@ == (ResolveStepView::Resolved { app_id: app_id@ }),
{
    ResolveStep::Resolved { app_id }
}

/// The applications in storage, by external id: storage keeps at most one
/// row per external id.
pub struct AppTable {
    pub rows: Map<Seq<char>, AppView>,
}

impl AppTable {
    /// The reply to a lookup by external id.
    pub open spec fn find(self, external_id: Seq<char>) -> Result<AppView, StoreError> {
        if self.rows.contains_key(external_id) {
            Ok(self.rows[external_id])
        } else {
            Err(StoreError::NotFound)
        }
    }

    /// The table after an insert: a row whose external id is taken is
    /// refused and changes nothing.
    pub open spec fn save(self, app: AppView) -> AppTable {
        if self.rows.contains_key(app.app_external_id) {
            self
        } else {
            AppTable { rows: self.rows.insert(app.app_external_id, app) }
        }
    }

    /// The reply to an insert.
    pub open spec fn save_reply(self, app: AppView) -> Result<(), StoreError> {
        if self.rows.contains_key(app.app_external_id) {
            Err(StoreError::UniqueViolation)
        } else {
            Ok(())
        }
    }
}

/// An application that is stored resolves to its stored identity, and
/// nothing is created.
pub proof fn lemma_known_app_resolves(table: AppTable, candidate: AppView)
    requires
        table.rows.contains_key(candidate.app_external_id),
        table.rows[candidate.app_external_id].id is Some,
    ensures
        spec_after_find_app(candidate, table.find(candidate.app_external_id)) == (
        ResolveStepView::Resolved { app_id: table.rows[candidate.app_external_id].id->0 }),
{
}

/// Two observers that see the same new external id at once leave exactly
/// one application behind. Both find nothing and both insert; the first
/// insert is stored, the second is refused as a duplicate, and the second
/// observer resolves to the identity the first one stored.
pub proof fn lemma_racing_first_sight(table: AppTable, first: AppView, second: AppView)
    requires
        first.app_external_id == second.app_external_id,
        first.id is Some,
        !table.rows.contains_key(first.app_external_id),
    ensures
        ({
            let key = first.app_external_id;
            let after_first = table.save(first);
            let after_both = after_first.save(second);
            &&& spec_after_find_app(first, table.find(key)) == (ResolveStepView::SaveApp { candidate: first })
            &&& spec_after_find_app(second, table.find(key)) == (ResolveStepView::SaveApp {
                candidate: second,
            })
            &&& spec_after_save_app(first, table.save_reply(first)) == (ResolveStepView::FindDefaultTag {
                app_id: first.id->0,
            })
            &&& spec_after_save_app(second, after_first.save_reply(second)) == (
            ResolveStepView::FindAppAgain { external_id: key })
            &&& spec_after_find_app_again(after_both.find(key)) == (ResolveStepView::Resolved {
                app_id: first.id->0,
            })
            &&& after_both.rows == table.rows.insert(key, first)
            &&& after_both.rows.dom() == table.rows.dom().insert(key)
        }),
{
    let key = first.app_external_id;
    let after_first = table.save(first);
    let after_both = after_first.save(second);
    assert(after_first.rows.contains_key(key));
    assert(after_both.rows =~= table.rows.insert(key, first));
    assert(after_both.rows.dom() =~= table.rows.dom().insert(key));
}

} // verus!
