//! Tag derivation: which productivity tags label a window of activity.
use vstd::prelude::*;
use crate::db::models::activity::{Activity, ActivityType, ActivityView};
use crate::db::models::app_tag::{AppTag, AppTagView};
use crate::db::models::tag::{Tag, TagView};
use crate::db::tag_repo::{push_unique_row, row_of_link, row_of_tag, unique_tag_rows, ActivityStateTag, TagRow};
use crate::utils::text::{contains_text, copy_opt_text, copy_text, push_unique_text, same_opt_text, same_text};

verus! {

/// Whether `id` is the application of some window activity in `activities`.
pub open spec fn seen_in_window(activities: Seq<ActivityView>, id: Seq<char>) -> bool {
    exists|i: int|
        0 <= i < activities.len() && (#[trigger] activities[i]).activity_type == ActivityType::Window
            && activities[i].app_id == Some(id)
}

/// Whether no window activity in `activities` names an application.
pub open spec fn no_window_apps(activities: Seq<ActivityView>) -> bool {
    forall|id: Seq<char>| !seen_in_window(activities, id)
}

/// Whether `id` is one of the applications a window is attributed to:
/// those of its window activities, or, when it has none, the application
/// of the last window activity before it.
pub open spec fn contributes(
    activities: Seq<ActivityView>,
    last_window_activity: Option<ActivityView>,
    id: Seq<char>,
) -> bool {
    if no_window_apps(activities) {
        last_window_activity is Some && last_window_activity->0.app_id == Some(id)
    } else {
        seen_in_window(activities, id)
    }
}

/// Whether `tag_id` names a tag of the default type among `tags`.
pub open spec fn is_default_tag_id(tags: Seq<TagView>, tag_id: Seq<char>) -> bool {
    exists|i: int| 0 <= i < tags.len() && (#[trigger] tags[i]).id == Some(tag_id) && tags[i].is_default_type()
}

/// Whether `app` has a link to a tag of the default type.
pub open spec fn app_has_default_tag(app: Seq<char>, links: Seq<AppTagView>, tags: Seq<TagView>) -> bool {
    exists|j: int| 0 <= j < links.len() && (#[trigger] links[j]).app_id == app && is_default_tag_id(tags, links[j].tag_id)
}

/// Whether the fallback tag is owed: the window has no application at
/// all, or one of its applications has no tag of the default type.
pub open spec fn fallback_owed(apps: Seq<Seq<char>>, links: Seq<AppTagView>, tags: Seq<TagView>) -> bool {
    apps.len() == 0 || exists|k: int| 0 <= k < apps.len() && !app_has_default_tag(#[trigger] apps[k], links, tags)
}

/// Whether `link` ties one of `apps` to a tag of the default type.
pub open spec fn link_counts(link: AppTagView, apps: Seq<Seq<char>>, tags: Seq<TagView>) -> bool {
    apps.contains(link.app_id) && is_default_tag_id(tags, link.tag_id)
}

/// Whether `row` belongs to the labelling of a window attributed to
/// `apps`: it attaches, to the given state, either the tag of a link that
/// counts, or the fallback tag where that is owed.
pub open spec fn is_derived(
    row: TagRow,
    activity_state_id: i64,
    apps: Seq<Seq<char>>,
    links: Seq<AppTagView>,
    tags: Seq<TagView>,
    fallback_tag_id: Seq<char>,
) -> bool {
    ||| exists|j: int|
        0 <= j < links.len() && link_counts(#[trigger] links[j], apps, tags) && row == row_of_link(
            activity_state_id,
            links[j],
        )
    ||| fallback_owed(apps, links, tags) && row == row_of_tag(activity_state_id, fallback_tag_id)
}

/// The applications of the window activities in `activities`, each once.
pub fn window_app_ids(activities: &Vec<Activity>) -> (app_ids: Vec<String>)
    ensures
        app_ids.deep_view().no_duplicates(),
        forall|id: Seq<char>| app_ids.deep_view().contains(id) <==> seen_in_window(activities.deep_view(), id),
{
    let mut app_ids: Vec<String> = Vec::new();
    let mut i: usize = 0;
    while i < activities.len()
        invariant
            i <= activities.len(),
            app_ids.deep_view().no_duplicates(),
            forall|id: Seq<char>|
                app_ids.deep_view().contains(id) <==> seen_in_window(activities.deep_view().take(i as int), id),
        decreases activities.len() - i,
    {
        let ghost seen = activities.deep_view().take(i as int);
        let ghost before = app_ids.deep_view();
        let ghost current = activities.deep_view()[i as int];
        let activity = &activities[i];
        match activity.activity_type {
            ActivityType::Window => match &activity.app_id {
                Some(id) => {
                    push_unique_text(&mut app_ids, id.as_str());
                },
                None => {},
            },
            _ => {},
        }
        proof {
            let next = activities.deep_view().take(i + 1);
            let now = app_ids.deep_view();
            assert forall|id: Seq<char>| now.contains(id) <==> seen_in_window(next, id) by {
                if seen_in_window(seen, id) {
                    let j = choose|j: int|
                        0 <= j < seen.len() && (#[trigger] seen[j]).activity_type == ActivityType::Window
                            && seen[j].app_id == Some(id);
                    assert(next[j] == seen[j]);
                }
                if seen_in_window(next, id) {
                    let j = choose|j: int|
                        0 <= j < next.len() && (#[trigger] next[j]).activity_type == ActivityType::Window
                            && next[j].app_id == Some(id);
                    assert(j < i ==> seen[j] == next[j]);
                }
                if current.activity_type == ActivityType::Window && current.app_id == Some(id) {
                    assert(next[i as int] == current);
                }
                if before.contains(id) {
                    let j = choose|j: int| 0 <= j < before.len() && before[j] == id;
                    assert(now[j] == id);
                }
                if now != before {
                    assert(now[before.len() as int] == current.app_id->0);
                }
            }
        }
        i = i + 1;
    }
    proof {
        assert(activities.deep_view().take(i as int) =~= activities.deep_view());
    }
    app_ids
}

/// The applications a window is attributed to: those of its window
/// activities, or, when it has none, the application of the last window
/// activity before it, if that has one.
pub fn app_ids_for_tags(activities: &Vec<Activity>, last_window_activity: Option<&Activity>) -> (app_ids:
    Vec<String>)
    ensures
        app_ids.deep_view().no_duplicates(),
        forall|id: Seq<char>|
            app_ids.deep_view().contains(id) <==> contributes(
                activities.deep_view(),
                match last_window_activity {
                    Some(a) => Some(a@),
                    None => None,
                },
                id,
            ),
{
    let mut app_ids = window_app_ids(activities);
    if app_ids.len() == 0 {
        proof {
            assert forall|id: Seq<char>| !seen_in_window(activities.deep_view(), id) by {
                assert(!app_ids.deep_view().contains(id));
            }
        }
        match last_window_activity {
            Some(last) => match &last.app_id {
                Some(id) => {
                    let ghost before = app_ids.deep_view();
                    app_ids.push(copy_text(id));
                    proof {
                        let now = app_ids.deep_view();
                        assert(now[0] == id@);
                    }
                },
                None => {},
            },
            None => {},
        }
    } else {
        proof {
            let first = app_ids.deep_view()[0];
            assert(app_ids.deep_view().contains(first));
        }
    }
    app_ids
}

/// Whether `tag_id` names a tag of the default type among `tags`.
pub fn has_default_tag(tags: &Vec<Tag>, tag_id: &str) -> (found: bool)
    ensures
        found == is_default_tag_id(tags.deep_view(), tag_id@),
{
    let mut i: usize = 0;
    while i < tags.len()
        invariant
            i <= tags.len(),
            forall|j: int|
                0 <= j < i ==> !((#[trigger] tags.deep_view()[j]).id == Some(tag_id@)
                    && tags.deep_view()[j].is_default_type()),
        decreases tags.len() - i,
    {
        let matches_id = match &tags[i].id {
            Some(id) => same_text(id.as_str(), tag_id),
            None => false,
        };
        if matches_id && tags[i].is_default_type() {
            assert(tags.deep_view()[i as int].id == Some(tag_id@));
            return true;
        }
        i = i + 1;
    }
    false
}

/// Whether `app_id` has a link in `app_tags` to a tag of the default type.
pub fn has_default_link(app_id: &str, app_tags: &Vec<AppTag>, tags: &Vec<Tag>) -> (found: bool)
    ensures
        found == app_has_default_tag(app_id@, app_tags.deep_view(), tags.deep_view()),
{
    let mut j: usize = 0;
    while j < app_tags.len()
        invariant
            j <= app_tags.len(),
            forall|k: int|
                0 <= k < j ==> !((#[trigger] app_tags.deep_view()[k]).app_id == app_id@
                    && is_default_tag_id(tags.deep_view(), app_tags.deep_view()[k].tag_id)),
        decreases app_tags.len() - j,
    {
        if same_text(app_tags[j].app_id.as_str(), app_id) && has_default_tag(
            tags,
            app_tags[j].tag_id.as_str(),
        ) {
            assert(app_tags.deep_view()[j as int].app_id == app_id@);
            return true;
        }
        j = j + 1;
    }
    false
}

/// Whether the fallback tag is owed for a window attributed to `app_ids`.
pub fn needs_fallback(app_ids: &Vec<String>, app_tags: &Vec<AppTag>, tags: &Vec<Tag>) -> (owed: bool)
    ensures
        owed == fallback_owed(app_ids.deep_view(), app_tags.deep_view(), tags.deep_view()),
{
    if app_ids.len() == 0 {
        return true;
    }
    let mut k: usize = 0;
    while k < app_ids.len()
        invariant
            k <= app_ids.len(),
            app_ids.len() > 0,
            forall|m: int|
                0 <= m < k ==> app_has_default_tag(
                    #[trigger] app_ids.deep_view()[m],
                    app_tags.deep_view(),
                    tags.deep_view(),
                ),
        decreases app_ids.len() - k,
    {
        if !has_default_link(app_ids[k].as_str(), app_tags, tags) {
            assert(!app_has_default_tag(app_ids.deep_view()[k as int], app_tags.deep_view(), tags.deep_view()));
            return true;
        }
        k = k + 1;
    }
    false
}

/// The rows that label the state `activity_state_id` of a window
/// attributed to `app_ids`: one for each distinct link that ties one of
/// those applications to a tag of the default type, and one for the
/// fallback tag when an application has no such tag or there is no
/// application at all. No row comes twice, and there is always at least one.
pub fn derive_tag_rows(
    activity_state_id: i64,
    app_ids: &Vec<String>,
    app_tags: &Vec<AppTag>,
    tags: &Vec<Tag>,
    fallback_tag_id: &str,
) -> (rows: Vec<ActivityStateTag>)
    ensures
        rows.deep_view().no_duplicates(),
        rows.len() >= 1,
        forall|r: TagRow|
            rows.deep_view().contains(r) <==> is_derived(
                r,
                activity_state_id,
                app_ids.deep_view(),
                app_tags.deep_view(),
                tags.deep_view(),
                fallback_tag_id@,
            ),
{
    let ghost apps = app_ids.deep_view();
    let ghost links = app_tags.deep_view();
    let ghost kinds = tags.deep_view();
    let mut rows: Vec<ActivityStateTag> = Vec::new();
    let mut j: usize = 0;
    while j < app_tags.len()
        invariant
            j <= app_tags.len(),
            apps == app_ids.deep_view(),
            links == app_tags.deep_view(),
            kinds == tags.deep_view(),
            rows.deep_view().no_duplicates(),
            forall|r: TagRow|
                rows.deep_view().contains(r) <==> exists|m: int|
                    0 <= m < j && link_counts(#[trigger] links[m], apps, kinds) && r == row_of_link(
                        activity_state_id,
                        links[m],
                    ),
        decreases app_tags.len() - j,
    {
        let link = &app_tags[j];
        if contains_text(app_ids, link.app_id.as_str()) && has_default_tag(tags, link.tag_id.as_str()) {
            let row = ActivityStateTag {
                activity_state_id,
                app_tag_id: copy_opt_text(&link.id),
                tag_id: copy_text(&link.tag_id),
            };
            assert(row@ == row_of_link(activity_state_id, links[j as int]));
            push_unique_row(&mut rows, row);
        }
        j = j + 1;
    }
    let owed = needs_fallback(app_ids, app_tags, tags);
    if owed {
        let row = ActivityStateTag {
            activity_state_id,
            app_tag_id: None,
            tag_id: String::from_str(fallback_tag_id),
        };
        push_unique_row(&mut rows, row);
        proof {
            assert(rows.deep_view().contains(row_of_tag(activity_state_id, fallback_tag_id@)));
        }
    } else {
        proof {
            // Every application has a default tag, and there is at least one.
            let app = apps[0];
            let m = choose|m: int|
                0 <= m < links.len() && (#[trigger] links[m]).app_id == app && is_default_tag_id(
                    kinds,
                    links[m].tag_id,
                );
            assert(apps.contains(links[m].app_id));
            assert(rows.deep_view().contains(row_of_link(activity_state_id, links[m])));
        }
    }
    proof {
        // Some row is among them, so there is at least one.
        let some_row = choose|r: TagRow| rows.deep_view().contains(r);
        assert(rows.deep_view().contains(some_row));
    }
    rows
}

/// The rows that label the state of a window: the applications it is
/// attributed to are read off its activities (see `app_ids_for_tags`),
/// and the rows derived from their links (see `derive_tag_rows`).
pub fn create_tags_from_activities(
    activities: &Vec<Activity>,
    last_window_activity: Option<&Activity>,
    app_tags: &Vec<AppTag>,
    tags: &Vec<Tag>,
    fallback_tag_id: &str,
    activity_state_id: i64,
) -> (rows: Vec<ActivityStateTag>)
    ensures
        rows.deep_view().no_duplicates(),
        rows.len() >= 1,
        exists|apps: Seq<Seq<char>>|
            {
                &&& apps.no_duplicates()
                &&& forall|id: Seq<char>|
                    apps.contains(id) <==> contributes(
                        activities.deep_view(),
                        match last_window_activity {
                            Some(a) => Some(a@),
                            None => None,
                        },
                        id,
                    )
                &&& forall|r: TagRow|
                    rows.deep_view().contains(r) <==> #[trigger] is_derived(
                        r,
                        activity_state_id,
                        apps,
                        app_tags.deep_view(),
                        tags.deep_view(),
                        fallback_tag_id@,
                    )
            },
{
    let app_ids = app_ids_for_tags(activities, last_window_activity);
    let rows = derive_tag_rows(activity_state_id, &app_ids, app_tags, tags, fallback_tag_id);
    proof {
        let apps = app_ids.deep_view();
        assert(forall|r: TagRow|
            rows.deep_view().contains(r) <==> #[trigger] is_derived(
                r,
                activity_state_id,
                apps,
                app_tags.deep_view(),
                tags.deep_view(),
                fallback_tag_id@,
            ));
    }
    rows
}

/// The rows that label an inactive window: the idle tag alone. A tag
/// record without an id yields no row.
pub fn create_idle_tag(activity_state_id: i64, idle_tag: &Tag) -> (rows: Vec<ActivityStateTag>)
    ensures
        idle_tag@.id is Some ==> rows.deep_view() == seq![row_of_tag(activity_state_id, idle_tag@.id->0)],
        idle_tag@.id is None ==> rows.deep_view() == Seq::<TagRow>::empty(),
{
    let mut rows: Vec<ActivityStateTag> = Vec::new();
    match &idle_tag.id {
        Some(id) => {
            rows.push(
                ActivityStateTag { activity_state_id, app_tag_id: None, tag_id: copy_text(id) },
            );
            assert(rows.deep_view() =~= seq![row_of_tag(activity_state_id, idle_tag@.id->0)]);
        },
        None => {
            assert(rows.deep_view() =~= Seq::<TagRow>::empty());
        },
    }
    rows
}

/// An application without a tag of the default type brings the fallback
/// tag into the labelling of its window.
pub proof fn lemma_untagged_app_gets_fallback(
    app: Seq<char>,
    activity_state_id: i64,
    apps: Seq<Seq<char>>,
    links: Seq<AppTagView>,
    tags: Seq<TagView>,
    fallback_tag_id: Seq<char>,
)
    requires
        apps.contains(app),
        !app_has_default_tag(app, links, tags),
    ensures
        is_derived(
            row_of_tag(activity_state_id, fallback_tag_id),
            activity_state_id,
            apps,
            links,
            tags,
            fallback_tag_id,
        ),
{
    let k = choose|k: int| 0 <= k < apps.len() && apps[k] == app;
    assert(!app_has_default_tag(apps[k], links, tags));
}

/// Every link that ties one of the window's applications to a tag of the
/// default type brings that tag into the labelling, with the link it came from.
pub proof fn lemma_tagged_app_keeps_its_tag(
    j: int,
    activity_state_id: i64,
    apps: Seq<Seq<char>>,
    links: Seq<AppTagView>,
    tags: Seq<TagView>,
    fallback_tag_id: Seq<char>,
)
    requires
        0 <= j < links.len(),
        apps.contains(links[j].app_id),
        is_default_tag_id(tags, links[j].tag_id),
    ensures
        is_derived(
            row_of_link(activity_state_id, links[j]),
            activity_state_id,
            apps,
            links,
            tags,
            fallback_tag_id,
        ),
{
}

/// A labelling is never empty: some row is always derived.
pub proof fn lemma_never_zero_tags(
    activity_state_id: i64,
    apps: Seq<Seq<char>>,
    links: Seq<AppTagView>,
    tags: Seq<TagView>,
    fallback_tag_id: Seq<char>,
)
    ensures
        exists|r: TagRow| #[trigger] is_derived(r, activity_state_id, apps, links, tags, fallback_tag_id),
{
    if fallback_owed(apps, links, tags) {
        assert(is_derived(
            row_of_tag(activity_state_id, fallback_tag_id),
            activity_state_id,
            apps,
            links,
            tags,
            fallback_tag_id,
        ));
    } else {
        let app = apps[0];
        let j = choose|j: int|
            0 <= j < links.len() && (#[trigger] links[j]).app_id == app && is_default_tag_id(tags, links[j].tag_id);
        lemma_tagged_app_keeps_its_tag(j, activity_state_id, apps, links, tags, fallback_tag_id);
    }
}

} // verus!
