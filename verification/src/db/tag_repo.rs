//! Rows that attach tags to an activity state, kept free of duplicates.
use vstd::prelude::*;
use crate::db::models::app_tag::{AppTag, AppTagView};
use crate::db::models::tag::{Tag, TagView};
use crate::utils::text::{copy_opt_text, copy_text, same_opt_text, same_text};

verus! {

/// One tag attached to an activity state, with the application link it
/// came from when there is one.
#[derive(Clone, Debug)]
pub struct ActivityStateTag {
    pub activity_state_id: i64,
    pub app_tag_id: Option<String>,
    pub tag_id: String,
}

/// A row with its text read as character sequences.
pub struct TagRow {
    pub activity_state_id: i64,
    pub app_tag_id: Option<Seq<char>>,
    pub tag_id: Seq<char>,
}

impl DeepView for ActivityStateTag {
    type V = TagRow;

    open spec fn deep_view(&self) -> TagRow {
        self@
    }
}

impl View for ActivityStateTag {
    type V = TagRow;

    open spec fn view(&self) -> TagRow {
        TagRow {
            activity_state_id: self.activity_state_id,
            app_tag_id: self.app_tag_id.deep_view(),
            tag_id: self.tag_id@,
        }
    }
}

/// The row that attaches the tag of `link` to `activity_state_id`.
pub open spec fn row_of_link(activity_state_id: i64, link: AppTagView) -> TagRow {
    TagRow { activity_state_id, app_tag_id: link.id, tag_id: link.tag_id }
}

/// The row that attaches `tag_id` to `activity_state_id` with no link.
pub open spec fn row_of_tag(activity_state_id: i64, tag_id: Seq<char>) -> TagRow {
    TagRow { activity_state_id, app_tag_id: None, tag_id }
}

/// `n` copies of `group`, separated by commas.
pub open spec fn comma_joined(group: Seq<char>, n: nat) -> Seq<char>
    decreases n,
{
    if n == 0 {
        Seq::empty()
    } else if n == 1 {
        group
    } else {
        comma_joined(group, (n - 1) as nat) + seq![','] + group
    }
}

impl ActivityStateTag {
    /// Whether two rows attach the same tag through the same link to the
    /// same state.
    pub fn same_as(&self, other: &ActivityStateTag) -> (same: bool)
        ensures
            same == (self@ == other@),
    {
        self.activity_state_id == other.activity_state_id && same_opt_text(
            &self.app_tag_id,
            &other.app_tag_id,
        ) && same_text(self.tag_id.as_str(), other.tag_id.as_str())
    }

    /// A copy with the same contents.
    pub fn duplicate(&self) -> (copy: ActivityStateTag)
        ensures
            copy@ == self@,
    {
        ActivityStateTag {
            activity_state_id: self.activity_state_id,
            app_tag_id: copy_opt_text(&self.app_tag_id),
            tag_id: copy_text(&self.tag_id),
        }
    }
}

/// Whether `rows` holds a row equal to `row`.
pub fn contains_row(rows: &Vec<ActivityStateTag>, row: &ActivityStateTag) -> (found: bool)
    ensures
        found == rows.deep_view().contains(row@),
{
    let mut i: usize = 0;
    while i < rows.len()
        invariant
            i <= rows.len(),
            forall|j: int| 0 <= j < i ==> #[trigger] rows.deep_view()[j] != row@,
        decreases rows.len() - i,
    {
        if rows[i].same_as(row) {
            assert(rows.deep_view()[i as int] == row@);
            return true;
        }
        i = i + 1;
    }
    false
}

/// Adds `row` to `rows` unless an equal row is there already.
pub fn push_unique_row(rows: &mut Vec<ActivityStateTag>, row: ActivityStateTag)
    requires
        old(rows).deep_view().no_duplicates(),
    ensures
        final(rows).deep_view().no_duplicates(),
        old(rows).deep_view().contains(row@) ==> final(rows).deep_view() == old(rows).deep_view(),
        !old(rows).deep_view().contains(row@) ==> final(rows).deep_view() == old(rows).deep_view().push(
            row@,
        ),
        forall|r: TagRow|
            final(rows).deep_view().contains(r) <==> (old(rows).deep_view().contains(r) || r == row@),
{
    if !contains_row(rows, &row) {
        let ghost before = rows.deep_view();
        let ghost added = row@;
        rows.push(row);
        assert(rows.deep_view() =~= before.push(added));
        assert forall|r: TagRow| rows.deep_view().contains(r) <==> (before.contains(r) || r == added) by {
            if before.contains(r) {
                let i = choose|i: int| 0 <= i < before.len() && before[i] == r;
                assert(rows.deep_view()[i] == r);
            }
            if r == added {
                assert(rows.deep_view()[before.len() as int] == r);
            }
        }
    }
}

/// The rows that attach each of `tags` to `activity_state_id`, one per
/// distinct tag id. Tags without an id contribute nothing.
pub fn unique_tag_rows(activity_state_id: i64, tags: &Vec<Tag>) -> (rows: Vec<ActivityStateTag>)
    ensures
        rows.deep_view().no_duplicates(),
        forall|r: TagRow|
            rows.deep_view().contains(r) <==> exists|i: int|
                0 <= i < tags.len() && (#[trigger] tags.deep_view()[i]).id is Some && r == row_of_tag(
                    activity_state_id,
                    tags.deep_view()[i].id->0,
                ),
{
    let mut rows: Vec<ActivityStateTag> = Vec::new();
    let mut i: usize = 0;
    while i < tags.len()
        invariant
            i <= tags.len(),
            rows.deep_view().no_duplicates(),
            forall|r: TagRow|
                rows.deep_view().contains(r) <==> exists|j: int|
                    0 <= j < i && (#[trigger] tags.deep_view()[j]).id is Some && r == row_of_tag(
                        activity_state_id,
                        tags.deep_view()[j].id->0,
                    ),
        decreases tags.len() - i,
    {
        let ghost before = rows.deep_view();
        match &tags[i].id {
            Some(id) => {
                let row = ActivityStateTag {
                    activity_state_id,
                    app_tag_id: None,
                    tag_id: copy_text(id),
                };
                assert(row@ == row_of_tag(activity_state_id, tags.deep_view()[i as int].id->0));
                push_unique_row(&mut rows, row);
            },
            None => {},
        }
        i = i + 1;
    }
    rows
}

/// The rows that attach the tag of each of `app_tags` to
/// `activity_state_id`, one per distinct pair of link id and tag id.
pub fn unique_app_tag_rows(activity_state_id: i64, app_tags: &Vec<AppTag>) -> (rows: Vec<
    ActivityStateTag,
>)
    ensures
        rows.deep_view().no_duplicates(),
        forall|r: TagRow|
            rows.deep_view().contains(r) <==> exists|i: int|
                0 <= i < app_tags.len() && r == row_of_link(
                    activity_state_id,
                    #[trigger] app_tags.deep_view()[i],
                ),
{
    let mut rows: Vec<ActivityStateTag> = Vec::new();
    let mut i: usize = 0;
    while i < app_tags.len()
        invariant
            i <= app_tags.len(),
            rows.deep_view().no_duplicates(),
            forall|r: TagRow|
                rows.deep_view().contains(r) <==> exists|j: int|
                    0 <= j < i && r == row_of_link(activity_state_id, #[trigger] app_tags.deep_view()[j]),
        decreases app_tags.len() - i,
    {
        let row = ActivityStateTag {
            activity_state_id,
            app_tag_id: copy_opt_text(&app_tags[i].id),
            tag_id: copy_text(&app_tags[i].tag_id),
        };
        assert(row@ == row_of_link(activity_state_id, app_tags.deep_view()[i as int]));
        push_unique_row(&mut rows, row);
        i = i + 1;
    }
    rows
}

/// The rows of `derived` that `existing` does not hold yet: what is left
/// to insert so that no row is stored twice.
pub fn missing_rows(existing: &Vec<ActivityStateTag>, derived: &Vec<ActivityStateTag>) -> (rows: Vec<
    ActivityStateTag,
>)
    ensures
        rows.deep_view().no_duplicates(),
        forall|r: TagRow|
            rows.deep_view().contains(r) <==> (derived.deep_view().contains(r)
                && !existing.deep_view().contains(r)),
{
    let mut rows: Vec<ActivityStateTag> = Vec::new();
    let mut i: usize = 0;
    while i < derived.len()
        invariant
            i <= derived.len(),
            rows.deep_view().no_duplicates(),
            forall|r: TagRow|
                rows.deep_view().contains(r) <==> (derived.deep_view().take(i as int).contains(r)
                    && !existing.deep_view().contains(r)),
        decreases derived.len() - i,
    {
        let ghost seen = derived.deep_view().take(i as int);
        let ghost current = derived.deep_view()[i as int];
        if !contains_row(existing, &derived[i]) {
            push_unique_row(&mut rows, derived[i].duplicate());
        }
        proof {
            let next = derived.deep_view().take(i + 1);
            assert forall|r: TagRow| next.contains(r) <==> (seen.contains(r) || r == current) by {
                if seen.contains(r) {
                    let j = choose|j: int| 0 <= j < seen.len() && seen[j] == r;
                    assert(next[j] == r);
                }
                if r == current {
                    assert(next[i as int] == r);
                }
            }
        }
        i = i + 1;
    }
    proof {
        assert(derived.deep_view().take(i as int) =~= derived.deep_view());
    }
    rows
}

/// `count` copies of `group` separated by commas: the placeholder list
/// of a statement with `count` rows.
pub fn placeholders(group: &str, count: usize) -> (text: String)
    ensures
        text@ == comma_joined(group@, count as nat),
{
    let mut text = String::new();
    let mut i: usize = 0;
    while i < count
        invariant
            i <= count,
            text@ == comma_joined(group@, i as nat),
        decreases count - i,
    {
        if i > 0 {
            proof {
                reveal_strlit(",");
            }
            text.append(",");
        }
        text.append(group);
        i = i + 1;
    }
    text
}

/// Deriving the rows of a window a second time adds nothing. `first` is
/// what `missing_rows` hands out against the stored rows `existing`, and
/// `second` what it hands out once `first` has been stored too: `second`
/// is empty, and the stored rows still hold no row twice.
pub proof fn lemma_second_run_adds_nothing(
    existing: Seq<TagRow>,
    derived: Seq<TagRow>,
    first: Seq<TagRow>,
    second: Seq<TagRow>,
)
    requires
        existing.no_duplicates(),
        first.no_duplicates(),
        second.no_duplicates(),
        forall|r: TagRow| first.contains(r) <==> (derived.contains(r) && !existing.contains(r)),
        forall|r: TagRow| second.contains(r) <==> (derived.contains(r) && !(existing + first).contains(r)),
    ensures
        second.len() == 0,
        (existing + first).no_duplicates(),
        forall|r: TagRow| derived.contains(r) ==> (existing + first).contains(r),
{
    let stored = existing + first;
    assert forall|r: TagRow| derived.contains(r) implies stored.contains(r) by {
        if existing.contains(r) {
            let i = choose|i: int| 0 <= i < existing.len() && existing[i] == r;
            assert(stored[i] == r);
        } else {
            let i = choose|i: int| 0 <= i < first.len() && first[i] == r;
            assert(stored[existing.len() + i] == r);
        }
    }
    if second.len() > 0 {
        assert(second.contains(second[0]));
    }
    assert forall|i: int, j: int| 0 <= i < stored.len() && 0 <= j < stored.len() && i != j implies stored[i]
        != stored[j] by {
        if i < existing.len() && j >= existing.len() {
            assert(existing.contains(existing[i]));
        }
        if j < existing.len() && i >= existing.len() {
            assert(existing.contains(existing[j]));
        }
    }
}

} // verus!
