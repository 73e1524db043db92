//! Properties of what the window shows and of how values are viewed: each
//! states, over all inputs, what a view-model decision or a view is.

use vstd::prelude::*;

use crate::categorize::{NO_SCORE, fallback_category, has_winner, is_first_best};
use crate::text::{decimal, is_white_space};
use crate::thought::{Thought, ThoughtView};
use crate::train::{
    AiStatus,
    AiStatusView,
    Effect,
    EffectView,
    Message,
    MessageView,
    StoreWrite,
    StoreWriteView,
    ThoughtQuery,
    ThoughtQueryView,
    ThoughtTrain,
    category_for,
    effects_view,
    like_pattern,
    opt_str_view,
    strings_view,
};
use crate::thought::thoughts_view;
use crate::view_model::{
    CategoryIcon,
    PinAction,
    SidebarEntry,
    StatusTone,
    ThoughtRow,
    filter_label_of,
    icon_of,
    is_entry_of,
    is_row_of,
    marks_of,
    tone_of,
};

verus! {

/// The code points of the Unicode `White_Space` property.
pub open spec fn white_space_points() -> Seq<u32> {
    seq![
        0x09u32, 0x0A, 0x0B, 0x0C, 0x0D, 0x20, 0x85, 0xA0, 0x1680, 0x2000, 0x2001, 0x2002,
        0x2003, 0x2004, 0x2005, 0x2006, 0x2007, 0x2008, 0x2009, 0x200A, 0x2028, 0x2029, 0x202F,
        0x205F, 0x3000,
    ]
}

/// A character is white space exactly when its code point is one of the
/// twenty-five of the Unicode `White_Space` property.
pub proof fn law_white_space_is_the_unicode_set(c: char)
    ensures
        is_white_space(c) <==> white_space_points().contains(c as u32),
{
    let u = c as u32;
    let p = white_space_points();
    if is_white_space(c) {
        if 0x09 <= u <= 0x0D {
            assert(p[(u - 0x09) as int] == u);
        } else if 0x2000 <= u <= 0x200A {
            assert(p[(u - 0x2000 + 9) as int] == u);
        } else if u == 0x20 {
            assert(p[5] == u);
        } else if u == 0x85 {
            assert(p[6] == u);
        } else if u == 0xA0 {
            assert(p[7] == u);
        } else if u == 0x1680 {
            assert(p[8] == u);
        } else if u == 0x2028 {
            assert(p[20] == u);
        } else if u == 0x2029 {
            assert(p[21] == u);
        } else if u == 0x202F {
            assert(p[22] == u);
        } else if u == 0x205F {
            assert(p[23] == u);
        } else {
            assert(p[24] == u);
        }
    }
}

/// A new thought gets the categorizer's suggestion when there is one, and
/// "Misc" otherwise.
pub proof fn law_new_thought_category(c: Seq<char>)
    ensures
        category_for(Some(c)) == c,
        category_for(None) == "Misc"@,
{
}

/// The search pattern is the query between two `%` wildcards.
pub proof fn law_search_pattern(q: Seq<char>)
    ensures
        like_pattern(q) == "%"@ + q + "%"@,
        like_pattern(q).len() == q.len() + 2,
{
    reveal_strlit("%");
}

/// The built-in categories each have their own icon; every other name has
/// the generic icon.
pub proof fn law_category_icons(n: Seq<char>)
    ensures
        (icon_of(n) == CategoryIcon::Work) == (n == "Work"@),
        (icon_of(n) == CategoryIcon::Personal) == (n == "Personal"@),
        (icon_of(n) == CategoryIcon::Ideas) == (n == "Ideas"@),
        (icon_of(n) == CategoryIcon::Tasks) == (n == "Tasks"@),
        (icon_of(n) == CategoryIcon::Health) == (n == "Health"@),
        (icon_of(n) == CategoryIcon::Finance) == (n == "Finance"@),
        (icon_of(n) == CategoryIcon::Learning) == (n == "Learning"@),
        (icon_of(n) == CategoryIcon::Misc) == (n == "Misc"@),
        (icon_of(n) == CategoryIcon::Generic) == !(n == "Work"@ || n == "Personal"@ || n
            == "Ideas"@ || n == "Tasks"@ || n == "Health"@ || n == "Finance"@ || n
            == "Learning"@ || n == "Misc"@),
{
    reveal_strlit("Work");
    reveal_strlit("Personal");
    reveal_strlit("Ideas");
    reveal_strlit("Tasks");
    reveal_strlit("Health");
    reveal_strlit("Finance");
    reveal_strlit("Learning");
    reveal_strlit("Misc");
    let names = seq!["Work"@, "Personal"@, "Ideas"@, "Tasks"@, "Health"@, "Finance"@,
        "Learning"@, "Misc"@];
    assert(names[0][0] == 'W' && names[1][0] == 'P' && names[2][0] == 'I' && names[3][0] == 'T');
    assert(names[4][0] == 'H' && names[5][0] == 'F' && names[6][0] == 'L' && names[7][0] == 'M');
    assert forall|i: int, j: int| 0 <= i < 8 && 0 <= j < 8 && i != j implies names[i]
        != names[j] by {
        assert(names[i][0] != names[j][0]);
    }
    assert(names[0] != names[1] && names[0] != names[2] && names[0] != names[3]);
    assert(names[1] != names[2] && names[1] != names[3] && names[2] != names[3]);
    assert(names[2] != names[4] && names[2] != names[5] && names[2] != names[6] && names[2]
        != names[7]);
    assert(names[1] != names[4] && names[1] != names[5] && names[1] != names[6] && names[1]
        != names[7]);
    assert(names[3] != names[4] && names[3] != names[5] && names[3] != names[6] && names[3]
        != names[7]);
    assert(names[4] != names[5] && names[4] != names[6] && names[4] != names[7]);
    assert(names[5] != names[6] && names[5] != names[7] && names[6] != names[7]);
    assert(names[0] != names[4] && names[0] != names[5] && names[0] != names[6] && names[0]
        != names[7]);
}

/// A sidebar entry is labelled with its category, selects that category,
/// is highlighted exactly when it is the active filter, shows the
/// category's icon, and has a delete control, which deletes that category,
/// exactly when the category is not "Misc".
pub proof fn law_sidebar_entry(e: SidebarEntry, name: Seq<char>, filter: Option<Seq<char>>)
    requires
        is_entry_of(e, name, filter),
    ensures
        e.name@ == name,
        e.select@ == MessageView::SelectFilter(Some(name)),
        e.active == (filter == Some(name)),
        e.icon == icon_of(name),
        e.deletable == (name != "Misc"@),
        (e.delete is Some) == (name != "Misc"@),
        e.delete matches Some(m) ==> m@ == MessageView::DeleteCategory(name),
{
}

/// A row shows the thought's text as title, its category and creation time
/// joined by a middle dot, its category's icon, and the badge and highlight
/// exactly when pinned; its pin button unpins a pinned thought and pins any
/// other; its buttons toggle the pin of, open the editor on, and delete
/// exactly that thought.
pub proof fn law_thought_row(r: ThoughtRow, t: ThoughtView)
    requires
        is_row_of(r, t),
    ensures
        r.title@ == t.text,
        r.subtitle@ == t.category + " \u{00B7} "@ + t.created_at,
        r.icon == icon_of(t.category),
        r.marks.badge == t.pinned,
        r.marks.highlighted == t.pinned,
        (r.marks.action == PinAction::Unpin) == t.pinned,
        r.toggle_pin@ == MessageView::TogglePin(t.id),
        r.edit@ == MessageView::StartEdit(t.id, t.text, t.category),
        r.delete@ == MessageView::DeleteThought(t.id),
{
}

/// The pin marks of a thought follow its pin flag.
pub proof fn law_pin_marks(pinned: bool)
    ensures
        marks_of(pinned).badge == pinned,
        marks_of(pinned).highlighted == pinned,
        marks_of(pinned).action == (if pinned {
            PinAction::Unpin
        } else {
            PinAction::Pin
        }),
{
}

/// The heading names the active filter, or "All thoughts", followed by the
/// number of listed thoughts in decimal within parentheses.
pub proof fn law_filter_label(filter: Option<Seq<char>>, count: nat)
    ensures
        filter matches Some(c) ==> filter_label_of(filter, count) == c + " ("@ + decimal(count)
            + ")"@,
        filter is None ==> filter_label_of(filter, count) == "All thoughts ("@ + decimal(count)
            + ")"@,
{
}

/// The status line is a success once the model is ready, a warning while it
/// loads, and danger after any failure.
pub proof fn law_status_tone(e: Seq<char>)
    ensures
        tone_of(AiStatusView::Ready) == StatusTone::Success,
        tone_of(AiStatusView::Loading) == StatusTone::Warning,
        tone_of(AiStatusView::Failed(e)) == StatusTone::Danger,
{
}

/// Without a category above `NO_SCORE` the choice falls back to "Misc";
/// there is one first best index, and it is the first index whose rank no
/// other rank exceeds.
pub proof fn law_category_choice(scored: Seq<(String, i64)>, k: int, k2: int)
    ensures
        fallback_category() == "Misc"@,
        has_winner(scored) == exists|i: int| 0 <= i < scored.len() && scored[i].1 != NO_SCORE,
        is_first_best(scored, k) == (0 <= k < scored.len() && (forall|j: int|
            0 <= j < scored.len() ==> scored[j].1 <= scored[k].1) && (forall|j: int|
            0 <= j < k ==> scored[j].1 < scored[k].1)),
        is_first_best(scored, k) && is_first_best(scored, k2) ==> k == k2,
{
    if is_first_best(scored, k) && is_first_best(scored, k2) {
        if k < k2 {
            assert(scored[k].1 < scored[k2].1);
        } else if k2 < k {
            assert(scored[k2].1 < scored[k].1);
        }
    }
}

/// The view of the window state holds every field, each by its own view,
/// with the lists in order.
pub proof fn law_train_view(t: ThoughtTrain)
    ensures
        t@.ai_status == t.ai_status@,
        t@.thoughts.len() == t.thoughts@.len(),
        forall|i: int| 0 <= i < t.thoughts@.len() ==> t@.thoughts[i] == #[trigger] t.thoughts@[i]@,
        t@.categories.len() == t.categories@.len(),
        forall|i: int|
            0 <= i < t.categories@.len() ==> t@.categories[i] == #[trigger] t.categories@[i]@,
        (t@.active_filter is Some) == (t.active_filter is Some),
        t.active_filter matches Some(f) ==> t@.active_filter == Some(f@),
        t@.input_text == t.input_text@,
        t@.search_text == t.search_text@,
        t@.search_active == t.search_active,
        t@.new_category_text == t.new_category_text@,
        t@.status_message == t.status_message@,
        (t@.editing is Some) == (t.editing is Some),
        t.editing matches Some(e) ==> t@.editing matches Some(v) && v.thought_id == e.thought_id
            && v.text == e.text@ && v.selected_category == e.selected_category@,
{
}

/// The view of a thought holds each of its fields.
pub proof fn law_thought_view(t: Thought)
    ensures
        t@.id == t.id,
        t@.text == t.text@,
        t@.category == t.category@,
        t@.created_at == t.created_at@,
        t@.pinned == t.pinned,
{
}

/// The view of the model status keeps its variant and error text.
pub proof fn law_ai_status_view(a: AiStatus)
    ensures
        (a is Loading) == (a@ is Loading),
        (a is Ready) == (a@ is Ready),
        a matches AiStatus::Failed(e) ==> a@ == AiStatusView::Failed(e@),
{
}

/// The view of a message keeps its variant and its arguments.
pub proof fn law_message_view(m: Message)
    ensures
        m matches Message::InputChanged(v) ==> m@ == MessageView::InputChanged(v@),
        m is AddThought ==> m@ == MessageView::AddThought,
        m is ToggleSearch ==> m@ == MessageView::ToggleSearch,
        m matches Message::SearchChanged(v) ==> m@ == MessageView::SearchChanged(v@),
        m matches Message::SelectFilter(None) ==> m@ == MessageView::SelectFilter(None),
        m matches Message::SelectFilter(Some(f)) ==> m@ == MessageView::SelectFilter(Some(f@)),
        m matches Message::NewCategoryTextChanged(v) ==> m@
            == MessageView::NewCategoryTextChanged(v@),
        m is AddCategory ==> m@ == MessageView::AddCategory,
        m matches Message::DeleteCategory(v) ==> m@ == MessageView::DeleteCategory(v@),
        m matches Message::TogglePin(id) ==> m@ == MessageView::TogglePin(id),
        m matches Message::DeleteThought(id) ==> m@ == MessageView::DeleteThought(id),
        m matches Message::StartEdit(id, t, c) ==> m@ == MessageView::StartEdit(id, t@, c@),
        m matches Message::EditTextChanged(v) ==> m@ == MessageView::EditTextChanged(v@),
        m matches Message::EditCategorySelected(v) ==> m@ == MessageView::EditCategorySelected(
            v@,
        ),
        m is SaveEdit ==> m@ == MessageView::SaveEdit,
        m is CancelEdit ==> m@ == MessageView::CancelEdit,
        m matches Message::AiModelLoaded(Ok(())) ==> m@ == MessageView::AiModelLoaded(Ok(())),
        m matches Message::AiModelLoaded(Err(e)) ==> m@ == MessageView::AiModelLoaded(Err(e@)),
{
}

/// The view of a store change keeps its kind and its arguments.
pub proof fn law_store_write_view(w: StoreWrite)
    ensures
        w matches StoreWrite::AddThought { text, category } ==> w@
            == (StoreWriteView::AddThought { text: text@, category: category@ }),
        w matches StoreWrite::AddCategory { name } ==> w@ == (StoreWriteView::AddCategory {
            name: name@,
        }),
        w matches StoreWrite::DeleteCategory { name } ==> w@ == (StoreWriteView::DeleteCategory {
            name: name@,
        }),
        w matches StoreWrite::TogglePin { id } ==> w@ == (StoreWriteView::TogglePin { id }),
        w matches StoreWrite::DeleteThought { id } ==> w@ == (StoreWriteView::DeleteThought { id }),
        w matches StoreWrite::UpdateThoughtText { id, text } ==> w@
            == (StoreWriteView::UpdateThoughtText { id, text: text@ }),
        w matches StoreWrite::UpdateCategory { id, category } ==> w@
            == (StoreWriteView::UpdateCategory { id, category: category@ }),
{
}

/// The view of an effect keeps its kind and its arguments.
pub proof fn law_effect_view(e: Effect)
    ensures
        e matches Effect::Categorize(t) ==> e@ == EffectView::Categorize(t@),
        e matches Effect::Write(w) ==> e@ == EffectView::Write(w@),
        e is ReembedCategories ==> e@ == EffectView::ReembedCategories,
        e is InstallCategorizer ==> e@ == EffectView::InstallCategorizer,
        e is Refresh ==> e@ == EffectView::Refresh,
{
}

/// The view of a listing query keeps its kind and its argument.
pub proof fn law_query_view(q: ThoughtQuery)
    ensures
        q matches ThoughtQuery::Search(s) ==> q@ == ThoughtQueryView::Search(s@),
        q matches ThoughtQuery::List(None) ==> q@ == ThoughtQueryView::List(None),
        q matches ThoughtQuery::List(Some(f)) ==> q@ == ThoughtQueryView::List(Some(f@)),
{
}

/// The views of lists keep their length and order, element by element; the
/// view of an optional string keeps whether it is there and its text.
pub proof fn law_list_views(
    effects: Seq<Effect>,
    strings: Seq<String>,
    thoughts: Seq<Thought>,
    o: Option<String>,
)
    ensures
        effects_view(effects).len() == effects.len(),
        forall|i: int|
            0 <= i < effects.len() ==> effects_view(effects)[i] == #[trigger] effects[i]@,
        strings_view(strings).len() == strings.len(),
        forall|i: int|
            0 <= i < strings.len() ==> strings_view(strings)[i] == #[trigger] strings[i]@,
        thoughts_view(thoughts).len() == thoughts.len(),
        forall|i: int|
            0 <= i < thoughts.len() ==> thoughts_view(thoughts)[i] == #[trigger] thoughts[i]@,
        (opt_str_view(o) is Some) == (o is Some),
        o matches Some(v) ==> opt_str_view(o) == Some(v@),
{
}

} // verus!
