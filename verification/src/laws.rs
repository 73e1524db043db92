//! Properties of the application that span several actions or hold of every
//! action, proved over [`step`], the transition that
//! [`ThoughtTrain::update`](crate::train::ThoughtTrain::update) performs.

use vstd::prelude::*;

use crate::text::{is_white_space, lemma_trim_shape, trim};
use crate::view_model::is_active_filter;
use crate::thought::ThoughtView;
use crate::train::{
    AiStatusView,
    EditView,
    EffectView,
    MessageView,
    StoreWriteView,
    ThoughtQueryView,
    TrainView,
    after_categorize,
    after_refresh,
    category_for,
    query_for,
    step,
};

verus! {

/// Whether an effect changes the store.
pub open spec fn is_write(e: EffectView) -> bool {
    e is Write
}

/// Submitting an input that is empty or only white space changes nothing
/// and asks for no outside work.
pub proof fn law_blank_thought_is_ignored(s: TrainView)
    requires
        trim(s.input_text).len() == 0,
    ensures
        step(s, MessageView::AddThought) == (s, Seq::<EffectView>::empty()),
{
    assert(step(s, MessageView::AddThought).1 =~= Seq::<EffectView>::empty());
}

/// Adding a thought stores its text without surrounding white space, under
/// the categorizer's suggestion or "Misc" when there is none, clears the
/// input, and reloads the listing.
pub proof fn law_added_thought_is_stored_trimmed(s: TrainView, suggested: Option<Seq<char>>)
    requires
        trim(s.input_text).len() > 0,
    ensures
        ({
            let (s1, e1) = step(s, MessageView::AddThought);
            let text = trim(s.input_text);
            let (s2, e2) = after_categorize(s1, text, suggested);
            &&& s1 == s
            &&& e1 == seq![EffectView::Categorize(text)]
            &&& e2 == seq![
                EffectView::Write(
                    StoreWriteView::AddThought { text, category: category_for(suggested) },
                ),
                EffectView::Refresh,
            ]
            &&& s2.input_text.len() == 0
            &&& s2 == TrainView {
                input_text: Seq::empty(),
                status_message: "Categorized as: "@ + category_for(suggested),
                ..s
            }
        }),
{
}

/// Opening and then closing the search bar, or closing and then reopening
/// it, returns to the same state with an empty query.
pub proof fn law_toggle_search_twice(s: TrainView)
    ensures
        step(step(s, MessageView::ToggleSearch).0, MessageView::ToggleSearch).0 == (TrainView {
            search_text: Seq::empty(),
            ..s
        }),
{
    assert(step(step(s, MessageView::ToggleSearch).0, MessageView::ToggleSearch).0 =~= (TrainView {
        search_text: Seq::empty(),
        ..s
    }));
}

/// Closing the search bar reloads the thoughts of the active filter, not
/// search results.
pub proof fn law_closing_search_lists_the_filter(s: TrainView)
    requires
        s.search_active,
    ensures
        ({
            let (s1, e1) = step(s, MessageView::ToggleSearch);
            &&& e1 == seq![EffectView::Refresh]
            &&& query_for(s1) == ThoughtQueryView::List(s.active_filter)
        }),
{
}

/// Starting an edit and cancelling it returns to the state before the edit.
pub proof fn law_cancelled_edit_changes_nothing(
    s: TrainView,
    id: i64,
    text: Seq<char>,
    category: Seq<char>,
)
    requires
        s.editing is None,
    ensures
        ({
            let (s1, e1) = step(s, MessageView::StartEdit(id, text, category));
            let (s2, e2) = step(s1, MessageView::CancelEdit);
            &&& s2 == s
            &&& e1.len() == 0
            &&& e2.len() == 0
        }),
{
    assert(step(step(s, MessageView::StartEdit(id, text, category)).0, MessageView::CancelEdit).0
        =~= s);
}

/// With no edit open, the messages of the edit overlay change nothing and
/// ask for no outside work.
pub proof fn law_edit_messages_need_an_open_edit(s: TrainView, v: Seq<char>)
    requires
        s.editing is None,
    ensures
        step(s, MessageView::EditTextChanged(v)) == (s, Seq::<EffectView>::empty()),
        step(s, MessageView::EditCategorySelected(v)) == (s, Seq::<EffectView>::empty()),
        step(s, MessageView::SaveEdit) == (s, Seq::<EffectView>::empty()),
{
    assert(step(s, MessageView::EditTextChanged(v)).1 =~= Seq::<EffectView>::empty());
    assert(step(s, MessageView::EditCategorySelected(v)).1 =~= Seq::<EffectView>::empty());
    assert(step(s, MessageView::SaveEdit).1 =~= Seq::<EffectView>::empty());
}

/// Saving an edit closes the overlay; the text, without surrounding white
/// space, and the selected category are stored only when that text is not
/// blank; the listing is reloaded either way.
pub proof fn law_save_edit(s: TrainView, e: EditView)
    requires
        s.editing == Some(e),
    ensures
        ({
            let (s1, e1) = step(s, MessageView::SaveEdit);
            let t = trim(e.text);
            &&& s1 == TrainView { editing: None, ..s }
            &&& t.len() == 0 ==> e1 == seq![EffectView::Refresh]
            &&& t.len() > 0 ==> e1 == seq![
                EffectView::Write(StoreWriteView::UpdateThoughtText { id: e.thought_id, text: t }),
                EffectView::Write(
                    StoreWriteView::UpdateCategory {
                        id: e.thought_id,
                        category: e.selected_category,
                    },
                ),
                EffectView::Refresh,
            ]
        }),
{
    assert(step(s, MessageView::SaveEdit).0 =~= TrainView { editing: None, ..s });
}

/// Deleting the category that is the active filter clears the filter, so
/// that the reload lists every thought (unless a search is shown); deleting
/// another category keeps the filter.
pub proof fn law_deleting_the_active_category_clears_the_filter(s: TrainView, name: Seq<char>)
    ensures
        ({
            let (s1, e1) = step(s, MessageView::DeleteCategory(name));
            &&& e1 == seq![
                EffectView::Write(StoreWriteView::DeleteCategory { name }),
                EffectView::Refresh,
            ]
            &&& s.active_filter == Some(name) ==> s1.active_filter is None
            &&& s.active_filter != Some(name) ==> s1.active_filter == s.active_filter
            &&& s.active_filter == Some(name) && !s.search_active ==> query_for(s1)
                == ThoughtQueryView::List(None)
        }),
{
}

/// Every action that changes the store ends by reloading the listing, so
/// that the window never shows what the store no longer holds.
pub proof fn law_writes_are_followed_by_a_refresh(s: TrainView, m: MessageView)
    ensures
        ({
            let e = step(s, m).1;
            (exists|i: int| 0 <= i < e.len() && is_write(#[trigger] e[i])) ==> e.last()
                == EffectView::Refresh
        }),
{
}

/// Finishing the addition of a thought writes it and then reloads.
pub proof fn law_added_thought_is_followed_by_a_refresh(
    s: TrainView,
    text: Seq<char>,
    suggested: Option<Seq<char>>,
)
    ensures
        after_categorize(s, text, suggested).1.last() == EffectView::Refresh,
        is_write(after_categorize(s, text, suggested).1[0]),
{
}

/// Typing and editing change only the text being typed or edited: they ask
/// for no outside work.
pub proof fn law_typing_needs_no_outside_work(s: TrainView, v: Seq<char>, id: i64, c: Seq<char>)
    ensures
        step(s, MessageView::InputChanged(v)).1.len() == 0,
        step(s, MessageView::NewCategoryTextChanged(v)).1.len() == 0,
        step(s, MessageView::StartEdit(id, v, c)).1.len() == 0,
        step(s, MessageView::EditTextChanged(v)).1.len() == 0,
        step(s, MessageView::EditCategorySelected(v)).1.len() == 0,
        step(s, MessageView::CancelEdit).1.len() == 0,
        step(s, MessageView::InputChanged(v)).0 == (TrainView { input_text: v, ..s }),
        step(s, MessageView::NewCategoryTextChanged(v)).0 == (TrainView {
            new_category_text: v,
            ..s
        }),
{
}

/// Choosing a filter shows that filter's thoughts, unless a search with a
/// query is shown.
pub proof fn law_selected_filter_is_listed(s: TrainView, f: Option<Seq<char>>)
    requires
        !(s.search_active && s.search_text.len() > 0),
    ensures
        query_for(step(s, MessageView::SelectFilter(f)).0) == ThoughtQueryView::List(f),
        step(s, MessageView::SelectFilter(f)).1 == seq![EffectView::Refresh],
{
}

/// Whether `t` is non-empty and neither starts nor ends with white space.
pub open spec fn is_tidy(t: Seq<char>) -> bool {
    t.len() > 0 && !is_white_space(t[0]) && !is_white_space(t.last())
}

/// The texts that actions send out to be categorized or stored (a new
/// thought, a new category's name, an edited thought) are never empty and
/// never start or end with white space.
pub proof fn law_sent_texts_are_tidy(s: TrainView, m: MessageView)
    ensures
        forall|i: int|
            #![trigger step(s, m).1[i]]
            0 <= i < step(s, m).1.len() ==> match step(s, m).1[i] {
                EffectView::Categorize(t) => is_tidy(t),
                EffectView::Write(StoreWriteView::AddCategory { name }) => is_tidy(name),
                EffectView::Write(StoreWriteView::UpdateThoughtText { text, .. }) => is_tidy(text),
                _ => true,
            },
{
    lemma_trim_shape(s.input_text);
    lemma_trim_shape(s.new_category_text);
    if let Some(e) = s.editing {
        lemma_trim_shape(e.text);
    }
}

/// When the categories are distinct and the filter, if any, is one of them,
/// the sidebar highlights exactly one button: "All" when there is no filter,
/// else the one category that is the filter.
pub proof fn law_one_button_is_highlighted(categories: Seq<Seq<char>>, filter: Option<Seq<char>>)
    requires
        categories.no_duplicates(),
        filter matches Some(f) ==> categories.contains(f),
    ensures
        filter is None ==> forall|i: int|
            0 <= i < categories.len() ==> !is_active_filter(filter, #[trigger] categories[i]),
        filter is Some ==> exists|i: int|
            0 <= i < categories.len() && is_active_filter(filter, categories[i]) && forall|j: int|
                0 <= j < categories.len() && is_active_filter(filter, #[trigger] categories[j])
                    ==> j == i,
{
    if let Some(f) = filter {
        let i = choose|i: int| 0 <= i < categories.len() && categories[i] == f;
        assert(is_active_filter(filter, categories[i]));
    }
}

/// Changing the search query records exactly the typed query and reloads;
/// while the search bar is open, a non-empty query then lists the thoughts
/// that contain it, whatever category filter is active.
pub proof fn law_search_query_is_recorded_and_listed(s: TrainView, v: Seq<char>)
    ensures
        step(s, MessageView::SearchChanged(v)) == (
            TrainView { search_text: v, ..s },
            seq![EffectView::Refresh],
        ),
        s.search_active && v.len() > 0 ==> query_for(step(s, MessageView::SearchChanged(v)).0)
            == ThoughtQueryView::Search(v),
{
}

/// The reload lists search results exactly when the search bar is open with
/// a non-empty query, and then for that query, with or without a category
/// filter; otherwise it lists the active filter's thoughts.
pub proof fn law_reload_query(s: TrainView)
    ensures
        s.search_active && s.search_text.len() > 0 ==> query_for(s) == ThoughtQueryView::Search(
            s.search_text,
        ),
        !(s.search_active && s.search_text.len() > 0) ==> query_for(s) == ThoughtQueryView::List(
            s.active_filter,
        ),
{
}

/// A reload shows exactly the categories and thoughts that the store
/// returned, in the store's order, or empty lists where a read failed, and
/// changes nothing else.
pub proof fn law_reload_shows_what_the_store_returned(
    s: TrainView,
    categories: Option<Seq<Seq<char>>>,
    thoughts: Option<Seq<ThoughtView>>,
)
    ensures
        ({
            let r = after_refresh(s, categories, thoughts);
            &&& categories matches Some(c) ==> r.categories == c
            &&& categories is None ==> r.categories.len() == 0
            &&& thoughts matches Some(t) ==> r.thoughts.len() == t.len() && forall|i: int|
                0 <= i < t.len() ==> #[trigger] r.thoughts[i] == t[i]
            &&& thoughts is None ==> r.thoughts.len() == 0
            &&& r == TrainView { categories: r.categories, thoughts: r.thoughts, ..s }
        }),
{
}

/// Choosing a filter, from any state, sets exactly that filter, changes
/// nothing else, and reloads.
pub proof fn law_selecting_a_filter_sets_it(s: TrainView, f: Option<Seq<char>>)
    ensures
        step(s, MessageView::SelectFilter(f)) == (
            TrainView { active_filter: f, ..s },
            seq![EffectView::Refresh],
        ),
{
}

/// Pressing a thought's pin button flips its pin in the store exactly once,
/// then reloads; the window state is unchanged.
pub proof fn law_pin_press_toggles_once(s: TrainView, id: i64)
    ensures
        step(s, MessageView::TogglePin(id)) == (
            s,
            seq![EffectView::Write(StoreWriteView::TogglePin { id }), EffectView::Refresh],
        ),
{
}

/// Pressing a thought's delete button deletes that thought exactly once,
/// then reloads; the window state is unchanged.
pub proof fn law_delete_press_deletes_once(s: TrainView, id: i64)
    ensures
        step(s, MessageView::DeleteThought(id)) == (
            s,
            seq![EffectView::Write(StoreWriteView::DeleteThought { id }), EffectView::Refresh],
        ),
{
}

/// Opening the editor shows exactly the given thought's id, text and
/// category, and changes nothing else.
pub proof fn law_start_edit_opens_on_the_thought(
    s: TrainView,
    id: i64,
    text: Seq<char>,
    category: Seq<char>,
)
    ensures
        step(s, MessageView::StartEdit(id, text, category)) == (
            TrainView {
                editing: Some(EditView { thought_id: id, text, selected_category: category }),
                ..s
            },
            Seq::<EffectView>::empty(),
        ),
{
    assert(step(s, MessageView::StartEdit(id, text, category)).1 =~= Seq::<EffectView>::empty());
}

/// With an edit open, typing in the editor sets its text to exactly what
/// was typed, white space included, and keeps the thought and the category.
pub proof fn law_edit_text_is_what_was_typed(s: TrainView, e: EditView, v: Seq<char>)
    requires
        s.editing == Some(e),
    ensures
        step(s, MessageView::EditTextChanged(v)) == (
            TrainView {
                editing: Some(
                    EditView { thought_id: e.thought_id, text: v, selected_category: e.selected_category },
                ),
                ..s
            },
            Seq::<EffectView>::empty(),
        ),
{
    assert(step(s, MessageView::EditTextChanged(v)).1 =~= Seq::<EffectView>::empty());
}

/// With an edit open, picking a category selects exactly it and keeps the
/// thought and the text.
pub proof fn law_edit_category_is_what_was_picked(s: TrainView, e: EditView, c: Seq<char>)
    requires
        s.editing == Some(e),
    ensures
        step(s, MessageView::EditCategorySelected(c)) == (
            TrainView {
                editing: Some(EditView { thought_id: e.thought_id, text: e.text, selected_category: c }),
                ..s
            },
            Seq::<EffectView>::empty(),
        ),
{
    assert(step(s, MessageView::EditCategorySelected(c)).1 =~= Seq::<EffectView>::empty());
}

/// Cancelling closes the editor, from any state, and changes nothing else.
pub proof fn law_cancel_closes_the_editor(s: TrainView)
    ensures
        step(s, MessageView::CancelEdit) == (
            TrainView { editing: None, ..s },
            Seq::<EffectView>::empty(),
        ),
{
    assert(step(s, MessageView::CancelEdit).1 =~= Seq::<EffectView>::empty());
}

/// Opening the search bar changes only that flag and asks for nothing;
/// closing it also empties the query and reloads.
pub proof fn law_toggle_search(s: TrainView)
    ensures
        !s.search_active ==> step(s, MessageView::ToggleSearch) == (
            TrainView { search_active: true, ..s },
            Seq::<EffectView>::empty(),
        ),
        s.search_active ==> step(s, MessageView::ToggleSearch) == (
            TrainView { search_active: false, search_text: Seq::empty(), ..s },
            seq![EffectView::Refresh],
        ),
{
    assert(!s.search_active ==> step(s, MessageView::ToggleSearch).1 =~= Seq::<EffectView>::empty());
}

/// Typing a category name records exactly what was typed; adding it stores
/// the name without surrounding white space, recomputes the embeddings,
/// clears the input and reloads; a blank name changes nothing.
pub proof fn law_add_category(s: TrainView, v: Seq<char>)
    ensures
        step(s, MessageView::NewCategoryTextChanged(v)) == (
            TrainView { new_category_text: v, ..s },
            Seq::<EffectView>::empty(),
        ),
        trim(s.new_category_text).len() == 0 ==> step(s, MessageView::AddCategory) == (
            s,
            Seq::<EffectView>::empty(),
        ),
        trim(s.new_category_text).len() > 0 ==> step(s, MessageView::AddCategory) == (
            TrainView { new_category_text: Seq::empty(), ..s },
            seq![
                EffectView::Write(StoreWriteView::AddCategory { name: trim(s.new_category_text) }),
                EffectView::ReembedCategories,
                EffectView::Refresh,
            ],
        ),
{
    assert(step(s, MessageView::NewCategoryTextChanged(v)).1 =~= Seq::<EffectView>::empty());
    assert(trim(s.new_category_text).len() == 0 ==> step(s, MessageView::AddCategory).1
        =~= Seq::<EffectView>::empty());
}

/// Typing a thought records exactly what was typed and asks for nothing.
pub proof fn law_thought_input_is_what_was_typed(s: TrainView, v: Seq<char>)
    ensures
        step(s, MessageView::InputChanged(v)) == (
            TrainView { input_text: v, ..s },
            Seq::<EffectView>::empty(),
        ),
{
    assert(step(s, MessageView::InputChanged(v)).1 =~= Seq::<EffectView>::empty());
}

/// Deleting a category deletes it from the store once and reloads, clears
/// the filter exactly when it was that category, and changes nothing else.
pub proof fn law_delete_category(s: TrainView, name: Seq<char>)
    ensures
        step(s, MessageView::DeleteCategory(name)) == (
            TrainView {
                active_filter: if s.active_filter == Some(name) {
                    None
                } else {
                    s.active_filter
                },
                ..s
            },
            seq![EffectView::Write(StoreWriteView::DeleteCategory { name }), EffectView::Refresh],
        ),
{
}

/// When the model loads, the status reads "AI ready" and the categorizer is
/// taken into use; when it fails, the status reads "AI failed: " and the
/// error, and nothing is asked for. Nothing else changes.
pub proof fn law_model_load_outcome(s: TrainView, e: Seq<char>)
    ensures
        step(s, MessageView::AiModelLoaded(Ok(()))) == (
            TrainView { ai_status: AiStatusView::Ready, status_message: "AI ready"@, ..s },
            seq![EffectView::InstallCategorizer],
        ),
        step(s, MessageView::AiModelLoaded(Err(e))) == (
            TrainView {
                ai_status: AiStatusView::Failed(e),
                status_message: "AI failed: "@ + e,
                ..s
            },
            Seq::<EffectView>::empty(),
        ),
{
    assert(step(s, MessageView::AiModelLoaded(Err(e))).1 =~= Seq::<EffectView>::empty());
}

/// Once the categorizer has answered, from any state: the thought is stored
/// once, with the given text and the suggestion or "Misc", the status names
/// that category, the input is cleared, the listing is reloaded, and nothing
/// else changes.
pub proof fn law_finishing_an_addition(s: TrainView, text: Seq<char>, suggested: Option<Seq<char>>)
    ensures
        ({
            let category = match suggested {
                Some(c) => c,
                None => "Misc"@,
            };
            after_categorize(s, text, suggested) == (
                TrainView {
                    input_text: Seq::empty(),
                    status_message: "Categorized as: "@ + category,
                    ..s
                },
                seq![
                    EffectView::Write(StoreWriteView::AddThought { text, category }),
                    EffectView::Refresh,
                ],
            )
        }),
{
}

/// Submitting a thought whose input is not blank asks for the categorization
/// of the input without surrounding white space, and changes nothing yet.
pub proof fn law_add_thought_asks_for_categorization(s: TrainView)
    requires
        trim(s.input_text).len() > 0,
    ensures
        step(s, MessageView::AddThought) == (s, seq![EffectView::Categorize(trim(s.input_text))]),
{
}

} // verus!
