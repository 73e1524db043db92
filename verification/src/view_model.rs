//! What the window shows, decided from the state: which parts are shown,
//! which sidebar entries are highlighted or deletable, the rows of the list,
//! the labels, the icon of each category, the tone of the status line, and
//! the message that each control sends. Drawing it is left to the user
//! interface.

use vstd::prelude::*;

use crate::text::{decimal, decimal_string};
use crate::thought::{Thought, ThoughtView};
use crate::train::{AiStatus, AiStatusView, Message, MessageView, ThoughtTrain, strings_view};

verus! {

/// Whether two strings are equal.
pub fn same_text(a: &str, b: &str) -> (r: bool)
    ensures
        r == (a@ == b@),
{
    String::from_str(a) == String::from_str(b)
}

/// The icon drawn beside a category.
#[derive(Debug, Clone, Copy, PartialEq, Eq, Structural)]
pub enum CategoryIcon {
    Work,
    Personal,
    Ideas,
    Tasks,
    Health,
    Finance,
    Learning,
    Misc,
    Generic,
}

/// The icon of the category named `name`: the built-in categories have their
/// own, any other category the generic one.
pub open spec fn icon_of(name: Seq<char>) -> CategoryIcon {
    if name == "Work"@ {
        CategoryIcon::Work
    } else if name == "Personal"@ {
        CategoryIcon::Personal
    } else if name == "Ideas"@ {
        CategoryIcon::Ideas
    } else if name == "Tasks"@ {
        CategoryIcon::Tasks
    } else if name == "Health"@ {
        CategoryIcon::Health
    } else if name == "Finance"@ {
        CategoryIcon::Finance
    } else if name == "Learning"@ {
        CategoryIcon::Learning
    } else if name == "Misc"@ {
        CategoryIcon::Misc
    } else {
        CategoryIcon::Generic
    }
}

/// Returns the icon of the category named `name`.
pub fn category_icon(name: &str) -> (r: CategoryIcon)
    ensures
        r == icon_of(name@),
{
    if same_text(name, "Work") {
        CategoryIcon::Work
    } else if same_text(name, "Personal") {
        CategoryIcon::Personal
    } else if same_text(name, "Ideas") {
        CategoryIcon::Ideas
    } else if same_text(name, "Tasks") {
        CategoryIcon::Tasks
    } else if same_text(name, "Health") {
        CategoryIcon::Health
    } else if same_text(name, "Finance") {
        CategoryIcon::Finance
    } else if same_text(name, "Learning") {
        CategoryIcon::Learning
    } else if same_text(name, "Misc") {
        CategoryIcon::Misc
    } else {
        CategoryIcon::Generic
    }
}

/// One category button of the sidebar.
#[derive(Debug)]
pub struct SidebarEntry {
    /// The category's name, which the button shows and selects.
    pub name: String,
    /// Whether the category is the active filter.
    pub active: bool,
    /// Whether the button has a delete control; "Misc", where the thoughts
    /// of a deleted category go, has none.
    pub deletable: bool,
    /// The category's icon.
    pub icon: CategoryIcon,
    /// The message that the button sends: select this category as filter.
    pub select: Message,
    /// The message that the delete control sends, if there is one.
    pub delete: Option<Message>,
}

/// The sidebar: the "All" button and one entry per category, in order.
#[derive(Debug)]
pub struct Sidebar {
    /// Whether "All" is highlighted, that is, no filter is active.
    pub all_active: bool,
    /// The message that "All" sends: clear the filter.
    pub all_select: Message,
    pub entries: Vec<SidebarEntry>,
    /// The message that submitting the new-category input, or its add
    /// button, sends.
    pub add: Message,
}

/// Whether a category named `name` is the active filter `filter`.
pub open spec fn is_active_filter(filter: Option<Seq<char>>, name: Seq<char>) -> bool {
    filter == Some(name)
}

/// Whether the sidebar offers to delete the category named `name`.
pub open spec fn is_deletable(name: Seq<char>) -> bool {
    name != "Misc"@
}

/// Whether `e` is the sidebar entry of the category named `name` under the
/// active filter `filter`.
pub open spec fn is_entry_of(e: SidebarEntry, name: Seq<char>, filter: Option<Seq<char>>) -> bool {
    &&& e.name@ == name
    &&& e.active == is_active_filter(filter, name)
    &&& e.deletable == is_deletable(name)
    &&& e.icon == icon_of(name)
    &&& e.select@ == MessageView::SelectFilter(Some(name))
    &&& (e.delete is Some) == is_deletable(name)
    &&& e.delete matches Some(m) ==> m@ == MessageView::DeleteCategory(name)
}

/// The text that states the AI status: success, pending or failure.
#[derive(Debug, Clone, Copy, PartialEq, Eq, Structural)]
pub enum StatusTone {
    Success,
    Warning,
    Danger,
}

/// The heading above the list of thoughts: the active filter's name, or
/// "All thoughts", and the number of thoughts listed.
pub open spec fn filter_label_of(filter: Option<Seq<char>>, count: nat) -> Seq<char> {
    match filter {
        Some(cat) => cat + " ("@ + decimal(count) + ")"@,
        None => "All thoughts ("@ + decimal(count) + ")"@,
    }
}

/// The line below a thought's text: its category and when it was written.
pub open spec fn subtitle_of(category: Seq<char>, created_at: Seq<char>) -> Seq<char> {
    category + " \u{00B7} "@ + created_at
}

/// Returns the line shown below a thought's text.
pub fn thought_subtitle(thought: &Thought) -> (r: String)
    ensures
        r@ == subtitle_of(thought.category@, thought.created_at@),
{
    thought.category.clone().concat(" \u{00B7} ").concat(thought.created_at.as_str())
}

/// What a thought's pin button does when pressed.
#[derive(Debug, Clone, Copy, PartialEq, Eq, Structural)]
pub enum PinAction {
    Pin,
    Unpin,
}

/// How a thought's row shows its pin state.
#[derive(Debug, Clone, Copy, PartialEq, Eq, Structural)]
pub struct PinMarks {
    /// Whether a pin badge stands before the text.
    pub badge: bool,
    /// What the pin button offers.
    pub action: PinAction,
    /// Whether the row's border takes the pinned highlight.
    pub highlighted: bool,
}

/// How a row shows the pin state `pinned`: a pinned thought has the badge,
/// the highlight and an unpin button; any other thought a pin button only.
pub open spec fn marks_of(pinned: bool) -> PinMarks {
    PinMarks {
        badge: pinned,
        action: if pinned {
            PinAction::Unpin
        } else {
            PinAction::Pin
        },
        highlighted: pinned,
    }
}

/// Returns how the row of `thought` shows its pin state.
pub fn pin_marks(thought: &Thought) -> (r: PinMarks)
    ensures
        r == marks_of(thought.pinned),
{
    if thought.pinned {
        PinMarks { badge: true, action: PinAction::Unpin, highlighted: true }
    } else {
        PinMarks { badge: false, action: PinAction::Pin, highlighted: false }
    }
}

/// One row of the list of thoughts.
#[derive(Debug)]
pub struct ThoughtRow {
    pub marks: PinMarks,
    /// The thought's text, the row's title.
    pub title: String,
    pub subtitle: String,
    /// The icon of the thought's category.
    pub icon: CategoryIcon,
    /// The message that the pin button sends.
    pub toggle_pin: Message,
    /// The message that the edit button sends: open the editor on this
    /// thought's text and category.
    pub edit: Message,
    /// The message that the delete button sends.
    pub delete: Message,
}

/// Whether `r` is the row that shows thought `t`.
pub open spec fn is_row_of(r: ThoughtRow, t: ThoughtView) -> bool {
    &&& r.marks == marks_of(t.pinned)
    &&& r.title@ == t.text
    &&& r.subtitle@ == subtitle_of(t.category, t.created_at)
    &&& r.icon == icon_of(t.category)
    &&& r.toggle_pin@ == MessageView::TogglePin(t.id)
    &&& r.edit@ == MessageView::StartEdit(t.id, t.text, t.category)
    &&& r.delete@ == MessageView::DeleteThought(t.id)
}

/// Returns the row that shows `thought`.
pub fn thought_row(thought: &Thought) -> (r: ThoughtRow)
    ensures
        is_row_of(r, thought@),
{
    ThoughtRow {
        marks: pin_marks(thought),
        title: thought.text.clone(),
        subtitle: thought_subtitle(thought),
        icon: category_icon(thought.category.as_str()),
        toggle_pin: Message::TogglePin(thought.id),
        edit: Message::StartEdit(thought.id, thought.text.clone(), thought.category.clone()),
        delete: Message::DeleteThought(thought.id),
    }
}

/// The tone of the status line for a model status: success once the model
/// is ready, a warning while it loads, danger if it failed.
pub open spec fn tone_of(status: AiStatusView) -> StatusTone {
    match status {
        AiStatusView::Ready => StatusTone::Success,
        AiStatusView::Loading => StatusTone::Warning,
        AiStatusView::Failed(_) => StatusTone::Danger,
    }
}

/// The main area: the status line, the heading and the list of thoughts.
#[derive(Debug)]
pub struct MainContent {
    pub tone: StatusTone,
    /// The status line's text.
    pub status: String,
    /// The heading above the list.
    pub label: String,
    /// One row per listed thought, in the order listed.
    pub rows: Vec<ThoughtRow>,
    /// Whether the "no thoughts yet" placeholder stands in the empty list.
    pub show_placeholder: bool,
    /// The message that submitting the input, or the Add button, sends.
    pub submit: Message,
}

/// The icon of the button that opens or closes the search bar.
#[derive(Debug, Clone, Copy, PartialEq, Eq, Structural)]
pub enum SearchIcon {
    Search,
    Close,
}

/// The frame of the window: which parts are shown beside the sidebar and
/// the main area.
#[derive(Debug)]
pub struct Page {
    /// Whether the search bar is shown.
    pub search_bar: bool,
    /// Whether the edit overlay is shown.
    pub overlay: bool,
    /// The icon of the search button: close while the search is open.
    pub search_icon: SearchIcon,
    /// The message that the search button sends.
    pub toggle_search: Message,
}

/// The edit overlay's controls.
#[derive(Debug)]
pub struct EditOverlay {
    /// The categories offered, in order.
    pub options: Vec<String>,
    /// The category shown as selected.
    pub selected: String,
    /// The message that submitting the text, or the Save button, sends.
    pub save: Message,
    /// The message that the Cancel button sends.
    pub cancel: Message,
}

/// The message that typing `v` into the thought input sends.
pub fn thought_input(v: String) -> (m: Message)
    ensures
        m@ == MessageView::InputChanged(v@),
{
    Message::InputChanged(v)
}

/// The message that typing `v` into the search bar sends.
pub fn search_input(v: String) -> (m: Message)
    ensures
        m@ == MessageView::SearchChanged(v@),
{
    Message::SearchChanged(v)
}

/// The message that typing `v` into the new-category input sends.
pub fn category_input(v: String) -> (m: Message)
    ensures
        m@ == MessageView::NewCategoryTextChanged(v@),
{
    Message::NewCategoryTextChanged(v)
}

/// The message that typing `v` into the edit overlay's text field sends.
pub fn edit_text_input(v: String) -> (m: Message)
    ensures
        m@ == MessageView::EditTextChanged(v@),
{
    Message::EditTextChanged(v)
}

/// The message that picking category `c` in the edit overlay sends.
pub fn edit_category_choice(c: String) -> (m: Message)
    ensures
        m@ == MessageView::EditCategorySelected(c@),
{
    Message::EditCategorySelected(c)
}

/// A copy of a list of strings.
pub fn clone_strings(v: &Vec<String>) -> (r: Vec<String>)
    ensures
        strings_view(r@) == strings_view(v@),
{
    let mut r: Vec<String> = Vec::new();
    for i in 0..v.len()
        invariant
            r@.len() == i,
            forall|j: int| 0 <= j < i ==> #[trigger] r@[j]@ == v@[j]@,
    {
        r.push(v[i].clone());
    }
    assert(strings_view(r@) =~= strings_view(v@));
    r
}

impl ThoughtTrain {
    /// Which parts of the window are shown.
    pub fn page(&self) -> (r: Page)
        ensures
            r.search_bar == self.search_active,
            r.overlay == (self.editing is Some),
            r.search_icon == (if self.search_active {
                SearchIcon::Close
            } else {
                SearchIcon::Search
            }),
            r.toggle_search@ == MessageView::ToggleSearch,
    {
        Page {
            search_bar: self.search_active,
            overlay: self.editing.is_some(),
            search_icon: if self.search_active {
                SearchIcon::Close
            } else {
                SearchIcon::Search
            },
            toggle_search: Message::ToggleSearch,
        }
    }

    /// The edit overlay's controls, while an edit is open.
    pub fn edit_overlay(&self) -> (r: Option<EditOverlay>)
        ensures
            (r is Some) == (self.editing is Some),
            r matches Some(o) ==> {
                &&& strings_view(o.options@) == strings_view(self.categories@)
                &&& o.selected@ == self.editing->0.selected_category@
                &&& o.save@ == MessageView::SaveEdit
                &&& o.cancel@ == MessageView::CancelEdit
            },
    {
        match &self.editing {
            Some(e) => Some(
                EditOverlay {
                    options: clone_strings(&self.categories),
                    selected: e.selected_category.clone(),
                    save: Message::SaveEdit,
                    cancel: Message::CancelEdit,
                },
            ),
            None => None,
        }
    }

    /// The main area for the current state.
    pub fn main_content(&self) -> (r: MainContent)
        ensures
            r.tone == tone_of(self.ai_status@),
            r.status@ == self.status_message@,
            r.label@ == filter_label_of(self@.active_filter, self@.thoughts.len()),
            r.rows@.len() == self.thoughts@.len(),
            forall|i: int|
                0 <= i < r.rows@.len() ==> is_row_of(#[trigger] r.rows@[i], self.thoughts@[i]@),
            r.show_placeholder == (self.thoughts@.len() == 0),
            r.submit@ == MessageView::AddThought,
    {
        let mut rows: Vec<ThoughtRow> = Vec::new();
        for i in 0..self.thoughts.len()
            invariant
                rows@.len() == i,
                forall|j: int| 0 <= j < i ==> is_row_of(#[trigger] rows@[j], self.thoughts@[j]@),
        {
            rows.push(thought_row(&self.thoughts[i]));
        }
        MainContent {
            tone: self.status_tone(),
            status: self.status_message.clone(),
            label: self.filter_label(),
            rows,
            show_placeholder: self.thoughts.len() == 0,
            submit: Message::AddThought,
        }
    }

    /// The sidebar for the current categories and filter.
    pub fn sidebar(&self) -> (r: Sidebar)
        ensures
            r.all_active == (self.active_filter is None),
            r.all_select@ == MessageView::SelectFilter(None),
            r.add@ == MessageView::AddCategory,
            r.entries@.len() == self.categories@.len(),
            forall|i: int|
                #![trigger r.entries@[i]]
                0 <= i < r.entries@.len() ==> is_entry_of(
                    r.entries@[i],
                    self.categories@[i]@,
                    self@.active_filter,
                ),
    {
        let mut entries: Vec<SidebarEntry> = Vec::new();
        let n = self.categories.len();
        for i in 0..n
            invariant
                n == self.categories@.len(),
                entries@.len() == i,
                forall|j: int|
                    #![trigger entries@[j]]
                    0 <= j < i ==> is_entry_of(
                        entries@[j],
                        self.categories@[j]@,
                        self@.active_filter,
                    ),
        {
            let name = self.categories[i].clone();
            let active = match &self.active_filter {
                Some(f) => *f == name,
                None => false,
            };
            let deletable = !same_text(name.as_str(), "Misc");
            let icon = category_icon(name.as_str());
            let select = Message::SelectFilter(Some(name.clone()));
            let delete = if deletable {
                Some(Message::DeleteCategory(name.clone()))
            } else {
                None
            };
            entries.push(SidebarEntry { name, active, deletable, icon, select, delete });
        }
        Sidebar {
            all_active: self.active_filter.is_none(),
            all_select: Message::SelectFilter(None),
            entries,
            add: Message::AddCategory,
        }
    }

    /// The tone of the status line: success once the model is ready, a
    /// warning while it loads, danger if it failed.
    pub fn status_tone(&self) -> (r: StatusTone)
        ensures
            r == tone_of(self.ai_status@),
    {
        match &self.ai_status {
            AiStatus::Ready => StatusTone::Success,
            AiStatus::Loading => StatusTone::Warning,
            AiStatus::Failed(_) => StatusTone::Danger,
        }
    }

    /// The heading above the list of thoughts.
    pub fn filter_label(&self) -> (r: String)
        ensures
            r@ == filter_label_of(self@.active_filter, self@.thoughts.len()),
    {
        let count = decimal_string(self.thoughts.len());
        match &self.active_filter {
            Some(cat) => cat.clone().concat(" (").concat(count.as_str()).concat(")"),
            None => String::from_str("All thoughts (").concat(count.as_str()).concat(")"),
        }
    }
}

} // verus!
