//! The application's state and how each user action changes it.
//!
//! [`ThoughtTrain`] holds what the window shows. [`ThoughtTrain::update`]
//! takes a [`Message`], changes the state, and returns the outside work that
//! must follow, in order, as a list of [`Effect`]s: writes to the thought
//! store, a request to categorize a new thought, and the reload of what the
//! window lists. The shell that owns the store and the categorizer performs
//! them and reports back through [`ThoughtTrain::finish_add_thought`] and
//! [`ThoughtTrain::apply_refresh`].

use vstd::prelude::*;

use crate::text::{trim, trimmed};
use crate::thought::{Thought, ThoughtView, thoughts_view};

verus! {

/// The view of an optional string.
pub open spec fn opt_str_view(o: Option<String>) -> Option<Seq<char>> {
    match o {
        Some(s) => Some(s@),
        None => None,
    }
}

/// The views of a sequence of strings.
pub open spec fn strings_view(v: Seq<String>) -> Seq<Seq<char>> {
    v.map_values(|s: String| s@)
}

/// A copy of an optional string.
pub fn clone_opt_string(o: &Option<String>) -> (r: Option<String>)
    ensures
        opt_str_view(r) == opt_str_view(*o),
{
    match o {
        Some(s) => Some(s.clone()),
        None => None,
    }
}

/// Whether the background load of the categorization model is pending, done,
/// or failed with a message.
#[derive(Debug)]
pub enum AiStatus {
    Loading,
    Ready,
    Failed(String),
}

pub enum AiStatusView {
    Loading,
    Ready,
    Failed(Seq<char>),
}

impl View for AiStatus {
    type V = AiStatusView;

    open spec fn view(&self) -> AiStatusView {
        match self {
            AiStatus::Loading => AiStatusView::Loading,
            AiStatus::Ready => AiStatusView::Ready,
            AiStatus::Failed(e) => AiStatusView::Failed(e@),
        }
    }
}

/// The thought being edited in the edit overlay.
#[derive(Debug)]
pub struct EditState {
    pub thought_id: i64,
    pub text: String,
    pub selected_category: String,
}

pub struct EditView {
    pub thought_id: i64,
    pub text: Seq<char>,
    pub selected_category: Seq<char>,
}

impl View for EditState {
    type V = EditView;

    open spec fn view(&self) -> EditView {
        EditView {
            thought_id: self.thought_id,
            text: self.text@,
            selected_category: self.selected_category@,
        }
    }
}

/// The view of an optional edit state.
pub open spec fn opt_edit_view(o: Option<EditState>) -> Option<EditView> {
    match o {
        Some(e) => Some(e@),
        None => None,
    }
}

/// A user action, or the end of the background model load.
#[derive(Debug)]
pub enum Message {
    InputChanged(String),
    AddThought,
    ToggleSearch,
    SearchChanged(String),
    SelectFilter(Option<String>),
    NewCategoryTextChanged(String),
    AddCategory,
    DeleteCategory(String),
    TogglePin(i64),
    DeleteThought(i64),
    StartEdit(i64, String, String),
    EditTextChanged(String),
    EditCategorySelected(String),
    SaveEdit,
    CancelEdit,
    AiModelLoaded(Result<(), String>),
}

pub enum MessageView {
    InputChanged(Seq<char>),
    AddThought,
    ToggleSearch,
    SearchChanged(Seq<char>),
    SelectFilter(Option<Seq<char>>),
    NewCategoryTextChanged(Seq<char>),
    AddCategory,
    DeleteCategory(Seq<char>),
    TogglePin(i64),
    DeleteThought(i64),
    StartEdit(i64, Seq<char>, Seq<char>),
    EditTextChanged(Seq<char>),
    EditCategorySelected(Seq<char>),
    SaveEdit,
    CancelEdit,
    AiModelLoaded(Result<(), Seq<char>>),
}

impl View for Message {
    type V = MessageView;

    open spec fn view(&self) -> MessageView {
        match self {
            Message::InputChanged(s) => MessageView::InputChanged(s@),
            Message::AddThought => MessageView::AddThought,
            Message::ToggleSearch => MessageView::ToggleSearch,
            Message::SearchChanged(s) => MessageView::SearchChanged(s@),
            Message::SelectFilter(f) => MessageView::SelectFilter(opt_str_view(*f)),
            Message::NewCategoryTextChanged(s) => MessageView::NewCategoryTextChanged(s@),
            Message::AddCategory => MessageView::AddCategory,
            Message::DeleteCategory(s) => MessageView::DeleteCategory(s@),
            Message::TogglePin(id) => MessageView::TogglePin(*id),
            Message::DeleteThought(id) => MessageView::DeleteThought(*id),
            Message::StartEdit(id, t, c) => MessageView::StartEdit(*id, t@, c@),
            Message::EditTextChanged(s) => MessageView::EditTextChanged(s@),
            Message::EditCategorySelected(s) => MessageView::EditCategorySelected(s@),
            Message::SaveEdit => MessageView::SaveEdit,
            Message::CancelEdit => MessageView::CancelEdit,
            Message::AiModelLoaded(r) => MessageView::AiModelLoaded(
                match r {
                    Ok(()) => Ok(()),
                    Err(e) => Err(e@),
                },
            ),
        }
    }
}

impl Clone for Message {
    fn clone(&self) -> (r: Self)
        ensures
            r@ == self@,
    {
        match self {
            Message::InputChanged(s) => Message::InputChanged(s.clone()),
            Message::AddThought => Message::AddThought,
            Message::ToggleSearch => Message::ToggleSearch,
            Message::SearchChanged(s) => Message::SearchChanged(s.clone()),
            Message::SelectFilter(f) => Message::SelectFilter(clone_opt_string(f)),
            Message::NewCategoryTextChanged(s) => Message::NewCategoryTextChanged(s.clone()),
            Message::AddCategory => Message::AddCategory,
            Message::DeleteCategory(s) => Message::DeleteCategory(s.clone()),
            Message::TogglePin(id) => Message::TogglePin(*id),
            Message::DeleteThought(id) => Message::DeleteThought(*id),
            Message::StartEdit(id, t, c) => Message::StartEdit(*id, t.clone(), c.clone()),
            Message::EditTextChanged(s) => Message::EditTextChanged(s.clone()),
            Message::EditCategorySelected(s) => Message::EditCategorySelected(s.clone()),
            Message::SaveEdit => Message::SaveEdit,
            Message::CancelEdit => Message::CancelEdit,
            Message::AiModelLoaded(r) => Message::AiModelLoaded(
                match r {
                    Ok(()) => Ok(()),
                    Err(e) => Err(e.clone()),
                },
            ),
        }
    }
}

/// A change to the thought store, one per store operation.
#[derive(Debug)]
pub enum StoreWrite {
    AddThought { text: String, category: String },
    AddCategory { name: String },
    DeleteCategory { name: String },
    TogglePin { id: i64 },
    DeleteThought { id: i64 },
    UpdateThoughtText { id: i64, text: String },
    UpdateCategory { id: i64, category: String },
}

pub enum StoreWriteView {
    AddThought { text: Seq<char>, category: Seq<char> },
    AddCategory { name: Seq<char> },
    DeleteCategory { name: Seq<char> },
    TogglePin { id: i64 },
    DeleteThought { id: i64 },
    UpdateThoughtText { id: i64, text: Seq<char> },
    UpdateCategory { id: i64, category: Seq<char> },
}

impl View for StoreWrite {
    type V = StoreWriteView;

    open spec fn view(&self) -> StoreWriteView {
        match self {
            StoreWrite::AddThought { text, category } => StoreWriteView::AddThought {
                text: text@,
                category: category@,
            },
            StoreWrite::AddCategory { name } => StoreWriteView::AddCategory { name: name@ },
            StoreWrite::DeleteCategory { name } => StoreWriteView::DeleteCategory { name: name@ },
            StoreWrite::TogglePin { id } => StoreWriteView::TogglePin { id: *id },
            StoreWrite::DeleteThought { id } => StoreWriteView::DeleteThought { id: *id },
            StoreWrite::UpdateThoughtText { id, text } => StoreWriteView::UpdateThoughtText {
                id: *id,
                text: text@,
            },
            StoreWrite::UpdateCategory { id, category } => StoreWriteView::UpdateCategory {
                id: *id,
                category: category@,
            },
        }
    }
}

/// Outside work that an action calls for, to be performed in order.
#[derive(Debug)]
pub enum Effect {
    /// Categorize this (trimmed, non-blank) text, then hand the suggestion to
    /// [`ThoughtTrain::finish_add_thought`].
    Categorize(String),
    /// Apply this change to the store.
    Write(StoreWrite),
    /// If a categorizer is loaded, recompute its category embeddings from the
    /// store's current categories.
    ReembedCategories,
    /// Take the categorizer that the background load produced into use.
    InstallCategorizer,
    /// Reload categories and thoughts: run [`ThoughtTrain::refresh_query`]
    /// and hand the results to [`ThoughtTrain::apply_refresh`].
    Refresh,
}

pub enum EffectView {
    Categorize(Seq<char>),
    Write(StoreWriteView),
    ReembedCategories,
    InstallCategorizer,
    Refresh,
}

impl View for Effect {
    type V = EffectView;

    open spec fn view(&self) -> EffectView {
        match self {
            Effect::Categorize(t) => EffectView::Categorize(t@),
            Effect::Write(w) => EffectView::Write(w@),
            Effect::ReembedCategories => EffectView::ReembedCategories,
            Effect::InstallCategorizer => EffectView::InstallCategorizer,
            Effect::Refresh => EffectView::Refresh,
        }
    }
}

/// The views of a sequence of effects.
pub open spec fn effects_view(v: Seq<Effect>) -> Seq<EffectView> {
    v.map_values(|e: Effect| e@)
}

/// Which thoughts the window lists: those whose text contains a search
/// query, or all thoughts, optionally of one category only.
#[derive(Debug)]
pub enum ThoughtQuery {
    Search(String),
    List(Option<String>),
}

pub enum ThoughtQueryView {
    Search(Seq<char>),
    List(Option<Seq<char>>),
}

impl View for ThoughtQuery {
    type V = ThoughtQueryView;

    open spec fn view(&self) -> ThoughtQueryView {
        match self {
            ThoughtQuery::Search(q) => ThoughtQueryView::Search(q@),
            ThoughtQuery::List(f) => ThoughtQueryView::List(opt_str_view(*f)),
        }
    }
}

/// The pattern with which the store matches thought texts against a search
/// query: the query anywhere in the text.
pub open spec fn like_pattern(query: Seq<char>) -> Seq<char> {
    "%"@ + query + "%"@
}

/// Returns the pattern that finds the thoughts whose text contains `query`.
pub fn search_pattern(query: &str) -> (r: String)
    ensures
        r@ == like_pattern(query@),
{
    String::from_str("%").concat(query).concat("%")
}

/// The state of the window.
pub struct ThoughtTrain {
    pub ai_status: AiStatus,
    pub thoughts: Vec<Thought>,
    pub categories: Vec<String>,
    pub active_filter: Option<String>,
    pub input_text: String,
    pub search_text: String,
    pub search_active: bool,
    pub new_category_text: String,
    pub status_message: String,
    pub editing: Option<EditState>,
}

#[verifier::ext_equal]
pub struct TrainView {
    pub ai_status: AiStatusView,
    pub thoughts: Seq<ThoughtView>,
    pub categories: Seq<Seq<char>>,
    pub active_filter: Option<Seq<char>>,
    pub input_text: Seq<char>,
    pub search_text: Seq<char>,
    pub search_active: bool,
    pub new_category_text: Seq<char>,
    pub status_message: Seq<char>,
    pub editing: Option<EditView>,
}

impl View for ThoughtTrain {
    type V = TrainView;

    open spec fn view(&self) -> TrainView {
        TrainView {
            ai_status: self.ai_status@,
            thoughts: thoughts_view(self.thoughts@),
            categories: strings_view(self.categories@),
            active_filter: opt_str_view(self.active_filter),
            input_text: self.input_text@,
            search_text: self.search_text@,
            search_active: self.search_active,
            new_category_text: self.new_category_text@,
            status_message: self.status_message@,
            editing: opt_edit_view(self.editing),
        }
    }
}

/// What an action does: the next state and the outside work that follows.
pub open spec fn step(s: TrainView, m: MessageView) -> (TrainView, Seq<EffectView>) {
    match m {
        MessageView::InputChanged(v) => (TrainView { input_text: v, ..s }, seq![]),
        MessageView::AddThought => {
            let text = trim(s.input_text);
            if text.len() == 0 {
                (s, seq![])
            } else {
                (s, seq![EffectView::Categorize(text)])
            }
        },
        MessageView::ToggleSearch => {
            if s.search_active {
                (
                    TrainView { search_active: false, search_text: Seq::empty(), ..s },
                    seq![EffectView::Refresh],
                )
            } else {
                (TrainView { search_active: true, ..s }, seq![])
            }
        },
        MessageView::SearchChanged(v) => (
            TrainView { search_text: v, ..s },
            seq![EffectView::Refresh],
        ),
        MessageView::SelectFilter(f) => (
            TrainView { active_filter: f, ..s },
            seq![EffectView::Refresh],
        ),
        MessageView::NewCategoryTextChanged(v) => (
            TrainView { new_category_text: v, ..s },
            seq![],
        ),
        MessageView::AddCategory => {
            let name = trim(s.new_category_text);
            if name.len() == 0 {
                (s, seq![])
            } else {
                (
                    TrainView { new_category_text: Seq::empty(), ..s },
                    seq![
                        EffectView::Write(StoreWriteView::AddCategory { name }),
                        EffectView::ReembedCategories,
                        EffectView::Refresh,
                    ],
                )
            }
        },
        MessageView::DeleteCategory(name) => (
            TrainView {
                active_filter: if s.active_filter == Some(name) {
                    None
                } else {
                    s.active_filter
                },
                ..s
            },
            seq![EffectView::Write(StoreWriteView::DeleteCategory { name }), EffectView::Refresh],
        ),
        MessageView::TogglePin(id) => (
            s,
            seq![EffectView::Write(StoreWriteView::TogglePin { id }), EffectView::Refresh],
        ),
        MessageView::DeleteThought(id) => (
            s,
            seq![EffectView::Write(StoreWriteView::DeleteThought { id }), EffectView::Refresh],
        ),
        MessageView::StartEdit(id, text, category) => (
            TrainView {
                editing: Some(EditView { thought_id: id, text, selected_category: category }),
                ..s
            },
            seq![],
        ),
        MessageView::EditTextChanged(v) => match s.editing {
            Some(e) => (TrainView { editing: Some(EditView { text: v, ..e }), ..s }, seq![]),
            None => (s, seq![]),
        },
        MessageView::EditCategorySelected(c) => match s.editing {
            Some(e) => (
                TrainView { editing: Some(EditView { selected_category: c, ..e }), ..s },
                seq![],
            ),
            None => (s, seq![]),
        },
        MessageView::SaveEdit => match s.editing {
            Some(e) => {
                let t = trim(e.text);
                (
                    TrainView { editing: None, ..s },
                    if t.len() == 0 {
                        seq![EffectView::Refresh]
                    } else {
                        seq![
                            EffectView::Write(
                                StoreWriteView::UpdateThoughtText { id: e.thought_id, text: t },
                            ),
                            EffectView::Write(
                                StoreWriteView::UpdateCategory {
                                    id: e.thought_id,
                                    category: e.selected_category,
                                },
                            ),
                            EffectView::Refresh,
                        ]
                    },
                )
            },
            None => (s, seq![]),
        },
        MessageView::CancelEdit => (TrainView { editing: None, ..s }, seq![]),
        MessageView::AiModelLoaded(r) => match r {
            Ok(()) => (
                TrainView { ai_status: AiStatusView::Ready, status_message: "AI ready"@, ..s },
                seq![EffectView::InstallCategorizer],
            ),
            Err(e) => (
                TrainView {
                    ai_status: AiStatusView::Failed(e),
                    status_message: "AI failed: "@ + e,
                    ..s
                },
                seq![],
            ),
        },
    }
}

/// The category a new thought gets: the categorizer's suggestion, or "Misc"
/// when there is none (no model loaded, or categorization failed).
pub open spec fn category_for(suggested: Option<Seq<char>>) -> Seq<char> {
    match suggested {
        Some(c) => c,
        None => "Misc"@,
    }
}

/// What follows the categorization of the text of a new thought.
pub open spec fn after_categorize(s: TrainView, text: Seq<char>, suggested: Option<Seq<char>>) -> (
    TrainView,
    Seq<EffectView>,
) {
    let category = category_for(suggested);
    (
        TrainView {
            status_message: "Categorized as: "@ + category,
            input_text: Seq::empty(),
            ..s
        },
        seq![
            EffectView::Write(StoreWriteView::AddThought { text, category }),
            EffectView::Refresh,
        ],
    )
}

/// The listing that a reload shows: the search results while the search bar
/// is open with a query in it, else the thoughts of the active filter.
pub open spec fn query_for(s: TrainView) -> ThoughtQueryView {
    if s.search_active && s.search_text.len() > 0 {
        ThoughtQueryView::Search(s.search_text)
    } else {
        ThoughtQueryView::List(s.active_filter)
    }
}

/// The state after a reload; a read that failed shows as an empty list.
pub open spec fn after_refresh(
    s: TrainView,
    categories: Option<Seq<Seq<char>>>,
    thoughts: Option<Seq<ThoughtView>>,
) -> TrainView {
    TrainView {
        categories: match categories {
            Some(c) => c,
            None => Seq::empty(),
        },
        thoughts: match thoughts {
            Some(t) => t,
            None => Seq::empty(),
        },
        ..s
    }
}

impl ThoughtTrain {
    /// The state at start-up, with the categories and thoughts that the store
    /// returned; a read that failed shows as an empty list.
    pub fn new(categories: Option<Vec<String>>, thoughts: Option<Vec<Thought>>) -> (r: Self)
        ensures
            r@ == (TrainView {
                ai_status: AiStatusView::Loading,
                thoughts: match thoughts {
                    Some(t) => thoughts_view(t@),
                    None => Seq::empty(),
                },
                categories: match categories {
                    Some(c) => strings_view(c@),
                    None => Seq::empty(),
                },
                active_filter: None,
                input_text: Seq::empty(),
                search_text: Seq::empty(),
                search_active: false,
                new_category_text: Seq::empty(),
                status_message: "Loading AI model..."@,
                editing: None,
            }),
    {
        let categories = match categories {
            Some(c) => c,
            None => Vec::new(),
        };
        let thoughts = match thoughts {
            Some(t) => t,
            None => Vec::new(),
        };
        ThoughtTrain {
            ai_status: AiStatus::Loading,
            thoughts,
            categories,
            active_filter: None,
            input_text: String::new(),
            search_text: String::new(),
            search_active: false,
            new_category_text: String::new(),
            status_message: String::from_str("Loading AI model..."),
            editing: None,
        }
    }

    /// The window title.
    pub fn title(&self) -> (r: String)
        ensures
            r@ == "Thought Train"@,
    {
        String::from_str("Thought Train")
    }

    /// Applies a message to the state and returns the outside work that
    /// follows, in order.
    pub fn update(&mut self, message: Message) -> (effects: Vec<Effect>)
        ensures
            final(self)@ == step(old(self)@, message@).0,
            effects_view(effects@) == step(old(self)@, message@).1,
    {
        let mut effects: Vec<Effect> = Vec::new();
        match message {
            Message::InputChanged(val) => {
                self.input_text = val;
            },
            Message::AddThought => {
                let text = trimmed(self.input_text.as_str());
                if !text.as_str().is_empty() {
                    effects.push(Effect::Categorize(text));
                }
            },
            Message::ToggleSearch => {
                self.search_active = !self.search_active;
                if !self.search_active {
                    self.search_text = String::new();
                    effects.push(Effect::Refresh);
                }
            },
            Message::SearchChanged(val) => {
                self.search_text = val;
                effects.push(Effect::Refresh);
            },
            Message::SelectFilter(filter) => {
                self.active_filter = filter;
                effects.push(Effect::Refresh);
            },
            Message::NewCategoryTextChanged(val) => {
                self.new_category_text = val;
            },
            Message::AddCategory => {
                let name = trimmed(self.new_category_text.as_str());
                if !name.as_str().is_empty() {
                    effects.push(Effect::Write(StoreWrite::AddCategory { name }));
                    effects.push(Effect::ReembedCategories);
                    self.new_category_text = String::new();
                    effects.push(Effect::Refresh);
                }
            },
            Message::DeleteCategory(name) => {
                let is_active = match &self.active_filter {
                    Some(f) => *f == name,
                    None => false,
                };
                if is_active {
                    self.active_filter = None;
                }
                effects.push(Effect::Write(StoreWrite::DeleteCategory { name }));
                effects.push(Effect::Refresh);
            },
            Message::TogglePin(id) => {
                effects.push(Effect::Write(StoreWrite::TogglePin { id }));
                effects.push(Effect::Refresh);
            },
            Message::DeleteThought(id) => {
                effects.push(Effect::Write(StoreWrite::DeleteThought { id }));
                effects.push(Effect::Refresh);
            },
            Message::StartEdit(id, text, category) => {
                self.editing = Some(
                    EditState { thought_id: id, text, selected_category: category },
                );
            },
            Message::EditTextChanged(val) => {
                match self.editing.take() {
                    Some(e) => {
                        self.editing = Some(
                            EditState {
                                thought_id: e.thought_id,
                                text: val,
                                selected_category: e.selected_category,
                            },
                        );
                    },
                    None => {},
                }
            },
            Message::EditCategorySelected(cat) => {
                match self.editing.take() {
                    Some(e) => {
                        self.editing = Some(
                            EditState {
                                thought_id: e.thought_id,
                                text: e.text,
                                selected_category: cat,
                            },
                        );
                    },
                    None => {},
                }
            },
            Message::SaveEdit => {
                match self.editing.take() {
                    Some(edit) => {
                        let t = trimmed(edit.text.as_str());
                        if !t.as_str().is_empty() {
                            effects.push(
                                Effect::Write(
                                    StoreWrite::UpdateThoughtText { id: edit.thought_id, text: t },
                                ),
                            );
                            effects.push(
                                Effect::Write(
                                    StoreWrite::UpdateCategory {
                                        id: edit.thought_id,
                                        category: edit.selected_category,
                                    },
                                ),
                            );
                        }
                        effects.push(Effect::Refresh);
                    },
                    None => {},
                }
            },
            Message::CancelEdit => {
                self.editing = None;
            },
            Message::AiModelLoaded(result) => {
                match result {
                    Ok(()) => {
                        effects.push(Effect::InstallCategorizer);
                        self.ai_status = AiStatus::Ready;
                        self.status_message = String::from_str("AI ready");
                    },
                    Err(e) => {
                        self.status_message = String::from_str("AI failed: ").concat(e.as_str());
                        self.ai_status = AiStatus::Failed(e);
                    },
                }
            },
        }
        proof {
            assert(effects_view(effects@) =~= step(old(self)@, message@).1);
        }
        effects
    }

    /// Completes the addition of a thought once the categorizer has had its
    /// say: `suggested` is its answer, or `None` when no model is loaded or
    /// categorization failed.
    pub fn finish_add_thought(&mut self, text: String, suggested: Option<String>) -> (effects:
        Vec<Effect>)
        ensures
            final(self)@ == after_categorize(old(self)@, text@, opt_str_view(suggested)).0,
            effects_view(effects@) == after_categorize(
                old(self)@,
                text@,
                opt_str_view(suggested),
            ).1,
    {
        let category = match suggested {
            Some(c) => c,
            None => String::from_str("Misc"),
        };
        self.status_message = String::from_str("Categorized as: ").concat(category.as_str());
        let mut effects: Vec<Effect> = Vec::new();
        effects.push(Effect::Write(StoreWrite::AddThought { text, category }));
        self.input_text = String::new();
        effects.push(Effect::Refresh);
        proof {
            assert(effects_view(effects@) =~= after_categorize(
                old(self)@,
                text@,
                opt_str_view(suggested),
            ).1);
        }
        effects
    }

    /// The listing that a reload must read.
    pub fn refresh_query(&self) -> (q: ThoughtQuery)
        ensures
            q@ == query_for(self@),
    {
        if self.search_active && !self.search_text.as_str().is_empty() {
            ThoughtQuery::Search(self.search_text.clone())
        } else {
            ThoughtQuery::List(clone_opt_string(&self.active_filter))
        }
    }

    /// Shows the categories and thoughts that a reload read.
    pub fn apply_refresh(&mut self, categories: Option<Vec<String>>, thoughts: Option<Vec<Thought>>)
        ensures
            final(self)@ == after_refresh(
                old(self)@,
                match categories {
                    Some(c) => Some(strings_view(c@)),
                    None => None,
                },
                match thoughts {
                    Some(t) => Some(thoughts_view(t@)),
                    None => None,
                },
            ),
    {
        self.categories = match categories {
            Some(c) => c,
            None => Vec::new(),
        };
        self.thoughts = match thoughts {
            Some(t) => t,
            None => Vec::new(),
        };
    }
}

} // verus!
