use thought_train::thought::Thought;
use thought_train::train::{
    search_pattern, AiStatus, Effect, Message, StoreWrite, ThoughtQuery, ThoughtTrain,
};

fn fresh() -> ThoughtTrain {
    ThoughtTrain::new(
        Some(vec!["Ideas".to_string(), "Misc".to_string(), "Work".to_string()]),
        Some(vec![Thought::from_row(1, "first".into(), "Ideas".into(), "2024-01-01".into(), 0)]),
    )
}

fn is_refresh(e: &Effect) -> bool {
    matches!(e, Effect::Refresh)
}

#[test]
fn new_starts_loading_with_given_lists() {
    let app = fresh();
    assert!(matches!(app.ai_status, AiStatus::Loading));
    assert_eq!(app.categories.len(), 3);
    assert_eq!(app.thoughts.len(), 1);
    assert_eq!(app.status_message, "Loading AI model...");
    assert!(app.active_filter.is_none());
    assert!(!app.search_active);
    assert!(app.editing.is_none());
}

#[test]
fn new_with_failed_reads_starts_empty() {
    let app = ThoughtTrain::new(None, None);
    assert!(app.categories.is_empty());
    assert!(app.thoughts.is_empty());
}

#[test]
fn title_is_thought_train() {
    assert_eq!(fresh().title(), "Thought Train");
}

#[test]
fn blank_thought_is_ignored() {
    let mut app = fresh();
    app.update(Message::InputChanged("  \t ".into()));
    let effects = app.update(Message::AddThought);
    assert!(effects.is_empty());
    assert_eq!(app.input_text, "  \t ");
}

#[test]
fn add_thought_asks_for_categorization_of_trimmed_text() {
    let mut app = fresh();
    app.update(Message::InputChanged("  buy milk ".into()));
    let effects = app.update(Message::AddThought);
    assert_eq!(effects.len(), 1);
    match &effects[0] {
        Effect::Categorize(t) => assert_eq!(t, "buy milk"),
        other => panic!("unexpected {other:?}"),
    }
    assert_eq!(app.input_text, "  buy milk ");
}

#[test]
fn finish_add_thought_stores_suggestion_and_refreshes() {
    let mut app = fresh();
    app.update(Message::InputChanged("run 5k".into()));
    let effects = app.finish_add_thought("run 5k".into(), Some("Health".into()));
    assert_eq!(app.status_message, "Categorized as: Health");
    assert_eq!(app.input_text, "");
    assert_eq!(effects.len(), 2);
    match &effects[0] {
        Effect::Write(StoreWrite::AddThought { text, category }) => {
            assert_eq!(text, "run 5k");
            assert_eq!(category, "Health");
        }
        other => panic!("unexpected {other:?}"),
    }
    assert!(is_refresh(&effects[1]));
}

#[test]
fn finish_add_thought_without_suggestion_uses_misc() {
    let mut app = fresh();
    let effects = app.finish_add_thought("hmm".into(), None);
    assert_eq!(app.status_message, "Categorized as: Misc");
    match &effects[0] {
        Effect::Write(StoreWrite::AddThought { category, .. }) => assert_eq!(category, "Misc"),
        other => panic!("unexpected {other:?}"),
    }
}

#[test]
fn toggle_search_twice_clears_query() {
    let mut app = fresh();
    assert!(app.update(Message::ToggleSearch).is_empty());
    assert!(app.search_active);
    let e = app.update(Message::SearchChanged("milk".into()));
    assert_eq!(e.len(), 1);
    assert!(is_refresh(&e[0]));
    let e = app.update(Message::ToggleSearch);
    assert!(!app.search_active);
    assert_eq!(app.search_text, "");
    assert_eq!(e.len(), 1);
    assert!(is_refresh(&e[0]));
}

#[test]
fn refresh_query_searches_only_with_open_search_and_query() {
    let mut app = fresh();
    app.update(Message::SelectFilter(Some("Work".into())));
    match app.refresh_query() {
        ThoughtQuery::List(Some(f)) => assert_eq!(f, "Work"),
        other => panic!("unexpected {other:?}"),
    }
    app.update(Message::ToggleSearch);
    match app.refresh_query() {
        ThoughtQuery::List(Some(f)) => assert_eq!(f, "Work"),
        other => panic!("unexpected {other:?}"),
    }
    app.update(Message::SearchChanged("milk".into()));
    match app.refresh_query() {
        ThoughtQuery::Search(q) => assert_eq!(q, "milk"),
        other => panic!("unexpected {other:?}"),
    }
}

#[test]
fn deleting_active_category_clears_filter() {
    let mut app = fresh();
    app.update(Message::SelectFilter(Some("Work".into())));
    let e = app.update(Message::DeleteCategory("Work".into()));
    assert!(app.active_filter.is_none());
    assert_eq!(e.len(), 2);
    match &e[0] {
        Effect::Write(StoreWrite::DeleteCategory { name }) => assert_eq!(name, "Work"),
        other => panic!("unexpected {other:?}"),
    }
    assert!(is_refresh(&e[1]));
    assert!(matches!(app.refresh_query(), ThoughtQuery::List(None)));
}

#[test]
fn deleting_other_category_keeps_filter() {
    let mut app = fresh();
    app.update(Message::SelectFilter(Some("Ideas".into())));
    app.update(Message::DeleteCategory("Work".into()));
    assert_eq!(app.active_filter.as_deref(), Some("Ideas"));
}

#[test]
fn add_category_trims_writes_reembeds_and_refreshes() {
    let mut app = fresh();
    app.update(Message::NewCategoryTextChanged("  Travel ".into()));
    let e = app.update(Message::AddCategory);
    assert_eq!(app.new_category_text, "");
    assert_eq!(e.len(), 3);
    match &e[0] {
        Effect::Write(StoreWrite::AddCategory { name }) => assert_eq!(name, "Travel"),
        other => panic!("unexpected {other:?}"),
    }
    assert!(matches!(e[1], Effect::ReembedCategories));
    assert!(is_refresh(&e[2]));
}

#[test]
fn blank_category_is_ignored() {
    let mut app = fresh();
    app.update(Message::NewCategoryTextChanged(" ".into()));
    assert!(app.update(Message::AddCategory).is_empty());
    assert_eq!(app.new_category_text, " ");
}

#[test]
fn pin_and_delete_write_then_refresh() {
    let mut app = fresh();
    let e = app.update(Message::TogglePin(7));
    assert!(matches!(e[0], Effect::Write(StoreWrite::TogglePin { id: 7 })));
    assert!(is_refresh(&e[1]));
    let e = app.update(Message::DeleteThought(9));
    assert!(matches!(e[0], Effect::Write(StoreWrite::DeleteThought { id: 9 })));
    assert!(is_refresh(&e[1]));
}

#[test]
fn edit_then_save_writes_trimmed_text_and_category() {
    let mut app = fresh();
    app.update(Message::StartEdit(1, "first".into(), "Ideas".into()));
    app.update(Message::EditTextChanged(" first, revised ".into()));
    app.update(Message::EditCategorySelected("Work".into()));
    let e = app.update(Message::SaveEdit);
    assert!(app.editing.is_none());
    assert_eq!(e.len(), 3);
    match &e[0] {
        Effect::Write(StoreWrite::UpdateThoughtText { id, text }) => {
            assert_eq!(*id, 1);
            assert_eq!(text, "first, revised");
        }
        other => panic!("unexpected {other:?}"),
    }
    match &e[1] {
        Effect::Write(StoreWrite::UpdateCategory { id, category }) => {
            assert_eq!(*id, 1);
            assert_eq!(category, "Work");
        }
        other => panic!("unexpected {other:?}"),
    }
    assert!(is_refresh(&e[2]));
}

#[test]
fn saving_blank_edit_only_refreshes() {
    let mut app = fresh();
    app.update(Message::StartEdit(1, "first".into(), "Ideas".into()));
    app.update(Message::EditTextChanged("   ".into()));
    let e = app.update(Message::SaveEdit);
    assert!(app.editing.is_none());
    assert_eq!(e.len(), 1);
    assert!(is_refresh(&e[0]));
}

#[test]
fn cancelled_edit_leaves_nothing_behind() {
    let mut app = fresh();
    assert!(app.update(Message::StartEdit(1, "first".into(), "Ideas".into())).is_empty());
    let edit = app.editing.as_ref().unwrap();
    assert_eq!(edit.thought_id, 1);
    assert_eq!(edit.text, "first");
    assert_eq!(edit.selected_category, "Ideas");
    assert!(app.update(Message::CancelEdit).is_empty());
    assert!(app.editing.is_none());
}

#[test]
fn edit_messages_without_open_edit_do_nothing() {
    let mut app = fresh();
    assert!(app.update(Message::EditTextChanged("x".into())).is_empty());
    assert!(app.update(Message::EditCategorySelected("Work".into())).is_empty());
    assert!(app.update(Message::SaveEdit).is_empty());
    assert!(app.editing.is_none());
}

#[test]
fn model_loaded_marks_ready_and_installs() {
    let mut app = fresh();
    let e = app.update(Message::AiModelLoaded(Ok(())));
    assert!(matches!(app.ai_status, AiStatus::Ready));
    assert_eq!(app.status_message, "AI ready");
    assert_eq!(e.len(), 1);
    assert!(matches!(e[0], Effect::InstallCategorizer));
}

#[test]
fn model_failure_is_reported() {
    let mut app = fresh();
    let e = app.update(Message::AiModelLoaded(Err("no network".into())));
    match &app.ai_status {
        AiStatus::Failed(m) => assert_eq!(m, "no network"),
        other => panic!("unexpected {other:?}"),
    }
    assert_eq!(app.status_message, "AI failed: no network");
    assert!(e.is_empty());
}

#[test]
fn apply_refresh_replaces_lists_and_empties_on_failure() {
    let mut app = fresh();
    app.apply_refresh(Some(vec!["A".into()]), None);
    assert_eq!(app.categories, vec!["A".to_string()]);
    assert!(app.thoughts.is_empty());
    app.apply_refresh(None, Some(vec![Thought::from_row(2, "t".into(), "A".into(), "now".into(), 1)]));
    assert!(app.categories.is_empty());
    assert_eq!(app.thoughts.len(), 1);
    assert!(app.thoughts[0].pinned);
}

#[test]
fn search_pattern_wraps_query_in_wildcards() {
    assert_eq!(search_pattern("milk"), "%milk%");
    assert_eq!(search_pattern(""), "%%");
}

#[test]
fn message_clone_is_equal_in_content() {
    let m = Message::StartEdit(3, "a".into(), "b".into());
    match m.clone() {
        Message::StartEdit(id, t, c) => {
            assert_eq!(id, 3);
            assert_eq!(t, "a");
            assert_eq!(c, "b");
        }
        other => panic!("unexpected {other:?}"),
    }
}

#[test]
fn filter_change_keeps_search_results_while_query_is_shown() {
    let mut app = fresh();
    app.update(Message::ToggleSearch);
    app.update(Message::SearchChanged("milk".into()));
    let e = app.update(Message::SelectFilter(Some("Work".into())));
    assert_eq!(e.len(), 1);
    assert!(matches!(app.refresh_query(), ThoughtQuery::Search(_)));
}

#[test]
fn sent_texts_have_no_surrounding_white_space() {
    let mut app = fresh();
    app.update(Message::InputChanged("\u{3000} note \t".into()));
    match &app.update(Message::AddThought)[0] {
        Effect::Categorize(t) => assert_eq!(t, "note"),
        other => panic!("unexpected {other:?}"),
    }
}
