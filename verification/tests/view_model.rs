use thought_train::thought::Thought;
use thought_train::train::{Message, ThoughtTrain};
use thought_train::view_model::{
    category_icon, category_input, edit_category_choice, edit_text_input, pin_marks,
    search_input, thought_input, thought_subtitle, CategoryIcon, PinAction, SearchIcon,
    StatusTone,
};

fn app() -> ThoughtTrain {
    ThoughtTrain::new(
        Some(vec!["Ideas".to_string(), "Misc".to_string(), "Travel".to_string()]),
        Some(vec![
            Thought::from_row(1, "a".into(), "Ideas".into(), "d1".into(), 0),
            Thought::from_row(2, "b".into(), "Misc".into(), "d2".into(), 1),
        ]),
    )
}

#[test]
fn sidebar_marks_all_when_unfiltered_and_misc_is_not_deletable() {
    let s = app().sidebar();
    assert!(s.all_active);
    let names: Vec<&str> = s.entries.iter().map(|e| e.name.as_str()).collect();
    assert_eq!(names, vec!["Ideas", "Misc", "Travel"]);
    assert!(s.entries.iter().all(|e| !e.active));
    assert_eq!(s.entries.iter().map(|e| e.deletable).collect::<Vec<_>>(), vec![true, false, true]);
}

#[test]
fn sidebar_highlights_active_filter() {
    let mut a = app();
    a.update(Message::SelectFilter(Some("Travel".into())));
    let s = a.sidebar();
    assert!(!s.all_active);
    assert_eq!(s.entries.iter().map(|e| e.active).collect::<Vec<_>>(), vec![false, false, true]);
}

#[test]
fn filter_label_counts_listed_thoughts() {
    let mut a = app();
    assert_eq!(a.filter_label(), "All thoughts (2)");
    a.update(Message::SelectFilter(Some("Ideas".into())));
    assert_eq!(a.filter_label(), "Ideas (2)");
    a.apply_refresh(None, None);
    assert_eq!(a.filter_label(), "Ideas (0)");
}

#[test]
fn status_tone_follows_model_state() {
    let mut a = app();
    assert_eq!(a.status_tone(), StatusTone::Warning);
    a.update(Message::AiModelLoaded(Ok(())));
    assert_eq!(a.status_tone(), StatusTone::Success);
    a.update(Message::AiModelLoaded(Err("x".into())));
    assert_eq!(a.status_tone(), StatusTone::Danger);
}

#[test]
fn subtitle_joins_category_and_date() {
    let t = Thought::from_row(1, "a".into(), "Work".into(), "2024-01-02 03:04:05".into(), 0);
    assert_eq!(thought_subtitle(&t), "Work \u{00B7} 2024-01-02 03:04:05");
}

#[test]
fn category_icons_for_built_in_and_custom_categories() {
    assert_eq!(category_icon("Work"), CategoryIcon::Work);
    assert_eq!(category_icon("Personal"), CategoryIcon::Personal);
    assert_eq!(category_icon("Ideas"), CategoryIcon::Ideas);
    assert_eq!(category_icon("Tasks"), CategoryIcon::Tasks);
    assert_eq!(category_icon("Health"), CategoryIcon::Health);
    assert_eq!(category_icon("Finance"), CategoryIcon::Finance);
    assert_eq!(category_icon("Learning"), CategoryIcon::Learning);
    assert_eq!(category_icon("Misc"), CategoryIcon::Misc);
    assert_eq!(category_icon("work"), CategoryIcon::Generic);
    assert_eq!(category_icon("Travel"), CategoryIcon::Generic);
}

#[test]
fn pin_marks_follow_pin_state() {
    let pinned = Thought::from_row(1, "a".into(), "W".into(), "d".into(), 1);
    let plain = Thought::from_row(2, "b".into(), "W".into(), "d".into(), 0);
    let m = pin_marks(&pinned);
    assert!(m.badge && m.highlighted);
    assert_eq!(m.action, PinAction::Unpin);
    let m = pin_marks(&plain);
    assert!(!m.badge && !m.highlighted);
    assert_eq!(m.action, PinAction::Pin);
}

#[test]
fn sidebar_entries_carry_their_messages_and_icons() {
    let s = app().sidebar();
    assert!(matches!(s.all_select, Message::SelectFilter(None)));
    assert!(matches!(s.add, Message::AddCategory));
    let ideas = &s.entries[0];
    assert_eq!(ideas.icon, CategoryIcon::Ideas);
    assert!(matches!(&ideas.select, Message::SelectFilter(Some(c)) if c == "Ideas"));
    assert!(matches!(&ideas.delete, Some(Message::DeleteCategory(c)) if c == "Ideas"));
    let misc = &s.entries[1];
    assert!(misc.delete.is_none());
    assert_eq!(s.entries[2].icon, CategoryIcon::Generic);
}

#[test]
fn main_content_lists_rows_in_order_with_their_buttons() {
    let a = app();
    let m = a.main_content();
    assert_eq!(m.rows.len(), 2);
    assert!(!m.show_placeholder);
    assert_eq!(m.label, "All thoughts (2)");
    assert_eq!(m.status, "Loading AI model...");
    assert_eq!(m.tone, StatusTone::Warning);
    assert!(matches!(m.submit, Message::AddThought));
    let r = &m.rows[1];
    assert_eq!(r.title, "b");
    assert_eq!(r.subtitle, "Misc \u{00B7} d2");
    assert_eq!(r.icon, CategoryIcon::Misc);
    assert_eq!(r.marks.action, PinAction::Unpin);
    assert!(matches!(r.toggle_pin, Message::TogglePin(2)));
    assert!(matches!(r.delete, Message::DeleteThought(2)));
    assert!(matches!(&r.edit, Message::StartEdit(2, t, c) if t == "b" && c == "Misc"));
    assert_eq!(m.rows[0].title, "a");
}

#[test]
fn empty_list_shows_placeholder() {
    let a = ThoughtTrain::new(None, None);
    let m = a.main_content();
    assert!(m.rows.is_empty());
    assert!(m.show_placeholder);
}

#[test]
fn page_follows_search_and_edit_state() {
    let mut a = app();
    let p = a.page();
    assert!(!p.search_bar && !p.overlay);
    assert_eq!(p.search_icon, SearchIcon::Search);
    assert!(matches!(p.toggle_search, Message::ToggleSearch));
    assert!(a.edit_overlay().is_none());
    a.update(Message::ToggleSearch);
    a.update(Message::StartEdit(1, "a".into(), "Ideas".into()));
    let p = a.page();
    assert!(p.search_bar && p.overlay);
    assert_eq!(p.search_icon, SearchIcon::Close);
    let o = a.edit_overlay().unwrap();
    assert_eq!(o.options, vec!["Ideas".to_string(), "Misc".to_string(), "Travel".to_string()]);
    assert_eq!(o.selected, "Ideas");
    assert!(matches!(o.save, Message::SaveEdit));
    assert!(matches!(o.cancel, Message::CancelEdit));
}

#[test]
fn input_controls_send_their_messages() {
    assert!(matches!(thought_input("x".into()), Message::InputChanged(v) if v == "x"));
    assert!(matches!(search_input("q".into()), Message::SearchChanged(v) if v == "q"));
    assert!(matches!(category_input("c".into()), Message::NewCategoryTextChanged(v) if v == "c"));
    assert!(matches!(edit_text_input("t".into()), Message::EditTextChanged(v) if v == "t"));
    assert!(matches!(edit_category_choice("W".into()), Message::EditCategorySelected(v) if v == "W"));
}
