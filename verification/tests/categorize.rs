use thought_train::categorize::{choose_category, NO_SCORE};

fn scored(items: &[(&str, i64)]) -> Vec<(String, i64)> {
    items.iter().map(|(n, r)| (n.to_string(), *r)).collect()
}

#[test]
fn no_categories_gives_misc() {
    assert_eq!(choose_category(&Vec::new()), "Misc");
}

#[test]
fn only_unscored_categories_give_misc() {
    assert_eq!(choose_category(&scored(&[("Work", NO_SCORE), ("Ideas", NO_SCORE)])), "Misc");
}

#[test]
fn greatest_similarity_wins() {
    assert_eq!(choose_category(&scored(&[("Work", 10), ("Health", 50), ("Ideas", 20)])), "Health");
}

#[test]
fn first_of_equal_similarities_wins() {
    assert_eq!(choose_category(&scored(&[("Work", 3), ("Ideas", 9), ("Tasks", 9)])), "Ideas");
}

#[test]
fn negative_ranks_above_no_score_still_win() {
    assert_eq!(choose_category(&scored(&[("Work", NO_SCORE), ("Tasks", -5)])), "Tasks");
}

#[test]
fn a_category_named_misc_can_win() {
    assert_eq!(choose_category(&scored(&[("Misc", 4), ("Work", 1)])), "Misc");
}
