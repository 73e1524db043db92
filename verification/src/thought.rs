//! A thought: one note with its category, creation time and pin flag.

use vstd::prelude::*;

verus! {

/// One stored thought, as the store hands it out.
#[derive(Debug)]
pub struct Thought {
    pub id: i64,
    pub text: String,
    pub category: String,
    pub created_at: String,
    pub pinned: bool,
}

/// The mathematical value of a [`Thought`].
pub struct ThoughtView {
    pub id: i64,
    pub text: Seq<char>,
    pub category: Seq<char>,
    pub created_at: Seq<char>,
    pub pinned: bool,
}

impl View for Thought {
    type V = ThoughtView;

    open spec fn view(&self) -> ThoughtView {
        ThoughtView {
            id: self.id,
            text: self.text@,
            category: self.category@,
            created_at: self.created_at@,
            pinned: self.pinned,
        }
    }
}

/// The views of a sequence of thoughts.
pub open spec fn thoughts_view(v: Seq<Thought>) -> Seq<ThoughtView> {
    v.map_values(|t: Thought| t@)
}

impl Thought {
    /// Builds a thought from the columns of a stored row; the pin column is
    /// an integer, and any value other than zero means pinned.
    pub fn from_row(
        id: i64,
        text: String,
        category: String,
        created_at: String,
        pinned_flag: i32,
    ) -> (t: Thought)
        ensures
            t@ == (ThoughtView {
                id,
                text: text@,
                category: category@,
                created_at: created_at@,
                pinned: pinned_flag != 0,
            }),
    {
        Thought { id, text, category, created_at, pinned: pinned_flag != 0 }
    }
}

impl Clone for Thought {
    fn clone(&self) -> (r: Self)
        ensures
            r@ == self@,
    {
        Thought {
            id: self.id,
            text: self.text.clone(),
            category: self.category.clone(),
            created_at: self.created_at.clone(),
            pinned: self.pinned,
        }
    }
}

} // verus!
