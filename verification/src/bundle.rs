//! A parsed data item: its id, its target and its tags.

use crate::rows::{first_match, lemma_first_match_at, lemma_first_match_none};
use vstd::prelude::*;

verus! {

/// A tag of a data item.
#[derive(Debug, PartialEq, Eq)]
pub struct Tag {
    pub name: String,
    pub value: String,
}

/// What a `Tag` holds.
pub struct TagView {
    pub name: Seq<char>,
    pub value: Seq<char>,
}

impl View for Tag {
    type V = TagView;

    open spec fn view(&self) -> TagView {
        TagView { name: self.name@, value: self.value@ }
    }
}

/// A data item as the parser hands it over.
#[derive(Debug, PartialEq, Eq)]
pub struct DataItem {
    pub id: String,
    pub target: String,
    pub tags: Vec<Tag>,
}

/// What a `DataItem` holds.
pub struct DataItemView {
    pub id: Seq<char>,
    pub target: Seq<char>,
    pub tags: Seq<TagView>,
}

/// The views of the tags in `tags`, in order.
pub open spec fn tag_views(tags: Seq<Tag>) -> Seq<TagView> {
    Seq::new(tags.len(), |i: int| tags[i]@)
}

impl View for DataItem {
    type V = DataItemView;

    open spec fn view(&self) -> DataItemView {
        DataItemView { id: self.id@, target: self.target@, tags: tag_views(self.tags@) }
    }
}

/// The value of the first tag of `tags` with name `name`.
pub open spec fn tag_value(tags: Seq<TagView>, name: Seq<char>) -> Option<Seq<char>> {
    match first_match(tags, |t: TagView| t.name == name) {
        Some(i) => Some(tags[i].value),
        None => None,
    }
}

/// Whether `tags` has a tag with name `name`.
pub open spec fn has_tag(tags: Seq<TagView>, name: Seq<char>) -> bool {
    tag_value(tags, name) is Some
}

impl DataItem {
    /// The value of the item's first tag with name `name`.
    pub fn tag_value(&self, name: &str) -> (value: Option<String>)
        ensures
            match value {
                Some(v) => tag_value(self@.tags, name@) == Some(v@),
                None => tag_value(self@.tags, name@) is None,
            },
    {
        let wanted_name = name.to_owned();
        let ghost wanted = |t: TagView| t.name == name@;
        let mut i: usize = 0;
        while i < self.tags.len()
            invariant
                i <= self.tags.len(),
                wanted_name@ == name@,
                wanted == (|t: TagView| t.name == name@),
                forall|k: int| 0 <= k < i ==> !#[trigger] wanted(self@.tags[k]),
            decreases self.tags.len() - i,
        {
            if self.tags[i].name == wanted_name {
                proof {
                    lemma_first_match_at(self@.tags, wanted, i as int);
                }
                return Some(self.tags[i].value.clone());
            }
            i += 1;
        }
        proof {
            lemma_first_match_none(self@.tags, wanted);
        }
        None
    }

    /// Whether the item has a tag with name `name`.
    pub fn has_tag(&self, name: &str) -> (present: bool)
        ensures
            present == has_tag(self@.tags, name@),
    {
        self.tag_value(name).is_some()
    }
}

} // verus!
