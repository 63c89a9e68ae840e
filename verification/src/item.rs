//! One feed entry and its mathematical model.

use crate::timestamp::{epoch, Timestamp};
use vstd::prelude::*;

verus! {

/// One feed entry: the record the parser accumulates and emits.
#[derive(Clone, Debug)]
pub struct Item {
    pub title: String,
    pub link: String,
    pub created: Timestamp,
    pub author: String,
    pub description: String,
}

/// The model of an [`Item`]: its text fields as character sequences.
pub struct ItemModel {
    pub title: Seq<char>,
    pub link: Seq<char>,
    pub created: Timestamp,
    pub author: Seq<char>,
    pub description: Seq<char>,
}

impl View for Item {
    type V = ItemModel;

    open spec fn view(&self) -> ItemModel {
        ItemModel {
            title: self.title@,
            link: self.link@,
            created: self.created,
            author: self.author@,
            description: self.description@,
        }
    }
}

impl DeepView for Item {
    type V = ItemModel;

    open spec fn deep_view(&self) -> ItemModel {
        self.view()
    }
}

/// A fresh draft: every text field empty, `created` at the Unix epoch.
pub open spec fn default_item() -> ItemModel {
    ItemModel {
        title: Seq::empty(),
        link: Seq::empty(),
        created: epoch(),
        author: Seq::empty(),
        description: Seq::empty(),
    }
}

impl Default for Item {
    /// The draft an item starts from before any field arrives.
    fn default() -> (r: Item)
        ensures
            r@ == default_item(),
    {
        Item {
            title: String::new(),
            link: String::new(),
            created: Timestamp::unix_epoch(),
            author: String::new(),
            description: String::new(),
        }
    }
}

impl Item {
    /// An independent copy of the draft, flushed into the output list
    /// when the enclosing `item` element closes.
    pub fn snapshot(&self) -> (r: Item)
        ensures
            r@ == self@,
    {
        Item {
            title: self.title.clone(),
            link: self.link.clone(),
            created: self.created,
            author: self.author.clone(),
            description: self.description.clone(),
        }
    }
}

} // verus!
