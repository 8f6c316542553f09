//! A path as the scan sees it.

use vstd::prelude::*;
use vstd::string::StringExecFns;

verus! {

/// A path together with what the platform's path rules and the file system
/// say about it. The scan reads these values and never takes a path apart
/// itself.
#[derive(Debug)]
pub struct Entry {
    /// The whole path.
    pub path: String,
    /// Its last component.
    pub name: String,
    /// The path without its last component; empty where there is none.
    pub parent: String,
    /// The last component of `parent`: the name a working tree is shown by.
    pub project: String,
    /// Whether the path is a directory.
    pub is_dir: bool,
}

/// What an `Entry` stands for.
pub struct EntryView {
    pub path: Seq<char>,
    pub name: Seq<char>,
    pub parent: Seq<char>,
    pub project: Seq<char>,
    pub is_dir: bool,
}

impl View for Entry {
    type V = EntryView;

    open spec fn view(&self) -> EntryView {
        EntryView {
            path: self.path@,
            name: self.name@,
            parent: self.parent@,
            project: self.project@,
            is_dir: self.is_dir,
        }
    }
}

/// One item of a directory listing: an entry, or the failure that ended the
/// listing.
#[derive(Debug)]
pub enum ListingItem {
    Found(Entry),
    Failed(String),
}

/// What a `ListingItem` stands for.
pub enum ItemView {
    Found(EntryView),
    Failed(Seq<char>),
}

impl View for ListingItem {
    type V = ItemView;

    open spec fn view(&self) -> ItemView {
        match self {
            ListingItem::Found(entry) => ItemView::Found(entry@),
            ListingItem::Failed(reason) => ItemView::Failed(reason@),
        }
    }
}

/// What the items of a listing stand for, in order.
pub open spec fn item_views(items: Seq<ListingItem>) -> Seq<ItemView> {
    Seq::new(items.len(), |i: int| items[i]@)
}

/// The name of the directory that marks a working tree.
pub open spec fn marker_name() -> Seq<char> {
    ".git"@
}

impl Entry {
    /// Whether this entry marks its parent as a working tree.
    pub open spec fn marks_repository(&self) -> bool {
        self.name@ == marker_name()
    }

    /// Tells whether this entry marks its parent as a working tree.
    pub fn is_marker(&self) -> (marker: bool)
        ensures
            marker == self.marks_repository(),
    {
        self.name == String::from_str(".git")
    }
}

} // verus!
