//! Bookmarks of a database.
use vstd::prelude::*;

verus! {

/// A bookmark as the SDK hands it out.
#[derive(Debug)]
pub struct JsBookmark {
    pub address: i64,
    pub description: String,
    pub is_enabled: bool,
}

/// The mathematical content of a [`JsBookmark`].
pub struct BookmarkView {
    pub address: i64,
    pub description: Seq<char>,
    pub is_enabled: bool,
}

impl View for JsBookmark {
    type V = BookmarkView;

    open spec fn view(&self) -> BookmarkView {
        BookmarkView {
            address: self.address,
            description: self.description@,
            is_enabled: self.is_enabled,
        }
    }
}

} // verus!
