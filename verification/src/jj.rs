//! The state of a JJ working copy, as the prompt shows it.

use crate::text::{short_id, shortened};
use vstd::prelude::*;

verus! {

/// JJ repository status info.
#[derive(Debug)]
pub struct JjInfo {
    /// Change id of the working copy, already cut to the display length.
    pub change_id: String,
    /// Bookmark that points at the working copy, if any.
    pub bookmark: Option<String>,
    /// Whether the description is empty.
    pub empty_desc: bool,
    /// Whether the working copy has conflicts.
    pub conflict: bool,
    /// Whether the change is divergent.
    pub divergent: bool,
    /// Whether the bookmark has a remote counterpart.
    pub has_remote: bool,
    /// Whether the bookmark agrees with its remote counterpart.
    pub is_synced: bool,
}

/// What a [`JjInfo`] holds, as mathematical values.
pub struct JjStatus {
    pub change_id: Seq<char>,
    pub bookmark: Option<Seq<char>>,
    pub empty_desc: bool,
    pub conflict: bool,
    pub divergent: bool,
    pub has_remote: bool,
    pub is_synced: bool,
}

impl View for JjInfo {
    type V = JjStatus;

    open spec fn view(&self) -> JjStatus {
        JjStatus {
            change_id: self.change_id@,
            bookmark: self.bookmark.deep_view(),
            empty_desc: self.empty_desc,
            conflict: self.conflict,
            divergent: self.divergent,
            has_remote: self.has_remote,
            is_synced: self.is_synced,
        }
    }
}

impl JjInfo {
    /// The status of a working copy whose full change id is
    /// `full_change_id`: the id is cut to `id_length` characters, the rest
    /// is taken over as it is.
    pub fn new(
        full_change_id: &str,
        id_length: usize,
        bookmark: Option<String>,
        empty_desc: bool,
        conflict: bool,
        divergent: bool,
        has_remote: bool,
        is_synced: bool,
    ) -> (r: JjInfo)
        ensures
            r@ == (JjStatus {
                change_id: shortened(full_change_id@, id_length as nat),
                bookmark: bookmark.deep_view(),
                empty_desc,
                conflict,
                divergent,
                has_remote,
                is_synced,
            }),
    {
        JjInfo {
            change_id: short_id(full_change_id, id_length),
            bookmark,
            empty_desc,
            conflict,
            divergent,
            has_remote,
            is_synced,
        }
    }
}

} // verus!
