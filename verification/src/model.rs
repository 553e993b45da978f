//! The records that describe a paste.

use vstd::prelude::*;
use crate::id::{paste_url, user_paste_url};
use crate::user::User;

verus! {

/// What is told about a paste besides its content. Never part of its
/// identity.
#[derive(Debug)]
pub struct PasteMetadata {
    pub title: String,
    pub ascendancy_or_class: String,
    pub version: Option<String>,
    pub main_skill_name: Option<String>,
}

impl Default for PasteMetadata {
    fn default() -> (out: Self)
        ensures
            out.title@.len() == 0,
            out.ascendancy_or_class@.len() == 0,
            out.version is None,
            out.main_skill_name is None,
    {
        PasteMetadata {
            title: String::new(),
            ascendancy_or_class: String::new(),
            version: None,
            main_skill_name: None,
        }
    }
}

/// One entry of the listing of a user's pastes.
#[derive(Debug)]
pub struct ListPaste {
    pub name: String,
    pub metadata: Option<PasteMetadata>,
    pub last_modified: u64,
}

/// A paste as it is handed out.
#[derive(Debug)]
pub struct Paste {
    pub metadata: Option<PasteMetadata>,
    pub last_modified: u64,
    pub entity_id: String,
    pub content: String,
}

/// The short description of a paste in a listing.
#[derive(Debug)]
pub struct PasteSummary {
    pub id: String,
    pub user: Option<User>,
    pub title: String,
    pub ascendancy_or_class: String,
    pub version: String,
    pub main_skill_name: String,
    pub last_modified: u64,
}

impl PasteSummary {
    /// The page of the paste: under its user where it has one.
    pub open spec fn url_text(&self) -> Seq<char> {
        match self.user {
            Some(user) => user_paste_url(user@, self.id@),
            None => paste_url(self.id@),
        }
    }

    pub fn to_url(&self) -> (out: String)
        ensures
            out@ == self.url_text(),
    {
        match &self.user {
            Some(user) => {
                let mut out = "/u/".to_owned();
                out.append(user.as_str());
                out.append("/");
                out.append(self.id.as_str());
                out
            },
            None => {
                let mut out = "/".to_owned();
                out.append(self.id.as_str());
                out
            },
        }
    }
}

} // verus!
