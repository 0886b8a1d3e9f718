//! Bibliographic metadata and its normalization: both fields of a
//! [`BookMetadata`] are always populated, with fixed defaults standing in
//! for entries the container's metadata lookup does not have.

use vstd::prelude::*;

verus! {

/// Normalized bibliographic record of one book. Both fields are always
/// populated: constructors substitute `"Untitled"` / `"Unknown"` where the
/// container had no entry.
pub struct BookMetadata {
    pub title: String,
    pub author: String,
}

/// What the normalized title is, given the container's `"title"` entry.
pub open spec fn normalized_title(title: Option<Seq<char>>) -> Seq<char> {
    match title {
        Some(t) => t,
        None => "Untitled"@,
    }
}

/// What the normalized author is, given the container's `"creator"` entry.
pub open spec fn normalized_author(creator: Option<Seq<char>>) -> Seq<char> {
    match creator {
        Some(a) => a,
        None => "Unknown"@,
    }
}

/// Fills a metadata record from the container's raw lookup results for the
/// `"title"` and `"creator"` keys: a missing title becomes `"Untitled"`, a
/// missing creator becomes `"Unknown"`. Never fails, and performs no
/// validation of the looked-up strings.
pub fn normalize_metadata(title: Option<String>, creator: Option<String>) -> (r: BookMetadata)
    ensures
        r.title@ == normalized_title(match title {
            Some(ref t) => Some(t@),
            None => None,
        }),
        r.author@ == normalized_author(match creator {
            Some(ref a) => Some(a@),
            None => None,
        }),
{
    let t: String = match title {
        Some(t) => t,
        None => "Untitled".to_owned(),
    };
    let a: String = match creator {
        Some(a) => a,
        None => "Unknown".to_owned(),
    };
    BookMetadata { title: t, author: a }
}

} // verus!
