//! The extraction orchestrator: one call per book takes the raw bytes to a
//! stable content identifier, a normalized metadata record, and the ordered
//! paragraph sequences of every chapter in reading order. The one fatal
//! failure is a container that does not open at all; a single chapter whose
//! markup cannot be produced or parsed degrades to an empty paragraph
//! sequence at its index and never fails the rest of the book.

use vstd::prelude::*;
use crate::container::Container;
use crate::container::chapter_count;
use crate::container::chapter_markup;
use crate::container::container_chapters_of;
use crate::container::container_meta_of;
use crate::container::container_metadata;
use crate::container::container_descriptor;
use crate::container::container_usable;
use crate::container::doc_chapters;
use crate::container::doc_meta;
use crate::container::invalid_container_message;
use crate::container::open_container;
use crate::descriptor::descriptor_safe_check;
use crate::hashing::compute_content_id;
use crate::hashing::content_id_spec;
use crate::metadata::BookMetadata;
use crate::metadata::normalize_metadata;
use crate::metadata::normalized_author;
use crate::metadata::normalized_title;
use crate::xhtml::extract_paragraphs;
use crate::xhtml::extract_paragraphs_spec;
use crate::xhtml::strings_view;

verus! {

/// The fatal failures of an extraction. A chapter that yields no paragraphs
/// is not one of them: it surfaces only as an empty sequence at its index.
#[derive(Debug)]
pub enum ExtractionError {
    /// The supplied bytes are not a well-formed EPUB container; the carried
    /// string is the container layer's own description of the cause.
    InvalidContainer(String),
}

impl ExtractionError {
    /// The human-readable cause carried by the error.
    pub fn message(&self) -> (r: &str)
        ensures
            self matches ExtractionError::InvalidContainer(m) && r@ == m@,
    {
        match self {
            ExtractionError::InvalidContainer(m) => m.as_str(),
        }
    }
}

/// Everything one book extracts to: its content identifier, its normalized
/// metadata, and one ordered paragraph sequence per chapter in reading
/// order.
pub struct BookExtract {
    pub id: String,
    pub metadata: BookMetadata,
    pub chapters: Vec<Vec<String>>,
}

/// The paragraph sequence owed for one chapter of the container: empty
/// where the container does not produce the chapter's markup, otherwise
/// whatever the markup extracts to.
pub open spec fn chapter_paragraphs_spec(markup: Option<Seq<char>>) -> Seq<Seq<char>> {
    match markup {
        Some(text) => extract_paragraphs_spec(text),
        None => Seq::empty(),
    }
}

/// Whether an extraction result is the one owed for the given book bytes:
/// the identifier is the content identifier of the bytes; the metadata is
/// the container's `"title"` and `"creator"` entries with the fixed
/// defaults filled in; and chapter by chapter, in reading order, the
/// paragraphs are those its markup extracts to.
pub open spec fn book_extract_ok(b: BookExtract, bytes: Seq<u8>) -> bool {
    &&& b.id@ == content_id_spec(bytes)
    &&& b.metadata.title@ == normalized_title(container_meta_of(bytes, "title"@))
    &&& b.metadata.author@ == normalized_author(container_meta_of(bytes, "creator"@))
    &&& b.chapters@.len() == container_chapters_of(bytes).len()
    &&& forall|i: int|
        0 <= i < b.chapters@.len() ==> strings_view(#[trigger] b.chapters@[i]@)
            == chapter_paragraphs_spec(container_chapters_of(bytes)[i])
}

/// Whether an opened container still answers for the given bytes: its
/// metadata lookup and its chapter list are those of the bytes.
pub open spec fn doc_state_matches(doc: Container, bytes: Seq<u8>) -> bool {
    &&& forall|k: Seq<char>| #[trigger] doc_meta(doc, k) == container_meta_of(bytes, k)
    &&& doc_chapters(doc) == container_chapters_of(bytes)
}

/// Opens the bytes as a book container: the descriptor is fetched and held
/// to the verified admission check first, so that the container layer is
/// never handed bytes on which it would abort; only then is the container
/// opened. On failure the error text is the library's fixed message for a
/// rejected descriptor, otherwise the container layer's own description.
fn open_gated(bytes: &[u8]) -> (r: Result<Container, String>)
    ensures
        (r is Ok) == container_usable(bytes@),
        r matches Ok(d) ==> doc_state_matches(d, bytes@),
        r matches Err(m) ==> m@ == invalid_container_message(bytes@),
{
    match container_descriptor(bytes) {
        Some(c) => {
            if !descriptor_safe_check(&c) {
                return Err("the container descriptor names no usable package path".to_owned());
            }
        },
        None => {},
    }
    open_container(bytes)
}

/// Extracts one book start to finish: computes the content identifier of
/// the raw bytes, opens them as an EPUB container, normalizes the
/// container's metadata, and extracts every chapter's paragraphs in reading
/// order. Fails exactly when the bytes do not open as a book container; no
/// other failure mode exists, and no partial result is ever returned. The
/// error carries the container layer's own message, or the library's fixed
/// message where the descriptor was rejected by the admission check.
pub fn extract_book(bytes: &[u8]) -> (r: Result<BookExtract, ExtractionError>)
    ensures
        (r is Ok) == container_usable(bytes@),
        r matches Ok(b) ==> book_extract_ok(b, bytes@),
        r matches Err(e) ==> e matches ExtractionError::InvalidContainer(m)
            && m@ == invalid_container_message(bytes@),
{
    let id = compute_content_id(bytes);
    let mut doc = match open_gated(bytes) {
        Ok(doc) => doc,
        Err(cause) => {
            return Err(ExtractionError::InvalidContainer(cause));
        },
    };
    let title = container_metadata(&doc, "title");
    let creator = container_metadata(&doc, "creator");
    let metadata = normalize_metadata(title, creator);
    let n = chapter_count(&doc);
    let mut chapters: Vec<Vec<String>> = Vec::new();
    let mut i: usize = 0;
    while i < n
        invariant
            i <= n,
            n == container_chapters_of(bytes@).len(),
            doc_state_matches(doc, bytes@),
            chapters@.len() == i,
            forall|j: int|
                0 <= j < i ==> strings_view(#[trigger] chapters@[j]@)
                    == chapter_paragraphs_spec(container_chapters_of(bytes@)[j]),
        decreases n - i,
    {
        let markup = chapter_markup(&mut doc, i);
        let paragraphs = match markup {
            Some(text) => extract_paragraphs(text.as_str()),
            None => {
                let empty: Vec<String> = Vec::new();
                proof {
                    assert(strings_view(empty@) =~= Seq::<Seq<char>>::empty());
                }
                empty
            },
        };
        chapters.push(paragraphs);
        i = i + 1;
    }
    Ok(BookExtract { id, metadata, chapters })
}

/// Reads the normalized metadata of a book given its raw bytes: the
/// container's `"title"` entry, defaulting to `"Untitled"`, and its
/// `"creator"` entry, defaulting to `"Unknown"`. Fails exactly when the
/// bytes do not open as a book container; the error carries the container
/// layer's own message, or the library's fixed message where the descriptor
/// was rejected by the admission check.
pub fn get_book_metadata(bytes: &[u8]) -> (r: Result<BookMetadata, ExtractionError>)
    ensures
        (r is Ok) == container_usable(bytes@),
        r matches Ok(m) ==> m.title@ == normalized_title(container_meta_of(bytes@, "title"@))
            && m.author@ == normalized_author(container_meta_of(bytes@, "creator"@)),
        r matches Err(e) ==> e matches ExtractionError::InvalidContainer(m)
            && m@ == invalid_container_message(bytes@),
{
    let doc = match open_gated(bytes) {
        Ok(doc) => doc,
        Err(cause) => {
            return Err(ExtractionError::InvalidContainer(cause));
        },
    };
    let title = container_metadata(&doc, "title");
    let creator = container_metadata(&doc, "creator");
    Ok(normalize_metadata(title, creator))
}

/// Extracts the paragraph sequence of the one chapter at the given reading-
/// order index. Fails exactly when the bytes do not open as a book
/// container; an index at or past the end of the spine yields an empty
/// sequence, as does a chapter whose markup the container does not produce
/// or that fails to parse.
pub fn extract_chapter_paragraphs(bytes: &[u8], chapter_index: usize) -> (r: Result<
    Vec<String>,
    ExtractionError,
>)
    ensures
        (r is Ok) == container_usable(bytes@),
        r matches Ok(p) ==> strings_view(p@) == if chapter_index < container_chapters_of(
            bytes@,
        ).len() {
            chapter_paragraphs_spec(container_chapters_of(bytes@)[chapter_index as int])
        } else {
            Seq::<Seq<char>>::empty()
        },
        r matches Err(e) ==> e matches ExtractionError::InvalidContainer(m)
            && m@ == invalid_container_message(bytes@),
{
    let mut doc = match open_gated(bytes) {
        Ok(doc) => doc,
        Err(cause) => {
            return Err(ExtractionError::InvalidContainer(cause));
        },
    };
    let n = chapter_count(&doc);
    if chapter_index >= n {
        let empty: Vec<String> = Vec::new();
        proof {
            assert(strings_view(empty@) =~= Seq::<Seq<char>>::empty());
        }
        return Ok(empty);
    }
    let markup = chapter_markup(&mut doc, chapter_index);
    match markup {
        Some(text) => Ok(extract_paragraphs(text.as_str())),
        None => {
            let empty: Vec<String> = Vec::new();
            proof {
                assert(strings_view(empty@) =~= Seq::<Seq<char>>::empty());
            }
            Ok(empty)
        },
    }
}

} // verus!
