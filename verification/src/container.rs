//! The EPUB container boundary: opening a book's raw bytes as a zip-packaged
//! container, looking up its package metadata, and handing out each spine
//! chapter's markup. All of it is done by the `epub` crate behind the trusted
//! items below; opening and every lookup are functions of the container's
//! bytes alone, so each outcome carries a name the verified callers' contracts
//! speak of. Opening is admitted only after the verified check of
//! [`crate::descriptor`] has seen that the container layer will return
//! instead of aborting on the descriptor it is about to read.

use vstd::prelude::*;
use epub::doc::EpubDoc;
use std::io::Cursor;

verus! {

/// An opened EPUB container: the `epub` crate's document handle over the
/// book's bytes. Opaque to the verifier; what the verified callers know of
/// it is said by [`doc_meta`] and [`doc_chapters`] through the trusted items
/// below.
#[verifier::external_body]
pub struct Container {
    inner: EpubDoc<Cursor<Vec<u8>>>,
}

/// Whether a byte sequence opens as a well-formed EPUB container. Decided
/// only by the `epub` crate; a function of the bytes alone.
pub uninterp spec fn container_opens(bytes: Seq<u8>) -> bool;

/// The container layer's own description of why the bytes do not open as a
/// container. A function of the bytes alone.
pub uninterp spec fn container_error_of(bytes: Seq<u8>) -> Seq<char>;

/// The container descriptor (`META-INF/container.xml`) held by the bytes:
/// `None` where they are not a zip archive or carry no descriptor entry —
/// on those bytes the container layer reports its error without reading a
/// package path. A function of the bytes alone.
pub uninterp spec fn container_descriptor_of(bytes: Seq<u8>) -> Option<Seq<u8>>;

/// Whether the bytes may be handed to the container layer at all: they
/// carry no descriptor (the layer then reports its own error), or their
/// descriptor passes the verified admission check, so that the layer cannot
/// reach the package path on which it would abort instead of returning.
pub open spec fn descriptor_admissible(bytes: Seq<u8>) -> bool {
    match container_descriptor_of(bytes) {
        Some(c) => crate::descriptor::descriptor_safe(c),
        None => true,
    }
}

/// Whether the library opens the bytes as a book: their descriptor is
/// admissible and the container layer opens them.
pub open spec fn container_usable(bytes: Seq<u8>) -> bool {
    &&& descriptor_admissible(bytes)
    &&& container_opens(bytes)
}

/// The message carried by a rejected descriptor's error.
pub open spec fn rejected_descriptor_message() -> Seq<char> {
    "the container descriptor names no usable package path"@
}

/// The message an extraction's fatal error carries: the library's own fixed
/// message where the descriptor was rejected, otherwise the container
/// layer's description of the failure.
pub open spec fn invalid_container_message(bytes: Seq<u8>) -> Seq<char> {
    if descriptor_admissible(bytes) {
        container_error_of(bytes)
    } else {
        rejected_descriptor_message()
    }
}

/// The container's metadata entry for a property key: `None` where the
/// container carries no such entry, otherwise the first entry's value.
/// A function of the container's bytes and the key alone.
pub uninterp spec fn container_meta_of(bytes: Seq<u8>, key: Seq<char>) -> Option<Seq<char>>;

/// The container's chapter markup texts in spine (reading) order: one entry
/// per spine item, `None` where the item's resource is missing from the
/// archive or does not decode as text. A function of the bytes alone.
pub uninterp spec fn container_chapters_of(bytes: Seq<u8>) -> Seq<Option<Seq<char>>>;

/// The metadata lookup an opened container answers, per property key.
pub uninterp spec fn doc_meta(doc: Container, key: Seq<char>) -> Option<Seq<char>>;

/// The chapter markup texts an opened container holds, in spine order.
pub uninterp spec fn doc_chapters(doc: Container) -> Seq<Option<Seq<char>>>;

/// The character-sequence view of an optional string.
pub open spec fn opt_string_view(s: Option<String>) -> Option<Seq<char>> {
    match s {
        Some(t) => Some(t@),
        None => None,
    }
}

/// Relies on epub's `EpubArchive::from_reader` and
/// `EpubArchive::get_container_file`: the container descriptor's bytes are a
/// function of the book's bytes alone, and where either step fails,
/// `EpubDoc::from_reader` on the same bytes fails the same way before it
/// reads a package path.
#[verifier::external_body]
pub(crate) fn container_descriptor(bytes: &[u8]) -> (r: Option<Vec<u8>>)
    ensures
        match r {
            Some(c) => container_descriptor_of(bytes@) == Some(c@),
            None => container_descriptor_of(bytes@) is None,
        },
{
    let mut archive = match epub::archive::EpubArchive::from_reader(Cursor::new(bytes.to_vec())) {
        Ok(archive) => archive,
        Err(_) => return None,
    };
    archive.get_container_file().ok()
}

/// Relies on epub's `EpubDoc::from_reader`: whether the bytes open as an
/// EPUB container, what the opened container holds, and the error's text all
/// depend on the bytes alone. On a descriptor whose package path has no
/// parent the call aborts instead of returning, so `requires` admits only
/// bytes whose descriptor passed the verified admission check (or none was
/// found, on which the call fails before reading a path). The call's
/// recursion into the package and navigation documents follows their nesting
/// depth; bounding resource use on adversarially nested input is the host's
/// concern, as it is for allocation.
#[verifier::external_body]
pub(crate) fn open_container(bytes: &[u8]) -> (r: Result<Container, String>)
    requires
        descriptor_admissible(bytes@),
    ensures
        (r is Ok) == container_opens(bytes@),
        r matches Ok(d) ==> forall|k: Seq<char>| #[trigger] doc_meta(d, k) == container_meta_of(bytes@, k),
        r matches Ok(d) ==> doc_chapters(d) == container_chapters_of(bytes@),
        r matches Err(m) ==> m@ == container_error_of(bytes@),
{
    match EpubDoc::from_reader(Cursor::new(bytes.to_vec())) {
        Ok(doc) => Ok(Container { inner: doc }),
        Err(e) => Err(e.to_string()),
    }
}

/// Relies on epub's `EpubDoc::mdata`: the first metadata entry with the
/// given property name, if any; it reads the container without changing it.
#[verifier::external_body]
pub(crate) fn container_metadata(doc: &Container, key: &str) -> (r: Option<String>)
    ensures
        opt_string_view(r) == doc_meta(*doc, key@),
{
    doc.inner.mdata(key).map(|item| item.value.clone())
}

/// Relies on epub's `EpubDoc::get_num_chapters`: the number of spine items
/// of the container.
#[verifier::external_body]
pub(crate) fn chapter_count(doc: &Container) -> (r: usize)
    ensures
        r == doc_chapters(*doc).len(),
{
    doc.inner.get_num_chapters()
}

/// Relies on epub's `EpubDoc::set_current_chapter` and
/// `EpubDoc::get_current_str`: the markup of the spine chapter at the given
/// index, or `None` where its resource is missing or does not decode as
/// text. The calls move the container's chapter cursor and read the archive;
/// they change neither the spine's resources nor the metadata.
#[verifier::external_body]
pub(crate) fn chapter_markup(doc: &mut Container, index: usize) -> (r: Option<
    String,
>)
    requires
        index < doc_chapters(*old(doc)).len(),
    ensures
        doc_chapters(*final(doc)) == doc_chapters(*old(doc)),
        forall|k: Seq<char>| #[trigger] doc_meta(*final(doc), k) == doc_meta(*old(doc), k),
        opt_string_view(r) == doc_chapters(*old(doc))[index as int],
{
    if !doc.inner.set_current_chapter(index) {
        return None;
    }
    doc.inner.get_current_str().map(|(content, _mime)| content)
}

} // verus!
