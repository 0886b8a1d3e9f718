//! Extraction core for EPUB e-books: a stable content-addressable identifier,
//! normalized bibliographic metadata, and per-chapter plain-text paragraphs.

pub mod container;
pub mod descriptor;
pub mod extract;
pub mod hashing;
pub mod metadata;
pub mod xhtml;

pub use hashing::bytes_to_hex;
pub use hashing::compute_content_id;
pub use hashing::content_id_spec;
pub use hashing::hex_char;
pub use hashing::hex_of;
pub use hashing::is_lower_hex_char;
pub use hashing::lemma_content_id_deterministic;
pub use hashing::lemma_hex_of_format;
pub use hashing::sha256_of;
pub use metadata::BookMetadata;
pub use metadata::normalize_metadata;
pub use metadata::normalized_author;
pub use metadata::normalized_title;
pub use container::container_chapters_of;
pub use container::container_usable;
pub use container::invalid_container_message;
pub use container::container_meta_of;
pub use container::container_opens;
pub use extract::BookExtract;
pub use extract::ExtractionError;
pub use extract::book_extract_ok;
pub use extract::chapter_paragraphs_spec;
pub use extract::extract_book;
pub use extract::extract_chapter_paragraphs;
pub use extract::get_book_metadata;
pub use xhtml::NodeInfo;
pub use xhtml::extract_paragraphs;
pub use xhtml::extract_paragraphs_spec;
pub use xhtml::is_paragraph_node;
pub use xhtml::nodes_view;
pub use xhtml::paragraph_texts;
pub use xhtml::paragraphs_from_nodes;
pub use xhtml::strings_view;
pub use xhtml::xml_doc_nodes;
