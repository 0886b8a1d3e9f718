//! Paragraph extraction from one chapter's XHTML markup: the document is
//! parsed by the `roxmltree` crate, every node is reduced to its tag name and
//! direct text, and the verified selection keeps, in document order, the text
//! of every `p` element whose direct text is present and non-empty. No
//! trimming is applied. Markup that fails to parse degrades to an empty
//! sequence rather than failing the caller, so malformed input and "no
//! paragraphs present" are indistinguishable here by design.

use vstd::prelude::*;

verus! {

/// One node of a parsed document, reduced to what paragraph selection
/// reads: its tag name (empty for non-element nodes) and its direct text
/// content, when present.
pub struct NodeInfo {
    pub tag: String,
    pub text: Option<String>,
}

impl View for NodeInfo {
    type V = (Seq<char>, Option<Seq<char>>);

    open spec fn view(&self) -> (Seq<char>, Option<Seq<char>>) {
        (
            self.tag@,
            match self.text {
                Some(ref t) => Some(t@),
                None => None,
            },
        )
    }
}

/// The sequence of node views standing for a sequence of nodes.
pub open spec fn nodes_view(nodes: Seq<NodeInfo>) -> Seq<(Seq<char>, Option<Seq<char>>)> {
    nodes.map_values(|n: NodeInfo| n@)
}

/// What parsing a markup text yields: `None` when the text is not a
/// well-formed document, otherwise the (tag name, direct text) pair of every
/// node of the document tree in document order. Computed only by the
/// `roxmltree` crate; a function of the text alone.
pub uninterp spec fn xml_doc_nodes(text: Seq<char>) -> Option<Seq<(Seq<char>, Option<Seq<char>>)>>;

/// The (tag name, direct text) pairs of the nodes held by a parsed
/// document, in document order.
pub uninterp spec fn doc_nodes(doc: roxmltree::Document) -> Seq<(Seq<char>, Option<Seq<char>>)>;

#[verifier::external_type_specification]
#[verifier::external_body]
pub struct ExDocument<'input>(roxmltree::Document<'input>);

/// Relies on roxmltree's `Document::parse`: whether the text parses, and the
/// resulting document tree, depend on the text alone.
#[verifier::external_body]
fn parse_document<'a>(text: &'a str) -> (r: Option<roxmltree::Document<'a>>)
    ensures
        (r is Some) == (xml_doc_nodes(text@) is Some),
        r matches Some(d) ==> Some(doc_nodes(d)) == xml_doc_nodes(text@),
{
    roxmltree::Document::parse(text).ok()
}

/// Relies on roxmltree's `Document::descendants`, `Node::tag_name` and
/// `Node::text`: the document's nodes come in document order, each with its
/// tag name (empty for non-element nodes) and its direct text content.
#[verifier::external_body]
fn document_nodes(doc: &roxmltree::Document) -> (r: Vec<NodeInfo>)
    ensures
        nodes_view(r@) == doc_nodes(*doc),
{
    doc.descendants().map(
        |n| NodeInfo {
            tag: n.tag_name().name().to_owned(),
            text: n.text().map(|t| t.to_owned()),
        },
    ).collect()
}

/// Whether a node contributes a paragraph: it is a `p` element whose direct
/// text is present and non-empty.
pub open spec fn is_paragraph_node(node: (Seq<char>, Option<Seq<char>>)) -> bool {
    &&& node.0 == "p"@
    &&& node.1 is Some
    &&& node.1->Some_0.len() > 0
}

/// The paragraph texts contributed by a sequence of nodes, in order: the
/// direct text of every `p` element whose text is present and non-empty.
pub open spec fn paragraph_texts(nodes: Seq<(Seq<char>, Option<Seq<char>>)>) -> Seq<Seq<char>>
    decreases nodes.len(),
{
    if nodes.len() == 0 {
        Seq::empty()
    } else {
        let rest = paragraph_texts(nodes.drop_last());
        if is_paragraph_node(nodes.last()) {
            rest.push(nodes.last().1->Some_0)
        } else {
            rest
        }
    }
}

/// The paragraph sequence a markup text yields: empty when the text fails
/// to parse, otherwise the paragraph texts of the parsed document's nodes.
pub open spec fn extract_paragraphs_spec(text: Seq<char>) -> Seq<Seq<char>> {
    match xml_doc_nodes(text) {
        Some(nodes) => paragraph_texts(nodes),
        None => Seq::empty(),
    }
}

/// The sequence of character sequences standing for a sequence of strings.
pub open spec fn strings_view(strings: Seq<String>) -> Seq<Seq<char>> {
    strings.map_values(|s: String| s@)
}

/// Selects the paragraph texts out of a document's nodes: the direct text
/// of every `p` element whose text is present and non-empty, in the order
/// the nodes come in. Empty-text paragraph elements are omitted, never
/// represented as empty strings.
pub fn paragraphs_from_nodes(nodes: &Vec<NodeInfo>) -> (r: Vec<String>)
    ensures
        strings_view(r@) == paragraph_texts(nodes_view(nodes@)),
{
    let p_tag: String = "p".to_owned();
    let mut r: Vec<String> = Vec::new();
    let mut i: usize = 0;
    proof {
        assert(strings_view(r@) =~= paragraph_texts(nodes_view(nodes@.take(0))));
    }
    while i < nodes.len()
        invariant
            i <= nodes.len(),
            strings_view(r@) == paragraph_texts(nodes_view(nodes@.take(i as int))),
            p_tag@ == "p"@,
        decreases nodes.len() - i,
    {
        let node = &nodes[i];
        let keep: bool = if node.tag == p_tag {
            match node.text {
                Some(ref t) => !t.as_str().is_empty(),
                None => false,
            }
        } else {
            false
        };
        proof {
            assert(keep == is_paragraph_node(nodes@[i as int]@));
        }
        if keep {
            let text: String = match node.text {
                Some(ref t) => t.clone(),
                None => String::new(),
            };
            r.push(text);
        }
        proof {
            let taken = nodes_view(nodes@.take(i as int + 1));
            assert(taken.drop_last() =~= nodes_view(nodes@.take(i as int)));
            assert(taken.last() == nodes@[i as int]@);
            assert(strings_view(r@) =~= paragraph_texts(taken));
        }
        i = i + 1;
    }
    proof {
        assert(nodes@.take(nodes@.len() as int) =~= nodes@);
    }
    r
}

/// Maps one chapter's markup to its ordered paragraph sequence. The markup
/// is parsed as an XML/XHTML document; if it fails to parse structurally,
/// the result is empty — the chapter degrades silently rather than failing
/// the caller. On a successful parse, the result holds, in document order,
/// the direct text of every `p` element whose text is present and
/// non-empty. Never fails for any input.
pub fn extract_paragraphs(markup: &str) -> (r: Vec<String>)
    ensures
        strings_view(r@) == extract_paragraphs_spec(markup@),
{
    match parse_document(markup) {
        Some(doc) => {
            let nodes = document_nodes(&doc);
            paragraphs_from_nodes(&nodes)
        },
        None => {
            let r: Vec<String> = Vec::new();
            proof {
                assert(strings_view(r@) =~= Seq::<Seq<char>>::empty());
            }
            r
        },
    }
}

} // verus!
