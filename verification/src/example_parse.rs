//! Extraction of a structured puzzle example from a puzzle page.
//!
//! The narrative article of a puzzle page is flattened, in document order,
//! into plain descriptors of its elements (tag kind, inner markup, child
//! shape). A forward-only scan over those descriptors carries three bits of
//! state — whether the "for example" phrase has been seen, whether a block
//! has been captured for the current part, and whether the part-two marker
//! has been passed — and captures the example block and answer for each
//! part. The scan itself is verified against a functional model; only the
//! flattening of HTML into descriptors and the decoding of HTML entities
//! are delegated to outside crates.

use crate::text::{contains_phrase, contains_phrase_ci, remove_all, strip_all};
use scraper::Element;
use vstd::prelude::*;

verus! {

/// The element kinds the scan distinguishes: paragraphs (phrase detection),
/// preformatted blocks (example capture), inline code (answer capture),
/// second-level headings (part-two marker), and everything else.
#[derive(Clone, Copy, PartialEq, Eq, Structural, Debug)]
pub enum Tag {
    Para,
    PreBlock,
    CodeInline,
    Heading,
    OtherTag,
}

/// The kinds a first element child can have that matter to the scan.
#[derive(Clone, Copy, PartialEq, Eq, Structural, Debug)]
pub enum ChildTag {
    CodeChild,
    EmChild,
    OtherChild,
}

/// The first element child of a flattened element: its kind and its inner
/// markup, kept verbatim.
pub struct ElemChild {
    pub tag: ChildTag,
    pub inner: String,
}

/// One flattened element of the narrative article: its kind, its inner
/// markup, how many child nodes (elements and text alike) it has, its first
/// element child if any, and whether it carries the part-two identifier.
pub struct Node {
    pub tag: Tag,
    pub inner: String,
    pub child_count: usize,
    pub elem_child: Option<ElemChild>,
    pub part2_id: bool,
}

/// Mathematical image of `ElemChild`.
pub struct ElemChildView {
    pub tag: ChildTag,
    pub inner: Seq<char>,
}

/// Mathematical image of `Node`.
pub struct NodeView {
    pub tag: Tag,
    pub inner: Seq<char>,
    pub child_count: nat,
    pub elem_child: Option<ElemChildView>,
    pub part2_id: bool,
}

impl View for ElemChild {
    type V = ElemChildView;

    open spec fn view(&self) -> ElemChildView {
        ElemChildView { tag: self.tag, inner: self.inner@ }
    }
}

impl View for Node {
    type V = NodeView;

    open spec fn view(&self) -> NodeView {
        NodeView {
            tag: self.tag,
            inner: self.inner@,
            child_count: self.child_count as nat,
            elem_child: match self.elem_child {
                Some(c) => Some(c@),
                None => None,
            },
            part2_id: self.part2_id,
        }
    }
}

/// The images of a sequence of flattened elements.
pub open spec fn node_views(ns: Seq<Node>) -> Seq<NodeView> {
    ns.map_values(|n: Node| n@)
}

/// A parsed puzzle example: the sample input for part one (required), the
/// distinct sample for part two if one exists, and the walkthrough answers
/// for each part where present.
#[derive(Clone, Debug, PartialEq)]
pub struct Example {
    pub data: String,
    pub part2_data: Option<String>,
    pub part1_answer: Option<String>,
    pub part2_answer: Option<String>,
}

/// Mathematical image of `Example`.
pub struct ExampleView {
    pub data: Seq<char>,
    pub part2_data: Option<Seq<char>>,
    pub part1_answer: Option<Seq<char>>,
    pub part2_answer: Option<Seq<char>>,
}

impl View for Example {
    type V = ExampleView;

    open spec fn view(&self) -> ExampleView {
        ExampleView {
            data: self.data@,
            part2_data: match self.part2_data {
                Some(s) => Some(s@),
                None => None,
            },
            part1_answer: match self.part1_answer {
                Some(s) => Some(s@),
                None => None,
            },
            part2_answer: match self.part2_answer {
                Some(s) => Some(s@),
                None => None,
            },
        }
    }
}

/// The image of an optional parsed example.
pub open spec fn view_opt_example(r: Option<Example>) -> Option<ExampleView> {
    match r {
        Some(e) => Some(e@),
        None => None,
    }
}

/// The phrase whose (case-insensitive) presence in a paragraph marks the
/// narrative as about to show an example.
pub open spec fn example_phrase() -> Seq<char> {
    "for example"@
}

/// Opening emphasis markup, stripped from captured example blocks.
pub open spec fn em_open() -> Seq<char> {
    "<em>"@
}

/// Closing emphasis markup, stripped from captured example blocks.
pub open spec fn em_close() -> Seq<char> {
    "</em>"@
}

/// The state the scan carries across the flattened elements, together with
/// everything captured so far.
pub struct ScanState {
    pub saw_phrase: bool,
    pub captured: bool,
    pub in_part2: bool,
    pub data: Option<Seq<char>>,
    pub part2_data: Option<Seq<char>>,
    pub part1_answer: Option<Seq<char>>,
    pub part2_answer: Option<Seq<char>>,
}

/// The scan's starting state: nothing seen, nothing captured, part one.
pub open spec fn init_scan() -> ScanState {
    ScanState {
        saw_phrase: false,
        captured: false,
        in_part2: false,
        data: None,
        part2_data: None,
        part1_answer: None,
        part2_answer: None,
    }
}

/// A captured example block's text: the inner markup of the single code
/// child with emphasis markup removed.
pub open spec fn captured_block(inner: Seq<char>) -> Seq<char> {
    remove_all(remove_all(inner, em_open()), em_close())
}

/// One step of the scan.
///
/// A paragraph containing the example phrase (case-insensitively) sets
/// `saw_phrase`. A preformatted block qualifies as the current part's
/// example when the phrase has been seen, no block has been captured for
/// this part yet, and the block has exactly one child node which is a code
/// element; its inner markup is captured with emphasis tags stripped. An
/// inline code element with exactly one child node which is an emphasis
/// element yields the current part's answer, the last such match winning.
/// A heading carrying the part-two identifier switches to part two and
/// re-arms phrase and capture tracking for it.
pub open spec fn scan_step(st: ScanState, n: NodeView) -> ScanState {
    match n.tag {
        Tag::Para => {
            if contains_phrase_ci(n.inner, example_phrase()) {
                ScanState { saw_phrase: true, ..st }
            } else {
                st
            }
        },
        Tag::PreBlock => {
            if st.saw_phrase && !st.captured && n.child_count == 1 && n.elem_child is Some
                && n.elem_child->0.tag == ChildTag::CodeChild {
                let text = captured_block(n.elem_child->0.inner);
                if st.in_part2 {
                    ScanState { part2_data: Some(text), captured: true, ..st }
                } else {
                    ScanState { data: Some(text), captured: true, ..st }
                }
            } else {
                st
            }
        },
        Tag::CodeInline => {
            if n.child_count == 1 && n.elem_child is Some && n.elem_child->0.tag
                == ChildTag::EmChild {
                if st.in_part2 {
                    ScanState { part2_answer: Some(n.elem_child->0.inner), ..st }
                } else {
                    ScanState { part1_answer: Some(n.elem_child->0.inner), ..st }
                }
            } else {
                st
            }
        },
        Tag::Heading => {
            if n.part2_id {
                ScanState { in_part2: true, saw_phrase: false, captured: false, ..st }
            } else {
                st
            }
        },
        Tag::OtherTag => st,
    }
}

/// The scan's state after all elements, folding `scan_step` from the start.
pub open spec fn scan_nodes_state(ns: Seq<NodeView>) -> ScanState
    decreases ns.len(),
{
    if ns.len() == 0 {
        init_scan()
    } else {
        scan_step(scan_nodes_state(ns.drop_last()), ns.last())
    }
}

/// The scan's outcome: an example exists only if a part-one block was
/// captured; captured block text has its HTML entities decoded, answers are
/// kept verbatim.
pub open spec fn finish_scan(st: ScanState) -> Option<ExampleView> {
    match st.data {
        Some(d) => Some(
            ExampleView {
                data: decoded_entities(d),
                part2_data: match st.part2_data {
                    Some(p) => Some(decoded_entities(p)),
                    None => None,
                },
                part1_answer: st.part1_answer,
                part2_answer: st.part2_answer,
            },
        ),
        None => None,
    }
}

/// What extraction yields for a given sequence of flattened elements.
pub open spec fn spec_scan_example(ns: Seq<NodeView>) -> Option<ExampleView> {
    finish_scan(scan_nodes_state(ns))
}

/// What extraction yields for a whole document.
pub open spec fn spec_parse_example(html: Seq<char>) -> Option<ExampleView> {
    spec_scan_example(article_nodes(html))
}

/// What flattening the narrative article of a document yields: the plain
/// descriptors, in document order, of every element under the expected
/// article container; empty when the container is absent. HTML parsing is
/// deterministic, so this is a function of the document text alone.
pub uninterp spec fn article_nodes(html: Seq<char>) -> Seq<NodeView>;

/// What HTML entity decoding yields for a text: a function of the text
/// alone.
pub uninterp spec fn decoded_entities(s: Seq<char>) -> Seq<char>;

/// Relies on `html_escape::decode_html_entities`: decodes exact named and
/// numeric character references in the text; the result depends on the text
/// alone, named `decoded_entities` here.
#[verifier::external_body]
fn decode_entities(s: &str) -> (r: String)
    ensures
        r@ == decoded_entities(s@),
{
    html_escape::decode_html_entities(s).into_owned()
}

#[verifier::external_type_specification]
#[verifier::external_body]
pub struct ExElementRef<'a>(scraper::ElementRef<'a>);

/// Relies on `scraper::node::Element::name`: reads the element's tag name,
/// mapped one arm per kind onto the descriptor's tag kinds.
#[verifier::external_body]
fn tag_of_element(element: &scraper::ElementRef<'_>) -> Tag {
    match element.value().name() {
        "p" => Tag::Para,
        "pre" => Tag::PreBlock,
        "code" => Tag::CodeInline,
        "h2" => Tag::Heading,
        _ => Tag::OtherTag,
    }
}

/// Relies on `scraper::element_ref::Element::first_element_child` and
/// `ElementRef::inner_html`: reads the first child that is an element, its
/// tag name (one arm per kind) and its inner markup.
#[verifier::external_body]
fn child_of_element(element: &scraper::ElementRef<'_>) -> Option<ElemChild> {
    element.first_element_child().map(|c| ElemChild {
        tag: match c.value().name() {
            "code" => ChildTag::CodeChild,
            "em" => ChildTag::EmChild,
            _ => ChildTag::OtherChild,
        },
        inner: c.inner_html(),
    })
}

/// Relies on `scraper::ElementRef`: reads inner markup, child-node count
/// and the case-insensitive `part2` id into one plain descriptor.
#[verifier::external_body]
fn node_of_element(element: &scraper::ElementRef<'_>) -> Node {
    Node {
        tag: tag_of_element(element),
        inner: element.inner_html(),
        child_count: element.children().count(),
        elem_child: child_of_element(element),
        part2_id: element.has_id(
            &scraper::selector::CssLocalName::from("part2"),
            scraper::CaseSensitivity::AsciiCaseInsensitive,
        ),
    }
}

/// Relies on `scraper::Html::parse_document` and `Html::select`: parses the
/// document and flattens every element under the narrative article
/// (`article.day-desc *`), in document order, into plain descriptors.
/// Parsing is deterministic, so the result is the function of the document
/// text named `article_nodes`.
#[verifier::external_body]
fn article_elements(html: &str) -> (r: Vec<Node>)
    ensures
        node_views(r@) == article_nodes(html@),
{
    let mut nodes: Vec<Node> = Vec::new();
    let document = scraper::Html::parse_document(html);
    if let Ok(selector) = scraper::Selector::parse("article.day-desc *") {
        for element in document.select(&selector) {
            nodes.push(node_of_element(&element));
        }
    }
    nodes
}

impl Example {
    /// Run the extraction scan over already-flattened article elements.
    pub fn scan_article(nodes: &Vec<Node>) -> (r: Option<Example>)
        ensures
            view_opt_example(r) == spec_scan_example(node_views(nodes@)),
    {
        let ghost views = node_views(nodes@);
        let mut saw_phrase = false;
        let mut captured = false;
        let mut in_part2 = false;
        let mut data: Option<String> = None;
        let mut part2_data: Option<String> = None;
        let mut part1_answer: Option<String> = None;
        let mut part2_answer: Option<String> = None;
        let n = nodes.len();
        proof {
            assert(views.take(0) =~= Seq::<NodeView>::empty());
        }
        for idx in 0..n
            invariant
                n == nodes.len(),
                views == node_views(nodes@),
                views.len() == n,
                ({
                    let st = scan_nodes_state(views.take(idx as int));
                    &&& saw_phrase == st.saw_phrase
                    &&& captured == st.captured
                    &&& in_part2 == st.in_part2
                    &&& view_opt_string(data) == st.data
                    &&& view_opt_string(part2_data) == st.part2_data
                    &&& view_opt_string(part1_answer) == st.part1_answer
                    &&& view_opt_string(part2_answer) == st.part2_answer
                }),
        {
            let ghost st = scan_nodes_state(views.take(idx as int));
            let node = &nodes[idx];
            proof {
                assert(views[idx as int] == node@);
                assert(views.take(idx as int + 1).drop_last() =~= views.take(idx as int));
                assert(views.take(idx as int + 1).last() == views[idx as int]);
                assert(scan_nodes_state(views.take(idx as int + 1)) == scan_step(
                    st,
                    node@,
                ));
            }
            match node.tag {
                Tag::Para => {
                    if contains_phrase(node.inner.as_str(), "for example") {
                        saw_phrase = true;
                    }
                },
                Tag::PreBlock => {
                    if saw_phrase && !captured && node.child_count == 1 {
                        if let Some(c) = &node.elem_child {
                            if c.tag == ChildTag::CodeChild {
                                proof {
                                    reveal_strlit("<em>");
                                    reveal_strlit("</em>");
                                }
                                let stripped = strip_all(
                                    strip_all(c.inner.as_str(), "<em>").as_str(),
                                    "</em>",
                                );
                                if in_part2 {
                                    part2_data = Some(stripped);
                                } else {
                                    data = Some(stripped);
                                }
                                captured = true;
                            }
                        }
                    }
                },
                Tag::CodeInline => {
                    if node.child_count == 1 {
                        if let Some(c) = &node.elem_child {
                            if c.tag == ChildTag::EmChild {
                                if in_part2 {
                                    part2_answer = Some(c.inner.clone());
                                } else {
                                    part1_answer = Some(c.inner.clone());
                                }
                            }
                        }
                    }
                },
                Tag::Heading => {
                    if node.part2_id {
                        in_part2 = true;
                        saw_phrase = false;
                        captured = false;
                    }
                },
                Tag::OtherTag => {},
            }
        }
        proof {
            assert(views.take(n as int) =~= views);
        }
        match data {
            Some(d) => {
                let decoded = decode_entities(d.as_str());
                let p2 = match part2_data {
                    Some(p) => Some(decode_entities(p.as_str())),
                    None => None,
                };
                Some(
                    Example {
                        data: decoded,
                        part2_data: p2,
                        part1_answer,
                        part2_answer,
                    },
                )
            },
            None => None,
        }
    }

    /// Extract the example from a puzzle page: flatten the narrative
    /// article's elements, then run the verified scan over them. Absence of
    /// the expected structure yields `None`, never an error.
    pub fn parse_example(html: String) -> (r: Option<Example>)
        ensures
            view_opt_example(r) == spec_parse_example(html@),
    {
        let nodes = article_elements(html.as_str());
        Example::scan_article(&nodes)
    }
}

/// The image of an optional owned text.
pub open spec fn view_opt_string(o: Option<String>) -> Option<Seq<char>> {
    match o {
        Some(s) => Some(s@),
        None => None,
    }
}

/// Law: extraction is a pure function of the document text. Parsing the
/// same HTML twice — or two equal copies of it — yields identical results,
/// present or absent alike.
pub proof fn lemma_parse_idempotent(h1: Seq<char>, h2: Seq<char>)
    requires
        h1 == h2,
    ensures
        spec_parse_example(h1) == spec_parse_example(h2),
{
}

} // verus!
