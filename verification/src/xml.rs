//! The element tree of a response document, and how it is rebuilt from the
//! flat stream of tokens that the XML reader hands out.

use vstd::prelude::*;
use xml::reader::XmlEvent;
use xml::{EventReader, ParserConfig};

verus! {

/// One `name="value"` pair of a start tag.
#[derive(Debug, PartialEq, Eq)]
pub struct Attribute {
    pub name: String,
    pub value: String,
}

/// What the reader reports, reduced to what decoding looks at.
#[derive(Debug, PartialEq, Eq)]
pub enum Token {
    /// A start tag with its local name and its attributes in document order.
    Open(String, Vec<Attribute>),
    /// An end tag.
    Close,
    /// Character data, trimmed, with adjacent runs joined.
    Text(String),
    /// Anything else: the document's start and end, processing instructions.
    Other,
}

/// A child of an element.
#[derive(Debug, PartialEq, Eq)]
pub enum Node {
    Element(Element),
    Text(String),
}

/// An element with its attributes and children in document order.
#[derive(Debug, PartialEq, Eq)]
pub struct Element {
    pub name: String,
    pub attributes: Vec<Attribute>,
    pub children: Vec<Node>,
}

/// An attribute, as contracts see it.
pub ghost struct AttributeView {
    pub name: Seq<char>,
    pub value: Seq<char>,
}

/// A token, as contracts see it.
pub ghost enum TokenView {
    Open(Seq<char>, Seq<AttributeView>),
    Close,
    Text(Seq<char>),
    Other,
}

/// A child of an element, as contracts see it.
pub ghost enum NodeView {
    Element(ElementView),
    Text(Seq<char>),
}

/// An element, as contracts see it.
pub ghost struct ElementView {
    pub name: Seq<char>,
    pub attributes: Seq<AttributeView>,
    pub children: Seq<NodeView>,
}

impl Attribute {
    pub fn new(name: String, value: String) -> (r: Attribute)
        ensures
            r == (Attribute { name, value }),
    {
        Attribute { name, value }
    }
}

impl DeepView for Attribute {
    type V = AttributeView;

    open spec fn deep_view(&self) -> AttributeView {
        AttributeView { name: self.name@, value: self.value@ }
    }
}

impl DeepView for Token {
    type V = TokenView;

    open spec fn deep_view(&self) -> TokenView {
        match self {
            Token::Open(name, attributes) => TokenView::Open(name@, attributes.deep_view()),
            Token::Close => TokenView::Close,
            Token::Text(text) => TokenView::Text(text@),
            Token::Other => TokenView::Other,
        }
    }
}

impl DeepView for Node {
    type V = NodeView;

    open spec fn deep_view(&self) -> NodeView
        decreases self,
    {
        match self {
            Node::Element(e) => NodeView::Element(e.deep_view()),
            Node::Text(text) => NodeView::Text(text@),
        }
    }
}

impl DeepView for Element {
    type V = ElementView;

    open spec fn deep_view(&self) -> ElementView
        decreases self,
    {
        ElementView {
            name: self.name@,
            attributes: self.attributes.deep_view(),
            children: Seq::new(
                self.children@.len(),
                |i: int|
                    if 0 <= i < self.children@.len() {
                        self.children@[i].deep_view()
                    } else {
                        NodeView::Text(Seq::empty())
                    },
            ),
        }
    }
}

/// The children of an element's view are the views of its children.
pub proof fn lemma_children_view(e: &Element)
    ensures
        e.deep_view().children == e.children.deep_view(),
{
    assert(e.deep_view().children =~= e.children.deep_view());
}

/// The token stream that the XML reader yields for a document, reduced to
/// `Token`s, or `None` where the reader reports an error.
pub uninterp spec fn xml_tokens(doc: Seq<char>) -> Option<Seq<TokenView>>;

/// Trusted: `xml::EventReader`, run over the document's bytes and configured
/// to trim whitespace around text and to report CDATA and whitespace as
/// character data. Each event becomes one token, in the reader's order: a
/// start tag keeps its local name and its attributes' local names and values,
/// an end tag and a run of character data keep their kind, every other event
/// is `Other`. The first error ends the reading with `None`. The contract
/// names this result; it says nothing of what the tokens are.
#[verifier::external_body]
pub(crate) fn tokenize(doc: &str) -> (r: Option<Vec<Token>>)
    ensures
        r.deep_view() == xml_tokens(doc@),
{
    let config = ParserConfig::new().trim_whitespace(true).whitespace_to_characters(true)
        .cdata_to_characters(true);
    let mut out: Vec<Token> = Vec::new();
    for event in EventReader::new_with_config(doc.as_bytes(), config) {
        out.push(match event {
            Ok(XmlEvent::StartElement { name, attributes, .. }) => Token::Open(name.local_name,
                attributes.into_iter().map(|a| Attribute::new(a.name.local_name, a.value)).collect()),
            Ok(XmlEvent::EndElement { .. }) => Token::Close,
            Ok(XmlEvent::Characters(text)) => Token::Text(text),
            Ok(_) => Token::Other,
            Err(_) => return None,
        });
    }
    Some(out)
}

/// How deep elements may nest: a root with `MAX_DEPTH - 1` levels of
/// descendants is read, anything deeper is refused.
pub const MAX_DEPTH: usize = 64;

/// The siblings that start at `pos`, appended to `acc`, and the position at
/// which they end: that of the end tag that closes their parent, or the end
/// of the stream. `depth` is the number of levels that may still open.
/// `None` where an element is opened and never closed, or nests too deep.
pub open spec fn parse_nodes(
    toks: Seq<TokenView>,
    pos: int,
    acc: Seq<NodeView>,
    depth: nat,
) -> Option<(Seq<NodeView>, int)>
    decreases toks.len() - pos,
{
    if pos < 0 {
        None
    } else if pos >= toks.len() {
        Some((acc, pos))
    } else {
        match toks[pos] {
            TokenView::Close => Some((acc, pos)),
            TokenView::Other => parse_nodes(toks, pos + 1, acc, depth),
            TokenView::Text(text) => parse_nodes(
                toks,
                pos + 1,
                acc.push(NodeView::Text(text)),
                depth,
            ),
            TokenView::Open(name, attributes) => if depth == 0 {
                None
            } else {
                match parse_nodes(toks, pos + 1, Seq::empty(), (depth - 1) as nat) {
                    Some((children, end)) => if pos < end < toks.len() {
                        parse_nodes(
                            toks,
                            end + 1,
                            acc.push(
                                NodeView::Element(ElementView { name, attributes, children }),
                            ),
                            depth,
                        )
                    } else {
                        None
                    },
                    None => None,
                }
            },
        }
    }
}

/// The root element of a token stream: the stream must hold exactly one
/// top-level element, closed, with no text and no stray end tag beside it.
pub open spec fn parse_document(toks: Seq<TokenView>) -> Option<ElementView> {
    match parse_nodes(toks, 0, Seq::empty(), MAX_DEPTH as nat) {
        Some((nodes, end)) => if end == toks.len() && nodes.len() == 1 && nodes[0] is Element {
            Some(nodes[0]->Element_0)
        } else {
            None
        },
        None => None,
    }
}

/// Copies a list of attributes.
pub fn clone_attributes(attributes: &Vec<Attribute>) -> (r: Vec<Attribute>)
    ensures
        r.deep_view() == attributes.deep_view(),
{
    let mut out: Vec<Attribute> = Vec::new();
    let mut i: usize = 0;
    while i < attributes.len()
        invariant
            i <= attributes.len(),
            out.len() == i,
            forall|j: int| 0 <= j < i ==> out@[j].deep_view() == attributes@[j].deep_view(),
        decreases attributes.len() - i,
    {
        let name = attributes[i].name.clone();
        let value = attributes[i].value.clone();
        out.push(Attribute { name, value });
        i += 1;
    }
    assert(out.deep_view() =~= attributes.deep_view());
    out
}

/// Rebuilds the siblings that start at `pos`, opening at most `depth` levels.
pub fn read_nodes(toks: &Vec<Token>, pos: usize, depth: usize) -> (r: Option<(Vec<Node>, usize)>)
    requires
        pos <= toks.len(),
    ensures
        match r {
            Some((nodes, end)) => pos <= end <= toks.len() && parse_nodes(
                toks.deep_view(),
                pos as int,
                Seq::empty(),
                depth as nat,
            ) == Some((nodes.deep_view(), end as int)),
            None => parse_nodes(toks.deep_view(), pos as int, Seq::empty(), depth as nat) is None,
        },
    decreases toks.len() - pos,
{
    let ghost tv = toks.deep_view();
    let mut acc: Vec<Node> = Vec::new();
    let mut i: usize = pos;
    assert(acc.deep_view() =~= Seq::<NodeView>::empty());
    while i < toks.len()
        invariant
            pos <= i <= toks.len(),
            tv == toks.deep_view(),
            parse_nodes(tv, pos as int, Seq::empty(), depth as nat) == parse_nodes(
                tv,
                i as int,
                acc.deep_view(),
                depth as nat,
            ),
        decreases toks.len() - i,
    {
        let ghost before = acc.deep_view();
        assert(tv[i as int] == toks@[i as int].deep_view());
        match &toks[i] {
            Token::Close => {
                return Some((acc, i));
            },
            Token::Other => {
                i += 1;
            },
            Token::Text(text) => {
                let node = Node::Text(text.clone());
                acc.push(node);
                assert(acc.deep_view() =~= before.push(node.deep_view()));
                i += 1;
            },
            Token::Open(name, attributes) => {
                if depth == 0 {
                    return None;
                }
                match read_nodes(toks, i + 1, depth - 1) {
                    None => {
                        return None;
                    },
                    Some((children, end)) => {
                        if end >= toks.len() {
                            return None;
                        }
                        let element = Element {
                            name: name.clone(),
                            attributes: clone_attributes(attributes),
                            children,
                        };
                        proof {
                            lemma_children_view(&element);
                        }
                        let node = Node::Element(element);
                        acc.push(node);
                        assert(acc.deep_view() =~= before.push(node.deep_view()));
                        i = end + 1;
                    },
                }
            },
        }
    }
    Some((acc, i))
}

/// Rebuilds the root element of a token stream.
pub fn read_document(toks: &Vec<Token>) -> (r: Option<Element>)
    ensures
        r.deep_view() == parse_document(toks.deep_view()),
{
    match read_nodes(toks, 0, MAX_DEPTH) {
        None => None,
        Some((mut nodes, end)) => {
            if end != toks.len() || nodes.len() != 1 {
                return None;
            }
            let ghost only = nodes@[0];
            assert(nodes.deep_view()[0] == only.deep_view());
            match nodes.pop() {
                Some(Node::Element(root)) => Some(root),
                _ => None,
            }
        },
    }
}

} // verus!
