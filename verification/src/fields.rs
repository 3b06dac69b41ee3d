//! How single fields and lists of children are bound from an element: the
//! building blocks that every entity's decoder is made of.

use crate::error::DecodeError;
use crate::text::{parse_u32, parse_u32_spec, parse_u64, parse_u64_spec, text_eq};
use crate::xml::{Attribute, AttributeView, Element, ElementView, Node, NodeView};
use vstd::prelude::*;

verus! {

/// The view of a decoding result: that of the value, or the error as it is.
pub open spec fn ok_view<T: DeepView>(r: Result<T, DecodeError>) -> Result<T::V, DecodeError> {
    match r {
        Ok(v) => Ok(v.deep_view()),
        Err(e) => Err(e),
    }
}

/// A type that is decoded from one element.
pub trait FromElement: DeepView + Sized {
    /// What the element decodes to.
    spec fn spec_from_element(e: ElementView) -> Result<Self::V, DecodeError>;

    /// Decodes the element.
    fn from_element(e: &Element) -> (r: Result<Self, DecodeError>)
        ensures
            ok_view(r) == Self::spec_from_element(e.deep_view()),
    ;
}

// ---------------------------------------------------------------------------
// Attributes
// ---------------------------------------------------------------------------

/// The value of the first attribute called `name`.
pub open spec fn find_attr(attrs: Seq<AttributeView>, name: Seq<char>) -> Option<Seq<char>>
    decreases attrs.len(),
{
    if attrs.len() == 0 {
        None
    } else if attrs[0].name == name {
        Some(attrs[0].value)
    } else {
        find_attr(attrs.drop_first(), name)
    }
}

/// A field that may be bound from either of two attributes: the first name
/// wins where both are present.
pub open spec fn find_attr_or(
    attrs: Seq<AttributeView>,
    name: Seq<char>,
    other: Seq<char>,
) -> Option<Seq<char>> {
    match find_attr(attrs, name) {
        Some(v) => Some(v),
        None => find_attr(attrs, other),
    }
}

/// A field that must be there: its absence is `MissingField`.
pub open spec fn required(found: Option<Seq<char>>) -> Result<Seq<char>, DecodeError> {
    match found {
        Some(v) => Ok(v),
        None => Err(DecodeError::MissingField),
    }
}

/// The number that a text denotes, if it is a numeral of at most 64 bits.
pub open spec fn u64_value(text: Seq<char>) -> Result<u64, DecodeError> {
    match parse_u64_spec(text) {
        Some(v) => Ok(v),
        None => Err(DecodeError::InvalidValue),
    }
}

/// The number that a text denotes, if it is a numeral of at most 32 bits.
pub open spec fn u32_value(text: Seq<char>) -> Result<u32, DecodeError> {
    match parse_u32_spec(text) {
        Some(v) => Ok(v),
        None => Err(DecodeError::InvalidValue),
    }
}

/// `true` and `1` are true, `false` and `0` are false, nothing else is a
/// truth value.
pub open spec fn bool_value(text: Seq<char>) -> Result<bool, DecodeError> {
    if text == "true"@ || text == "1"@ {
        Ok(true)
    } else if text == "false"@ || text == "0"@ {
        Ok(false)
    } else {
        Err(DecodeError::InvalidValue)
    }
}

/// A required attribute, as text.
pub open spec fn text_field(attrs: Seq<AttributeView>, name: Seq<char>) -> Result<
    Seq<char>,
    DecodeError,
> {
    required(find_attr(attrs, name))
}

/// A required attribute that holds a number of at most 64 bits.
pub open spec fn u64_field(attrs: Seq<AttributeView>, name: Seq<char>) -> Result<u64, DecodeError> {
    match find_attr(attrs, name) {
        Some(text) => u64_value(text),
        None => Err(DecodeError::MissingField),
    }
}

/// A required attribute that holds a number of at most 32 bits.
pub open spec fn u32_field(attrs: Seq<AttributeView>, name: Seq<char>) -> Result<u32, DecodeError> {
    match find_attr(attrs, name) {
        Some(text) => u32_value(text),
        None => Err(DecodeError::MissingField),
    }
}

/// A required attribute that holds a truth value.
pub open spec fn bool_field(attrs: Seq<AttributeView>, name: Seq<char>) -> Result<
    bool,
    DecodeError,
> {
    match find_attr(attrs, name) {
        Some(text) => bool_value(text),
        None => Err(DecodeError::MissingField),
    }
}

/// An optional attribute that holds a number of at most 64 bits: absent is
/// fine, present and no numeral is not.
pub open spec fn opt_u64_field(attrs: Seq<AttributeView>, name: Seq<char>) -> Result<
    Option<u64>,
    DecodeError,
> {
    match find_attr(attrs, name) {
        Some(text) => match u64_value(text) {
            Ok(v) => Ok(Some(v)),
            Err(e) => Err(e),
        },
        None => Ok(None),
    }
}

/// An optional attribute that holds a number of at most 32 bits: absent is
/// fine, present and no numeral is not.
pub open spec fn opt_u32_field(attrs: Seq<AttributeView>, name: Seq<char>) -> Result<
    Option<u32>,
    DecodeError,
> {
    match find_attr(attrs, name) {
        Some(text) => match u32_value(text) {
            Ok(v) => Ok(Some(v)),
            Err(e) => Err(e),
        },
        None => Ok(None),
    }
}

/// An optional attribute that holds a truth value: absent is fine, present
/// and no truth value is not.
pub open spec fn opt_bool_field(attrs: Seq<AttributeView>, name: Seq<char>) -> Result<
    Option<bool>,
    DecodeError,
> {
    match find_attr(attrs, name) {
        Some(text) => match bool_value(text) {
            Ok(v) => Ok(Some(v)),
            Err(e) => Err(e),
        },
        None => Ok(None),
    }
}

/// Finds the value of the first attribute called `name`.
pub fn attr<'a>(attrs: &'a Vec<Attribute>, name: &str) -> (r: Option<&'a String>)
    ensures
        match r {
            Some(v) => find_attr(attrs.deep_view(), name@) == Some(v@),
            None => find_attr(attrs.deep_view(), name@) is None,
        },
{
    let ghost av = attrs.deep_view();
    let mut i: usize = 0;
    assert(av.skip(0) =~= av);
    while i < attrs.len()
        invariant
            i <= attrs.len(),
            av == attrs.deep_view(),
            find_attr(av, name@) == find_attr(av.skip(i as int), name@),
        decreases attrs.len() - i,
    {
        assert(av.skip(i as int).drop_first() =~= av.skip(i + 1));
        assert(av.skip(i as int)[0] == attrs@[i as int].deep_view());
        if text_eq(attrs[i].name.as_str(), name) {
            return Some(&attrs[i].value);
        }
        i += 1;
    }
    None
}

/// Reads a truth value.
pub fn parse_bool(text: &str) -> (r: Result<bool, DecodeError>)
    ensures
        r == bool_value(text@),
{
    if text_eq(text, "true") || text_eq(text, "1") {
        Ok(true)
    } else if text_eq(text, "false") || text_eq(text, "0") {
        Ok(false)
    } else {
        Err(DecodeError::InvalidValue)
    }
}

/// Reads a number of at most 64 bits.
pub fn parse_u64_value(text: &str) -> (r: Result<u64, DecodeError>)
    ensures
        r == u64_value(text@),
{
    match parse_u64(text) {
        Some(v) => Ok(v),
        None => Err(DecodeError::InvalidValue),
    }
}

/// Reads a number of at most 32 bits.
pub fn parse_u32_value(text: &str) -> (r: Result<u32, DecodeError>)
    ensures
        r == u32_value(text@),
{
    match parse_u32(text) {
        Some(v) => Ok(v),
        None => Err(DecodeError::InvalidValue),
    }
}

/// Binds an optional attribute as text.
pub fn opt_text_attr(attrs: &Vec<Attribute>, name: &str) -> (r: Option<String>)
    ensures
        r.deep_view() == find_attr(attrs.deep_view(), name@),
{
    match attr(attrs, name) {
        Some(v) => Some(v.clone()),
        None => None,
    }
}

/// Binds a required attribute as text.
pub fn text_attr(attrs: &Vec<Attribute>, name: &str) -> (r: Result<String, DecodeError>)
    ensures
        ok_view(r) == text_field(attrs.deep_view(), name@),
{
    match attr(attrs, name) {
        Some(v) => Ok(v.clone()),
        None => Err(DecodeError::MissingField),
    }
}

/// The text of a field that goes by two names.
pub fn text_attr_or(attrs: &Vec<Attribute>, name: &str, other: &str) -> (r: Result<
    String,
    DecodeError,
>)
    ensures
        ok_view(r) == required(find_attr_or(attrs.deep_view(), name@, other@)),
{
    match attr(attrs, name) {
        Some(v) => Ok(v.clone()),
        None => match attr(attrs, other) {
            Some(v) => Ok(v.clone()),
            None => Err(DecodeError::MissingField),
        },
    }
}

/// Binds a required attribute as a number of at most 64 bits.
pub fn u64_attr(attrs: &Vec<Attribute>, name: &str) -> (r: Result<u64, DecodeError>)
    ensures
        r == u64_field(attrs.deep_view(), name@),
{
    match attr(attrs, name) {
        Some(v) => parse_u64_value(v.as_str()),
        None => Err(DecodeError::MissingField),
    }
}

/// Binds a required attribute as a number of at most 32 bits.
pub fn u32_attr(attrs: &Vec<Attribute>, name: &str) -> (r: Result<u32, DecodeError>)
    ensures
        r == u32_field(attrs.deep_view(), name@),
{
    match attr(attrs, name) {
        Some(v) => parse_u32_value(v.as_str()),
        None => Err(DecodeError::MissingField),
    }
}

/// Binds a required attribute as a truth value.
pub fn bool_attr(attrs: &Vec<Attribute>, name: &str) -> (r: Result<bool, DecodeError>)
    ensures
        r == bool_field(attrs.deep_view(), name@),
{
    match attr(attrs, name) {
        Some(v) => parse_bool(v.as_str()),
        None => Err(DecodeError::MissingField),
    }
}

/// Binds an optional attribute as a number of at most 64 bits.
pub fn opt_u64_attr(attrs: &Vec<Attribute>, name: &str) -> (r: Result<Option<u64>, DecodeError>)
    ensures
        r == opt_u64_field(attrs.deep_view(), name@),
{
    match attr(attrs, name) {
        Some(v) => match parse_u64_value(v.as_str()) {
            Ok(n) => Ok(Some(n)),
            Err(e) => Err(e),
        },
        None => Ok(None),
    }
}

/// Binds an optional attribute as a number of at most 32 bits.
pub fn opt_u32_attr(attrs: &Vec<Attribute>, name: &str) -> (r: Result<Option<u32>, DecodeError>)
    ensures
        r == opt_u32_field(attrs.deep_view(), name@),
{
    match attr(attrs, name) {
        Some(v) => match parse_u32_value(v.as_str()) {
            Ok(n) => Ok(Some(n)),
            Err(e) => Err(e),
        },
        None => Ok(None),
    }
}

/// Binds an optional attribute as a truth value.
pub fn opt_bool_attr(attrs: &Vec<Attribute>, name: &str) -> (r: Result<Option<bool>, DecodeError>)
    ensures
        r == opt_bool_field(attrs.deep_view(), name@),
{
    match attr(attrs, name) {
        Some(v) => match parse_bool(v.as_str()) {
            Ok(b) => Ok(Some(b)),
            Err(e) => Err(e),
        },
        None => Ok(None),
    }
}

// ---------------------------------------------------------------------------
// Children
// ---------------------------------------------------------------------------

/// The first run of text among the children.
pub open spec fn first_text(children: Seq<NodeView>) -> Option<Seq<char>>
    decreases children.len(),
{
    if children.len() == 0 {
        None
    } else {
        match children[0] {
            NodeView::Text(text) => Some(text),
            NodeView::Element(_) => first_text(children.drop_first()),
        }
    }
}

/// The first child element called `name`.
pub open spec fn find_child(children: Seq<NodeView>, name: Seq<char>) -> Option<ElementView>
    decreases children.len(),
{
    if children.len() == 0 {
        None
    } else {
        match children[0] {
            NodeView::Element(e) if e.name == name => Some(e),
            _ => find_child(children.drop_first(), name),
        }
    }
}

/// The text inside the first child element called `name`: empty where that
/// element holds no text, `None` where there is no such element.
pub open spec fn child_text(children: Seq<NodeView>, name: Seq<char>) -> Option<Seq<char>> {
    match find_child(children, name) {
        Some(e) => match first_text(e.children) {
            Some(text) => Some(text),
            None => Some(Seq::empty()),
        },
        None => None,
    }
}

/// Whether a child takes part in a list: every element does where `only` is
/// `None`, else the elements of that name. Text never does.
pub open spec fn listed(node: NodeView, only: Option<Seq<char>>) -> bool {
    match node {
        NodeView::Element(e) => only is None || only == Some(e.name),
        NodeView::Text(_) => false,
    }
}

/// The listed children from `children`, decoded in document order and
/// appended to `acc`; the first one that fails to decode fails the list.
pub open spec fn list_from<T: FromElement>(
    children: Seq<NodeView>,
    only: Option<Seq<char>>,
    acc: Seq<T::V>,
) -> Result<Seq<T::V>, DecodeError>
    decreases children.len(),
{
    if children.len() == 0 {
        Ok(acc)
    } else if listed(children[0], only) {
        match T::spec_from_element(children[0]->Element_0) {
            Ok(v) => list_from::<T>(children.drop_first(), only, acc.push(v)),
            Err(e) => Err(e),
        }
    } else {
        list_from::<T>(children.drop_first(), only, acc)
    }
}

/// A sequence bound to an element's nested content: absent where no child is
/// listed, else the listed children in document order.
pub open spec fn optional_list<T: FromElement>(
    children: Seq<NodeView>,
    only: Option<Seq<char>>,
) -> Result<Option<Seq<T::V>>, DecodeError> {
    match list_from::<T>(children, only, Seq::empty()) {
        Ok(items) => if items.len() == 0 {
            Ok(None)
        } else {
            Ok(Some(items))
        },
        Err(e) => Err(e),
    }
}

/// Finds the first run of text among the children.
pub fn text_content<'a>(children: &'a Vec<Node>) -> (r: Option<&'a String>)
    ensures
        match r {
            Some(v) => first_text(children.deep_view()) == Some(v@),
            None => first_text(children.deep_view()) is None,
        },
{
    let ghost cv = children.deep_view();
    let mut i: usize = 0;
    assert(cv.skip(0) =~= cv);
    while i < children.len()
        invariant
            i <= children.len(),
            cv == children.deep_view(),
            first_text(cv) == first_text(cv.skip(i as int)),
        decreases children.len() - i,
    {
        assert(cv.skip(i as int).drop_first() =~= cv.skip(i + 1));
        assert(cv.skip(i as int)[0] == children@[i as int].deep_view());
        match &children[i] {
            Node::Text(text) => {
                return Some(text);
            },
            Node::Element(_) => {},
        }
        i += 1;
    }
    None
}

/// The text that an element holds; it is an error for it to hold none.
pub fn content_text(children: &Vec<Node>) -> (r: Result<String, DecodeError>)
    ensures
        ok_view(r) == required(first_text(children.deep_view())),
{
    match text_content(children) {
        Some(text) => Ok(text.clone()),
        None => Err(DecodeError::MissingField),
    }
}

/// The text that an element holds, or the empty text where it holds none.
pub open spec fn text_or_empty(children: Seq<NodeView>) -> Seq<char> {
    match first_text(children) {
        Some(text) => text,
        None => Seq::empty(),
    }
}

/// The text that an element holds, or the empty text.
pub fn content_or_empty(children: &Vec<Node>) -> (r: String)
    ensures
        r@ == text_or_empty(children.deep_view()),
{
    match text_content(children) {
        Some(text) => text.clone(),
        None => String::new(),
    }
}

/// Finds the first child element called `name`.
pub fn child<'a>(children: &'a Vec<Node>, name: &str) -> (r: Option<&'a Element>)
    ensures
        match r {
            Some(e) => find_child(children.deep_view(), name@) == Some(e.deep_view()),
            None => find_child(children.deep_view(), name@) is None,
        },
{
    let ghost cv = children.deep_view();
    let mut i: usize = 0;
    assert(cv.skip(0) =~= cv);
    while i < children.len()
        invariant
            i <= children.len(),
            cv == children.deep_view(),
            find_child(cv, name@) == find_child(cv.skip(i as int), name@),
        decreases children.len() - i,
    {
        assert(cv.skip(i as int).drop_first() =~= cv.skip(i + 1));
        assert(cv.skip(i as int)[0] == children@[i as int].deep_view());
        match &children[i] {
            Node::Element(e) => {
                if text_eq(e.name.as_str(), name) {
                    return Some(e);
                }
            },
            Node::Text(_) => {},
        }
        i += 1;
    }
    None
}

/// Binds the text inside the first child element called `name`.
pub fn opt_child_text(children: &Vec<Node>, name: &str) -> (r: Option<String>)
    ensures
        r.deep_view() == child_text(children.deep_view(), name@),
{
    match child(children, name) {
        Some(e) => {
            proof {
                crate::xml::lemma_children_view(e);
            }
            match text_content(&e.children) {
                Some(text) => Some(text.clone()),
                None => Some(String::new()),
            }
        },
        None => None,
    }
}

/// Decodes the listed children in document order.
pub fn decode_list<T: FromElement>(children: &Vec<Node>, only: Option<&str>) -> (r: Result<
    Option<Vec<T>>,
    DecodeError,
>)
    ensures
        ok_view(r) == optional_list::<T>(children.deep_view(), only.deep_view()),
{
    let ghost cv = children.deep_view();
    let ghost ov = only.deep_view();
    let mut out: Vec<T> = Vec::new();
    let mut i: usize = 0;
    assert(cv.skip(0) =~= cv);
    assert(out.deep_view() =~= Seq::<T::V>::empty());
    while i < children.len()
        invariant
            i <= children.len(),
            cv == children.deep_view(),
            ov == only.deep_view(),
            list_from::<T>(cv, ov, Seq::empty()) == list_from::<T>(
                cv.skip(i as int),
                ov,
                out.deep_view(),
            ),
        decreases children.len() - i,
    {
        let ghost before = out.deep_view();
        assert(cv.skip(i as int).drop_first() =~= cv.skip(i + 1));
        assert(cv.skip(i as int)[0] == children@[i as int].deep_view());
        match &children[i] {
            Node::Element(e) => {
                let wanted = match only {
                    Some(name) => text_eq(e.name.as_str(), name),
                    None => true,
                };
                if wanted {
                    match T::from_element(e) {
                        Ok(v) => {
                            out.push(v);
                            assert(out.deep_view() =~= before.push(v.deep_view()));
                        },
                        Err(err) => {
                            return Err(err);
                        },
                    }
                }
            },
            Node::Text(_) => {},
        }
        i += 1;
    }
    if out.len() == 0 {
        Ok(None)
    } else {
        Ok(Some(out))
    }
}

/// A number that stands as the text of an element of its own.
impl FromElement for u32 {
    open spec fn spec_from_element(e: ElementView) -> Result<u32, DecodeError> {
        match first_text(e.children) {
            Some(text) => u32_value(text),
            None => Err(DecodeError::MissingField),
        }
    }

    fn from_element(e: &Element) -> (r: Result<u32, DecodeError>) {
        proof {
            crate::xml::lemma_children_view(e);
        }
        match text_content(&e.children) {
            Some(text) => parse_u32_value(text.as_str()),
            None => Err(DecodeError::MissingField),
        }
    }
}

/// Where no child is listed, the sequence is absent: that is no error.
pub proof fn lemma_absent_list<T: FromElement>(only: Option<Seq<char>>)
    ensures
        optional_list::<T>(Seq::empty(), only) == Ok::<Option<Seq<T::V>>, DecodeError>(None),
{
}

/// Text alone lists nothing: children that are all text give an absent
/// sequence as well.
pub proof fn lemma_text_lists_nothing<T: FromElement>(
    children: Seq<NodeView>,
    only: Option<Seq<char>>,
    acc: Seq<T::V>,
)
    requires
        forall|i: int| 0 <= i < children.len() ==> #[trigger] children[i] is Text,
    ensures
        list_from::<T>(children, only, acc) == Ok::<Seq<T::V>, DecodeError>(acc),
    decreases children.len(),
{
    if children.len() > 0 {
        assert(children[0] is Text);
        let rest = children.drop_first();
        assert forall|i: int| 0 <= i < rest.len() implies #[trigger] rest[i] is Text by {
            assert(children[i + 1] is Text);
        }
        lemma_text_lists_nothing::<T>(rest, only, acc);
    }
}

} // verus!
