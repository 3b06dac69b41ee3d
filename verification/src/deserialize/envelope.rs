//! The response envelope: the root element's status and version, and the one
//! payload element that it may hold.

use crate::deserialize::info::{
    alias_tag, decode_info, info_of, lemma_aliases_decode_alike, SubsonicInfo, SubsonicInfoView,
};
use crate::error::DecodeError;
use crate::fields::{ok_view, text_attr, text_field};
use crate::version::{parse_version, Version};
use crate::xml::{
    lemma_children_view, parse_document, read_document, tokenize, xml_tokens, Element,
    ElementView, Node, NodeView, Token, TokenView,
};
use vstd::prelude::*;

verus! {

/// A decoded response: the root element's attributes and its payload.
#[derive(Debug, PartialEq)]
pub struct SubsonicResp {
    /// `ok` or `failed`, as the server wrote it.
    pub status: String,
    /// The protocol version that the server speaks.
    pub version: String,
    /// The payload; absent where the root element holds no element.
    pub resp: Option<SubsonicInfo>,
}

/// A decoded response, as contracts see it.
pub ghost struct SubsonicRespView {
    pub status: Seq<char>,
    pub version: Seq<char>,
    pub resp: Option<SubsonicInfoView>,
}

impl DeepView for SubsonicResp {
    type V = SubsonicRespView;

    open spec fn deep_view(&self) -> SubsonicRespView {
        SubsonicRespView {
            status: self.status@,
            version: self.version@,
            resp: self.resp.deep_view(),
        }
    }
}

/// The failure that a server reports in a well-formed response.
#[derive(Debug, PartialEq, Eq)]
pub struct ServerError {
    pub code: u32,
    pub message: String,
}

/// A server's error, as contracts see it.
pub ghost struct ServerErrorView {
    pub code: u32,
    pub message: Seq<char>,
}

impl DeepView for ServerError {
    type V = ServerErrorView;

    open spec fn deep_view(&self) -> ServerErrorView {
        ServerErrorView { code: self.code, message: self.message@ }
    }
}

/// The payload element among the children from position `i` on, given the one
/// found before: there may be none or one, and a second one is an error. Text
/// beside it is passed over.
pub open spec fn payload(children: Seq<NodeView>, i: nat, found: Option<ElementView>) -> Result<
    Option<ElementView>,
    DecodeError,
>
    decreases children.len() - i,
{
    if i >= children.len() {
        Ok(found)
    } else {
        match children[i as int] {
            NodeView::Element(e) => if found is Some {
                Err(DecodeError::Malformed)
            } else {
                payload(children, i + 1, Some(e))
            },
            NodeView::Text(_) => payload(children, i + 1, found),
        }
    }
}

/// What a root element decodes to. Its own name is not looked at; `status`
/// and `version` are required attributes; the payload is decoded by its name.
pub open spec fn envelope_of(root: ElementView) -> Result<SubsonicRespView, DecodeError> {
    let status = text_field(root.attributes, "status"@);
    let version = text_field(root.attributes, "version"@);
    let body = payload(root.children, 0, None);
    if status is Err {
        Err(status->Err_0)
    } else if version is Err {
        Err(version->Err_0)
    } else if body is Err {
        Err(body->Err_0)
    } else {
        match body->Ok_0 {
            Some(e) => match info_of(e) {
                Ok(v) => Ok(
                    SubsonicRespView {
                        status: status->Ok_0,
                        version: version->Ok_0,
                        resp: Some(v),
                    },
                ),
                Err(x) => Err(x),
            },
            None => Ok(
                SubsonicRespView { status: status->Ok_0, version: version->Ok_0, resp: None },
            ),
        }
    }
}

/// What a token stream decodes to.
pub open spec fn decoded_tokens(toks: Seq<TokenView>) -> Result<SubsonicRespView, DecodeError> {
    match parse_document(toks) {
        Some(root) => envelope_of(root),
        None => Err(DecodeError::Malformed),
    }
}

/// What a document decodes to, given the tokens that the XML reader yields
/// for it.
pub open spec fn decoded(tokens: Option<Seq<TokenView>>) -> Result<SubsonicRespView, DecodeError> {
    match tokens {
        Some(toks) => decoded_tokens(toks),
        None => Err(DecodeError::Malformed),
    }
}

/// What the caller gets from a decoded response: the payload, or the server's
/// own error where the payload is one.
pub open spec fn outcome(resp: SubsonicRespView) -> Result<
    Option<SubsonicInfoView>,
    ServerErrorView,
> {
    match resp.resp {
        Some(SubsonicInfoView::Error { code, message }) => Err(ServerErrorView { code, message }),
        other => Ok(other),
    }
}

/// The view of what `into_result` hands out.
pub open spec fn outcome_view(r: Result<Option<SubsonicInfo>, ServerError>) -> Result<
    Option<SubsonicInfoView>,
    ServerErrorView,
> {
    match r {
        Ok(v) => Ok(v.deep_view()),
        Err(e) => Err(e.deep_view()),
    }
}

/// Finds the payload element among a root's children.
pub fn find_payload<'a>(children: &'a Vec<Node>) -> (r: Result<Option<&'a Element>, DecodeError>)
    ensures
        match r {
            Ok(Some(e)) => payload(children.deep_view(), 0, None) == Ok::<
                Option<ElementView>,
                DecodeError,
            >(Some(e.deep_view())),
            Ok(None) => payload(children.deep_view(), 0, None) == Ok::<
                Option<ElementView>,
                DecodeError,
            >(None),
            Err(x) => payload(children.deep_view(), 0, None) == Err::<
                Option<ElementView>,
                DecodeError,
            >(x),
        },
{
    let ghost cv = children.deep_view();
    let mut found: Option<&'a Element> = None;
    let mut i: usize = 0;
    while i < children.len()
        invariant
            i <= children.len(),
            cv == children.deep_view(),
            payload(cv, 0, None) == payload(
                cv,
                i as nat,
                match found {
                    Some(e) => Some(e.deep_view()),
                    None => None,
                },
            ),
        decreases children.len() - i,
    {
        assert(cv[i as int] == children@[i as int].deep_view());
        match &children[i] {
            Node::Element(e) => {
                if found.is_some() {
                    return Err(DecodeError::Malformed);
                }
                found = Some(e);
            },
            Node::Text(_) => {},
        }
        i += 1;
    }
    Ok(found)
}

/// Decodes a root element.
pub fn decode_envelope(root: &Element) -> (r: Result<SubsonicResp, DecodeError>)
    ensures
        ok_view(r) == envelope_of(root.deep_view()),
{
    proof {
        lemma_children_view(root);
    }
    let status = text_attr(&root.attributes, "status")?;
    let version = text_attr(&root.attributes, "version")?;
    let resp = match find_payload(&root.children)? {
        Some(e) => Some(decode_info(e)?),
        None => None,
    };
    Ok(SubsonicResp { status, version, resp })
}

/// Decodes the token stream of a document.
pub fn decode_tokens(toks: &Vec<Token>) -> (r: Result<SubsonicResp, DecodeError>)
    ensures
        ok_view(r) == decoded_tokens(toks.deep_view()),
{
    match read_document(toks) {
        Some(root) => decode_envelope(&root),
        None => Err(DecodeError::Malformed),
    }
}

/// Decodes a response document. The XML reader turns the text into tokens;
/// everything after that is `decode_tokens`.
pub fn decode(doc: &str) -> (r: Result<SubsonicResp, DecodeError>)
    ensures
        ok_view(r) == decoded(xml_tokens(doc@)),
{
    match tokenize(doc) {
        Some(toks) => decode_tokens(&toks),
        None => Err(DecodeError::Malformed),
    }
}

impl SubsonicResp {
    /// The version triple that the server reports, if it is well-formed.
    pub fn server_version(&self) -> (r: Option<Version>)
        ensures
            r == parse_version(self.deep_view().version),
    {
        Version::parse(self.version.as_str())
    }

    /// Tells a failed operation from a successful one: the server's error
    /// with its code and message, or the payload.
    pub fn into_result(self) -> (r: Result<Option<SubsonicInfo>, ServerError>)
        ensures
            outcome_view(r) == outcome(self.deep_view()),
    {
        match self.resp {
            Some(SubsonicInfo::Error { code, message }) => Err(ServerError { code, message }),
            other => Ok(other),
        }
    }
}

/// Two responses that differ only in the name of their payload element, the
/// two names selecting the same kind, decode to the same result.
pub proof fn lemma_alias_responses_alike(
    first: ElementView,
    second: ElementView,
    a: ElementView,
    b: ElementView,
)
    requires
        first.attributes == second.attributes,
        first.children == seq![NodeView::Element(a)],
        second.children == seq![NodeView::Element(b)],
        alias_tag(a.name) == alias_tag(b.name),
        a.attributes == b.attributes,
        a.children == b.children,
    ensures
        envelope_of(first) == envelope_of(second),
{
    reveal_with_fuel(payload, 3);
    lemma_aliases_decode_alike(a, b);
}

/// A payload element whose name the alias table does not hold fails the
/// whole response: it is never dropped.
pub proof fn lemma_unknown_name_is_refused(root: ElementView, e: ElementView)
    requires
        text_field(root.attributes, "status"@) is Ok,
        text_field(root.attributes, "version"@) is Ok,
        root.children == seq![NodeView::Element(e)],
        alias_tag(e.name) is None,
    ensures
        envelope_of(root) == Err::<SubsonicRespView, DecodeError>(DecodeError::UnknownVariant),
{
    reveal_with_fuel(payload, 3);
}

/// A response without a payload element is no failure: it decodes, and its
/// payload is absent.
pub proof fn lemma_empty_response_decodes(root: ElementView)
    requires
        text_field(root.attributes, "status"@) is Ok,
        text_field(root.attributes, "version"@) is Ok,
        root.children.len() == 0,
    ensures
        envelope_of(root) == Ok::<SubsonicRespView, DecodeError>(
            SubsonicRespView {
                status: text_field(root.attributes, "status"@)->Ok_0,
                version: text_field(root.attributes, "version"@)->Ok_0,
                resp: None,
            },
        ),
{
}

/// The server's own error is told from every other outcome: the outcome is
/// an error exactly when the payload is of kind `Error`, and then it carries
/// that payload's code and message as they are.
pub proof fn lemma_outcome_tells_errors(resp: SubsonicRespView)
    ensures
        outcome(resp) is Err <==> (resp.resp is Some && resp.resp->0 is Error),
        outcome(resp) matches Err(e) ==> resp.resp == Some(
            SubsonicInfoView::Error { code: e.code, message: e.message },
        ),
        outcome(resp) matches Ok(p) ==> p == resp.resp,
{
}

} // verus!
