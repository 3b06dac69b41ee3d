use subsonic_client::deserialize::{decode_envelope, decode_tokens, SubsonicInfo, SubsonicResp};
use subsonic_client::error::DecodeError;
use subsonic_client::xml::{read_document, read_nodes, Attribute, Element, Node, Token, MAX_DEPTH};

fn attr(name: &str, value: &str) -> Attribute {
    Attribute { name: name.to_string(), value: value.to_string() }
}

fn open(name: &str, attributes: Vec<Attribute>) -> Token {
    Token::Open(name.to_string(), attributes)
}

fn leaf(name: &str, attributes: Vec<Attribute>) -> Element {
    Element { name: name.to_string(), attributes, children: vec![] }
}

#[test]
fn read_document_rebuilds_the_tree() {
    let toks = vec![
        Token::Other,
        open("a", vec![attr("k", "v")]),
        open("b", vec![]),
        Token::Text("hello".to_string()),
        Token::Close,
        Token::Text("between".to_string()),
        open("c", vec![attr("x", "1"), attr("y", "2")]),
        Token::Close,
        Token::Close,
        Token::Other,
    ];
    assert_eq!(
        read_document(&toks),
        Some(Element {
            name: "a".to_string(),
            attributes: vec![attr("k", "v")],
            children: vec![
                Node::Element(Element {
                    name: "b".to_string(),
                    attributes: vec![],
                    children: vec![Node::Text("hello".to_string())],
                }),
                Node::Text("between".to_string()),
                Node::Element(leaf("c", vec![attr("x", "1"), attr("y", "2")])),
            ],
        })
    );
}

#[test]
fn read_document_refuses_what_is_no_single_element() {
    assert_eq!(read_document(&vec![]), None);
    assert_eq!(read_document(&vec![Token::Other, Token::Other]), None);
    assert_eq!(read_document(&vec![open("a", vec![])]), None);
    assert_eq!(read_document(&vec![open("a", vec![]), open("b", vec![]), Token::Close]), None);
    assert_eq!(read_document(&vec![Token::Close]), None);
    assert_eq!(read_document(&vec![open("a", vec![]), Token::Close, Token::Close]), None);
    assert_eq!(
        read_document(&vec![open("a", vec![]), Token::Close, open("b", vec![]), Token::Close]),
        None
    );
    assert_eq!(read_document(&vec![Token::Text("t".to_string())]), None);
    assert_eq!(
        read_document(&vec![Token::Text("t".to_string()), open("a", vec![]), Token::Close]),
        None
    );
    assert_eq!(read_document(&vec![open("a", vec![]), Token::Close]), Some(leaf("a", vec![])));
}

#[test]
fn read_nodes_stops_at_the_parents_end_tag() {
    let toks = vec![
        open("a", vec![]),
        Token::Close,
        Token::Text("t".to_string()),
        Token::Close,
        open("b", vec![]),
    ];
    assert_eq!(
        read_nodes(&toks, 0, 1),
        Some((vec![Node::Element(leaf("a", vec![])), Node::Text("t".to_string())], 3))
    );
    assert_eq!(read_nodes(&toks, 0, 0), None);
    assert_eq!(read_nodes(&toks, 2, 0), Some((vec![Node::Text("t".to_string())], 3)));
    assert_eq!(read_nodes(&toks, 3, 5), Some((vec![], 3)));
    assert_eq!(read_nodes(&toks, 4, 5), None);
    assert_eq!(read_nodes(&toks, 5, 5), Some((vec![], 5)));
}

fn nested(levels: usize) -> Vec<Token> {
    let mut toks = vec![Token::Other];
    for _ in 0..levels {
        toks.push(open("starred", vec![]));
    }
    for _ in 0..levels {
        toks.push(Token::Close);
    }
    toks.push(Token::Other);
    toks
}

fn depth_of(e: &Element) -> usize {
    1 + e
        .children
        .iter()
        .map(|n| match n {
            Node::Element(c) => depth_of(c),
            Node::Text(_) => 0,
        })
        .max()
        .unwrap_or(0)
}

#[test]
fn elements_nest_to_the_limit_and_no_deeper() {
    assert_eq!(MAX_DEPTH, 64);
    assert_eq!(read_document(&nested(1)).map(|e| depth_of(&e)), Some(1));
    assert_eq!(read_document(&nested(MAX_DEPTH)).map(|e| depth_of(&e)), Some(MAX_DEPTH));
    assert_eq!(read_document(&nested(MAX_DEPTH + 1)), None);
    assert_eq!(read_document(&nested(5000)), None);
    let mut doc = String::from("<subsonic-response status=\"ok\" version=\"1.16.1\">");
    for _ in 0..MAX_DEPTH {
        doc.push_str("<starred>");
    }
    for _ in 0..MAX_DEPTH {
        doc.push_str("</starred>");
    }
    doc.push_str("</subsonic-response>");
    assert_eq!(subsonic_client::deserialize::decode(&doc), Err(DecodeError::Malformed));
    let fits = doc.replacen("<starred>", "", 1).replacen("</starred>", "", 1);
    assert!(subsonic_client::deserialize::decode(&fits).is_ok());
}

#[test]
fn decode_tokens_decodes_a_token_stream() {
    let toks = vec![
        Token::Other,
        open("subsonic-response", vec![attr("status", "ok"), attr("version", "1.16.1")]),
        open("scanStatus", vec![attr("scanning", "1"), attr("count", "4711")]),
        Token::Close,
        Token::Close,
        Token::Other,
    ];
    assert_eq!(
        decode_tokens(&toks),
        Ok(SubsonicResp {
            status: "ok".to_string(),
            version: "1.16.1".to_string(),
            resp: Some(SubsonicInfo::ScanStatus { scanning: true, count: Some(4711) }),
        })
    );
    assert_eq!(decode_tokens(&vec![Token::Other]), Err(DecodeError::Malformed));
    assert_eq!(decode_tokens(&toks[..4].to_vec_tokens()), Err(DecodeError::Malformed));
}

trait ToVecTokens {
    fn to_vec_tokens(&self) -> Vec<Token>;
}

impl ToVecTokens for [Token] {
    fn to_vec_tokens(&self) -> Vec<Token> {
        self.iter()
            .map(|t| match t {
                Token::Open(n, a) => Token::Open(
                    n.clone(),
                    a.iter().map(|x| attr(&x.name, &x.value)).collect(),
                ),
                Token::Close => Token::Close,
                Token::Text(s) => Token::Text(s.clone()),
                Token::Other => Token::Other,
            })
            .collect()
    }
}

#[test]
fn decode_envelope_reads_status_version_and_payload() {
    let root = Element {
        name: "anything".to_string(),
        attributes: vec![attr("version", "1.8.0"), attr("extra", "x"), attr("status", "ok")],
        children: vec![],
    };
    assert_eq!(
        decode_envelope(&root),
        Ok(SubsonicResp { status: "ok".to_string(), version: "1.8.0".to_string(), resp: None })
    );
    let twice = Element {
        name: "subsonic-response".to_string(),
        attributes: vec![attr("status", "ok"), attr("version", "1.8.0")],
        children: vec![
            Node::Element(leaf("scanStatus", vec![attr("scanning", "false")])),
            Node::Element(leaf("scanStatus", vec![attr("scanning", "false")])),
        ],
    };
    assert_eq!(decode_envelope(&twice), Err(DecodeError::Malformed));
    let with_text = Element {
        name: "subsonic-response".to_string(),
        attributes: vec![attr("status", "ok"), attr("version", "1.8.0")],
        children: vec![
            Node::Text("stray".to_string()),
            Node::Element(leaf("scanStatus", vec![attr("scanning", "false")])),
        ],
    };
    assert_eq!(
        decode_envelope(&with_text).unwrap().resp,
        Some(SubsonicInfo::ScanStatus { scanning: false, count: None })
    );
    let no_status = Element {
        name: "subsonic-response".to_string(),
        attributes: vec![attr("version", "1.8.0")],
        children: vec![Node::Element(leaf("mystery", vec![]))],
    };
    assert_eq!(decode_envelope(&no_status), Err(DecodeError::MissingField));
    let first_of_two = Element {
        name: "r".to_string(),
        attributes: vec![attr("status", "a"), attr("status", "b"), attr("version", "1.8.0")],
        children: vec![],
    };
    assert_eq!(decode_envelope(&first_of_two).unwrap().status, "a");
}
