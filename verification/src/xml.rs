//! XML responses of the GameStream HTTP protocol.
//!
//! A document is read into a flat list of nodes in document order; the
//! protocol rules (status check, element lookup, server information and
//! application lists) are stated and proved over that list.
use vstd::prelude::*;

use crate::control::{
    is_pairing_error, is_xml_error, opt_view, Application, ApplicationView, ControlError, ServerInfo,
    ServerInfoView, applications_view,
};
use crate::text::{
    chars_of, concat, concat3, ends_with, parse_unsigned, spec_ends_with, spec_parse_unsigned,
    str_equal,
};

verus! {

/// One attribute of an XML element.
#[derive(Debug)]
pub struct XmlAttribute {
    /// Namespace URI of the attribute, when it has a prefix.
    pub namespace: Option<String>,
    /// Local name.
    pub name: String,
    /// Unescaped value.
    pub value: String,
}

/// One node of a parsed document, in document order.
#[derive(Debug)]
pub struct XmlNode {
    /// Identifier of the node within its document.
    pub id: usize,
    /// Identifier of the parent node; `None` only for the document root.
    pub parent: Option<usize>,
    /// Whether the node is an element.
    pub element: bool,
    /// Local name of an element (empty for other nodes).
    pub name: String,
    /// Text of the node: for an element, the text of its first child when
    /// that child is a text node.
    pub text: Option<String>,
    /// Attributes of an element, in document order.
    pub attributes: Vec<XmlAttribute>,
}

/// Mathematical value of an [`XmlAttribute`].
pub struct XmlAttributeView {
    pub namespace: Option<Seq<char>>,
    pub name: Seq<char>,
    pub value: Seq<char>,
}

/// Mathematical value of an [`XmlNode`].
pub struct XmlNodeView {
    pub id: nat,
    pub parent: Option<nat>,
    pub element: bool,
    pub name: Seq<char>,
    pub text: Option<Seq<char>>,
    pub attributes: Seq<XmlAttributeView>,
}

impl View for XmlAttribute {
    type V = XmlAttributeView;

    open spec fn view(&self) -> XmlAttributeView {
        XmlAttributeView { namespace: opt_view(self.namespace), name: self.name@, value: self.value@ }
    }
}

impl View for XmlNode {
    type V = XmlNodeView;

    open spec fn view(&self) -> XmlNodeView {
        XmlNodeView {
            id: self.id as nat,
            parent: match self.parent {
                Some(p) => Some(p as nat),
                None => None,
            },
            element: self.element,
            name: self.name@,
            text: opt_view(self.text),
            attributes: attributes_view(self.attributes@),
        }
    }
}

/// The views of a list of attributes.
pub open spec fn attributes_view(attrs: Seq<XmlAttribute>) -> Seq<XmlAttributeView> {
    attrs.map_values(|a: XmlAttribute| a@)
}

/// The views of a list of nodes.
pub open spec fn nodes_view(nodes: Seq<XmlNode>) -> Seq<XmlNodeView> {
    nodes.map_values(|n: XmlNode| n@)
}

/// The nodes of the XML document `xml` in document order, or the parser's
/// error message.
pub uninterp spec fn xml_document(xml: Seq<char>) -> Result<Seq<XmlNodeView>, Seq<char>>;

/// Parses `xml` with `roxmltree::Document::parse` and lists its nodes.
///
/// Trusted: the result, nodes or error message, is what `xml_document` names
/// for the input; each node is listed with its id, its parent's id, its local
/// name, `Node::text` and its attributes, in `descendants` order.
#[verifier::external_body]
fn parse_nodes(xml: &str) -> (res: Result<Vec<XmlNode>, String>)
    ensures
        match res {
            Ok(nodes) => xml_document(xml@) == Ok::<Seq<XmlNodeView>, Seq<char>>(nodes_view(nodes@)),
            Err(e) => xml_document(xml@) == Err::<Seq<XmlNodeView>, Seq<char>>(e@),
        },
{
    let document = roxmltree::Document::parse(xml).map_err(|error| error.to_string())?;
    Ok(document.descendants().map(|node| XmlNode {
        id: node.id().get_usize(),
        parent: node.parent().map(|parent| parent.id().get_usize()),
        element: node.is_element(),
        name: node.tag_name().name().to_owned(),
        text: node.text().map(str::to_owned),
        attributes: node.attributes().map(|a| XmlAttribute {
            namespace: a.namespace().map(str::to_owned),
            name: a.name().to_owned(),
            value: a.value().to_owned(),
        }).collect(),
    }).collect())
}

/// The first index `>= i` of `nodes` that is an element named `tag`
/// (a child of the node with id `parent`, when one is given).
pub open spec fn spec_find_from(
    nodes: Seq<XmlNodeView>,
    tag: Option<Seq<char>>,
    parent: Option<nat>,
    i: int,
) -> Option<int>
    decreases nodes.len() - i,
{
    if i < 0 || i >= nodes.len() {
        None
    } else if spec_matches(nodes[i], tag, parent) {
        Some(i)
    } else {
        spec_find_from(nodes, tag, parent, i + 1)
    }
}

/// Whether `node` is an element, named `tag` when one is given, and a child
/// of `parent` when one is given.
pub open spec fn spec_matches(node: XmlNodeView, tag: Option<Seq<char>>, parent: Option<nat>) -> bool {
    &&& node.element
    &&& (tag matches Some(t) ==> node.name == t)
    &&& (parent matches Some(p) ==> node.parent == Some(p))
}

/// The text of the first element named `tag` in document order (`None` when
/// there is no such element, or when it has no text).
pub open spec fn spec_optional_text(nodes: Seq<XmlNodeView>, tag: Seq<char>) -> Option<Seq<char>> {
    match spec_find_from(nodes, Some(tag), None, 0) {
        Some(i) => nodes[i].text,
        None => None,
    }
}

/// The value of the first attribute of `node` without namespace named `name`.
pub open spec fn spec_attribute_from(attrs: Seq<XmlAttributeView>, name: Seq<char>, i: int) -> Option<Seq<char>>
    decreases attrs.len() - i,
{
    if i < 0 || i >= attrs.len() {
        None
    } else if attrs[i].namespace is None && attrs[i].name == name {
        Some(attrs[i].value)
    } else {
        spec_attribute_from(attrs, name, i + 1)
    }
}

/// Outcome of checking the envelope of a response document.
pub enum Envelope {
    /// The document has no `root` element at its top.
    NoRoot,
    /// The root element carries no `status_code`.
    NoStatusCode,
    /// `status_code` is not an unsigned integer.
    BadStatusCode,
    /// The host refused the request with this code and message.
    Refused(u32, Seq<char>),
    /// `status_code` is 200.
    Accepted,
}

/// The envelope of a parsed response: the root element must be `root` and
/// carry `status_code="200"`.
pub open spec fn spec_envelope(nodes: Seq<XmlNodeView>) -> Envelope {
    match spec_find_from(nodes, None, None, 0) {
        None => Envelope::NoRoot,
        Some(r) => if nodes[r].name != "root"@ {
            Envelope::NoRoot
        } else {
            match spec_attribute_from(nodes[r].attributes, "status_code"@, 0) {
                None => Envelope::NoStatusCode,
                Some(code) => match spec_parse_unsigned(code, u32::MAX as nat) {
                    None => Envelope::BadStatusCode,
                    Some(c) => if c == 200 {
                        Envelope::Accepted
                    } else {
                        Envelope::Refused(
                            c as u32,
                            match spec_attribute_from(nodes[r].attributes, "status_message"@, 0) {
                                Some(m) => m,
                                None => "unknown error"@,
                            },
                        )
                    },
                },
            }
        },
    }
}

/// Whether `e` is the error that a refused envelope `env` gives.
pub open spec fn envelope_error(env: Envelope, e: ControlError) -> bool {
    match env {
        Envelope::NoRoot => is_xml_error(e, "response has no root element"@),
        Envelope::NoStatusCode => is_xml_error(e, "response has no status_code"@),
        Envelope::BadStatusCode => is_xml_error(e, "status_code is not an integer"@),
        Envelope::Refused(code, message) => e matches ControlError::Protocol { code: c, message: m }
            && c == code && m@ == message,
        Envelope::Accepted => false,
    }
}

/// Whether `e` is the error for a document `xml` that does not parse or
/// whose envelope is refused.
pub open spec fn document_error(xml: Seq<char>, e: ControlError) -> bool {
    match xml_document(xml) {
        Err(message) => is_xml_error(e, message),
        Ok(nodes) => envelope_error(spec_envelope(nodes), e),
    }
}

/// Whether `xml` parses and its envelope is accepted.
pub open spec fn spec_accepted(xml: Seq<char>) -> bool {
    xml_document(xml) matches Ok(nodes) && spec_envelope(nodes) is Accepted
}

/// The nodes of an accepted document.
pub open spec fn spec_accepted_nodes(xml: Seq<char>) -> Seq<XmlNodeView> {
    xml_document(xml)->Ok_0
}

/// Index of the first node from `start` matching `tag` and `parent`.
fn find_node(nodes: &Vec<XmlNode>, tag: Option<&str>, parent: Option<usize>, start: usize) -> (res: Option<usize>)
    requires
        start <= nodes.len(),
    ensures
        res matches Some(i) ==> start <= i < nodes.len(),
        ({
            let t = match tag { Some(t) => Some(t@), None => None };
            let p = match parent { Some(p) => Some(p as nat), None => None };
            match res {
                Some(r) => spec_find_from(nodes_view(nodes@), t, p, start as int) == Some(r as int),
                None => spec_find_from(nodes_view(nodes@), t, p, start as int) is None,
            }
        }),
{
    let ghost t = match tag { Some(t) => Some(t@), None => None };
    let ghost p = match parent { Some(p) => Some(p as nat), None => None };
    let ghost view = nodes_view(nodes@);
    let mut i = start;
    while i < nodes.len()
        invariant
            start <= i <= nodes.len(),
            view == nodes_view(nodes@),
            t == (match tag { Some(t) => Some(t@), None => None::<Seq<char>> }),
            p == (match parent { Some(p) => Some(p as nat), None => None::<nat> }),
            spec_find_from(view, t, p, start as int) == spec_find_from(view, t, p, i as int),
        decreases nodes.len() - i,
    {
        let node = &nodes[i];
        assert(view[i as int] == node@);
        let tag_ok = match tag {
            Some(t) => str_equal(node.name.as_str(), t),
            None => true,
        };
        let parent_ok = match parent {
            Some(p) => node.parent == Some(p),
            None => true,
        };
        proof {
            match tag {
                Some(tt) => assert(t == Some(tt@)),
                None => assert(t is None),
            }
            match parent {
                Some(pp) => {
                    assert(p == Some(pp as nat));
                    assert(parent_ok == (node@.parent == Some(pp as nat)));
                },
                None => assert(p is None),
            }
            assert(spec_matches(view[i as int], t, p) == (node.element && tag_ok && parent_ok));
        }
        if node.element && tag_ok && parent_ok {
            return Some(i);
        }
        i = i + 1;
    }
    None
}

/// Value of the first attribute without namespace named `name`.
fn attribute(attrs: &Vec<XmlAttribute>, name: &str) -> (res: Option<String>)
    ensures
        opt_view(res) == spec_attribute_from(attributes_view(attrs@), name@, 0),
{
    let ghost view = attributes_view(attrs@);
    let mut i: usize = 0;
    while i < attrs.len()
        invariant
            i <= attrs.len(),
            view == attributes_view(attrs@),
            spec_attribute_from(view, name@, 0) == spec_attribute_from(view, name@, i as int),
        decreases attrs.len() - i,
    {
        let a = &attrs[i];
        assert(view[i as int] == a@);
        if a.namespace.is_none() && str_equal(a.name.as_str(), name) {
            return Some(a.value.clone());
        }
        i = i + 1;
    }
    None
}

/// Parses `xml` and checks that it is a `root` element whose `status_code`
/// is 200.
pub fn checked_document(xml: &str) -> (res: Result<Vec<XmlNode>, ControlError>)
    ensures
        match res {
            Ok(nodes) => spec_accepted(xml@) && nodes_view(nodes@) == spec_accepted_nodes(xml@),
            Err(e) => !spec_accepted(xml@) && document_error(xml@, e),
        },
{
    let nodes = match parse_nodes(xml) {
        Ok(nodes) => nodes,
        Err(message) => return Err(ControlError::Xml(message)),
    };
    let ghost view = nodes_view(nodes@);
    let root = match find_node(&nodes, None, None, 0) {
        Some(r) => r,
        None => return Err(ControlError::Xml("response has no root element".to_owned())),
    };
    assert(view[root as int] == nodes@[root as int]@);
    assert(spec_find_from(view, None, None, 0) == Some(root as int));
    if !str_equal(nodes[root].name.as_str(), "root") {
        assert(view[root as int].name != "root"@);
        assert(spec_envelope(view) is NoRoot);
        return Err(ControlError::Xml("response has no root element".to_owned()));
    }
    let code = match attribute(&nodes[root].attributes, "status_code") {
        Some(code) => code,
        None => return Err(ControlError::Xml("response has no status_code".to_owned())),
    };
    let code_chars = chars_of(code.as_str());
    let code = match parse_unsigned(code_chars.as_slice(), 0xffff_ffff) {
        Some(code) => code as u32,
        None => return Err(ControlError::Xml("status_code is not an integer".to_owned())),
    };
    if code != 200 {
        let message = match attribute(&nodes[root].attributes, "status_message") {
            Some(message) => message,
            None => "unknown error".to_owned(),
        };
        return Err(ControlError::Protocol { code, message });
    }
    Ok(nodes)
}

/// Text of the first element named `tag`.
pub fn optional_text(nodes: &Vec<XmlNode>, tag: &str) -> (res: Option<String>)
    ensures
        opt_view(res) == spec_optional_text(nodes_view(nodes@), tag@),
{
    match find_node(nodes, Some(tag), None, 0) {
        Some(i) => {
            assert(nodes_view(nodes@)[i as int] == nodes@[i as int]@);
            assert(spec_find_from(nodes_view(nodes@), Some(tag@), None, 0) == Some(i as int));
            assert(spec_optional_text(nodes_view(nodes@), tag@) == opt_view(nodes@[i as int].text));
            match &nodes[i].text {
                Some(text) => Some(text.clone()),
                None => None,
            }
        },
        None => None,
    }
}

/// The error for a missing element.
pub open spec fn missing_element_message(tag: Seq<char>) -> Seq<char> {
    "response has no "@ + tag + " element"@
}

/// Text of the first element named `tag`, which must exist and have text.
pub fn required_text(nodes: &Vec<XmlNode>, tag: &str) -> (res: Result<String, ControlError>)
    ensures
        match spec_optional_text(nodes_view(nodes@), tag@) {
            Some(t) => res is Ok && res->Ok_0@ == t,
            None => res is Err && is_xml_error(res->Err_0, missing_element_message(tag@)),
        },
{
    match optional_text(nodes, tag) {
        Some(text) => Ok(text),
        None => Err(ControlError::Xml(concat3("response has no ", tag, " element"))),
    }
}

/// The text of element `tag` of `xml`, when the document is accepted and
/// the element exists with text.
pub open spec fn spec_response_value(xml: Seq<char>, tag: Seq<char>) -> Option<Seq<char>> {
    if spec_accepted(xml) {
        spec_optional_text(spec_accepted_nodes(xml), tag)
    } else {
        None
    }
}

/// Whether `e` is the error that reading element `tag` of `xml` gives.
pub open spec fn response_error(xml: Seq<char>, tag: Seq<char>, e: ControlError) -> bool {
    if spec_accepted(xml) {
        is_xml_error(e, missing_element_message(tag))
    } else {
        document_error(xml, e)
    }
}

/// Text of element `tag` in an accepted response.
pub fn response_text(xml: &str, tag: &str) -> (res: Result<String, ControlError>)
    ensures
        match spec_response_value(xml@, tag@) {
            Some(t) => res is Ok && res->Ok_0@ == t,
            None => res is Err && response_error(xml@, tag@, res->Err_0),
        },
{
    let nodes = checked_document(xml)?;
    required_text(&nodes, tag)
}

/// Whether `c` is a hexadecimal digit of either case.
pub open spec fn spec_is_hex_digit(c: char) -> bool {
    ('0' <= c && c <= '9') || ('a' <= c && c <= 'f') || ('A' <= c && c <= 'F')
}

/// The value of one hexadecimal digit.
pub open spec fn spec_hex_value(c: char) -> int {
    if '0' <= c && c <= '9' {
        c as int - '0' as int
    } else if 'a' <= c && c <= 'f' {
        c as int - 'a' as int + 10
    } else {
        c as int - 'A' as int + 10
    }
}

/// The bytes that the hexadecimal text `s` denotes, when it is an even
/// number of hexadecimal digits.
pub open spec fn spec_hex_decode(s: Seq<char>) -> Option<Seq<u8>> {
    if s.len() % 2 == 0 && forall|i: int| 0 <= i < s.len() ==> spec_is_hex_digit(#[trigger] s[i]) {
        Some(Seq::new(
            s.len() / 2,
            |i: int| (spec_hex_value(s[2 * i]) * 16 + spec_hex_value(s[2 * i + 1])) as u8,
        ))
    } else {
        None
    }
}

/// The lowercase hexadecimal digit for `d < 16`.
pub open spec fn spec_hex_char(d: int) -> char {
    if d < 10 {
        ('0' as int + d) as char
    } else {
        ('a' as int + d - 10) as char
    }
}

/// Lowercase hexadecimal text of `bytes`, two digits per byte.
pub open spec fn spec_hex_encode(bytes: Seq<u8>) -> Seq<char>
    decreases bytes.len(),
{
    if bytes.len() == 0 {
        Seq::empty()
    } else {
        spec_hex_encode(bytes.drop_last()) + seq![
            spec_hex_char(bytes.last() as int / 16),
            spec_hex_char(bytes.last() as int % 16),
        ]
    }
}

/// Hexadecimal text has two digits per byte.
pub proof fn lemma_hex_encode_len(bytes: Seq<u8>)
    ensures
        spec_hex_encode(bytes).len() == 2 * bytes.len(),
    decreases bytes.len(),
{
    if bytes.len() > 0 {
        lemma_hex_encode_len(bytes.drop_last());
    }
}

/// The message of the error that `hex::decode` gives for the input `s`.
pub uninterp spec fn hex_decode_error(s: Seq<char>) -> Seq<char>;

/// Decodes hexadecimal text with `hex::decode`.
///
/// Trusted: `hex::decode` accepts exactly an even number of ASCII hex digits
/// of either case and yields one byte per pair, high digit first; its error
/// message is what `hex_decode_error` names for the input.
#[verifier::external_body]
pub(crate) fn hex_decode(s: &str) -> (res: Result<Vec<u8>, String>)
    ensures
        match spec_hex_decode(s@) {
            Some(bytes) => res is Ok && res->Ok_0@ == bytes,
            None => res is Err && res->Err_0@ == hex_decode_error(s@),
        },
{
    hex::decode(s).map_err(|error| error.to_string())
}

/// Encodes bytes as lowercase hexadecimal text with `hex::encode`.
///
/// Trusted: two lowercase digits per byte, high digit first.
#[verifier::external_body]
pub(crate) fn hex_encode(bytes: &[u8]) -> (res: String)
    ensures
        res@ == spec_hex_encode(bytes@),
{
    hex::encode(bytes)
}

/// The decoded hexadecimal bytes of element `tag` in an accepted response.
pub fn response_hex(xml: &str, tag: &str) -> (res: Result<Vec<u8>, ControlError>)
    ensures
        match spec_response_value(xml@, tag@) {
            Some(t) => match spec_hex_decode(t) {
                Some(bytes) => res is Ok && res->Ok_0@ == bytes,
                None => res is Err && is_xml_error(
                    res->Err_0,
                    "invalid "@ + tag@ + " hex: "@ + hex_decode_error(t),
                ),
            },
            None => res is Err && response_error(xml@, tag@, res->Err_0),
        },
{
    let value = response_text(xml, tag)?;
    match hex_decode(value.as_str()) {
        Ok(bytes) => Ok(bytes),
        Err(error) => {
            let prefix = concat3("invalid ", tag, " hex: ");
            Err(ControlError::Xml(concat(prefix.as_str(), error.as_str())))
        },
    }
}

/// Requires element `paired` of an accepted response to read `1`.
pub fn require_paired(xml: &str, stage: &str) -> (res: Result<(), ControlError>)
    ensures
        match spec_response_value(xml@, "paired"@) {
            Some(t) => if t == "1"@ {
                res is Ok
            } else {
                res is Err && is_pairing_error(res->Err_0, "pairing was rejected during "@ + stage@)
            },
            None => res is Err && response_error(xml@, "paired"@, res->Err_0),
        },
{
    let text = response_text(xml, "paired")?;
    if str_equal(text.as_str(), "1") {
        Ok(())
    } else {
        Err(ControlError::Pairing(concat("pairing was rejected during ", stage)))
    }
}

/// The number that optional text denotes, or `default` when the text is
/// absent or not an unsigned number no larger than `max`.
pub open spec fn spec_number_or(text: Option<Seq<char>>, max: nat, default: nat) -> nat {
    match text {
        Some(t) => match spec_parse_unsigned(t, max) {
            Some(v) => v,
            None => default,
        },
        None => default,
    }
}

/// The HTTPS port of a `serverinfo` document: `HttpsPort` when it is a
/// non-zero port number, else 47984.
pub open spec fn spec_https_port(nodes: Seq<XmlNodeView>) -> u16 {
    match spec_optional_text(nodes, "HttpsPort"@) {
        Some(t) => match spec_parse_unsigned(t, u16::MAX as nat) {
            Some(v) => if v != 0 { v as u16 } else { 47984 },
            None => 47984,
        },
        None => 47984,
    }
}

/// The server information that an accepted `serverinfo` document holds, or
/// the first required element (in the order `state`, `hostname`, `uniqueid`,
/// `appversion`, `PairStatus`) that it lacks.
pub open spec fn spec_server_info(nodes: Seq<XmlNodeView>) -> Result<ServerInfoView, Seq<char>> {
    let state = spec_optional_text(nodes, "state"@);
    let hostname = spec_optional_text(nodes, "hostname"@);
    let unique_id = spec_optional_text(nodes, "uniqueid"@);
    let app_version = spec_optional_text(nodes, "appversion"@);
    let pair_status = spec_optional_text(nodes, "PairStatus"@);
    if state is None {
        Err("state"@)
    } else if hostname is None {
        Err("hostname"@)
    } else if unique_id is None {
        Err("uniqueid"@)
    } else if app_version is None {
        Err("appversion"@)
    } else if pair_status is None {
        Err("PairStatus"@)
    } else {
        Ok(ServerInfoView {
            hostname: hostname->Some_0,
            unique_id: unique_id->Some_0,
            app_version: app_version->Some_0,
            gfe_version: spec_optional_text(nodes, "GfeVersion"@),
            server_codec_mode_support: spec_number_or(
                spec_optional_text(nodes, "ServerCodecModeSupport"@),
                u32::MAX as nat,
                1,
            ) as u32,
            https_port: spec_https_port(nodes),
            paired: pair_status->Some_0 == "1"@,
            current_game: if spec_ends_with(state->Some_0, "_SERVER_BUSY"@) {
                spec_number_or(spec_optional_text(nodes, "currentgame"@), u32::MAX as nat, 0) as u32
            } else {
                0
            },
            state: state->Some_0,
        })
    }
}

/// A law of `serverinfo` parsing: when the document's `HttpsPort` element
/// holds the decimal form of a non-zero port, that port is the HTTPS port
/// of the parsed server information; when the element is absent or holds
/// zero, the HTTPS port is 47984.
pub proof fn law_https_port_is_the_advertised_port(xml: Seq<char>, port: u16)
    requires
        spec_server_info_of(xml) is Some,
    ensures
        port != 0 && spec_optional_text(spec_accepted_nodes(xml), "HttpsPort"@) == Some(
            crate::text::spec_decimal(port as nat),
        ) ==> spec_server_info_of(xml)->Some_0.https_port == port,
        spec_optional_text(spec_accepted_nodes(xml), "HttpsPort"@) is None ==> spec_server_info_of(
            xml,
        )->Some_0.https_port == 47984,
        spec_optional_text(spec_accepted_nodes(xml), "HttpsPort"@) == Some(crate::text::spec_decimal(0))
            ==> spec_server_info_of(xml)->Some_0.https_port == 47984,
{
    crate::text::law_parse_decimal_round_trip(port as nat, u16::MAX as nat);
    crate::text::law_parse_decimal_round_trip(0, u16::MAX as nat);
}

fn number_or(text: Option<String>, max: u64, default: u64) -> (res: u64)
    requires
        default <= max,
    ensures
        res == spec_number_or(opt_view(text), max as nat, default as nat),
{
    match text {
        Some(t) => {
            let chars = chars_of(t.as_str());
            match parse_unsigned(chars.as_slice(), max) {
                Some(v) => v,
                None => default,
            }
        },
        None => default,
    }
}

/// The server information of a `serverinfo` response, when it is accepted
/// and complete.
pub open spec fn spec_server_info_of(xml: Seq<char>) -> Option<ServerInfoView> {
    if spec_accepted(xml) {
        match spec_server_info(spec_accepted_nodes(xml)) {
            Ok(info) => Some(info),
            Err(_) => None,
        }
    } else {
        None
    }
}

/// Whether `e` is the error for a `serverinfo` response without server
/// information.
pub open spec fn server_info_error(xml: Seq<char>, e: ControlError) -> bool {
    if spec_accepted(xml) {
        match spec_server_info(spec_accepted_nodes(xml)) {
            Ok(_) => false,
            Err(tag) => is_xml_error(e, missing_element_message(tag)),
        }
    } else {
        document_error(xml, e)
    }
}

/// Parses a `serverinfo` response.
pub fn parse_server_info(xml: &str) -> (res: Result<ServerInfo, ControlError>)
    ensures
        match spec_server_info_of(xml@) {
            Some(info) => res is Ok && res->Ok_0@ == info,
            None => res is Err && server_info_error(xml@, res->Err_0),
        },
{
    let nodes = checked_document(xml)?;
    let state = required_text(&nodes, "state")?;
    let state_chars = chars_of(state.as_str());
    let busy_chars = chars_of("_SERVER_BUSY");
    let current_game = if ends_with(state_chars.as_slice(), busy_chars.as_slice()) {
        number_or(optional_text(&nodes, "currentgame"), 0xffff_ffff, 0) as u32
    } else {
        0
    };
    let hostname = required_text(&nodes, "hostname")?;
    let unique_id = required_text(&nodes, "uniqueid")?;
    let app_version = required_text(&nodes, "appversion")?;
    let gfe_version = optional_text(&nodes, "GfeVersion");
    let server_codec_mode_support = number_or(
        optional_text(&nodes, "ServerCodecModeSupport"),
        0xffff_ffff,
        1,
    ) as u32;
    let port = number_or(optional_text(&nodes, "HttpsPort"), 0xffff, 0);
    let https_port: u16 = if port != 0 {
        port as u16
    } else {
        47984
    };
    let pair_status = required_text(&nodes, "PairStatus")?;
    let paired = str_equal(pair_status.as_str(), "1");
    Ok(ServerInfo {
        hostname,
        unique_id,
        app_version,
        gfe_version,
        server_codec_mode_support,
        https_port,
        paired,
        current_game,
        state,
    })
}

/// Whether node `i` is an `App` element.
pub open spec fn spec_is_app(nodes: Seq<XmlNodeView>, i: int) -> bool {
    spec_matches(nodes[i], Some("App"@), None)
}

/// Text of the first child element `tag` of node `i`.
pub open spec fn spec_child_text(nodes: Seq<XmlNodeView>, i: int, tag: Seq<char>) -> Option<Seq<char>> {
    match spec_find_from(nodes, Some(tag), Some(nodes[i].id), 0) {
        Some(j) => nodes[j].text,
        None => None,
    }
}

/// The application that `App` node `i` describes, or the error message.
pub open spec fn spec_application(nodes: Seq<XmlNodeView>, i: int) -> Result<ApplicationView, Seq<char>> {
    match spec_child_text(nodes, i, "ID"@) {
        None => Err("application has no ID element"@),
        Some(id) => match spec_parse_unsigned(id, u32::MAX as nat) {
            None => Err("application ID is not an integer"@),
            Some(v) => match spec_child_text(nodes, i, "AppTitle"@) {
                None => Err("application has no AppTitle element"@),
                Some(title) => Ok(ApplicationView { id: v as u32, title }),
            },
        },
    }
}

/// The applications of the `App` elements from node `i` on, in document
/// order, or the error of the first one that is malformed.
pub open spec fn spec_applications_from(nodes: Seq<XmlNodeView>, i: int) -> Result<Seq<ApplicationView>, Seq<char>>
    decreases nodes.len() - i,
{
    if i < 0 || i >= nodes.len() {
        Ok(Seq::empty())
    } else if spec_is_app(nodes, i) {
        match spec_application(nodes, i) {
            Err(m) => Err(m),
            Ok(app) => match spec_applications_from(nodes, i + 1) {
                Ok(rest) => Ok(seq![app] + rest),
                Err(m) => Err(m),
            },
        }
    } else {
        spec_applications_from(nodes, i + 1)
    }
}

fn child_text(nodes: &Vec<XmlNode>, i: usize, tag: &str) -> (res: Result<String, ControlError>)
    requires
        i < nodes.len(),
    ensures
        match spec_child_text(nodes_view(nodes@), i as int, tag@) {
            Some(t) => res is Ok && res->Ok_0@ == t,
            None => res is Err && is_xml_error(
                res->Err_0,
                "application has no "@ + tag@ + " element"@,
            ),
        },
{
    assert(nodes_view(nodes@)[i as int] == nodes@[i as int]@);
    match find_node(nodes, Some(tag), Some(nodes[i].id), 0) {
        Some(j) => {
            assert(nodes_view(nodes@)[j as int] == nodes@[j as int]@);
            match &nodes[j].text {
                Some(text) => Ok(text.clone()),
                None => Err(ControlError::Xml(concat3("application has no ", tag, " element"))),
            }
        },
        None => Err(ControlError::Xml(concat3("application has no ", tag, " element"))),
    }
}

/// The applications of an `applist` response, when it is accepted and
/// each `App` element is complete.
pub open spec fn spec_applications_of(xml: Seq<char>) -> Option<Seq<ApplicationView>> {
    if spec_accepted(xml) {
        match spec_applications_from(spec_accepted_nodes(xml), 0) {
            Ok(apps) => Some(apps),
            Err(_) => None,
        }
    } else {
        None
    }
}

/// Whether `e` is the error for an `applist` response without applications.
pub open spec fn applications_error(xml: Seq<char>, e: ControlError) -> bool {
    if spec_accepted(xml) {
        match spec_applications_from(spec_accepted_nodes(xml), 0) {
            Ok(_) => false,
            Err(m) => is_xml_error(e, m),
        }
    } else {
        document_error(xml, e)
    }
}

/// Parses an `applist` response: one application per `App` element.
pub fn parse_applications(xml: &str) -> (res: Result<Vec<Application>, ControlError>)
    ensures
        match spec_applications_of(xml@) {
            Some(apps) => res is Ok && applications_view(res->Ok_0@) == apps,
            None => res is Err && applications_error(xml@, res->Err_0),
        },
{
    let nodes = checked_document(xml)?;
    let ghost view = nodes_view(nodes@);
    let mut apps: Vec<Application> = Vec::new();
    let mut i: usize = 0;
    while i < nodes.len()
        invariant
            i <= nodes.len(),
            view == nodes_view(nodes@),
            view == spec_accepted_nodes(xml@),
            spec_accepted(xml@),
            match spec_applications_from(view, 0) {
                Ok(all) => spec_applications_from(view, i as int) is Ok && all
                    == applications_view(apps@) + spec_applications_from(view, i as int)->Ok_0,
                Err(m) => spec_applications_from(view, i as int) == Err::<Seq<ApplicationView>, Seq<char>>(m),
            },
        decreases nodes.len() - i,
    {
        assert(view[i as int] == nodes@[i as int]@);
        let is_app = nodes[i].element && str_equal(nodes[i].name.as_str(), "App");
        assert(is_app == spec_is_app(view, i as int));
        if is_app {
            let id_text = match child_text(&nodes, i, "ID") {
                Ok(t) => t,
                Err(e) => {
                    proof {
                        reveal_strlit("application has no ");
                        reveal_strlit("ID");
                        reveal_strlit(" element");
                        reveal_strlit("application has no ID element");
                        assert("application has no "@ + "ID"@ + " element"@ =~= "application has no ID element"@);
                    }
                    return Err(e);
                },
            };
            let id_chars = chars_of(id_text.as_str());
            let id = match parse_unsigned(id_chars.as_slice(), 0xffff_ffff) {
                Some(id) => id as u32,
                None => {
                    return Err(ControlError::Xml("application ID is not an integer".to_owned()));
                },
            };
            let title = match child_text(&nodes, i, "AppTitle") {
                Ok(t) => t,
                Err(e) => {
                    proof {
                        reveal_strlit("application has no ");
                        reveal_strlit("AppTitle");
                        reveal_strlit(" element");
                        reveal_strlit("application has no AppTitle element");
                        assert("application has no "@ + "AppTitle"@ + " element"@
                            =~= "application has no AppTitle element"@);
                    }
                    return Err(e);
                },
            };
            let ghost before = applications_view(apps@);
            apps.push(Application { id, title });
            proof {
                assert(applications_view(apps@) =~= before.push(apps@[apps@.len() - 1]@));
                let rest = spec_applications_from(view, i + 1);
                if let Ok(r) = rest {
                    assert(before + (seq![apps@[apps@.len() - 1]@] + r) =~= applications_view(apps@) + r);
                }
            }
        }
        i = i + 1;
    }
    Ok(apps)
}

} // verus!
