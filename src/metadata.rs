use vstd::prelude::*;
use crate::text::text_eq;

verus! {

/// One node of a parsed configuration document, as plain values.
pub struct XmlNode {
    /// Whether the node is an element (and not text, a comment, ...).
    pub element: bool,
    /// The local tag name; empty for a node that is not an element.
    pub name: String,
    /// The node's text: for an element, that of its first child if it is text.
    pub text: Option<String>,
    /// The attributes of an element, as (local name, value), in document order.
    pub attributes: Vec<(String, String)>,
    /// The local tag name of the parent element, if there is one.
    pub parent: Option<String>,
}

/// A node's model: (element, name, text, attributes, parent).
pub type NodeModel = (bool, Seq<char>, Option<Seq<char>>, Seq<(Seq<char>, Seq<char>)>, Option<Seq<char>>);

impl XmlNode {
    pub open spec fn model(&self) -> NodeModel {
        (self.element, self.name@, self.text.deep_view(), self.attributes.deep_view(), self.parent.deep_view())
    }
}

pub open spec fn nodes_model(r: Option<Vec<XmlNode>>) -> Option<Seq<NodeModel>> {
    match r {
        Some(v) => Some(v@.map_values(|n: XmlNode| n.model())),
        None => None,
    }
}

/// The nodes of a document in document order (the document's root first),
/// or `None` where the text does not parse: text that is not well-formed XML,
/// and also a document with a DTD or with entity references that loop.
pub uninterp spec fn xml_nodes_of(text: Seq<char>) -> Option<Seq<NodeModel>>;

/// A character of the Unicode White_Space property.
pub open spec fn is_white_space(c: char) -> bool {
    let u = c as int;
    (0x9 <= u <= 0xD) || u == 0x20 || u == 0x85 || u == 0xA0 || u == 0x1680 || (0x2000 <= u <= 0x200A)
        || u == 0x2028 || u == 0x2029 || u == 0x202F || u == 0x205F || u == 0x3000
}

pub open spec fn trim_start(s: Seq<char>) -> Seq<char>
    decreases s.len(),
{
    if s.len() > 0 && is_white_space(s[0]) {
        trim_start(s.drop_first())
    } else {
        s
    }
}

pub open spec fn trim_end(s: Seq<char>) -> Seq<char>
    decreases s.len(),
{
    if s.len() > 0 && is_white_space(s.last()) {
        trim_end(s.drop_last())
    } else {
        s
    }
}

/// Text with leading and trailing white space removed.
pub open spec fn trimmed(s: Seq<char>) -> Seq<char> {
    trim_end(trim_start(s))
}

/// Relies on roxmltree::Document::parse (default options) and its node
/// accessors: parsing is a function of the text alone. It fails on text that
/// is not well-formed XML, and also on a DTD and on entity loops.
#[verifier::external_body]
fn parse_nodes(text: &str) -> (r: Option<Vec<XmlNode>>)
    ensures
        nodes_model(r) == xml_nodes_of(text@),
{
    roxmltree::Document::parse(text).ok().map(|doc| doc.descendants().map(|n| XmlNode {
        element: n.is_element(),
        name: n.tag_name().name().to_string(),
        text: n.text().map(|t| t.to_string()),
        attributes: n.attributes().map(|a| (a.name().to_string(), a.value().to_string())).collect(),
        parent: n.parent_element().map(|p| p.tag_name().name().to_string()),
    }).collect())
}

/// Relies on str::trim: leading and trailing characters of the Unicode
/// White_Space property removed.
#[verifier::external_body]
fn trim_text(s: &str) -> (r: String)
    ensures
        r@ == trimmed(s@),
{
    s.trim().to_string()
}

/// Whether a node is an element with the given tag name.
pub open spec fn is_element_named(n: NodeModel, tag: Seq<char>) -> bool {
    n.0 && n.1 == tag
}

/// `i` is the position of the first element named `tag`.
pub open spec fn is_first_named(nodes: Seq<NodeModel>, tag: Seq<char>, i: int) -> bool {
    &&& 0 <= i < nodes.len()
    &&& is_element_named(nodes[i], tag)
    &&& forall|j: int| 0 <= j < i ==> !is_element_named(#[trigger] nodes[j], tag)
}

pub open spec fn trimmed_text(t: Option<Seq<char>>) -> Option<Seq<char>> {
    match t {
        Some(s) => Some(trimmed(s)),
        None => None,
    }
}

/// The trimmed text of the first element named `tag`, if there is one and it
/// has text.
pub open spec fn element_text(nodes: Seq<NodeModel>, tag: Seq<char>) -> Option<Seq<char>> {
    if exists|i: int| is_first_named(nodes, tag, i) {
        let i = choose|i: int| is_first_named(nodes, tag, i);
        trimmed_text(nodes[i].2)
    } else {
        None
    }
}

/// What extracting `tag` from a document gives: absent where the document
/// does not parse.
pub open spec fn field_of(doc: Seq<char>, tag: Seq<char>) -> Option<Seq<char>> {
    match xml_nodes_of(doc) {
        Some(nodes) => element_text(nodes, tag),
        None => None,
    }
}

proof fn lemma_first_named_unique(nodes: Seq<NodeModel>, tag: Seq<char>, i: int, k: int)
    requires
        is_first_named(nodes, tag, i),
        is_first_named(nodes, tag, k),
    ensures
        i == k,
{
    if i < k {
        assert(!is_element_named(nodes[i], tag));
    } else if k < i {
        assert(!is_element_named(nodes[k], tag));
    }
}

/// The trimmed text of the first element named `tag` among `nodes`.
pub fn first_element_text(nodes: &Vec<XmlNode>, tag: &str) -> (r: Option<String>)
    ensures
        r.deep_view() == element_text(nodes@.map_values(|n: XmlNode| n.model()), tag@),
{
    let ghost model = nodes@.map_values(|n: XmlNode| n.model());
    let mut i: usize = 0;
    while i < nodes.len()
        invariant
            i <= nodes.len(),
            model == nodes@.map_values(|n: XmlNode| n.model()),
            forall|j: int| 0 <= j < i ==> !is_element_named(#[trigger] model[j], tag@),
        decreases nodes.len() - i,
    {
        let n = &nodes[i];
        if n.element && text_eq(n.name.as_str(), tag) {
            proof {
                assert(is_first_named(model, tag@, i as int));
                let k = choose|k: int| is_first_named(model, tag@, k);
                lemma_first_named_unique(model, tag@, i as int, k);
            }
            return match &n.text {
                Some(t) => Some(trim_text(t.as_str())),
                None => None,
            };
        }
        i = i + 1;
    }
    proof {
        assert forall|k: int| !is_first_named(model, tag@, k) by {
            if 0 <= k < model.len() {
                assert(!is_element_named(model[k], tag@));
            }
        }
    }
    None
}


/// Whether a node is a `source` element inside a `disk` element.
pub open spec fn is_disk_source(n: NodeModel) -> bool {
    n.0 && n.1 == "source"@ && n.4 == Some("disk"@)
}

/// `i` is the position of the first `source` element inside a `disk` element.
pub open spec fn is_first_disk_source(nodes: Seq<NodeModel>, i: int) -> bool {
    &&& 0 <= i < nodes.len()
    &&& is_disk_source(nodes[i])
    &&& forall|j: int| 0 <= j < i ==> !is_disk_source(#[trigger] nodes[j])
}

/// The value of the first attribute named `name`.
pub open spec fn attribute_value(attrs: Seq<(Seq<char>, Seq<char>)>, name: Seq<char>) -> Option<Seq<char>> {
    if exists|i: int| 0 <= i < attrs.len() && attrs[i].0 == name {
        let i = choose|i: int| 0 <= i < attrs.len() && attrs[i].0 == name
            && forall|j: int| 0 <= j < i ==> (#[trigger] attrs[j]).0 != name;
        Some(attrs[i].1)
    } else {
        None
    }
}

/// The `file` attribute of the first disk source element.
pub open spec fn disk_source_of(nodes: Seq<NodeModel>) -> Option<Seq<char>> {
    if exists|i: int| is_first_disk_source(nodes, i) {
        let i = choose|i: int| is_first_disk_source(nodes, i);
        attribute_value(nodes[i].3, "file"@)
    } else {
        None
    }
}

/// The disk image path that a document names, absent where it does not parse.
pub open spec fn disk_source_field(doc: Seq<char>) -> Option<Seq<char>> {
    match xml_nodes_of(doc) {
        Some(nodes) => disk_source_of(nodes),
        None => None,
    }
}

fn attribute_lookup(attrs: &Vec<(String, String)>, name: &str) -> (r: Option<String>)
    ensures
        r.deep_view() == attribute_value(attrs.deep_view(), name@),
{
    let ghost m = attrs.deep_view();
    let mut i: usize = 0;
    while i < attrs.len()
        invariant
            i <= attrs.len(),
            m == attrs.deep_view(),
            m.len() == attrs@.len(),
            forall|j: int| 0 <= j < i ==> (#[trigger] m[j]).0 != name@,
        decreases attrs.len() - i,
    {
        assert(m[i as int] == attrs@[i as int].deep_view());
        if text_eq(attrs[i].0.as_str(), name) {
            proof {
                let k = choose|k: int| 0 <= k < m.len() && m[k].0 == name@
                    && forall|j: int| 0 <= j < k ==> (#[trigger] m[j]).0 != name@;
                if k < i {
                    assert(m[k].0 != name@);
                } else if k > i {
                    assert(m[i as int].0 != name@);
                }
            }
            return Some(attrs[i].1.clone());
        }
        i = i + 1;
    }
    None
}

/// The `file` attribute of the first `source` element inside a `disk`
/// element among `nodes`.
pub fn first_disk_source(nodes: &Vec<XmlNode>) -> (r: Option<String>)
    ensures
        r.deep_view() == disk_source_of(nodes@.map_values(|n: XmlNode| n.model())),
{
    proof {
        reveal_strlit("source");
        reveal_strlit("disk");
        reveal_strlit("file");
    }
    let ghost model = nodes@.map_values(|n: XmlNode| n.model());
    let mut i: usize = 0;
    while i < nodes.len()
        invariant
            i <= nodes.len(),
            model == nodes@.map_values(|n: XmlNode| n.model()),
            forall|j: int| 0 <= j < i ==> !is_disk_source(#[trigger] model[j]),
        decreases nodes.len() - i,
    {
        let n = &nodes[i];
        let inside_disk = match &n.parent {
            Some(p) => text_eq(p.as_str(), "disk"),
            None => false,
        };
        if n.element && inside_disk && text_eq(n.name.as_str(), "source") {
            proof {
                assert(is_first_disk_source(model, i as int));
                let k = choose|k: int| is_first_disk_source(model, k);
                if k < i {
                    assert(!is_disk_source(model[k]));
                } else if k > i {
                    assert(!is_disk_source(model[i as int]));
                }
            }
            return attribute_lookup(&n.attributes, "file");
        }
        i = i + 1;
    }
    proof {
        assert forall|k: int| !is_first_disk_source(model, k) by {
            if 0 <= k < model.len() {
                assert(!is_disk_source(model[k]));
            }
        }
    }
    None
}

/// Extracting a field is never an error: the field is absent where the
/// document does not parse (it is malformed, or the parser refuses it), and
/// absent where it parses but holds no element of that name.
pub proof fn lemma_missing_field_absent(doc: Seq<char>, tag: Seq<char>)
    ensures
        xml_nodes_of(doc) is None ==> field_of(doc, tag) is None,
        (xml_nodes_of(doc) matches Some(nodes) && forall|i: int| 0 <= i < nodes.len()
            ==> !is_element_named(#[trigger] nodes[i], tag)) ==> field_of(doc, tag) is None,
{
}

/// Reads identity fields out of a domain's exported configuration document.
pub struct BackupXMLParser {
    xml: String,
}

impl BackupXMLParser {
    pub closed spec fn document(&self) -> Seq<char> {
        self.xml@
    }

    /// A parser over the text of a configuration document.
    pub fn new(xml: String) -> (r: Self)
        ensures
            r.document() == xml@,
    {
        BackupXMLParser { xml }
    }

    /// The domain's name, if the document parses and has a `name` element with text.
    pub fn get_name(&self) -> (r: Option<String>)
        ensures
            r.deep_view() == field_of(self.document(), "name"@),
    {
        self.get_node_text("name")
    }

    /// The domain's UUID, if the document parses and has a `uuid` element with text.
    pub fn get_uuid(&self) -> (r: Option<String>)
        ensures
            r.deep_view() == field_of(self.document(), "uuid"@),
    {
        self.get_node_text("uuid")
    }

    /// The path in the `file` attribute of the first `source` element inside a
    /// `disk` element; absent where the document does not parse or has none.
    pub fn get_disk_source(&self) -> (r: Option<String>)
        ensures
            r.deep_view() == disk_source_field(self.document()),
    {
        match parse_nodes(self.xml.as_str()) {
            Some(nodes) => first_disk_source(&nodes),
            None => None,
        }
    }

    /// The trimmed text of the first element named `node` anywhere in the
    /// document; absent where the document does not parse or has no such element.
    pub fn get_node_text(&self, node: &str) -> (r: Option<String>)
        ensures
            r.deep_view() == field_of(self.document(), node@),
    {
        match parse_nodes(self.xml.as_str()) {
            Some(nodes) => first_element_text(&nodes, node),
            None => None,
        }
    }
}

} // verus!
