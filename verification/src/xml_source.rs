//! Reading XML documents with minidom and bringing the parsed tree into the
//! library's own `XmlElement` model.
use crate::xml::{attribute_triple, lemma_nodes_of, XmlAttribute, XmlElement, XmlNode};
use minidom::Element;
use vstd::prelude::*;

verus! {

#[verifier::external_type_specification]
#[verifier::external_body]
pub struct ExElement(minidom::Element);

/// What a minidom `Element` holds: its local name, namespace, attributes
/// (namespace, local name, value), the concatenation of its direct text nodes,
/// and its child elements.
pub uninterp spec fn element_content(e: Element) -> XmlNode;

/// The tree that minidom's parser builds from a document's text, or `None`
/// when it rejects the text.
pub uninterp spec fn parsed_document(text: Seq<char>) -> Option<XmlNode>;

/// `Element::name`: the element's local name.
#[verifier::external_body]
fn element_name(e: &Element) -> (r: String)
    ensures
        r@ == element_content(*e).name,
{
    e.name().to_string()
}

/// `Element::ns`: the element's namespace.
#[verifier::external_body]
fn element_namespace(e: &Element) -> (r: String)
    ensures
        r@ == element_content(*e).namespace,
{
    e.ns()
}

/// `Element::attrs`: every attribute, each as namespace, local name and value.
#[verifier::external_body]
fn element_attributes(e: &Element) -> (r: Vec<XmlAttribute>)
    ensures
        r@.map_values(|a: XmlAttribute| attribute_triple(a)) == element_content(*e).attributes,
{
    e.attrs().iter().map(|((ns, n), v)| XmlAttribute {
        namespace: ns.to_string(),
        name: n.to_string(),
        value: v.clone(),
    }).collect()
}

/// `Element::text`: the element's direct text nodes, concatenated.
#[verifier::external_body]
fn element_text(e: &Element) -> (r: String)
    ensures
        r@ == element_content(*e).text,
{
    e.text()
}

/// `Element::children`: the child elements, in document order.
#[verifier::external_body]
fn element_children(e: &Element) -> (r: Vec<&Element>)
    ensures
        r@.len() == element_content(*e).children.len(),
        forall|i: int|
            0 <= i < r@.len() ==> element_content(*r@[i]) == #[trigger] element_content(
                *e,
            ).children[i],
{
    e.children().collect()
}

/// `<Element as FromStr>::from_str`: minidom's document parser.
#[verifier::external_body]
fn parse_element(text: &str) -> (r: Option<Element>)
    ensures
        match r {
            Some(e) => parsed_document(text@) == Some(element_content(e)),
            None => parsed_document(text@) is None,
        },
{
    text.parse::<Element>().ok()
}

/// Copies a minidom element tree into an `XmlElement` holding the same values.
pub fn element_from_minidom(e: &Element) -> (r: XmlElement)
    ensures
        r@ == element_content(*e),
    decreases element_content(*e),
{
    let kids = element_children(e);
    let ghost content = element_content(*e);
    let mut children: Vec<XmlElement> = Vec::new();
    let n = kids.len();
    let mut i: usize = 0;
    while i < n
        invariant
            n == kids@.len(),
            i <= n,
            content == element_content(*e),
            kids@.len() == content.children.len(),
            forall|j: int| 0 <= j < kids@.len() ==> element_content(*kids@[j]) == #[trigger] content.children[j],
            children@.len() == i,
            forall|j: int| 0 <= j < i ==> (#[trigger] children@[j])@ == content.children[j],
        decreases n - i,
    {
        let k = kids[i];
        proof {
            assert(element_content(*k) == content.children[i as int]);
            assert(decreases_to!(content => content.children));
            assert(decreases_to!(content.children => content.children[i as int]));
        }
        let c = element_from_minidom(k);
        children.push(c);
        i = i + 1;
    }
    let r = XmlElement {
        name: element_name(e),
        namespace: element_namespace(e),
        attributes: element_attributes(e),
        text: element_text(e),
        children,
    };
    proof {
        lemma_nodes_of(r.children@);
        assert(r@.children =~= content.children);
    }
    r
}

/// Parses an XML document into its root element.
pub fn parse_xml(text: &str) -> (r: Option<XmlElement>)
    ensures
        match r {
            Some(root) => parsed_document(text@) == Some(root@),
            None => parsed_document(text@) is None,
        },
{
    match parse_element(text) {
        Some(e) => Some(element_from_minidom(&e)),
        None => None,
    }
}

} // verus!
