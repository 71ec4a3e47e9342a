use election::xml::XmlElement;
use election::xml_source::element_from_minidom;
use minidom::Element;

fn same(a: &XmlElement, b: &XmlElement) -> bool {
    a.name == b.name
        && a.namespace == b.namespace
        && a.text == b.text
        && a.attributes.len() == b.attributes.len()
        && a.attributes.iter().zip(b.attributes.iter()).all(|(x, y)| {
            x.namespace == y.namespace && x.name == y.name && x.value == y.value
        })
        && a.children.len() == b.children.len()
        && a.children.iter().zip(b.children.iter()).all(|(x, y)| same(x, y))
}

#[test]
fn no_child() {
    let element = element_from_minidom(&Element::bare("TestName", "TestNS"));

    assert!(element.get_child_ignore_ns("TestName").is_none());
    assert_eq!(element.get_children_ignore_ns("TestName").len(), 0);
}

#[test]
fn one_child() {
    let element = element_from_minidom(
        &Element::builder("TestName", "TestNS")
            .append(Element::bare("TestA", "TestB"))
            .build(),
    );
    let expected = element_from_minidom(&Element::bare("TestA", "TestB"));

    assert!(same(element.get_child_ignore_ns("TestA").unwrap(), &expected));
    let all = element.get_children_ignore_ns("TestA");
    assert_eq!(all.len(), 1);
    assert!(same(all[0], &expected));
}

#[test]
fn multiple_children() {
    let element = element_from_minidom(
        &Element::builder("TestName", "TestNS")
            .append(Element::bare("TestA", "TestB"))
            .append(Element::bare("TestA", "TestB"))
            .build(),
    );
    let expected = element_from_minidom(&Element::bare("TestA", "TestB"));

    assert!(same(element.get_child_ignore_ns("TestA").unwrap(), &expected));
    let all = element.get_children_ignore_ns("TestA");
    assert_eq!(all.len(), 2);
    assert!(same(all[0], &expected));
    assert!(same(all[1], &expected));
}

#[test]
fn conversion_keeps_names_namespaces_and_text() {
    let source = Element::builder("Root", "urn:x")
        .append(Element::builder("Child", "urn:y").append("hello").build())
        .append(Element::bare("Other", "urn:x"))
        .build();
    let e = element_from_minidom(&source);
    assert_eq!(e.name, "Root");
    assert_eq!(e.namespace, "urn:x");
    assert_eq!(e.attributes.len(), 0);
    assert_eq!(e.children.len(), 2);
    assert_eq!(e.children[0].name, "Child");
    assert_eq!(e.children[0].namespace, "urn:y");
    assert_eq!(e.children[0].text(), "hello");
    assert!(e.get_child("Child", "urn:x").is_none());
    assert_eq!(e.get_child("Other", "urn:x").unwrap().name, "Other");
    assert_eq!(e.child_text("Child"), Some("hello".to_string()));
}

#[test]
fn parse_xml_reads_a_document_and_rejects_garbage() {
    let root = election::xml_source::parse_xml("<a xmlns='urn:q'><b k='v'>t</b></a>").unwrap();
    assert_eq!(root.name, "a");
    assert_eq!(root.namespace, "urn:q");
    let b = root.get_child_ignore_ns("b").unwrap();
    assert_eq!(b.attr_string("k"), Some("v".to_string()));
    assert_eq!(b.text(), "t");
    assert!(election::xml_source::parse_xml("<a><b></a>").is_none());
}
