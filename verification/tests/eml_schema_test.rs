use election::eml_schema::{
    AffiliationIdentifierStructure, ComplexDateRangeEnum, ComplexDateRangeStructure, PhysicalLocationStructure, PollingDistrictIdentifierStructure,
    PollingPlaceLocationEnum, PollingPlaceStructure, VotingMethodType,
};
use election::xml::XmlElement;
use election::xml_source::parse_xml;

fn doc(body: &str) -> XmlElement {
    parse_xml(&format!("<Root xmlns=\"urn:x\">{}</Root>", body)).unwrap()
}

const LOCATION: &str = "<PhysicalLocation><Address AddressDetailsKey=\"K9\"><AddressLines><AddressLine Type=\"Premises\">School</AddressLine><AddressLine Type=\"Suburb\">Carlton</AddressLine><AddressLine Type=\"Postcode\">3053</AddressLine></AddressLines><PostalServiceElements><AddressLatitude>-37.8</AddressLatitude><AddressLongitude>144.9</AddressLongitude></PostalServiceElements></Address></PhysicalLocation>";

#[test]
fn physical_location_reads_typed_lines() {
    let root = doc(LOCATION);
    let loc = PhysicalLocationStructure::from_element(root.get_child_ignore_ns("PhysicalLocation").unwrap()).unwrap();
    assert_eq!(loc.lat, "-37.8");
    assert_eq!(loc.long, "144.9");
    assert_eq!(loc.address_details, "K9");
    assert_eq!(loc.premises, "School");
    assert_eq!(loc.suburb, "Carlton");
    assert_eq!(loc.postcode, "3053");
    assert_eq!(loc.address_line_1, "");
    assert_eq!(loc.state, "");
    let no_lat = doc(&LOCATION.replace("<AddressLatitude>-37.8</AddressLatitude>", ""));
    assert!(PhysicalLocationStructure::from_element(no_lat.get_child_ignore_ns("PhysicalLocation").unwrap()).is_none());
}

#[test]
fn polling_place_reads_location_identifier_and_access() {
    let root = doc(&format!(
        "<PollingPlace>{}<PollingPlaceIdentifier Id=\"12\" Name=\"Carlton\"/><WheelchairAccess>Full</WheelchairAccess></PollingPlace>",
        LOCATION
    ));
    let pp = PollingPlaceStructure::from_element(root.get_child_ignore_ns("PollingPlace").unwrap()).unwrap();
    assert!(matches!(&pp.location.0, PollingPlaceLocationEnum::Physical(l) if l.suburb == "Carlton"));
    assert_eq!(pp.identifier.id.0, "12");
    assert_eq!(pp.identifier.name, Some("Carlton".to_string()));
    assert!(pp.identifier.short_code.is_none());
    assert_eq!(pp.wheelchair.unwrap().0, "Full");
    assert!(pp.district.is_none());
    let other = doc("<PollingPlace><OtherLocation>Mobile team</OtherLocation><PollingPlaceIdentifier Id=\"3\"/></PollingPlace>");
    let pp = PollingPlaceStructure::from_element(other.get_child_ignore_ns("PollingPlace").unwrap()).unwrap();
    assert!(matches!(&pp.location.0, PollingPlaceLocationEnum::Other(t) if t == "Mobile team"));
    let no_id = doc("<PollingPlace><OtherLocation>x</OtherLocation></PollingPlace>");
    assert!(PollingPlaceStructure::from_element(no_id.get_child_ignore_ns("PollingPlace").unwrap()).is_none());
}

#[test]
fn voting_methods_by_name() {
    let root = doc("<V>OPV</V><V>partylist</V><V>opv</V>");
    let vs = root.get_children_ignore_ns("V");
    assert_eq!(VotingMethodType::from_element(vs[0]), VotingMethodType::OPV);
    assert_eq!(VotingMethodType::from_element(vs[1]), VotingMethodType::partylist);
    assert_eq!(VotingMethodType::from_element(vs[2]), VotingMethodType::other);
}

#[test]
fn date_ranges() {
    let root = doc("<D Type=\"a\"><SingleDate>2022-05-21</SingleDate></D><D Type=\"b\"><Start>s</Start></D><D Type=\"c\"><Start>s</Start><End>e</End></D><D><SingleDate>x</SingleDate></D><D Type=\"e\"/>");
    let ds = root.get_children_ignore_ns("D");
    let single = ComplexDateRangeStructure::from_element(ds[0]).unwrap();
    assert_eq!(single.date_type, "a");
    assert!(matches!(single.choice, ComplexDateRangeEnum::SingleDate(ref d) if d == "2022-05-21"));
    let open = ComplexDateRangeStructure::from_element(ds[1]).unwrap();
    assert!(matches!(open.choice, ComplexDateRangeEnum::StartEnd(ref s, None) if s == "s"));
    let end_only = ComplexDateRangeStructure::from_element(ds[2]).unwrap();
    assert!(matches!(end_only.choice, ComplexDateRangeEnum::End(ref e) if e == "e"));
    assert!(ComplexDateRangeStructure::from_element(ds[3]).is_none());
    assert!(ComplexDateRangeStructure::from_element(ds[4]).is_none());
}

#[test]
fn polling_district_identifier_needs_a_numeric_id() {
    let root = doc("<P Id=\"101\" ShortCode=\"ADL\"><Name>Adelaide</Name><StateIdentifier Id=\"SA\"/></P><P Id=\"x\" ShortCode=\"A\"><Name>A</Name><StateIdentifier Id=\"SA\"/></P>");
    let ps = root.get_children_ignore_ns("P");
    let p = PollingDistrictIdentifierStructure::from_element(ps[0]).unwrap();
    assert_eq!((p.id, p.short_code.as_str(), p.name.as_str(), p.state_identifier.as_str()), (101, "ADL", "Adelaide", "SA"));
    assert!(PollingDistrictIdentifierStructure::from_element(ps[1]).is_none());
}

#[test]
fn affiliation_identifier_reads_display_order() {
    let root = doc("<AffiliationIdentifier Id=\"X\" DisplayOrder=\"3\"><RegisteredName>P</RegisteredName></AffiliationIdentifier><AffiliationIdentifier Id=\"Y\"><RegisteredName>Q</RegisteredName></AffiliationIdentifier>");
    let ids = root.get_children_ignore_ns("AffiliationIdentifier");
    let a = AffiliationIdentifierStructure::from_element(ids[0]).unwrap();
    assert_eq!(a.id.as_ref().unwrap().0, "X");
    assert_eq!(a.display_order.as_ref().unwrap().0, 3);
    assert!(a.short_code.is_none());
    assert!(a.expected_confirmation_reference.is_none());
    assert_eq!(a.registered_name.0, "P");
    let b = AffiliationIdentifierStructure::from_element(ids[1]).unwrap();
    assert!(b.display_order.is_none());
}
