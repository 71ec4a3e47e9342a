//! The EML (Election Markup Language) v5 schema types that the AEC feeds use,
//! and how each is read from an XML element.
//!
//! Reading an element either yields the value or `None`, where a required
//! child or attribute is missing or a number does not parse: such an element
//! is answered with `None` instead of stopping the program.
use crate::text::{parse_u32, parsed_integer};
use crate::xml::{child_text_of, first_of_type, opt_view, XmlElement};
use vstd::prelude::*;

pub mod xs;

use self::xs::{u32_of, PositiveInteger, Token, NMTOKEN};

verus! {

/// The `u32` a text holds, or `default` where it holds none (`parse().unwrap_or(default)`).
pub open spec fn u32_or(s: Seq<char>, default: u32) -> u32 {
    match u32_of(s) {
        Some(v) => v as u32,
        None => default,
    }
}

pub fn parse_u32_or(s: &str, default: u32) -> (r: u32)
    ensures
        r == u32_or(s@, default),
{
    match parse_u32(s) {
        Some(v) => v,
        None => default,
    }
}

pub open spec fn nmtoken_view(o: Option<NMTOKEN>) -> Option<Seq<char>> {
    match o {
        Some(t) => Some(t.0@),
        None => None,
    }
}

pub open spec fn token_view(o: Option<Token>) -> Option<Seq<char>> {
    match o {
        Some(t) => Some(t.0@),
        None => None,
    }
}

fn nmtoken_of(o: Option<String>) -> (r: Option<NMTOKEN>)
    ensures
        nmtoken_view(r) == opt_view(o),
{
    match o {
        Some(s) => Some(NMTOKEN(s)),
        None => None,
    }
}

fn token_of(o: Option<String>) -> (r: Option<Token>)
    ensures
        token_view(r) == opt_view(o),
{
    match o {
        Some(s) => Some(Token(s)),
        None => None,
    }
}

/// `DisplayOrder`-style attributes: the number the attribute holds, 1 where it
/// holds none, `None` without the attribute.
pub open spec fn order_of(attr: Option<Seq<char>>, v: Option<PositiveInteger>) -> bool {
    match attr {
        Some(t) => v matches Some(p) && p.0 == u32_or(t, 1),
        None => v is None,
    }
}

fn order_from(attr: Option<String>) -> (r: Option<PositiveInteger>)
    ensures
        order_of(opt_view(attr), r),
{
    match attr {
        Some(t) => Some(PositiveInteger(parse_u32_or(t.as_str(), 1))),
        None => None,
    }
}

// AEC types
/// Wheelchair access of a polling place, as the feed words it.
#[derive(Clone)]
pub struct WheelChairAccessType(pub String);

impl WheelChairAccessType {
    pub fn from_element(value: &XmlElement) -> (r: WheelChairAccessType)
        ensures
            r.0@ == value.text@,
    {
        WheelChairAccessType(value.text())
    }
}

/// A postal address with its coordinates.
#[derive(Clone)]
pub struct PhysicalLocationStructure {
    pub lat: String,
    pub long: String,
    pub address_details: String,
    pub premises: String,
    pub address_line_1: String,
    pub address_line_2: String,
    pub suburb: String,
    pub state: String,
    pub postcode: String,
}

/// The text of the first child whose `Type` is `t`; empty without one.
pub open spec fn typed_line(lines: XmlElement, t: Seq<char>) -> Seq<char> {
    match first_of_type(lines.children@, t) {
        Some(c) => c.text@,
        None => Seq::empty(),
    }
}

fn typed_line_text(lines: &XmlElement, t: &str) -> (r: String)
    ensures
        r@ == typed_line(*lines, t@),
{
    match lines.get_child_with_type(t) {
        Some(c) => c.text(),
        None => String::new(),
    }
}

pub open spec fn accepts_physical_location(e: XmlElement) -> bool {
    &&& e.child_named("Address"@) matches Some(a)
    &&& a.child_named("PostalServiceElements"@) matches Some(p)
    &&& p.child_named("AddressLatitude"@) is Some
    &&& p.child_named("AddressLongitude"@) is Some
    &&& a.child_named("AddressLines"@) is Some
}

pub open spec fn reads_physical_location(x: PhysicalLocationStructure, e: XmlElement) -> bool {
    let a = e.child_named("Address"@).unwrap();
    let p = a.child_named("PostalServiceElements"@).unwrap();
    let l = a.child_named("AddressLines"@).unwrap();
    &&& Some(x.lat@) == child_text_of(p, "AddressLatitude"@)
    &&& Some(x.long@) == child_text_of(p, "AddressLongitude"@)
    &&& x.address_details@ == (match a.attr_value("AddressDetailsKey"@) {
        Some(v) => v,
        None => Seq::empty(),
    })
    &&& x.premises@ == typed_line(l, "Premises"@)
    &&& x.address_line_1@ == typed_line(l, "AddressLine1"@)
    &&& x.address_line_2@ == typed_line(l, "AddressLine2"@)
    &&& x.suburb@ == typed_line(l, "Suburb"@)
    &&& x.state@ == typed_line(l, "State"@)
    &&& x.postcode@ == typed_line(l, "Postcode"@)
}

impl PhysicalLocationStructure {
    pub fn from_element(value: &XmlElement) -> (r: Option<PhysicalLocationStructure>)
        ensures
            r is Some <==> accepts_physical_location(*value),
            r matches Some(x) ==> reads_physical_location(x, *value),
    {
        let address = match value.get_child_ignore_ns("Address") {
            Some(a) => a,
            None => return None,
        };
        let postal = match address.get_child_ignore_ns("PostalServiceElements") {
            Some(p) => p,
            None => return None,
        };
        let lat = match postal.child_text("AddressLatitude") {
            Some(t) => t,
            None => return None,
        };
        let long = match postal.child_text("AddressLongitude") {
            Some(t) => t,
            None => return None,
        };
        let lines = match address.get_child_ignore_ns("AddressLines") {
            Some(l) => l,
            None => return None,
        };
        let address_details = match address.attr_string("AddressDetailsKey") {
            Some(v) => v,
            None => String::new(),
        };
        Some(PhysicalLocationStructure {
            lat,
            long,
            address_details,
            premises: typed_line_text(lines, "Premises"),
            address_line_1: typed_line_text(lines, "AddressLine1"),
            address_line_2: typed_line_text(lines, "AddressLine2"),
            suburb: typed_line_text(lines, "Suburb"),
            state: typed_line_text(lines, "State"),
            postcode: typed_line_text(lines, "Postcode"),
        })
    }
}

/// Where a polling place is: a physical or postal address, an electronic
/// location, or some other description.
#[derive(Clone)]
pub enum PollingPlaceLocationEnum {
    Physical(PhysicalLocationStructure),
    Postal(PhysicalLocationStructure),
    Electronic(Token),
    Other(String),
}

#[derive(Clone)]
pub struct PollingPlaceLocation(pub PollingPlaceLocationEnum);

/// The identity of a polling place.
#[derive(Clone)]
pub struct PollingPlaceIdentifierStructure {
    pub id: NMTOKEN,
    pub name: Option<String>,
    pub short_code: Option<NMTOKEN>,
}

pub open spec fn reads_polling_place_identifier(x: PollingPlaceIdentifierStructure, e: XmlElement) -> bool {
    &&& Some(x.id.0@) == e.attr_value("Id"@)
    &&& opt_view(x.name) == e.attr_value("Name"@)
    &&& nmtoken_view(x.short_code) == e.attr_value("ShortCode"@)
}

impl PollingPlaceIdentifierStructure {
    pub fn from_element(value: &XmlElement) -> (r: Option<PollingPlaceIdentifierStructure>)
        ensures
            r is Some <==> value.attr_value("Id"@) is Some,
            r matches Some(x) ==> reads_polling_place_identifier(x, *value),
    {
        let id = match value.attr_string("Id") {
            Some(v) => v,
            None => return None,
        };
        Some(PollingPlaceIdentifierStructure {
            id: NMTOKEN(id),
            name: value.attr_string("Name"),
            short_code: nmtoken_of(value.attr_string("ShortCode")),
        })
    }
}

// EML v5 simple types
#[derive(Clone)]
pub struct ConfirmationReferenceType(pub String);

#[derive(Clone, Copy)]
pub struct CountingAlgorithmType;

#[derive(Clone, Copy)]
pub struct DateType;

#[derive(Clone, Copy)]
pub struct EmailType;

#[derive(Clone, Copy)]
pub struct ErrorCodeType;

#[derive(Clone, Copy)]
pub struct GenderType;

#[derive(Clone, Copy)]
pub struct LanguageType;

#[derive(Clone, Copy)]
pub struct MessageTypeType;

#[derive(Clone, Copy)]
pub struct SealUsageType;

#[derive(Clone)]
pub struct ShortCodeType(pub NMTOKEN);

#[derive(Clone, Copy)]
pub struct TelephoneNumberType;

#[derive(Clone, Copy)]
pub struct VotingChannelType;

/// The voting methods EML names.
#[allow(non_camel_case_types)]
#[derive(Clone, Copy, PartialEq, Eq, Structural, Debug)]
pub enum VotingMethodType {
    AMS,
    FPP,
    IRV,
    OPV,
    RCV,
    SPV,
    STV,
    NOR,
    cumulative,
    approval,
    block,
    partylist,
    partisan,
    supplementaryvote,
    other,
}

/// The method a text names; `other` for any text that names none.
pub open spec fn voting_method_of(t: Seq<char>) -> VotingMethodType {
    if t == "AMS"@ { VotingMethodType::AMS }
    else if t == "FPP"@ { VotingMethodType::FPP }
    else if t == "IRV"@ { VotingMethodType::IRV }
    else if t == "OPV"@ { VotingMethodType::OPV }
    else if t == "RCV"@ { VotingMethodType::RCV }
    else if t == "SPV"@ { VotingMethodType::SPV }
    else if t == "STV"@ { VotingMethodType::STV }
    else if t == "NOR"@ { VotingMethodType::NOR }
    else if t == "cumulative"@ { VotingMethodType::cumulative }
    else if t == "approval"@ { VotingMethodType::approval }
    else if t == "block"@ { VotingMethodType::block }
    else if t == "partylist"@ { VotingMethodType::partylist }
    else if t == "partisan"@ { VotingMethodType::partisan }
    else if t == "supplementaryvote"@ { VotingMethodType::supplementaryvote }
    else { VotingMethodType::other }
}

impl VotingMethodType {
    pub fn from_element(value: &XmlElement) -> (r: VotingMethodType)
        ensures
            r == voting_method_of(value.text@),
    {
        let t = value.text.as_str();
        if crate::xml::str_equal(t, "AMS") { VotingMethodType::AMS }
        else if crate::xml::str_equal(t, "FPP") { VotingMethodType::FPP }
        else if crate::xml::str_equal(t, "IRV") { VotingMethodType::IRV }
        else if crate::xml::str_equal(t, "OPV") { VotingMethodType::OPV }
        else if crate::xml::str_equal(t, "RCV") { VotingMethodType::RCV }
        else if crate::xml::str_equal(t, "SPV") { VotingMethodType::SPV }
        else if crate::xml::str_equal(t, "STV") { VotingMethodType::STV }
        else if crate::xml::str_equal(t, "NOR") { VotingMethodType::NOR }
        else if crate::xml::str_equal(t, "cumulative") { VotingMethodType::cumulative }
        else if crate::xml::str_equal(t, "approval") { VotingMethodType::approval }
        else if crate::xml::str_equal(t, "block") { VotingMethodType::block }
        else if crate::xml::str_equal(t, "partylist") { VotingMethodType::partylist }
        else if crate::xml::str_equal(t, "partisan") { VotingMethodType::partisan }
        else if crate::xml::str_equal(t, "supplementaryvote") { VotingMethodType::supplementaryvote }
        else { VotingMethodType::other }
    }
}

#[derive(Clone, Copy)]
pub struct VotingValueType;

#[derive(Clone, Copy)]
pub struct WriteInType;

#[derive(Clone, Copy)]
pub struct YesNoType;


// EML v5 complex types
/// The identity of a party or other affiliation.
#[derive(Clone)]
pub struct AffiliationIdentifierStructure {
    pub id: Option<NMTOKEN>,
    pub display_order: Option<PositiveInteger>,
    pub short_code: Option<ShortCodeType>,
    pub expected_confirmation_reference: Option<ConfirmationReferenceType>,
    pub registered_name: Token,
}

pub open spec fn short_code_view(o: Option<ShortCodeType>) -> Option<Seq<char>> {
    match o {
        Some(t) => Some(t.0.0@),
        None => None,
    }
}

pub open spec fn confirmation_view(o: Option<ConfirmationReferenceType>) -> Option<Seq<char>> {
    match o {
        Some(t) => Some(t.0@),
        None => None,
    }
}

pub open spec fn accepts_affiliation_identifier(e: XmlElement) -> bool {
    e.child_named("RegisteredName"@) is Some
}

pub open spec fn reads_affiliation_identifier(x: AffiliationIdentifierStructure, e: XmlElement) -> bool {
    &&& nmtoken_view(x.id) == e.attr_value("Id"@)
    &&& order_of(e.attr_value("DisplayOrder"@), x.display_order)
    &&& short_code_view(x.short_code) == e.attr_value("ShortCode"@)
    &&& confirmation_view(x.expected_confirmation_reference) == e.attr_value("ExpectedConfirmationReference"@)
    &&& Some(x.registered_name.0@) == child_text_of(e, "RegisteredName"@)
}

impl AffiliationIdentifierStructure {
    pub fn from_element(value: &XmlElement) -> (r: Option<AffiliationIdentifierStructure>)
        ensures
            r is Some <==> accepts_affiliation_identifier(*value),
            r matches Some(x) ==> reads_affiliation_identifier(x, *value),
    {
        let registered_name = match value.child_text("RegisteredName") {
            Some(t) => t,
            None => return None,
        };
        let short_code = match value.attr_string("ShortCode") {
            Some(v) => Some(ShortCodeType(NMTOKEN(v))),
            None => None,
        };
        let expected_confirmation_reference = match value.attr_string("ExpectedConfirmationReference") {
            Some(v) => Some(ConfirmationReferenceType(v)),
            None => None,
        };
        Some(AffiliationIdentifierStructure {
            id: nmtoken_of(value.attr_string("Id")),
            display_order: order_from(value.attr_string("DisplayOrder")),
            short_code,
            expected_confirmation_reference,
            registered_name: Token(registered_name),
        })
    }
}

/// A party or other affiliation.
#[derive(Clone)]
pub struct AffiliationStructure {
    pub affiliation_identifier: AffiliationIdentifierStructure,
    pub affiliation_type: Option<Token>,
    pub description: Option<Token>,
    pub logo: Vec<LogoStructure>,
}

pub open spec fn accepts_affiliation(e: XmlElement) -> bool {
    &&& e.child_named("AffiliationIdentifier"@) matches Some(i)
    &&& accepts_affiliation_identifier(i)
}

pub open spec fn reads_affiliation(x: AffiliationStructure, e: XmlElement) -> bool {
    &&& reads_affiliation_identifier(x.affiliation_identifier, e.child_named("AffiliationIdentifier"@).unwrap())
    &&& token_view(x.affiliation_type) == child_text_of(e, "Type"@)
    &&& token_view(x.description) == child_text_of(e, "Description"@)
    &&& x.logo@.len() == e.children_named("Logo"@).len()
}

impl AffiliationStructure {
    pub fn from_element(value: &XmlElement) -> (r: Option<AffiliationStructure>)
        ensures
            r is Some <==> accepts_affiliation(*value),
            r matches Some(x) ==> reads_affiliation(x, *value),
    {
        let ident = match value.get_child_ignore_ns("AffiliationIdentifier") {
            Some(i) => i,
            None => return None,
        };
        let affiliation_identifier = match AffiliationIdentifierStructure::from_element(ident) {
            Some(a) => a,
            None => return None,
        };
        let logos = value.get_children_ignore_ns("Logo");
        let mut logo: Vec<LogoStructure> = Vec::new();
        let n = logos.len();
        let mut i: usize = 0;
        while i < n
            invariant
                n == logos@.len(),
                i <= n,
                logo@.len() == i,
            decreases n - i,
        {
            logo.push(LogoStructure::from_element(logos[i]));
            i = i + 1;
        }
        Some(AffiliationStructure {
            affiliation_identifier,
            affiliation_type: token_of(value.child_text("Type")),
            description: token_of(value.child_text("Description")),
            logo,
        })
    }
}

/// The identity of an agent, with a person-name structure of the caller's choice.
#[derive(Clone)]
pub struct AgentIdentifierStructure<PersonNameStructure> {
    pub id: Option<NMTOKEN>,
    pub display_order: Option<PositiveInteger>,
    pub agent_name: PersonNameStructure,
}

/// An agent, with address and person-name structures of the caller's choice.
#[derive(Clone)]
pub struct AgentStructure<OfficialAddressStructure, PersonNameStructure> {
    pub id: Option<NMTOKEN>,
    pub display_order: Option<PositiveInteger>,
    pub role: Option<Token>,
    pub agent_identifier: AgentIdentifierStructure<PersonNameStructure>,
    pub affiliation: Option<AffiliationStructure>,
    pub official_address: Option<OfficialAddressStructure>,
    pub contact: Option<ContactDetailsStructure>,
}

/// An area a contest is held for.
#[derive(Clone)]
pub struct AreaStructure {
    pub id: Option<NMTOKEN>,
    pub display_order: Option<PositiveInteger>,
    pub area_type: Option<Token>,
    pub text: String,
}

pub open spec fn reads_area(x: AreaStructure, e: XmlElement) -> bool {
    &&& nmtoken_view(x.id) == e.attr_value("Id"@)
    &&& order_of(e.attr_value("DisplayOrder"@), x.display_order)
    &&& token_view(x.area_type) == e.attr_value("Type"@)
    &&& x.text@ == e.text@
}

impl AreaStructure {
    pub fn from_element(value: &XmlElement) -> (r: AreaStructure)
        ensures
            reads_area(r, *value),
    {
        AreaStructure {
            id: nmtoken_of(value.attr_string("Id")),
            display_order: order_from(value.attr_string("DisplayOrder")),
            area_type: token_of(value.attr_string("Type")),
            text: value.text(),
        }
    }
}

/// The position a contest fills.
#[derive(Clone)]
pub struct PositionStructure {
    pub text: String,
}

impl PositionStructure {
    pub fn from_element(value: &XmlElement) -> (r: PositionStructure)
        ensures
            r.text@ == value.text@,
    {
        PositionStructure { text: value.text() }
    }
}

#[derive(Clone, Copy)]
pub struct AuditInformationStructure {}

/// The identity of an electoral authority.
#[derive(Clone)]
pub struct AuthorityIdentifierStructure {
    pub id: String,
    pub text: String,
}

pub open spec fn reads_authority_identifier(x: AuthorityIdentifierStructure, e: XmlElement) -> bool {
    Some(x.id@) == e.attr_value("Id"@) && x.text@ == e.text@
}

impl AuthorityIdentifierStructure {
    pub fn from_element(value: &XmlElement) -> (r: Option<AuthorityIdentifierStructure>)
        ensures
            r is Some <==> value.attr_value("Id"@) is Some,
            r matches Some(x) ==> reads_authority_identifier(x, *value),
    {
        match value.attr_string("Id") {
            Some(id) => Some(AuthorityIdentifierStructure { id, text: value.text() }),
            None => None,
        }
    }
}

#[derive(Clone, Copy)]
pub struct BallotIdentifierStructure {}

#[derive(Clone, Copy)]
pub struct BallotIdentifierRangeStructure {}

#[derive(Clone, Copy)]
pub struct BinaryItemStructure {}

/// The identity of a candidate.
#[derive(Clone)]
pub struct CandidateIdentifierStructure {
    pub id: u32,
    pub candidate_name: Option<String>,
}

pub open spec fn accepts_candidate_identifier(e: XmlElement) -> bool {
    &&& e.attr_value("Id"@) matches Some(t)
    &&& u32_of(t) is Some
}

pub open spec fn reads_candidate_identifier(x: CandidateIdentifierStructure, e: XmlElement) -> bool {
    &&& u32_of(e.attr_value("Id"@).unwrap()) == Some(x.id as int)
    &&& opt_view(x.candidate_name) == child_text_of(e, "CandidateName"@)
}

impl CandidateIdentifierStructure {
    pub fn from_element(value: &XmlElement) -> (r: Option<CandidateIdentifierStructure>)
        ensures
            r is Some <==> accepts_candidate_identifier(*value),
            r matches Some(x) ==> reads_candidate_identifier(x, *value),
    {
        let id = match value.attr("Id") {
            Some(t) => match parse_u32(t) {
                Some(v) => v,
                None => return None,
            },
            None => return None,
        };
        Some(CandidateIdentifierStructure { id, candidate_name: value.child_text("CandidateName") })
    }
}

/// A candidate in a contest.
#[derive(Clone)]
pub struct CandidateStructure {
    pub candidate_identifier: CandidateIdentifierStructure,
    pub gender: Option<String>,
    pub affiliation: Option<AffiliationStructure>,
    pub profession: Option<String>,
}

pub open spec fn accepts_candidate(e: XmlElement) -> bool {
    &&& e.child_named("CandidateIdentifier"@) matches Some(i)
    &&& accepts_candidate_identifier(i)
    &&& (e.child_named("Affiliation"@) matches Some(a) ==> accepts_affiliation(a))
}

pub open spec fn reads_candidate(x: CandidateStructure, e: XmlElement) -> bool {
    &&& reads_candidate_identifier(x.candidate_identifier, e.child_named("CandidateIdentifier"@).unwrap())
    &&& opt_view(x.gender) == child_text_of(e, "Gender"@)
    &&& opt_view(x.profession) == child_text_of(e, "Profession"@)
    &&& match e.child_named("Affiliation"@) {
        Some(a) => x.affiliation matches Some(xa) && reads_affiliation(xa, a),
        None => x.affiliation is None,
    }
}

impl CandidateStructure {
    pub fn from_element(value: &XmlElement) -> (r: Option<CandidateStructure>)
        ensures
            r is Some <==> accepts_candidate(*value),
            r matches Some(x) ==> reads_candidate(x, *value),
    {
        let candidate_identifier = match value.get_child_ignore_ns("CandidateIdentifier") {
            Some(i) => match CandidateIdentifierStructure::from_element(i) {
                Some(c) => c,
                None => return None,
            },
            None => return None,
        };
        let affiliation = match value.get_child_ignore_ns("Affiliation") {
            Some(a) => match AffiliationStructure::from_element(a) {
                Some(x) => Some(x),
                None => return None,
            },
            None => None,
        };
        Some(CandidateStructure {
            candidate_identifier,
            gender: value.child_text("Gender"),
            affiliation,
            profession: value.child_text("Profession"),
        })
    }
}

#[derive(Clone, Copy)]
pub struct ChannelStructure {}

/// The choice of dates in a date range: a single date, an end date, or a
/// start with an optional end.
#[derive(Clone)]
pub enum ComplexDateRangeEnum {
    SingleDate(String),
    End(String),
    StartEnd(String, Option<String>),
}

/// A date range with its type.
#[derive(Clone)]
pub struct ComplexDateRangeStructure {
    pub date_type: String,
    pub choice: ComplexDateRangeEnum,
}

pub open spec fn accepts_date_range(e: XmlElement) -> bool {
    &&& e.attr_value("Type"@) is Some
    &&& (e.child_named("SingleDate"@) is None && e.child_named("End"@) is None ==> e.child_named(
        "Start"@,
    ) is Some)
}

pub open spec fn reads_date_range(x: ComplexDateRangeStructure, e: XmlElement) -> bool {
    &&& Some(x.date_type@) == e.attr_value("Type"@)
    &&& if e.child_named("SingleDate"@) is Some {
        x.choice matches ComplexDateRangeEnum::SingleDate(d) && Some(d@) == child_text_of(e, "SingleDate"@)
    } else if e.child_named("End"@) is Some {
        x.choice matches ComplexDateRangeEnum::End(d) && Some(d@) == child_text_of(e, "End"@)
    } else {
        x.choice matches ComplexDateRangeEnum::StartEnd(s, t) && Some(s@) == child_text_of(e, "Start"@)
            && opt_view(t) == child_text_of(e, "End"@)
    }
}

impl ComplexDateRangeStructure {
    pub fn from_element(value: &XmlElement) -> (r: Option<ComplexDateRangeStructure>)
        ensures
            r is Some <==> accepts_date_range(*value),
            r matches Some(x) ==> reads_date_range(x, *value),
    {
        let date_type = match value.attr_string("Type") {
            Some(t) => t,
            None => return None,
        };
        if let Some(date) = value.get_child_ignore_ns("SingleDate") {
            Some(ComplexDateRangeStructure { date_type, choice: ComplexDateRangeEnum::SingleDate(date.text()) })
        } else if let Some(end_date) = value.get_child_ignore_ns("End") {
            Some(ComplexDateRangeStructure { date_type, choice: ComplexDateRangeEnum::End(end_date.text()) })
        } else {
            let start = match value.child_text("Start") {
                Some(s) => s,
                None => return None,
            };
            Some(ComplexDateRangeStructure {
                date_type,
                choice: ComplexDateRangeEnum::StartEnd(start, value.child_text("End")),
            })
        }
    }
}

#[derive(Clone, Copy)]
pub struct ContactDetailsStructure {}

/// The identity of a contest.
#[derive(Clone)]
pub struct ContestIdentifierStructure {
    pub id: String,
    pub short_code: Option<String>,
    pub contest_name: Option<String>,
}

pub open spec fn reads_contest_identifier(x: ContestIdentifierStructure, e: XmlElement) -> bool {
    &&& Some(x.id@) == e.attr_value("Id"@)
    &&& opt_view(x.short_code) == e.attr_value("ShortCode"@)
    &&& opt_view(x.contest_name) == child_text_of(e, "ContestName"@)
}

impl ContestIdentifierStructure {
    pub fn from_element(value: &XmlElement) -> (r: Option<ContestIdentifierStructure>)
        ensures
            r is Some <==> value.attr_value("Id"@) is Some,
            r matches Some(x) ==> reads_contest_identifier(x, *value),
    {
        let id = match value.attr_string("Id") {
            Some(v) => v,
            None => return None,
        };
        Some(ContestIdentifierStructure {
            id,
            short_code: value.attr_string("ShortCode"),
            contest_name: value.child_text("ContestName"),
        })
    }
}

#[derive(Clone, Copy)]
pub struct CountMetricsStructure {}

#[derive(Clone, Copy)]
pub struct CountQualifierStructure {}

#[derive(Clone, Copy)]
pub struct DocumentIdentifierStructure {}

#[derive(Clone, Copy)]
pub struct ElectionGroupStructure {}

/// The identity of an election.
#[derive(Clone)]
pub struct ElectionIdentifierStructure {
    pub id: String,
    pub election_name: Option<String>,
    pub election_category: Option<String>,
}

pub open spec fn reads_election_identifier(x: ElectionIdentifierStructure, e: XmlElement) -> bool {
    &&& Some(x.id@) == e.attr_value("Id"@)
    &&& opt_view(x.election_name) == child_text_of(e, "ElectionName"@)
    &&& opt_view(x.election_category) == child_text_of(e, "ElectionCategory"@)
}

impl ElectionIdentifierStructure {
    pub fn from_element(value: &XmlElement) -> (r: Option<ElectionIdentifierStructure>)
        ensures
            r is Some <==> value.attr_value("Id"@) is Some,
            r matches Some(x) ==> reads_election_identifier(x, *value),
    {
        let id = match value.attr_string("Id") {
            Some(v) => v,
            None => return None,
        };
        Some(ElectionIdentifierStructure {
            id,
            election_name: value.child_text("ElectionName"),
            election_category: value.child_text("ElectionCategory"),
        })
    }
}

#[derive(Clone, Copy)]
pub struct EmailStructure {}

/// The identity of an election event.
#[derive(Clone)]
pub struct EventIdentifierStructure {
    pub id: Option<String>,
    pub event_name: Option<String>,
}

pub open spec fn reads_event_identifier(x: EventIdentifierStructure, e: XmlElement) -> bool {
    &&& opt_view(x.id) == e.attr_value("Id"@)
    &&& opt_view(x.event_name) == child_text_of(e, "EventName"@)
}

impl EventIdentifierStructure {
    pub fn from_element(value: &XmlElement) -> (r: EventIdentifierStructure)
        ensures
            reads_event_identifier(r, *value),
    {
        let event_name = value.child_text("EventName");
        EventIdentifierStructure { id: value.attr_string("Id"), event_name }
    }
}

#[derive(Clone, Copy)]
pub struct EventQualifierStructure {}

#[derive(Clone, Copy)]
pub struct IncomingGenericCommunicationStructure {}

#[derive(Clone, Copy)]
pub struct InternalGenericCommunicationStructure {}

/// A logo; its content is not read.
#[derive(Clone, Copy)]
pub struct LogoStructure {}

impl LogoStructure {
    pub fn from_element(value: &XmlElement) -> (r: LogoStructure) {
        LogoStructure {  }
    }
}

/// The authority that manages an election, with an address structure of the caller's choice.
#[derive(Clone)]
pub struct ManagingAuthorityStructure<AuthorityAddressStructure> {
    pub authority_identifier: AuthorityIdentifierStructure,
    pub authority_address: AuthorityAddressStructure,
}

pub open spec fn accepts_managing_authority(e: XmlElement) -> bool {
    &&& e.child_named("AuthorityIdentifier"@) matches Some(a)
    &&& a.attr_value("Id"@) is Some
}

pub open spec fn reads_managing_authority<A: Default>(x: ManagingAuthorityStructure<A>, e: XmlElement) -> bool {
    &&& reads_authority_identifier(x.authority_identifier, e.child_named("AuthorityIdentifier"@).unwrap())
    &&& call_ensures(A::default, (), x.authority_address)
}

impl<AuthorityAddressStructure: Default> ManagingAuthorityStructure<AuthorityAddressStructure> {
    /// Reads the authority's identifier; the address is the address type's default.
    pub fn from_element(value: &XmlElement) -> (r: Option<ManagingAuthorityStructure<AuthorityAddressStructure>>)
        ensures
            r is Some <==> accepts_managing_authority(*value),
            r matches Some(x) ==> reads_managing_authority(x, *value),
    {
        let authority_identifier = match value.get_child_ignore_ns("AuthorityIdentifier") {
            Some(a) => match AuthorityIdentifierStructure::from_element(a) {
                Some(x) => x,
                None => return None,
            },
            None => return None,
        };
        Some(ManagingAuthorityStructure { authority_identifier, authority_address: AuthorityAddressStructure::default() })
    }
}

#[derive(Clone, Copy)]
pub struct MessageStructure {}

#[derive(Clone, Copy)]
pub struct NominatingOfficerStructure {}

#[derive(Clone, Copy)]
pub struct OutgoingGenericCommunicationStructure {}

#[derive(Clone, Copy)]
pub struct PeriodStructure {}


/// A polling district (a division) and its polling places.
#[derive(Clone)]
pub struct PollingDistrictStructure {
    pub polling_district_identifier: PollingDistrictIdentifierStructure,
    pub name_derivation: String,
    pub product_industry: String,
    pub location: String,
    pub demographic: String,
    pub area: PositiveInteger,
    pub polling_places: Vec<PollingPlaceStructure>,
}

pub open spec fn accepts_polling_district(e: XmlElement) -> bool {
    &&& e.child_named("PollingDistrictIdentifier"@) matches Some(i)
    &&& accepts_polling_district_identifier(i)
    &&& e.child_named("NameDerivation"@) is Some
    &&& e.child_named("ProductsIndustry"@) is Some
    &&& e.child_named("Location"@) is Some
    &&& e.child_named("Demographic"@) is Some
    &&& e.child_named("Area"@) matches Some(a)
    &&& u32_of(a.text@) is Some
    &&& e.child_named("PollingPlaces"@) matches Some(p)
    &&& forall|k: int|
        0 <= k < p.children_named("PollingPlace"@).len() ==> accepts_polling_place(
            #[trigger] p.children_named("PollingPlace"@)[k],
        )
}

pub open spec fn reads_polling_district(x: PollingDistrictStructure, e: XmlElement) -> bool {
    let places = e.child_named("PollingPlaces"@).unwrap().children_named("PollingPlace"@);
    &&& reads_polling_district_identifier(
        x.polling_district_identifier,
        e.child_named("PollingDistrictIdentifier"@).unwrap(),
    )
    &&& Some(x.name_derivation@) == child_text_of(e, "NameDerivation"@)
    &&& Some(x.product_industry@) == child_text_of(e, "ProductsIndustry"@)
    &&& Some(x.location@) == child_text_of(e, "Location"@)
    &&& Some(x.demographic@) == child_text_of(e, "Demographic"@)
    &&& u32_of(e.child_named("Area"@).unwrap().text@) == Some(x.area.0 as int)
    &&& x.polling_places@.len() == places.len()
    &&& forall|k: int| 0 <= k < places.len() ==> reads_polling_place(#[trigger] x.polling_places@[k], places[k])
}

impl PollingDistrictStructure {
    pub fn from_element(value: &XmlElement) -> (r: Option<PollingDistrictStructure>)
        ensures
            r is Some <==> accepts_polling_district(*value),
            r matches Some(x) ==> reads_polling_district(x, *value),
    {
        let polling_district_identifier = match value.get_child_ignore_ns("PollingDistrictIdentifier") {
            Some(i) => match PollingDistrictIdentifierStructure::from_element(i) {
                Some(x) => x,
                None => return None,
            },
            None => return None,
        };
        let name_derivation = match value.child_text("NameDerivation") {
            Some(t) => t,
            None => return None,
        };
        let product_industry = match value.child_text("ProductsIndustry") {
            Some(t) => t,
            None => return None,
        };
        let location = match value.child_text("Location") {
            Some(t) => t,
            None => return None,
        };
        let demographic = match value.child_text("Demographic") {
            Some(t) => t,
            None => return None,
        };
        let area = match value.child_text("Area") {
            Some(t) => match PositiveInteger::from_string(t) {
                Some(a) => a,
                None => return None,
            },
            None => return None,
        };
        let places_element = match value.get_child_ignore_ns("PollingPlaces") {
            Some(p) => p,
            None => return None,
        };
        let places = places_element.get_children_ignore_ns("PollingPlace");
        let ghost spec_places = places_element.children_named("PollingPlace"@);
        let mut polling_places: Vec<PollingPlaceStructure> = Vec::new();
        let n = places.len();
        let mut i: usize = 0;
        while i < n
            invariant
                value.child_named("PollingPlaces"@) == Some(*places_element),
                spec_places == places_element.children_named("PollingPlace"@),
                n == places@.len(),
                spec_places.len() == n,
                forall|k: int| 0 <= k < n ==> *places@[k] == #[trigger] spec_places[k],
                i <= n,
                polling_places@.len() == i,
                forall|k: int| 0 <= k < i ==> accepts_polling_place(#[trigger] spec_places[k]),
                forall|k: int| 0 <= k < i ==> reads_polling_place(#[trigger] polling_places@[k], spec_places[k]),
            decreases n - i,
        {
            match PollingPlaceStructure::from_element(places[i]) {
                Some(p) => polling_places.push(p),
                None => {
                    assert(!accepts_polling_district(*value)) by {
                        if accepts_polling_district(*value) {
                            let p = value.child_named("PollingPlaces"@).unwrap();
                            assert(accepts_polling_place(p.children_named("PollingPlace"@)[i as int]));
                        }
                    }
                    return None;
                },
            }
            i = i + 1;
        }
        Some(PollingDistrictStructure {
            polling_district_identifier,
            name_derivation,
            product_industry,
            location,
            demographic,
            area,
            polling_places,
        })
    }
}

/// The identity of a polling district.
#[derive(Clone)]
pub struct PollingDistrictIdentifierStructure {
    pub id: u32,
    pub short_code: String,
    pub name: String,
    pub state_identifier: String,
}

pub open spec fn accepts_polling_district_identifier(e: XmlElement) -> bool {
    &&& e.attr_value("Id"@) matches Some(t)
    &&& u32_of(t) is Some
    &&& e.child_named("Name"@) is Some
    &&& e.attr_value("ShortCode"@) is Some
    &&& e.child_named("StateIdentifier"@) matches Some(s)
    &&& s.attr_value("Id"@) is Some
}

pub open spec fn reads_polling_district_identifier(x: PollingDistrictIdentifierStructure, e: XmlElement) -> bool {
    &&& u32_of(e.attr_value("Id"@).unwrap()) == Some(x.id as int)
    &&& Some(x.name@) == child_text_of(e, "Name"@)
    &&& Some(x.short_code@) == e.attr_value("ShortCode"@)
    &&& Some(x.state_identifier@) == e.child_named("StateIdentifier"@).unwrap().attr_value("Id"@)
}

impl PollingDistrictIdentifierStructure {
    pub fn from_element(value: &XmlElement) -> (r: Option<PollingDistrictIdentifierStructure>)
        ensures
            r is Some <==> accepts_polling_district_identifier(*value),
            r matches Some(x) ==> reads_polling_district_identifier(x, *value),
    {
        let id = match value.attr("Id") {
            Some(t) => match parse_u32(t) {
                Some(v) => v,
                None => return None,
            },
            None => return None,
        };
        let name = match value.child_text("Name") {
            Some(t) => t,
            None => return None,
        };
        let short_code = match value.attr_string("ShortCode") {
            Some(t) => t,
            None => return None,
        };
        let state_identifier = match value.get_child_ignore_ns("StateIdentifier") {
            Some(s) => match s.attr_string("Id") {
                Some(t) => t,
                None => return None,
            },
            None => return None,
        };
        Some(PollingDistrictIdentifierStructure { id, short_code, name, state_identifier })
    }
}

/// A polling place: where it is, who it is, and its wheelchair access.
#[derive(Clone)]
pub struct PollingPlaceStructure {
    pub location: PollingPlaceLocation,
    pub identifier: PollingPlaceIdentifierStructure,
    pub wheelchair: Option<WheelChairAccessType>,
    /// The 12-byte object id of the district record the place belongs to; never set when reading.
    pub district: Option<Vec<u8>>,
}

pub open spec fn accepts_polling_place_location(e: XmlElement) -> bool {
    match e.child_named("PhysicalLocation"@) {
        Some(l) => accepts_physical_location(l),
        None => match e.child_named("PostalLocation"@) {
            Some(l) => accepts_physical_location(l),
            None => true,
        },
    }
}

pub open spec fn reads_polling_place_location(x: PollingPlaceLocationEnum, e: XmlElement) -> bool {
    match e.child_named("PhysicalLocation"@) {
        Some(l) => x matches PollingPlaceLocationEnum::Physical(p) && reads_physical_location(p, l),
        None => match e.child_named("PostalLocation"@) {
            Some(l) => x matches PollingPlaceLocationEnum::Postal(p) && reads_physical_location(p, l),
            None => match e.child_named("ElectronicLocation"@) {
                Some(l) => x matches PollingPlaceLocationEnum::Electronic(t) && t.0@ == l.text@,
                None => match e.child_named("OtherLocation"@) {
                    Some(l) => x matches PollingPlaceLocationEnum::Other(t) && t@ == l.text@,
                    None => x matches PollingPlaceLocationEnum::Other(t) && t@.len() == 0,
                },
            },
        },
    }
}

pub open spec fn accepts_polling_place(e: XmlElement) -> bool {
    &&& accepts_polling_place_location(e)
    &&& e.child_named("PollingPlaceIdentifier"@) matches Some(i)
    &&& i.attr_value("Id"@) is Some
}

pub open spec fn reads_polling_place(x: PollingPlaceStructure, e: XmlElement) -> bool {
    &&& reads_polling_place_location(x.location.0, e)
    &&& reads_polling_place_identifier(x.identifier, e.child_named("PollingPlaceIdentifier"@).unwrap())
    &&& match e.child_named("WheelchairAccess"@) {
        Some(w) => x.wheelchair matches Some(a) && a.0@ == w.text@,
        None => x.wheelchair is None,
    }
    &&& x.district is None
}

impl PollingPlaceStructure {
    pub fn from_element(value: &XmlElement) -> (r: Option<PollingPlaceStructure>)
        ensures
            r is Some <==> accepts_polling_place(*value),
            r matches Some(x) ==> reads_polling_place(x, *value),
    {
        let location = if let Some(l) = value.get_child_ignore_ns("PhysicalLocation") {
            match PhysicalLocationStructure::from_element(l) {
                Some(p) => PollingPlaceLocationEnum::Physical(p),
                None => return None,
            }
        } else if let Some(l) = value.get_child_ignore_ns("PostalLocation") {
            match PhysicalLocationStructure::from_element(l) {
                Some(p) => PollingPlaceLocationEnum::Postal(p),
                None => return None,
            }
        } else if let Some(l) = value.get_child_ignore_ns("ElectronicLocation") {
            PollingPlaceLocationEnum::Electronic(Token(l.text()))
        } else if let Some(l) = value.get_child_ignore_ns("OtherLocation") {
            PollingPlaceLocationEnum::Other(l.text())
        } else {
            PollingPlaceLocationEnum::Other(String::new())
        };
        let identifier = match value.get_child_ignore_ns("PollingPlaceIdentifier") {
            Some(i) => match PollingPlaceIdentifierStructure::from_element(i) {
                Some(x) => x,
                None => return None,
            },
            None => return None,
        };
        let wheelchair = match value.get_child_ignore_ns("WheelchairAccess") {
            Some(w) => Some(WheelChairAccessType::from_element(w)),
            None => None,
        };
        Some(PollingPlaceStructure {
            location: PollingPlaceLocation(location),
            identifier,
            wheelchair,
            district: None,
        })
    }
}

#[derive(Clone, Copy)]
pub struct ProcessingUnitStructure {}

#[derive(Clone, Copy)]
pub struct ProposalIdentifierStructure {}

#[derive(Clone, Copy)]
pub struct ProposalStructure {}

#[derive(Clone, Copy)]
pub struct ProposerStructure {}

#[derive(Clone, Copy)]
pub struct ProxyStructure {}

#[derive(Clone, Copy)]
pub struct ReferendumOptionIdentifierStructure {}

#[derive(Clone, Copy)]
pub struct ReportingUnitIdentifierStructure {}

#[derive(Clone, Copy)]
pub struct ResponsibleOfficerStructure {}

#[derive(Clone, Copy)]
pub struct ResultsReportingStructure {}

#[derive(Clone, Copy)]
pub struct ScrutinyRequirementStructure {}

#[derive(Clone, Copy)]
pub struct SealStructure {}

#[derive(Clone, Copy)]
pub struct SimpleDateRangeStructure {}

#[derive(Clone, Copy)]
pub struct TelephoneStructure {}

#[derive(Clone, Copy)]
pub struct VoterIdentificationStructure {}

#[derive(Clone, Copy)]
pub struct VoterInformationStructure {}

#[derive(Clone, Copy)]
pub struct VTokenStructure {}

#[derive(Clone, Copy)]
pub struct VTokenQualifiedStructure {}

} // verus!
