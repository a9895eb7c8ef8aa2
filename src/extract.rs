use vstd::prelude::*;
use xml::reader::XmlEvent;

use crate::text::str_eq;

verus! {

/// One structural event of a nested-element document, with names stripped of
/// any namespace.
#[derive(Debug, Clone)]
pub enum Event {
    /// An element opens, with its attributes as (name, value) pairs.
    Start { name: String, attributes: Vec<(String, String)> },
    /// The innermost open element closes.
    End,
    /// Character data.
    Text(String),
    /// Anything else (document start and end, comments, whitespace).
    Other,
}

/// The events that the document reader produces for a text, or its error message.
pub uninterp spec fn xml_events(text: Seq<char>) -> Result<Seq<Event>, Seq<char>>;

/// Relies on xml::EventReader (xml-rs): the events of `text` in document order,
/// or the message of the first error, which ends the stream.
#[verifier::external_body]
pub(crate) fn read_events(text: &str) -> (r: Result<Vec<Event>, String>)
    ensures
        match r {
            Ok(v) => xml_events(text@) == Ok::<Seq<Event>, Seq<char>>(v@),
            Err(m) => xml_events(text@) == Err::<Seq<Event>, Seq<char>>(m@),
        },
{
    let mut out = Vec::new();
    for e in xml::EventReader::from_str(text) {
        out.push(match e.map_err(|e| e.to_string())? {
            XmlEvent::StartElement { name, attributes, .. } => Event::Start {
                name: name.local_name,
                attributes: attributes.into_iter().map(|a| (a.name.local_name, a.value)).collect(),
            },
            XmlEvent::EndElement { .. } => Event::End,
            XmlEvent::Characters(x) => Event::Text(x),
            _ => Event::Other,
        });
    }
    Ok(out)
}

/// Why a record was rejected.
#[derive(Debug, Clone)]
pub enum ParseError {
    /// The document is malformed; the reader's message.
    Xml(String),
    /// A single-valued position occurred twice; the path where it did.
    AlreadySet(Vec<String>),
    /// A name under the tertiary registration has a kind other than "DGR".
    UnexpectedDgrNameType(String),
    /// The "other name" values and their kind markers differ in number.
    OtherNameCountMismatch,
    /// The replaced flag is neither "Y" nor "N".
    InvalidReplaced(String),
    /// The replaced flag is "Y".
    Replaced,
    /// A required field is absent.
    Missing(Field),
    /// The status code is neither "ACT" nor "CAN".
    UnknownStatus(String),
    /// A date does not parse as year, month and day in eight digits.
    InvalidDate(String),
    /// A secondary-registration number whose kind is not "undetermined".
    UnexpectedAsicNumberType,
    /// A secondary-registration kind without a number.
    AsicNumberTypeWithoutNumber,
    /// The secondary status is absent or not one of "ACT", "CAN", "NON".
    InvalidGstStatus,
    /// Secondary status and its date are not both present or both absent.
    InvalidGstCombo,
    /// The entity-type code is not a known one; the code and its label.
    UnknownEntityType { code: String, label: Option<String> },
    /// An individual-name kind other than "LGL".
    UnexpectedIndividualNameType(String),
    /// Neither an individual name nor a main name of kind "MN".
    UnexpectedNameType,
    /// An "other name" kind that is not "BN", "TRD" or "OTN".
    UnknownNameType(String),
}

/// A required field of a record.
#[derive(Debug, Clone, Copy, PartialEq, Eq, Structural)]
pub enum Field {
    Abn,
    AbnStatus,
    AbnStatusSince,
    LastUpdated,
    EntityTypeId,
    FamilyName,
    NonIndividualName,
}

/// A `ParseError` with its collections seen as sequences.
pub enum ErrorV {
    Xml(Seq<char>),
    AlreadySet(Seq<String>),
    UnexpectedDgrNameType(String),
    OtherNameCountMismatch,
    InvalidReplaced(String),
    Replaced,
    Missing(Field),
    UnknownStatus(String),
    InvalidDate(String),
    UnexpectedAsicNumberType,
    AsicNumberTypeWithoutNumber,
    InvalidGstStatus,
    InvalidGstCombo,
    UnknownEntityType { code: String, label: Option<String> },
    UnexpectedIndividualNameType(String),
    UnexpectedNameType,
    UnknownNameType(String),
}

impl View for ParseError {
    type V = ErrorV;

    open spec fn view(&self) -> ErrorV {
        match self {
            ParseError::Xml(m) => ErrorV::Xml(m@),
            ParseError::AlreadySet(p) => ErrorV::AlreadySet(p@),
            ParseError::UnexpectedDgrNameType(v) => ErrorV::UnexpectedDgrNameType(*v),
            ParseError::OtherNameCountMismatch => ErrorV::OtherNameCountMismatch,
            ParseError::InvalidReplaced(v) => ErrorV::InvalidReplaced(*v),
            ParseError::Replaced => ErrorV::Replaced,
            ParseError::Missing(f) => ErrorV::Missing(*f),
            ParseError::UnknownStatus(v) => ErrorV::UnknownStatus(*v),
            ParseError::InvalidDate(v) => ErrorV::InvalidDate(*v),
            ParseError::UnexpectedAsicNumberType => ErrorV::UnexpectedAsicNumberType,
            ParseError::AsicNumberTypeWithoutNumber => ErrorV::AsicNumberTypeWithoutNumber,
            ParseError::InvalidGstStatus => ErrorV::InvalidGstStatus,
            ParseError::InvalidGstCombo => ErrorV::InvalidGstCombo,
            ParseError::UnknownEntityType { code, label } => ErrorV::UnknownEntityType {
                code: *code,
                label: *label,
            },
            ParseError::UnexpectedIndividualNameType(v) => ErrorV::UnexpectedIndividualNameType(*v),
            ParseError::UnexpectedNameType => ErrorV::UnexpectedNameType,
            ParseError::UnknownNameType(v) => ErrorV::UnknownNameType(*v),
        }
    }
}

/// The raw values gathered from one record while its events are walked.
#[derive(Debug, Default)]
pub struct Helper {
    /// Names of the open elements, outermost first.
    pub path: Vec<String>,
    pub last_updated: Option<String>,
    pub replaced: Option<String>,
    pub abn: Option<String>,
    pub abn_status: Option<String>,
    pub abn_status_since: Option<String>,
    pub entity_type: Option<String>,
    pub entity_type_id: Option<String>,
    pub individual_name_title: Option<String>,
    pub individual_name_given_1: Option<String>,
    pub individual_name_given_2: Option<String>,
    pub individual_name_family: Option<String>,
    pub individual_name_type: Option<String>,
    pub non_individual_name: Option<String>,
    pub non_individual_name_type: Option<String>,
    pub state: Option<String>,
    pub postcode: Option<String>,
    pub asic_number: Option<String>,
    pub asic_number_type: Option<String>,
    pub gst_status: Option<String>,
    pub gst_status_since: Option<String>,
    pub other_names: Vec<String>,
    pub other_name_types: Vec<String>,
    pub dgr_dates: Vec<String>,
    pub dgr_names: Vec<String>,
}

/// A `Helper` with its collections seen as sequences.
pub struct FieldsV {
    pub path: Seq<String>,
    pub last_updated: Option<String>,
    pub replaced: Option<String>,
    pub abn: Option<String>,
    pub abn_status: Option<String>,
    pub abn_status_since: Option<String>,
    pub entity_type: Option<String>,
    pub entity_type_id: Option<String>,
    pub individual_name_title: Option<String>,
    pub individual_name_given_1: Option<String>,
    pub individual_name_given_2: Option<String>,
    pub individual_name_family: Option<String>,
    pub individual_name_type: Option<String>,
    pub non_individual_name: Option<String>,
    pub non_individual_name_type: Option<String>,
    pub state: Option<String>,
    pub postcode: Option<String>,
    pub asic_number: Option<String>,
    pub asic_number_type: Option<String>,
    pub gst_status: Option<String>,
    pub gst_status_since: Option<String>,
    pub other_names: Seq<String>,
    pub other_name_types: Seq<String>,
    pub dgr_dates: Seq<String>,
    pub dgr_names: Seq<String>,
}

impl View for Helper {
    type V = FieldsV;

    open spec fn view(&self) -> FieldsV {
        FieldsV {
            path: self.path@,
            last_updated: self.last_updated,
            replaced: self.replaced,
            abn: self.abn,
            abn_status: self.abn_status,
            abn_status_since: self.abn_status_since,
            entity_type: self.entity_type,
            entity_type_id: self.entity_type_id,
            individual_name_title: self.individual_name_title,
            individual_name_given_1: self.individual_name_given_1,
            individual_name_given_2: self.individual_name_given_2,
            individual_name_family: self.individual_name_family,
            individual_name_type: self.individual_name_type,
            non_individual_name: self.non_individual_name,
            non_individual_name_type: self.non_individual_name_type,
            state: self.state,
            postcode: self.postcode,
            asic_number: self.asic_number,
            asic_number_type: self.asic_number_type,
            gst_status: self.gst_status,
            gst_status_since: self.gst_status_since,
            other_names: self.other_names@,
            other_name_types: self.other_name_types@,
            dgr_dates: self.dgr_dates@,
            dgr_names: self.dgr_names@,
        }
    }
}

/// The accumulator before any event.
pub open spec fn empty_fields() -> FieldsV {
    FieldsV {
        path: Seq::empty(),
        last_updated: None,
        replaced: None,
        abn: None,
        abn_status: None,
        abn_status_since: None,
        entity_type: None,
        entity_type_id: None,
        individual_name_title: None,
        individual_name_given_1: None,
        individual_name_given_2: None,
        individual_name_family: None,
        individual_name_type: None,
        non_individual_name: None,
        non_individual_name_type: None,
        state: None,
        postcode: None,
        asic_number: None,
        asic_number_type: None,
        gst_status: None,
        gst_status_since: None,
        other_names: Seq::empty(),
        other_name_types: Seq::empty(),
        dgr_dates: Seq::empty(),
        dgr_names: Seq::empty(),
    }
}

/// The open elements are exactly the 1 given names.
pub open spec fn path1(p: Seq<String>, n0: Seq<char>) -> bool {
    p.len() == 1 && p[0]@ == n0
}

/// The open elements are exactly the 2 given names.
pub open spec fn path2(p: Seq<String>, n0: Seq<char>, n1: Seq<char>) -> bool {
    p.len() == 2 && p[0]@ == n0 && p[1]@ == n1
}

/// The open elements are exactly the 3 given names.
pub open spec fn path3(p: Seq<String>, n0: Seq<char>, n1: Seq<char>, n2: Seq<char>) -> bool {
    p.len() == 3 && p[0]@ == n0 && p[1]@ == n1 && p[2]@ == n2
}

/// The open elements are exactly the 4 given names.
pub open spec fn path4(p: Seq<String>, n0: Seq<char>, n1: Seq<char>, n2: Seq<char>, n3: Seq<char>) -> bool {
    p.len() == 4 && p[0]@ == n0 && p[1]@ == n1 && p[2]@ == n2 && p[3]@ == n3
}

/// The open elements are exactly the 5 given names.
pub open spec fn path5(p: Seq<String>, n0: Seq<char>, n1: Seq<char>, n2: Seq<char>, n3: Seq<char>, n4: Seq<char>) -> bool {
    p.len() == 5 && p[0]@ == n0 && p[1]@ == n1 && p[2]@ == n2 && p[3]@ == n3 && p[4]@ == n4
}

/// Whether segment `i` of the path is `name`.
fn segment_is(path: &Vec<String>, i: usize, name: &str) -> (r: bool)
    ensures
        r == (i < path@.len() && path@[i as int]@ == name@),
{
    i < path.len() && str_eq(path[i].as_str(), name)
}

fn at_path1(path: &Vec<String>, n0: &str) -> (r: bool)
    ensures
        r == path1(path@, n0@),
{
    path.len() == 1 && segment_is(path, 0, n0)
}

fn at_path2(path: &Vec<String>, n0: &str, n1: &str) -> (r: bool)
    ensures
        r == path2(path@, n0@, n1@),
{
    path.len() == 2 && segment_is(path, 0, n0) && segment_is(path, 1, n1)
}

fn at_path3(path: &Vec<String>, n0: &str, n1: &str, n2: &str) -> (r: bool)
    ensures
        r == path3(path@, n0@, n1@, n2@),
{
    path.len() == 3 && segment_is(path, 0, n0) && segment_is(path, 1, n1) && segment_is(path, 2, n2)
}

fn at_path4(path: &Vec<String>, n0: &str, n1: &str, n2: &str, n3: &str) -> (r: bool)
    ensures
        r == path4(path@, n0@, n1@, n2@, n3@),
{
    path.len() == 4 && segment_is(path, 0, n0) && segment_is(path, 1, n1) && segment_is(path, 2, n2) && segment_is(path, 3, n3)
}

fn at_path5(path: &Vec<String>, n0: &str, n1: &str, n2: &str, n3: &str, n4: &str) -> (r: bool)
    ensures
        r == path5(path@, n0@, n1@, n2@, n3@, n4@),
{
    path.len() == 5 && segment_is(path, 0, n0) && segment_is(path, 1, n1) && segment_is(path, 2, n2) && segment_is(path, 3, n3) && segment_is(path, 4, n4)
}

/// Where character data goes, by the path it stands at.
#[derive(Debug, Clone, Copy, PartialEq, Eq, Structural)]
pub enum TextSlot {
    Abn,
    EntityTypeInd,
    EntityTypeText,
    NameTitle,
    GivenName,
    FamilyName,
    State,
    Postcode,
    NonIndividualName,
    OtherName,
    DgrName,
    AsicNumber,
    Unhandled,
}

/// Where an attribute value goes, by the path and the attribute's name.
#[derive(Debug, Clone, Copy, PartialEq, Eq, Structural)]
pub enum AttrSlot {
    LastUpdated,
    Replaced,
    AbnStatus,
    AbnStatusSince,
    IndividualNameType,
    NonIndividualNameType,
    OtherNameType,
    GstStatus,
    GstStatusSince,
    AsicNumberType,
    DgrDate,
    DgrNameType,
    Unhandled,
}

/// The routing table for character data.
pub open spec fn text_slot_of(p: Seq<String>) -> TextSlot {
    if path2(p, "ABR"@, "ABN"@) {
        TextSlot::Abn
    } else if path3(p, "ABR"@, "EntityType"@, "EntityTypeInd"@) {
        TextSlot::EntityTypeInd
    } else if path3(p, "ABR"@, "EntityType"@, "EntityTypeText"@) {
        TextSlot::EntityTypeText
    } else if path4(p, "ABR"@, "LegalEntity"@, "IndividualName"@, "NameTitle"@) {
        TextSlot::NameTitle
    } else if path4(p, "ABR"@, "LegalEntity"@, "IndividualName"@, "GivenName"@) {
        TextSlot::GivenName
    } else if path4(p, "ABR"@, "LegalEntity"@, "IndividualName"@, "FamilyName"@) {
        TextSlot::FamilyName
    } else if path5(p, "ABR"@, "MainEntity"@, "BusinessAddress"@, "AddressDetails"@, "State"@) {
        TextSlot::State
    } else if path5(p, "ABR"@, "LegalEntity"@, "BusinessAddress"@, "AddressDetails"@, "State"@) {
        TextSlot::State
    } else if path5(p, "ABR"@, "MainEntity"@, "BusinessAddress"@, "AddressDetails"@, "Postcode"@) {
        TextSlot::Postcode
    } else if path5(p, "ABR"@, "LegalEntity"@, "BusinessAddress"@, "AddressDetails"@, "Postcode"@) {
        TextSlot::Postcode
    } else if path4(p, "ABR"@, "MainEntity"@, "NonIndividualName"@, "NonIndividualNameText"@) {
        TextSlot::NonIndividualName
    } else if path4(p, "ABR"@, "OtherEntity"@, "NonIndividualName"@, "NonIndividualNameText"@) {
        TextSlot::OtherName
    } else if path4(p, "ABR"@, "DGR"@, "NonIndividualName"@, "NonIndividualNameText"@) {
        TextSlot::DgrName
    } else if path2(p, "ABR"@, "ASICNumber"@) {
        TextSlot::AsicNumber
    } else {
        TextSlot::Unhandled
    }
}

/// The routing table for attributes.
pub open spec fn attr_slot_of(p: Seq<String>, key: Seq<char>) -> AttrSlot {
    if path1(p, "ABR"@) && key == "recordLastUpdatedDate"@ {
        AttrSlot::LastUpdated
    } else if path1(p, "ABR"@) && key == "replaced"@ {
        AttrSlot::Replaced
    } else if path2(p, "ABR"@, "ABN"@) && key == "status"@ {
        AttrSlot::AbnStatus
    } else if path2(p, "ABR"@, "ABN"@) && key == "ABNStatusFromDate"@ {
        AttrSlot::AbnStatusSince
    } else if path3(p, "ABR"@, "LegalEntity"@, "IndividualName"@) && key == "type"@ {
        AttrSlot::IndividualNameType
    } else if path3(p, "ABR"@, "MainEntity"@, "NonIndividualName"@) && key == "type"@ {
        AttrSlot::NonIndividualNameType
    } else if path3(p, "ABR"@, "OtherEntity"@, "NonIndividualName"@) && key == "type"@ {
        AttrSlot::OtherNameType
    } else if path2(p, "ABR"@, "GST"@) && key == "status"@ {
        AttrSlot::GstStatus
    } else if path2(p, "ABR"@, "GST"@) && key == "GSTStatusFromDate"@ {
        AttrSlot::GstStatusSince
    } else if path2(p, "ABR"@, "ASICNumber"@) && key == "ASICNumberType"@ {
        AttrSlot::AsicNumberType
    } else if path2(p, "ABR"@, "DGR"@) && key == "DGRStatusFromDate"@ {
        AttrSlot::DgrDate
    } else if path3(p, "ABR"@, "DGR"@, "NonIndividualName"@) && key == "type"@ {
        AttrSlot::DgrNameType
    } else {
        AttrSlot::Unhandled
    }
}

fn text_slot(path: &Vec<String>) -> (r: TextSlot)
    ensures
        r == text_slot_of(path@),
{
    if at_path2(path, "ABR", "ABN") {
        TextSlot::Abn
    } else if at_path3(path, "ABR", "EntityType", "EntityTypeInd") {
        TextSlot::EntityTypeInd
    } else if at_path3(path, "ABR", "EntityType", "EntityTypeText") {
        TextSlot::EntityTypeText
    } else if at_path4(path, "ABR", "LegalEntity", "IndividualName", "NameTitle") {
        TextSlot::NameTitle
    } else if at_path4(path, "ABR", "LegalEntity", "IndividualName", "GivenName") {
        TextSlot::GivenName
    } else if at_path4(path, "ABR", "LegalEntity", "IndividualName", "FamilyName") {
        TextSlot::FamilyName
    } else if at_path5(path, "ABR", "MainEntity", "BusinessAddress", "AddressDetails", "State") {
        TextSlot::State
    } else if at_path5(path, "ABR", "LegalEntity", "BusinessAddress", "AddressDetails", "State") {
        TextSlot::State
    } else if at_path5(path, "ABR", "MainEntity", "BusinessAddress", "AddressDetails", "Postcode") {
        TextSlot::Postcode
    } else if at_path5(path, "ABR", "LegalEntity", "BusinessAddress", "AddressDetails", "Postcode") {
        TextSlot::Postcode
    } else if at_path4(path, "ABR", "MainEntity", "NonIndividualName", "NonIndividualNameText") {
        TextSlot::NonIndividualName
    } else if at_path4(path, "ABR", "OtherEntity", "NonIndividualName", "NonIndividualNameText") {
        TextSlot::OtherName
    } else if at_path4(path, "ABR", "DGR", "NonIndividualName", "NonIndividualNameText") {
        TextSlot::DgrName
    } else if at_path2(path, "ABR", "ASICNumber") {
        TextSlot::AsicNumber
    } else {
        TextSlot::Unhandled
    }
}

fn attr_slot(path: &Vec<String>, key: &str) -> (r: AttrSlot)
    ensures
        r == attr_slot_of(path@, key@),
{
    if at_path1(path, "ABR") && str_eq(key, "recordLastUpdatedDate") {
        AttrSlot::LastUpdated
    } else if at_path1(path, "ABR") && str_eq(key, "replaced") {
        AttrSlot::Replaced
    } else if at_path2(path, "ABR", "ABN") && str_eq(key, "status") {
        AttrSlot::AbnStatus
    } else if at_path2(path, "ABR", "ABN") && str_eq(key, "ABNStatusFromDate") {
        AttrSlot::AbnStatusSince
    } else if at_path3(path, "ABR", "LegalEntity", "IndividualName") && str_eq(key, "type") {
        AttrSlot::IndividualNameType
    } else if at_path3(path, "ABR", "MainEntity", "NonIndividualName") && str_eq(key, "type") {
        AttrSlot::NonIndividualNameType
    } else if at_path3(path, "ABR", "OtherEntity", "NonIndividualName") && str_eq(key, "type") {
        AttrSlot::OtherNameType
    } else if at_path2(path, "ABR", "GST") && str_eq(key, "status") {
        AttrSlot::GstStatus
    } else if at_path2(path, "ABR", "GST") && str_eq(key, "GSTStatusFromDate") {
        AttrSlot::GstStatusSince
    } else if at_path2(path, "ABR", "ASICNumber") && str_eq(key, "ASICNumberType") {
        AttrSlot::AsicNumberType
    } else if at_path2(path, "ABR", "DGR") && str_eq(key, "DGRStatusFromDate") {
        AttrSlot::DgrDate
    } else if at_path3(path, "ABR", "DGR", "NonIndividualName") && str_eq(key, "type") {
        AttrSlot::DgrNameType
    } else {
        AttrSlot::Unhandled
    }
}

/// Assigns a single-valued field; a second assignment is refused and leaves
/// the field as it was.
pub fn set<T>(o: &mut Option<T>, x: T) -> (r: Result<(), ()>)
    ensures
        (*old(o)) is Some ==> r is Err && *final(o) == *old(o),
        (*old(o)) is None ==> r is Ok && *final(o) == Some(x),
{
    if o.is_some() {
        return Err(());
    }
    *o = Some(x);
    Ok(())
}

/// Character data `x` at the current path, written into the accumulator.
/// The first "given name" goes to the first slot, every later one to the second.
pub open spec fn apply_text(f: FieldsV, x: String) -> Result<FieldsV, ErrorV> {
    match text_slot_of(f.path) {
        TextSlot::Abn => if f.abn is Some {
            Err(ErrorV::AlreadySet(f.path))
        } else {
            Ok(FieldsV { abn: Some(x), ..f })
        },
        TextSlot::EntityTypeInd => if f.entity_type_id is Some {
            Err(ErrorV::AlreadySet(f.path))
        } else {
            Ok(FieldsV { entity_type_id: Some(x), ..f })
        },
        TextSlot::EntityTypeText => if f.entity_type is Some {
            Err(ErrorV::AlreadySet(f.path))
        } else {
            Ok(FieldsV { entity_type: Some(x), ..f })
        },
        TextSlot::NameTitle => if f.individual_name_title is Some {
            Err(ErrorV::AlreadySet(f.path))
        } else {
            Ok(FieldsV { individual_name_title: Some(x), ..f })
        },
        TextSlot::FamilyName => if f.individual_name_family is Some {
            Err(ErrorV::AlreadySet(f.path))
        } else {
            Ok(FieldsV { individual_name_family: Some(x), ..f })
        },
        TextSlot::State => if f.state is Some {
            Err(ErrorV::AlreadySet(f.path))
        } else {
            Ok(FieldsV { state: Some(x), ..f })
        },
        TextSlot::Postcode => if f.postcode is Some {
            Err(ErrorV::AlreadySet(f.path))
        } else {
            Ok(FieldsV { postcode: Some(x), ..f })
        },
        TextSlot::NonIndividualName => if f.non_individual_name is Some {
            Err(ErrorV::AlreadySet(f.path))
        } else {
            Ok(FieldsV { non_individual_name: Some(x), ..f })
        },
        TextSlot::OtherName => Ok(FieldsV { other_names: f.other_names.push(x), ..f }),
        TextSlot::DgrName => Ok(FieldsV { dgr_names: f.dgr_names.push(x), ..f }),
        TextSlot::AsicNumber => if f.asic_number is Some {
            Err(ErrorV::AlreadySet(f.path))
        } else {
            Ok(FieldsV { asic_number: Some(x), ..f })
        },
        TextSlot::GivenName => if f.individual_name_given_1 is None {
            Ok(FieldsV { individual_name_given_1: Some(x), ..f })
        } else if f.individual_name_given_2 is Some {
            Err(ErrorV::AlreadySet(f.path))
        } else {
            Ok(FieldsV { individual_name_given_2: Some(x), ..f })
        },
        TextSlot::Unhandled => Ok(f),
    }
}

/// Attribute `key` = `v` of the element at the current path, written into the
/// accumulator.
pub open spec fn apply_attr(f: FieldsV, key: Seq<char>, v: String) -> Result<FieldsV, ErrorV> {
    match attr_slot_of(f.path, key) {
        AttrSlot::LastUpdated => if f.last_updated is Some {
            Err(ErrorV::AlreadySet(f.path))
        } else {
            Ok(FieldsV { last_updated: Some(v), ..f })
        },
        AttrSlot::Replaced => if f.replaced is Some {
            Err(ErrorV::AlreadySet(f.path))
        } else {
            Ok(FieldsV { replaced: Some(v), ..f })
        },
        AttrSlot::AbnStatus => if f.abn_status is Some {
            Err(ErrorV::AlreadySet(f.path))
        } else {
            Ok(FieldsV { abn_status: Some(v), ..f })
        },
        AttrSlot::AbnStatusSince => if f.abn_status_since is Some {
            Err(ErrorV::AlreadySet(f.path))
        } else {
            Ok(FieldsV { abn_status_since: Some(v), ..f })
        },
        AttrSlot::IndividualNameType => if f.individual_name_type is Some {
            Err(ErrorV::AlreadySet(f.path))
        } else {
            Ok(FieldsV { individual_name_type: Some(v), ..f })
        },
        AttrSlot::NonIndividualNameType => if f.non_individual_name_type is Some {
            Err(ErrorV::AlreadySet(f.path))
        } else {
            Ok(FieldsV { non_individual_name_type: Some(v), ..f })
        },
        AttrSlot::OtherNameType => Ok(FieldsV { other_name_types: f.other_name_types.push(v), ..f }),
        AttrSlot::GstStatus => if f.gst_status is Some {
            Err(ErrorV::AlreadySet(f.path))
        } else {
            Ok(FieldsV { gst_status: Some(v), ..f })
        },
        AttrSlot::GstStatusSince => if f.gst_status_since is Some {
            Err(ErrorV::AlreadySet(f.path))
        } else {
            Ok(FieldsV { gst_status_since: Some(v), ..f })
        },
        AttrSlot::AsicNumberType => if f.asic_number_type is Some {
            Err(ErrorV::AlreadySet(f.path))
        } else {
            Ok(FieldsV { asic_number_type: Some(v), ..f })
        },
        AttrSlot::DgrDate => Ok(FieldsV { dgr_dates: f.dgr_dates.push(v), ..f }),
        AttrSlot::DgrNameType => if v@ == "DGR"@ {
            Ok(f)
        } else {
            Err(ErrorV::UnexpectedDgrNameType(v))
        },
        AttrSlot::Unhandled => Ok(f),
    }
}

/// The attributes of an opening element, applied in order.
pub open spec fn apply_attrs(f: FieldsV, attrs: Seq<(String, String)>) -> Result<FieldsV, ErrorV>
    decreases attrs.len(),
{
    if attrs.len() == 0 {
        Ok(f)
    } else {
        match apply_attrs(f, attrs.drop_last()) {
            Ok(g) => apply_attr(g, attrs.last().0@, attrs.last().1),
            Err(e) => Err(e),
        }
    }
}

/// One event applied to the accumulator.
pub open spec fn step(f: FieldsV, e: Event) -> Result<FieldsV, ErrorV> {
    match e {
        Event::Start { name, attributes } => apply_attrs(
            FieldsV { path: f.path.push(name), ..f },
            attributes@,
        ),
        Event::End => if f.path.len() > 0 {
            Ok(FieldsV { path: f.path.drop_last(), ..f })
        } else {
            Ok(f)
        },
        Event::Text(x) => apply_text(f, x),
        Event::Other => Ok(f),
    }
}

/// The events applied in order, from the given accumulator.
pub open spec fn run(f: FieldsV, events: Seq<Event>) -> Result<FieldsV, ErrorV>
    decreases events.len(),
{
    if events.len() == 0 {
        Ok(f)
    } else {
        match run(f, events.drop_last()) {
            Ok(g) => step(g, events.last()),
            Err(e) => Err(e),
        }
    }
}

/// The accumulator for a whole record: all events applied to an empty one,
/// after which every "other name" must have its kind marker.
pub open spec fn extracted(events: Seq<Event>) -> Result<FieldsV, ErrorV> {
    match run(empty_fields(), events) {
        Ok(f) => if f.other_names.len() == f.other_name_types.len() {
            Ok(f)
        } else {
            Err(ErrorV::OtherNameCountMismatch)
        },
        Err(e) => Err(e),
    }
}

/// What a single-valued text position already holds; none for positions that
/// collect values or are ignored. A "given name" is held once both slots are.
pub open spec fn held_at(f: FieldsV, s: TextSlot) -> Option<Option<String>> {
    match s {
        TextSlot::Abn => Some(f.abn),
        TextSlot::EntityTypeInd => Some(f.entity_type_id),
        TextSlot::EntityTypeText => Some(f.entity_type),
        TextSlot::NameTitle => Some(f.individual_name_title),
        TextSlot::FamilyName => Some(f.individual_name_family),
        TextSlot::State => Some(f.state),
        TextSlot::Postcode => Some(f.postcode),
        TextSlot::NonIndividualName => Some(f.non_individual_name),
        TextSlot::AsicNumber => Some(f.asic_number),
        TextSlot::GivenName => Some(
            if f.individual_name_given_1 is Some {
                f.individual_name_given_2
            } else {
                None
            },
        ),
        _ => None,
    }
}

impl Helper {
    /// An accumulator with nothing gathered yet.
    pub fn new() -> (r: Helper)
        ensures
            r@ == empty_fields(),
    {
        Helper {
            path: Vec::new(),
            last_updated: None,
            replaced: None,
            abn: None,
            abn_status: None,
            abn_status_since: None,
            entity_type: None,
            entity_type_id: None,
            individual_name_title: None,
            individual_name_given_1: None,
            individual_name_given_2: None,
            individual_name_family: None,
            individual_name_type: None,
            non_individual_name: None,
            non_individual_name_type: None,
            state: None,
            postcode: None,
            asic_number: None,
            asic_number_type: None,
            gst_status: None,
            gst_status_since: None,
            other_names: Vec::new(),
            other_name_types: Vec::new(),
            dgr_dates: Vec::new(),
            dgr_names: Vec::new(),
        }
    }

    /// A copy of the names of the open elements, outermost first.
    pub fn path(&self) -> (r: Vec<String>)
        ensures
            r@ == self.path@,
    {
        let mut r: Vec<String> = Vec::new();
        let mut i: usize = 0;
        while i < self.path.len()
            invariant
                i <= self.path@.len(),
                r@ == self.path@.subrange(0, i as int),
            decreases self.path@.len() - i,
        {
            r.push(self.path[i].clone());
            i = i + 1;
        }
        assert(r@ =~= self.path@);
        r
    }

    fn handle_text(&mut self, x: String) -> (r: Result<(), ParseError>)
        ensures
            match apply_text(old(self)@, x) {
                Ok(f) => r is Ok && final(self)@ == f,
                Err(e) => r matches Err(err) && err@ == e,
            },
    {
        match text_slot(&self.path) {
            TextSlot::Abn => {
                if set(&mut self.abn, x).is_err() {
                    return Err(ParseError::AlreadySet(self.path()));
                }
            },
            TextSlot::EntityTypeInd => {
                if set(&mut self.entity_type_id, x).is_err() {
                    return Err(ParseError::AlreadySet(self.path()));
                }
            },
            TextSlot::EntityTypeText => {
                if set(&mut self.entity_type, x).is_err() {
                    return Err(ParseError::AlreadySet(self.path()));
                }
            },
            TextSlot::NameTitle => {
                if set(&mut self.individual_name_title, x).is_err() {
                    return Err(ParseError::AlreadySet(self.path()));
                }
            },
            TextSlot::FamilyName => {
                if set(&mut self.individual_name_family, x).is_err() {
                    return Err(ParseError::AlreadySet(self.path()));
                }
            },
            TextSlot::State => {
                if set(&mut self.state, x).is_err() {
                    return Err(ParseError::AlreadySet(self.path()));
                }
            },
            TextSlot::Postcode => {
                if set(&mut self.postcode, x).is_err() {
                    return Err(ParseError::AlreadySet(self.path()));
                }
            },
            TextSlot::NonIndividualName => {
                if set(&mut self.non_individual_name, x).is_err() {
                    return Err(ParseError::AlreadySet(self.path()));
                }
            },
            TextSlot::OtherName => self.other_names.push(x),
            TextSlot::DgrName => self.dgr_names.push(x),
            TextSlot::AsicNumber => {
                if set(&mut self.asic_number, x).is_err() {
                    return Err(ParseError::AlreadySet(self.path()));
                }
            },
            TextSlot::GivenName => {
                if self.individual_name_given_1.is_none() {
                    self.individual_name_given_1 = Some(x);
                } else if set(&mut self.individual_name_given_2, x).is_err() {
                    return Err(ParseError::AlreadySet(self.path()));
                }
            },
            TextSlot::Unhandled => {},
        }
        Ok(())
    }

    fn handle_attr(&mut self, key: &str, v: String) -> (r: Result<(), ParseError>)
        ensures
            match apply_attr(old(self)@, key@, v) {
                Ok(f) => r is Ok && final(self)@ == f,
                Err(e) => r matches Err(err) && err@ == e,
            },
    {
        match attr_slot(&self.path, key) {
            AttrSlot::LastUpdated => {
                if set(&mut self.last_updated, v).is_err() {
                    return Err(ParseError::AlreadySet(self.path()));
                }
            },
            AttrSlot::Replaced => {
                if set(&mut self.replaced, v).is_err() {
                    return Err(ParseError::AlreadySet(self.path()));
                }
            },
            AttrSlot::AbnStatus => {
                if set(&mut self.abn_status, v).is_err() {
                    return Err(ParseError::AlreadySet(self.path()));
                }
            },
            AttrSlot::AbnStatusSince => {
                if set(&mut self.abn_status_since, v).is_err() {
                    return Err(ParseError::AlreadySet(self.path()));
                }
            },
            AttrSlot::IndividualNameType => {
                if set(&mut self.individual_name_type, v).is_err() {
                    return Err(ParseError::AlreadySet(self.path()));
                }
            },
            AttrSlot::NonIndividualNameType => {
                if set(&mut self.non_individual_name_type, v).is_err() {
                    return Err(ParseError::AlreadySet(self.path()));
                }
            },
            AttrSlot::OtherNameType => self.other_name_types.push(v),
            AttrSlot::GstStatus => {
                if set(&mut self.gst_status, v).is_err() {
                    return Err(ParseError::AlreadySet(self.path()));
                }
            },
            AttrSlot::GstStatusSince => {
                if set(&mut self.gst_status_since, v).is_err() {
                    return Err(ParseError::AlreadySet(self.path()));
                }
            },
            AttrSlot::AsicNumberType => {
                if set(&mut self.asic_number_type, v).is_err() {
                    return Err(ParseError::AlreadySet(self.path()));
                }
            },
            AttrSlot::DgrDate => self.dgr_dates.push(v),
            AttrSlot::DgrNameType => {
                if !str_eq(v.as_str(), "DGR") {
                    return Err(ParseError::UnexpectedDgrNameType(v));
                }
            },
            AttrSlot::Unhandled => {},
        }
        Ok(())
    }

    /// Applies the attributes of the element just opened, in order.
    pub fn handle_attrs(&mut self, attrs: &Vec<(String, String)>) -> (r: Result<(), ParseError>)
        ensures
            match apply_attrs(old(self)@, attrs@) {
                Ok(f) => r is Ok && final(self)@ == f,
                Err(e) => r matches Err(err) && err@ == e,
            },
    {
        let mut i: usize = 0;
        while i < attrs.len()
            invariant
                i <= attrs@.len(),
                apply_attrs(old(self)@, attrs@.subrange(0, i as int)) == Ok::<FieldsV, ErrorV>(self@),
            decreases attrs@.len() - i,
        {
            let (k, v) = &attrs[i];
            proof {
                assert(attrs@.subrange(0, i + 1).drop_last() =~= attrs@.subrange(0, i as int));
            }
            let r = self.handle_attr(k.as_str(), v.clone());
            if r.is_err() {
                proof {
                    lemma_attrs_err_extends(old(self)@, attrs@, i + 1);
                }
                return r;
            }
            i = i + 1;
        }
        assert(attrs@.subrange(0, attrs@.len() as int) =~= attrs@);
        Ok(())
    }

    /// Applies one event: an opening element enters its name and routes its
    /// attributes, a closing one leaves, character data is routed by the path.
    pub fn handle(&mut self, e: &Event) -> (r: Result<(), ParseError>)
        ensures
            match step(old(self)@, *e) {
                Ok(f) => r is Ok && final(self)@ == f,
                Err(err) => r matches Err(x) && x@ == err,
            },
    {
        match e {
            Event::Start { name, attributes } => {
                self.path.push(name.clone());
                self.handle_attrs(attributes)
            },
            Event::End => {
                self.path.pop();
                Ok(())
            },
            Event::Text(x) => self.handle_text(x.clone()),
            Event::Other => Ok(()),
        }
    }
}

/// Walks the events of one record into an accumulator.
pub fn extract(events: &Vec<Event>) -> (r: Result<Helper, ParseError>)
    ensures
        match extracted(events@) {
            Ok(f) => r matches Ok(h) && h@ == f,
            Err(e) => r matches Err(x) && x@ == e,
        },
{
    let mut h = Helper::new();
    let mut i: usize = 0;
    while i < events.len()
        invariant
            i <= events@.len(),
            run(empty_fields(), events@.subrange(0, i as int)) == Ok::<FieldsV, ErrorV>(h@),
        decreases events@.len() - i,
    {
        proof {
            assert(events@.subrange(0, i + 1).drop_last() =~= events@.subrange(0, i as int));
        }
        let r = h.handle(&events[i]);
        if let Err(e) = r {
            proof {
                lemma_run_err_extends(empty_fields(), events@, i + 1);
            }
            return Err(e);
        }
        i = i + 1;
    }
    assert(events@.subrange(0, events@.len() as int) =~= events@);
    if h.other_names.len() != h.other_name_types.len() {
        return Err(ParseError::OtherNameCountMismatch);
    }
    Ok(h)
}

/// Once a prefix of the events is rejected, so is the whole sequence, with the
/// same error.
pub proof fn lemma_run_err_extends(f: FieldsV, events: Seq<Event>, k: int)
    requires
        0 <= k <= events.len(),
        run(f, events.subrange(0, k)) is Err,
    ensures
        run(f, events) == run(f, events.subrange(0, k)),
    decreases events.len() - k,
{
    if k < events.len() {
        assert(events.subrange(0, k + 1).drop_last() =~= events.subrange(0, k));
        lemma_run_err_extends(f, events, k + 1);
    } else {
        assert(events.subrange(0, k) =~= events);
    }
}

/// Once a prefix of the attributes is rejected, so are all of them, with the
/// same error.
pub proof fn lemma_attrs_err_extends(f: FieldsV, attrs: Seq<(String, String)>, k: int)
    requires
        0 <= k <= attrs.len(),
        apply_attrs(f, attrs.subrange(0, k)) is Err,
    ensures
        apply_attrs(f, attrs) == apply_attrs(f, attrs.subrange(0, k)),
    decreases attrs.len() - k,
{
    if k < attrs.len() {
        assert(attrs.subrange(0, k + 1).drop_last() =~= attrs.subrange(0, k));
        lemma_attrs_err_extends(f, attrs, k + 1);
    } else {
        assert(attrs.subrange(0, k) =~= attrs);
    }
}

} // verus!
