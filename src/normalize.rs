use vstd::prelude::*;
use chrono::Datelike;

use crate::extract::{ErrorV, Field, FieldsV, Helper, ParseError};
use crate::model::{type_of_code, ABNRecord, Date, EntityName, EntityType, RecordV, Status};
use crate::text::str_eq;

verus! {

/// The date that chrono reads from a text under a format, if it reads one.
pub uninterp spec fn date_of(s: Seq<char>, fmt: Seq<char>) -> Option<Date>;

/// Relies on chrono::NaiveDate::parse_from_str: the calendar date that `s`
/// denotes under `fmt`, or none where `s` is not such a date.
#[verifier::external_body]
fn parse_date(s: &str, fmt: &str) -> (r: Option<Date>)
    ensures
        r == date_of(s@, fmt@),
{
    chrono::NaiveDate::parse_from_str(s, fmt).ok().map(
        |d| Date { year: d.year(), month: d.month(), day: d.day() },
    )
}

/// Dates are written as a four-digit year, a two-digit month and day.
pub open spec fn date_format() -> Seq<char> {
    "%Y%m%d"@
}

/// The date that a raw field holds, if it is present and reads as one.
pub open spec fn read_date(raw: Option<String>) -> Option<Date> {
    match raw {
        Some(s) => date_of(s@, date_format()),
        None => None,
    }
}

/// A yes/no indicator.
pub open spec fn yn_of(x: Seq<char>) -> Option<bool> {
    if x == "Y"@ {
        Some(true)
    } else if x == "N"@ {
        Some(false)
    } else {
        None
    }
}

/// A status code.
pub open spec fn status_of(x: Seq<char>) -> Option<Status> {
    if x == "ACT"@ {
        Some(Status::Active)
    } else if x == "CAN"@ {
        Some(Status::Cancelled)
    } else {
        None
    }
}

/// A secondary-status code: a status, "NON" for none, or unrecognised.
pub open spec fn gst_status_of(raw: Option<String>) -> Option<Option<Status>> {
    match raw {
        Some(x) => if x@ == "NON"@ {
            Some(None)
        } else {
            match status_of(x@) {
                Some(s) => Some(Some(s)),
                None => None,
            }
        },
        None => None,
    }
}

/// The raw secondary-status date, with the epoch sentinel taken as absent.
pub open spec fn gst_date_raw(raw: Option<String>) -> Option<String> {
    match raw {
        Some(x) => if x@ == "19000101"@ {
            None
        } else {
            Some(x)
        },
        None => None,
    }
}

/// A postcode, with the all-zero sentinel taken as absent.
pub open spec fn postcode_of(raw: Option<String>) -> Option<String> {
    match raw {
        Some(x) => if x@ == "0000"@ {
            None
        } else {
            Some(x)
        },
        None => None,
    }
}

/// The first `n` other names sorted into business and trade names by their
/// kind markers, or the first marker that is none of "BN", "TRD", "OTN".
pub open spec fn classified(names: Seq<String>, kinds: Seq<String>, n: nat) -> Result<
    (Seq<String>, Seq<String>),
    String,
>
    decreases n,
{
    if n == 0 {
        Ok((Seq::empty(), Seq::empty()))
    } else {
        match classified(names, kinds, (n - 1) as nat) {
            Ok(p) => {
                let k = kinds[n - 1];
                if k@ == "BN"@ {
                    Ok((p.0.push(names[n - 1]), p.1))
                } else if k@ == "TRD"@ || k@ == "OTN"@ {
                    Ok((p.0, p.1.push(names[n - 1])))
                } else {
                    Err(k)
                }
            },
            Err(k) => Err(k),
        }
    }
}

/// The entity's name, chosen by the name-kind markers.
pub open spec fn entity_name_of(f: FieldsV) -> Result<EntityName, ErrorV> {
    match f.individual_name_type {
        Some(k) => if k@ == "LGL"@ {
            match f.individual_name_family {
                Some(family) => Ok(
                    EntityName::Individual {
                        title: f.individual_name_title,
                        given: f.individual_name_given_1,
                        given_2: f.individual_name_given_2,
                        family,
                    },
                ),
                None => Err(ErrorV::Missing(Field::FamilyName)),
            }
        } else {
            Err(ErrorV::UnexpectedIndividualNameType(k))
        },
        None => if f.non_individual_name_type is Some && f.non_individual_name_type->0@ == "MN"@ {
            match f.non_individual_name {
                Some(name) => Ok(EntityName::NonIndividual { name }),
                None => Err(ErrorV::Missing(Field::NonIndividualName)),
            }
        } else {
            Err(ErrorV::UnexpectedNameType)
        },
    }
}

/// The normalized record for gathered raw values, or the first rule that they
/// break. `since`, `updated` and `gst_since` are the dates read from the raw
/// status date, last-updated date and secondary-status date.
pub open spec fn normalized(
    f: FieldsV,
    since: Option<Date>,
    updated: Option<Date>,
    gst_since: Option<Date>,
) -> Result<RecordV, ErrorV> {
    if f.replaced is Some && yn_of(f.replaced->0@) is None {
        Err(ErrorV::InvalidReplaced(f.replaced->0))
    } else if f.replaced is Some && yn_of(f.replaced->0@) == Some(true) {
        Err(ErrorV::Replaced)
    } else if f.abn is None {
        Err(ErrorV::Missing(Field::Abn))
    } else if f.abn_status is None {
        Err(ErrorV::Missing(Field::AbnStatus))
    } else if f.abn_status_since is None {
        Err(ErrorV::Missing(Field::AbnStatusSince))
    } else if f.last_updated is None {
        Err(ErrorV::Missing(Field::LastUpdated))
    } else if f.entity_type_id is None {
        Err(ErrorV::Missing(Field::EntityTypeId))
    } else if status_of(f.abn_status->0@) is None {
        Err(ErrorV::UnknownStatus(f.abn_status->0))
    } else if since is None {
        Err(ErrorV::InvalidDate(f.abn_status_since->0))
    } else if updated is None {
        Err(ErrorV::InvalidDate(f.last_updated->0))
    } else if f.asic_number is Some && !(f.asic_number_type is Some
        && f.asic_number_type->0@ == "undetermined"@) {
        Err(ErrorV::UnexpectedAsicNumberType)
    } else if f.asic_number is None && f.asic_number_type is Some {
        Err(ErrorV::AsicNumberTypeWithoutNumber)
    } else if gst_status_of(f.gst_status) is None {
        Err(ErrorV::InvalidGstStatus)
    } else if gst_date_raw(f.gst_status_since) is Some && gst_since is None {
        Err(ErrorV::InvalidDate(gst_date_raw(f.gst_status_since)->0))
    } else if (gst_status_of(f.gst_status)->0 is Some) != (gst_date_raw(f.gst_status_since) is Some) {
        Err(ErrorV::InvalidGstCombo)
    } else if type_of_code(f.entity_type_id->0@) is None {
        Err(ErrorV::UnknownEntityType { code: f.entity_type_id->0, label: f.entity_type })
    } else if entity_name_of(f) is Err {
        Err(entity_name_of(f)->Err_0)
    } else if f.other_names.len() != f.other_name_types.len() {
        Err(ErrorV::OtherNameCountMismatch)
    } else if classified(f.other_names, f.other_name_types, f.other_names.len()) is Err {
        Err(ErrorV::UnknownNameType(classified(f.other_names, f.other_name_types, f.other_names.len())->Err_0))
    } else {
        let names = classified(f.other_names, f.other_name_types, f.other_names.len())->Ok_0;
        Ok(
            RecordV {
                abn: f.abn->0,
                status: status_of(f.abn_status->0@)->0,
                status_since: since->0,
                last_updated: updated->0,
                entity_name: entity_name_of(f)->Ok_0,
                entity_type: type_of_code(f.entity_type_id->0@)->0,
                business_names: names.0,
                trade_names: names.1,
                postcode: postcode_of(f.postcode),
                state: f.state,
                asic_number: f.asic_number,
                gst_status: gst_status_of(f.gst_status)->0,
                gst_status_since: if gst_date_raw(f.gst_status_since) is Some {
                    gst_since
                } else {
                    None
                },
            },
        )
    }
}

/// Reads a yes/no indicator: "Y" or "N".
pub fn yn(x: &str) -> (r: Option<bool>)
    ensures
        r == yn_of(x@),
{
    if str_eq(x, "Y") {
        Some(true)
    } else if str_eq(x, "N") {
        Some(false)
    } else {
        None
    }
}

fn status_from(x: &str) -> (r: Option<Status>)
    ensures
        r == status_of(x@),
{
    if str_eq(x, "ACT") {
        Some(Status::Active)
    } else if str_eq(x, "CAN") {
        Some(Status::Cancelled)
    } else {
        None
    }
}

fn is_some_eq(o: &Option<String>, v: &str) -> (r: bool)
    ensures
        r == (o is Some && o->0@ == v@),
{
    match o {
        Some(s) => str_eq(s.as_str(), v),
        None => false,
    }
}

fn copy_opt(o: &Option<String>) -> (r: Option<String>)
    ensures
        r == *o,
{
    match o {
        Some(s) => Some(s.clone()),
        None => None,
    }
}

/// Once the first `k` other names are rejected, so are the first `n`, with the
/// same marker.
pub proof fn lemma_classified_err(names: Seq<String>, kinds: Seq<String>, k: nat, n: nat)
    requires
        k <= n,
        classified(names, kinds, k) is Err,
    ensures
        classified(names, kinds, n) == classified(names, kinds, k),
    decreases n - k,
{
    if k < n {
        lemma_classified_err(names, kinds, k, (n - 1) as nat);
    }
}

/// Sorts the other names into business and trade names by their markers.
fn classify(names: &Vec<String>, kinds: &Vec<String>) -> (r: Result<
    (Vec<String>, Vec<String>),
    String,
>)
    requires
        names@.len() == kinds@.len(),
    ensures
        match classified(names@, kinds@, names@.len()) {
            Ok(p) => r matches Ok(q) && q.0@ == p.0 && q.1@ == p.1,
            Err(k) => r == Err::<(Vec<String>, Vec<String>), String>(k),
        },
{
    let mut business: Vec<String> = Vec::new();
    let mut trade: Vec<String> = Vec::new();
    let mut i: usize = 0;
    while i < names.len()
        invariant
            names@.len() == kinds@.len(),
            i <= names@.len(),
            classified(names@, kinds@, i as nat) == Ok::<(Seq<String>, Seq<String>), String>(
                (business@, trade@),
            ),
        decreases names@.len() - i,
    {
        let k = &kinds[i];
        if str_eq(k.as_str(), "BN") {
            business.push(names[i].clone());
        } else if str_eq(k.as_str(), "TRD") || str_eq(k.as_str(), "OTN") {
            trade.push(names[i].clone());
        } else {
            proof {
                lemma_classified_err(names@, kinds@, (i + 1) as nat, names@.len());
            }
            return Err(k.clone());
        }
        i = i + 1;
    }
    Ok((business, trade))
}

fn entity_name(h: &Helper) -> (r: Result<EntityName, ParseError>)
    ensures
        match entity_name_of(h@) {
            Ok(n) => r == Ok::<EntityName, ParseError>(n),
            Err(e) => r matches Err(x) && x@ == e,
        },
{
    match &h.individual_name_type {
        Some(k) => {
            if !str_eq(k.as_str(), "LGL") {
                return Err(ParseError::UnexpectedIndividualNameType(k.clone()));
            }
            match &h.individual_name_family {
                Some(family) => Ok(
                    EntityName::Individual {
                        title: copy_opt(&h.individual_name_title),
                        given: copy_opt(&h.individual_name_given_1),
                        given_2: copy_opt(&h.individual_name_given_2),
                        family: family.clone(),
                    },
                ),
                None => Err(ParseError::Missing(Field::FamilyName)),
            }
        },
        None => {
            if !is_some_eq(&h.non_individual_name_type, "MN") {
                return Err(ParseError::UnexpectedNameType);
            }
            match &h.non_individual_name {
                Some(name) => Ok(EntityName::NonIndividual { name: name.clone() }),
                None => Err(ParseError::Missing(Field::NonIndividualName)),
            }
        },
    }
}

/// Checks the gathered raw values against the record's rules, in order, and
/// builds the normalized record. `since`, `updated` and `gst_since` are the
/// dates read from the raw status date, last-updated date and
/// secondary-status date (none where absent or unreadable).
pub fn normalize(
    h: &Helper,
    since: Option<Date>,
    updated: Option<Date>,
    gst_since: Option<Date>,
) -> (r: Result<ABNRecord, ParseError>)
    ensures
        match normalized(h@, since, updated, gst_since) {
            Ok(v) => r matches Ok(rec) && rec@ == v,
            Err(e) => r matches Err(x) && x@ == e,
        },
{
    if let Some(x) = &h.replaced {
        match yn(x.as_str()) {
            None => return Err(ParseError::InvalidReplaced(x.clone())),
            Some(true) => return Err(ParseError::Replaced),
            Some(false) => {},
        }
    }
    let abn = match &h.abn {
        Some(x) => x.clone(),
        None => return Err(ParseError::Missing(Field::Abn)),
    };
    let raw_status = match &h.abn_status {
        Some(x) => x,
        None => return Err(ParseError::Missing(Field::AbnStatus)),
    };
    let raw_since = match &h.abn_status_since {
        Some(x) => x,
        None => return Err(ParseError::Missing(Field::AbnStatusSince)),
    };
    let raw_updated = match &h.last_updated {
        Some(x) => x,
        None => return Err(ParseError::Missing(Field::LastUpdated)),
    };
    let type_id = match &h.entity_type_id {
        Some(x) => x,
        None => return Err(ParseError::Missing(Field::EntityTypeId)),
    };
    let status = match status_from(raw_status.as_str()) {
        Some(s) => s,
        None => return Err(ParseError::UnknownStatus(raw_status.clone())),
    };
    let status_since = match since {
        Some(d) => d,
        None => return Err(ParseError::InvalidDate(raw_since.clone())),
    };
    let last_updated = match updated {
        Some(d) => d,
        None => return Err(ParseError::InvalidDate(raw_updated.clone())),
    };
    let postcode = match &h.postcode {
        Some(x) => if str_eq(x.as_str(), "0000") {
            None
        } else {
            Some(x.clone())
        },
        None => None,
    };
    if h.asic_number.is_some() {
        if !is_some_eq(&h.asic_number_type, "undetermined") {
            return Err(ParseError::UnexpectedAsicNumberType);
        }
    } else if h.asic_number_type.is_some() {
        return Err(ParseError::AsicNumberTypeWithoutNumber);
    }
    let gst_status = match &h.gst_status {
        Some(x) => if str_eq(x.as_str(), "NON") {
            None
        } else {
            match status_from(x.as_str()) {
                Some(s) => Some(s),
                None => return Err(ParseError::InvalidGstStatus),
            }
        },
        None => return Err(ParseError::InvalidGstStatus),
    };
    let gst_status_since = match &h.gst_status_since {
        Some(x) => if str_eq(x.as_str(), "19000101") {
            None
        } else {
            match gst_since {
                Some(d) => Some(d),
                None => return Err(ParseError::InvalidDate(x.clone())),
            }
        },
        None => None,
    };
    if gst_status.is_some() != gst_status_since.is_some() {
        return Err(ParseError::InvalidGstCombo);
    }
    let entity_type = match EntityType::from_str(type_id.as_str()) {
        Ok(t) => t,
        Err(_) => return Err(
            ParseError::UnknownEntityType { code: type_id.clone(), label: copy_opt(&h.entity_type) },
        ),
    };
    let entity_name = match entity_name(h) {
        Ok(n) => n,
        Err(e) => return Err(e),
    };
    if h.other_names.len() != h.other_name_types.len() {
        return Err(ParseError::OtherNameCountMismatch);
    }
    let (business_names, trade_names) = match classify(&h.other_names, &h.other_name_types) {
        Ok(p) => p,
        Err(k) => return Err(ParseError::UnknownNameType(k)),
    };
    Ok(
        ABNRecord {
            abn,
            status,
            status_since,
            last_updated,
            entity_name,
            entity_type,
            business_names,
            trade_names,
            postcode,
            state: copy_opt(&h.state),
            asic_number: copy_opt(&h.asic_number),
            gst_status,
            gst_status_since,
        },
    )
}

fn read_raw_date(raw: &Option<String>) -> (r: Option<Date>)
    ensures
        r == read_date(*raw),
{
    match raw {
        Some(s) => parse_date(s.as_str(), "%Y%m%d"),
        None => None,
    }
}

/// Reads the raw dates of the gathered values and normalizes them.
pub fn validate(h: &Helper) -> (r: Result<ABNRecord, ParseError>)
    ensures
        match normalized(
            h@,
            read_date(h.abn_status_since),
            read_date(h.last_updated),
            read_date(h.gst_status_since),
        ) {
            Ok(v) => r matches Ok(rec) && rec@ == v,
            Err(e) => r matches Err(x) && x@ == e,
        },
{
    let since = read_raw_date(&h.abn_status_since);
    let updated = read_raw_date(&h.last_updated);
    let gst_since = read_raw_date(&h.gst_status_since);
    normalize(h, since, updated, gst_since)
}

} // verus!
