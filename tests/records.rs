use abn_records::extract::{extract, Event, Field, Helper, ParseError};
use abn_records::model::{Date, EntityName, EntityType, Status};
use abn_records::normalize::{normalize, validate, yn};
use abn_records::parser::{parse_batch, parse_record};

fn company(gst: &str, other: &str) -> String {
    format!(
        "<ABR recordLastUpdatedDate=\"20200102\" replaced=\"N\">\
         <ABN status=\"ACT\" ABNStatusFromDate=\"19991101\">12345678901</ABN>\
         <EntityType><EntityTypeInd>PRV</EntityTypeInd>\
         <EntityTypeText>Australian Private Company</EntityTypeText></EntityType>\
         <MainEntity><NonIndividualName type=\"MN\">\
         <NonIndividualNameText>ACME PTY LTD</NonIndividualNameText></NonIndividualName>\
         <BusinessAddress><AddressDetails><State>NSW</State><Postcode>2000</Postcode>\
         </AddressDetails></BusinessAddress></MainEntity>\
         <ASICNumber ASICNumberType=\"undetermined\">123456789</ASICNumber>\
         {gst}{other}</ABR>"
    )
}

fn gst(status: &str, date: &str) -> String {
    format!("<GST status=\"{status}\" GSTStatusFromDate=\"{date}\" />")
}

fn other(kind: &str, name: &str) -> String {
    format!(
        "<OtherEntity><NonIndividualName type=\"{kind}\">\
         <NonIndividualNameText>{name}</NonIndividualNameText></NonIndividualName></OtherEntity>"
    )
}

fn individual(given: &str, postcode: &str) -> String {
    format!(
        "<ABR recordLastUpdatedDate=\"20210315\" replaced=\"N\">\
         <ABN status=\"CAN\" ABNStatusFromDate=\"20100630\">98765432109</ABN>\
         <EntityType><EntityTypeInd>IND</EntityTypeInd>\
         <EntityTypeText>Individual/Sole Trader</EntityTypeText></EntityType>\
         <LegalEntity><IndividualName type=\"LGL\"><NameTitle>MR</NameTitle>{given}\
         <FamilyName>SMITH</FamilyName></IndividualName>\
         <BusinessAddress><AddressDetails><State>VIC</State><Postcode>{postcode}</Postcode>\
         </AddressDetails></BusinessAddress></LegalEntity>\
         <GST status=\"NON\" GSTStatusFromDate=\"19000101\" /></ABR>"
    )
}

fn good_company() -> String {
    company(&gst("ACT", "20000701"), &other("BN", "ACME TRADING"))
}

#[test]
fn company_record_is_normalized() {
    let r = parse_record(&good_company()).unwrap();
    assert_eq!(r.abn, "12345678901");
    assert_eq!(r.status, Status::Active);
    assert_eq!(r.status_since, Date { year: 1999, month: 11, day: 1 });
    assert_eq!(r.last_updated, Date { year: 2020, month: 1, day: 2 });
    assert_eq!(r.entity_type, EntityType::PRV);
    match r.entity_name {
        EntityName::NonIndividual { name } => assert_eq!(name, "ACME PTY LTD"),
        _ => panic!("expected a non-individual name"),
    }
    assert_eq!(r.business_names, vec!["ACME TRADING".to_string()]);
    assert!(r.trade_names.is_empty());
    assert_eq!(r.postcode.as_deref(), Some("2000"));
    assert_eq!(r.state.as_deref(), Some("NSW"));
    assert_eq!(r.asic_number.as_deref(), Some("123456789"));
    assert_eq!(r.gst_status, Some(Status::Active));
    assert_eq!(r.gst_status_since, Some(Date { year: 2000, month: 7, day: 1 }));
}

#[test]
fn parsing_twice_gives_the_same_record() {
    let text = good_company();
    let a = parse_record(&text).unwrap();
    let b = parse_record(&text).unwrap();
    assert_eq!(format!("{a:?}"), format!("{b:?}"));
    let bad = text.replace("PRV", "ZZZ");
    assert_eq!(
        format!("{:?}", parse_record(&bad)),
        format!("{:?}", parse_record(&bad))
    );
}

#[test]
fn two_abn_elements_are_a_structural_error() {
    let text = good_company().replace(
        "<EntityType>",
        "<ABN status=\"ACT\" ABNStatusFromDate=\"19991101\">11111111111</ABN><EntityType>",
    );
    match parse_record(&text) {
        Err(ParseError::AlreadySet(path)) => {
            assert_eq!(path, vec!["ABR".to_string(), "ABN".to_string()])
        }
        other => panic!("unexpected {other:?}"),
    }
}

#[test]
fn two_given_names_fill_both_slots() {
    let text = individual("<GivenName>JOHN</GivenName><GivenName>PAUL</GivenName>", "3000");
    let r = parse_record(&text).unwrap();
    match r.entity_name {
        EntityName::Individual { title, given, given_2, family } => {
            assert_eq!(title.as_deref(), Some("MR"));
            assert_eq!(given.as_deref(), Some("JOHN"));
            assert_eq!(given_2.as_deref(), Some("PAUL"));
            assert_eq!(family, "SMITH");
        }
        _ => panic!("expected an individual name"),
    }
    assert_eq!(r.status, Status::Cancelled);
    assert_eq!(r.entity_type, EntityType::IND);
}

#[test]
fn one_given_name_leaves_second_absent() {
    let r = parse_record(&individual("<GivenName>JOHN</GivenName>", "3000")).unwrap();
    match r.entity_name {
        EntityName::Individual { given, given_2, .. } => {
            assert_eq!(given.as_deref(), Some("JOHN"));
            assert_eq!(given_2, None);
        }
        _ => panic!("expected an individual name"),
    }
}

#[test]
fn three_given_names_are_a_structural_error() {
    let given = "<GivenName>A</GivenName><GivenName>B</GivenName><GivenName>C</GivenName>";
    assert!(matches!(
        parse_record(&individual(given, "3000")),
        Err(ParseError::AlreadySet(_))
    ));
}

#[test]
fn zero_postcode_becomes_absent() {
    let r = parse_record(&individual("", "0000")).unwrap();
    assert_eq!(r.postcode, None);
    assert_eq!(r.state.as_deref(), Some("VIC"));
    let r = parse_record(&individual("", "3001")).unwrap();
    assert_eq!(r.postcode.as_deref(), Some("3001"));
}

#[test]
fn gst_none_with_sentinel_is_absent() {
    let r = parse_record(&individual("", "3000")).unwrap();
    assert_eq!(r.gst_status, None);
    assert_eq!(r.gst_status_since, None);
    let r = parse_record(&company(&gst("NON", "19000101"), "")).unwrap();
    assert_eq!(r.gst_status, None);
    assert_eq!(r.gst_status_since, None);
}

#[test]
fn gst_active_with_sentinel_is_rejected() {
    let text = company(&gst("ACT", "19000101"), "");
    assert!(matches!(parse_record(&text), Err(ParseError::InvalidGstCombo)));
}

#[test]
fn gst_none_with_real_date_is_rejected() {
    let text = company(&gst("NON", "20000701"), "");
    assert!(matches!(parse_record(&text), Err(ParseError::InvalidGstCombo)));
}

#[test]
fn gst_cancelled_with_date() {
    let r = parse_record(&company(&gst("CAN", "20150101"), "")).unwrap();
    assert_eq!(r.gst_status, Some(Status::Cancelled));
    assert_eq!(r.gst_status_since, Some(Date { year: 2015, month: 1, day: 1 }));
}

#[test]
fn gst_unknown_or_missing_is_rejected() {
    let text = company(&gst("XYZ", "20000701"), "");
    assert!(matches!(parse_record(&text), Err(ParseError::InvalidGstStatus)));
    let text = company("", "");
    assert!(matches!(parse_record(&text), Err(ParseError::InvalidGstStatus)));
}

#[test]
fn gst_bad_date_is_rejected() {
    let text = company(&gst("ACT", "2000-07-01"), "");
    match parse_record(&text) {
        Err(ParseError::InvalidDate(d)) => assert_eq!(d, "2000-07-01"),
        other => panic!("unexpected {other:?}"),
    }
}

#[test]
fn unknown_entity_type_cites_code() {
    let text = good_company().replace(">PRV<", ">ZZZ<");
    match parse_record(&text) {
        Err(ParseError::UnknownEntityType { code, label }) => {
            assert_eq!(code, "ZZZ");
            assert_eq!(label.as_deref(), Some("Australian Private Company"));
        }
        other => panic!("unexpected {other:?}"),
    }
}

#[test]
fn batch_keeps_order_and_isolates_failure() {
    let spans = vec![
        good_company(),
        individual("<GivenName>JOHN</GivenName>", "3000"),
        "<ABR><ABN>1</ABR>".to_string(),
        company(&gst("CAN", "20150101"), ""),
    ];
    let out = parse_batch(&spans);
    assert_eq!(out.len(), 4);
    let ok: Vec<String> = out.iter().filter_map(|r| r.as_ref().ok()).map(|r| r.abn.clone()).collect();
    assert_eq!(ok, vec!["12345678901", "98765432109", "12345678901"]);
    assert!(matches!(out[2], Err(ParseError::Xml(_))));
    assert_eq!(out.iter().filter(|r| r.is_err()).count(), 1);
}

#[test]
fn other_names_are_classified_in_order() {
    let others = [
        other("TRD", "T1"),
        other("BN", "B1"),
        other("OTN", "T2"),
        other("BN", "B2"),
    ]
    .concat();
    let r = parse_record(&company(&gst("ACT", "20000701"), &others)).unwrap();
    assert_eq!(r.business_names, vec!["B1".to_string(), "B2".to_string()]);
    assert_eq!(r.trade_names, vec!["T1".to_string(), "T2".to_string()]);
}

#[test]
fn unknown_other_name_kind_is_rejected() {
    let text = company(&gst("ACT", "20000701"), &other("XX", "N"));
    match parse_record(&text) {
        Err(ParseError::UnknownNameType(k)) => assert_eq!(k, "XX"),
        other => panic!("unexpected {other:?}"),
    }
}

#[test]
fn other_name_without_kind_is_a_structural_error() {
    let unkinded = "<OtherEntity><NonIndividualName>\
                    <NonIndividualNameText>N</NonIndividualNameText></NonIndividualName></OtherEntity>";
    let text = company(&gst("ACT", "20000701"), unkinded);
    assert!(matches!(parse_record(&text), Err(ParseError::OtherNameCountMismatch)));
}

#[test]
fn replaced_flag_is_checked() {
    let text = good_company().replace("replaced=\"N\"", "replaced=\"Y\"");
    assert!(matches!(parse_record(&text), Err(ParseError::Replaced)));
    let text = good_company().replace("replaced=\"N\"", "replaced=\"maybe\"");
    match parse_record(&text) {
        Err(ParseError::InvalidReplaced(v)) => assert_eq!(v, "maybe"),
        other => panic!("unexpected {other:?}"),
    }
    let text = good_company().replace(" replaced=\"N\"", "");
    assert!(parse_record(&text).is_ok());
}

#[test]
fn missing_fields_are_named() {
    let text = good_company().replace("<ABN status=\"ACT\" ABNStatusFromDate=\"19991101\">12345678901</ABN>", "");
    assert!(matches!(parse_record(&text), Err(ParseError::Missing(Field::Abn))));
    let text = good_company().replace(" status=\"ACT\" ABNStatusFromDate", " ABNStatusFromDate");
    assert!(matches!(parse_record(&text), Err(ParseError::Missing(Field::AbnStatus))));
    let text = good_company().replace(" recordLastUpdatedDate=\"20200102\"", "");
    assert!(matches!(parse_record(&text), Err(ParseError::Missing(Field::LastUpdated))));
    let text = good_company().replace("<EntityTypeInd>PRV</EntityTypeInd>", "");
    assert!(matches!(parse_record(&text), Err(ParseError::Missing(Field::EntityTypeId))));
    let text = individual("", "3000").replace("<FamilyName>SMITH</FamilyName>", "");
    assert!(matches!(parse_record(&text), Err(ParseError::Missing(Field::FamilyName))));
}

#[test]
fn unknown_status_is_rejected() {
    let text = good_company().replace("status=\"ACT\" ABNStatusFromDate", "status=\"XXX\" ABNStatusFromDate");
    match parse_record(&text) {
        Err(ParseError::UnknownStatus(s)) => assert_eq!(s, "XXX"),
        other => panic!("unexpected {other:?}"),
    }
}

#[test]
fn bad_status_date_is_rejected() {
    let text = good_company().replace("19991101", "19991301");
    match parse_record(&text) {
        Err(ParseError::InvalidDate(d)) => assert_eq!(d, "19991301"),
        other => panic!("unexpected {other:?}"),
    }
}

#[test]
fn asic_number_rules() {
    let text = good_company().replace("\"undetermined\"", "\"other\"");
    assert!(matches!(parse_record(&text), Err(ParseError::UnexpectedAsicNumberType)));
    let text = good_company().replace(
        "<ASICNumber ASICNumberType=\"undetermined\">123456789</ASICNumber>",
        "<ASICNumber ASICNumberType=\"undetermined\" />",
    );
    assert!(matches!(parse_record(&text), Err(ParseError::AsicNumberTypeWithoutNumber)));
    let text = good_company().replace(
        "<ASICNumber ASICNumberType=\"undetermined\">123456789</ASICNumber>",
        "",
    );
    assert_eq!(parse_record(&text).unwrap().asic_number, None);
}

#[test]
fn name_kind_rules() {
    let text = individual("", "3000").replace("type=\"LGL\"", "type=\"XYZ\"");
    match parse_record(&text) {
        Err(ParseError::UnexpectedIndividualNameType(k)) => assert_eq!(k, "XYZ"),
        other => panic!("unexpected {other:?}"),
    }
    let text = good_company().replace("type=\"MN\"", "type=\"OTH\"");
    assert!(matches!(parse_record(&text), Err(ParseError::UnexpectedNameType)));
}

#[test]
fn dgr_name_kind_is_checked() {
    let dgr = |kind: &str| {
        format!(
            "<DGR status=\"ACT\" DGRStatusFromDate=\"20100101\"><NonIndividualName type=\"{kind}\">\
             <NonIndividualNameText>FUND</NonIndividualNameText></NonIndividualName></DGR>"
        )
    };
    let text = company(&gst("ACT", "20000701"), &dgr("DGR"));
    assert!(parse_record(&text).is_ok());
    let text = company(&gst("ACT", "20000701"), &dgr("BN"));
    match parse_record(&text) {
        Err(ParseError::UnexpectedDgrNameType(k)) => assert_eq!(k, "BN"),
        other => panic!("unexpected {other:?}"),
    }
}

#[test]
fn unknown_positions_are_ignored() {
    let text = good_company().replace("<EntityType>", "<Extra note=\"x\">text</Extra><EntityType>");
    assert!(parse_record(&text).is_ok());
}

#[test]
fn malformed_text_is_rejected() {
    assert!(matches!(parse_record("<ABR><ABN>1</ABN>"), Err(ParseError::Xml(_))));
}

#[test]
fn entity_type_codes() {
    assert!(matches!(EntityType::from_str("SMF"), Ok(EntityType::SMF)));
    assert!(matches!(EntityType::from_str("CGC"), Ok(EntityType::CGC)));
    assert!(EntityType::from_str("ZZZ").is_err());
    assert!(EntityType::from_str("PRVX").is_err());
    assert!(EntityType::from_str("").is_err());
    assert_eq!(EntityType::FHS.code(), "FHS");
    assert_eq!(EntityType::IND.code(), "IND");
}

#[test]
fn yes_no_indicator() {
    assert_eq!(yn("Y"), Some(true));
    assert_eq!(yn("N"), Some(false));
    assert_eq!(yn("y"), None);
    assert_eq!(yn(""), None);
}

#[test]
fn set_refuses_second_value() {
    let mut o: Option<String> = None;
    assert!(abn_records::extract::set(&mut o, "a".to_string()).is_ok());
    assert!(abn_records::extract::set(&mut o, "b".to_string()).is_err());
    assert_eq!(o.as_deref(), Some("a"));
}

#[test]
fn helper_tracks_path() {
    let mut h = Helper::new();
    let start = |n: &str| Event::Start { name: n.to_string(), attributes: vec![] };
    h.handle(&start("ABR")).unwrap();
    h.handle(&start("ABN")).unwrap();
    assert_eq!(h.path(), vec!["ABR".to_string(), "ABN".to_string()]);
    h.handle(&Event::Text("1".to_string())).unwrap();
    h.handle(&Event::End).unwrap();
    assert_eq!(h.path(), vec!["ABR".to_string()]);
    assert_eq!(h.abn.as_deref(), Some("1"));
}

#[test]
fn normalize_takes_read_dates() {
    let events = vec![
        Event::Start {
            name: "ABR".to_string(),
            attributes: vec![("recordLastUpdatedDate".to_string(), "20200102".to_string())],
        },
        Event::Start {
            name: "ABN".to_string(),
            attributes: vec![
                ("status".to_string(), "ACT".to_string()),
                ("ABNStatusFromDate".to_string(), "19991101".to_string()),
            ],
        },
        Event::Text("1".to_string()),
        Event::End,
        Event::Start { name: "EntityType".to_string(), attributes: vec![] },
        Event::Start { name: "EntityTypeInd".to_string(), attributes: vec![] },
        Event::Text("PUB".to_string()),
        Event::End,
        Event::End,
        Event::Start { name: "MainEntity".to_string(), attributes: vec![] },
        Event::Start {
            name: "NonIndividualName".to_string(),
            attributes: vec![("type".to_string(), "MN".to_string())],
        },
        Event::Start { name: "NonIndividualNameText".to_string(), attributes: vec![] },
        Event::Text("X LTD".to_string()),
        Event::End,
        Event::End,
        Event::End,
        Event::Start {
            name: "GST".to_string(),
            attributes: vec![("status".to_string(), "NON".to_string())],
        },
        Event::End,
        Event::End,
    ];
    let h = extract(&events).unwrap();
    let d = Date { year: 2001, month: 2, day: 3 };
    let r = normalize(&h, Some(d), Some(d), None).unwrap();
    assert_eq!(r.status_since, d);
    assert_eq!(r.entity_type, EntityType::PUB);
    assert!(matches!(normalize(&h, None, Some(d), None), Err(ParseError::InvalidDate(_))));
    let v = validate(&h).unwrap();
    assert_eq!(v.status_since, Date { year: 1999, month: 11, day: 1 });
    assert_eq!(v.last_updated, Date { year: 2020, month: 1, day: 2 });
}

#[test]
fn two_states_are_a_structural_error() {
    let text = good_company().replace("<State>NSW</State>", "<State>NSW</State><State>QLD</State>");
    match parse_record(&text) {
        Err(ParseError::AlreadySet(path)) => assert_eq!(path.last().map(|s| s.as_str()), Some("State")),
        other => panic!("unexpected {other:?}"),
    }
}
