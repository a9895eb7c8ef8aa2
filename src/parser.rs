use vstd::prelude::*;

use crate::extract::{
    apply_text, empty_fields, extract, extracted, lemma_run_err_extends, read_events, run, step,
    xml_events, held_at, ErrorV, Event, FieldsV, ParseError, TextSlot, text_slot_of,
};
use crate::model::{type_of_code, ABNRecord, Date, RecordV, Status};
use crate::normalize::{
    classified, date_format, date_of, gst_date_raw, normalized, read_date, validate,
};

verus! {

/// What a parse outcome is, with its collections seen as sequences.
pub open spec fn outcome_view(r: Result<ABNRecord, ParseError>) -> Result<RecordV, ErrorV> {
    match r {
        Ok(rec) => Ok(rec@),
        Err(e) => Err(e@),
    }
}

/// The outcome for gathered raw values, their dates read.
pub open spec fn validated(f: FieldsV) -> Result<RecordV, ErrorV> {
    normalized(
        f,
        read_date(f.abn_status_since),
        read_date(f.last_updated),
        read_date(f.gst_status_since),
    )
}

/// The outcome for the events of one record.
pub open spec fn record_of_events(events: Seq<Event>) -> Result<RecordV, ErrorV> {
    match extracted(events) {
        Ok(f) => validated(f),
        Err(e) => Err(e),
    }
}

/// The outcome for the text of one record.
pub open spec fn record_of_text(text: Seq<char>) -> Result<RecordV, ErrorV> {
    match xml_events(text) {
        Ok(events) => record_of_events(events),
        Err(m) => Err(ErrorV::Xml(m)),
    }
}

/// Extracts and validates the record that one text span holds.
pub fn parse_record(xml: &str) -> (r: Result<ABNRecord, ParseError>)
    ensures
        outcome_view(r) == record_of_text(xml@),
{
    let events = match read_events(xml) {
        Ok(v) => v,
        Err(m) => return Err(ParseError::Xml(m)),
    };
    let h = match extract(&events) {
        Ok(h) => h,
        Err(e) => return Err(e),
    };
    validate(&h)
}

/// Parses every span of a group on its own, keeping their order.
pub fn parse_batch(spans: &Vec<String>) -> (r: Vec<Result<ABNRecord, ParseError>>)
    ensures
        r@.len() == spans@.len(),
        forall|i: int|
            0 <= i < spans@.len() ==> outcome_view(#[trigger] r@[i]) == record_of_text(
                spans@[i]@,
            ),
{
    let mut r: Vec<Result<ABNRecord, ParseError>> = Vec::new();
    let mut i: usize = 0;
    while i < spans.len()
        invariant
            i <= spans@.len(),
            r@.len() == i,
            forall|j: int|
                0 <= j < i ==> outcome_view(#[trigger] r@[j]) == record_of_text(spans@[j]@),
        decreases spans@.len() - i,
    {
        r.push(parse_record(spans[i].as_str()));
        i = i + 1;
    }
    r
}

/// The records among a group's outcomes, in order.
pub open spec fn successes(o: Seq<Result<RecordV, ErrorV>>) -> Seq<RecordV>
    decreases o.len(),
{
    if o.len() == 0 {
        Seq::empty()
    } else {
        match o.last() {
            Ok(v) => successes(o.drop_last()).push(v),
            Err(_) => successes(o.drop_last()),
        }
    }
}

/// How many of a group's outcomes are rejections.
pub open spec fn failures(o: Seq<Result<RecordV, ErrorV>>) -> nat
    decreases o.len(),
{
    if o.len() == 0 {
        0
    } else {
        match o.last() {
            Ok(_) => failures(o.drop_last()),
            Err(_) => failures(o.drop_last()) + 1,
        }
    }
}

/// The outcomes of a group of spans, in order.
pub open spec fn batch_outcomes(spans: Seq<String>) -> Seq<Result<RecordV, ErrorV>> {
    spans.map_values(|s: String| record_of_text(s@))
}

/// Successes and failures of a concatenation are those of its parts.
pub proof fn lemma_outcomes_concat(a: Seq<Result<RecordV, ErrorV>>, b: Seq<Result<RecordV, ErrorV>>)
    ensures
        successes(a + b) == successes(a) + successes(b),
        failures(a + b) == failures(a) + failures(b),
    decreases b.len(),
{
    if b.len() == 0 {
        assert(a + b =~= a);
        assert(successes(a) + successes(b) =~= successes(a));
    } else {
        assert((a + b).drop_last() =~= a + b.drop_last());
        lemma_outcomes_concat(a, b.drop_last());
        if b.last() is Ok {
            let v = b.last()->Ok_0;
            assert(successes(a) + successes(b.drop_last()).push(v) =~= (successes(a)
                + successes(b.drop_last())).push(v));
        }
    }
}

/// Where every outcome is a record, all are kept in order and none fails.
pub proof fn lemma_all_successes(o: Seq<Result<RecordV, ErrorV>>)
    requires
        forall|i: int| 0 <= i < o.len() ==> (#[trigger] o[i]) is Ok,
    ensures
        successes(o) == o.map_values(|x: Result<RecordV, ErrorV>| x->Ok_0),
        failures(o) == 0,
    decreases o.len(),
{
    if o.len() > 0 {
        lemma_all_successes(o.drop_last());
        assert(o.drop_last().map_values(|x: Result<RecordV, ErrorV>| x->Ok_0).push(o.last()->Ok_0)
            =~= o.map_values(|x: Result<RecordV, ErrorV>| x->Ok_0));
    } else {
        assert(o.map_values(|x: Result<RecordV, ErrorV>| x->Ok_0) =~= Seq::<RecordV>::empty());
    }
}

/// One bad span in a group costs only its own record: where span `k` is
/// rejected and every other span holds a record, the group yields the other
/// records in their order and exactly one failure.
pub proof fn lemma_batch_isolation(spans: Seq<String>, k: int)
    requires
        0 <= k < spans.len(),
        record_of_text(spans[k]@) is Err,
        forall|i: int| 0 <= i < spans.len() && i != k ==> (#[trigger] record_of_text(spans[i]@)) is Ok,
    ensures
        successes(batch_outcomes(spans)) == batch_outcomes(spans.remove(k)).map_values(
            |x: Result<RecordV, ErrorV>| x->Ok_0,
        ),
        failures(batch_outcomes(spans)) == 1,
{
    let o = batch_outcomes(spans);
    let a = o.subrange(0, k);
    let m = o.subrange(k, k + 1);
    let b = o.subrange(k + 1, o.len() as int);
    assert(o =~= a + m + b);
    assert(m.last() == record_of_text(spans[k]@));
    assert(m.drop_last() =~= Seq::<Result<RecordV, ErrorV>>::empty());
    assert(successes(m.drop_last()) == Seq::<RecordV>::empty());
    assert(failures(m.drop_last()) == 0);
    assert(successes(m) == Seq::<RecordV>::empty());
    assert(failures(m) == 1);
    assert forall|i: int| 0 <= i < a.len() implies (#[trigger] a[i]) is Ok by {
        assert(a[i] == record_of_text(spans[i]@));
    }
    assert forall|i: int| 0 <= i < b.len() implies (#[trigger] b[i]) is Ok by {
        assert(b[i] == record_of_text(spans[i + k + 1]@));
    }
    lemma_outcomes_concat(a + m, b);
    lemma_outcomes_concat(a, m);
    lemma_all_successes(a);
    lemma_all_successes(b);
    lemma_outcomes_concat(a, b);
    assert(successes(a) + successes(m) =~= successes(a));
    assert(batch_outcomes(spans.remove(k)) =~= a + b);
    assert(a.map_values(|x: Result<RecordV, ErrorV>| x->Ok_0) + b.map_values(
        |x: Result<RecordV, ErrorV>| x->Ok_0,
    ) =~= (a + b).map_values(|x: Result<RecordV, ErrorV>| x->Ok_0));
}

/// Parsing is a function of the text alone: two parses of one text agree.
pub proof fn lemma_parse_deterministic(
    text: Seq<char>,
    r1: Result<ABNRecord, ParseError>,
    r2: Result<ABNRecord, ParseError>,
)
    requires
        outcome_view(r1) == record_of_text(text),
        outcome_view(r2) == record_of_text(text),
    ensures
        outcome_view(r1) == outcome_view(r2),
{
}

/// A record whose accumulator holds every required field, with the family name
/// where an individual-name kind is given and the main name where none is, is
/// never rejected for a missing field.
pub proof fn lemma_required_present(f: FieldsV)
    requires
        f.abn is Some,
        f.abn_status is Some,
        f.abn_status_since is Some,
        f.last_updated is Some,
        f.entity_type_id is Some,
        f.individual_name_type is Some ==> f.individual_name_family is Some,
        f.individual_name_type is None ==> f.non_individual_name is Some,
    ensures
        !(validated(f) matches Err(ErrorV::Missing(_))),
{
}

/// A second value at a single-valued position (two identifiers, say) is
/// refused with the path where it stands, and the whole record is rejected
/// with that error.
pub proof fn lemma_double_assignment(events: Seq<Event>, k: int, g: FieldsV, x: String)
    requires
        0 <= k < events.len(),
        run(empty_fields(), events.subrange(0, k)) == Ok::<FieldsV, ErrorV>(g),
        events[k] == Event::Text(x),
        held_at(g, text_slot_of(g.path)) matches Some(Some(_)),
    ensures
        extracted(events) == Err::<FieldsV, ErrorV>(ErrorV::AlreadySet(g.path)),
        record_of_events(events) == Err::<RecordV, ErrorV>(ErrorV::AlreadySet(g.path)),
{
    assert(events.subrange(0, k + 1).drop_last() =~= events.subrange(0, k));
    assert(step(g, events[k]) == apply_text(g, x));
    lemma_run_err_extends(empty_fields(), events, k + 1);
}

/// Under the individual name, the first "given name" fills the first slot and
/// the second fills the second; after one only, the second stays empty.
pub proof fn lemma_given_names(f: FieldsV, x1: String, x2: String)
    requires
        text_slot_of(f.path) == TextSlot::GivenName,
        f.individual_name_given_1 is None,
        f.individual_name_given_2 is None,
    ensures
        apply_text(f, x1) is Ok,
        apply_text(f, x1)->Ok_0.individual_name_given_1 == Some(x1),
        apply_text(f, x1)->Ok_0.individual_name_given_2 == None::<String>,
        apply_text(apply_text(f, x1)->Ok_0, x2) is Ok,
        apply_text(apply_text(f, x1)->Ok_0, x2)->Ok_0.individual_name_given_1 == Some(x1),
        apply_text(apply_text(f, x1)->Ok_0, x2)->Ok_0.individual_name_given_2 == Some(x2),
{
}

/// The all-zero postcode becomes absent; any other passes through unchanged.
pub proof fn lemma_postcode_sentinel(f: FieldsV)
    requires
        validated(f) is Ok,
    ensures
        f.postcode is Some && f.postcode->0@ == "0000"@ ==> validated(f)->Ok_0.postcode
            == None::<String>,
        !(f.postcode is Some && f.postcode->0@ == "0000"@) ==> validated(f)->Ok_0.postcode
            == f.postcode,
{
}

/// A secondary status "NON" with no date, or with the epoch sentinel, leaves
/// both the status and its date absent.
pub proof fn lemma_gst_none(f: FieldsV)
    requires
        f.gst_status is Some && f.gst_status->0@ == "NON"@,
        gst_date_raw(f.gst_status_since) is None,
        validated(f) is Ok,
    ensures
        validated(f)->Ok_0.gst_status == None::<Status>,
        validated(f)->Ok_0.gst_status_since == None::<Date>,
{
}

/// A secondary status "ACT" with the epoch sentinel date is rejected.
pub proof fn lemma_gst_active_sentinel(f: FieldsV)
    requires
        f.gst_status is Some && f.gst_status->0@ == "ACT"@,
        f.gst_status_since is Some && f.gst_status_since->0@ == "19000101"@,
    ensures
        validated(f) is Err,
{
    reveal_strlit("ACT");
    reveal_strlit("NON");
    assert("ACT"@[0] != "NON"@[0]);
}

/// A secondary status "ACT" with a real date is neither an invalid status nor a
/// mismatch, and a record built from it carries both.
pub proof fn lemma_gst_active_dated(f: FieldsV, d: Date)
    requires
        f.gst_status is Some && f.gst_status->0@ == "ACT"@,
        gst_date_raw(f.gst_status_since) is Some,
        date_of(f.gst_status_since->0@, date_format()) == Some(d),
    ensures
        validated(f) != Err::<RecordV, ErrorV>(ErrorV::InvalidGstStatus),
        validated(f) != Err::<RecordV, ErrorV>(ErrorV::InvalidGstCombo),
        validated(f) is Ok ==> validated(f)->Ok_0.gst_status == Some(Status::Active)
            && validated(f)->Ok_0.gst_status_since == Some(d),
{
    reveal_strlit("ACT");
    reveal_strlit("NON");
    assert("ACT"@[0] != "NON"@[0]);
}

/// Where a record is valid, replacing its entity-type code by one outside the
/// known set rejects it, citing that code and the label.
pub proof fn lemma_unknown_entity_type(f: FieldsV, code: String)
    requires
        validated(f) is Ok,
        type_of_code(code@) is None,
    ensures
        validated(FieldsV { entity_type_id: Some(code), ..f }) == Err::<RecordV, ErrorV>(
            ErrorV::UnknownEntityType { code, label: f.entity_type },
        ),
{
}

/// Other names whose markers are all "BN" are all business names, in order.
pub proof fn lemma_all_business(names: Seq<String>, kinds: Seq<String>, n: nat)
    requires
        n <= names.len(),
        n <= kinds.len(),
        forall|i: int| 0 <= i < n ==> (#[trigger] kinds[i])@ == "BN"@,
    ensures
        classified(names, kinds, n) == Ok::<(Seq<String>, Seq<String>), String>(
            (names.subrange(0, n as int), Seq::empty()),
        ),
    decreases n,
{
    if n > 0 {
        lemma_all_business(names, kinds, (n - 1) as nat);
        assert(names.subrange(0, n - 1).push(names[n - 1]) =~= names.subrange(0, n as int));
    } else {
        assert(names.subrange(0, 0) =~= Seq::<String>::empty());
    }
}

/// Other names whose markers are all "TRD" or "OTN" are all trade names, in
/// order.
pub proof fn lemma_all_trade(names: Seq<String>, kinds: Seq<String>, n: nat)
    requires
        n <= names.len(),
        n <= kinds.len(),
        forall|i: int| 0 <= i < n ==> (#[trigger] kinds[i])@ == "TRD"@ || kinds[i]@ == "OTN"@,
    ensures
        classified(names, kinds, n) == Ok::<(Seq<String>, Seq<String>), String>(
            (Seq::empty(), names.subrange(0, n as int)),
        ),
    decreases n,
{
    reveal_strlit("BN");
    reveal_strlit("TRD");
    reveal_strlit("OTN");
    assert("BN"@.len() != "TRD"@.len() && "BN"@.len() != "OTN"@.len());
    if n > 0 {
        lemma_all_trade(names, kinds, (n - 1) as nat);
        assert(names.subrange(0, n - 1).push(names[n - 1]) =~= names.subrange(0, n as int));
    } else {
        assert(names.subrange(0, 0) =~= Seq::<String>::empty());
    }
}

/// Other names and kind markers that differ in number are a structural error
/// of extraction.
pub proof fn lemma_other_name_mismatch(events: Seq<Event>)
    requires
        run(empty_fields(), events) is Ok,
        run(empty_fields(), events)->Ok_0.other_names.len() != run(
            empty_fields(),
            events,
        )->Ok_0.other_name_types.len(),
    ensures
        extracted(events) == Err::<FieldsV, ErrorV>(ErrorV::OtherNameCountMismatch),
{
}

} // verus!
