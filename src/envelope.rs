//! Validating a tailing envelope and extracting one outcome per line, in order.

use vstd::prelude::*;
use vstd::string::*;
use crate::json::{Json, lookup, keys_within, find_field, fields_within, json_of, parse_json};
use crate::record::{LogRecord, MalformedRecordError, RecordView, make_record, record_of, outcome_view};

verus! {

/// A break of the protocol; fatal to the current connection.
#[derive(Debug, Clone, Copy, PartialEq, Eq, Structural)]
pub enum ProtocolError {
    /// The message text is not JSON.
    NotJson,
    /// The envelope is not an object with a `streams` array and at most a
    /// `dropped_entries` array beside it.
    BadEnvelope,
    /// A stream group is not an object with exactly a `stream` object and a `values` array.
    BadStreamGroup,
    /// A data frame that is not text; carries the frame's opcode.
    UnexpectedOpcode(u8),
}

/// What one envelope yields: an outcome per line, in order, and the server's drop count.
pub struct Batch {
    pub records: Vec<Result<LogRecord, MalformedRecordError>>,
    pub dropped: Option<usize>,
}

/// A stream group has exactly the members `stream` (an object) and `values` (an array).
pub open spec fn group_ok(g: Json) -> bool {
    match g {
        Json::Object(f) => keys_within(f@, "stream"@, "values"@) && (lookup(f@, "stream"@) matches Some(
            Json::Object(_),
        )) && (lookup(f@, "values"@) matches Some(Json::Array(_))),
        _ => false,
    }
}

pub open spec fn group_labels(g: Json) -> Seq<(String, Json)> {
    match g {
        Json::Object(f) => match lookup(f@, "stream"@) {
            Some(Json::Object(l)) => l@,
            _ => Seq::empty(),
        },
        _ => Seq::empty(),
    }
}

pub open spec fn group_values(g: Json) -> Seq<Json> {
    match g {
        Json::Object(f) => match lookup(f@, "values"@) {
            Some(Json::Array(v)) => v@,
            _ => Seq::empty(),
        },
        _ => Seq::empty(),
    }
}

/// Every line of the groups, with its label set: group by group, value by value.
pub open spec fn lines_of(groups: Seq<Json>) -> Seq<(Seq<(String, Json)>, Json)>
    decreases groups.len(),
{
    if groups.len() == 0 {
        Seq::empty()
    } else {
        let g = groups.last();
        lines_of(groups.drop_last()) + group_values(g).map_values(
            |v: Json| (group_labels(g), v),
        )
    }
}

/// The number of values over all groups.
pub open spec fn value_count(groups: Seq<Json>) -> nat
    decreases groups.len(),
{
    if groups.len() == 0 {
        0
    } else {
        value_count(groups.drop_last()) + group_values(groups.last()).len()
    }
}

/// The stream groups of an envelope.
pub open spec fn envelope_groups(j: Json) -> Seq<Json> {
    match j {
        Json::Object(f) => match lookup(f@, "streams"@) {
            Some(Json::Array(g)) => g@,
            _ => Seq::empty(),
        },
        _ => Seq::empty(),
    }
}

/// The top level is an object with a `streams` array and, beside it, at most a
/// `dropped_entries` array.
pub open spec fn top_ok(j: Json) -> bool {
    match j {
        Json::Object(f) => keys_within(f@, "streams"@, "dropped_entries"@) && (lookup(
            f@,
            "streams"@,
        ) matches Some(Json::Array(_))) && (lookup(f@, "dropped_entries"@) is None || (lookup(
            f@,
            "dropped_entries"@,
        ) matches Some(Json::Array(_)))),
        _ => false,
    }
}

/// How many entries the server reports as dropped, where it reports any.
pub open spec fn dropped_of(j: Json) -> Option<nat> {
    match j {
        Json::Object(f) => match lookup(f@, "dropped_entries"@) {
            Some(Json::Array(d)) => Some(d@.len()),
            _ => None,
        },
        _ => None,
    }
}

/// The verdict on an envelope's structure.
pub open spec fn envelope_check(j: Json) -> Result<(), ProtocolError> {
    if !top_ok(j) {
        Err(ProtocolError::BadEnvelope)
    } else if !(forall|i: int|
        0 <= i < envelope_groups(j).len() ==> group_ok(#[trigger] envelope_groups(j)[i])) {
        Err(ProtocolError::BadStreamGroup)
    } else {
        Ok(())
    }
}

/// The outcomes of an envelope's lines, in order.
pub open spec fn outcomes_of(source_id: Seq<char>, groups: Seq<Json>) -> Seq<
    Result<RecordView, MalformedRecordError>,
> {
    lines_of(groups).map_values(
        |l: (Seq<(String, Json)>, Json)| record_of(source_id, l.0, l.1),
    )
}

/// `b` is what a well-formed envelope `j` yields: one outcome per value, in order, and
/// the server's drop count.
pub open spec fn batch_of(source_id: Seq<char>, j: Json, b: Batch) -> bool {
    &&& b.dropped matches Some(d) ==> dropped_of(j) == Some(d as nat)
    &&& b.dropped is None ==> dropped_of(j) is None
    &&& b.records@.len() == value_count(envelope_groups(j))
    &&& forall|k: int|
        0 <= k < b.records@.len() ==> outcome_view(#[trigger] b.records@[k]) == outcomes_of(
            source_id,
            envelope_groups(j),
        )[k]
}

/// Each stream group yields one line per value, so an envelope yields as many
/// outcomes as it has values over all its groups.
pub proof fn lemma_one_outcome_per_value(source_id: Seq<char>, groups: Seq<Json>)
    ensures
        outcomes_of(source_id, groups).len() == value_count(groups),
    decreases groups.len(),
{
    if groups.len() > 0 {
        lemma_one_outcome_per_value(source_id, groups.drop_last());
    }
}

/// An envelope with a member other than `streams` and `dropped_entries` is a protocol
/// break; one with a `streams` array of well-formed stream groups, a `dropped_entries`
/// array and nothing else is accepted.
pub proof fn lemma_envelope_key_set(j: Json)
    ensures
        (j matches Json::Object(f) && exists|i: int|
            0 <= i < f@.len() && (#[trigger] f@[i]).0@ != "streams"@ && f@[i].0@
                != "dropped_entries"@) ==> envelope_check(j) == Err::<(), ProtocolError>(
            ProtocolError::BadEnvelope,
        ),
        (j matches Json::Object(f) && keys_within(f@, "streams"@, "dropped_entries"@) && (lookup(
            f@,
            "streams"@,
        ) matches Some(Json::Array(_))) && (lookup(f@, "dropped_entries"@) matches Some(
            Json::Array(_),
        )) && forall|i: int|
            0 <= i < envelope_groups(j).len() ==> group_ok(#[trigger] envelope_groups(j)[i]))
            ==> envelope_check(j) is Ok,
{
}

proof fn lemma_lines_step(groups: Seq<Json>, i: int)
    requires
        0 <= i < groups.len(),
    ensures
        lines_of(groups.subrange(0, i + 1)) == lines_of(groups.subrange(0, i)) + group_values(
            groups[i],
        ).map_values(|v: Json| (group_labels(groups[i]), v)),
{
    let s = groups.subrange(0, i + 1);
    assert(s.drop_last() =~= groups.subrange(0, i));
    assert(s.last() == groups[i]);
}

/// Extracts the lines of well-formed stream groups, one outcome per value, in order.
pub fn extract_records(source_id: &String, groups: &Vec<Json>) -> (r: Vec<
    Result<LogRecord, MalformedRecordError>,
>)
    requires
        forall|i: int| 0 <= i < groups@.len() ==> group_ok(#[trigger] groups@[i]),
    ensures
        r@.len() == lines_of(groups@).len(),
        forall|k: int|
            0 <= k < r@.len() ==> outcome_view(#[trigger] r@[k]) == outcomes_of(
                source_id@,
                groups@,
            )[k],
{
    let mut out: Vec<Result<LogRecord, MalformedRecordError>> = Vec::new();
    let mut i: usize = 0;
    let stream_key = String::from_str("stream");
    let values_key = String::from_str("values");
    while i < groups.len()
        invariant
            i <= groups@.len(),
            stream_key@ == "stream"@,
            values_key@ == "values"@,
            forall|i: int| 0 <= i < groups@.len() ==> group_ok(#[trigger] groups@[i]),
            out@.len() == lines_of(groups@.subrange(0, i as int)).len(),
            forall|k: int|
                0 <= k < out@.len() ==> outcome_view(#[trigger] out@[k]) == record_of(
                    source_id@,
                    lines_of(groups@.subrange(0, i as int))[k].0,
                    lines_of(groups@.subrange(0, i as int))[k].1,
                ),
        decreases groups@.len() - i,
    {
        proof {
            lemma_lines_step(groups@, i as int);
        }
        let g = &groups[i];
        assert(group_ok(*g));
        if let Json::Object(f) = g {
            let si = find_field(f, &stream_key);
            let vi = find_field(f, &values_key);
            if let (Some(si), Some(vi)) = (si, vi) {
                if let (Json::Object(labels), Json::Array(values)) = (&f[si].1, &f[vi].1) {
                    assert(labels@ == group_labels(*g));
                    assert(values@ == group_values(*g));
                    let ghost base = out@.len();
                    let ghost prev = lines_of(groups@.subrange(0, i as int));
                    let mut j: usize = 0;
                    while j < values.len()
                        invariant
                            j <= values@.len(),
                            base == prev.len(),
                            out@.len() == base + j,
                            forall|k: int|
                                0 <= k < base ==> outcome_view(#[trigger] out@[k]) == record_of(
                                    source_id@,
                                    prev[k].0,
                                    prev[k].1,
                                ),
                            forall|k: int|
                                base <= k < out@.len() ==> outcome_view(#[trigger] out@[k])
                                    == record_of(source_id@, labels@, values@[k - base]),
                        decreases values@.len() - j,
                    {
                        let rec = make_record(source_id, labels, &values[j]);
                        out.push(rec);
                        j = j + 1;
                    }
                    let ghost next = lines_of(groups@.subrange(0, i as int + 1));
                    assert(next.len() == out@.len());
                    assert forall|k: int| 0 <= k < out@.len() implies outcome_view(
                        #[trigger] out@[k],
                    ) == record_of(source_id@, next[k].0, next[k].1) by {
                        if k >= base {
                            assert(next[k] == (labels@, values@[k - base]));
                        } else {
                            assert(next[k] == prev[k]);
                        }
                    }
                }
            }
        }
        i = i + 1;
    }
    assert(groups@.subrange(0, groups@.len() as int) =~= groups@);
    out
}

/// Validates an envelope and extracts its lines. A structural break of the envelope or
/// of any stream group rejects the whole envelope, before any line is extracted.
pub fn decode_envelope(source_id: &String, j: &Json) -> (r: Result<Batch, ProtocolError>)
    ensures
        match r {
            Ok(b) => envelope_check(*j) is Ok && batch_of(source_id@, *j, b),
            Err(e) => envelope_check(*j) == Err::<(), ProtocolError>(e),
        },
{
    let f = match j {
        Json::Object(f) => f,
        _ => return Err(ProtocolError::BadEnvelope),
    };
    let streams_key = String::from_str("streams");
    let dropped_key = String::from_str("dropped_entries");
    if !fields_within(f, &streams_key, &dropped_key) {
        return Err(ProtocolError::BadEnvelope);
    }
    let groups = match find_field(f, &streams_key) {
        Some(i) => match &f[i].1 {
            Json::Array(g) => g,
            _ => return Err(ProtocolError::BadEnvelope),
        },
        None => return Err(ProtocolError::BadEnvelope),
    };
    let dropped = match find_field(f, &dropped_key) {
        Some(i) => match &f[i].1 {
            Json::Array(d) => Some(d.len()),
            _ => return Err(ProtocolError::BadEnvelope),
        },
        None => None,
    };
    assert(top_ok(*j));
    assert(groups@ == envelope_groups(*j));
    let stream_key = String::from_str("stream");
    let values_key = String::from_str("values");
    let mut i: usize = 0;
    while i < groups.len()
        invariant
            i <= groups@.len(),
            stream_key@ == "stream"@,
            values_key@ == "values"@,
            top_ok(*j),
            groups@ == envelope_groups(*j),
            forall|k: int| 0 <= k < i ==> group_ok(#[trigger] groups@[k]),
        decreases groups@.len() - i,
    {
        let ok = match &groups[i] {
            Json::Object(g) => {
                fields_within(g, &stream_key, &values_key) && match find_field(g, &stream_key) {
                    Some(si) => match &g[si].1 {
                        Json::Object(_) => true,
                        _ => false,
                    },
                    None => false,
                } && match find_field(g, &values_key) {
                    Some(vi) => match &g[vi].1 {
                        Json::Array(_) => true,
                        _ => false,
                    },
                    None => false,
                }
            },
            _ => false,
        };
        if !ok {
            assert(!group_ok(groups@[i as int]));
            return Err(ProtocolError::BadStreamGroup);
        }
        i = i + 1;
    }
    let records = extract_records(source_id, groups);
    proof {
        lemma_one_outcome_per_value(source_id@, groups@);
    }
    Ok(Batch { records, dropped })
}

/// Parses a message text and decodes it as an envelope.
pub fn decode_text(source_id: &String, text: &str) -> (r: Result<Batch, ProtocolError>)
    ensures
        json_of(text@) is None ==> r == Err::<Batch, ProtocolError>(ProtocolError::NotJson),
        json_of(text@) matches Some(j) ==> match r {
            Ok(b) => envelope_check(j) is Ok && batch_of(source_id@, j, b),
            Err(e) => envelope_check(j) == Err::<(), ProtocolError>(e),
        },
{
    match parse_json(text) {
        Some(j) => decode_envelope(source_id, &j),
        None => Err(ProtocolError::NotJson),
    }
}

} // verus!
