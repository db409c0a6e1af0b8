//! Turning one line of a stream group (its labels and its value pair) into a log record.

use vstd::prelude::*;
use vstd::string::*;
use crate::json::{Json, lookup, canonical_json, canonical_text, find_field};

verus! {

/// The payload of a record: the line as sent, or its canonical JSON form.
pub enum Payload {
    Raw(String),
    Structured(String),
}

/// One extracted log line.
pub struct LogRecord {
    pub tenant: String,
    pub source_id: String,
    pub source_host: String,
    pub source_log: String,
    pub nanotime: String,
    pub payload: Payload,
}

/// Why a single line was skipped; the rest of its envelope is still processed.
#[derive(Debug, Clone, Copy, PartialEq, Eq, Structural)]
pub enum MalformedRecordError {
    /// The value pair is not an array of two strings.
    BadValuePair,
    /// No string `tenant` label.
    MissingTenant,
    /// No string `host` label.
    MissingHost,
    /// Neither a string `filename` nor a string `systemd_unit` label.
    MissingSource,
}

pub enum PayloadView {
    Raw(Seq<char>),
    Structured(Seq<char>),
}

pub struct RecordView {
    pub tenant: Seq<char>,
    pub source_id: Seq<char>,
    pub source_host: Seq<char>,
    pub source_log: Seq<char>,
    pub nanotime: Seq<char>,
    pub payload: PayloadView,
}

impl Payload {
    pub open spec fn view(&self) -> PayloadView {
        match self {
            Payload::Raw(s) => PayloadView::Raw(s@),
            Payload::Structured(s) => PayloadView::Structured(s@),
        }
    }

    /// The line as sent, where it is not JSON.
    pub fn raw(&self) -> (r: Option<String>)
        ensures
            r is Some <==> self is Raw,
            r matches Some(s) ==> self@ == PayloadView::Raw(s@),
    {
        match self {
            Payload::Raw(s) => Some(s.clone()),
            Payload::Structured(_) => None,
        }
    }

    /// The canonical JSON form, where the line is JSON.
    pub fn structured(&self) -> (r: Option<String>)
        ensures
            r is Some <==> self is Structured,
            r matches Some(s) ==> self@ == PayloadView::Structured(s@),
    {
        match self {
            Payload::Raw(_) => None,
            Payload::Structured(s) => Some(s.clone()),
        }
    }
}

impl LogRecord {
    pub open spec fn view(&self) -> RecordView {
        RecordView {
            tenant: self.tenant@,
            source_id: self.source_id@,
            source_host: self.source_host@,
            source_log: self.source_log@,
            nanotime: self.nanotime@,
            payload: self.payload@,
        }
    }
}

/// The text of label `name`, where it is present and a string.
pub open spec fn label(labels: Seq<(String, Json)>, name: Seq<char>) -> Option<Seq<char>> {
    match lookup(labels, name) {
        Some(Json::Str(s)) => Some(s@),
        _ => None,
    }
}

/// The log source: the `filename` label, else the `systemd_unit` label.
pub open spec fn source_log_of(labels: Seq<(String, Json)>) -> Option<Seq<char>> {
    if label(labels, "filename"@) is Some {
        label(labels, "filename"@)
    } else {
        label(labels, "systemd_unit"@)
    }
}

/// Tenant, host and log source of a label set.
pub open spec fn sources_of(labels: Seq<(String, Json)>) -> Result<
    (Seq<char>, Seq<char>, Seq<char>),
    MalformedRecordError,
> {
    if label(labels, "tenant"@) is None {
        Err(MalformedRecordError::MissingTenant)
    } else if label(labels, "host"@) is None {
        Err(MalformedRecordError::MissingHost)
    } else if source_log_of(labels) is None {
        Err(MalformedRecordError::MissingSource)
    } else {
        Ok((label(labels, "tenant"@)->0, label(labels, "host"@)->0, source_log_of(labels)->0))
    }
}

/// A value pair: an array of exactly two strings, the time and the line.
pub open spec fn value_pair(value: Json) -> Option<(Seq<char>, Seq<char>)> {
    match value {
        Json::Array(items) => if items@.len() == 2 {
            match (items@[0], items@[1]) {
                (Json::Str(t), Json::Str(p)) => Some((t@, p@)),
                _ => None,
            }
        } else {
            None
        },
        _ => None,
    }
}

/// A line is structured exactly when it reads as JSON; then it is carried in canonical form.
pub open spec fn payload_of(line: Seq<char>) -> PayloadView {
    match canonical_json(line) {
        Some(c) => PayloadView::Structured(c),
        None => PayloadView::Raw(line),
    }
}

/// The record for one line, or why it is skipped.
pub open spec fn record_of(source_id: Seq<char>, labels: Seq<(String, Json)>, value: Json) -> Result<
    RecordView,
    MalformedRecordError,
> {
    match value_pair(value) {
        None => Err(MalformedRecordError::BadValuePair),
        Some((nanotime, line)) => match sources_of(labels) {
            Err(e) => Err(e),
            Ok((tenant, host, log)) => Ok(
                RecordView {
                    tenant,
                    source_id,
                    source_host: host,
                    source_log: log,
                    nanotime,
                    payload: payload_of(line),
                },
            ),
        },
    }
}

/// A line whose label set has no string `host` is skipped as malformed; what is
/// decided for it is decided from its own labels and value pair alone.
pub proof fn lemma_missing_host_skips_line(
    source_id: Seq<char>,
    labels: Seq<(String, Json)>,
    value: Json,
)
    requires
        label(labels, "host"@) is None,
    ensures
        record_of(source_id, labels, value) is Err,
        value_pair(value) is Some && label(labels, "tenant"@) is Some ==> record_of(
            source_id,
            labels,
            value,
        ) == Err::<RecordView, _>(MalformedRecordError::MissingHost),
{
}

/// The log source is the `filename` label where there is one, else the
/// `systemd_unit` label; with neither, the line is malformed.
pub proof fn lemma_source_log_fallback(labels: Seq<(String, Json)>)
    requires
        label(labels, "tenant"@) is Some,
        label(labels, "host"@) is Some,
    ensures
        label(labels, "filename"@) is Some ==> sources_of(labels) == Ok::<_, MalformedRecordError>(
            (
                label(labels, "tenant"@)->0,
                label(labels, "host"@)->0,
                label(labels, "filename"@)->0,
            ),
        ),
        label(labels, "filename"@) is None && label(labels, "systemd_unit"@) is Some ==> sources_of(
            labels,
        ) == Ok::<_, MalformedRecordError>(
            (
                label(labels, "tenant"@)->0,
                label(labels, "host"@)->0,
                label(labels, "systemd_unit"@)->0,
            ),
        ),
        label(labels, "filename"@) is None && label(labels, "systemd_unit"@) is None
            ==> sources_of(labels) == Err::<(Seq<char>, Seq<char>, Seq<char>), _>(
            MalformedRecordError::MissingSource,
        ),
{
}

/// A line is carried in exactly one form: raw where it does not read as JSON, and
/// then unchanged; structured, in canonical form, where it does.
pub proof fn lemma_payload_one_form(line: Seq<char>)
    ensures
        canonical_json(line) is None ==> payload_of(line) == PayloadView::Raw(line),
        canonical_json(line) matches Some(c) ==> payload_of(line) == PayloadView::Structured(c),
{
}

/// The record outcome as the contracts see it.
pub open spec fn outcome_view(r: Result<LogRecord, MalformedRecordError>) -> Result<
    RecordView,
    MalformedRecordError,
> {
    match r {
        Ok(rec) => Ok(rec@),
        Err(e) => Err(e),
    }
}

/// The text of label `name`, where it is present and a string.
fn string_label(labels: &Vec<(String, Json)>, name: &str) -> (r: Option<String>)
    ensures
        match r {
            Some(s) => label(labels@, name@) == Some(s@),
            None => label(labels@, name@) is None,
        },
{
    let key = String::from_str(name);
    match find_field(labels, &key) {
        Some(i) => match &labels[i].1 {
            Json::Str(s) => Some(s.clone()),
            _ => None,
        },
        None => None,
    }
}

/// Tenant, host and log source (`filename`, else `systemd_unit`) of a label set.
pub fn extract_log_sources(labels: &Vec<(String, Json)>) -> (r: Result<
    (String, String, String),
    MalformedRecordError,
>)
    ensures
        match r {
            Ok((t, h, l)) => sources_of(labels@) == Ok::<_, MalformedRecordError>((t@, h@, l@)),
            Err(e) => sources_of(labels@) == Err::<(Seq<char>, Seq<char>, Seq<char>), _>(e),
        },
{
    let tenant = match string_label(labels, "tenant") {
        Some(t) => t,
        None => return Err(MalformedRecordError::MissingTenant),
    };
    let host = match string_label(labels, "host") {
        Some(h) => h,
        None => return Err(MalformedRecordError::MissingHost),
    };
    let log = match string_label(labels, "filename") {
        Some(f) => f,
        None => match string_label(labels, "systemd_unit") {
            Some(u) => u,
            None => return Err(MalformedRecordError::MissingSource),
        },
    };
    Ok((tenant, host, log))
}

/// Classifies a line: its canonical JSON form where it reads as JSON, else the line itself.
pub fn classify_payload(line: &String) -> (r: Payload)
    ensures
        r@ == payload_of(line@),
{
    match canonical_text(line.as_str()) {
        Some(c) => Payload::Structured(c),
        None => Payload::Raw(line.clone()),
    }
}

/// Builds the record for one line of a stream group.
pub fn make_record(source_id: &String, labels: &Vec<(String, Json)>, value: &Json) -> (r: Result<
    LogRecord,
    MalformedRecordError,
>)
    ensures
        outcome_view(r) == record_of(source_id@, labels@, *value),
{
    let (nanotime, line) = match value {
        Json::Array(items) => {
            if items.len() != 2 {
                return Err(MalformedRecordError::BadValuePair);
            }
            match (&items[0], &items[1]) {
                (Json::Str(t), Json::Str(p)) => (t.clone(), p.clone()),
                _ => return Err(MalformedRecordError::BadValuePair),
            }
        },
        _ => return Err(MalformedRecordError::BadValuePair),
    };
    let (tenant, source_host, source_log) = match extract_log_sources(labels) {
        Ok(s) => s,
        Err(e) => return Err(e),
    };
    let payload = classify_payload(&line);
    Ok(
        LogRecord {
            tenant,
            source_id: source_id.clone(),
            source_host,
            source_log,
            nanotime,
            payload,
        },
    )
}

} // verus!
