//! The decisions of the reading loop: what to do with each complete frame that the
//! transport hands over, and the counts kept over the life of one connection.

use vstd::prelude::*;
use crate::json::json_of;
use crate::envelope::{Batch, ProtocolError, batch_of, decode_text, envelope_check};
use crate::record::{LogRecord, MalformedRecordError};

verus! {

pub const OPCODE_TEXT: u8 = 1;

pub const OPCODE_CLOSE: u8 = 8;

pub const OPCODE_PING: u8 = 9;

pub const OPCODE_PONG: u8 = 10;

/// What the loop does after one frame.
pub enum Step {
    /// A control frame that the transport has already answered: read on.
    Continue,
    /// Hand these outcomes to the sink, in order, then read on.
    Emit(Batch),
    /// Clean end of stream: stop without error.
    Finished,
    /// A protocol break: close the connection and report it.
    Fail(ProtocolError),
}

/// The state of one tailing connection.
pub struct TailSession {
    /// Identifies the connection in every record (the host queried).
    pub source_id: String,
    /// Records handed to the sink (saturating).
    pub records_emitted: u64,
    /// Lines skipped as malformed (saturating).
    pub lines_skipped: u64,
    /// Entries the server reported as dropped (saturating).
    pub server_dropped: u64,
    /// The loop has ended, cleanly or not.
    pub finished: bool,
}

/// What `String::from_utf8_lossy` makes of some bytes.
pub uninterp spec fn utf8_lossy(bytes: Seq<u8>) -> Seq<char>;

/// Relies on String::from_utf8_lossy: the text depends on the bytes alone.
#[verifier::external_body]
fn lossy_text(bytes: &Vec<u8>) -> (r: String)
    ensures
        r@ == utf8_lossy(bytes@),
{
    String::from_utf8_lossy(bytes).to_string()
}

/// The number of outcomes that are records.
pub open spec fn ok_count(s: Seq<Result<LogRecord, MalformedRecordError>>) -> nat
    decreases s.len(),
{
    if s.len() == 0 {
        0
    } else {
        ok_count(s.drop_last()) + if s.last() is Ok {
            1nat
        } else {
            0nat
        }
    }
}

proof fn lemma_ok_count_bound(s: Seq<Result<LogRecord, MalformedRecordError>>)
    ensures
        ok_count(s) <= s.len(),
    decreases s.len(),
{
    if s.len() > 0 {
        lemma_ok_count_bound(s.drop_last());
    }
}

/// `a + b`, held at `u64::MAX`.
pub open spec fn sat_add(a: u64, b: nat) -> u64 {
    if a + b > u64::MAX {
        u64::MAX
    } else {
        (a + b) as u64
    }
}

/// Counts the outcomes of a batch that are records.
pub fn count_records(records: &Vec<Result<LogRecord, MalformedRecordError>>) -> (r: usize)
    ensures
        r == ok_count(records@),
{
    let mut n: usize = 0;
    let mut i: usize = 0;
    while i < records.len()
        invariant
            i <= records@.len(),
            n == ok_count(records@.subrange(0, i as int)),
            n <= i,
        decreases records@.len() - i,
    {
        proof {
            let s = records@.subrange(0, i as int + 1);
            assert(s.drop_last() =~= records@.subrange(0, i as int));
        }
        if records[i].is_ok() {
            n = n + 1;
        }
        i = i + 1;
    }
    assert(records@.subrange(0, i as int) =~= records@);
    n
}

impl TailSession {
    /// A fresh session for the connection named `source_id`.
    pub fn new(source_id: String) -> (r: TailSession)
        ensures
            r.source_id == source_id,
            r.records_emitted == 0,
            r.lines_skipped == 0,
            r.server_dropped == 0,
            !r.finished,
    {
        TailSession {
            source_id,
            records_emitted: 0,
            lines_skipped: 0,
            server_dropped: 0,
            finished: false,
        }
    }

    /// Decides what to do with one complete frame. A text frame holds an envelope, or is
    /// empty to end the stream; close ends the stream; ping and pong are passed over; any
    /// other opcode breaks the protocol.
    pub fn on_frame(&mut self, opcode: u8, payload: &Vec<u8>) -> (r: Step)
        requires
            !old(self).finished,
        ensures
            final(self).source_id == old(self).source_id,
            (opcode == OPCODE_TEXT && payload@.len() == 0) || opcode == OPCODE_CLOSE ==> {
                &&& r is Finished
                &&& final(self).finished
                &&& final(self).records_emitted == old(self).records_emitted
                &&& final(self).lines_skipped == old(self).lines_skipped
                &&& final(self).server_dropped == old(self).server_dropped
            },
            opcode == OPCODE_PING || opcode == OPCODE_PONG ==> r is Continue && *final(self)
                == *old(self),
            opcode != OPCODE_TEXT && opcode != OPCODE_CLOSE && opcode != OPCODE_PING && opcode
                != OPCODE_PONG ==> r == Step::Fail(ProtocolError::UnexpectedOpcode(opcode))
                && final(self).finished,
            opcode == OPCODE_TEXT && payload@.len() > 0 ==> match json_of(utf8_lossy(payload@)) {
                None => r == Step::Fail(ProtocolError::NotJson) && final(self).finished,
                Some(j) => match envelope_check(j) {
                    Err(e) => r == Step::Fail(e) && final(self).finished,
                    Ok(_) => match r {
                        Step::Emit(b) => {
                            &&& batch_of(old(self).source_id@, j, b)
                            &&& !final(self).finished
                            &&& final(self).records_emitted == sat_add(
                                old(self).records_emitted,
                                ok_count(b.records@),
                            )
                            &&& final(self).lines_skipped == sat_add(
                                old(self).lines_skipped,
                                (b.records@.len() - ok_count(b.records@)) as nat,
                            )
                            &&& final(self).server_dropped == sat_add(
                                old(self).server_dropped,
                                match b.dropped {
                                    Some(d) => d as nat,
                                    None => 0,
                                },
                            )
                        },
                        _ => false,
                    },
                },
            },
    {
        if opcode == OPCODE_PING || opcode == OPCODE_PONG {
            return Step::Continue;
        }
        if opcode == OPCODE_CLOSE || (opcode == OPCODE_TEXT && payload.len() == 0) {
            self.finished = true;
            return Step::Finished;
        }
        if opcode != OPCODE_TEXT {
            self.finished = true;
            return Step::Fail(ProtocolError::UnexpectedOpcode(opcode));
        }
        let text = lossy_text(payload);
        match decode_text(&self.source_id, text.as_str()) {
            Ok(b) => {
                let emitted = count_records(&b.records);
                proof {
                    lemma_ok_count_bound(b.records@);
                }
                let skipped = b.records.len() - emitted;
                self.records_emitted = self.records_emitted.saturating_add(emitted as u64);
                self.lines_skipped = self.lines_skipped.saturating_add(skipped as u64);
                let dropped: usize = match b.dropped {
                    Some(d) => d,
                    None => 0,
                };
                self.server_dropped = self.server_dropped.saturating_add(dropped as u64);
                Step::Emit(b)
            },
            Err(e) => {
                self.finished = true;
                Step::Fail(e)
            },
        }
    }
}

} // verus!
