//! Kernel-log record encoding.
//!
//! The kernel message device expects each record as one line of the form
//! `<priority>prefix: text`, where the priority combines a fixed facility
//! marker with a per-severity code. This module renders such lines; the
//! surrounding process owns the device handle and writes the bytes out.

use vstd::prelude::*;
use crate::bytebuf::extend_bytes;
use crate::digits::{dec_digits, push_decimal};

verus! {

/// Severity of a diagnostic record.
#[derive(Clone, Copy, PartialEq, Eq, Structural, Debug)]
pub enum Level {
    Error,
    Warn,
    Info,
    Debug,
    Trace,
}

/// One diagnostic record: a severity and the message text.
pub struct LogRecord {
    pub level: Level,
    pub text: Vec<u8>,
}

/// Kernel-log facility marker for user-space messages, already shifted
/// into position (`1 << 3`).
pub const KMSG_USER_FACILITY: u32 = 8;

/// The kernel-log code of each severity.
pub open spec fn level_code_spec(l: Level) -> u32 {
    match l {
        Level::Error => 3,
        Level::Warn => 4,
        Level::Info => 6,
        Level::Debug => 7,
        Level::Trace => 7,
    }
}

/// The full priority of each severity: facility marker or-ed with the code.
pub open spec fn priority_spec(l: Level) -> u32 {
    match l {
        Level::Error => 11,
        Level::Warn => 12,
        Level::Info => 14,
        Level::Debug => 15,
        Level::Trace => 15,
    }
}

/// Encodes a severity as its kernel-log priority, `facility | code`.
pub fn encode_priority(l: Level) -> (r: u32)
    ensures
        r == priority_spec(l),
        r == KMSG_USER_FACILITY | level_code_spec(l),
{
    let code: u32 = match l {
        Level::Error => 3,
        Level::Warn => 4,
        Level::Info => 6,
        Level::Debug => 7,
        Level::Trace => 7,
    };
    assert(8u32 | 3u32 == 11u32) by (bit_vector);
    assert(8u32 | 4u32 == 12u32) by (bit_vector);
    assert(8u32 | 6u32 == 14u32) by (bit_vector);
    assert(8u32 | 7u32 == 15u32) by (bit_vector);
    KMSG_USER_FACILITY | code
}

/// The priority header of a record line: `<priority>`. It is a function of
/// the severity alone.
pub open spec fn line_header(l: Level) -> Seq<u8> {
    seq![60u8] + dec_digits(priority_spec(l) as nat) + seq![62u8]
}

/// The bytes of a full record line: `<priority>prefix: text` and a newline.
pub open spec fn record_line_spec(l: Level, prefix: Seq<u8>, text: Seq<u8>) -> Seq<u8> {
    line_header(l) + prefix + seq![58u8, 32u8] + text + seq![10u8]
}

/// Renders one kernel-log line for `rec` under the given prefix.
pub fn format_record(prefix: &[u8], rec: &LogRecord) -> (r: Vec<u8>)
    ensures
        r@ == record_line_spec(rec.level, prefix@, rec.text@),
{
    let mut v: Vec<u8> = Vec::new();
    v.push(60);
    let p = encode_priority(rec.level);
    push_decimal(p as u64, &mut v);
    v.push(62);
    extend_bytes(&mut v, prefix);
    v.push(58);
    v.push(32);
    extend_bytes(&mut v, rec.text.as_slice());
    v.push(10);
    assert(v@ =~= record_line_spec(rec.level, prefix@, rec.text@));
    v
}

/// The priority header of a record line is independent of the prefix and of
/// the message text: two lines at the same severity share it byte for byte.
pub proof fn lemma_header_independent_of_text(
    l: Level,
    p1: Seq<u8>,
    t1: Seq<u8>,
    p2: Seq<u8>,
    t2: Seq<u8>,
)
    ensures
        record_line_spec(l, p1, t1).take(line_header(l).len() as int)
            == record_line_spec(l, p2, t2).take(line_header(l).len() as int),
        record_line_spec(l, p1, t1).take(line_header(l).len() as int) == line_header(l),
{
    assert(record_line_spec(l, p1, t1).take(line_header(l).len() as int) =~= line_header(l));
    assert(record_line_spec(l, p2, t2).take(line_header(l).len() as int) =~= line_header(l));
}

} // verus!
