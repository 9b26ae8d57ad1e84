//! The capabilities that a sandboxed process can call into: output, which is recorded, and
//! buffered input.

use std::fmt::Write;
use vstd::prelude::*;
use vstd::string::{StrSliceExecFns, StringExecFns};

verus! {

/// The number of bytes that a read of at most `max_bytes` takes from `waiting` bytes of input.
pub open spec fn read_len(waiting: nat, max_bytes: nat) -> nat {
    if waiting <= max_bytes {
        waiting
    } else {
        max_bytes
    }
}

/// The count that is reported for `length` accepted bytes: the length, held at the largest
/// value of the count's type.
pub open spec fn accepted(length: nat) -> int {
    if length <= i32::MAX {
        length as int
    } else {
        i32::MAX as int
    }
}

/// The bytes that a read of at most `max_bytes` hands out of the waiting input: its front.
pub open spec fn taken(waiting: Seq<u8>, max_bytes: nat) -> Seq<u8> {
    waiting.take(read_len(waiting.len(), max_bytes) as int)
}

/// The input that still waits after a read of at most `max_bytes`.
pub open spec fn left(waiting: Seq<u8>, max_bytes: nat) -> Seq<u8> {
    waiting.skip(read_len(waiting.len(), max_bytes) as int)
}

/// What successive reads hand out, one after the other, where the reads ask for at most
/// `limits[0]`, `limits[1]`, ... bytes.
pub open spec fn drained(waiting: Seq<u8>, limits: Seq<nat>) -> Seq<u8>
    decreases limits.len(),
{
    if limits.len() == 0 {
        Seq::empty()
    } else {
        taken(waiting, limits[0]) + drained(left(waiting, limits[0]), limits.drop_first())
    }
}

/// The input that still waits after those reads.
pub open spec fn remaining(waiting: Seq<u8>, limits: Seq<nat>) -> Seq<u8>
    decreases limits.len(),
{
    if limits.len() == 0 {
        waiting
    } else {
        remaining(left(waiting, limits[0]), limits.drop_first())
    }
}

/// The number of bytes that those reads ask for between them.
pub open spec fn total(limits: Seq<nat>) -> nat
    decreases limits.len(),
{
    if limits.len() == 0 {
        0
    } else {
        limits[0] + total(limits.drop_first())
    }
}

/// Reading loses and repeats nothing: what any series of reads hands out, followed by what
/// still waits, is the input as it was, byte for byte and in order.
pub proof fn lemma_reads_partition_input(waiting: Seq<u8>, limits: Seq<nat>)
    ensures
        drained(waiting, limits) + remaining(waiting, limits) == waiting,
    decreases limits.len(),
{
    if limits.len() > 0 {
        lemma_reads_partition_input(left(waiting, limits[0]), limits.drop_first());
        assert(taken(waiting, limits[0]) + left(waiting, limits[0]) == waiting);
        assert(drained(waiting, limits) + remaining(waiting, limits) == taken(waiting, limits[0])
            + (drained(left(waiting, limits[0]), limits.drop_first()) + remaining(
            left(waiting, limits[0]),
            limits.drop_first(),
        )));
    }
}

/// Reads that ask for at least as many bytes as wait drain the input: nothing waits after
/// them, and what they handed out is the whole input in order.
pub proof fn lemma_reads_drain_input(waiting: Seq<u8>, limits: Seq<nat>)
    requires
        total(limits) >= waiting.len(),
    ensures
        remaining(waiting, limits).len() == 0,
        drained(waiting, limits) == waiting,
    decreases limits.len(),
{
    if limits.len() > 0 {
        lemma_reads_drain_input(left(waiting, limits[0]), limits.drop_first());
    }
    lemma_reads_partition_input(waiting, limits);
    assert(drained(waiting, limits) + remaining(waiting, limits) == drained(waiting, limits));
}

/// The capability state that one sandboxed process runs against: who it is, the input that is
/// still waiting for it, and the records of its outputs. The input is fixed when the process is
/// created and only ever shrinks, from the front.
pub struct ShellboundState {
    pub process_id: u32,
    pub process_name: String,
    pub stdin_waiting: Vec<u8>,
    /// One record for every output that the process has emitted so far, oldest first.
    pub diagnostics: Vec<String>,
}

/// The decimal digit for a number below 10.
pub open spec fn digit(d: nat) -> char {
    if d == 0 {
        '0'
    } else if d == 1 {
        '1'
    } else if d == 2 {
        '2'
    } else if d == 3 {
        '3'
    } else if d == 4 {
        '4'
    } else if d == 5 {
        '5'
    } else if d == 6 {
        '6'
    } else if d == 7 {
        '7'
    } else if d == 8 {
        '8'
    } else {
        '9'
    }
}

/// A number in decimal, without leading zeros.
pub open spec fn decimal_text(n: nat) -> Seq<char>
    decreases n,
{
    if n < 10 {
        seq![digit(n)]
    } else {
        decimal_text(n / 10).push(digit(n % 10))
    }
}

/// The record of one output: when it was emitted, and the id and the name of the process that
/// emitted it.
pub open spec fn diagnostic(timestamp: Seq<char>, process_id: u32, process_name: Seq<char>) -> Seq<
    char,
> {
    "[write_stdout][t="@ + timestamp + "][pid="@ + decimal_text(process_id as nat) + "]: "@
        + process_name
}

/// Whether `after` is `before` with one more record, made at `timestamp`, and nothing else
/// changed.
pub open spec fn recorded(before: ShellboundState, after: ShellboundState, timestamp: Seq<char>) -> bool {
    &&& after.process_id == before.process_id
    &&& after.process_name == before.process_name
    &&& after.stdin_waiting == before.stdin_waiting
    &&& after.diagnostics@.len() == before.diagnostics@.len() + 1
    &&& after.diagnostics@.drop_last() == before.diagnostics@
    &&& after.diagnostics@.last()@ == diagnostic(
        timestamp,
        before.process_id,
        before.process_name@,
    )
}

/// `chrono::Local::now`, shown through `DateTime::format`: the local time of this moment in the
/// given format. Nothing is promised of the text: it depends on the clock and the time zone.
#[verifier::external_body]
fn timestamp(format: &str) -> (text: String)
{
    let mut text = String::new();
    let _ = write!(text, "{}", chrono::Local::now().format(format));
    text
}

/// The text of a decimal digit.
fn digit_text(d: u32) -> (text: &'static str)
    requires
        d < 10,
    ensures
        text@ == seq![digit(d as nat)],
{
    proof {
        reveal_strlit("0");
        reveal_strlit("1");
        reveal_strlit("2");
        reveal_strlit("3");
        reveal_strlit("4");
        reveal_strlit("5");
        reveal_strlit("6");
        reveal_strlit("7");
        reveal_strlit("8");
        reveal_strlit("9");
    }
    let text = if d == 0 {
        "0"
    } else if d == 1 {
        "1"
    } else if d == 2 {
        "2"
    } else if d == 3 {
        "3"
    } else if d == 4 {
        "4"
    } else if d == 5 {
        "5"
    } else if d == 6 {
        "6"
    } else if d == 7 {
        "7"
    } else if d == 8 {
        "8"
    } else {
        "9"
    };
    assert(text@ =~= seq![digit(d as nat)]);
    text
}

/// A number in decimal, without leading zeros.
pub fn decimal_string(n: u32) -> (text: String)
    ensures
        text@ == decimal_text(n as nat),
    decreases n,
{
    if n < 10 {
        String::from_str(digit_text(n))
    } else {
        let text = decimal_string(n / 10).concat(digit_text(n % 10));
        assert(text@ =~= decimal_text(n as nat));
        text
    }
}

impl ShellboundState {
    /// The state of a process that has not run yet: its identity, and the bytes of `input`, in
    /// UTF-8, waiting to be read.
    pub fn new(process_id: u32, process_name: String, input: String) -> (state: Self)
        ensures
            state.process_id == process_id,
            state.process_name == process_name,
            state.stdin_waiting@ == vstd::utf8::encode_utf8(input@),
            state.diagnostics@.len() == 0,
    {
        ShellboundState {
            process_id,
            process_name,
            stdin_waiting: input.as_str().as_bytes_vec(),
            diagnostics: Vec::new(),
        }
    }

    /// Records that the process emitted an output at the time that `timestamp` shows.
    pub fn record_output(&mut self, timestamp: &str)
        ensures
            recorded(*old(self), *final(self), timestamp@),
    {
        let line = String::from_str("[write_stdout][t=").concat(timestamp).concat("][pid=").concat(
            decimal_string(self.process_id).as_str(),
        ).concat("]: ").concat(self.process_name.as_str());
        self.diagnostics.push(line);
        assert(self.diagnostics@.drop_last() =~= old(self).diagnostics@);
    }

    /// Hands out the records of the outputs so far, oldest first, and keeps none of them.
    pub fn take_diagnostics(&mut self) -> (records: Vec<String>)
        ensures
            records@ == old(self).diagnostics@,
            final(self).diagnostics@.len() == 0,
            final(self).process_id == old(self).process_id,
            final(self).process_name == old(self).process_name,
            final(self).stdin_waiting == old(self).stdin_waiting,
    {
        let mut records: Vec<String> = Vec::new();
        std::mem::swap(&mut self.diagnostics, &mut records);
        records
    }

    /// Accepts output from the process. All of it is always accepted: the count that goes back
    /// is the length of `data`, or the largest count that the capability's 32-bit signed
    /// result can carry where the length is beyond it. The output is recorded with the local
    /// time of the moment, as hours, minutes, seconds and milliseconds; nothing else of the
    /// state changes.
    pub fn write_stdout(&mut self, data: Vec<u8>) -> (count: i32)
        ensures
            exists|stamp: Seq<char>| #[trigger] recorded(*old(self), *final(self), stamp),
            count == accepted(data@.len()),
            data@.len() <= i32::MAX ==> count == data@.len(),
    {
        let stamp = timestamp("%H:%M:%S%.3f");
        self.record_output(stamp.as_str());
        let length: usize = data.len();
        if length > i32::MAX as usize {
            i32::MAX
        } else {
            length as i32
        }
    }

    /// Takes up to `max_bytes` bytes from the front of the waiting input and hands them out.
    /// What was handed out is gone; on exhausted input the result is empty.
    pub fn read_stdin(&mut self, max_bytes: u32) -> (bytes: Vec<u8>)
        ensures
            bytes@ == taken(old(self).stdin_waiting@, max_bytes as nat),
            final(self).stdin_waiting@ == left(old(self).stdin_waiting@, max_bytes as nat),
            bytes@.len() <= max_bytes,
            final(self).process_id == old(self).process_id,
            final(self).process_name == old(self).process_name,
            final(self).diagnostics == old(self).diagnostics,
    {
        let waiting: usize = self.stdin_waiting.len();
        let n_to_read: usize = if waiting <= max_bytes as usize {
            waiting
        } else {
            max_bytes as usize
        };
        let rest = self.stdin_waiting.split_off(n_to_read);
        let mut bytes = rest;
        std::mem::swap(&mut self.stdin_waiting, &mut bytes);
        bytes
    }
}

} // verus!
