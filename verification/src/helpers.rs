//! The emission path: hash the payload, read the clock, format the line,
//! decide where it goes. The payload is read for its hash and its length and
//! then let go; no byte of it reaches the line.

use crate::clock::{is_timestamp, lemma_timestamp_chars};
use crate::hash::payload_hash;
use crate::line::{
    decimal, format_line, hash_field, hex16, is_lower_hex, lemma_decimal_shape, lemma_hex16_shape,
    lemma_line_layout, stamp_field, trace_line,
};
use crate::sink::{emission_of, emit_line, Emission, EmissionView, WriteTarget};
use vstd::prelude::*;

pub use crate::clock::ts;
pub use crate::hash::do_hash;

verus! {

/// The trace line of a payload seen at `location` at the instant `stamp`.
pub open spec fn trace_of(location: Seq<char>, payload: Seq<u8>, stamp: Seq<char>) -> Seq<char> {
    trace_line(location, payload_hash(payload), stamp, payload.len())
}

/// Whether `out` is what one emission of `payload` at `location` under
/// `target` comes to, at some instant.
pub open spec fn is_emission_of<W>(
    out: EmissionView,
    target: WriteTarget<W>,
    location: Seq<char>,
    payload: Seq<u8>,
) -> bool {
    exists|stamp: Seq<char>| #[trigger]
        is_timestamp(stamp) && out == emission_of(target, trace_of(location, payload, stamp))
}

/// Whether `out` holds one emission of `payload` at `location` under
/// `target`.
pub open spec fn is_traced<W>(
    out: Option<Emission>,
    target: WriteTarget<W>,
    location: Seq<char>,
    payload: Seq<u8>,
) -> bool {
    out matches Some(emission) && is_emission_of(emission@, target, location, payload)
}

/// In every emitted line the hash field is sixteen characters long, each of
/// them one of `0-9a-f`, and the timestamp field has the shape of a
/// timestamp.
pub proof fn lemma_format_invariant<W>(
    out: EmissionView,
    target: WriteTarget<W>,
    location: Seq<char>,
    payload: Seq<u8>,
)
    requires
        is_emission_of(out, target, location, payload),
    ensures
        hash_field(out.line(), location).len() == 16,
        forall|i: int| 0 <= i < 16 ==> is_lower_hex(#[trigger] hash_field(out.line(), location)[i]),
        is_timestamp(stamp_field(out.line(), location, payload.len())),
{
    let stamp = choose|stamp: Seq<char>| #[trigger]
        is_timestamp(stamp) && out == emission_of(target, trace_of(location, payload, stamp));
    let line = trace_of(location, payload, stamp);
    assert(out.line() =~= line);
    lemma_line_layout(location, payload_hash(payload), stamp, payload.len());
    lemma_hex16_shape(payload_hash(payload));
}

/// An emission for a location without a line break is one line: the line
/// itself holds no line break, and what a writer gets is the line and then
/// one newline.
pub proof fn lemma_one_line<W>(
    out: EmissionView,
    target: WriteTarget<W>,
    location: Seq<char>,
    payload: Seq<u8>,
)
    requires
        is_emission_of(out, target, location, payload),
        forall|i: int| 0 <= i < location.len() ==> location[i] != '\n',
    ensures
        forall|i: int| 0 <= i < out.line().len() ==> out.line()[i] != '\n',
        out matches EmissionView::Write { text } ==> text == out.line().push('\n'),
{
    let stamp = choose|stamp: Seq<char>| #[trigger]
        is_timestamp(stamp) && out == emission_of(target, trace_of(location, payload, stamp));
    let hash = payload_hash(payload);
    let size = payload.len();
    let line = trace_of(location, payload, stamp);
    assert(out.line() =~= line);
    lemma_line_layout(location, hash, stamp, size);
    lemma_hex16_shape(hash);
    lemma_decimal_shape(size);
    lemma_timestamp_chars(stamp);
    let l = location.len() as int;
    let s = stamp.len() as int;
    assert forall|i: int| 0 <= i < line.len() implies line[i] != '\n' by {
        if i < l {
            assert(line[i] == location[i]);
        } else if i == l {
        } else if i < l + 17 {
            assert(line[i] == hex16(hash)[i - l - 1]);
        } else if i == l + 17 {
        } else if i < l + 18 + s {
            assert(line[i] == stamp[i - l - 18]);
        } else if i == l + 18 + s {
        } else {
            assert(line[i] == decimal(size)[i - l - 19 - s]);
        }
    }
    if out is Write {
        assert(out->text =~= out.line().push('\n'));
    }
}

/// Formats the trace line of `payload` as of now. Needs no target, so a
/// program can call it before it takes the lock on its target.
pub fn current_line(location: &str, payload: &[u8]) -> (line: String)
    ensures
        exists|stamp: Seq<char>| #[trigger]
            is_timestamp(stamp) && line@ == trace_of(location@, payload@, stamp),
{
    let size = payload.len();
    let hash = do_hash(payload);
    let stamp = ts();
    format_line(location, hash, stamp.as_str(), size)
}

/// One emission: the line of `payload` at `location` as of now, and what is
/// to be done with it under `target`.
pub fn do_write<W>(target: &WriteTarget<W>, location: &str, payload: &[u8]) -> (out: Emission)
    ensures
        is_emission_of(out@, *target, location@, payload@),
{
    let line = current_line(location, payload);
    emit_line(target, line)
}

/// One emission if there is a payload, nothing at all if there is none.
pub fn do_write_maybe<W>(target: &WriteTarget<W>, location: &str, payload: Option<&[u8]>) -> (out:
    Option<Emission>)
    ensures
        payload is None ==> out is None,
        payload matches Some(bytes) ==> is_traced(out, *target, location@, bytes@),
{
    match payload {
        Some(bytes) => Some(do_write(target, location, bytes)),
        None => None,
    }
}

} // verus!
