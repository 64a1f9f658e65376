//! The line framing of the engine's output: one message per line, written as
//! the numeral of the connection it came from, a colon, and the message text.

use vstd::prelude::*;
use vstd::string::StrSliceExecFns;
use crate::decimal::{
    decimal_digits, is_digit, lemma_parse_of_digits, parse_u32, parse_u32_in, unsigned_part,
};
use crate::event::{DecodeError, EventView, IncomingMessageEvent};
use crate::registry::ConnectionId;
use crate::text::chars_of;

verus! {

/// Whether the first colon of `line` is at position `i`.
pub open spec fn splits_at(line: Seq<char>, i: int) -> bool {
    &&& 0 <= i < line.len()
    &&& line[i] == ':'
    &&& forall|j: int| 0 <= j < i ==> line[j] != ':'
}

/// What a line says: the identifier before its first colon and the text
/// after it, if there is a colon and what stands before it is a numeral
/// that fits an identifier.
pub open spec fn decode(line: Seq<char>) -> Option<(ConnectionId, Seq<char>)> {
    if exists|i: int| splits_at(line, i) {
        let i = choose|i: int| splits_at(line, i);
        match parse_u32(line.subrange(0, i)) {
            Some(id) => Some((id, line.subrange(i + 1, line.len() as int))),
            None => None,
        }
    } else {
        None
    }
}

/// The line that frames `text` as a message from `id`: the shortest numeral
/// of the identifier, a colon, and the text.
pub open spec fn frame(id: ConnectionId, text: Seq<char>) -> Seq<char> {
    decimal_digits(id as nat) + seq![':'] + text
}

/// The event that a line of engine output read at time `now` gives rise to:
/// the message it frames, or a decode error that quotes the line.
pub open spec fn event_of_line(line: Seq<char>, now: u64) -> EventView {
    match decode(line) {
        Some((source_id, text)) => EventView::Incoming { source_id, text, received_at: now },
        None => EventView::DecodeError { raw_line: line },
    }
}

/// A line has one first colon at most.
pub proof fn lemma_split_unique(line: Seq<char>, i: int, j: int)
    requires
        splits_at(line, i),
        splits_at(line, j),
    ensures
        i == j,
{
}

/// A numeral followed by a colon and a text decodes to the identifier that
/// the numeral denotes and to the text as it stands, colons in the text
/// included.
pub proof fn lemma_decode_framed(numeral: Seq<char>, text: Seq<char>)
    requires
        parse_u32(numeral) is Some,
    ensures
        decode(numeral + seq![':'] + text) == Some((parse_u32(numeral)->Some_0, text)),
{
    let line = numeral + seq![':'] + text;
    let at = numeral.len() as int;
    assert forall|j: int| 0 <= j < at implies line[j] != ':' by {
        assert(line[j] == numeral[j]);
        if !(j == 0 && numeral[0] == '+') {
            let digits = unsigned_part(numeral);
            let k = if numeral[0] == '+' {
                j - 1
            } else {
                j
            };
            assert(digits[k] == numeral[j]);
            assert(is_digit(digits[k]));
        }
    }
    assert(splits_at(line, at));
    let chosen = choose|i: int| splits_at(line, i);
    lemma_split_unique(line, at, chosen);
    assert(line.subrange(0, at) =~= numeral);
    assert(line.subrange(at + 1, line.len() as int) =~= text);
}

/// Framing a message and decoding the line gives back the identifier and
/// the text, whatever the text holds.
pub proof fn lemma_decode_of_frame(id: ConnectionId, text: Seq<char>)
    ensures
        decode(frame(id, text)) == Some((id, text)),
{
    lemma_parse_of_digits(id);
    lemma_decode_framed(decimal_digits(id as nat), text);
}

/// A line without a colon is a decode error.
pub proof fn lemma_no_colon_rejected(line: Seq<char>)
    requires
        forall|i: int| 0 <= i < line.len() ==> line[i] != ':',
    ensures
        decode(line) is None,
{
}

/// A line whose part before the first colon is not the numeral of an
/// identifier is a decode error.
pub proof fn lemma_bad_prefix_rejected(line: Seq<char>, at: int)
    requires
        splits_at(line, at),
        parse_u32(line.subrange(0, at)) is None,
    ensures
        decode(line) is None,
{
    let chosen = choose|i: int| splits_at(line, i);
    lemma_split_unique(line, at, chosen);
}

/// Decodes one line of the listening engine's output.
pub fn decode_line(line: &str, received_at: u64) -> (r: Result<IncomingMessageEvent, DecodeError>)
    ensures
        match r {
            Ok(event) => decode(line@) == Some((event.source_id, event.text@))
                && event.received_at == received_at,
            Err(error) => decode(line@) is None && error.raw_line@ == line@,
        },
{
    let chars = chars_of(line);
    let n = chars.len();
    let mut i: usize = 0;
    while i < n && chars[i] != ':'
        invariant
            i <= n,
            n == chars.len(),
            forall|j: int| 0 <= j < i ==> chars@[j] != ':',
        decreases n - i,
    {
        i += 1;
    }
    if i == n {
        assert(forall|k: int| !splits_at(line@, k));
        return Err(DecodeError { raw_line: line.to_owned() });
    }
    assert(splits_at(line@, i as int));
    proof {
        let k = choose|k: int| splits_at(line@, k);
        lemma_split_unique(line@, i as int, k);
    }
    match parse_u32_in(&chars, 0, i) {
        Some(source_id) => {
            let text = line.substring_char(i + 1, n).to_owned();
            Ok(IncomingMessageEvent { source_id, text, received_at })
        },
        None => Err(DecodeError { raw_line: line.to_owned() }),
    }
}

} // verus!
