//! The escape sequences that draw a frame.
//!
//! A frame's base64 payload is sent in chunks of at most `CHUNK_SIZE`
//! characters. Each chunk travels in an escape sequence of its own,
//!
//! ```text
//! ESC _ G a=T,f=24,t=d,s=<width>,v=<height>,x=<x>,y=<y>,m=<0|1> ; <chunk> ESC \
//! ```
//!
//! which repeats the size of the frame and its offset, and says with `m=1`
//! that another chunk follows. Only the last chunk says `m=0`.

use crate::command::{plan_view, push_queued, Command, CommandView};
use crate::text::{append_decimal, append_signed_decimal, decimal, signed_decimal};
use vstd::prelude::*;
use vstd::string::{is_ascii_spec_bytes, StrSliceExecFns, StringExecFns};

verus! {

/// The largest number of payload characters in one escape sequence.
pub const CHUNK_SIZE: usize = 4096;

/// The number of chunks that a payload of `payload_len` characters is sent
/// in: `payload_len / CHUNK_SIZE`, rounded up.
pub open spec fn chunk_count(payload_len: nat) -> nat {
    ((payload_len + CHUNK_SIZE - 1) / (CHUNK_SIZE as int)) as nat
}

/// Where chunk `index` starts in the payload.
pub open spec fn chunk_start(index: int) -> int {
    index * CHUNK_SIZE
}

/// Where chunk `index` ends in a payload of `payload_len` characters.
pub open spec fn chunk_end(payload_len: nat, index: int) -> int {
    if chunk_start(index + 1) <= payload_len {
        chunk_start(index + 1)
    } else {
        payload_len as int
    }
}

/// The part of the payload that chunk `index` carries.
pub open spec fn chunk_of(payload: Seq<char>, index: int) -> Seq<char> {
    payload.subrange(chunk_start(index), chunk_end(payload.len(), index))
}

/// The parts that a payload is sent in, in order.
pub open spec fn chunks_of(payload: Seq<char>) -> Seq<Seq<char>> {
    Seq::new(chunk_count(payload.len()), |index: int| chunk_of(payload, index))
}

/// The size of a frame in pixels and the offset that it is placed at. Every
/// chunk of the frame repeats them.
pub struct Placement {
    pub width: nat,
    pub height: nat,
    pub x: int,
    pub y: int,
}

/// The placement of a frame of `width` by `height` pixels at `offset`.
pub open spec fn placement(width: usize, height: usize, offset: (isize, isize)) -> Placement {
    Placement { width: width as nat, height: height as nat, x: offset.0 as int, y: offset.1 as int }
}

/// The flag that says whether more chunks follow.
pub open spec fn more_flag(more: bool) -> Seq<char> {
    if more {
        "1"@
    } else {
        "0"@
    }
}

/// What stands before the payload of a chunk: the action (transmit and
/// display), the format (24-bit RGB), the medium (direct), the size of the
/// frame in pixels, its offset, and whether more chunks follow.
pub open spec fn chunk_header(frame: Placement, more: bool) -> Seq<char> {
    "\x1b_Ga=T,f=24,t=d,s="@ + decimal(frame.width) + ",v="@ + decimal(frame.height) + ",x="@
        + signed_decimal(frame.x) + ",y="@ + signed_decimal(frame.y) + ",m="@ + more_flag(more)
        + ";"@
}

/// What stands behind the payload of a chunk.
pub open spec fn chunk_trailer() -> Seq<char> {
    "\x1b\\"@
}

/// The escape sequence of one chunk.
pub open spec fn framed_chunk(frame: Placement, more: bool, chunk: Seq<char>) -> Seq<char> {
    chunk_header(frame, more) + chunk + chunk_trailer()
}

/// Whether chunk `index` of a payload is followed by another.
pub open spec fn has_successor(payload_len: nat, index: int) -> bool {
    index + 1 < chunk_count(payload_len)
}

/// The escape sequences of a frame, in order: one for each chunk of the
/// payload, all but the last of them announcing that more follow.
pub open spec fn framed_chunks(frame: Placement, payload: Seq<char>) -> Seq<Seq<char>> {
    Seq::new(
        chunk_count(payload.len()),
        |index: int|
            framed_chunk(frame, has_successor(payload.len(), index), chunk_of(payload, index)),
    )
}

/// The plan that draws a frame: the cursor to the origin, the escape
/// sequences in order, one flush.
pub open spec fn frame_plan(frame: Placement, payload: Seq<char>) -> Seq<CommandView> {
    seq![CommandView::MoveTo(0, 0)] + framed_chunks(frame, payload).map_values(
        |text: Seq<char>| CommandView::Print(text),
    ) + seq![CommandView::Flush]
}

/// The number of chunks is the payload's length over `CHUNK_SIZE`, rounded
/// up: the chunks hold the payload, and one fewer would not.
pub proof fn lemma_chunk_count_is_rounded_up(payload_len: nat)
    ensures
        chunk_count(payload_len) * CHUNK_SIZE >= payload_len,
        payload_len > 0 ==> (chunk_count(payload_len) - 1) * CHUNK_SIZE < payload_len,
        payload_len == 0 ==> chunk_count(payload_len) == 0,
        payload_len % 4096 == 0 ==> chunk_count(payload_len) == payload_len / 4096,
        payload_len % 4096 != 0 ==> chunk_count(payload_len) == payload_len / 4096 + 1,
{
}

/// Every chunk but the last is full, and the last is not empty.
pub proof fn lemma_chunk_sizes(payload: Seq<char>, index: int)
    requires
        0 <= index < chunk_count(payload.len()),
    ensures
        0 <= chunk_start(index) < chunk_end(payload.len(), index) <= payload.len(),
        chunk_of(payload, index).len() == chunk_end(payload.len(), index) - chunk_start(index),
        1 <= chunk_of(payload, index).len() <= CHUNK_SIZE,
        has_successor(payload.len(), index) ==> chunk_of(payload, index).len() == CHUNK_SIZE,
        has_successor(payload.len(), index) <==> chunk_end(payload.len(), index) < payload.len(),
{
}

/// The first `n` chunks, put together, are the payload up to the end of the
/// last of them.
proof fn lemma_chunks_prefix(payload: Seq<char>, n: int)
    requires
        0 <= n <= chunk_count(payload.len()),
    ensures
        n == 0 ==> chunks_of(payload).take(n).flatten() == Seq::<char>::empty(),
        n > 0 ==> chunks_of(payload).take(n).flatten() == payload.take(
            chunk_end(payload.len(), n - 1),
        ),
    decreases n,
{
    let chunks = chunks_of(payload);
    if n == 0 {
        assert(chunks.take(0) =~= Seq::<Seq<char>>::empty());
    } else {
        lemma_chunks_prefix(payload, n - 1);
        lemma_chunk_sizes(payload, n - 1);
        if n > 1 {
            lemma_chunk_sizes(payload, n - 2);
        }
        assert(chunks.take(n) =~= chunks.take(n - 1).push(chunk_of(payload, n - 1)));
        chunks.take(n - 1).lemma_flatten_push(chunk_of(payload, n - 1));
        assert(payload.take(chunk_start(n - 1)) + chunk_of(payload, n - 1) =~= payload.take(
            chunk_end(payload.len(), n - 1),
        ));
        assert(payload.take(0) =~= Seq::<char>::empty());
    }
}

/// The chunks, put together in order, are the payload: nothing is lost,
/// repeated or moved.
pub proof fn lemma_chunks_cover_payload(payload: Seq<char>)
    ensures
        chunks_of(payload).flatten() == payload,
{
    let chunks = chunks_of(payload);
    let count = chunk_count(payload.len()) as int;
    lemma_chunks_prefix(payload, count);
    assert(chunks.take(count) =~= chunks);
    if count > 0 {
        lemma_chunk_sizes(payload, count - 1);
        assert(payload.take(payload.len() as int) =~= payload);
    } else {
        assert(payload =~= Seq::<char>::empty());
    }
}

/// The escape sequence of chunk `index` of a frame carries that chunk of the
/// payload, with `m=1` before every chunk but the last and `m=0` before the
/// last.
pub proof fn lemma_framed_chunk_flags(frame: Placement, payload: Seq<char>, index: int)
    requires
        0 <= index < chunk_count(payload.len()),
    ensures
        framed_chunks(frame, payload).len() == chunk_count(payload.len()),
        index + 1 < chunk_count(payload.len()) ==> framed_chunks(frame, payload)[index]
            == chunk_header(frame, true) + chunk_of(payload, index) + chunk_trailer(),
        index + 1 == chunk_count(payload.len()) ==> framed_chunks(frame, payload)[index]
            == chunk_header(frame, false) + chunk_of(payload, index) + chunk_trailer(),
        more_flag(true) == "1"@,
        more_flag(false) == "0"@,
{
}

/// A frame's plan moves the cursor once, prints one escape sequence for
/// each chunk, and flushes once at the end.
pub proof fn lemma_frame_plan_shape(frame: Placement, payload: Seq<char>)
    ensures
        frame_plan(frame, payload).len() == chunk_count(payload.len()) + 2,
        frame_plan(frame, payload).first() == CommandView::MoveTo(0, 0),
        frame_plan(frame, payload).last() == CommandView::Flush,
        forall|index: int|
            0 <= index < chunk_count(payload.len()) ==> #[trigger] frame_plan(frame, payload)[index
                + 1] == CommandView::Print(framed_chunks(frame, payload)[index]),
{
}

/// The escape sequence of one chunk.
pub fn framed_chunk_text(
    width: usize,
    height: usize,
    offset: (isize, isize),
    more: bool,
    chunk: &str,
) -> (text: String)
    ensures
        text@ == framed_chunk(placement(width, height, offset), more, chunk@),
{
    let mut text = String::new();
    text.append("\x1b_Ga=T,f=24,t=d,s=");
    append_decimal(&mut text, width);
    text.append(",v=");
    append_decimal(&mut text, height);
    text.append(",x=");
    append_signed_decimal(&mut text, offset.0);
    text.append(",y=");
    append_signed_decimal(&mut text, offset.1);
    text.append(",m=");
    text.append(
        if more {
            "1"
        } else {
            "0"
        },
    );
    text.append(";");
    text.append(chunk);
    text.append("\x1b\\");
    assert(text@ =~= framed_chunk(placement(width, height, offset), more, chunk@));
    text
}

/// The plan that draws a frame of `width` by `height` pixels at `offset`
/// from its encoded payload.
pub fn frame_commands(
    width: usize,
    height: usize,
    offset: (isize, isize),
    payload: &str,
) -> (plan: Vec<Command>)
    requires
        payload.is_ascii(),
    ensures
        plan_view(plan@) == frame_plan(placement(width, height, offset), payload@),
        plan@.len() == chunk_count(payload@.len()) + 2,
{
    proof {
        is_ascii_spec_bytes(payload);
    }
    let ghost frame = placement(width, height, offset);
    let ghost framed = framed_chunks(frame, payload@);
    let ghost print = |text: Seq<char>| CommandView::Print(text);
    let ghost count = chunk_count(payload@.len()) as int;
    let ghost mut index: int = 0;
    let len: usize = payload.as_bytes().len();
    let mut plan: Vec<Command> = Vec::new();
    push_queued(&mut plan, Command::MoveTo(0, 0));
    let mut start: usize = 0;
    proof {
        assert(framed.take(0).map_values(print) =~= Seq::empty());
        assert(plan_view(plan@) =~= seq![CommandView::MoveTo(0, 0)] + framed.take(0).map_values(
            print,
        ));
    }
    while start < len
        invariant
            payload.is_ascii(),
            len == payload@.len(),
            count == chunk_count(payload@.len()),
            frame == placement(width, height, offset),
            framed == framed_chunks(frame, payload@),
            print == |text: Seq<char>| CommandView::Print(text),
            0 <= index <= count,
            index < count ==> start == chunk_start(index),
            index == count ==> start == len,
            plan_view(plan@) == seq![CommandView::MoveTo(0, 0)] + framed.take(index).map_values(
                print,
            ),
        decreases len - start,
    {
        let is_last_chunk = len - start <= CHUNK_SIZE;
        let end: usize = if is_last_chunk {
            len
        } else {
            start + CHUNK_SIZE
        };
        proof {
            lemma_chunk_sizes(payload@, index);
        }
        let chunk = payload.substring_ascii(start, end);
        let text = framed_chunk_text(width, height, offset, !is_last_chunk, chunk);
        proof {
            assert(chunk@ == chunk_of(payload@, index));
            assert(text@ == framed[index]);
            assert(framed.take(index + 1).map_values(print) =~= framed.take(index).map_values(
                print,
            ).push(CommandView::Print(text@)));
        }
        push_queued(&mut plan, Command::Print(text));
        proof {
            assert(plan_view(plan@) =~= seq![CommandView::MoveTo(0, 0)] + framed.take(
                index + 1,
            ).map_values(print));
            index = index + 1;
        }
        start = end;
    }
    push_queued(&mut plan, Command::Flush);
    proof {
        assert(framed.take(count) =~= framed);
        assert(plan_view(plan@) =~= frame_plan(frame, payload@));
    }
    plan
}

} // verus!
