use vstd::prelude::*;

use crate::text::{split_lines, starts_with, str_equal, strip_prefix, text_lines, trim, trimmed, views};

verus! {

/// The payload of a server-sent-events line: what follows `data: `.
pub open spec fn data_payload(line: Seq<char>) -> Option<Seq<char>> {
    if starts_with(line, "data: "@) {
        Some(line.skip("data: "@.len() as int))
    } else {
        None
    }
}

/// The payloads of the data lines among `lines`, in order.
pub open spec fn payloads_of(lines: Seq<Seq<char>>) -> Seq<Seq<char>>
    decreases lines.len(),
{
    if lines.len() == 0 {
        Seq::empty()
    } else {
        let prev = payloads_of(lines.drop_last());
        match data_payload(lines.last()) {
            Some(p) => prev.push(p),
            None => prev,
        }
    }
}

/// The payloads of the data lines of a chunk of an event stream.
pub open spec fn sse_payloads(text: Seq<char>) -> Seq<Seq<char>> {
    payloads_of(text_lines(text))
}

/// The payloads of the data lines of a chunk of an event stream, in order.
pub fn data_payloads(text: &str) -> (r: Vec<String>)
    ensures
        views(r@) == sse_payloads(text@),
{
    let lines = split_lines(text);
    let mut out: Vec<String> = Vec::new();
    let mut i: usize = 0;
    while i < lines.len()
        invariant
            i <= lines@.len(),
            views(lines@) == text_lines(text@),
            views(out@) == payloads_of(views(lines@).take(i as int)),
        decreases lines@.len() - i,
    {
        proof {
            assert(views(lines@).take(i + 1).drop_last() =~= views(lines@).take(i as int));
            assert(views(lines@).take(i + 1).last() == lines@[i as int]@);
        }
        match strip_prefix(lines[i].as_str(), "data: ") {
            Some(p) => {
                let ghost prev = out@;
                out.push(p);
                proof {
                    assert(views(out@) =~= views(prev).push(p@));
                }
            },
            None => {},
        }
        i = i + 1;
    }
    proof {
        assert(views(lines@).take(lines@.len() as int) =~= views(lines@));
    }
    out
}

/// The marker that ends a stream of chunks.
pub open spec fn is_done_marker(payload: Seq<char>) -> bool {
    trimmed(payload) == "[DONE]"@
}

/// The payload that decides what a chunk of an OpenAI-style stream gives: the
/// first data line's, unless there is none or it is the end marker.
pub open spec fn live_payload(text: Seq<char>) -> Option<Seq<char>> {
    let ps = sse_payloads(text);
    if ps.len() == 0 || is_done_marker(ps[0]) {
        None
    } else {
        Some(ps[0])
    }
}

/// The payload that decides what a chunk of an OpenAI-style stream gives.
pub fn stream_payload(text: &str) -> (r: Option<String>)
    ensures
        match r {
            Some(p) => live_payload(text@) == Some(p@),
            None => live_payload(text@) is None,
        },
{
    let mut ps = data_payloads(text);
    if ps.len() == 0 {
        return None;
    }
    let t = trim(ps[0].as_str());
    if str_equal(t.as_str(), "[DONE]") {
        None
    } else {
        let p = ps.swap_remove(0);
        Some(p)
    }
}

} // verus!
