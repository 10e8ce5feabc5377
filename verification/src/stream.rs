//! Normalization of a server-sent-event payload into the ordered list of
//! JSON data events, stopping at the `[DONE]` sentinel.

use vstd::prelude::*;

use crate::json::json_parse_spec;
use crate::json::parse_json_text;
use crate::text::chars_vec;
use crate::text::has_prefix;
use crate::text::join1;
use crate::text::join1_vec;
use crate::text::split1;
use crate::text::split1_vec;
use crate::text::split2;
use crate::text::split2_vec;
use crate::text::starts_with_str;
use crate::text::string_of;
use crate::text::subvec;
use crate::text::trim_spec;
use crate::text::trim_vec;

verus! {

/// The text with every `\r\n` pair replaced by `\n`, scanning left to right.
pub open spec fn replace_crlf(s: Seq<char>) -> Seq<char>
    decreases s.len(),
{
    if s.len() >= 2 && s[0] == '\r' && s[1] == '\n' {
        seq!['\n'] + replace_crlf(s.skip(2))
    } else if s.len() == 0 {
        s
    } else {
        seq![s[0]] + replace_crlf(s.skip(1))
    }
}

/// Replaces every `\r\n` pair by `\n`.
pub fn replace_crlf_vec(v: &Vec<char>) -> (r: Vec<char>)
    ensures
        r@ == replace_crlf(v@),
{
    let mut out: Vec<char> = Vec::new();
    let mut i: usize = 0;
    proof {
        assert(v@.skip(0) =~= v@);
    }
    while i < v.len()
        invariant
            i <= v@.len(),
            replace_crlf(v@) == out@ + replace_crlf(v@.skip(i as int)),
        decreases v@.len() - i,
    {
        let ghost old_out = out@;
        let ghost tail = v@.skip(i as int);
        if v[i] == '\r' && i + 1 < v.len() && v[i + 1] == '\n' {
            out.push('\n');
            proof {
                assert(tail.skip(2) =~= v@.skip(i + 2));
                assert(replace_crlf(tail) == seq!['\n'] + replace_crlf(v@.skip(i + 2)));
                assert(old_out + (seq!['\n'] + replace_crlf(v@.skip(i + 2))) =~= out@
                    + replace_crlf(v@.skip(i + 2)));
            }
            i = i + 2;
        } else {
            let c = v[i];
            out.push(c);
            proof {
                assert(tail.skip(1) =~= v@.skip(i + 1));
                assert(tail[0] == v@[i as int]);
                assert(replace_crlf(tail) == seq![v@[i as int]] + replace_crlf(v@.skip(i + 1)));
                assert(old_out + (seq![v@[i as int]] + replace_crlf(v@.skip(i + 1))) =~= out@
                    + replace_crlf(v@.skip(i + 1)));
            }
            i = i + 1;
        }
    }
    proof {
        assert(v@.skip(v@.len() as int) =~= Seq::<char>::empty());
        assert(out@ + replace_crlf(Seq::<char>::empty()) =~= out@);
    }
    out
}

/// The data payload a single line contributes: the text after a `data:`
/// prefix, trimmed of surrounding whitespace.
pub open spec fn data_payload_of_line(line: Seq<char>) -> Option<Seq<char>> {
    if has_prefix(line, "data:"@) {
        Some(trim_spec(line.skip("data:"@.len() as int)))
    } else {
        None
    }
}

/// The payloads of the `data:` lines of a block, in order.
pub open spec fn data_lines_of(lines: Seq<Seq<char>>) -> Seq<Seq<char>>
    decreases lines.len(),
{
    if lines.len() == 0 {
        Seq::<Seq<char>>::empty()
    } else {
        let rest = data_lines_of(lines.skip(1));
        match data_payload_of_line(lines[0]) {
            Some(p) => seq![p] + rest,
            None => rest,
        }
    }
}

/// The joined data payload of one event block, if it has any `data:` line.
pub open spec fn block_payload(b: Seq<char>) -> Option<Seq<char>> {
    let dl = data_lines_of(split1(b, '\n'));
    if dl.len() == 0 {
        None
    } else {
        Some(join1(dl, '\n'))
    }
}

/// The JSON events contributed by the blocks, in order: blocks without a
/// data payload are skipped, the `[DONE]` sentinel stops processing, and a
/// payload that is not valid JSON contributes nothing.
pub open spec fn events_of_blocks(blocks: Seq<Seq<char>>) -> Seq<serde_json::Value>
    decreases blocks.len(),
{
    if blocks.len() == 0 {
        Seq::<serde_json::Value>::empty()
    } else {
        match block_payload(blocks[0]) {
            None => events_of_blocks(blocks.skip(1)),
            Some(p) => if p == "[DONE]"@ {
                Seq::<serde_json::Value>::empty()
            } else {
                match json_parse_spec(p) {
                    Some(v) => seq![v] + events_of_blocks(blocks.skip(1)),
                    None => events_of_blocks(blocks.skip(1)),
                }
            },
        }
    }
}

/// The ordered JSON data events of a raw event-stream text.
pub open spec fn sse_events(s: Seq<char>) -> Seq<serde_json::Value> {
    events_of_blocks(split2(replace_crlf(s), '\n', '\n'))
}

/// A block whose data payload is not valid JSON contributes no event and
/// does not stop the processing of the blocks after it.
pub proof fn lemma_malformed_block_dropped(blocks: Seq<Seq<char>>)
    requires
        blocks.len() > 0,
        block_payload(blocks[0]) matches Some(p) && p != "[DONE]"@ && json_parse_spec(p) is None,
    ensures
        events_of_blocks(blocks) == events_of_blocks(blocks.skip(1)),
{
}

/// The `[DONE]` sentinel stops processing: no later block contributes an
/// event.
pub proof fn lemma_done_stops_processing(blocks: Seq<Seq<char>>)
    requires
        blocks.len() > 0,
        block_payload(blocks[0]) == Some("[DONE]"@),
    ensures
        events_of_blocks(blocks) == Seq::<serde_json::Value>::empty(),
{
}

/// Parses a raw event-stream payload into its ordered JSON data events.
#[verifier::loop_isolation(false)]
pub fn parse_sse_chunks(payload: &str) -> (r: Vec<serde_json::Value>)
    ensures
        r@ == sse_events(payload@),
{
    let cs = chars_vec(payload);
    let normalized = replace_crlf_vec(&cs);
    let blocks = split2_vec(&normalized, '\n', '\n');
    let ghost bviews = blocks@.map_values(|x: Vec<char>| x@);
    let mut out: Vec<serde_json::Value> = Vec::new();
    let mut done = false;
    let mut i: usize = 0;
    proof {
        assert(bviews.skip(0) =~~= bviews);
    }
    while i < blocks.len() && !done
        invariant
            i <= blocks@.len(),
            bviews == blocks@.map_values(|x: Vec<char>| x@),
            !done ==> sse_events(payload@) == out@ + events_of_blocks(bviews.skip(i as int)),
            done ==> sse_events(payload@) == out@,
        decreases blocks@.len() - i + (if done {
            0int
        } else {
            1int
        }),
    {
        let ghost tail = bviews.skip(i as int);
        proof {
            assert(tail[0] == bviews[i as int]);
            assert(tail.skip(1) =~~= bviews.skip(i + 1));
        }
        let line_vecs = split1_vec(&blocks[i], '\n');
        let ghost lviews = line_vecs@.map_values(|x: Vec<char>| x@);
        let mut parts: Vec<Vec<char>> = Vec::new();
        let mut j: usize = 0;
        proof {
            assert(lviews.skip(0) =~~= lviews);
        }
        while j < line_vecs.len()
            invariant
                j <= line_vecs@.len(),
                lviews == line_vecs@.map_values(|x: Vec<char>| x@),
                data_lines_of(lviews) =~~= parts@.map_values(|x: Vec<char>| x@) + data_lines_of(
                    lviews.skip(j as int),
                ),
            decreases line_vecs@.len() - j,
        {
            let ghost ltail = lviews.skip(j as int);
            proof {
                assert(ltail[0] == lviews[j as int]);
                assert(ltail.skip(1) =~~= lviews.skip(j + 1));
            }
            let ghost old_parts = parts@;
            if starts_with_str(&line_vecs[j], "data:") {
                proof {
                    reveal_strlit("data:");
                }
                let stripped = subvec(&line_vecs[j], 5, line_vecs[j].len());
                proof {
                    assert(line_vecs@[j as int]@.subrange(5, line_vecs@[j as int]@.len() as int)
                        =~= line_vecs@[j as int]@.skip(5));
                }
                let trimmed = trim_vec(&stripped);
                parts.push(trimmed);
                proof {
                    assert(data_payload_of_line(lviews[j as int]) == Some(
                        trim_spec(lviews[j as int].skip(5)),
                    ));
                    assert(parts@.map_values(|x: Vec<char>| x@) =~~= old_parts.map_values(
                        |x: Vec<char>| x@,
                    ).push(trim_spec(lviews[j as int].skip(5))));
                    assert(data_lines_of(ltail) =~~= seq![trim_spec(lviews[j as int].skip(5))]
                        + data_lines_of(lviews.skip(j + 1)));
                }
            } else {
                proof {
                    reveal_strlit("data:");
                    assert(data_payload_of_line(lviews[j as int]) is None);
                    assert(data_lines_of(ltail) =~~= data_lines_of(lviews.skip(j + 1)));
                }
            }
            j = j + 1;
        }
        proof {
            assert(lviews.skip(lviews.len() as int) =~~= Seq::<Seq<char>>::empty());
            assert(data_lines_of(Seq::<Seq<char>>::empty()) =~~= Seq::<Seq<char>>::empty());
            assert(data_lines_of(lviews) =~~= parts@.map_values(|x: Vec<char>| x@));
        }
        if parts.len() == 0 {
            proof {
                assert(block_payload(tail[0]) is None);
            }
            i = i + 1;
        } else {
            let joined = join1_vec(&parts, '\n');
            let ghost p = join1(parts@.map_values(|x: Vec<char>| x@), '\n');
            proof {
                assert(block_payload(tail[0]) == Some(p));
            }
            if crate::text::vec_eq_str(&joined, "[DONE]") {
                done = true;
                proof {
                    assert(events_of_blocks(tail) =~= Seq::<serde_json::Value>::empty());
                    assert(out@ + events_of_blocks(tail) =~= out@);
                }
            } else {
                let js = string_of(&joined);
                match parse_json_text(js.as_str()) {
                    Ok(v) => {
                        let ghost old_out = out@;
                        out.push(v);
                        proof {
                            assert(old_out + (seq![v] + events_of_blocks(bviews.skip(i + 1))) =~=
                                out@ + events_of_blocks(bviews.skip(i + 1)));
                        }
                    },
                    Err(_) => {},
                }
                i = i + 1;
            }
        }
    }
    out
}

} // verus!
