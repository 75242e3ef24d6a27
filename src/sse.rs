use vstd::prelude::*;
use crate::error::{DispatchError, ErrorView};
use crate::json::{deref_opt, element_of, field_of, parse_json, parsed_json, text_field, Json};
use crate::models::{
    assistant_message, assistant_text_message, item_view, items_view, EventView, ResponseEvent,
};

verus! {

/// What the frame reader produced for one read under the idle watchdog.
#[derive(Debug)]
pub enum FrameInput {
    /// The `data` payload of one server-sent-event frame.
    Data(String),
    /// The byte stream failed; the text describes the failure.
    ReadError(String),
    /// The byte stream ended cleanly.
    Closed,
    /// No frame arrived within the idle window.
    IdleTimeout,
}

/// What the decoder does with one input.
#[derive(Debug)]
pub enum DecodeStep {
    /// Nothing to emit; read the next frame.
    Skip,
    /// Emit this event and read the next frame.
    Emit(ResponseEvent),
    /// Emit this item and stop.
    Finish(Result<ResponseEvent, DispatchError>),
}

/// Model of a `DecodeStep`.
pub enum StepView {
    Skip,
    Emit(EventView),
    Finish(Result<EventView, ErrorView>),
}

impl View for DecodeStep {
    type V = StepView;

    open spec fn view(&self) -> StepView {
        match self {
            DecodeStep::Skip => StepView::Skip,
            DecodeStep::Emit(e) => StepView::Emit(e@),
            DecodeStep::Finish(r) => StepView::Finish(item_view(*r)),
        }
    }
}

/// A character of the Unicode `White_Space` property, which is what
/// `char::is_whitespace` and `str::trim` go by.
pub open spec fn is_white_space(c: char) -> bool {
    let u = c as u32;
    (0x9 <= u <= 0xD) || u == 0x20 || u == 0x85 || u == 0xA0 || u == 0x1680 || (0x2000 <= u
        <= 0x200A) || u == 0x2028 || u == 0x2029 || u == 0x202F || u == 0x205F || u == 0x3000
}

/// `s` without its leading white space.
pub open spec fn trim_start(s: Seq<char>) -> Seq<char>
    decreases s.len(),
{
    if s.len() > 0 && is_white_space(s[0]) {
        trim_start(s.drop_first())
    } else {
        s
    }
}

/// `s` without its trailing white space.
pub open spec fn trim_end(s: Seq<char>) -> Seq<char>
    decreases s.len(),
{
    if s.len() > 0 && is_white_space(s.last()) {
        trim_end(s.drop_last())
    } else {
        s
    }
}

/// `s` without leading and trailing white space.
pub open spec fn trimmed(s: Seq<char>) -> Seq<char> {
    trim_end(trim_start(s))
}

/// Relies on `str::trim`, documented to remove the leading and trailing
/// characters of the Unicode `White_Space` property.
#[verifier::external_body]
fn trim_text(s: &str) -> (r: &str)
    ensures
        r@ == trimmed(s@),
{
    s.trim()
}

/// The payload that ends a stream.
pub open spec fn done_sentinel() -> Seq<char> {
    "[DONE]"@
}

/// The detail of the error that an idle stream ends with.
pub open spec fn idle_timeout_detail() -> Seq<char> {
    "idle timeout waiting for SSE"@
}

/// The incremental text at `choices[0].delta.content`, when it is a string.
pub open spec fn delta_of(j: Json) -> Option<Seq<char>> {
    match field_of(j, "choices"@) {
        Some(choices) => match element_of(choices, 0) {
            Some(first) => match field_of(first, "delta"@) {
                Some(delta) => text_field(delta, "content"@),
                None => None,
            },
            None => None,
        },
        None => None,
    }
}

/// What the decoder does with a frame payload whose trimmed text is
/// `trimmed_text` and whose JSON document, if it is one, is `chunk`.
pub open spec fn payload_step(trimmed_text: Seq<char>, chunk: Option<Json>) -> StepView {
    if trimmed_text == done_sentinel() {
        StepView::Finish(Ok(EventView::Completed(Seq::empty())))
    } else {
        match chunk {
            Some(j) => match delta_of(j) {
                Some(t) => StepView::Emit(EventView::OutputItemDone(assistant_text_message(t))),
                None => StepView::Skip,
            },
            None => StepView::Skip,
        }
    }
}

/// What the decoder does with one input.
pub open spec fn decode_step(input: FrameInput) -> StepView {
    match input {
        FrameInput::Data(d) => payload_step(trimmed(d@), parsed_json(d@)),
        FrameInput::ReadError(e) => StepView::Finish(Err(ErrorView::Stream(e@))),
        FrameInput::Closed => StepView::Finish(Ok(EventView::Completed(Seq::empty()))),
        FrameInput::IdleTimeout => StepView::Finish(Err(ErrorView::Stream(idle_timeout_detail()))),
    }
}

/// The queue items that a run of inputs produces: every emitted event in
/// order, up to and including the first finishing item.
pub open spec fn decode_all(inputs: Seq<FrameInput>) -> Seq<Result<EventView, ErrorView>>
    decreases inputs.len(),
{
    if inputs.len() == 0 {
        Seq::empty()
    } else {
        match decode_step(inputs[0]) {
            StepView::Skip => decode_all(inputs.drop_first()),
            StepView::Emit(e) => seq![Ok(e)] + decode_all(inputs.drop_first()),
            StepView::Finish(r) => seq![r],
        }
    }
}

/// The delta text of a JSON chunk.
pub fn chunk_delta(j: &Json) -> (r: Option<String>)
    ensures
        match r {
            Some(t) => delta_of(*j) == Some(t@),
            None => delta_of(*j).is_none(),
        },
{
    match j.get_field("choices") {
        Some(choices) => match choices.get_element(0) {
            Some(first) => match first.get_field("delta") {
                Some(delta) => match delta.get_field("content") {
                    Some(content) => match content.as_text() {
                        Some(t) => Some(t.clone()),
                        None => None,
                    },
                    None => None,
                },
                None => None,
            },
            None => None,
        },
        None => None,
    }
}

/// Decodes a frame payload from its trimmed text and its JSON document.
pub fn decode_payload(trimmed_text: &str, chunk: Option<&Json>) -> (r: DecodeStep)
    ensures
        r@ == payload_step(trimmed_text@, deref_opt(chunk)),
{
    if same_chars(trimmed_text, "[DONE]") {
        DecodeStep::Finish(Ok(ResponseEvent::Completed { response_id: String::new() }))
    } else {
        match chunk {
            Some(j) => match chunk_delta(j) {
                Some(text) => DecodeStep::Emit(
                    ResponseEvent::OutputItemDone(assistant_message(text)),
                ),
                None => DecodeStep::Skip,
            },
            None => DecodeStep::Skip,
        }
    }
}

/// Decodes one input of the frame reader.
pub fn decode_frame(input: &FrameInput) -> (r: DecodeStep)
    ensures
        r@ == decode_step(*input),
{
    match input {
        FrameInput::Data(d) => {
            let t = trim_text(d.as_str());
            if same_chars(t, "[DONE]") {
                decode_payload(t, None)
            } else {
                let parsed = parse_json(d.as_str());
                match &parsed {
                    Some(j) => decode_payload(t, Some(j)),
                    None => decode_payload(t, None),
                }
            }
        },
        FrameInput::ReadError(e) => DecodeStep::Finish(Err(DispatchError::Stream(e.clone()))),
        FrameInput::Closed => DecodeStep::Finish(
            Ok(ResponseEvent::Completed { response_id: String::new() }),
        ),
        FrameInput::IdleTimeout => DecodeStep::Finish(
            Err(DispatchError::Stream(String::from_str("idle timeout waiting for SSE"))),
        ),
    }
}

/// Whether two texts hold the same characters.
fn same_chars(a: &str, b: &str) -> (r: bool)
    ensures
        r == (a@ == b@),
{
    let x = String::from_str(a);
    crate::json::same_text(&x, b)
}

/// Decodes a run of inputs, stopping at the first finishing item.
pub fn decode_frames(inputs: &Vec<FrameInput>) -> (r: Vec<Result<ResponseEvent, DispatchError>>)
    ensures
        items_view(r@) == decode_all(inputs@),
{
    let mut out: Vec<Result<ResponseEvent, DispatchError>> = Vec::new();
    let mut i: usize = 0;
    assert(inputs@.subrange(0, inputs@.len() as int) =~= inputs@);
    while i < inputs.len()
        invariant
            i <= inputs@.len(),
            items_view(out@) + decode_all(inputs@.subrange(i as int, inputs@.len() as int))
                == decode_all(inputs@),
        decreases inputs.len() - i,
    {
        let ghost rest = inputs@.subrange(i as int, inputs@.len() as int);
        let ghost before = items_view(out@);
        assert(rest.drop_first() =~= inputs@.subrange(i + 1, inputs@.len() as int));
        assert(rest[0] == inputs@[i as int]);
        match decode_frame(&inputs[i]) {
            DecodeStep::Skip => {},
            DecodeStep::Emit(e) => {
                out.push(Ok(e));
                proof {
                    assert(items_view(out@) =~= before + seq![item_view(out@.last())]);
                    let tail = decode_all(inputs@.subrange(i + 1, inputs@.len() as int));
                    assert(before + (seq![item_view(out@.last())] + tail) =~= (before + seq![
                        item_view(out@.last()),
                    ]) + tail);
                }
            },
            DecodeStep::Finish(x) => {
                out.push(x);
                proof {
                    assert(items_view(out@) =~= before + seq![item_view(out@.last())]);
                }
                return out;
            },
        }
        i = i + 1;
    }
    assert(inputs@.subrange(i as int, inputs@.len() as int) =~= Seq::<FrameInput>::empty());
    assert(items_view(out@) + Seq::<Result<EventView, ErrorView>>::empty() =~= items_view(out@));
    out
}

/// Whether some input of `inputs` finishes the stream.
pub open spec fn finishes(inputs: Seq<FrameInput>) -> bool {
    exists|i: int| 0 <= i < inputs.len() && decode_step(inputs[i]) is Finish
}

/// An idle timeout ends the stream: after whatever the inputs before it
/// emitted, the decoder yields one `Stream` error and nothing more,
/// whatever would have followed.
pub proof fn lemma_idle_timeout_ends_stream(before: Seq<FrameInput>, after: Seq<FrameInput>)
    requires
        !finishes(before),
    ensures
        decode_all(before + seq![FrameInput::IdleTimeout] + after) == decode_all(before) + seq![
            Err::<EventView, ErrorView>(ErrorView::Stream(idle_timeout_detail())),
        ],
    decreases before.len(),
{
    let whole = before + seq![FrameInput::IdleTimeout] + after;
    let idle = seq![Err::<EventView, ErrorView>(ErrorView::Stream(idle_timeout_detail()))];
    if before.len() == 0 {
        assert(whole[0] == FrameInput::IdleTimeout);
        assert(decode_all(before) =~= Seq::empty());
        assert(decode_all(before) + idle =~= idle);
    } else {
        let tail = before.drop_first();
        assert(!finishes(tail)) by {
            if finishes(tail) {
                let i = choose|i: int| 0 <= i < tail.len() && decode_step(tail[i]) is Finish;
                assert(before[i + 1] == tail[i]);
            }
        }
        assert(!(decode_step(before[0]) is Finish)) by {
            if decode_step(before[0]) is Finish {
                assert(0 <= 0 < before.len());
            }
        }
        lemma_idle_timeout_ends_stream(tail, after);
        assert(whole.drop_first() =~= tail + seq![FrameInput::IdleTimeout] + after);
        assert(whole[0] == before[0]);
        match decode_step(before[0]) {
            StepView::Emit(e) => {
                assert(seq![Ok(e)] + (decode_all(tail) + idle) =~= (seq![Ok(e)] + decode_all(tail))
                    + idle);
            },
            _ => {},
        }
    }
}

/// A frame that is neither the end sentinel nor JSON is skipped: the
/// queue items are those of the same inputs without it.
pub proof fn lemma_malformed_frame_skipped(
    before: Seq<FrameInput>,
    data: String,
    after: Seq<FrameInput>,
)
    requires
        trimmed(data@) != done_sentinel(),
        parsed_json(data@).is_none(),
    ensures
        decode_all(before + seq![FrameInput::Data(data)] + after) == decode_all(before + after),
    decreases before.len(),
{
    let whole = before + seq![FrameInput::Data(data)] + after;
    if before.len() == 0 {
        assert(whole[0] == FrameInput::Data(data));
        assert(whole.drop_first() =~= before + after);
    } else {
        let tail = before.drop_first();
        lemma_malformed_frame_skipped(tail, data, after);
        assert(whole.drop_first() =~= tail + seq![FrameInput::Data(data)] + after);
        assert((before + after).drop_first() =~= tail + after);
        assert(whole[0] == before[0]);
        assert((before + after)[0] == before[0]);
    }
}

/// The end sentinel, as a frame payload with or without surrounding white
/// space, completes the stream.
pub proof fn lemma_done_frame_completes(data: String)
    requires
        trimmed(data@) == done_sentinel() || data@ == done_sentinel(),
    ensures
        decode_step(FrameInput::Data(data)) == StepView::Finish(
            Ok::<EventView, ErrorView>(EventView::Completed(Seq::empty())),
        ),
{
    reveal_strlit("[DONE]");
    let s = done_sentinel();
    assert(s.len() == 6 && s[0] == '[' && s[5] == ']');
    assert(!is_white_space(s[0]));
    assert(trim_start(s) == s);
    assert(!is_white_space(s.last()));
    assert(trim_end(s) == s);
}

} // verus!
