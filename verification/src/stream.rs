//! The streaming event reducer: a state machine that folds the server's
//! incremental events into canonical output.  Text fragments are handed
//! out at once; tool-call fragments are accumulated per item identifier
//! and flushed into a completed call whenever the identifier changes or
//! the stream ends.

use vstd::prelude::*;
use vstd::string::StrSliceExecFns;
use vstd::string::StringExecFns;
use crate::history::view_opt;
use crate::model::{ClientError, ToolCall, ToolCallV, str_eq};
use crate::wire::{canonicalize_json, parse_event, spec_canonical_json, spec_parse_event};

verus! {

/// Mathematical mirror of `StreamEvent`.
pub struct StreamEventV {
    pub event_type: Option<Seq<char>>,
    pub delta: Option<Seq<char>>,
    pub item_id: Option<Seq<char>>,
    pub function_name: Option<Seq<char>>,
    pub args_chunk: Option<Seq<char>>,
}

/// The fields of one streamed event: its type, a text fragment, and the
/// tool-call item identifier with name and argument fragments.
pub struct StreamEvent {
    pub event_type: Option<String>,
    pub delta: Option<String>,
    pub item_id: Option<String>,
    pub function_name: Option<String>,
    pub args_chunk: Option<String>,
}

impl View for StreamEvent {
    type V = StreamEventV;

    open spec fn view(&self) -> StreamEventV {
        StreamEventV {
            event_type: view_opt(self.event_type),
            delta: view_opt(self.delta),
            item_id: view_opt(self.item_id),
            function_name: view_opt(self.function_name),
            args_chunk: view_opt(self.args_chunk),
        }
    }
}

/// View of a parse result.
pub open spec fn view_event_opt(r: Option<StreamEvent>) -> Option<StreamEventV> {
    match r {
        Some(e) => Some(e@),
        None => None,
    }
}

/// Mathematical mirror of `StreamAccumulator`.
pub struct AccV {
    pub tool_calls: Seq<ToolCallV>,
    pub current_id: Seq<char>,
    pub current_name: Seq<char>,
    pub current_args: Seq<char>,
    pub done: bool,
}

/// The reducer state: the calls flushed so far, the in-progress item
/// identifier with its accumulated name and argument text, and whether the
/// terminator has been seen.
pub struct StreamAccumulator {
    pub tool_calls: Vec<ToolCall>,
    pub current_id: String,
    pub current_name: String,
    pub current_args: String,
    pub done: bool,
}

impl View for StreamAccumulator {
    type V = AccV;

    open spec fn view(&self) -> AccV {
        AccV {
            tool_calls: Seq::new(
                self.tool_calls@.len(),
                |i: int| if 0 <= i < self.tool_calls@.len() {
                    self.tool_calls@[i]@
                } else {
                    ToolCallV { name: Seq::empty(), arguments: Seq::empty(), id: None }
                },
            ),
            current_id: self.current_id@,
            current_name: self.current_name@,
            current_args: self.current_args@,
            done: self.done,
        }
    }
}

/// The arguments a flushed call carries: the accumulated text in compact
/// form, or `null` when it does not parse.
pub open spec fn spec_args_of(raw: Seq<char>) -> Seq<char> {
    match spec_canonical_json(raw) {
        Some(t) => t,
        None => "null"@,
    }
}

/// The completed call a flush of this state would emit.
pub open spec fn spec_completed(st: AccV) -> ToolCallV {
    ToolCallV {
        name: st.current_name,
        arguments: spec_args_of(st.current_args),
        id: Some(st.current_id),
    }
}

/// Flush: the pending call is emitted when its name is non-empty; the
/// in-progress fields stay as they are.
pub open spec fn spec_flushed(st: AccV) -> AccV {
    if st.current_name.len() > 0 {
        AccV {
            tool_calls: st.tool_calls.push(spec_completed(st)),
            current_id: st.current_id,
            current_name: st.current_name,
            current_args: st.current_args,
            done: st.done,
        }
    } else {
        st
    }
}

/// Flush, then start accumulating for a new item identifier.
pub open spec fn spec_reset(st: AccV, id: Seq<char>) -> AccV {
    let f = spec_flushed(st);
    AccV {
        tool_calls: f.tool_calls,
        current_id: id,
        current_name: Seq::empty(),
        current_args: Seq::empty(),
        done: f.done,
    }
}

/// One event applied to a state: the next state, and the text fragment to
/// hand out, if any.  A text-delta event forwards its fragment; a
/// tool-code event flushes on an identifier change and appends the
/// fragments it carries; any other event is ignored.
pub open spec fn spec_step(st: AccV, ev: StreamEventV) -> (AccV, Option<Seq<char>>) {
    if ev.event_type == Some("response.output_text.delta"@) {
        (st, ev.delta)
    } else if ev.event_type == Some("response.tool_code.delta"@) {
        let st1 = match ev.item_id {
            Some(id) => if id != st.current_id {
                spec_reset(st, id)
            } else {
                st
            },
            None => st,
        };
        let st2 = AccV {
            tool_calls: st1.tool_calls,
            current_id: st1.current_id,
            current_name: match ev.function_name {
                Some(f) => st1.current_name + f,
                None => st1.current_name,
            },
            current_args: match ev.args_chunk {
                Some(a) => st1.current_args + a,
                None => st1.current_args,
            },
            done: st1.done,
        };
        (st2, None)
    } else {
        (st, None)
    }
}

/// Law: a tool-code event for the item already in progress completes
/// nothing; it only appends the fragments it carries to the accumulated
/// name and argument text, in arrival order.
pub proof fn lemma_fragment_append(st: AccV, ev: StreamEventV)
    requires
        ev.event_type == Some("response.tool_code.delta"@),
        ev.item_id matches Some(id) ==> id == st.current_id,
    ensures
        spec_step(st, ev).0.tool_calls == st.tool_calls,
        spec_step(st, ev).0.current_id == st.current_id,
        spec_step(st, ev).0.current_name == st.current_name + (match ev.function_name {
            Some(f) => f,
            None => Seq::<char>::empty(),
        }),
        spec_step(st, ev).0.current_args == st.current_args + (match ev.args_chunk {
            Some(a) => a,
            None => Seq::<char>::empty(),
        }),
        spec_step(st, ev).1 is None,
{
    reveal_strlit("response.output_text.delta");
    reveal_strlit("response.tool_code.delta");
    assert("response.output_text.delta"@.len() != "response.tool_code.delta"@.len());
    assert(st.current_name + Seq::<char>::empty() =~= st.current_name);
    assert(st.current_args + Seq::<char>::empty() =~= st.current_args);
}

/// Law: a tool-code event for a new item identifier, arriving while a
/// named call is in progress, completes exactly that call: the flushed
/// calls grow by the completed one, the calls flushed earlier and their
/// order are kept, and the new item starts accumulating from this event's
/// own fragments alone.
pub proof fn lemma_tool_call_boundary(st: AccV, ev: StreamEventV)
    requires
        ev.event_type == Some("response.tool_code.delta"@),
        ev.item_id matches Some(id) && id != st.current_id,
        st.current_name.len() > 0,
    ensures
        spec_step(st, ev).0.tool_calls == st.tool_calls.push(spec_completed(st)),
        ev.item_id matches Some(id) ==> spec_step(st, ev).0.current_id == id,
        spec_step(st, ev).0.current_name == (match ev.function_name {
            Some(f) => f,
            None => Seq::<char>::empty(),
        }),
        spec_step(st, ev).0.current_args == (match ev.args_chunk {
            Some(a) => a,
            None => Seq::<char>::empty(),
        }),
        spec_step(st, ev).1 is None,
{
    reveal_strlit("response.output_text.delta");
    reveal_strlit("response.tool_code.delta");
    assert("response.output_text.delta"@.len() != "response.tool_code.delta"@.len());
    match ev.function_name {
        Some(f) => {
            assert(Seq::<char>::empty() + f =~= f);
        },
        None => {},
    }
    match ev.args_chunk {
        Some(a) => {
            assert(Seq::<char>::empty() + a =~= a);
        },
        None => {},
    }
}

/// A state with the terminator seen.
pub open spec fn spec_done(st: AccV) -> AccV {
    AccV {
        tool_calls: st.tool_calls,
        current_id: st.current_id,
        current_name: st.current_name,
        current_args: st.current_args,
        done: true,
    }
}

/// What one step of the reduction hands back: a text fragment to forward
/// at once, and whether the stream has ended.
#[derive(Debug)]
pub struct StreamStep {
    pub text: Option<String>,
    pub done: bool,
}

impl StreamAccumulator {
    /// The initial state: nothing flushed, nothing in progress.
    pub fn new() -> (r: StreamAccumulator)
        ensures
            r@.tool_calls.len() == 0,
            r@.current_id.len() == 0,
            r@.current_name.len() == 0,
            r@.current_args.len() == 0,
            !r@.done,
    {
        StreamAccumulator {
            tool_calls: Vec::new(),
            current_id: String::new(),
            current_name: String::new(),
            current_args: String::new(),
            done: false,
        }
    }

    /// Emit the pending call if it has a name.
    fn flush(&mut self)
        ensures
            final(self)@ == spec_flushed(old(self)@),
    {
        if !self.current_name.as_str().is_empty() {
            let args = match canonicalize_json(self.current_args.as_str()) {
                Some(t) => t,
                None => "null".to_owned(),
            };
            let call = ToolCall {
                name: self.current_name.clone(),
                arguments: args,
                id: Some(self.current_id.clone()),
            };
            self.tool_calls.push(call);
            proof {
                assert(final(self)@.tool_calls =~= spec_flushed(old(self)@).tool_calls);
                assert(final(self)@ =~~= spec_flushed(old(self)@));
            }
        }
    }

    /// Apply one parsed event.
    pub fn step(&mut self, ev: &StreamEvent) -> (out: Option<String>)
        ensures
            final(self)@ == spec_step(old(self)@, ev@).0,
            view_opt(out) == spec_step(old(self)@, ev@).1,
    {
        match &ev.event_type {
            Some(t) => {
                if str_eq(t.as_str(), "response.output_text.delta") {
                    let out = match &ev.delta {
                        Some(d) => Some(d.clone()),
                        None => None,
                    };
                    return out;
                }
                if str_eq(t.as_str(), "response.tool_code.delta") {
                    match &ev.item_id {
                        Some(id) => {
                            if !str_eq(id.as_str(), self.current_id.as_str()) {
                                self.flush();
                                self.current_id = id.clone();
                                self.current_name = String::new();
                                self.current_args = String::new();
                            }
                        },
                        None => {},
                    }
                    match &ev.function_name {
                        Some(f) => {
                            self.current_name.append(f.as_str());
                        },
                        None => {},
                    }
                    match &ev.args_chunk {
                        Some(a) => {
                            self.current_args.append(a.as_str());
                        },
                        None => {},
                    }
                    proof {
                        assert(final(self)@ =~~= spec_step(old(self)@, ev@).0);
                    }
                    return None;
                }
                None
            },
            None => None,
        }
    }

    /// Process one transport message.  The terminator sentinel flushes the
    /// pending call and ends the stream; any other message is parsed as an
    /// event, and a payload that does not parse fails the reduction.  A
    /// message after the terminator changes nothing.
    pub fn handle_message(&mut self, data: &str) -> (r: Result<StreamStep, ClientError>)
        ensures
            old(self).done ==> *final(self) == *old(self) && (r matches Ok(s) && s.text is None
                && s.done),
            !old(self).done && data@ == "[DONE]"@ ==> final(self)@ == spec_done(
                spec_flushed(old(self)@),
            ) && (r matches Ok(s) && s.text is None && s.done),
            !old(self).done && data@ != "[DONE]"@ && spec_parse_event(data@) is None
                ==> (*final(self) == *old(self) && (r matches Err(e) && e matches
                ClientError::MalformedPayload(b) && b@ == data@)),
            !old(self).done && data@ != "[DONE]"@ ==> (spec_parse_event(data@) matches Some(ev)
                ==> final(self)@ == spec_step(old(self)@, ev).0 && (r matches Ok(s) && view_opt(
                s.text
            ) == spec_step(old(self)@, ev).1 && !s.done)),
    {
        if self.done {
            return Ok(StreamStep { text: None, done: true });
        }
        if str_eq(data, "[DONE]") {
            self.flush();
            self.done = true;
            return Ok(StreamStep { text: None, done: true });
        }
        match parse_event(data) {
            None => Err(ClientError::MalformedPayload(data.to_owned())),
            Some(ev) => {
                let text = self.step(&ev);
                Ok(StreamStep { text, done: false })
            },
        }
    }

    /// Stream end without a terminator: flush the pending call as well, so
    /// a completed-looking invocation is not silently dropped.  After a
    /// terminator this changes nothing.
    pub fn finish(&mut self)
        ensures
            old(self).done ==> *final(self) == *old(self),
            !old(self).done ==> final(self)@ == spec_done(spec_flushed(old(self)@)),
    {
        if !self.done {
            self.flush();
            self.done = true;
        }
    }

    /// The calls flushed so far, in the order they were completed.
    pub fn into_tool_calls(self) -> (r: Vec<ToolCall>)
        ensures
            r@.len() == self@.tool_calls.len(),
            forall|i: int| 0 <= i < r@.len() ==> r@[i]@ == self@.tool_calls[i],
    {
        self.tool_calls
    }
}

} // verus!
