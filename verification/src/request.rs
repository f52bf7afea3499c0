//! The request body builder: renders the canonical conversation, the
//! extracted cross-turn state and the sampling parameters into the vendor's
//! JSON request body.  The body is a pure function of the builder's inputs.

use vstd::prelude::*;
use vstd::slice::slice_subrange;
use crate::json::{Json, JsonV, j_arr, j_bool, j_num, j_obj, j_str};
use crate::history::{
    scan_history, spec_continuation, spec_continuation_id, spec_instructions,
};
use crate::model::{
    ChatCompletionsData, ContentPart, Message, MessageContent, Model, ToolResult,
};

verus! {



/// An optional index as a mathematical integer.
pub open spec fn opt_index(skip: Option<usize>) -> Option<int> {
    match skip {
        Some(i) => Some(i as int),
        None => None,
    }
}

/// The wrapper shape of one tool definition in the `tools` array.
pub open spec fn spec_tool_entry(def: JsonV) -> JsonV {
    JsonV::Obj(seq![("type"@, JsonV::Str("function"@)), ("function"@, def)])
}

/// One content part, re-tagged with the direction its role implies.
pub open spec fn spec_render_part(out_dir: bool, p: ContentPart) -> JsonV {
    match p {
        ContentPart::Text { text } => JsonV::Obj(
            seq![
                ("type"@, JsonV::Str(if out_dir { "output_text"@ } else { "input_text"@ })),
                ("text"@, JsonV::Str(text@)),
            ],
        ),
        ContentPart::ImageRef { url } => JsonV::Obj(
            seq![
                ("type"@, JsonV::Str(if out_dir { "output_image"@ } else { "input_image"@ })),
                ("image_url"@, JsonV::Str(url@)),
                ("detail"@, JsonV::Str("auto"@)),
            ],
        ),
    }
}

/// One tool invocation output entry.
pub open spec fn spec_render_tool_result(tr: ToolResult) -> JsonV {
    JsonV::Obj(seq![("tool_call_id"@, JsonV::Str(tr.call_id@)), ("output"@, JsonV::Str(tr.output@))])
}

/// One conversation turn as a wire object.  A tool-result turn becomes a
/// synthetic user turn carrying a `tool_outputs` content block.
pub open spec fn spec_render_message(m: Message) -> JsonV {
    match m.content {
        MessageContent::Text(t) => JsonV::Obj(
            seq![
                ("role"@, JsonV::Str(m.role.spec_name())),
                ("content"@, JsonV::Str(t@)),
            ],
        ),
        MessageContent::Parts(parts) => JsonV::Obj(
            seq![
                ("role"@, JsonV::Str(m.role.spec_name())),
                (
                    "content"@,
                    JsonV::Arr(
                        Seq::new(
                            parts@.len(),
                            |i: int| spec_render_part(m.role is Assistant, parts@[i]),
                        ),
                    ),
                ),
            ],
        ),
        MessageContent::ToolResults(rs) => JsonV::Obj(
            seq![
                ("role"@, JsonV::Str("user"@)),
                (
                    "content"@,
                    JsonV::Arr(
                        seq![
                            JsonV::Obj(
                                seq![
                                    ("type"@, JsonV::Str("tool_outputs"@)),
                                    (
                                        "tool_outputs"@,
                                        JsonV::Arr(
                                            Seq::new(
                                                rs@.len(),
                                                |i: int| spec_render_tool_result(rs@[i]),
                                            ),
                                        ),
                                    ),
                                ],
                            ),
                        ],
                    ),
                ),
            ],
        ),
    }
}

/// The conversation with the turn at `skip` left out.
pub open spec fn spec_kept(msgs: Seq<Message>, skip: Option<int>) -> Seq<Message> {
    match skip {
        Some(i) => msgs.subrange(0, i) + msgs.subrange(i + 1, msgs.len() as int),
        None => msgs,
    }
}

/// The rendered `input` field: a bare string when exactly one plain-text
/// turn remains, otherwise an ordered array of turn objects.
pub open spec fn spec_render_input(msgs: Seq<Message>, skip: Option<int>) -> JsonV {
    let kept = spec_kept(msgs, skip);
    if kept.len() == 1 && kept[0].content is Text {
        JsonV::Str(kept[0].content->Text_0@)
    } else {
        JsonV::Arr(Seq::new(kept.len(), |i: int| spec_render_message(kept[i])))
    }
}

/// The history segment: everything before the latest turn.
pub open spec fn spec_history(msgs: Seq<Message>) -> Seq<Message> {
    if msgs.len() == 0 { msgs } else { msgs.drop_last() }
}

/// The index of the turn whose continuation marker is consumed, if any.
pub open spec fn spec_skip_index(msgs: Seq<Message>) -> Option<int> {
    match spec_continuation(spec_history(msgs)) {
        Some(p) => Some(p.0),
        None => None,
    }
}

/// The ordered entries of the built request body.
pub open spec fn spec_body_entries(data: ChatCompletionsData, model: Model) -> Seq<
    (Seq<char>, JsonV),
> {
    let history = spec_history(data.messages@);
    let base = seq![
        ("model"@, JsonV::Str(model.name@)),
        ("input"@, spec_render_input(data.messages@, spec_skip_index(data.messages@))),
    ];
    let with_instructions = match spec_instructions(history) {
        Some(s) => base.push(("instructions"@, JsonV::Str(s))),
        None => base,
    };
    let with_prev = match spec_continuation_id(history) {
        Some(id) => with_instructions.push(("previous_response_id"@, JsonV::Str(id))),
        None => with_instructions,
    };
    let with_temperature = match data.temperature {
        Some(t) => with_prev.push(("temperature"@, JsonV::Num(t@))),
        None => with_prev,
    };
    let with_top_p = match data.top_p {
        Some(t) => with_temperature.push(("top_p"@, JsonV::Num(t@))),
        None => with_temperature,
    };
    let with_stream = if data.stream {
        with_top_p.push(("stream"@, JsonV::Bool(true)))
    } else {
        with_top_p
    };
    if data.functions@.len() > 0 {
        with_stream.push(
            (
                "tools"@,
                JsonV::Arr(
                    Seq::new(data.functions@.len(), |i: int| spec_tool_entry(data.functions@[i]@)),
                ),
            ),
        )
    } else {
        with_stream
    }
}

/// The built request body.
pub open spec fn spec_build_body(data: ChatCompletionsData, model: Model) -> JsonV {
    JsonV::Obj(spec_body_entries(data, model))
}

/// Law: the builder is deterministic.  Its output is a function of the
/// conversation, the sampling parameters, the tool definitions, the stream
/// flag and the model alone, so two builds from identical inputs yield
/// identical bodies.
pub proof fn lemma_builder_deterministic(
    b1: Json,
    b2: Json,
    data: ChatCompletionsData,
    model: Model,
)
    requires
        b1@ == spec_build_body(data, model),
        b2@ == spec_build_body(data, model),
    ensures
        b1@ == b2@,
{
}

fn render_part(out_dir: bool, p: &ContentPart) -> (r: Json)
    ensures
        r@ =~~= spec_render_part(out_dir, *p),
{
    match p {
        ContentPart::Text { text } => {
            let tag = if out_dir { "output_text" } else { "input_text" };
            let mut fields: Vec<(String, Json)> = Vec::new();
            fields.push(("type".to_owned(), j_str(tag.to_owned())));
            fields.push(("text".to_owned(), j_str(text.clone())));
            let r = j_obj(fields);
            proof {
                assert(r@->Obj_0 =~= spec_render_part(out_dir, *p)->Obj_0);
                assert(r@ =~~= spec_render_part(out_dir, *p));
            }
            r
        },
        ContentPart::ImageRef { url } => {
            let tag = if out_dir { "output_image" } else { "input_image" };
            let mut fields: Vec<(String, Json)> = Vec::new();
            fields.push(("type".to_owned(), j_str(tag.to_owned())));
            fields.push(("image_url".to_owned(), j_str(url.clone())));
            fields.push(("detail".to_owned(), j_str("auto".to_owned())));
            let r = j_obj(fields);
            proof {
                assert(r@->Obj_0 =~= spec_render_part(out_dir, *p)->Obj_0);
                assert(r@ =~~= spec_render_part(out_dir, *p));
            }
            r
        },
    }
}

fn render_message(m: &Message) -> (r: Json)
    ensures
        r@ =~~= spec_render_message(*m),
{
    match &m.content {
        MessageContent::Text(t) => {
            let mut fields: Vec<(String, Json)> = Vec::new();
            fields.push(("role".to_owned(), j_str(m.role.name().to_owned())));
            fields.push(("content".to_owned(), j_str(t.clone())));
            let r = j_obj(fields);
            proof {
                assert(r@->Obj_0 =~= spec_render_message(*m)->Obj_0);
                assert(r@ =~~= spec_render_message(*m));
            }
            r
        },
        MessageContent::Parts(parts) => {
            let out_dir = match m.role {
                crate::model::MessageRole::Assistant => true,
                _ => false,
            };
            let mut items: Vec<Json> = Vec::new();
            let mut i: usize = 0;
            while i < parts.len()
                invariant
                    i <= parts@.len(),
                    items@.len() == i,
                    forall|k: int|
                        0 <= k < i ==> items@[k]@ =~~= spec_render_part(out_dir, parts@[k]),
                decreases parts@.len() - i,
            {
                items.push(render_part(out_dir, &parts[i]));
                i = i + 1;
            }
            let content = j_arr(items);
            let ghost cv = content@;
            let ghost iv = items@;
            let mut fields: Vec<(String, Json)> = Vec::new();
            fields.push(("role".to_owned(), j_str(m.role.name().to_owned())));
            fields.push(("content".to_owned(), content));
            let r = j_obj(fields);
            proof {
                let sm = spec_render_message(*m);
                let sarr = sm->Obj_0[1].1;
                assert forall|k: int| 0 <= k < cv->Arr_0.len() implies cv->Arr_0[k] =~~= sarr->Arr_0[k] by {
                    assert(cv->Arr_0[k] == iv[k]@);
                }
                assert(cv->Arr_0 =~~= sarr->Arr_0);
                assert(cv =~~= sarr);
                assert(r@->Obj_0 =~= sm->Obj_0);
                assert(r@ =~~= sm);
            }
            r
        },
        MessageContent::ToolResults(rs) => {
            let mut entries: Vec<Json> = Vec::new();
            let mut i: usize = 0;
            while i < rs.len()
                invariant
                    i <= rs@.len(),
                    entries@.len() == i,
                    forall|k: int|
                        0 <= k < i ==> entries@[k]@ =~~= spec_render_tool_result(rs@[k]),
                decreases rs@.len() - i,
            {
                let mut entry_fields: Vec<(String, Json)> = Vec::new();
                entry_fields.push(("tool_call_id".to_owned(), j_str(rs[i].call_id.clone())));
                entry_fields.push(("output".to_owned(), j_str(rs[i].output.clone())));
                let e = j_obj(entry_fields);
                proof {
                    assert(e@->Obj_0 =~= spec_render_tool_result(rs@[i as int])->Obj_0);
                    assert(e@ =~~= spec_render_tool_result(rs@[i as int]));
                }
                entries.push(e);
                i = i + 1;
            }
            let ghost sm = spec_render_message(*m);
            let ghost sblock = sm->Obj_0[1].1->Arr_0[0];
            let touts = j_arr(entries);
            let ghost tv = touts@;
            let ghost ev = entries@;
            let mut block_fields: Vec<(String, Json)> = Vec::new();
            block_fields.push(("type".to_owned(), j_str("tool_outputs".to_owned())));
            block_fields.push(("tool_outputs".to_owned(), touts));
            let block = j_obj(block_fields);
            let ghost bv = block@;
            proof {
                let souts = sblock->Obj_0[1].1;
                assert forall|k: int| 0 <= k < tv->Arr_0.len() implies tv->Arr_0[k] =~~= souts->Arr_0[k] by {
                    assert(tv->Arr_0[k] == ev[k]@);
                }
                assert(tv->Arr_0 =~~= souts->Arr_0);
                assert(tv =~~= souts);
                assert(bv->Obj_0 =~= sblock->Obj_0);
                assert(bv =~~= sblock);
            }
            let mut content_items: Vec<Json> = Vec::new();
            content_items.push(block);
            let content = j_arr(content_items);
            let ghost cv = content@;
            let mut fields: Vec<(String, Json)> = Vec::new();
            fields.push(("role".to_owned(), j_str("user".to_owned())));
            fields.push(("content".to_owned(), content));
            let r = j_obj(fields);
            proof {
                assert(cv->Arr_0 =~= sm->Obj_0[1].1->Arr_0);
                assert(cv =~~= sm->Obj_0[1].1);
                assert(r@->Obj_0 =~= sm->Obj_0);
                assert(r@ =~~= sm);
            }
            r
        },
    }
}

/// Render the `input` field of the request: the conversation with the
/// consumed marker turn (`skip`) left out; a single remaining plain-text
/// turn stays a bare string.
proof fn lemma_kept_facts(msgs: Seq<Message>, sk: Option<int>)
    requires
        sk matches Some(s) ==> 0 <= s < msgs.len(),
    ensures
        sk matches Some(s) ==> {
            &&& spec_kept(msgs, sk).len() == msgs.len() - 1
            &&& (forall|k: int| 0 <= k < s ==> spec_kept(msgs, sk)[k] == msgs[k])
            &&& (forall|k: int|
                s <= k < msgs.len() - 1 ==> spec_kept(msgs, sk)[k] == msgs[k + 1])
        },
        sk is None ==> spec_kept(msgs, sk) == msgs,
{
    match sk {
        Some(s) => {
            let a = msgs.subrange(0, s);
            let b = msgs.subrange(s + 1, msgs.len() as int);
            assert(spec_kept(msgs, sk) == a + b);
            assert forall|k: int| 0 <= k < s implies spec_kept(msgs, sk)[k] == msgs[k] by {
                assert((a + b)[k] == a[k]);
            }
            assert forall|k: int|
                s <= k < msgs.len() - 1 implies spec_kept(msgs, sk)[k] == msgs[k + 1] by {
                assert((a + b)[k] == b[k - s]);
            }
        },
        None => {},
    }
}

#[verifier::rlimit(100)]
pub fn build_request_input(messages: &Vec<Message>, skip: Option<usize>) -> (r: Json)
    requires
        skip matches Some(i) ==> i < messages@.len(),
    ensures
        r@ =~~= spec_render_input(messages@, opt_index(skip)),
{
    let ghost sk: Option<int> = opt_index(skip);
    let ghost kept = spec_kept(messages@, sk);
    let kept_count = match skip {
        Some(_) => messages.len() - 1,
        None => messages.len(),
    };
    proof {
        lemma_kept_facts(messages@, sk);
        assert(kept.len() == kept_count as int);
    }
    if kept_count == 1 {
        let idx: usize = match skip {
            Some(0) => 1,
            _ => 0,
        };
        proof {
            assert(kept[0] == messages@[idx as int]);
        }
        match &messages[idx].content {
            MessageContent::Text(t) => {
                let r = j_str(t.clone());
                proof {
                    assert(r@ =~~= spec_render_input(messages@, sk));
                }
                return r;
            },
            _ => {},
        }
    }
    let mut items: Vec<Json> = Vec::new();
    let mut i: usize = 0;
    while i < messages.len()
        invariant
            i <= messages@.len(),
            kept == spec_kept(messages@, sk),
            sk == opt_index(skip),
            skip matches Some(u) ==> u < messages@.len(),
            match sk {
                Some(s) => items@.len() == (if i as int <= s {
                    i as int
                } else {
                    i - 1
                }),
                None => items@.len() == i as int,
            },
            forall|k: int| 0 <= k < items@.len() ==> items@[k]@ =~~= spec_render_message(kept[k]),
        decreases messages@.len() - i,
    {
        let skip_this = match skip {
            Some(s) => s == i,
            None => false,
        };
        if !skip_this {
            let rendered = render_message(&messages[i]);
            let ghost l = items@.len() as int;
            proof {
                lemma_kept_facts(messages@, sk);
                match sk {
                    Some(s) => {
                        if (i as int) < s {
                            assert(kept[l] == messages@[i as int]);
                        } else {
                            assert(l == i - 1);
                            assert(kept[l] == messages@[i as int]);
                        }
                    },
                    None => {
                        assert(kept[l] == messages@[i as int]);
                    },
                }
            }
            items.push(rendered);
        }
        i = i + 1;
    }
    let r = j_arr(items);
    proof {
        lemma_kept_facts(messages@, sk);
        let si = spec_render_input(messages@, sk);
        assert(items@.len() == kept.len());
        if kept.len() == 1 {
            let idx0: int = if sk == Some(0int) { 1 } else { 0 };
            assert(kept[0] == messages@[idx0]);
            assert(!(kept[0].content is Text));
        }
        assert(si is Arr);
        assert forall|k: int| 0 <= k < kept.len() implies r@->Arr_0[k] =~~= si->Arr_0[k] by {
            assert(r@->Arr_0[k] == items@[k]@);
            assert(si->Arr_0[k] == spec_render_message(kept[k]));
        }
        assert(r@->Arr_0 =~~= si->Arr_0);
        assert(r@ =~~= si);
    }
    r
}

/// Build the vendor request body from the conversation, sampling
/// parameters, tool definitions and streaming flag.  Optional fields are
/// omitted rather than emitted as null or false.
pub fn openai_build_responses_body(data: ChatCompletionsData, model: &Model) -> (r: Json)
    ensures
        r@ =~~= spec_build_body(data, *model),
{
    let ghost d = data;
    let ChatCompletionsData { messages, temperature, top_p, mut functions, stream } = data;
    let history_end = if messages.len() == 0 {
        0
    } else {
        messages.len() - 1
    };
    let history = slice_subrange(messages.as_slice(), 0, history_end);
    proof {
        assert(history@ =~= spec_history(d.messages@));
    }
    let (instructions, previous_response_id, skip) = scan_history(history);
    proof {
        assert(opt_index(skip) == spec_skip_index(d.messages@));
    }
    let input = build_request_input(&messages, skip);

    let mut entries: Vec<(String, Json)> = Vec::new();
    entries.push(("model".to_owned(), j_str(model.name.clone())));
    entries.push(("input".to_owned(), input));
    match instructions {
        Some(s) => { entries.push(("instructions".to_owned(), j_str(s))); },
        None => {},
    }
    match previous_response_id {
        Some(id) => { entries.push(("previous_response_id".to_owned(), j_str(id))); },
        None => {},
    }
    match temperature {
        Some(t) => { entries.push(("temperature".to_owned(), j_num(t))); },
        None => {},
    }
    match top_p {
        Some(t) => { entries.push(("top_p".to_owned(), j_num(t))); },
        None => {},
    }
    if stream {
        entries.push(("stream".to_owned(), j_bool(true)));
    }
    if functions.len() > 0 {
        let ghost defs = functions@;
        let mut tools: Vec<Json> = Vec::new();
        while functions.len() > 0
            invariant
                tools@.len() + functions@.len() == defs.len(),
                functions@ =~= defs.skip(tools@.len() as int),
                forall|k: int| 0 <= k < tools@.len() ==> tools@[k]@ =~~= spec_tool_entry(defs[k]@),
            decreases functions@.len(),
        {
            let ghost done = tools@.len() as int;
            let def = functions.remove(0);
            proof {
                assert(def == defs[done]);
                assert(functions@ =~= defs.skip(done + 1));
            }
            let mut tool_fields: Vec<(String, Json)> = Vec::new();
            tool_fields.push(("type".to_owned(), j_str("function".to_owned())));
            tool_fields.push(("function".to_owned(), def));
            let e = j_obj(tool_fields);
            proof {
                assert(e@->Obj_0 =~= spec_tool_entry(defs[done]@)->Obj_0);
                assert(e@ =~~= spec_tool_entry(defs[done]@));
            }
            tools.push(e);
        }
        let toolsj = j_arr(tools);
        proof {
            let se = spec_body_entries(d, *model);
            let starr = se.last().1;
            assert(defs == d.functions@);
            assert forall|k: int| 0 <= k < defs.len() implies toolsj@->Arr_0[k] =~~= starr->Arr_0[k] by {
                assert(toolsj@->Arr_0[k] == tools@[k]@);
                assert(starr->Arr_0[k] == spec_tool_entry(d.functions@[k]@));
            }
            assert(toolsj@->Arr_0 =~~= starr->Arr_0);
            assert(toolsj@ =~~= starr);
        }
        entries.push(("tools".to_owned(), toolsj));
    }
    let r = j_obj(entries);
    proof {
        let se = spec_body_entries(d, *model);
        assert(r@->Obj_0 =~= se);
        assert(r@ =~~= spec_build_body(d, *model));
    }
    r
}

} // verus!
