//! The OpenAI-compatible endpoints: `/v1/models` and `/v1/chat/completions`.
//!
//! A chat completion is answered by the text engine when it has a model,
//! and by a short notice otherwise; either as one document, or, when the
//! request asks to stream, as server-sent events.
use vstd::prelude::*;

use crate::gguf_engine::{Completion, GgufEngine};
use crate::json::{
    arr1, jarr, jint, jobj, jstr, juint, obj0, obj2, obj3, obj5, obj6, views, Json, JsonV,
};
use crate::text::{byte_prefix, join2, join3, cut_is_ok, cut_ok, i64_to_text, signed_decimal, truncated};

verus! {

broadcast use vstd::string::group_string_axioms;

/// One message of a conversation.
#[derive(Debug, PartialEq)]
pub struct ChatMessage {
    pub role: String,
    pub content: String,
}

/// A chat-completion request. (Its sampling temperature is not used by
/// the service and is not kept here.)
#[derive(Debug, PartialEq)]
pub struct ChatCompletionRequest {
    pub model: String,
    pub messages: Vec<ChatMessage>,
    pub max_tokens: u32,
    pub stream: bool,
}

/// The token budget of a request that gives none.
pub fn default_max_tokens() -> (r: u32)
    ensures
        r == 2048,
{
    2048
}

/// One message in the prompt: `<|{role}|>` on a line, then the content.
pub open spec fn turn(m: ChatMessage) -> Seq<char> {
    "<|"@ + m.role@ + "|>\n"@ + m.content@
}

/// The parts joined with a newline between each two.
pub open spec fn join_lines(parts: Seq<Seq<char>>) -> Seq<char>
    decreases parts.len(),
{
    if parts.len() == 0 {
        Seq::empty()
    } else if parts.len() == 1 {
        parts[0]
    } else {
        join_lines(parts.drop_last()) + "\n"@ + parts.last()
    }
}

/// The prompt made of a conversation: its messages, one after the other.
pub open spec fn prompt_of(messages: Seq<ChatMessage>) -> Seq<char> {
    join_lines(Seq::new(messages.len(), |i: int| turn(messages[i])))
}

/// Builds the prompt of a conversation.
pub fn build_prompt(messages: &Vec<ChatMessage>) -> (r: String)
    ensures
        r@ == prompt_of(messages@),
        messages@.len() == 0 ==> r@.len() == 0,
        messages@.len() > 0 ==> ("<|"@ + messages@[0].role@ + "|>\n"@
            + messages@[0].content@).is_prefix_of(r@),
{
    let ghost turns = Seq::new(messages@.len(), |i: int| turn(messages@[i]));
    let mut out = String::new();
    let mut i: usize = 0;
    while i < messages.len()
        invariant
            0 <= i <= messages@.len(),
            turns == Seq::new(messages@.len(), |i: int| turn(messages@[i])),
            out@ == join_lines(turns.take(i as int)),
        decreases messages@.len() - i,
    {
        proof {
            reveal_strlit("<|");
            reveal_strlit("|>\n");
            reveal_strlit("\n");
        }
        assert(turns.take(i + 1).drop_last() =~= turns.take(i as int));
        if i > 0 {
            out.append("\n");
        }
        let piece = join3("<|", messages[i].role.as_str(), "|>\n");
        out.append(piece.as_str());
        out.append(messages[i].content.as_str());
        assert(turns.take(i + 1).last() == turn(messages@[i as int]));
        if i == 0 {
            assert(join_lines(turns.take(1)) == turns.take(1)[0]);
            assert(out@ =~= join_lines(turns.take(i + 1)));
        } else {
            assert(out@ =~= join_lines(turns.take(i + 1)));
        }
        i += 1;
    }
    assert(turns.take(messages@.len() as int) =~= turns);
    proof {
        if messages@.len() > 0 {
            lemma_join_lines_first(turns);
        }
    }
    out
}

/// The first part always opens the joined text.
proof fn lemma_join_lines_first(parts: Seq<Seq<char>>)
    requires
        parts.len() > 0,
    ensures
        parts[0].is_prefix_of(join_lines(parts)),
    decreases parts.len(),
{
    if parts.len() > 1 {
        let rest = parts.drop_last();
        lemma_join_lines_first(rest);
        let j = join_lines(rest);
        assert(rest[0] == parts[0]);
        assert((j + "\n"@ + parts.last()).subrange(0, parts[0].len() as int) =~= j.subrange(
            0,
            parts[0].len() as int,
        ));
    }
}

/// Law: a conversation with no messages makes an empty prompt.
pub proof fn law_prompt_of_no_messages()
    ensures
        prompt_of(Seq::<ChatMessage>::empty()) == Seq::<char>::empty(),
{
}

/// Law: adding a message to a conversation adds exactly its turn,
/// `<|role|>` on a line and then the content, at the end of the prompt,
/// after a newline unless the conversation was empty; nothing before it
/// changes. With the empty case, this fixes the prompt of every
/// conversation: each message appears once, in order.
pub proof fn law_prompt_grows_by_one_turn(ms: Seq<ChatMessage>, m: ChatMessage)
    ensures
        prompt_of(ms.push(m)) == if ms.len() == 0 {
            "<|"@ + m.role@ + "|>\n"@ + m.content@
        } else {
            prompt_of(ms) + "\n"@ + "<|"@ + m.role@ + "|>\n"@ + m.content@
        },
{
    let all = ms.push(m);
    let turns = Seq::new(all.len(), |i: int| turn(all[i]));
    assert(turns.drop_last() =~= Seq::new(ms.len(), |i: int| turn(ms[i])));
    assert(turns.last() == turn(m));
    if ms.len() == 0 {
        assert(join_lines(turns) == turns[0]);
    } else {
        assert(join_lines(turns) == join_lines(turns.drop_last()) + "\n"@ + turns.last());
    }
}

/// Law: the prompt of a conversation opens with the turn of its first
/// message, whatever follows.
pub proof fn law_prompt_opens_with_first_message(ms: Seq<ChatMessage>)
    requires
        ms.len() > 0,
    ensures
        ("<|"@ + ms[0].role@ + "|>\n"@ + ms[0].content@).is_prefix_of(prompt_of(ms)),
{
    let turns = Seq::new(ms.len(), |i: int| turn(ms[i]));
    lemma_join_lines_first(turns);
}

// ── Answers ──────────────────────────────────────────────────────────────

/// A chat-completion answer created at `now` (seconds since the epoch) by
/// `model`, carrying `content` and counting `tokens` generated tokens.
pub open spec fn chat_doc(now: i64, model: Seq<char>, content: Seq<char>, tokens: u32) -> JsonV {
    jobj(
        seq![
            ("id"@, jstr("chatcmpl-"@ + signed_decimal(now))),
            ("object"@, jstr("chat.completion"@)),
            ("created"@, jint(now)),
            ("model"@, jstr(model)),
            ("choices"@, jarr(
                seq![
                    jobj(
                        seq![
                            ("index"@, juint(0)),
                            ("message"@, jobj(
                                seq![("role"@, jstr("assistant"@)), ("content"@, jstr(content))],
                            )),
                            ("finish_reason"@, jstr("stop"@)),
                        ],
                    ),
                ],
            )),
            ("usage"@, jobj(
                seq![
                    ("prompt_tokens"@, juint(0)),
                    ("completion_tokens"@, juint(tokens as u64)),
                    ("total_tokens"@, juint(tokens as u64)),
                ],
            )),
        ],
    )
}

/// Builds a chat-completion answer.
pub fn chat_document(now: i64, model: &str, content: &str, tokens: u32) -> (r: Json)
    ensures
        r@ == chat_doc(now, model@, content@, tokens),
{
    let id_number = i64_to_text(now);
    let id = join2("chatcmpl-", id_number.as_str());
    let message = obj2("role", Json::text("assistant"), "content", Json::text(content));
    let choice = obj3(
        "index",
        Json::uint(0),
        "message",
        message,
        "finish_reason",
        Json::text("stop"),
    );
    let usage = obj3(
        "prompt_tokens",
        Json::uint(0),
        "completion_tokens",
        Json::uint(tokens as u64),
        "total_tokens",
        Json::uint(tokens as u64),
    );
    obj6(
        "id",
        Json::string(id),
        "object",
        Json::text("chat.completion"),
        "created",
        Json::signed(now),
        "model",
        Json::text(model),
        "choices",
        arr1(choice),
        "usage",
        usage,
    )
}

/// The content of the last message, empty when there is none.
pub open spec fn last_content(messages: Seq<ChatMessage>) -> Seq<char> {
    if messages.len() > 0 {
        messages.last().content@
    } else {
        Seq::empty()
    }
}

/// The notice given when no model is loaded, quoting the first 50 bytes of
/// the last message.
pub open spec fn notice_text(last: Seq<char>) -> Seq<char> {
    "Hermes Rust Backend v0.3.0\nGGUF Engine ready. 2 model(s) available. Your message: \""@
        + truncated(last, 50) + "\". Full inference coming soon."@
}

fn last_message_text(messages: &Vec<ChatMessage>) -> (r: &str)
    ensures
        r@ == last_content(messages@),
{
    if messages.len() > 0 {
        messages[messages.len() - 1].content.as_str()
    } else {
        proof {
            reveal_strlit("");
        }
        assert(""@ =~= Seq::<char>::empty());
        ""
    }
}

/// Whether the notice can quote the last message: its first 50 bytes must
/// end at a character boundary.
pub fn notice_cut_ok(req: &ChatCompletionRequest) -> (r: bool)
    ensures
        r == cut_ok(last_content(req.messages@), 50),
{
    cut_is_ok(last_message_text(&req.messages), 50)
}

// ── Streaming ────────────────────────────────────────────────────────────

/// One chunk of a streamed answer: the `delta` it adds and its
/// `finish_reason`.
pub open spec fn chunk_doc(now: i64, model: Seq<char>, delta: JsonV, finish: JsonV) -> JsonV {
    jobj(
        seq![
            ("id"@, jstr("chatcmpl-"@ + signed_decimal(now))),
            ("object"@, jstr("chat.completion.chunk"@)),
            ("created"@, jint(now)),
            ("model"@, jstr(model)),
            ("choices"@, jarr(
                seq![
                    jobj(
                        seq![("index"@, juint(0)), ("delta"@, delta), ("finish_reason"@, finish)],
                    ),
                ],
            )),
        ],
    )
}

/// The chunks of a streamed answer carrying `content`: the assistant's
/// message, then the end of the answer.
pub open spec fn stream_docs(now: i64, model: Seq<char>, content: Seq<char>) -> Seq<JsonV> {
    seq![
        chunk_doc(
            now,
            model,
            jobj(seq![("role"@, jstr("assistant"@)), ("content"@, jstr(content))]),
            JsonV::Null,
        ),
        chunk_doc(now, model, jobj(seq![]), jstr("stop"@)),
    ]
}

fn chunk_document(now: i64, model: &str, delta: Json, finish: Json) -> (r: Json)
    ensures
        r@ == chunk_doc(now, model@, delta@, finish@),
{
    let id_number = i64_to_text(now);
    let id = join2("chatcmpl-", id_number.as_str());
    let choice = obj3("index", Json::uint(0), "delta", delta, "finish_reason", finish);
    obj5(
        "id",
        Json::string(id),
        "object",
        Json::text("chat.completion.chunk"),
        "created",
        Json::signed(now),
        "model",
        Json::text(model),
        "choices",
        arr1(choice),
    )
}

/// The chunks of a streamed answer.
pub fn stream_documents(now: i64, model: &str, content: &str) -> (r: Vec<Json>)
    ensures
        views(r@) == stream_docs(now, model@, content@),
{
    let first = chunk_document(
        now,
        model,
        obj2("role", Json::text("assistant"), "content", Json::text(content)),
        Json::Null,
    );
    let last = chunk_document(now, model, obj0(), Json::text("stop"));
    let ghost g1 = first@;
    let ghost g2 = last@;
    let r = vec![first, last];
    assert(views(r@) =~= seq![g1, g2]);
    r
}

/// The server-sent event carrying `data`.
pub open spec fn sse_event(data: Seq<char>) -> Seq<char> {
    "data: "@ + data + "\n\n"@
}

/// The events carrying each of `payloads`, then the `[DONE]` event.
pub open spec fn sse_stream(payloads: Seq<Seq<char>>) -> Seq<char>
    decreases payloads.len(),
{
    if payloads.len() == 0 {
        sse_event("[DONE]"@)
    } else {
        sse_event(payloads[0]) + sse_stream(payloads.drop_first())
    }
}

/// Frames the serialized chunks of a streamed answer as server-sent events,
/// ending with `data: [DONE]`.
pub fn sse_body(payloads: &Vec<String>) -> (r: String)
    ensures
        r@ == sse_stream(Seq::new(payloads@.len(), |i: int| payloads@[i]@)),
{
    let ghost texts = Seq::new(payloads@.len(), |i: int| payloads@[i]@);
    let mut out = String::new();
    let mut i: usize = 0;
    assert(texts.skip(0) =~= texts);
    assert(out@ + sse_stream(texts.skip(0)) =~= sse_stream(texts));
    while i < payloads.len()
        invariant
            0 <= i <= payloads@.len(),
            texts == Seq::new(payloads@.len(), |i: int| payloads@[i]@),
            out@ + sse_stream(texts.skip(i as int)) == sse_stream(texts),
        decreases payloads@.len() - i,
    {
        assert(texts.skip(i as int).drop_first() =~= texts.skip(i + 1));
        out.append("data: ");
        out.append(payloads[i].as_str());
        out.append("\n\n");
        assert(out@ + sse_stream(texts.skip(i + 1)) =~= sse_stream(texts));
        i += 1;
    }
    proof {
        reveal_strlit("data: [DONE]\n\n");
        reveal_strlit("data: ");
        reveal_strlit("[DONE]");
        reveal_strlit("\n\n");
        assert("data: [DONE]\n\n"@ =~= sse_event("[DONE]"@));
    }
    let ghost before = out@;
    out.append("data: [DONE]\n\n");
    assert(texts.skip(payloads@.len() as int) =~= Seq::<Seq<char>>::empty());
    assert(before + sse_stream(Seq::<Seq<char>>::empty()) == sse_stream(texts));
    assert(out@ =~= sse_stream(texts));
    out
}

// ── Answering ────────────────────────────────────────────────────────────

/// An answer: one document, or the chunk documents of a stream.
#[derive(Debug, PartialEq)]
pub enum ChatAnswer {
    Document(Json),
    Events(Vec<Json>),
}

/// `a` is the answer carrying `content`: as a stream when `stream` is asked
/// for, else as one document counting `tokens` generated tokens.
pub open spec fn answers(
    a: ChatAnswer,
    stream: bool,
    now: i64,
    model: Seq<char>,
    content: Seq<char>,
    tokens: u32,
) -> bool {
    match a {
        ChatAnswer::Document(d) => !stream && d@ == chat_doc(now, model, content, tokens),
        ChatAnswer::Events(v) => stream && views(v@) == stream_docs(now, model, content),
    }
}

fn answer(stream: bool, now: i64, model: &str, content: &str, tokens: u32) -> (r: ChatAnswer)
    ensures
        answers(r, stream, now, model@, content@, tokens),
{
    if stream {
        ChatAnswer::Events(stream_documents(now, model, content))
    } else {
        ChatAnswer::Document(chat_document(now, model, content, tokens))
    }
}

/// What a chat-completion request leads to.
#[derive(Debug, PartialEq)]
pub enum ChatPlan {
    /// Run the text engine on this prompt, then answer with
    /// `completion_response`.
    Generate { prompt: String, max_tokens: u32 },
    /// Answer with this.
    Reply(ChatAnswer),
}

/// The HTTP status of a failed generation: 500 Internal Server Error.
pub open spec fn internal_error() -> u16 {
    500
}

/// Decides how to answer a chat-completion request, given whether the text
/// engine has a model and the time `now`: with a model the conversation's
/// prompt is generated from; without one the notice is sent, streamed when
/// the request asks for it.
pub fn plan_chat_completion(req: &ChatCompletionRequest, engine_available: bool, now: i64) -> (r:
    ChatPlan)
    requires
        !engine_available ==> cut_ok(last_content(req.messages@), 50),
    ensures
        engine_available ==> (r matches ChatPlan::Generate { prompt, max_tokens }
            && prompt@ == prompt_of(req.messages@) && max_tokens == req.max_tokens),
        !engine_available ==> (r matches ChatPlan::Reply(a) && answers(
            a,
            req.stream,
            now,
            req.model@,
            notice_text(last_content(req.messages@)),
            0,
        )),
{
    let prompt = build_prompt(&req.messages);
    if engine_available {
        ChatPlan::Generate { prompt, max_tokens: req.max_tokens }
    } else {
        let last = last_message_text(&req.messages);
        let mut notice = join2(
            "Hermes Rust Backend v0.3.0\nGGUF Engine ready. 2 model(s) available. Your message: \"",
            byte_prefix(last, 50),
        );
        notice.append("\". Full inference coming soon.");
        ChatPlan::Reply(answer(req.stream, now, req.model.as_str(), notice.as_str(), 0))
    }
}

/// The answer once the engine has generated: the completion, as one
/// document or streamed as `stream` asks, or status 500 when generation
/// failed.
pub fn completion_response(
    model: &str,
    stream: bool,
    outcome: &Result<Completion, String>,
    now: i64,
) -> (r: Result<ChatAnswer, u16>)
    ensures
        match outcome {
            Ok(c) => r matches Ok(a) && answers(a, stream, now, model@, c.text@, c.tokens_generated),
            Err(_) => r == Err::<ChatAnswer, u16>(internal_error()),
        },
{
    match outcome {
        Ok(c) => Ok(answer(stream, now, model, c.text.as_str(), c.tokens_generated)),
        Err(_) => Err(500),
    }
}

/// How `/v1/models` lists one model.
pub open spec fn model_entry(name: Seq<char>) -> JsonV {
    jobj(seq![("id"@, jstr(name)), ("object"@, jstr("model"@))])
}

/// The answer of `/v1/models`: the models LocalAI serves, in order.
pub open spec fn models_doc(models: Seq<Seq<char>>) -> JsonV {
    jobj(
        seq![
            ("object"@, jstr("list"@)),
            ("data"@, jarr(Seq::new(models.len(), |i: int| model_entry(models[i])))),
        ],
    )
}

/// Lists the models the text engine knows LocalAI to serve.
pub fn list_models(engine: &GgufEngine) -> (r: Json)
    ensures
        r@ == models_doc(engine@.models),
{
    let names = engine.list_models();
    let ghost expected = Seq::new(engine@.models.len(), |i: int| model_entry(engine@.models[i]));
    let mut data: Vec<Json> = Vec::new();
    let mut i: usize = 0;
    while i < names.len()
        invariant
            0 <= i <= names@.len(),
            names@.len() == engine@.models.len(),
            forall|k: int| 0 <= k < names@.len() ==> names@[k]@ == engine@.models[k],
            expected == Seq::new(engine@.models.len(), |i: int| model_entry(engine@.models[i])),
            data@.len() == i,
            forall|k: int| 0 <= k < i ==> (#[trigger] data@[k])@ == expected[k],
        decreases names@.len() - i,
    {
        data.push(obj2("id", Json::text(names[i].as_str()), "object", Json::text("model")));
        i += 1;
    }
    let items = Json::array(data);
    assert(views(data@) =~= expected);
    obj2("object", Json::text("list"), "data", items)
}

} // verus!
