//! The text-generation engine: a proxy in front of a LocalAI server.
//!
//! The engine knows which models LocalAI serves, builds the chat-completion
//! requests it forwards, and reads LocalAI's answers. The HTTP exchanges
//! themselves are made by the caller, which hands the parsed replies back.
use vstd::prelude::*;

use crate::json::{
    arr1, array_of, field_of, index_of, jarr, jobj, jstr, juint, obj2, obj4, str_of, u64_of, views, Json,
    JsonNumber, JsonV,
};
use crate::once::{after_set, OnceSlot};
use crate::text::{join2, join3, count_nonempty_lines, nonempty_line_count};

verus! {

broadcast use vstd::string::group_string_axioms;

// ── LocalAI address ──────────────────────────────────────────────────────

pub open spec fn default_localai_url() -> Seq<char> {
    "http://192.168.1.47:8080"@
}

/// The text a string slot holds, if any.
pub open spec fn slot_text(s: Option<String>) -> Option<Seq<char>> {
    match s {
        Some(u) => Some(u@),
        None => None,
    }
}

/// The address in force: the one set, or the default.
pub open spec fn url_in_force(s: Option<Seq<char>>, default: Seq<char>) -> Seq<char> {
    match s {
        Some(u) => u,
        None => default,
    }
}

/// Sets the LocalAI address. Only the first call has an effect.
pub fn set_localai_url(slot: &mut OnceSlot<String>, url: &str)
    ensures
        slot_text(final(slot)@) == after_set(slot_text(old(slot)@), url@),
{
    let _ = slot.set(url.to_string());
}

/// The LocalAI address: the one set first, or the built-in default.
pub fn localai_url(slot: &OnceSlot<String>) -> (r: &str)
    ensures
        r@ == url_in_force(slot_text(slot@), default_localai_url()),
{
    match slot.get() {
        Some(u) => u.as_str(),
        None => "http://192.168.1.47:8080",
    }
}

/// Law: the LocalAI address read back is the default until an address is
/// set, then the first address set, whatever is set after it.
pub proof fn law_localai_url_first_setting(first: Seq<char>, later: Seq<char>)
    ensures
        url_in_force(None, default_localai_url()) == default_localai_url(),
        url_in_force(after_set(after_set(None, first), later), default_localai_url()) == first,
{
}

/// `{base}/v1/models`
pub fn models_endpoint(base: &str) -> (r: String)
    ensures
        r@ == base@ + "/v1/models"@,
{
    join2(base, "/v1/models")
}

/// `{base}/v1/chat/completions`
pub fn completions_endpoint(base: &str) -> (r: String)
    ensures
        r@ == base@ + "/v1/chat/completions"@,
{
    join2(base, "/v1/chat/completions")
}

/// The error given when LocalAI cannot be reached while listing models.
pub fn unreachable_error(base: &str, cause: &str) -> (r: String)
    ensures
        r@ == "LocalAI unreachable at "@ + base@ + ": "@ + cause@,
{
    let mut s = join3("LocalAI unreachable at ", base, ": ");
    s.append(cause);
    s
}

/// The error given when a completion request to LocalAI fails.
pub fn request_failed_error(cause: &str) -> (r: String)
    ensures
        r@ == "LocalAI request failed: "@ + cause@,
{
    join2("LocalAI request failed: ", cause)
}

// ── GPU backend ──────────────────────────────────────────────────────────

#[allow(non_camel_case_types, clippy::upper_case_acronyms)]
#[derive(Debug, Clone, Copy, PartialEq, Eq, Structural)]
pub enum GpuBackend {
    CUDA,
    Vulkan,
    CPU,
}

impl GpuBackend {
    pub open spec fn spec_name(self) -> Seq<char> {
        match self {
            GpuBackend::CUDA => "CUDA"@,
            GpuBackend::Vulkan => "Vulkan"@,
            GpuBackend::CPU => "CPU"@,
        }
    }

    /// The backend's display name.
    pub fn name(&self) -> (r: &'static str)
        ensures
            r@ == self.spec_name(),
    {
        match self {
            GpuBackend::CUDA => "CUDA",
            GpuBackend::Vulkan => "Vulkan",
            GpuBackend::CPU => "CPU",
        }
    }
}

/// The backend that the probes show: CUDA with the number of GPUs that
/// `nvidia-smi` lists when `nvidia-smi` runs and succeeds, CPU with no GPU
/// otherwise. A listing that cannot be read counts as one GPU.
pub open spec fn spec_backend(smi_ok: bool, listing: Option<Seq<u8>>) -> (GpuBackend, u32) {
    if !smi_ok {
        (GpuBackend::CPU, 0)
    } else {
        match listing {
            Some(out) => (GpuBackend::CUDA, nonempty_line_count(out) as u32),
            None => (GpuBackend::CUDA, 1),
        }
    }
}

/// Decides the backend from the outcome of the two `nvidia-smi` probes:
/// whether `nvidia-smi` ran and succeeded, and the standard output of the
/// GPU listing (`None` when it could not be run).
pub fn backend_from_probe(smi_ok: bool, listing: Option<&[u8]>) -> (r: (GpuBackend, u32))
    ensures
        r == spec_backend(
            smi_ok,
            match listing {
                Some(b) => Some(b@),
                None => None,
            },
        ),
{
    if !smi_ok {
        return (GpuBackend::CPU, 0);
    }
    match listing {
        Some(out) => (GpuBackend::CUDA, count_nonempty_lines(out) as u32),
        None => (GpuBackend::CUDA, 1),
    }
}

/// Detects the GPU backend. `smi_ok` runs `nvidia-smi` and tells whether it
/// succeeded; `list_gpus` runs the GPU listing and returns its standard
/// output. The listing is run only when `nvidia-smi` succeeded.
pub fn detect_gpu_backend<P: FnOnce() -> bool, L: FnOnce() -> Option<Vec<u8>>>(
    smi_ok: P,
    list_gpus: L,
) -> (r: (GpuBackend, u32))
    requires
        smi_ok.requires(()),
        list_gpus.requires(()),
    ensures
        exists|ok: bool|
            {
                &&& smi_ok.ensures((), ok)
                &&& (!ok ==> r == spec_backend(false, None))
                &&& (ok ==> exists|out: Option<Vec<u8>>|
                    {
                        &&& list_gpus.ensures((), out)
                        &&& r == spec_backend(
                            true,
                            match out {
                                Some(b) => Some(b@),
                                None => None,
                            },
                        )
                    })
            },
{
    let ok = smi_ok();
    if !ok {
        return backend_from_probe(false, None);
    }
    let out = list_gpus();
    match &out {
        Some(b) => backend_from_probe(true, Some(b.as_slice())),
        None => backend_from_probe(true, None),
    }
}

// ── The engine ───────────────────────────────────────────────────────────

/// What LocalAI answered to a completion request.
#[derive(Debug, PartialEq)]
pub struct Completion {
    pub text: String,
    pub tokens_generated: u32,
}

/// The text engine. It counts as loaded exactly when it knows of a model;
/// every engine keeps this, whatever calls it has been through.
pub struct GgufEngine {
    backend: GpuBackend,
    gpu_count: u32,
    model_loaded: bool,
    models: Vec<String>,
}

/// The ids of the entries of `items` whose `"id"` is a string, in order.
pub open spec fn ids_of(items: Seq<JsonV>) -> Seq<Seq<char>>
    decreases items.len(),
{
    if items.len() == 0 {
        Seq::empty()
    } else {
        let rest = ids_of(items.drop_last());
        match items.last().at_key("id"@).as_str() {
            Some(id) => rest.push(id),
            None => rest,
        }
    }
}

/// The model ids in a LocalAI `/v1/models` reply: the string `"id"` of each
/// entry of the `"data"` array, none when `"data"` is not an array.
pub open spec fn model_ids(body: JsonV) -> Seq<Seq<char>> {
    match body.at_key("data"@).as_array() {
        Some(items) => ids_of(items),
        None => Seq::empty(),
    }
}

/// The model a request goes to: the first model listed, else `gpt-4o`.
pub open spec fn chosen_model(models: Seq<Seq<char>>) -> Seq<char> {
    if models.len() > 0 {
        models[0]
    } else {
        "gpt-4o"@
    }
}

/// The JSON number 0.7, held as the bit pattern of the `f64`.
pub open spec fn temperature_0_7() -> JsonNumber {
    JsonNumber::Float(0x3FE6666666666666u64)
}

/// The body of a chat-completion request for `prompt`.
pub open spec fn completion_request(model: Seq<char>, prompt: Seq<char>, max_tokens: u32) -> JsonV {
    jobj(
        seq![
            ("model"@, jstr(model)),
            ("messages"@, jarr(seq![jobj(seq![("role"@, jstr("user"@)), ("content"@, jstr(prompt))])])),
            ("max_tokens"@, juint(max_tokens as u64)),
            ("temperature"@, JsonV::Number(temperature_0_7())),
        ],
    )
}

/// The generated text of a completion reply: `choices[0].message.content`
/// when it is a string, else empty.
pub open spec fn completion_text(body: JsonV) -> Seq<char> {
    match body.at_key("choices"@).at_index(0).at_key("message"@).at_key("content"@).as_str() {
        Some(s) => s,
        None => Seq::empty(),
    }
}

/// The number of tokens of a completion reply: `usage.completion_tokens`
/// when it is a non-negative integer, else 0, cut to 32 bits.
pub open spec fn completion_tokens(body: JsonV) -> u32 {
    match body.at_key("usage"@).at_key("completion_tokens"@).as_u64() {
        Some(n) => n as u32,
        None => 0,
    }
}

/// What an engine knows: its backend, the number of GPUs, whether it
/// counts as loaded, and the models LocalAI serves as last listed.
pub struct EngineView {
    pub backend: GpuBackend,
    pub gpu_count: u32,
    pub model_loaded: bool,
    pub models: Seq<Seq<char>>,
}

impl EngineView {
    /// The engine counts as loaded exactly when it knows of a model.
    pub open spec fn wf(self) -> bool {
        self.model_loaded == (self.models.len() > 0)
    }
}

impl View for GgufEngine {
    type V = EngineView;

    closed spec fn view(&self) -> EngineView {
        EngineView {
            backend: self.backend,
            gpu_count: self.gpu_count,
            model_loaded: self.model_loaded,
            models: Seq::new(self.models@.len(), |i: int| self.models@[i]@),
        }
    }
}

impl GgufEngine {
    #[verifier::type_invariant]
    closed spec fn loaded_iff_models_known(self) -> bool {
        self.model_loaded == (self.models@.len() > 0)
    }

    pub fn backend(&self) -> (r: GpuBackend)
        ensures
            r == self@.backend,
    {
        self.backend
    }

    pub fn gpu_count(&self) -> (r: u32)
        ensures
            r == self@.gpu_count,
    {
        self.gpu_count
    }

    pub fn model_loaded(&self) -> (r: bool)
        ensures
            r == self@.model_loaded,
            r == (self@.models.len() > 0),
    {
        proof {
            use_type_invariant(self);
        }
        self.model_loaded
    }

    /// A new engine on the detected backend, with no model known yet.
    pub fn new(detected: (GpuBackend, u32)) -> (r: Self)
        ensures
            r@.backend == detected.0,
            r@.gpu_count == detected.1,
            !r@.model_loaded,
            r@.models == Seq::<Seq<char>>::empty(),
            r@.wf(),
    {
        let r = GgufEngine {
            backend: detected.0,
            gpu_count: detected.1,
            model_loaded: false,
            models: Vec::new(),
        };
        assert(r@.models =~= Seq::<Seq<char>>::empty());
        r
    }

    /// Whether the engine can generate: it counts as loaded, which is
    /// exactly when it knows of a model.
    pub fn is_available(&self) -> (r: bool)
        ensures
            r == self@.model_loaded,
            r == (self@.models.len() > 0),
    {
        proof {
            use_type_invariant(self);
        }
        self.model_loaded
    }

    pub fn list_models(&self) -> (r: &[String])
        ensures
            r@.len() == self@.models.len(),
            forall|i: int| 0 <= i < r@.len() ==> r@[i]@ == self@.models[i],
    {
        self.models.as_slice()
    }

    /// Takes in LocalAI's answer to `GET /v1/models`: on success the engine
    /// now knows the models listed and counts as loaded when there is one; on
    /// failure the engine is unchanged and the error is passed on.
    pub fn refresh_models(&mut self, reply: Result<Json, String>) -> (r: Result<(), String>)
        ensures
            final(self)@.backend == old(self)@.backend,
            final(self)@.gpu_count == old(self)@.gpu_count,
            final(self)@.wf(),
            match reply {
                Ok(body) => {
                    &&& r is Ok
                    &&& final(self)@.models == model_ids(body@)
                    &&& final(self)@.model_loaded == (model_ids(body@).len() > 0)
                },
                Err(e) => {
                    &&& r == Err::<(), String>(e)
                    &&& final(self)@.models == old(self)@.models
                    &&& final(self)@.model_loaded == old(self)@.model_loaded
                },
            },
    {
        proof {
            use_type_invariant(&*self);
        }
        match reply {
            Err(e) => Err(e),
            Ok(body) => {
                let models = collect_model_ids(&body);
                let loaded = models.len() > 0;
                *self = GgufEngine {
                    backend: self.backend,
                    gpu_count: self.gpu_count,
                    model_loaded: loaded,
                    models,
                };
                assert(self@.models =~= model_ids(body@));
                Ok(())
            },
        }
    }

    /// The model a request goes to.
    pub fn chosen_model(&self) -> (r: String)
        ensures
            r@ == chosen_model(self@.models),
    {
        if self.models.len() > 0 {
            self.models[0].clone()
        } else {
            "gpt-4o".to_string()
        }
    }

    /// The chat-completion request that `infer(prompt, max_tokens)` sends.
    pub fn infer_request(&self, prompt: &str, max_tokens: u32) -> (r: Json)
        ensures
            r@ == completion_request(chosen_model(self@.models), prompt@, max_tokens),
    {
        let model = self.chosen_model();
        let message = obj2("role", Json::text("user"), "content", Json::text(prompt));
        obj4(
            "model",
            Json::string(model),
            "messages",
            arr1(message),
            "max_tokens",
            Json::uint(max_tokens as u64),
            "temperature",
            Json::Number(JsonNumber::Float(0x3FE6666666666666u64)),
        )
    }

    /// The request of `infer_default(prompt)`: at most 512 tokens.
    pub fn infer_default_request(&self, prompt: &str) -> (r: Json)
        ensures
            r@ == completion_request(chosen_model(self@.models), prompt@, 512),
    {
        self.infer_request(prompt, 512)
    }
}

/// Law: once a model listing has been taken in, the engine counts as
/// loaded exactly when LocalAI listed a model, and requests go to the first
/// model listed, or to `gpt-4o` when none was.
pub proof fn law_requests_follow_listing(after: EngineView, body: JsonV)
    requires
        after.models == model_ids(body),
        after.model_loaded == (model_ids(body).len() > 0),
    ensures
        after.wf(),
        chosen_model(after.models) == if after.model_loaded {
            model_ids(body)[0]
        } else {
            "gpt-4o"@
        },
{
}

/// The model ids of a `/v1/models` reply.
pub fn collect_model_ids(body: &Json) -> (r: Vec<String>)
    ensures
        r@.len() == model_ids(body@).len(),
        forall|i: int| 0 <= i < r@.len() ==> r@[i]@ == model_ids(body@)[i],
{
    let mut out: Vec<String> = Vec::new();
    match array_of(field_of(Some(body), "data")) {
        None => {
            return out;
        },
        Some(items) => {
            let ghost vs = views(items@);
            let mut i: usize = 0;
            while i < items.len()
                invariant
                    0 <= i <= items@.len(),
                    vs == views(items@),
                    out@.len() == ids_of(vs.take(i as int)).len(),
                    forall|k: int|
                        0 <= k < out@.len() ==> out@[k]@ == ids_of(vs.take(i as int))[k],
                decreases items@.len() - i,
            {
                assert(vs.take(i + 1).drop_last() =~= vs.take(i as int));
                assert(vs.take(i + 1).last() == items@[i as int]@);
                match str_of(field_of(Some(&items[i]), "id")) {
                    Some(text) => {
                        out.push(text.to_string());
                    },
                    None => {},
                }
                i += 1;
            }
            assert(vs.take(items@.len() as int) =~= vs);
            out
        },
    }
}

/// Reads LocalAI's answer to a completion request.
pub fn read_completion(body: &Json) -> (r: Completion)
    ensures
        r.text@ == completion_text(body@),
        r.tokens_generated == completion_tokens(body@),
        body@.at_key("usage"@).at_key("completion_tokens"@).as_u64() matches Some(n)
            ==> r.tokens_generated == n as u32,
        body@.at_key("usage"@).at_key("completion_tokens"@).as_u64() is None
            ==> r.tokens_generated == 0,
        body@.at_key("choices"@).at_index(0).at_key("message"@).at_key("content"@).as_str() matches Some(
            s,
        ) ==> r.text@ == s,
{
    let content = field_of(
        field_of(index_of(field_of(Some(body), "choices"), 0), "message"),
        "content",
    );
    let text = match str_of(content) {
        Some(s) => s.to_string(),
        None => String::new(),
    };
    let tokens: u32 = match u64_of(field_of(field_of(Some(body), "usage"), "completion_tokens")) {
        Some(n) => n as u32,
        None => 0,
    };
    Completion { text, tokens_generated: tokens }
}

/// Law: the token count of a reply is its `usage.completion_tokens`, cut to
/// 32 bits, whatever other entries (`prompt_tokens`, `total_tokens`, ...)
/// `usage` carries.
pub proof fn law_tokens_are_completion_tokens(body: JsonV, usage: JsonV, n: u64)
    requires
        body.field("usage"@) == Some(usage),
        usage.field("completion_tokens"@) == Some(JsonV::Number(JsonNumber::PosInt(n))),
    ensures
        completion_tokens(body) == n as u32,
{
}

/// Law: two replies whose `usage.completion_tokens` entries are the same
/// count the same tokens, however the rest of them differ.
pub proof fn law_tokens_depend_on_completion_tokens_alone(a: JsonV, b: JsonV)
    requires
        a.at_key("usage"@).at_key("completion_tokens"@) == b.at_key("usage"@).at_key(
            "completion_tokens"@,
        ),
    ensures
        completion_tokens(a) == completion_tokens(b),
{
}

/// Law: the text of a reply is `choices[0].message.content` when that is a
/// string, all of it.
pub proof fn law_text_is_first_choice_content(body: JsonV, s: Seq<char>)
    requires
        body.at_key("choices"@).at_index(0).at_key("message"@).at_key("content"@) == JsonV::Str(s),
    ensures
        completion_text(body) == s,
{
}

} // verus!
