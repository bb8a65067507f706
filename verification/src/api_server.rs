//! The Hermes endpoints: `/status`, `/infer`, `/ocr`, `/detect`.
use vstd::prelude::*;

use crate::json::{arr0, jarr, jint, jobj, jstr, juint, obj3, obj5, str_of, field_of, Json, JsonV};
use crate::text::{byte_prefix, join3, cut_is_ok, cut_ok, truncated};

verus! {

broadcast use vstd::string::group_string_axioms;

/// The answer of `/status`. CUDA counts as available exactly when there is
/// a CUDA GPU.
pub open spec fn status_doc(uptime_seconds: i64, onnx: bool, hailo: bool, gpu_count: usize) -> JsonV {
    jobj(
        seq![
            ("uptime_seconds"@, jint(uptime_seconds)),
            ("engines"@, jobj(
                seq![
                    ("onnx"@, JsonV::Bool(onnx)),
                    ("hailo"@, JsonV::Bool(hailo)),
                    ("cuda"@, JsonV::Bool(gpu_count > 0)),
                ],
            )),
            ("gpu_count"@, juint(gpu_count as u64)),
        ],
    )
}

/// Reports the uptime and which engines are available.
pub fn status(uptime_seconds: i64, onnx: bool, hailo: bool, gpu_count: usize) -> (r: Json)
    ensures
        r@ == status_doc(uptime_seconds, onnx, hailo, gpu_count),
{
    let cuda = gpu_count > 0;
    obj3(
        "uptime_seconds",
        Json::signed(uptime_seconds),
        "engines",
        obj3("onnx", Json::Bool(onnx), "hailo", Json::Bool(hailo), "cuda", Json::Bool(cuda)),
        "gpu_count",
        Json::uint(gpu_count as u64),
    )
}

/// The string under `key` in a request, or `default`.
pub open spec fn text_or(payload: JsonV, key: Seq<char>, default: Seq<char>) -> Seq<char> {
    match payload.at_key(key).as_str() {
        Some(s) => s,
        None => default,
    }
}

pub open spec fn request_model(payload: JsonV) -> Seq<char> {
    text_or(payload, "model"@, "sensenova-u1"@)
}

pub open spec fn request_prompt(payload: JsonV) -> Seq<char> {
    text_or(payload, "prompt"@, ""@)
}

/// The answer of `/infer`: the model, and what it would process (the first
/// 50 bytes of the prompt).
pub open spec fn infer_doc(payload: JsonV) -> JsonV {
    jobj(
        seq![
            ("status"@, jstr("ok"@)),
            ("model"@, jstr(request_model(payload))),
            ("tokens"@, juint(0)),
            ("output"@, jstr(
                "[Placeholder] Model "@ + request_model(payload) + " would process: "@ + truncated(
                    request_prompt(payload),
                    50,
                ),
            )),
            ("engine"@, jstr("rust-backend"@)),
        ],
    )
}

fn text_or_default<'a>(payload: &'a Json, key: &str, default: &'a str) -> (r: &'a str)
    ensures
        r@ == text_or(payload@, key@, default@),
{
    match str_of(field_of(Some(payload), key)) {
        Some(s) => s,
        None => default,
    }
}

/// Whether `/infer` can cut the request's prompt at 50 bytes: the cut
/// must fall on a character boundary.
pub fn infer_prompt_cut_ok(payload: &Json) -> (r: bool)
    ensures
        r == cut_ok(request_prompt(payload@), 50),
{
    cut_is_ok(text_or_default(payload, "prompt", ""), 50)
}

/// Answers `/infer` with a placeholder.
pub fn infer(payload: &Json) -> (r: Json)
    requires
        cut_ok(request_prompt(payload@), 50),
    ensures
        r@ == infer_doc(payload@),
{
    let model = text_or_default(payload, "model", "sensenova-u1");
    let prompt = text_or_default(payload, "prompt", "");
    let mut output = join3("[Placeholder] Model ", model, " would process: ");
    output.append(byte_prefix(prompt, 50));
    obj5(
        "status",
        Json::text("ok"),
        "model",
        Json::text(model),
        "tokens",
        Json::uint(0),
        "output",
        Json::string(output),
        "engine",
        Json::text("rust-backend"),
    )
}

pub open spec fn ocr_doc() -> JsonV {
    jobj(
        seq![
            ("status"@, jstr("ok"@)),
            ("text"@, jstr("[OCR placeholder - Hailo-8 PaddleOCR]"@)),
            ("engine"@, jstr("hailo-8"@)),
        ],
    )
}

/// Answers `/ocr` with a placeholder.
pub fn ocr(payload: &Json) -> (r: Json)
    ensures
        r@ == ocr_doc(),
{
    obj3(
        "status",
        Json::text("ok"),
        "text",
        Json::text("[OCR placeholder - Hailo-8 PaddleOCR]"),
        "engine",
        Json::text("hailo-8"),
    )
}

pub open spec fn detect_doc() -> JsonV {
    jobj(
        seq![
            ("status"@, jstr("ok"@)),
            ("objects"@, jarr(seq![])),
            ("engine"@, jstr("hailo-8-yolov8"@)),
        ],
    )
}

/// Answers `/detect` with no objects.
pub fn detect(payload: &Json) -> (r: Json)
    ensures
        r@ == detect_doc(),
{
    obj3("status", Json::text("ok"), "objects", arr0(), "engine", Json::text("hailo-8-yolov8"))
}

} // verus!
