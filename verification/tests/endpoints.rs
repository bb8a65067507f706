use hermes_rust_backend::api_server::{self, infer_prompt_cut_ok, status};
use hermes_rust_backend::gguf_engine::{Completion, GpuBackend};
use hermes_rust_backend::json::{Json, JsonNumber, Member};
use hermes_rust_backend::mcp_bridge::{list_tools, tool_info};
use hermes_rust_backend::openai_api::{
    build_prompt, completion_response, default_max_tokens, list_models, notice_cut_ok,
    plan_chat_completion, sse_body, stream_documents, ChatAnswer, ChatCompletionRequest,
    ChatMessage, ChatPlan,
};
use hermes_rust_backend::gguf_engine::GgufEngine;
use hermes_rust_backend::service::{engines_info, health, EngineReport};
use serde_json::Value;

/// The wire JSON of a document, to compare with expected JSON text.
fn to_value(j: &Json) -> Value {
    match j {
        Json::Null => Value::Null,
        Json::Bool(b) => Value::Bool(*b),
        Json::Number(JsonNumber::PosInt(n)) => Value::from(*n),
        Json::Number(JsonNumber::NegInt(n)) => Value::from(*n),
        Json::Number(JsonNumber::Float(bits)) => Value::from(f64::from_bits(*bits)),
        Json::Str(s) => Value::String(s.clone()),
        Json::Array(items) => Value::Array(items.iter().map(to_value).collect()),
        Json::Object(members) => Value::Object(
            members.iter().map(|m| (m.key.clone(), to_value(&m.value))).collect(),
        ),
    }
}

fn parse(text: &str) -> Value {
    serde_json::from_str(text).unwrap()
}

fn object(entries: Vec<(&str, Json)>) -> Json {
    Json::Object(
        entries
            .into_iter()
            .map(|(k, v)| Member { key: k.to_string(), value: v })
            .collect(),
    )
}

fn text(s: &str) -> Json {
    Json::Str(s.to_string())
}

#[test]
fn health_lists_features() {
    assert_eq!(
        to_value(&health()),
        parse(
            r#"{"service":"hermes-rust-backend","version":"0.3.0","status":"ok",
            "features":["gguf","openai_api","hailo8","flash_attention","mcp","streaming"]}"#
        )
    );
}

#[test]
fn engines_report_flash_attention_with_cuda() {
    let report = EngineReport {
        backend: GpuBackend::CUDA,
        gpu_count: 3,
        gguf_available: true,
        gguf_model_loaded: true,
        hailo_available: false,
        cuda_available: true,
        cuda_device_count: 3,
        onnx_available: false,
    };
    assert_eq!(
        to_value(&engines_info(&report)),
        parse(
            r#"{"engines":{
            "gguf":{"available":true,"model_loaded":true,"backend":"CUDA","gpu_count":3,"flash_attention":true},
            "hailo8":{"available":false,"device":"/dev/hailo0","mcp_bridge":"http://192.168.1.47:8767"},
            "cuda":{"available":true,"device_count":3},
            "onnx":{"available":false}}}"#
        )
    );
    let engine = GgufEngine::new((GpuBackend::CPU, 0));
    let gathered = EngineReport::new((GpuBackend::CPU, 0), &engine, true, 0, true);
    assert!(!gathered.gguf_available && !gathered.gguf_model_loaded);
    assert!(!gathered.cuda_available);
    assert!(EngineReport::new((GpuBackend::CUDA, 2), &engine, false, 2, false).cuda_available);
    let cpu = EngineReport { backend: GpuBackend::CPU, ..report };
    let doc = to_value(&engines_info(&cpu));
    assert_eq!(doc["engines"]["gguf"]["flash_attention"], Value::Bool(false));
    assert_eq!(doc["engines"]["gguf"]["backend"], Value::from("CPU"));
}

#[test]
fn status_reports_uptime_and_engines() {
    assert_eq!(
        to_value(&status(42, true, false, 2)),
        parse(r#"{"uptime_seconds":42,"engines":{"onnx":true,"hailo":false,"cuda":true},"gpu_count":2}"#)
    );
    let idle = to_value(&status(-1, false, false, 0));
    assert_eq!(idle["uptime_seconds"], Value::from(-1));
    assert_eq!(idle["engines"]["cuda"], Value::Bool(false));
}

#[test]
fn infer_placeholder_defaults_and_truncates() {
    let empty = object(vec![]);
    assert!(infer_prompt_cut_ok(&empty));
    assert_eq!(
        to_value(&api_server::infer(&empty)),
        parse(
            r#"{"status":"ok","model":"sensenova-u1","tokens":0,
            "output":"[Placeholder] Model sensenova-u1 would process: ","engine":"rust-backend"}"#
        )
    );
    let long = "a".repeat(80);
    let payload = object(vec![("model", text("m1")), ("prompt", text(&long))]);
    let doc = to_value(&api_server::infer(&payload));
    assert_eq!(
        doc["output"],
        Value::from(format!("[Placeholder] Model m1 would process: {}", "a".repeat(50)))
    );
    let accents = object(vec![("prompt", text(&"é".repeat(30)))]);
    assert!(!infer_prompt_cut_ok(&object(vec![("prompt", text(&format!("a{}", "é".repeat(30))))])));
    assert!(infer_prompt_cut_ok(&accents));
}

#[test]
fn ocr_and_detect_placeholders() {
    assert_eq!(
        to_value(&api_server::ocr(&Json::Null)),
        parse(r#"{"status":"ok","text":"[OCR placeholder - Hailo-8 PaddleOCR]","engine":"hailo-8"}"#)
    );
    assert_eq!(
        to_value(&api_server::detect(&Json::Null)),
        parse(r#"{"status":"ok","objects":[],"engine":"hailo-8-yolov8"}"#)
    );
}

#[test]
fn tool_catalog_has_five_tools() {
    let tools = to_value(&list_tools());
    let list = tools["tools"].as_array().unwrap();
    assert_eq!(list.len(), 5);
    let names: Vec<&str> = list.iter().map(|t| t["name"].as_str().unwrap()).collect();
    assert_eq!(
        names,
        vec!["mcp_gguf_infer", "mcp_hailo_classify", "mcp_hailo_detect", "mcp_hailo_ocr", "mcp_engine_status"]
    );
    assert_eq!(list[0]["inputSchema"]["properties"]["max_tokens"]["default"], Value::from(256));
    assert_eq!(list[1]["inputSchema"]["required"], parse(r#"["image_path"]"#));
    assert_eq!(list[4]["inputSchema"], parse(r#"{"type":"object","properties":{}}"#));
    let info = to_value(&tool_info());
    assert_eq!(info["tools_count"], Value::from(list.len()));
    assert_eq!(
        info,
        parse(r#"{"description":"Hermes Rust Backend MCP Bridge","version":"0.3.0","tools_count":5,"endpoint":"/mcp/tools"}"#)
    );
}

fn message(role: &str, content: &str) -> ChatMessage {
    ChatMessage { role: role.to_string(), content: content.to_string() }
}

fn request(stream: bool, messages: Vec<ChatMessage>) -> ChatCompletionRequest {
    ChatCompletionRequest { model: "gpt-4o".to_string(), messages, max_tokens: 2048, stream }
}

#[test]
fn prompt_joins_turns() {
    let msgs = vec![message("system", "Be brief"), message("user", "Hello")];
    assert_eq!(build_prompt(&msgs), "<|system|>\nBe brief\n<|user|>\nHello");
    assert_eq!(build_prompt(&vec![]), "");
    assert_eq!(default_max_tokens(), 2048);
}

fn document(plan: ChatPlan) -> Value {
    match plan {
        ChatPlan::Reply(ChatAnswer::Document(doc)) => to_value(&doc),
        other => panic!("unexpected plan {:?}", other),
    }
}

#[test]
fn loaded_engine_generates_from_the_prompt() {
    let req = request(false, vec![message("user", "Hello")]);
    assert_eq!(
        plan_chat_completion(&req, true, 0),
        ChatPlan::Generate { prompt: "<|user|>\nHello".to_string(), max_tokens: 2048 }
    );
    let done = match completion_response(
        "gpt-4o",
        false,
        &Ok(Completion { text: "Hi!".to_string(), tokens_generated: 4 }),
        1700000000,
    ) {
        Ok(ChatAnswer::Document(doc)) => doc,
        other => panic!("unexpected answer {:?}", other),
    };
    assert_eq!(
        to_value(&done),
        parse(
            r#"{"id":"chatcmpl-1700000000","object":"chat.completion","created":1700000000,"model":"gpt-4o",
            "choices":[{"index":0,"message":{"role":"assistant","content":"Hi!"},"finish_reason":"stop"}],
            "usage":{"prompt_tokens":0,"completion_tokens":4,"total_tokens":4}}"#
        )
    );
    assert_eq!(completion_response("gpt-4o", false, &Err("down".to_string()), 1), Err(500));
    assert_eq!(completion_response("gpt-4o", true, &Err("down".to_string()), 1), Err(500));
}

#[test]
fn streamed_answers_are_chunks_then_done() {
    let req = request(true, vec![message("user", "Hello")]);
    assert_eq!(
        plan_chat_completion(&req, true, 0),
        ChatPlan::Generate { prompt: "<|user|>\nHello".to_string(), max_tokens: 2048 }
    );
    let chunks = match completion_response(
        "gpt-4o",
        true,
        &Ok(Completion { text: "Hi!".to_string(), tokens_generated: 4 }),
        7,
    ) {
        Ok(ChatAnswer::Events(chunks)) => chunks,
        other => panic!("unexpected answer {:?}", other),
    };
    assert_eq!(chunks, stream_documents(7, "gpt-4o", "Hi!"));
    assert_eq!(
        to_value(&chunks[0]),
        parse(
            r#"{"id":"chatcmpl-7","object":"chat.completion.chunk","created":7,"model":"gpt-4o",
            "choices":[{"index":0,"delta":{"role":"assistant","content":"Hi!"},"finish_reason":null}]}"#
        )
    );
    assert_eq!(to_value(&chunks[1])["choices"][0]["finish_reason"], Value::from("stop"));
    assert_eq!(to_value(&chunks[1])["choices"][0]["delta"], parse("{}"));
    let body = sse_body(&vec!["{\"a\":1}".to_string(), "{}".to_string()]);
    assert_eq!(body, "data: {\"a\":1}\n\ndata: {}\n\ndata: [DONE]\n\n");
    assert_eq!(sse_body(&vec![]), "data: [DONE]\n\n");
    match plan_chat_completion(&req, false, 3) {
        ChatPlan::Reply(ChatAnswer::Events(chunks)) => {
            assert_eq!(chunks.len(), 2);
            assert!(to_value(&chunks[0])["choices"][0]["delta"]["content"]
                .as_str()
                .unwrap()
                .contains("Your message: \"Hello\""));
        }
        other => panic!("unexpected plan {:?}", other),
    }
}

#[test]
fn unloaded_engine_sends_the_notice() {
    let req = request(false, vec![message("user", "first"), message("user", "Hello there")]);
    assert!(notice_cut_ok(&req));
    let doc = document(plan_chat_completion(&req, false, 5));
    assert_eq!(
        doc["choices"][0]["message"]["content"],
        Value::from(
            "Hermes Rust Backend v0.3.0\nGGUF Engine ready. 2 model(s) available. Your message: \"Hello there\". Full inference coming soon."
        )
    );
    assert_eq!(doc["id"], Value::from("chatcmpl-5"));
    assert_eq!(doc["usage"]["total_tokens"], Value::from(0));
    let empty = request(false, vec![]);
    let doc = document(plan_chat_completion(&empty, false, 0));
    assert!(doc["choices"][0]["message"]["content"].as_str().unwrap().contains("message: \"\"."));
    let long = request(false, vec![message("user", &"b".repeat(70))]);
    let doc = document(plan_chat_completion(&long, false, 0));
    assert!(doc["choices"][0]["message"]["content"]
        .as_str()
        .unwrap()
        .contains(&format!("\"{}\"", "b".repeat(50))));
}

#[test]
fn models_list_shows_the_models_localai_serves() {
    let mut engine = GgufEngine::new((GpuBackend::CPU, 0));
    assert_eq!(to_value(&list_models(&engine)), parse(r#"{"object":"list","data":[]}"#));
    let reply = object(vec![(
        "data",
        Json::Array(vec![object(vec![("id", text("gpt-4o"))]), object(vec![("id", text("tts-1"))])]),
    )]);
    engine.refresh_models(Ok(reply)).unwrap();
    assert_eq!(
        to_value(&list_models(&engine)),
        parse(
            r#"{"object":"list","data":[{"id":"gpt-4o","object":"model"},{"id":"tts-1","object":"model"}]}"#
        )
    );
}
