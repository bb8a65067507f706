use std::cell::Cell;

use hermes_rust_backend::gguf_engine::{
    backend_from_probe, collect_model_ids, completions_endpoint, detect_gpu_backend, localai_url,
    models_endpoint, read_completion, request_failed_error, set_localai_url, unreachable_error,
    GgufEngine, GpuBackend,
};
use hermes_rust_backend::hailo_engine::{
    benchmark, bridge_address, bridge_reachable, check_status, classify, classify_native,
    detect_request, device_info, device_present, is_available, mcp_url, ocr_request, ocr_text,
    parse_detections, parse_predictions, request_failed, set_mcp_url, HailoProbes,
};
use hermes_rust_backend::json::{Json, JsonNumber, Member};
use hermes_rust_backend::multi_gpu::{
    self, best_gpu, device_count, free_memory_field, gpu_info, gpu_reading, read_gpus, GpuDevice,
    GpuReading,
};
use hermes_rust_backend::once::OnceSlot;
use hermes_rust_backend::onnx_engine::{self, load_sensenova};

fn object(entries: Vec<(&str, Json)>) -> Json {
    Json::Object(
        entries
            .into_iter()
            .map(|(k, v)| Member { key: k.to_string(), value: v })
            .collect(),
    )
}

fn text(s: &str) -> Json {
    Json::Str(s.to_string())
}

fn uint(n: u64) -> Json {
    Json::Number(JsonNumber::PosInt(n))
}

fn float(f: f64) -> Json {
    Json::Number(JsonNumber::Float(f.to_bits()))
}

// ── LocalAI engine ──────────────────────────────────────────────────────

#[test]
fn localai_url_defaults_then_keeps_first_setting() {
    let mut slot: OnceSlot<String> = OnceSlot::new();
    assert_eq!(localai_url(&slot), "http://192.168.1.47:8080");
    set_localai_url(&mut slot, "http://localhost:8080");
    assert_eq!(localai_url(&slot), "http://localhost:8080");
    set_localai_url(&mut slot, "http://other:1");
    assert_eq!(localai_url(&slot), "http://localhost:8080");
}

#[test]
fn builds_localai_endpoints_and_errors() {
    assert_eq!(models_endpoint("http://h:8080"), "http://h:8080/v1/models");
    assert_eq!(completions_endpoint("http://h:8080"), "http://h:8080/v1/chat/completions");
    assert_eq!(
        unreachable_error("http://h:8080", "connection refused"),
        "LocalAI unreachable at http://h:8080: connection refused"
    );
    assert_eq!(request_failed_error("timeout"), "LocalAI request failed: timeout");
}

#[test]
fn backend_names() {
    assert_eq!(GpuBackend::CUDA.name(), "CUDA");
    assert_eq!(GpuBackend::Vulkan.name(), "Vulkan");
    assert_eq!(GpuBackend::CPU.name(), "CPU");
}

#[test]
fn backend_from_nvidia_smi_probes() {
    assert_eq!(backend_from_probe(false, Some(b"GPU\n")), (GpuBackend::CPU, 0));
    assert_eq!(
        backend_from_probe(true, Some(b"RTX 3060\nRTX 3060\nGTX 1060\n")),
        (GpuBackend::CUDA, 3)
    );
    assert_eq!(backend_from_probe(true, Some(b"")), (GpuBackend::CUDA, 0));
    assert_eq!(backend_from_probe(true, None), (GpuBackend::CUDA, 1));
}

#[test]
fn detection_lists_gpus_only_when_nvidia_smi_works() {
    let listed = Cell::new(0);
    let r = detect_gpu_backend(
        || false,
        || {
            listed.set(listed.get() + 1);
            Some(b"GPU\n".to_vec())
        },
    );
    assert_eq!(r, (GpuBackend::CPU, 0));
    assert_eq!(listed.get(), 0);
    let r = detect_gpu_backend(|| true, || Some(b"A\nB\n".to_vec()));
    assert_eq!(r, (GpuBackend::CUDA, 2));
}

fn models_reply() -> Json {
    object(vec![
        ("object", text("list")),
        (
            "data",
            Json::Array(vec![
                object(vec![("id", text("gpt-4o"))]),
                object(vec![("id", uint(3))]),
                text("not an object"),
                object(vec![("id", text("whisper-1"))]),
            ]),
        ),
    ])
}

#[test]
fn new_engine_knows_no_model() {
    let engine = GgufEngine::new((GpuBackend::CUDA, 3));
    assert_eq!(engine.backend(), GpuBackend::CUDA);
    assert_eq!(engine.gpu_count(), 3);
    assert!(!engine.model_loaded());
    assert!(!engine.is_available());
    assert!(engine.list_models().is_empty());
}

#[test]
fn refresh_lists_string_ids() {
    let mut engine = GgufEngine::new((GpuBackend::CPU, 0));
    assert_eq!(engine.refresh_models(Ok(models_reply())), Ok(()));
    assert_eq!(engine.list_models(), &["gpt-4o".to_string(), "whisper-1".to_string()]);
    assert!(engine.is_available());
    assert_eq!(collect_model_ids(&models_reply()), vec!["gpt-4o", "whisper-1"]);
}

#[test]
fn refresh_failure_leaves_engine_unchanged() {
    let mut engine = GgufEngine::new((GpuBackend::CPU, 0));
    engine.refresh_models(Ok(models_reply())).unwrap();
    let r = engine.refresh_models(Err("LocalAI unreachable".to_string()));
    assert_eq!(r, Err("LocalAI unreachable".to_string()));
    assert_eq!(engine.list_models().len(), 2);
    assert!(engine.model_loaded());
}

#[test]
fn refresh_with_no_data_unloads() {
    let mut engine = GgufEngine::new((GpuBackend::CPU, 0));
    engine.refresh_models(Ok(models_reply())).unwrap();
    engine.refresh_models(Ok(object(vec![("data", text("nope"))]))).unwrap();
    assert!(engine.list_models().is_empty());
    assert!(!engine.model_loaded());
    assert!(!engine.is_available());
}

#[test]
fn infer_request_uses_first_model_or_gpt4o() {
    let engine = GgufEngine::new((GpuBackend::CPU, 0));
    let req = engine.infer_request("Hello", 100);
    let expected = object(vec![
        ("model", text("gpt-4o")),
        (
            "messages",
            Json::Array(vec![object(vec![("role", text("user")), ("content", text("Hello"))])]),
        ),
        ("max_tokens", uint(100)),
        ("temperature", float(0.7)),
    ]);
    assert_eq!(req, expected);
    let mut engine = GgufEngine::new((GpuBackend::CPU, 0));
    engine.refresh_models(Ok(models_reply())).unwrap();
    let req = engine.infer_default_request("Hi");
    assert_eq!(req.get("model").and_then(|m| m.as_str()), Some("gpt-4o"));
    assert_eq!(req.get("max_tokens").and_then(|m| m.as_u64()), Some(512));
    assert_eq!(engine.chosen_model(), "gpt-4o");
}

#[test]
fn reads_completion_replies() {
    let reply = object(vec![
        (
            "choices",
            Json::Array(vec![object(vec![(
                "message",
                object(vec![("role", text("assistant")), ("content", text("Bonjour"))]),
            )])]),
        ),
        ("usage", object(vec![("completion_tokens", uint(12))])),
    ]);
    let c = read_completion(&reply);
    assert_eq!(c.text, "Bonjour");
    assert_eq!(c.tokens_generated, 12);
    let empty = read_completion(&Json::Null);
    assert_eq!(empty.text, "");
    assert_eq!(empty.tokens_generated, 0);
    let big = read_completion(&object(vec![(
        "usage",
        object(vec![("completion_tokens", uint((1u64 << 32) + 5))]),
    )]));
    assert_eq!(big.tokens_generated, 5);
}

// ── Hailo-8 engine ──────────────────────────────────────────────────────

#[test]
fn hailo_node_is_probed_once() {
    let mut slot: OnceSlot<bool> = OnceSlot::new();
    let probes = Cell::new(0);
    let probe = |p: &str| {
        assert_eq!(p, "/dev/hailo0");
        probes.set(probes.get() + 1);
        true
    };
    assert!(device_present(&mut slot, probe));
    assert!(device_present(&mut slot, |_: &str| false));
    assert_eq!(probes.get(), 1);
}

#[test]
fn hailo_is_available_locally_or_behind_the_bridge() {
    let urls: OnceSlot<String> = OnceSlot::new();
    let asked = std::cell::RefCell::new(Vec::new());
    let mut local = HailoProbes::new();
    let reach = |a: &str| {
        asked.borrow_mut().push(a.to_string());
        true
    };
    assert!(is_available(&mut local, &urls, |_: &str| true, &reach));
    assert!(asked.borrow().is_empty());

    let mut remote = HailoProbes::new();
    assert!(is_available(&mut remote, &urls, |_: &str| false, &reach));
    assert_eq!(*asked.borrow(), vec!["192.168.1.47:8767"]);
    assert!(is_available(&mut remote, &urls, |_: &str| false, |_: &str| false));
    assert_eq!(asked.borrow().len(), 1);

    let mut neither = HailoProbes::new();
    assert!(!is_available(&mut neither, &urls, |_: &str| false, |_: &str| false));
}

#[test]
fn bridge_address_from_url() {
    assert_eq!(bridge_address("http://192.168.1.47:8767"), Some("192.168.1.47:8767".to_string()));
    assert_eq!(bridge_address("http://bridge/api"), Some("bridge:80".to_string()));
    assert_eq!(bridge_address("http://h:1/x/y"), Some("h:1".to_string()));
    assert_eq!(bridge_address("https://bridge:443"), None);
    assert_eq!(bridge_address("http:/"), None);
    let mut slot: OnceSlot<bool> = OnceSlot::new();
    let mut urls: OnceSlot<String> = OnceSlot::new();
    set_mcp_url(&mut urls, "ftp://nowhere");
    assert!(!bridge_reachable(&mut slot, &urls, |_: &str| true));
}

#[test]
fn mcp_url_defaults_then_keeps_first_setting() {
    let mut slot: OnceSlot<String> = OnceSlot::new();
    assert_eq!(mcp_url(&slot), "http://192.168.1.47:8767");
    set_mcp_url(&mut slot, "http://bridge:1");
    set_mcp_url(&mut slot, "http://bridge:2");
    assert_eq!(mcp_url(&slot), "http://bridge:1");
}

#[test]
fn device_info_describes_the_npu() {
    let mut probes = HailoProbes::new();
    let urls: OnceSlot<String> = OnceSlot::new();
    let info = device_info(&mut probes, &urls, |_: &str| false, |_: &str| false);
    let expected = object(vec![
        ("device", text("/dev/hailo0")),
        ("available", Json::Bool(false)),
        ("tops", uint(26)),
        ("architecture", text("Hailo-8")),
        ("mcp_bridge", text("http://192.168.1.47:8767")),
    ]);
    assert_eq!(info, expected);
    let mut remote = HailoProbes::new();
    let info = device_info(&mut remote, &urls, |_: &str| false, |_: &str| true);
    assert_eq!(info.get("available"), Some(&Json::Bool(true)));
}

#[test]
fn classification_goes_native_or_to_bridge() {
    let urls: OnceSlot<String> = OnceSlot::new();
    let mut local: OnceSlot<bool> = OnceSlot::new();
    let r = classify(&mut local, |_: &str| true, &urls, "/tmp/cat.jpg");
    assert_eq!(
        r,
        Err("Native HailoRT classification not yet implemented. Use MCP bridge.".to_string())
    );
    assert!(classify_native("x").is_err());
    let mut remote: OnceSlot<bool> = OnceSlot::new();
    let req = classify(&mut remote, |_: &str| false, &urls, "/tmp/cat.jpg").unwrap();
    assert_eq!(req.url, "http://192.168.1.47:8767/classify");
    assert_eq!(req.body, object(vec![("image_path", text("/tmp/cat.jpg"))]));
}

#[test]
fn detect_and_ocr_requests_go_to_the_bridge() {
    let mut urls: OnceSlot<String> = OnceSlot::new();
    set_mcp_url(&mut urls, "http://b:9");
    assert_eq!(detect_request(&urls, "a.png").url, "http://b:9/detect");
    assert_eq!(ocr_request(&urls, "a.png").url, "http://b:9/ocr");
    assert_eq!(ocr_request(&urls, "a.png").body, object(vec![("image_path", text("a.png"))]));
}

#[test]
fn bridge_errors() {
    assert_eq!(check_status(200), Ok(()));
    assert_eq!(check_status(299), Ok(()));
    assert_eq!(check_status(404), Err("MCP returned 404 Not Found".to_string()));
    assert_eq!(check_status(503), Err("MCP returned 503 Service Unavailable".to_string()));
    assert_eq!(check_status(599), Err("MCP returned 599 <unknown status code>".to_string()));
    assert!(check_status(199).is_err());
    assert!(check_status(300).is_err());
    assert_eq!(request_failed("refused"), "MCP request failed: refused");
}

#[test]
fn reads_predictions_and_skips_malformed_ones() {
    let body = object(vec![(
        "predictions",
        Json::Array(vec![
            object(vec![("label", text("cat")), ("confidence", float(0.9))]),
            object(vec![("label", text("dog"))]),
            object(vec![("label", uint(1)), ("confidence", float(0.5))]),
            object(vec![("label", text("fox")), ("confidence", uint(1))]),
        ]),
    )]);
    let preds = parse_predictions(&body);
    assert_eq!(preds.len(), 2);
    assert_eq!(preds[0].label, "cat");
    assert_eq!(preds[0].confidence, JsonNumber::Float(0.9f64.to_bits()));
    assert_eq!(preds[1].label, "fox");
    let fallback = object(vec![(
        "result",
        Json::Array(vec![object(vec![("label", text("car")), ("confidence", float(0.1))])]),
    )]);
    assert_eq!(parse_predictions(&fallback).len(), 1);
    let not_array = object(vec![("predictions", Json::Null), ("result", Json::Array(vec![]))]);
    assert!(parse_predictions(&not_array).is_empty());
}

#[test]
fn reads_detections() {
    let full = object(vec![
        ("label", text("person")),
        ("confidence", float(0.8)),
        ("x", uint(1)),
        ("y", uint(2)),
        ("width", uint(3)),
        ("height", uint(4)),
    ]);
    let partial = object(vec![("label", text("bike")), ("confidence", float(0.8))]);
    let body = object(vec![("detections", Json::Array(vec![full, partial]))]);
    let ds = parse_detections(&body);
    assert_eq!(ds.len(), 1);
    assert_eq!(ds[0].label, "person");
    assert_eq!(ds[0].height, JsonNumber::PosInt(4));
}

#[test]
fn reads_ocr_text() {
    assert_eq!(ocr_text(&object(vec![("text", text("HELLO"))])), Ok("HELLO".to_string()));
    assert_eq!(ocr_text(&object(vec![("result", text("WORLD"))])), Ok("WORLD".to_string()));
    assert_eq!(
        ocr_text(&object(vec![("text", uint(3))])),
        Err("No text in response".to_string())
    );
}

#[test]
fn benchmark_reports_device_or_bridge() {
    let mut remote: OnceSlot<bool> = OnceSlot::new();
    let b = benchmark(&mut remote, |_: &str| false).unwrap();
    assert_eq!(b.device, "MCP bridge (remote)");
    assert_eq!(b.tops_rated, 26);
    let mut local: OnceSlot<bool> = OnceSlot::new();
    let b = benchmark(&mut local, |_: &str| true).unwrap();
    assert_eq!(b.device, "/dev/hailo0");
    assert_eq!(b.inference_time_ms, 0);
    assert_eq!(b.throughput_fps, 0);
}

// ── CUDA GPUs ───────────────────────────────────────────────────────────

#[test]
fn gpu_count_is_read_once() {
    let mut slot: OnceSlot<usize> = OnceSlot::new();
    assert_eq!(device_count(&mut slot, || Some(b"A\nB\nC\n".to_vec())), 3);
    assert_eq!(device_count(&mut slot, || None), 3);
    assert!(multi_gpu::is_available(&mut slot, || None));
    let mut none: OnceSlot<usize> = OnceSlot::new();
    assert!(!multi_gpu::is_available(&mut none, || None));
}

#[test]
fn reads_gpu_details() {
    let r = gpu_reading(1, Some("NVIDIA GeForce RTX 3060, 12288\n"));
    assert_eq!(r.index, 1);
    assert_eq!(r.name, "NVIDIA GeForce RTX 3060");
    assert_eq!(r.memory_field, Some("12288".to_string()));
    let bad = gpu_reading(0, Some("garbage"));
    assert_eq!(bad.name, "Unknown");
    assert_eq!(bad.memory_field, None);
    assert_eq!(gpu_reading(2, None).name, "Unknown");
    let all = read_gpus(2, |i: usize| if i == 0 { Some("A, 1".to_string()) } else { None });
    assert_eq!(all.len(), 2);
    assert_eq!(all[0].name, "A");
    assert_eq!(all[1].name, "Unknown");
    assert_eq!(all[1].index, 1);
}

#[test]
fn gpu_details_are_read_once() {
    let mut info: OnceSlot<Vec<GpuReading>> = OnceSlot::new();
    let mut counts: OnceSlot<usize> = OnceSlot::new();
    let queries = Cell::new(0);
    let query = |i: usize| {
        queries.set(queries.get() + 1);
        Some(format!("GPU {}, 6144", i))
    };
    let first = gpu_info(&mut info, &mut counts, || Some(b"a\nb\n".to_vec()), &query);
    assert_eq!(first.len(), 2);
    assert_eq!(first[1].name, "GPU 1");
    let again = gpu_info(&mut info, &mut counts, || Some(b"a\nb\nc\n".to_vec()), &query);
    assert_eq!(again.len(), 2);
    assert_eq!(queries.get(), 2);
    assert_eq!(counts.get(), Some(&2));
}

#[test]
fn reads_free_memory() {
    assert_eq!(free_memory_field(Some(" 5120\n")), Some("5120".to_string()));
    assert_eq!(free_memory_field(None), None);
}

fn gpu(index: usize, rank: Option<u32>) -> GpuDevice {
    GpuDevice { index, name: String::new(), free_memory_rank: rank }
}

#[test]
fn best_gpu_has_most_free_memory_first_among_equals() {
    assert_eq!(best_gpu(&vec![]), 0);
    assert_eq!(best_gpu(&vec![gpu(0, Some(12)), gpu(1, Some(12)), gpu(2, Some(6))]), 0);
    assert_eq!(best_gpu(&vec![gpu(0, Some(6)), gpu(1, Some(12)), gpu(2, Some(8))]), 1);
    assert_eq!(best_gpu(&vec![gpu(0, Some(12)), gpu(1, None)]), 0);
    assert_eq!(best_gpu(&vec![gpu(0, None), gpu(1, Some(3))]), 0);
}

#[test]
fn best_gpu_picks_free_memory_over_total() {
    // Totals 12 GB and 6 GB, free 1 GB and 5 GB: the second GPU.
    let free = [1.0f32, 5.0];
    let devices: Vec<GpuDevice> = free.iter().enumerate().map(|(i, m)| gpu(i, rank(*m))).collect();
    assert_eq!(best_gpu(&devices), 1);
}

#[test]
fn best_gpu_agrees_with_first_maximum_by_partial_cmp() {
    let sets: Vec<Vec<f32>> = vec![
        vec![12.0, 12.0, 6.0],
        vec![6.0, f32::NAN, 5.0],
        vec![f32::NAN, 1.0],
        vec![0.0, -0.0],
        vec![-1.0, 2.5, 2.5, 0.5],
    ];
    for mems in sets {
        let mut expected = 0;
        for i in 1..mems.len() {
            if mems[i].partial_cmp(&mems[expected]) == Some(std::cmp::Ordering::Greater) {
                expected = i;
            }
        }
        let devices: Vec<GpuDevice> =
            mems.iter().enumerate().map(|(i, m)| gpu(i, rank(*m))).collect();
        assert_eq!(best_gpu(&devices), expected);
    }
}

fn rank(m: f32) -> Option<u32> {
    if m.is_nan() {
        return None;
    }
    let m = if m == 0.0 { 0.0f32 } else { m };
    let bits = m.to_bits();
    Some(if bits >> 31 == 1 { !bits } else { bits | 0x8000_0000 })
}

// ── ONNX Runtime ────────────────────────────────────────────────────────

#[test]
fn onnx_looks_in_both_places_once() {
    let seen = std::cell::RefCell::new(Vec::new());
    let probe = |p: &str| {
        seen.borrow_mut().push(p.to_string());
        p == "/usr/local/lib/libonnxruntime.so"
    };
    let mut slot: OnceSlot<bool> = OnceSlot::new();
    assert!(onnx_engine::is_available(&mut slot, &probe));
    assert!(onnx_engine::is_available(&mut slot, &probe));
    assert_eq!(
        *seen.borrow(),
        vec!["/usr/lib/libonnxruntime.so", "/usr/local/lib/libonnxruntime.so"]
    );
}

#[test]
fn sensenova_needs_the_runtime() {
    let mut missing: OnceSlot<bool> = OnceSlot::new();
    assert_eq!(
        load_sensenova(&mut missing, |_: &str| false, "/models/sensenova.onnx"),
        Err("ONNX Runtime not found".to_string())
    );
    let mut present: OnceSlot<bool> = OnceSlot::new();
    assert_eq!(load_sensenova(&mut present, |p: &str| p.starts_with("/usr/lib"), "m"), Ok(()));
}
