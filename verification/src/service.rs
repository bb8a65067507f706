//! The service's own endpoints: `/health` and `/engines`.
use vstd::prelude::*;

use crate::gguf_engine::{GgufEngine, GpuBackend};
use crate::json::{arr6, jarr, jobj, jstr, juint, obj1, obj2, obj3, obj4, obj5, Json, JsonV};

verus! {

broadcast use vstd::string::group_string_axioms;

/// The answer of `/health`.
pub open spec fn health_doc() -> JsonV {
    jobj(
        seq![
            ("service"@, jstr("hermes-rust-backend"@)),
            ("version"@, jstr("0.3.0"@)),
            ("status"@, jstr("ok"@)),
            ("features"@, jarr(
                seq![
                    jstr("gguf"@),
                    jstr("openai_api"@),
                    jstr("hailo8"@),
                    jstr("flash_attention"@),
                    jstr("mcp"@),
                    jstr("streaming"@),
                ],
            )),
        ],
    )
}

/// Reports the service, its version and its features.
pub fn health() -> (r: Json)
    ensures
        r@ == health_doc(),
{
    obj4(
        "service",
        Json::text("hermes-rust-backend"),
        "version",
        Json::text("0.3.0"),
        "status",
        Json::text("ok"),
        "features",
        arr6(
            Json::text("gguf"),
            Json::text("openai_api"),
            Json::text("hailo8"),
            Json::text("flash_attention"),
            Json::text("mcp"),
            Json::text("streaming"),
        ),
    )
}

/// What `/engines` reports on: the backend detected now and its GPU count,
/// the text engine's state, and the other engines' availability.
#[derive(Debug, Clone, Copy)]
pub struct EngineReport {
    pub backend: GpuBackend,
    pub gpu_count: u32,
    pub gguf_available: bool,
    pub gguf_model_loaded: bool,
    pub hailo_available: bool,
    pub cuda_available: bool,
    pub cuda_device_count: usize,
    pub onnx_available: bool,
}

impl EngineReport {
    /// The report on the detected backend, the text engine `engine`, and
    /// the other engines: the text engine is available exactly when it has
    /// a model loaded, and CUDA exactly when there is a CUDA GPU.
    pub fn new(
        detected: (GpuBackend, u32),
        engine: &GgufEngine,
        hailo_available: bool,
        cuda_device_count: usize,
        onnx_available: bool,
    ) -> (r: EngineReport)
        ensures
            r.backend == detected.0,
            r.gpu_count == detected.1,
            r.gguf_available == engine@.model_loaded,
            r.gguf_model_loaded == engine@.model_loaded,
            r.gguf_available == (engine@.models.len() > 0),
            r.hailo_available == hailo_available,
            r.cuda_available == (cuda_device_count > 0),
            r.cuda_device_count == cuda_device_count,
            r.onnx_available == onnx_available,
    {
        EngineReport {
            backend: detected.0,
            gpu_count: detected.1,
            gguf_available: engine.is_available(),
            gguf_model_loaded: engine.model_loaded(),
            hailo_available,
            cuda_available: cuda_device_count > 0,
            cuda_device_count,
            onnx_available,
        }
    }
}

/// The answer of `/engines`. Flash attention is on exactly with CUDA.
pub open spec fn engines_doc(r: EngineReport) -> JsonV {
    jobj(
        seq![
            ("engines"@, jobj(
                seq![
                    ("gguf"@, jobj(
                        seq![
                            ("available"@, JsonV::Bool(r.gguf_available)),
                            ("model_loaded"@, JsonV::Bool(r.gguf_model_loaded)),
                            ("backend"@, jstr(r.backend.spec_name())),
                            ("gpu_count"@, juint(r.gpu_count as u64)),
                            ("flash_attention"@, JsonV::Bool(r.backend == GpuBackend::CUDA)),
                        ],
                    )),
                    ("hailo8"@, jobj(
                        seq![
                            ("available"@, JsonV::Bool(r.hailo_available)),
                            ("device"@, jstr("/dev/hailo0"@)),
                            ("mcp_bridge"@, jstr("http://192.168.1.47:8767"@)),
                        ],
                    )),
                    ("cuda"@, jobj(
                        seq![
                            ("available"@, JsonV::Bool(r.cuda_available)),
                            ("device_count"@, juint(r.cuda_device_count as u64)),
                        ],
                    )),
                    ("onnx"@, jobj(seq![("available"@, JsonV::Bool(r.onnx_available))])),
                ],
            )),
        ],
    )
}

/// Reports every engine.
pub fn engines_info(report: &EngineReport) -> (r: Json)
    ensures
        r@ == engines_doc(*report),
{
    let gguf = obj5(
        "available",
        Json::Bool(report.gguf_available),
        "model_loaded",
        Json::Bool(report.gguf_model_loaded),
        "backend",
        Json::text(report.backend.name()),
        "gpu_count",
        Json::uint(report.gpu_count as u64),
        "flash_attention",
        Json::Bool(report.backend == GpuBackend::CUDA),
    );
    let hailo = obj3(
        "available",
        Json::Bool(report.hailo_available),
        "device",
        Json::text("/dev/hailo0"),
        "mcp_bridge",
        Json::text("http://192.168.1.47:8767"),
    );
    let cuda = obj2(
        "available",
        Json::Bool(report.cuda_available),
        "device_count",
        Json::uint(report.cuda_device_count as u64),
    );
    let onnx = obj1("available", Json::Bool(report.onnx_available));
    obj1("engines", obj4("gguf", gguf, "hailo8", hailo, "cuda", cuda, "onnx", onnx))
}

} // verus!
