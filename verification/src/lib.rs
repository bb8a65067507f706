//! The verified core of the Hermes backend: a LocalAI proxy with an
//! OpenAI-compatible API, a Hailo-8 NPU bridge, GPU discovery, and the MCP
//! tool catalog offered to the Hermes agent.
//!
//! The library decides and computes; the server around it performs the
//! HTTP exchanges, runs `nvidia-smi`, looks at the file system and reads
//! the clock, and hands the results in as plain values.
pub mod api_server;
pub mod gguf_engine;
pub mod hailo_engine;
pub mod json;
pub mod mcp_bridge;
pub mod multi_gpu;
pub mod once;
pub mod onnx_engine;
pub mod openai_api;
pub mod service;
pub mod text;
