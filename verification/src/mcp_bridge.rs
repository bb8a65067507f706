//! MCP (Model Context Protocol) bridge: the catalog of tools the backend
//! offers to the Hermes agent.
use vstd::prelude::*;

use crate::json::{arr1, arr5, jarr, jobj, jstr, juint, obj1, obj2, obj3, obj4, Json, JsonV};

verus! {

broadcast use vstd::string::group_string_axioms;

pub open spec fn string_param(description: Seq<char>) -> JsonV {
    jobj(seq![("type"@, jstr("string"@)), ("description"@, jstr(description))])
}

pub open spec fn tool_doc(name: Seq<char>, description: Seq<char>, schema: JsonV) -> JsonV {
    jobj(seq![("name"@, jstr(name)), ("description"@, jstr(description)), ("inputSchema"@, schema)])
}

pub open spec fn infer_tool_doc() -> JsonV {
    tool_doc(
        "mcp_gguf_infer"@,
        "Generate text using the loaded GGUF model"@,
        jobj(
            seq![
                ("type"@, jstr("object"@)),
                ("properties"@, jobj(
                    seq![
                        ("prompt"@, string_param("Input prompt"@)),
                        ("max_tokens"@, jobj(seq![("type"@, jstr("integer"@)), ("default"@, juint(256))])),
                    ],
                )),
                ("required"@, jarr(seq![jstr("prompt"@)])),
            ],
        ),
    )
}

/// The schema of a tool that takes one image path.
pub open spec fn image_schema() -> JsonV {
    jobj(
        seq![
            ("type"@, jstr("object"@)),
            ("properties"@, jobj(seq![("image_path"@, string_param("Path to image file"@))])),
            ("required"@, jarr(seq![jstr("image_path"@)])),
        ],
    )
}

pub open spec fn status_tool_doc() -> JsonV {
    tool_doc(
        "mcp_engine_status"@,
        "Get status of all AI engines (GGUF, Hailo-8, CUDA)"@,
        jobj(seq![("type"@, jstr("object"@)), ("properties"@, jobj(seq![]))]),
    )
}

/// The tool catalog served at `/mcp/tools`.
pub open spec fn tools_doc() -> JsonV {
    jobj(
        seq![
            ("tools"@, jarr(
                seq![
                    infer_tool_doc(),
                    tool_doc(
                        "mcp_hailo_classify"@,
                        "Classify an image using Hailo-8 ResNet-18"@,
                        image_schema(),
                    ),
                    tool_doc(
                        "mcp_hailo_detect"@,
                        "Detect objects in an image using Hailo-8 YOLOv8"@,
                        image_schema(),
                    ),
                    tool_doc(
                        "mcp_hailo_ocr"@,
                        "Extract text from an image using Hailo-8 OCR"@,
                        image_schema(),
                    ),
                    status_tool_doc(),
                ],
            )),
        ],
    )
}

/// The bridge description served at `/mcp/tools/{name}`.
pub open spec fn bridge_doc() -> JsonV {
    jobj(
        seq![
            ("description"@, jstr("Hermes Rust Backend MCP Bridge"@)),
            ("version"@, jstr("0.3.0"@)),
            ("tools_count"@, juint(5)),
            ("endpoint"@, jstr("/mcp/tools"@)),
        ],
    )
}

fn string_param_json(description: &str) -> (r: Json)
    ensures
        r@ == string_param(description@),
{
    obj2("type", Json::text("string"), "description", Json::text(description))
}

fn image_schema_json() -> (r: Json)
    ensures
        r@ == image_schema(),
{
    obj3(
        "type",
        Json::text("object"),
        "properties",
        obj1("image_path", string_param_json("Path to image file")),
        "required",
        arr1(Json::text("image_path")),
    )
}

fn tool(name: &str, description: &str, schema: Json) -> (r: Json)
    ensures
        r@ == tool_doc(name@, description@, schema@),
{
    obj3("name", Json::text(name), "description", Json::text(description), "inputSchema", schema)
}

/// The catalog of the five tools.
pub fn list_tools() -> (r: Json)
    ensures
        r@ == tools_doc(),
{
    let infer_schema = obj3(
        "type",
        Json::text("object"),
        "properties",
        obj2(
            "prompt",
            string_param_json("Input prompt"),
            "max_tokens",
            obj2("type", Json::text("integer"), "default", Json::uint(256)),
        ),
        "required",
        arr1(Json::text("prompt")),
    );
    let infer = tool("mcp_gguf_infer", "Generate text using the loaded GGUF model", infer_schema);
    let classify = tool(
        "mcp_hailo_classify",
        "Classify an image using Hailo-8 ResNet-18",
        image_schema_json(),
    );
    let detect = tool(
        "mcp_hailo_detect",
        "Detect objects in an image using Hailo-8 YOLOv8",
        image_schema_json(),
    );
    let ocr = tool("mcp_hailo_ocr", "Extract text from an image using Hailo-8 OCR", image_schema_json());
    let no_properties = Json::object(Vec::new());
    assert(no_properties@ == jobj(seq![])) by {
        assert(no_properties@->Object_0 =~= seq![]);
    }
    let status = tool(
        "mcp_engine_status",
        "Get status of all AI engines (GGUF, Hailo-8, CUDA)",
        obj2("type", Json::text("object"), "properties", no_properties),
    );
    assert(infer@ == infer_tool_doc());
    assert(status@ == status_tool_doc());
    obj1("tools", arr5(infer, classify, detect, ocr, status))
}

/// The description of the bridge.
pub fn tool_info() -> (r: Json)
    ensures
        r@ == bridge_doc(),
{
    obj4(
        "description",
        Json::text("Hermes Rust Backend MCP Bridge"),
        "version",
        Json::text("0.3.0"),
        "tools_count",
        Json::uint(5),
        "endpoint",
        Json::text("/mcp/tools"),
    )
}

/// The names of the tools in a catalog, in order.
pub open spec fn tool_names(catalog: JsonV) -> Seq<JsonV> {
    Seq::new(
        catalog.at_key("tools"@).as_array()->0.len(),
        |i: int| catalog.at_key("tools"@).at_index(i).at_key("name"@),
    )
}

/// Law: the bridge description counts exactly the tools of the catalog,
/// and no two tools of the catalog share a name.
pub proof fn law_catalog_is_consistent()
    ensures
        tools_doc().at_key("tools"@).as_array() is Some,
        bridge_doc().at_key("tools_count"@).as_u64() == Some(
            tools_doc().at_key("tools"@).as_array()->0.len() as u64,
        ),
        forall|i: int, j: int|
            0 <= i < j < 5 ==> tool_names(tools_doc())[i] != tool_names(tools_doc())[j],
{
    reveal_strlit("tools");
    reveal_strlit("name");
    reveal_strlit("description");
    reveal_strlit("version");
    reveal_strlit("tools_count");
    reveal_strlit("mcp_gguf_infer");
    reveal_strlit("mcp_hailo_classify");
    reveal_strlit("mcp_hailo_detect");
    reveal_strlit("mcp_hailo_ocr");
    reveal_strlit("mcp_engine_status");
    reveal_with_fuel(crate::json::lookup_from, 4);
    assert("description"@[0] != "tools_count"@[0]);
    assert("version"@[0] != "tools_count"@[0]);
    let names = tool_names(tools_doc());
    assert(names[0] == jstr("mcp_gguf_infer"@));
    assert(names[1] == jstr("mcp_hailo_classify"@));
    assert(names[2] == jstr("mcp_hailo_detect"@));
    assert(names[3] == jstr("mcp_hailo_ocr"@));
    assert(names[4] == jstr("mcp_engine_status"@));
    assert("mcp_gguf_infer"@[4] != "mcp_hailo_classify"@[4]);
    assert("mcp_gguf_infer"@[4] != "mcp_engine_status"@[4]);
    assert("mcp_hailo_classify"@[4] != "mcp_engine_status"@[4]);
    assert("mcp_hailo_classify"@[10] != "mcp_hailo_detect"@[10]);
    assert("mcp_hailo_classify"@[10] != "mcp_hailo_ocr"@[10]);
    assert("mcp_hailo_detect"@[10] != "mcp_hailo_ocr"@[10]);
    assert("mcp_gguf_infer"@[4] != "mcp_hailo_detect"@[4]);
    assert("mcp_gguf_infer"@[4] != "mcp_hailo_ocr"@[4]);
    assert("mcp_hailo_detect"@[4] != "mcp_engine_status"@[4]);
    assert("mcp_hailo_ocr"@[4] != "mcp_engine_status"@[4]);
}

} // verus!
