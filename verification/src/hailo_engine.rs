//! Hailo-8 NPU engine.
//!
//! Classification, detection and OCR go to the MCP bridge, a REST service
//! in front of the NPU. This module decides where each request goes, builds
//! it, and reads the bridge's answers; the caller performs the HTTP calls.
use vstd::prelude::*;

use crate::gguf_engine::{slot_text, url_in_force};
use crate::json::{
    field_of, jobj, jstr, juint, number_of, obj1, obj5, str_of, views, Json,
    JsonNumber, JsonV,
};
use crate::once::{after_set, OnceSlot};
use crate::text::{decimal, join2, join3};

verus! {

broadcast use vstd::string::group_string_axioms;

/// The device node of a local Hailo-8.
pub open spec fn device_path() -> &'static str {
    "/dev/hailo0"
}

pub open spec fn default_mcp_url() -> Seq<char> {
    "http://192.168.1.47:8767"@
}

/// Whether the device node is there: the cached answer when there is one;
/// otherwise what `node_exists` says of `/dev/hailo0`, which is then cached.
pub open spec fn presence<F: FnOnce(&str) -> bool>(
    before: Option<bool>,
    after: Option<bool>,
    r: bool,
    node_exists: F,
) -> bool {
    match before {
        Some(b) => r == b && after == before,
        None => node_exists.ensures((device_path(),), r) && after == Some(r),
    }
}

/// Whether a Hailo-8 is attached to this host. The device node is looked
/// for once (with `node_exists`); the answer is kept and given from then on.
pub fn device_present<F: FnOnce(&str) -> bool>(slot: &mut OnceSlot<bool>, node_exists: F) -> (r:
    bool)
    requires
        node_exists.requires(("/dev/hailo0",)),
    ensures
        presence(old(slot)@, final(slot)@, r, node_exists),
{
    match slot.get() {
        Some(b) => *b,
        None => {
            let b = node_exists("/dev/hailo0");
            let _ = slot.set(b);
            b
        },
    }
}

// ── The bridge's address ─────────────────────────────────────────────────

pub open spec fn http_scheme() -> Seq<char> {
    seq!['h', 't', 't', 'p', ':', '/', '/']
}

/// `k` is where the host part of `s` ends: at the first `/`, or at the end.
pub open spec fn host_end(s: Seq<char>, k: int) -> bool {
    &&& 0 <= k <= s.len()
    &&& forall|j: int| 0 <= j < k ==> #[trigger] s[j] != '/'
    &&& k < s.len() ==> s[k] == '/'
}

pub open spec fn host_of(s: Seq<char>) -> Seq<char> {
    s.take(choose|k: int| host_end(s, k))
}

/// The `host:port` a bridge URL names: what follows `http://` up to the
/// first `/`, with port 80 when it names none; nothing for a URL of another
/// form.
pub open spec fn spec_bridge_address(url: Seq<char>) -> Option<Seq<char>> {
    if url.len() >= 7 && url.take(7) == http_scheme() {
        let host = host_of(url.skip(7));
        if host.contains(':') {
            Some(host)
        } else {
            Some(host + seq![':', '8', '0'])
        }
    } else {
        None
    }
}

proof fn lemma_host_end_unique(s: Seq<char>, k1: int, k2: int)
    requires
        host_end(s, k1),
        host_end(s, k2),
    ensures
        k1 == k2,
{
    if k1 < k2 {
        assert(s[k1] == '/');
    } else if k2 < k1 {
        assert(s[k2] == '/');
    }
}

/// The `host:port` of the bridge at `url`.
pub fn bridge_address(url: &str) -> (r: Option<String>)
    ensures
        match r {
            Some(a) => spec_bridge_address(url@) == Some(a@),
            None => spec_bridge_address(url@) is None,
        },
{
    let n = url.unicode_len();
    if n < 7 {
        return None;
    }
    let mut i: usize = 0;
    while i < 7
        invariant
            n == url@.len(),
            7 <= n,
            0 <= i <= 7,
            forall|j: int| 0 <= j < i ==> url@[j] == http_scheme()[j],
        decreases 7 - i,
    {
        let expected = if i == 0 {
            'h'
        } else if i == 1 || i == 2 {
            't'
        } else if i == 3 {
            'p'
        } else if i == 4 {
            ':'
        } else {
            '/'
        };
        assert(expected == http_scheme()[i as int]);
        if url.get_char(i) != expected {
            assert(url@.take(7)[i as int] != http_scheme()[i as int]);
            return None;
        }
        i += 1;
    }
    assert(url@.take(7) =~= http_scheme());
    let ghost rest = url@.skip(7);
    let mut k: usize = 7;
    while k < n && url.get_char(k) != '/'
        invariant
            n == url@.len(),
            7 <= k <= n,
            rest == url@.skip(7),
            forall|j: int| 0 <= j < k - 7 ==> #[trigger] rest[j] != '/',
        decreases n - k,
    {
        k += 1;
    }
    proof {
        assert(host_end(rest, k - 7));
        lemma_host_end_unique(rest, k - 7, choose|k0: int| host_end(rest, k0));
    }
    let host = url.substring_char(7, k);
    assert(host@ =~= host_of(rest));
    let mut c: usize = 7;
    let mut has_port = false;
    while c < k
        invariant
            n == url@.len(),
            7 <= c <= k <= n,
            host@ == url@.subrange(7, k as int),
            has_port <==> exists|j: int| 0 <= j < c - 7 && host@[j] == ':',
        decreases k - c,
    {
        if url.get_char(c) == ':' {
            has_port = true;
        }
        assert(host@[c - 7] == url@[c as int]);
        c += 1;
    }
    if has_port {
        Some(host.to_string())
    } else {
        let mut a = host.to_string();
        proof {
            reveal_strlit(":80");
        }
        a.append(":80");
        assert(a@ =~= host@ + seq![':', '8', '0']);
        Some(a)
    }
}

/// Whether the bridge answers: the cached answer when there is one;
/// otherwise what `reachable` says of the bridge's address (no for an
/// address that cannot be read from the URL), which is then cached.
pub open spec fn reachability<G: FnOnce(&str) -> bool>(
    before: Option<bool>,
    after: Option<bool>,
    r: bool,
    reachable: G,
    bridge: Seq<char>,
) -> bool {
    match before {
        Some(b) => r == b && after == before,
        None => after == Some(r) && match spec_bridge_address(bridge) {
            Some(addr) => exists|a: &str| a@ == addr && reachable.ensures((a,), r),
            None => !r,
        },
    }
}

/// The two probes of the Hailo-8: the local device node and the bridge.
pub struct HailoProbes {
    pub node: OnceSlot<bool>,
    pub bridge: OnceSlot<bool>,
}

impl HailoProbes {
    pub fn new() -> (r: Self)
        ensures
            r.node@ is None,
            r.bridge@ is None,
    {
        HailoProbes { node: OnceSlot::new(), bridge: OnceSlot::new() }
    }
}

/// Whether the bridge at the configured address answers, asked once.
pub fn bridge_reachable<G: FnOnce(&str) -> bool>(
    slot: &mut OnceSlot<bool>,
    urls: &OnceSlot<String>,
    reachable: G,
) -> (r: bool)
    requires
        forall|a: &str| reachable.requires((a,)),
    ensures
        reachability(
            old(slot)@,
            final(slot)@,
            r,
            reachable,
            url_in_force(slot_text(urls@), default_mcp_url()),
        ),
{
    match slot.get() {
        Some(b) => *b,
        None => {
            let b = match bridge_address(mcp_url(urls)) {
                Some(a) => {
                    let up = reachable(a.as_str());
                    assert(exists|x: &str| x@ == a@ && reachable.ensures((x,), up));
                    up
                },
                None => false,
            };
            let _ = slot.set(b);
            b
        },
    }
}

/// What an availability check answers: available when the device node is
/// there, or else when the bridge answers (asked only then).
pub open spec fn availability<F: FnOnce(&str) -> bool, G: FnOnce(&str) -> bool>(
    before: HailoProbes,
    after: HailoProbes,
    r: bool,
    node_exists: F,
    reachable: G,
    bridge: Seq<char>,
) -> bool {
    exists|local: bool|
        {
            &&& presence(before.node@, after.node@, local, node_exists)
            &&& local ==> r && after.bridge@ == before.bridge@
            &&& !local ==> reachability(before.bridge@, after.bridge@, r, reachable, bridge)
        }
}

/// Whether a Hailo-8 can be used, on this host or behind the bridge. Each
/// probe runs at most once; the answers are kept and given from then on.
pub fn is_available<F: FnOnce(&str) -> bool, G: FnOnce(&str) -> bool>(
    probes: &mut HailoProbes,
    urls: &OnceSlot<String>,
    node_exists: F,
    reachable: G,
) -> (r: bool)
    requires
        node_exists.requires(("/dev/hailo0",)),
        forall|a: &str| reachable.requires((a,)),
    ensures
        availability(
            *old(probes),
            *final(probes),
            r,
            node_exists,
            reachable,
            url_in_force(slot_text(urls@), default_mcp_url()),
        ),
{
    let ghost before = *probes;
    let ghost bridge = url_in_force(slot_text(urls@), default_mcp_url());
    let local = device_present(&mut probes.node, node_exists);
    if local {
        assert(presence(before.node@, probes.node@, local, node_exists));
        true
    } else {
        let r = bridge_reachable(&mut probes.bridge, urls, reachable);
        assert(presence(before.node@, probes.node@, local, node_exists));
        assert(reachability(before.bridge@, probes.bridge@, r, reachable, bridge));
        r
    }
}

/// Law: once both probes have been answered, the availability check gives
/// the same answer again, whatever the probes would now say.
pub proof fn law_availability_is_stable<
    F1: FnOnce(&str) -> bool,
    G1: FnOnce(&str) -> bool,
    F2: FnOnce(&str) -> bool,
    G2: FnOnce(&str) -> bool,
>(
    p0: HailoProbes,
    p1: HailoProbes,
    r1: bool,
    f1: F1,
    g1: G1,
    p2: HailoProbes,
    r2: bool,
    f2: F2,
    g2: G2,
    bridge: Seq<char>,
)
    requires
        availability(p0, p1, r1, f1, g1, bridge),
        availability(p1, p2, r2, f2, g2, bridge),
    ensures
        r2 == r1,
        p2.node@ == p1.node@,
        p2.bridge@ == p1.bridge@,
{
}

/// Sets the MCP bridge address. Only the first call has an effect.
pub fn set_mcp_url(slot: &mut OnceSlot<String>, url: &str)
    ensures
        slot_text(final(slot)@) == after_set(slot_text(old(slot)@), url@),
{
    let _ = slot.set(url.to_string());
}

/// The MCP bridge address: the one set first, or the built-in default.
pub fn mcp_url(slot: &OnceSlot<String>) -> (r: &str)
    ensures
        r@ == url_in_force(slot_text(slot@), default_mcp_url()),
{
    match slot.get() {
        Some(u) => u.as_str(),
        None => "http://192.168.1.47:8767",
    }
}

/// Law: the bridge address read back is the default until an address is
/// set, then the first address set, whatever is set after it.
pub proof fn law_mcp_url_first_setting(first: Seq<char>, later: Seq<char>)
    ensures
        url_in_force(None, default_mcp_url()) == default_mcp_url(),
        url_in_force(after_set(after_set(None, first), later), default_mcp_url()) == first,
{
}

/// The device description.
pub open spec fn device_doc(available: bool, bridge: Seq<char>) -> JsonV {
    jobj(
        seq![
            ("device"@, jstr("/dev/hailo0"@)),
            ("available"@, JsonV::Bool(available)),
            ("tops"@, juint(26)),
            ("architecture"@, jstr("Hailo-8"@)),
            ("mcp_bridge"@, jstr(bridge)),
        ],
    )
}

/// Describes the device: its node, whether it can be used (here or behind
/// the bridge), its rating and the bridge address.
pub fn device_info<F: FnOnce(&str) -> bool, G: FnOnce(&str) -> bool>(
    probes: &mut HailoProbes,
    urls: &OnceSlot<String>,
    node_exists: F,
    reachable: G,
) -> (r: Json)
    requires
        node_exists.requires(("/dev/hailo0",)),
        forall|a: &str| reachable.requires((a,)),
    ensures
        exists|a: bool|
            availability(
                *old(probes),
                *final(probes),
                a,
                node_exists,
                reachable,
                url_in_force(slot_text(urls@), default_mcp_url()),
            ) && r@ == device_doc(a, url_in_force(slot_text(urls@), default_mcp_url())),
{
    let available = is_available(probes, urls, node_exists, reachable);
    let r = obj5(
        "device",
        Json::text("/dev/hailo0"),
        "available",
        Json::Bool(available),
        "tops",
        Json::uint(26),
        "architecture",
        Json::text("Hailo-8"),
        "mcp_bridge",
        Json::text(mcp_url(urls)),
    );
    assert(r@ == device_doc(available, url_in_force(slot_text(urls@), default_mcp_url())));
    r
}

// ── Requests to the bridge ───────────────────────────────────────────────

/// A request to the MCP bridge: `POST url` with a JSON body.
#[derive(Debug, PartialEq)]
pub struct McpRequest {
    pub url: String,
    pub body: Json,
}

/// The request for `image_path` at `{bridge}/{action}`.
pub open spec fn bridge_request(bridge: Seq<char>, action: Seq<char>, image_path: Seq<char>) -> (
    Seq<char>,
    JsonV,
) {
    (bridge + "/"@ + action, jobj(seq![("image_path"@, jstr(image_path))]))
}

fn image_request(urls: &OnceSlot<String>, action: &str, image_path: &str) -> (r: McpRequest)
    ensures
        (r.url@, r.body@) == bridge_request(
            url_in_force(slot_text(urls@), default_mcp_url()),
            action@,
            image_path@,
        ),
{
    McpRequest {
        url: join3(mcp_url(urls), "/", action),
        body: obj1("image_path", Json::text(image_path)),
    }
}

pub open spec fn native_unsupported() -> Seq<char> {
    "Native HailoRT classification not yet implemented. Use MCP bridge."@
}

/// Classification on the attached device, which is not supported.
pub fn classify_native(image_path: &str) -> (r: Result<McpRequest, String>)
    ensures
        match r {
            Err(e) => e@ == native_unsupported(),
            Ok(_) => false,
        },
{
    Err("Native HailoRT classification not yet implemented. Use MCP bridge.".to_string())
}

/// Where a classification goes: with a Hailo-8 attached to this host, to
/// the device (which refuses it); otherwise to the bridge's `/classify`.
pub fn classify<F: FnOnce(&str) -> bool>(
    slot: &mut OnceSlot<bool>,
    node_exists: F,
    urls: &OnceSlot<String>,
    image_path: &str,
) -> (r: Result<McpRequest, String>)
    requires
        node_exists.requires(("/dev/hailo0",)),
    ensures
        exists|a: bool|
            {
                &&& presence(old(slot)@, final(slot)@, a, node_exists)
                &&& a ==> (r matches Err(e) && e@ == native_unsupported())
                &&& !a ==> (r matches Ok(req) && (req.url@, req.body@) == bridge_request(
                    url_in_force(slot_text(urls@), default_mcp_url()),
                    "classify"@,
                    image_path@,
                ))
            },
{
    if device_present(slot, node_exists) {
        classify_native(image_path)
    } else {
        Ok(image_request(urls, "classify", image_path))
    }
}

/// The detection request, always to the bridge's `/detect`.
pub fn detect_request(urls: &OnceSlot<String>, image_path: &str) -> (r: McpRequest)
    ensures
        (r.url@, r.body@) == bridge_request(
            url_in_force(slot_text(urls@), default_mcp_url()),
            "detect"@,
            image_path@,
        ),
{
    image_request(urls, "detect", image_path)
}

/// The OCR request, always to the bridge's `/ocr`.
pub fn ocr_request(urls: &OnceSlot<String>, image_path: &str) -> (r: McpRequest)
    ensures
        (r.url@, r.body@) == bridge_request(
            url_in_force(slot_text(urls@), default_mcp_url()),
            "ocr"@,
            image_path@,
        ),
{
    image_request(urls, "ocr", image_path)
}

/// The error given when the bridge cannot be reached.
pub fn request_failed(cause: &str) -> (r: String)
    ensures
        r@ == "MCP request failed: "@ + cause@,
{
    join2("MCP request failed: ", cause)
}

/// Whether an HTTP status is a success (2xx).
pub open spec fn is_success(status: u16) -> bool {
    200 <= status < 300
}

/// Checks the bridge's HTTP status: a success goes on; any other status is
/// the error `MCP returned {status}`, the status written as an HTTP status
/// displays. (An HTTP status is always a number from 100 to 999.)
pub fn check_status(status: u16) -> (r: Result<(), String>)
    requires
        100 <= status <= 999,
    ensures
        is_success(status) <==> r is Ok,
        r matches Err(e) ==> e@ == "MCP returned "@ + status_display(status),
{
    if 200 <= status && status < 300 {
        Ok(())
    } else {
        let text = status_text(status);
        Err(join2("MCP returned ", text.as_str()))
    }
}

/// The reason phrase that `reqwest::StatusCode`'s `Display` writes after
/// the number of the status `code`: its canonical reason, or
/// `<unknown status code>`.
pub uninterp spec fn status_reason(code: u16) -> Seq<char>;

/// How the HTTP status `code` displays: its number, a space, its reason
/// phrase.
pub open spec fn status_display(code: u16) -> Seq<char> {
    decimal(code as nat) + seq![' '] + status_reason(code)
}

/// `reqwest::StatusCode::from_u16(status)` written out with `to_string()`.
/// Claimed, from `http`'s `impl Display for StatusCode`
/// (`"{} {}"` of the number and `canonical_reason()` or
/// `"<unknown status code>"`): the text is the decimal number, a space and
/// a phrase that depends on the number alone. The phrase itself (the table
/// of canonical reasons) is left unsaid. `from_u16` accepts exactly
/// 100..=999, which `requires` asks.
#[verifier::external_body]
fn status_text(status: u16) -> (r: String)
    requires
        100 <= status <= 999,
    ensures
        r@ == decimal(status as nat) + seq![' '] + status_reason(status),
{
    match reqwest::StatusCode::from_u16(status) {
        Ok(code) => code.to_string(),
        Err(_) => String::new(),
    }
}

// ── Answers of the bridge ────────────────────────────────────────────────

/// The list a bridge answer carries under `primary`, or under `"result"`
/// when there is no `primary` entry; empty when that is not an array.
pub open spec fn answer_list(body: JsonV, primary: Seq<char>) -> Seq<JsonV> {
    let picked = match body.field(primary) {
        Some(v) => Some(v),
        None => body.field("result"@),
    };
    match picked {
        Some(v) => match v.as_array() {
            Some(items) => items,
            None => Seq::empty(),
        },
        None => Seq::empty(),
    }
}

fn answer_items<'a>(body: &'a Json, primary: &str) -> (r: Option<&'a Vec<Json>>)
    ensures
        match r {
            Some(items) => views(items@) == answer_list(body@, primary@),
            None => answer_list(body@, primary@) == Seq::<JsonV>::empty(),
        },
{
    let picked = match body.get(primary) {
        Some(v) => Some(v),
        None => body.get("result"),
    };
    match picked {
        Some(v) => v.as_array(),
        None => None,
    }
}

/// A class and its confidence. The confidence is the JSON number the bridge
/// sent; it stands for the `f32` the number converts to.
#[derive(Debug, PartialEq)]
pub struct ClassPrediction {
    pub label: String,
    pub confidence: JsonNumber,
}

/// A prediction read from one entry: its string `label` and numeric
/// `confidence`; none when either is missing or of another kind.
pub open spec fn prediction_of(p: JsonV) -> Option<(Seq<char>, JsonNumber)> {
    match (p.at_key("label"@).as_str(), p.at_key("confidence"@).as_number()) {
        (Some(label), Some(confidence)) => Some((label, confidence)),
        _ => None,
    }
}

pub open spec fn predictions_of(items: Seq<JsonV>) -> Seq<(Seq<char>, JsonNumber)>
    decreases items.len(),
{
    if items.len() == 0 {
        Seq::empty()
    } else {
        match prediction_of(items.last()) {
            Some(p) => predictions_of(items.drop_last()).push(p),
            None => predictions_of(items.drop_last()),
        }
    }
}

/// The predictions of a `/classify` answer, in order, skipping malformed
/// entries.
pub fn parse_predictions(body: &Json) -> (r: Vec<ClassPrediction>)
    ensures
        r@.len() == predictions_of(answer_list(body@, "predictions"@)).len(),
        forall|i: int|
            0 <= i < r@.len() ==> (r@[i].label@, r@[i].confidence) == predictions_of(
                answer_list(body@, "predictions"@),
            )[i],
{
    let mut out: Vec<ClassPrediction> = Vec::new();
    let items = match answer_items(body, "predictions") {
        Some(items) => items,
        None => {
            return out;
        },
    };
    let ghost vs = views(items@);
    let mut i: usize = 0;
    while i < items.len()
        invariant
            0 <= i <= items@.len(),
            vs == views(items@),
            out@.len() == predictions_of(vs.take(i as int)).len(),
            forall|k: int|
                0 <= k < out@.len() ==> (out@[k].label@, out@[k].confidence) == predictions_of(
                    vs.take(i as int),
                )[k],
        decreases items@.len() - i,
    {
        assert(vs.take(i + 1).drop_last() =~= vs.take(i as int));
        assert(vs.take(i + 1).last() == items@[i as int]@);
        let entry = Some(&items[i]);
        let label = str_of(field_of(entry, "label"));
        let confidence = number_of(field_of(entry, "confidence"));
        match (label, confidence) {
            (Some(l), Some(c)) => {
                out.push(ClassPrediction { label: l.to_string(), confidence: c });
            },
            _ => {},
        }
        i += 1;
    }
    assert(vs.take(items@.len() as int) =~= vs);
    out
}

/// An object found in an image, with its confidence and box. The numbers
/// are the JSON numbers the bridge sent; they stand for the `f32`s they
/// convert to.
#[derive(Debug, PartialEq)]
pub struct Detection {
    pub label: String,
    pub confidence: JsonNumber,
    pub x: JsonNumber,
    pub y: JsonNumber,
    pub width: JsonNumber,
    pub height: JsonNumber,
}

pub struct DetectionV {
    pub label: Seq<char>,
    pub confidence: JsonNumber,
    pub x: JsonNumber,
    pub y: JsonNumber,
    pub width: JsonNumber,
    pub height: JsonNumber,
}

impl View for Detection {
    type V = DetectionV;

    open spec fn view(&self) -> DetectionV {
        DetectionV {
            label: self.label@,
            confidence: self.confidence,
            x: self.x,
            y: self.y,
            width: self.width,
            height: self.height,
        }
    }
}

/// A detection read from one entry: a string `label` and numeric
/// `confidence`, `x`, `y`, `width`, `height`; none when any is missing or
/// of another kind.
pub open spec fn detection_of(d: JsonV) -> Option<DetectionV> {
    let label = d.at_key("label"@).as_str();
    let confidence = d.at_key("confidence"@).as_number();
    let x = d.at_key("x"@).as_number();
    let y = d.at_key("y"@).as_number();
    let width = d.at_key("width"@).as_number();
    let height = d.at_key("height"@).as_number();
    if label is Some && confidence is Some && x is Some && y is Some && width is Some
        && height is Some {
        Some(
            DetectionV {
                label: label->0,
                confidence: confidence->0,
                x: x->0,
                y: y->0,
                width: width->0,
                height: height->0,
            },
        )
    } else {
        None
    }
}

pub open spec fn detections_of(items: Seq<JsonV>) -> Seq<DetectionV>
    decreases items.len(),
{
    if items.len() == 0 {
        Seq::empty()
    } else {
        match detection_of(items.last()) {
            Some(d) => detections_of(items.drop_last()).push(d),
            None => detections_of(items.drop_last()),
        }
    }
}

fn read_detection(entry: &Json) -> (r: Option<Detection>)
    ensures
        match r {
            Some(d) => detection_of(entry@) == Some(d@),
            None => detection_of(entry@) is None,
        },
{
    let e = Some(entry);
    let label = str_of(field_of(e, "label"));
    let confidence = number_of(field_of(e, "confidence"));
    let x = number_of(field_of(e, "x"));
    let y = number_of(field_of(e, "y"));
    let width = number_of(field_of(e, "width"));
    let height = number_of(field_of(e, "height"));
    match (label, confidence, x, y, width, height) {
        (Some(l), Some(c), Some(x), Some(y), Some(w), Some(h)) => Some(
            Detection { label: l.to_string(), confidence: c, x, y, width: w, height: h },
        ),
        _ => None,
    }
}

/// The detections of a `/detect` answer, in order, skipping malformed
/// entries.
pub fn parse_detections(body: &Json) -> (r: Vec<Detection>)
    ensures
        r@.len() == detections_of(answer_list(body@, "detections"@)).len(),
        forall|i: int|
            0 <= i < r@.len() ==> r@[i]@ == detections_of(answer_list(body@, "detections"@))[i],
{
    let mut out: Vec<Detection> = Vec::new();
    let items = match answer_items(body, "detections") {
        Some(items) => items,
        None => {
            return out;
        },
    };
    let ghost vs = views(items@);
    let mut i: usize = 0;
    while i < items.len()
        invariant
            0 <= i <= items@.len(),
            vs == views(items@),
            out@.len() == detections_of(vs.take(i as int)).len(),
            forall|k: int| 0 <= k < out@.len() ==> out@[k]@ == detections_of(vs.take(i as int))[k],
        decreases items@.len() - i,
    {
        assert(vs.take(i + 1).drop_last() =~= vs.take(i as int));
        assert(vs.take(i + 1).last() == items@[i as int]@);
        match read_detection(&items[i]) {
            Some(d) => {
                out.push(d);
            },
            None => {},
        }
        i += 1;
    }
    assert(vs.take(items@.len() as int) =~= vs);
    out
}

/// The text of an `/ocr` answer: `text`, or `result` when there is no
/// `text` entry, if it is a string.
pub open spec fn ocr_text_of(body: JsonV) -> Option<Seq<char>> {
    let picked = match body.field("text"@) {
        Some(v) => Some(v),
        None => body.field("result"@),
    };
    match picked {
        Some(v) => v.as_str(),
        None => None,
    }
}

/// Reads an `/ocr` answer.
pub fn ocr_text(body: &Json) -> (r: Result<String, String>)
    ensures
        match ocr_text_of(body@) {
            Some(t) => r matches Ok(s) && s@ == t,
            None => r matches Err(e) && e@ == "No text in response"@,
        },
        body@.field("text"@) matches Some(JsonV::Str(t)) ==> r matches Ok(s) && s@ == t,
        body@.field("text"@) is None ==> (body@.field("result"@) matches Some(JsonV::Str(t))
            ==> r matches Ok(s) && s@ == t),
{
    let picked = match body.get("text") {
        Some(v) => Some(v),
        None => body.get("result"),
    };
    match str_of(picked) {
        Some(s) => Ok(s.to_string()),
        None => Err("No text in response".to_string()),
    }
}

/// Law: a bridge answer's list is its `primary` entry when that is there,
/// and its `result` entry only when it is not.
pub proof fn law_answer_list_prefers_primary(body: JsonV, primary: Seq<char>, items: Seq<JsonV>)
    ensures
        body.field(primary) == Some(JsonV::Array(items)) ==> answer_list(body, primary) == items,
        body.field(primary) is None && body.field("result"@) == Some(JsonV::Array(items))
            ==> answer_list(body, primary) == items,
{
}

/// Law: no entries, no predictions.
pub proof fn law_no_entries_no_predictions()
    ensures
        predictions_of(Seq::<JsonV>::empty()) == Seq::<(Seq<char>, JsonNumber)>::empty(),
{
}

/// Law: an entry with a string `label` and a numeric `confidence` at the end
/// of the list adds exactly one prediction, its label and confidence, at the
/// end; the predictions before it stay as they were. There is no cap on how
/// many are kept.
pub proof fn law_well_formed_entry_adds_one_prediction(
    items: Seq<JsonV>,
    p: JsonV,
    label: Seq<char>,
    confidence: JsonNumber,
)
    requires
        p.field("label"@) == Some(JsonV::Str(label)),
        p.field("confidence"@) == Some(JsonV::Number(confidence)),
    ensures
        predictions_of(items.push(p)) == predictions_of(items).push((label, confidence)),
{
    assert(items.push(p).drop_last() =~= items);
}

/// Law: an entry without a string `label`, or without a numeric
/// `confidence`, adds no prediction.
pub proof fn law_malformed_entry_adds_no_prediction(items: Seq<JsonV>, p: JsonV)
    requires
        p.at_key("label"@).as_str() is None || p.at_key("confidence"@).as_number() is None,
    ensures
        predictions_of(items.push(p)) == predictions_of(items),
{
    assert(items.push(p).drop_last() =~= items);
}

/// Law: there are as many predictions as entries with a string `label` and
/// a numeric `confidence`.
pub proof fn law_one_prediction_per_well_formed_entry(items: Seq<JsonV>)
    ensures
        predictions_of(items).len() == items.filter(
            |p: JsonV| p.at_key("label"@).as_str() is Some && p.at_key("confidence"@).as_number() is Some,
        ).len(),
    decreases items.len(),
{
    reveal(Seq::filter);
    if items.len() > 0 {
        law_one_prediction_per_well_formed_entry(items.drop_last());
    }
}

/// Law: an entry's detection holds the entry's own `label`, `confidence`,
/// `x`, `y`, `width` and `height`, each read from the key of its name; an
/// entry with all six of the right kinds always gives one.
pub proof fn law_detection_reads_each_key(d: JsonV)
    ensures
        detection_of(d) matches Some(v) ==> {
            &&& d.at_key("label"@).as_str() == Some(v.label)
            &&& d.at_key("confidence"@).as_number() == Some(v.confidence)
            &&& d.at_key("x"@).as_number() == Some(v.x)
            &&& d.at_key("y"@).as_number() == Some(v.y)
            &&& d.at_key("width"@).as_number() == Some(v.width)
            &&& d.at_key("height"@).as_number() == Some(v.height)
        },
        (d.at_key("label"@).as_str() is Some && d.at_key("confidence"@).as_number() is Some
            && d.at_key("x"@).as_number() is Some && d.at_key("y"@).as_number() is Some
            && d.at_key("width"@).as_number() is Some && d.at_key("height"@).as_number() is Some)
            ==> detection_of(d) is Some,
{
}

/// Law: a well-formed entry at the end of the list adds exactly one
/// detection, made of that entry's values under their own keys; the
/// detections before it stay as they were.
pub proof fn law_well_formed_entry_adds_one_detection(
    items: Seq<JsonV>,
    d: JsonV,
    v: DetectionV,
)
    requires
        d.field("label"@) == Some(JsonV::Str(v.label)),
        d.field("confidence"@) == Some(JsonV::Number(v.confidence)),
        d.field("x"@) == Some(JsonV::Number(v.x)),
        d.field("y"@) == Some(JsonV::Number(v.y)),
        d.field("width"@) == Some(JsonV::Number(v.width)),
        d.field("height"@) == Some(JsonV::Number(v.height)),
    ensures
        detections_of(items.push(d)) == detections_of(items).push(v),
{
    assert(items.push(d).drop_last() =~= items);
}

/// Law: an entry missing any of the six values, or holding one of another
/// kind, adds no detection.
pub proof fn law_malformed_entry_adds_no_detection(items: Seq<JsonV>, d: JsonV)
    requires
        !(d.at_key("label"@).as_str() is Some && d.at_key("confidence"@).as_number() is Some
            && d.at_key("x"@).as_number() is Some && d.at_key("y"@).as_number() is Some
            && d.at_key("width"@).as_number() is Some && d.at_key("height"@).as_number() is Some),
    ensures
        detections_of(items.push(d)) == detections_of(items),
{
    assert(items.push(d).drop_last() =~= items);
}

/// Law: the text of an `/ocr` answer is its `text` entry, all of it, when
/// that is a string; its `result` entry only when there is no `text` entry.
pub proof fn law_ocr_text_is_whole_entry(body: JsonV, t: Seq<char>)
    ensures
        body.field("text"@) == Some(JsonV::Str(t)) ==> ocr_text_of(body) == Some(t),
        body.field("text"@) is None && body.field("result"@) == Some(JsonV::Str(t))
            ==> ocr_text_of(body) == Some(t),
{
}

// ── Benchmark ────────────────────────────────────────────────────────────

/// The outcome of a benchmark. The rating is in whole TOPS and the
/// throughput in whole frames per second; both stand for the `f32`s of the
/// same value.
#[derive(Debug, PartialEq)]
pub struct HailoBenchmark {
    pub device: String,
    pub tops_rated: u32,
    pub inference_time_ms: u64,
    pub throughput_fps: u32,
}

/// Runs the benchmark: with no device attached to this host it reports the
/// remote bridge, otherwise the device node; the rating is 26 TOPS and no
/// run is timed yet.
pub fn benchmark<F: FnOnce(&str) -> bool>(slot: &mut OnceSlot<bool>, node_exists: F) -> (r: Result<
    HailoBenchmark,
    String,
>)
    requires
        node_exists.requires(("/dev/hailo0",)),
    ensures
        exists|a: bool|
            {
                &&& presence(old(slot)@, final(slot)@, a, node_exists)
                &&& r matches Ok(b) && {
                    &&& b.device@ == if a {
                        "/dev/hailo0"@
                    } else {
                        "MCP bridge (remote)"@
                    }
                    &&& b.tops_rated == 26
                    &&& b.inference_time_ms == 0
                    &&& b.throughput_fps == 0
                }
            },
{
    if !device_present(slot, node_exists) {
        return Ok(
            HailoBenchmark {
                device: "MCP bridge (remote)".to_string(),
                tops_rated: 26,
                inference_time_ms: 0,
                throughput_fps: 0,
            },
        );
    }
    Ok(
        HailoBenchmark {
            device: "/dev/hailo0".to_string(),
            tops_rated: 26,
            inference_time_ms: 0,
            throughput_fps: 0,
        },
    )
}

} // verus!
