//! CUDA GPUs: how many there are, what each one is, and which one has the
//! most free memory.
//!
//! The listings come from `nvidia-smi`, which the caller runs; this module
//! reads them.
use vstd::prelude::*;

use crate::once::OnceSlot;
use vstd::pervasive::unreached;
use crate::text::{count_nonempty_lines, nonempty_line_count, split_comma_pair, split_pair, trim, trimmed};

verus! {

broadcast use vstd::string::group_string_axioms;

/// The number of GPUs a listing shows: its non-empty lines; none when the
/// listing could not be run.
pub open spec fn listed_count(listing: Option<Seq<u8>>) -> nat {
    match listing {
        Some(out) => nonempty_line_count(out),
        None => 0,
    }
}

pub open spec fn bytes_of(listing: Option<Vec<u8>>) -> Option<Seq<u8>> {
    match listing {
        Some(b) => Some(b@),
        None => None,
    }
}

/// What a count query answers: the cached count when there is one;
/// otherwise the count of the listing `list_gpus` produced, then cached.
pub open spec fn counted<F: FnOnce() -> Option<Vec<u8>>>(
    before: Option<usize>,
    after: Option<usize>,
    r: usize,
    list_gpus: F,
) -> bool {
    match before {
        Some(n) => r == n && after == before,
        None => after == Some(r) && exists|out: Option<Vec<u8>>|
            list_gpus.ensures((), out) && r == listed_count(bytes_of(out)),
    }
}

/// The number of CUDA GPUs. The listing (`nvidia-smi --query-gpu=name
/// --format=csv,noheader`, run by `list_gpus`) is read once; the count is
/// kept in `slot` and given from then on.
pub fn device_count<F: FnOnce() -> Option<Vec<u8>>>(slot: &mut OnceSlot<usize>, list_gpus: F) -> (r:
    usize)
    requires
        list_gpus.requires(()),
    ensures
        counted(old(slot)@, final(slot)@, r, list_gpus),
{
    match slot.get() {
        Some(n) => *n,
        None => {
            let out = list_gpus();
            let n = match &out {
                Some(b) => count_nonempty_lines(b.as_slice()),
                None => 0,
            };
            assert(list_gpus.ensures((), out) && n == listed_count(bytes_of(out)));
            let _ = slot.set(n);
            n
        },
    }
}

/// Whether there is a CUDA GPU.
pub fn is_available<F: FnOnce() -> Option<Vec<u8>>>(slot: &mut OnceSlot<usize>, list_gpus: F) -> (r:
    bool)
    requires
        list_gpus.requires(()),
    ensures
        exists|n: usize| counted(old(slot)@, final(slot)@, n, list_gpus) && r == (n > 0),
{
    device_count(slot, list_gpus) > 0
}

/// Law: once counted, the count query gives the same count again, and so
/// the same availability, whatever a new listing would show.
pub proof fn law_count_is_stable<F: FnOnce() -> Option<Vec<u8>>, G: FnOnce() -> Option<Vec<u8>>>(
    s0: Option<usize>,
    s1: Option<usize>,
    r1: usize,
    f: F,
    s2: Option<usize>,
    r2: usize,
    g: G,
)
    requires
        counted(s0, s1, r1, f),
        counted(s1, s2, r2, g),
    ensures
        r2 == r1,
        s2 == s1,
        (r2 > 0) == (r1 > 0),
{
}

// ── Per-GPU details ──────────────────────────────────────────────────────

/// What one GPU's detail query showed: its name, and the text of its total
/// memory in MiB.
#[derive(Debug, PartialEq)]
pub struct GpuReading {
    pub index: usize,
    pub name: String,
    pub memory_field: Option<String>,
}

/// The name and memory text in a detail query's output: the output, trimmed,
/// must be `{name}, {memory}`; otherwise the GPU is `Unknown` with no
/// memory reading.
pub open spec fn reading_of(output: Option<Seq<char>>) -> (Seq<char>, Option<Seq<char>>) {
    match output {
        Some(o) => match split_pair(trimmed(o)) {
            Some((name, memory)) => (name, Some(memory)),
            None => ("Unknown"@, None),
        },
        None => ("Unknown"@, None),
    }
}

pub open spec fn reading_view(r: GpuReading) -> (usize, Seq<char>, Option<Seq<char>>) {
    (
        r.index,
        r.name@,
        match r.memory_field {
            Some(m) => Some(m@),
            None => None,
        },
    )
}

/// Reads GPU `index`'s detail query (`nvidia-smi -i {index}
/// --query-gpu=name,memory.total --format=csv,noheader,nounits`); `None`
/// when the query could not be run.
pub fn gpu_reading(index: usize, output: Option<&str>) -> (r: GpuReading)
    ensures
        reading_view(r) == (
            index,
            reading_of(
                match output {
                    Some(o) => Some(o@),
                    None => None,
                },
            ).0,
            reading_of(
                match output {
                    Some(o) => Some(o@),
                    None => None,
                },
            ).1,
        ),
{
    match output {
        Some(o) => {
            let line = trim(o);
            match split_comma_pair(line) {
                Some((name, memory)) => GpuReading {
                    index,
                    name: name.to_string(),
                    memory_field: Some(memory.to_string()),
                },
                None => GpuReading { index, name: "Unknown".to_string(), memory_field: None },
            }
        },
        None => GpuReading { index, name: "Unknown".to_string(), memory_field: None },
    }
}

pub open spec fn text_of(o: Option<String>) -> Option<Seq<char>> {
    match o {
        Some(s) => Some(s@),
        None => None,
    }
}

/// `r` is GPU `i`'s reading as `query` showed it.
pub open spec fn shown_by<F: Fn(usize) -> Option<String>>(query: F, i: int, r: GpuReading) -> bool {
    exists|out: Option<String>|
        query.ensures((i as usize,), out) && reading_view(r) == (
            i as usize,
            reading_of(text_of(out)).0,
            reading_of(text_of(out)).1,
        )
}

/// `readings` are the details of GPUs `0..count`, each as `query` showed it.
pub open spec fn read_as<F: Fn(usize) -> Option<String>>(
    readings: Seq<GpuReading>,
    count: nat,
    query: F,
) -> bool {
    &&& readings.len() == count
    &&& forall|i: int| 0 <= i < count ==> shown_by(query, i, #[trigger] readings[i])
}

/// Reads the details of GPUs `0..count`, querying each with `query`.
pub fn read_gpus<F: Fn(usize) -> Option<String>>(count: usize, query: F) -> (r: Vec<GpuReading>)
    requires
        forall|i: usize| i < count ==> query.requires((i,)),
    ensures
        read_as(r@, count as nat, query),
{
    let mut devices: Vec<GpuReading> = Vec::new();
    let mut i: usize = 0;
    while i < count
        invariant
            0 <= i <= count,
            devices@.len() == i,
            forall|k: usize| k < count ==> query.requires((k,)),
            forall|k: int| 0 <= k < i ==> shown_by(query, k, #[trigger] devices@[k]),
        decreases count - i,
    {
        let out = query(i);
        let reading = match &out {
            Some(s) => gpu_reading(i, Some(s.as_str())),
            None => gpu_reading(i, None),
        };
        let ghost before = devices@;
        devices.push(reading);
        assert(reading_view(devices@[i as int]) == (
            i,
            reading_of(text_of(out)).0,
            reading_of(text_of(out)).1,
        ));
        assert(shown_by(query, i as int, devices@[i as int]));
        assert(forall|k: int| 0 <= k < i ==> devices@[k] == before[k]);
        i += 1;
    }
    devices
}

/// The details of every GPU, read once: the first call counts the GPUs
/// (through the count cache) and queries each; the readings are kept in
/// `info` and given from then on without running any query.
pub fn gpu_info<'a, L: FnOnce() -> Option<Vec<u8>>, F: Fn(usize) -> Option<String>>(
    info: &'a mut OnceSlot<Vec<GpuReading>>,
    counts: &mut OnceSlot<usize>,
    list_gpus: L,
    query: F,
) -> (r: &'a Vec<GpuReading>)
    requires
        list_gpus.requires(()),
        forall|i: usize| query.requires((i,)),
    ensures
        final(info)@ == Some(*r),
        match old(info)@ {
            Some(v) => *r == v && final(counts)@ == old(counts)@,
            None => exists|n: usize|
                counted(old(counts)@, final(counts)@, n, list_gpus) && read_as(r@, n as nat, query),
        },
{
    if !info.is_set() {
        let n = device_count(counts, list_gpus);
        let readings = read_gpus(n, query);
        let _ = info.set(readings);
    }
    match info.get() {
        Some(v) => v,
        None => {
            assert(false);
            unreached()
        },
    }
}

/// The text of a GPU's free-memory query (`nvidia-smi -i {index}
/// --query-gpu=memory.free --format=csv,noheader,nounits`), trimmed; none
/// when the query could not be run.
pub fn free_memory_field(output: Option<&str>) -> (r: Option<String>)
    ensures
        match output {
            Some(o) => r matches Some(t) && t@ == trimmed(o@),
            None => r is None,
        },
{
    match output {
        Some(o) => Some(trim(o).to_string()),
        None => None,
    }
}

// ── Choosing a GPU ───────────────────────────────────────────────────────

/// A GPU as the choice of a GPU sees it. `free_memory_rank` stands for the
/// GPU's free memory in GB (an `f32`): `None` for NaN, otherwise a number
/// that orders GPUs as their free memory does (equal memory, equal rank).
#[derive(Debug, PartialEq)]
pub struct GpuDevice {
    pub index: usize,
    pub name: String,
    pub free_memory_rank: Option<u32>,
}

/// `a.partial_cmp(b) == Some(Greater)` for the memory sizes the ranks
/// stand for: NaN compares with nothing.
pub open spec fn beats(a: Option<u32>, b: Option<u32>) -> bool {
    match (a, b) {
        (Some(x), Some(y)) => x > y,
        _ => false,
    }
}

/// The position of the GPU with the most free memory, the first one among
/// equals: the best so far gives way only to a GPU with more free memory.
pub open spec fn best_position(devices: Seq<GpuDevice>) -> int
    decreases devices.len(),
{
    if devices.len() <= 1 {
        0
    } else {
        let p = best_position(devices.drop_last());
        if beats(devices.last().free_memory_rank, devices[p].free_memory_rank) {
            devices.len() - 1
        } else {
            p
        }
    }
}

proof fn lemma_best_position_in_range(devices: Seq<GpuDevice>)
    ensures
        devices.len() > 0 ==> 0 <= best_position(devices) < devices.len(),
    decreases devices.len(),
{
    if devices.len() > 1 {
        lemma_best_position_in_range(devices.drop_last());
    }
}

/// The GPU with the most free memory (the first one among equals), by its
/// index; 0 when there is none.
pub fn best_gpu(devices: &Vec<GpuDevice>) -> (r: usize)
    ensures
        devices@.len() == 0 ==> r == 0,
        devices@.len() > 0 ==> r == devices@[best_position(devices@)].index,
{
    if devices.len() == 0 {
        return 0;
    }
    let mut best: usize = 0;
    let mut i: usize = 1;
    while i < devices.len()
        invariant
            1 <= i <= devices@.len(),
            best == best_position(devices@.take(i as int)),
            best < i,
        decreases devices@.len() - i,
    {
        let ghost prefix = devices@.take(i + 1);
        assert(prefix.drop_last() =~= devices@.take(i as int));
        let more = match (devices[i].free_memory_rank, devices[best].free_memory_rank) {
            (Some(x), Some(y)) => x > y,
            _ => false,
        };
        if more {
            best = i;
        }
        i += 1;
    }
    assert(devices@.take(devices@.len() as int) =~= devices@);
    devices[best].index
}

/// Law: when every GPU's free memory is a number, the chosen GPU has the
/// most free memory, and every GPU before it has less.
pub proof fn law_best_gpu_has_most_free_memory(devices: Seq<GpuDevice>)
    requires
        devices.len() > 0,
        forall|i: int| 0 <= i < devices.len() ==> (#[trigger] devices[i]).free_memory_rank is Some,
    ensures
        0 <= best_position(devices) < devices.len(),
        forall|i: int|
            0 <= i < devices.len() ==> (#[trigger] devices[i]).free_memory_rank->0
                <= devices[best_position(devices)].free_memory_rank->0,
        forall|j: int|
            0 <= j < best_position(devices) ==> (#[trigger] devices[j]).free_memory_rank->0
                < devices[best_position(devices)].free_memory_rank->0,
    decreases devices.len(),
{
    lemma_best_position_in_range(devices);
    if devices.len() > 1 {
        let rest = devices.drop_last();
        law_best_gpu_has_most_free_memory(rest);
        assert(forall|i: int| 0 <= i < rest.len() ==> rest[i] == devices[i]);
    }
}

} // verus!
