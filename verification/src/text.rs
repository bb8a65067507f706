//! Text helpers shared by the engines: string comparison, concatenation,
//! byte-bounded prefixes, and counting the non-empty lines of command output.
use vstd::prelude::*;
use vstd::utf8::*;
use vstd::string::StringSliceAdditionalSpecFns;

verus! {

broadcast use vstd::string::group_string_axioms;

/// `a == b` on string slices.
pub fn str_eq(a: &str, b: &str) -> (r: bool)
    ensures
        r == (a@ == b@),
{
    let ab = a.as_bytes();
    let bb = b.as_bytes();
    proof {
        encode_utf8_decode_utf8(a@);
        encode_utf8_decode_utf8(b@);
    }
    if ab.len() != bb.len() {
        return false;
    }
    let mut i: usize = 0;
    while i < ab.len()
        invariant
            0 <= i <= ab@.len(),
            ab@.len() == bb@.len(),
            ab@ == a.spec_bytes(),
            bb@ == b.spec_bytes(),
            forall|j: int| 0 <= j < i ==> ab@[j] == bb@[j],
        decreases ab@.len() - i,
    {
        if ab[i] != bb[i] {
            return false;
        }
        i += 1;
    }
    assert(ab@ =~= bb@);
    true
}

/// The concatenation `a + b` as a new string.
pub fn join2(a: &str, b: &str) -> (r: String)
    ensures
        r@ == a@ + b@,
{
    let mut s = a.to_string();
    s.append(b);
    s
}

/// The concatenation `a + b + c` as a new string.
pub fn join3(a: &str, b: &str, c: &str) -> (r: String)
    ensures
        r@ == a@ + b@ + c@,
{
    let mut s = a.to_string();
    s.append(b);
    s.append(c);
    s
}

/// Where `&s[..s.len().min(limit)]` cuts the bytes of `s`.
pub open spec fn cut_point(bytes: Seq<u8>, limit: usize) -> int {
    if (bytes.len() as usize) <= limit {
        (bytes.len() as usize) as int
    } else {
        limit as int
    }
}

/// The number of bytes that `&s[..s.len().min(limit)]` keeps.
pub open spec fn prefix_len(s: &str, limit: usize) -> int {
    cut_point(s.spec_bytes(), limit)
}

/// Whether `&t[..t.len().min(limit)]` cuts the text `t` at a character
/// boundary (slicing panics otherwise).
pub open spec fn cut_ok(t: Seq<char>, limit: usize) -> bool {
    is_char_boundary(encode_utf8(t), cut_point(encode_utf8(t), limit))
}

/// The text `&t[..t.len().min(limit)]`: the characters in its first
/// `limit` bytes.
pub open spec fn truncated(t: Seq<char>, limit: usize) -> Seq<char> {
    decode_utf8(encode_utf8(t).subrange(0, cut_point(encode_utf8(t), limit)))
}

/// `&s[..s.len().min(limit)]`: the first `limit` bytes of `s`, or all of it.
/// Slicing a `str` panics unless the cut falls on a character boundary,
/// so the caller must make sure it does.
pub fn byte_prefix(s: &str, limit: usize) -> (r: &str)
    requires
        is_char_boundary(s.spec_bytes(), prefix_len(s, limit)),
    ensures
        r.spec_bytes() == s.spec_bytes().subrange(0, prefix_len(s, limit)),
        r@ == truncated(s@, limit),
{
    let n = s.len();
    let cut = if n <= limit {
        n
    } else {
        limit
    };
    let (head, _tail) = s.split_at(cut);
    proof {
        encode_utf8_decode_utf8(head@);
    }
    head
}

/// Whether `&s[..s.len().min(limit)]` would cut `s` at a character
/// boundary.
pub fn cut_is_ok(s: &str, limit: usize) -> (r: bool)
    ensures
        r == cut_ok(s@, limit),
{
    let n = s.len();
    let cut = if n <= limit {
        n
    } else {
        limit
    };
    s.is_char_boundary(cut)
}

// ── Lines of command output ─────────────────────────────────────────────
//
// `str::lines` splits text at each `\n`; a piece that ends at a `\n` loses
// one trailing `\r`, and an empty piece after the last `\n` is no line.
// The helpers below count, over raw bytes, the lines that are non-empty.
// `\n` and `\r` are ASCII, so in any UTF-8 decoding of the bytes (lossy or
// not) they stand for themselves and no other byte sequence decodes to
// them; a line is non-empty in the bytes exactly when it is non-empty in
// the decoded text.

/// The bytes after the last `\n` (the piece still open at the end).
pub open spec fn open_piece(s: Seq<u8>) -> Seq<u8>
    decreases s.len(),
{
    if s.len() == 0 {
        Seq::empty()
    } else if s.last() == 10u8 {
        Seq::empty()
    } else {
        open_piece(s.drop_last()).push(s.last())
    }
}

/// Whether a piece that ended at a `\n` is a non-empty line once one
/// trailing `\r` is taken off.
pub open spec fn closed_line_nonempty(piece: Seq<u8>) -> bool {
    piece.len() > 1 || (piece.len() == 1 && piece[0] != 13u8)
}

/// The number of non-empty lines among the pieces that end at a `\n`.
pub open spec fn closed_nonempty_lines(s: Seq<u8>) -> nat
    decreases s.len(),
{
    if s.len() == 0 {
        0
    } else if s.last() == 10u8 {
        closed_nonempty_lines(s.drop_last()) + if closed_line_nonempty(open_piece(s.drop_last())) {
            1nat
        } else {
            0nat
        }
    } else {
        closed_nonempty_lines(s.drop_last())
    }
}

/// `text.lines().filter(|l| !l.is_empty()).count()` for the text `s`.
pub open spec fn nonempty_line_count(s: Seq<u8>) -> nat {
    closed_nonempty_lines(s) + if open_piece(s).len() > 0 {
        1nat
    } else {
        0nat
    }
}

proof fn lemma_nonempty_line_count_bound(s: Seq<u8>)
    ensures
        closed_nonempty_lines(s) + open_piece(s).len() <= s.len(),
    decreases s.len(),
{
    if s.len() > 0 {
        lemma_nonempty_line_count_bound(s.drop_last());
    }
}

/// Counts the non-empty lines of `bytes` read as text.
pub fn count_nonempty_lines(bytes: &[u8]) -> (n: usize)
    ensures
        n == nonempty_line_count(bytes@),
{
    let mut closed: usize = 0;
    let mut open_len: usize = 0;
    let mut last_cr = false;
    let mut i: usize = 0;
    while i < bytes.len()
        invariant
            0 <= i <= bytes@.len(),
            closed == closed_nonempty_lines(bytes@.take(i as int)),
            open_len == open_piece(bytes@.take(i as int)).len(),
            open_len > 0 ==> (last_cr <==> open_piece(bytes@.take(i as int)).last() == 13u8),
            closed + open_len <= i,
        decreases bytes@.len() - i,
    {
        let b = bytes[i];
        let ghost prev = bytes@.take(i as int);
        assert(bytes@.take(i + 1).drop_last() =~= prev);
        assert(bytes@.take(i + 1).last() == b);
        proof {
            lemma_nonempty_line_count_bound(prev);
        }
        if b == 10u8 {
            if open_len > 1 || (open_len == 1 && !last_cr) {
                closed = closed + 1;
            }
            open_len = 0;
            last_cr = false;
        } else {
            open_len = open_len + 1;
            last_cr = b == 13u8;
        }
        i += 1;
    }
    assert(bytes@.take(bytes@.len() as int) =~= bytes@);
    if open_len > 0 {
        closed + 1
    } else {
        closed
    }
}

} // verus!

verus! {

// ── Decimal notation ────────────────────────────────────────────────────

pub open spec fn digit_char(d: int) -> char {
    seq!['0', '1', '2', '3', '4', '5', '6', '7', '8', '9'][d]
}

/// The decimal digits of `n`, as `Display` writes them.
pub open spec fn decimal(n: nat) -> Seq<char>
    decreases n,
{
    if n < 10 {
        seq![digit_char(n as int)]
    } else {
        decimal(n / 10).push(digit_char((n % 10) as int))
    }
}

/// How `Display` writes an `i64`: a minus sign before the digits of a
/// negative number.
pub open spec fn signed_decimal(n: i64) -> Seq<char> {
    if n < 0 {
        seq!['-'] + decimal((-n) as nat)
    } else {
        decimal(n as nat)
    }
}

fn digit_text(d: u64) -> (r: &'static str)
    requires
        d < 10,
    ensures
        r@ == seq![digit_char(d as int)],
{
    proof {
        reveal_strlit("0");
        reveal_strlit("1");
        reveal_strlit("2");
        reveal_strlit("3");
        reveal_strlit("4");
        reveal_strlit("5");
        reveal_strlit("6");
        reveal_strlit("7");
        reveal_strlit("8");
        reveal_strlit("9");
    }
    let r = if d == 0 {
        "0"
    } else if d == 1 {
        "1"
    } else if d == 2 {
        "2"
    } else if d == 3 {
        "3"
    } else if d == 4 {
        "4"
    } else if d == 5 {
        "5"
    } else if d == 6 {
        "6"
    } else if d == 7 {
        "7"
    } else if d == 8 {
        "8"
    } else {
        "9"
    };
    assert(r@ =~= seq![digit_char(d as int)]);
    r
}

/// Appends the decimal digits of `n` to `s`.
pub fn push_decimal(s: &mut String, n: u64)
    ensures
        final(s)@ == old(s)@ + decimal(n as nat),
    decreases n,
{
    if n >= 10 {
        push_decimal(s, n / 10);
    }
    s.append(digit_text(n % 10));
    assert(old(s)@ + decimal(n as nat) =~= final(s)@) by {
        if n >= 10 {
            assert(decimal(n as nat) == decimal((n / 10) as nat).push(digit_char((n % 10) as int)));
        }
    }
}

/// `n.to_string()` for an `i64`.
pub fn i64_to_text(n: i64) -> (r: String)
    ensures
        r@ == signed_decimal(n),
{
    let mut s = String::new();
    if n < 0 {
        proof {
            reveal_strlit("-");
        }
        s.append("-");
        let magnitude: u64 = ((-(n + 1)) as u64) + 1;
        push_decimal(&mut s, magnitude);
        assert(s@ =~= signed_decimal(n));
    } else {
        push_decimal(&mut s, n as u64);
        assert(s@ =~= signed_decimal(n));
    }
    s
}

/// `n.to_string()` for a `u64`.
pub fn u64_to_text(n: u64) -> (r: String)
    ensures
        r@ == decimal(n as nat),
{
    let mut s = String::new();
    push_decimal(&mut s, n);
    assert(s@ =~= decimal(n as nat));
    s
}

} // verus!

verus! {

// ── Trimming ────────────────────────────────────────────────────────────

/// `char::is_whitespace`: the characters with the Unicode `White_Space`
/// property.
pub open spec fn is_whitespace(c: char) -> bool {
    let u = c as u32;
    ||| 9 <= u <= 13
    ||| u == 32
    ||| u == 0x85
    ||| u == 0xA0
    ||| u == 0x1680
    ||| 0x2000 <= u <= 0x200A
    ||| u == 0x2028
    ||| u == 0x2029
    ||| u == 0x202F
    ||| u == 0x205F
    ||| u == 0x3000
}

pub fn char_is_whitespace(c: char) -> (r: bool)
    ensures
        r == is_whitespace(c),
{
    let u = c as u32;
    (9 <= u && u <= 13) || u == 32 || u == 0x85 || u == 0xA0 || u == 0x1680 || (0x2000 <= u && u
        <= 0x200A) || u == 0x2028 || u == 0x2029 || u == 0x202F || u == 0x205F || u == 0x3000
}

/// `t` is `s` with the leading and trailing whitespace taken off: `t` is
/// the part of `s` from `a` to `b`, everything before `a` and from `b` on is
/// whitespace, and `t` neither starts nor ends with whitespace.
pub open spec fn trim_bounds(s: Seq<char>, a: int, b: int) -> bool {
    &&& 0 <= a <= b <= s.len()
    &&& forall|k: int| 0 <= k < a ==> is_whitespace(#[trigger] s[k])
    &&& forall|k: int| b <= k < s.len() ==> is_whitespace(#[trigger] s[k])
    &&& a < b ==> !is_whitespace(s[a]) && !is_whitespace(s[b - 1])
}

pub open spec fn is_trim_of(t: Seq<char>, s: Seq<char>) -> bool {
    exists|a: int, b: int| trim_bounds(s, a, b) && t == s.subrange(a, b)
}

/// `s.trim()`.
pub open spec fn trimmed(s: Seq<char>) -> Seq<char> {
    choose|t: Seq<char>| is_trim_of(t, s)
}

proof fn lemma_trim_unique(s: Seq<char>, t1: Seq<char>, t2: Seq<char>)
    requires
        is_trim_of(t1, s),
        is_trim_of(t2, s),
    ensures
        t1 == t2,
{
    let (a1, b1) = choose|a: int, b: int| trim_bounds(s, a, b) && t1 == s.subrange(a, b);
    let (a2, b2) = choose|a: int, b: int| trim_bounds(s, a, b) && t2 == s.subrange(a, b);
    if a1 < b1 && a2 < b2 {
        assert(!is_whitespace(s[a1]) && !is_whitespace(s[a2]));
        assert(a1 == a2);
        assert(!is_whitespace(s[b1 - 1]) && !is_whitespace(s[b2 - 1]));
        assert(b1 == b2);
    } else if a1 < b1 {
        assert(!is_whitespace(s[a1]));
        assert(a1 < a2 || a1 >= b2);
    } else if a2 < b2 {
        assert(!is_whitespace(s[a2]));
        assert(a2 < a1 || a2 >= b1);
    } else {
        assert(t1 =~= Seq::<char>::empty());
        assert(t2 =~= Seq::<char>::empty());
    }
}

/// `s.trim()` on a string slice.
pub fn trim(s: &str) -> (r: &str)
    ensures
        r@ == trimmed(s@),
{
    let n = s.unicode_len();
    let mut a: usize = 0;
    while a < n && char_is_whitespace(s.get_char(a))
        invariant
            n == s@.len(),
            0 <= a <= n,
            forall|k: int| 0 <= k < a ==> is_whitespace(#[trigger] s@[k]),
        decreases n - a,
    {
        a += 1;
    }
    let mut b: usize = n;
    while b > a && char_is_whitespace(s.get_char(b - 1))
        invariant
            n == s@.len(),
            0 <= a <= b <= n,
            a < n ==> !is_whitespace(s@[a as int]),
            forall|k: int| b <= k < n ==> is_whitespace(#[trigger] s@[k]),
        decreases b - a,
    {
        b -= 1;
    }
    let r = s.substring_char(a, b);
    proof {
        assert(trim_bounds(s@, a as int, b as int));
        assert(is_trim_of(r@, s@));
        lemma_trim_unique(s@, r@, trimmed(s@));
    }
    r
}

// ── Splitting at ", " ───────────────────────────────────────────────────

/// Whether `", "` starts at position `k` of `t`.
pub open spec fn sep_at(t: Seq<char>, k: int) -> bool {
    0 <= k && k + 1 < t.len() && t[k] == ',' && t[k + 1] == ' '
}

/// Whether position `k` holds the only `", "` of `t`.
pub open spec fn only_sep(t: Seq<char>, k: int) -> bool {
    sep_at(t, k) && forall|j: int| #[trigger] sep_at(t, j) ==> j == k
}

/// `t.split(", ")` when it gives exactly two parts: the part before and
/// the part after the one `", "` in `t`. (Two matches of `", "` never
/// overlap, so there are two parts exactly when `", "` occurs once.)
pub open spec fn split_pair(t: Seq<char>) -> Option<(Seq<char>, Seq<char>)> {
    if exists|k: int| #[trigger] only_sep(t, k) {
        let k = choose|k: int| #[trigger] only_sep(t, k);
        Some((t.take(k), t.skip(k + 2)))
    } else {
        None
    }
}

proof fn lemma_two_separators(t: Seq<char>, f: int, k: int)
    requires
        sep_at(t, f),
        sep_at(t, k),
        f != k,
    ensures
        split_pair(t) is None,
{
    assert forall|k0: int| !#[trigger] only_sep(t, k0) by {
        if k0 == f {
            assert(sep_at(t, k));
        } else {
            assert(sep_at(t, f));
        }
    }
}

/// The two parts of `t.split(", ")` when there are exactly two.
pub fn split_comma_pair(t: &str) -> (r: Option<(&str, &str)>)
    ensures
        match r {
            Some((p, q)) => split_pair(t@) == Some((p@, q@)),
            None => split_pair(t@) is None,
        },
{
    let n = t.unicode_len();
    let ghost v = t@;
    let mut found: Option<usize> = None;
    let mut k: usize = 0;
    while k < n && k + 1 < n
        invariant
            n == v.len(),
            v == t@,
            k <= n,
            found matches Some(f) ==> sep_at(v, f as int) && f < k,
            found matches Some(f) ==> forall|j: int| 0 <= j < k && #[trigger] sep_at(v, j) ==> j == f,
            found is None ==> forall|j: int| 0 <= j < k ==> !#[trigger] sep_at(v, j),
        decreases n - k,
    {
        let is_sep = t.get_char(k) == ',' && t.get_char(k + 1) == ' ';
        assert(is_sep == sep_at(v, k as int));
        if is_sep {
            if let Some(f) = found {
                proof {
                    lemma_two_separators(v, f as int, k as int);
                }
                return None;
            }
            found = Some(k);
        }
        k += 1;
    }
    assert(forall|j: int| k <= j ==> !#[trigger] sep_at(v, j));
    match found {
        None => {
            assert(forall|j: int| !#[trigger] sep_at(v, j));
            assert(forall|j: int| !#[trigger] only_sep(v, j));
            None
        },
        Some(f) => {
            assert(forall|j: int| #[trigger] sep_at(v, j) ==> j == f);
            assert(only_sep(v, f as int));
            let p = t.substring_char(0, f);
            let q = t.substring_char(f + 2, n);
            assert(p@ =~= t@.take(f as int));
            assert(q@ =~= t@.skip(f + 2));
            Some((p, q))
        },
    }
}

} // verus!
