use vstd::prelude::*;

verus! {

/// ASCII `S`, where every match of the marker starts.
pub const ASCII_S: u8 = 83;

/// ASCII `=`.
pub const ASCII_EQUALS: u8 = 61;

/// ASCII `0`.
pub const ASCII_ZERO: u8 = 48;

/// ASCII `9`.
pub const ASCII_NINE: u8 = 57;

/// The bytes that follow the initial `S` of `SUNDIALS_VERSION_MAJOR`, in ASCII.
pub open spec fn marker() -> Seq<u8> {
    seq![
        85u8, 78, 68, 73, 65, 76, 83, 95, 86, 69, 82, 83, 73, 79, 78, 95, 77, 65, 74, 79, 82,
    ]
}

pub open spec fn is_digit(c: u8) -> bool {
    ASCII_ZERO <= c && c <= ASCII_NINE
}

/// The number that a run of ASCII digits spells in decimal.
pub open spec fn digits_value(d: Seq<u8>) -> nat
    decreases d.len(),
{
    if d.len() == 0 {
        0
    } else {
        digits_value(d.drop_last()) * 10 + (d.last() - ASCII_ZERO) as nat
    }
}

/// The first offset `k' >= k` at which `b`, read from `p`, stops agreeing with
/// the marker (the byte differs or the input has ended); the marker's length
/// when it agrees all the way.
pub open spec fn first_mismatch(b: Seq<u8>, p: int, k: int) -> int
    decreases 21 - k,
{
    if k >= 21 {
        21
    } else if p + k >= b.len() || b[p + k] != marker()[k] {
        k
    } else {
        first_mismatch(b, p, k + 1)
    }
}

/// Index of the first byte `c` at or after `j`; the length of `b` when none.
pub open spec fn find_byte(b: Seq<u8>, j: int, c: u8) -> int
    decreases b.len() - j,
{
    if j >= b.len() {
        b.len() as int
    } else if b[j] == c {
        j
    } else {
        find_byte(b, j + 1, c)
    }
}

/// Index of the first digit at or after `j`; the length of `b` when none.
pub open spec fn skip_non_digits(b: Seq<u8>, j: int) -> int
    decreases b.len() - j,
{
    if j >= b.len() || is_digit(b[j]) {
        j
    } else {
        skip_non_digits(b, j + 1)
    }
}

/// End (exclusive) of the run of digits that starts at `j`.
pub open spec fn digit_run_end(b: Seq<u8>, j: int) -> int
    decreases b.len() - j,
{
    if j < b.len() && is_digit(b[j]) {
        digit_run_end(b, j + 1)
    } else {
        j
    }
}

/// What follows a full marker at `j`: the next `=`, any non-digits, then the
/// digits, read as a `u32`.
pub open spec fn value_after_marker(b: Seq<u8>, j: int) -> Option<u32> {
    let q = find_byte(b, j, ASCII_EQUALS);
    if q >= b.len() {
        None
    } else {
        let d = skip_non_digits(b, q + 1);
        let e = digit_run_end(b, d);
        if e == d || digits_value(b.subrange(d, e)) > u32::MAX {
            None
        } else {
            Some(digits_value(b.subrange(d, e)) as u32)
        }
    }
}

/// The scan from position `i`: find an `S`, try to match the rest of the
/// marker, and on a mismatch start again after the byte that differed.
pub open spec fn sniff_from(b: Seq<u8>, i: int) -> Option<u32>
    decreases b.len() - i
    via sniff_from_decreases
{
    if i < 0 || i >= b.len() {
        None
    } else if b[i] != ASCII_S {
        sniff_from(b, i + 1)
    } else {
        let k = first_mismatch(b, i + 1, 0);
        if k >= 21 {
            value_after_marker(b, i + 22)
        } else if i + 1 + k >= b.len() {
            None
        } else {
            sniff_from(b, i + 2 + k)
        }
    }
}

proof fn lemma_first_mismatch_bounds(b: Seq<u8>, p: int, k: int)
    requires
        0 <= k <= 21,
    ensures
        k <= first_mismatch(b, p, k) <= 21,
    decreases 21 - k,
{
    if k < 21 && !(p + k >= b.len() || b[p + k] != marker()[k]) {
        lemma_first_mismatch_bounds(b, p, k + 1);
    }
}

#[via_fn]
proof fn sniff_from_decreases(b: Seq<u8>, i: int) {
    lemma_first_mismatch_bounds(b, i + 1, 0);
}

/// The major version recorded in generated bindings, if it can be read.
pub open spec fn sniff_version(b: Seq<u8>) -> Option<u32> {
    sniff_from(b, 0)
}

proof fn lemma_digits_value_monotone(s: Seq<u8>, n: int, m: int)
    requires
        0 <= n <= m <= s.len(),
    ensures
        digits_value(s.subrange(0, n)) <= digits_value(s.subrange(0, m)),
    decreases m - n,
{
    if n < m {
        lemma_digits_value_monotone(s, n, m - 1);
        assert(s.subrange(0, m).drop_last() =~= s.subrange(0, m - 1));
    }
}

fn marker_bytes() -> (r: Vec<u8>)
    ensures
        r@ == marker(),
{
    let r = vec![
        85u8, 78, 68, 73, 65, 76, 83, 95, 86, 69, 82, 83, 73, 79, 78, 95, 77, 65, 74, 79, 82,
    ];
    assert(r@ =~= marker());
    r
}

fn value_after(b: &[u8], j: usize) -> (r: Option<u32>)
    requires
        j <= b@.len(),
    ensures
        r == value_after_marker(b@, j as int),
{
    let n = b.len();
    let mut q: usize = j;
    while q < n && b[q] != ASCII_EQUALS
        invariant
            n == b@.len(),
            j <= q <= n,
            find_byte(b@, j as int, ASCII_EQUALS) == find_byte(b@, q as int, ASCII_EQUALS),
        decreases n - q,
    {
        q = q + 1;
    }
    if q >= n {
        return None;
    }
    assert(find_byte(b@, j as int, ASCII_EQUALS) == q);
    let mut d: usize = q + 1;
    while d < n && !(ASCII_ZERO <= b[d] && b[d] <= ASCII_NINE)
        invariant
            n == b@.len(),
            q < d <= n,
            skip_non_digits(b@, q + 1) == skip_non_digits(b@, d as int),
        decreases n - d,
    {
        d = d + 1;
    }
    let mut e: usize = d;
    let mut val: u64 = 0;
    while e < n && ASCII_ZERO <= b[e] && b[e] <= ASCII_NINE
        invariant
            n == b@.len(),
            d <= e <= n,
            q < d,
            find_byte(b@, j as int, ASCII_EQUALS) == q,
            skip_non_digits(b@, q + 1) == d,
            digit_run_end(b@, d as int) == digit_run_end(b@, e as int),
            val == digits_value(b@.subrange(d as int, e as int)),
            val <= u32::MAX,
        decreases n - e,
    {
        let next: u64 = val * 10 + (b[e] - ASCII_ZERO) as u64;
        assert(b@.subrange(d as int, e + 1).drop_last() =~= b@.subrange(d as int, e as int));
        if next > u32::MAX as u64 {
            proof {
                let end = digit_run_end(b@, d as int);
                let run = b@.subrange(d as int, end);
                assert(digit_run_end(b@, e as int) == digit_run_end(b@, e + 1));
                lemma_run_end_bound(b@, e + 1);
                lemma_digits_value_monotone(run, e + 1 - d, end - d);
                assert(run.subrange(0, e + 1 - d) =~= b@.subrange(d as int, e + 1));
                assert(run.subrange(0, end - d) =~= run);
                assert(digits_value(b@.subrange(d as int, e + 1)) == next);
            }
            return None;
        }
        val = next;
        e = e + 1;
    }
    if e == d {
        None
    } else {
        Some(val as u32)
    }
}

proof fn lemma_run_end_bound(b: Seq<u8>, j: int)
    requires
        j <= b.len(),
    ensures
        j <= digit_run_end(b, j) <= b.len(),
    decreases b.len() - j,
{
    if j < b.len() && is_digit(b[j]) {
        lemma_run_end_bound(b, j + 1);
    }
}

/// Reads the major version out of generated bindings: the digits after the
/// `=` that follows the first `SUNDIALS_VERSION_MAJOR` the scan meets.
pub fn sniff_version_major(b: &[u8]) -> (r: Option<u32>)
    ensures
        r == sniff_version(b@),
{
    let m = marker_bytes();
    let n = b.len();
    let mut i: usize = 0;
    while i < n
        invariant
            n == b@.len(),
            m@ == marker(),
            i <= n,
            sniff_from(b@, i as int) == sniff_version(b@),
        decreases n - i,
    {
        if b[i] != ASCII_S {
            i = i + 1;
        } else {
            let mut k: usize = 0;
            while k < 21 && k < n - 1 - i && b[i + 1 + k] == m[k]
                invariant
                    n == b@.len(),
                    m@ == marker(),
                    i < n,
                    k <= 21,
                    i + 1 + k <= n,
                    first_mismatch(b@, i + 1, 0) == first_mismatch(b@, i + 1, k as int),
                decreases 21 - k,
            {
                k = k + 1;
            }
            if k == 21 {
                return value_after(b, i + 22);
            }
            if k >= n - 1 - i {
                return None;
            }
            i = i + 2 + k;
        }
    }
    None
}

/// The whole name `SUNDIALS_VERSION_MAJOR`, in ASCII.
pub open spec fn version_marker() -> Seq<u8> {
    seq![ASCII_S] + marker()
}

/// Whether the full name occurs somewhere in `b`.
pub open spec fn contains_version_marker(b: Seq<u8>) -> bool {
    exists|i: int| 0 <= i && i + 22 <= b.len() && #[trigger] b.subrange(i, i + 22) == version_marker()
}

/// Every `S` in `p` starts a false start that `p` itself already refutes:
/// the marker's spelling breaks off before `p` ends.
pub open spec fn false_starts_only(p: Seq<u8>) -> bool {
    forall|i: int|
        0 <= i < p.len() && #[trigger] p[i] == ASCII_S ==> first_mismatch(p, i + 1, 0) < 21 && i + 1
            + first_mismatch(p, i + 1, 0) < p.len()
}

proof fn lemma_mismatch_in_prefix(p: Seq<u8>, t: Seq<u8>, q: int, k: int)
    requires
        0 <= q,
        0 <= k,
        first_mismatch(p, q, k) < 21,
        q + first_mismatch(p, q, k) < p.len(),
    ensures
        first_mismatch(p + t, q, k) == first_mismatch(p, q, k),
    decreases 21 - k,
{
    if k < 21 && q + k < p.len() && p[q + k] == marker()[k] {
        lemma_mismatch_in_prefix(p, t, q, k + 1);
    }
}

proof fn lemma_full_match(b: Seq<u8>, q: int, k: int)
    requires
        0 <= q,
        0 <= k <= 21,
        q + 21 <= b.len(),
        b.subrange(q, q + 21) == marker(),
    ensures
        first_mismatch(b, q, k) == 21,
    decreases 21 - k,
{
    if k < 21 {
        assert(b[q + k] == b.subrange(q, q + 21)[k]);
        lemma_full_match(b, q, k + 1);
    }
}

proof fn lemma_full_mismatch_means_match(b: Seq<u8>, q: int, k: int)
    requires
        0 <= q,
        0 <= k <= 21,
        first_mismatch(b, q, k) == 21,
    ensures
        forall|m: int| k <= m < 21 ==> q + m < b.len() && b[q + m] == marker()[m],
    decreases 21 - k,
{
    if k < 21 {
        lemma_full_mismatch_means_match(b, q, k + 1);
    }
}

proof fn lemma_skip_false_starts(p: Seq<u8>, t: Seq<u8>, i: int)
    requires
        false_starts_only(p),
        0 <= i <= p.len(),
    ensures
        sniff_from(p + t, i) == sniff_from(p + t, p.len() as int),
    decreases p.len() - i,
{
    let b = p + t;
    if i < p.len() {
        assert(b[i] == p[i]);
        if p[i] != ASCII_S {
            lemma_skip_false_starts(p, t, i + 1);
        } else {
            lemma_first_mismatch_bounds(p, i + 1, 0);
            lemma_mismatch_in_prefix(p, t, i + 1, 0);
            lemma_skip_false_starts(p, t, i + 2 + first_mismatch(p, i + 1, 0));
        }
    }
}

proof fn lemma_find_byte_at(b: Seq<u8>, j: int, c: u8, q: int)
    requires
        j <= q < b.len(),
        b[q] == c,
        forall|m: int| j <= m < q ==> b[m] != c,
    ensures
        find_byte(b, j, c) == q,
    decreases q - j,
{
    if j < q {
        lemma_find_byte_at(b, j + 1, c, q);
    }
}

proof fn lemma_skip_to(b: Seq<u8>, j: int, q: int)
    requires
        j <= q <= b.len(),
        forall|m: int| j <= m < q ==> !is_digit(b[m]),
        q == b.len() || is_digit(b[q]),
    ensures
        skip_non_digits(b, j) == q,
    decreases q - j,
{
    if j < q {
        lemma_skip_to(b, j + 1, q);
    }
}

proof fn lemma_run_to(b: Seq<u8>, j: int, q: int)
    requires
        j <= q <= b.len(),
        forall|m: int| j <= m < q ==> is_digit(b[m]),
        q == b.len() || !is_digit(b[q]),
    ensures
        digit_run_end(b, j) == q,
    decreases q - j,
{
    if j < q {
        lemma_run_to(b, j + 1, q);
    }
}

proof fn lemma_marker_at(pre: Seq<u8>, rest: Seq<u8>)
    requires
        false_starts_only(pre),
    ensures
        sniff_version(pre + version_marker() + rest) == value_after_marker(
            pre + version_marker() + rest,
            pre.len() + 22int,
        ),
{
    let b = pre + version_marker() + rest;
    let i = pre.len() as int;
    assert(b =~= pre + (version_marker() + rest));
    lemma_skip_false_starts(pre, version_marker() + rest, 0);
    assert(b[i] == ASCII_S);
    assert(b.subrange(i + 1, i + 22) =~= marker());
    lemma_full_match(b, i + 1, 0);
}

/// Wherever the assignment `SUNDIALS_VERSION_MAJOR <gap> = <pad> <digits>`
/// stands, after any false starts that break off on their own, the scan
/// reads exactly those digits, whatever the gap (without `=`) and the padding
/// (without digits) hold.
pub proof fn lemma_sniff_reads_assignment(
    pre: Seq<u8>,
    gap: Seq<u8>,
    pad: Seq<u8>,
    digits: Seq<u8>,
    post: Seq<u8>,
)
    requires
        false_starts_only(pre),
        forall|m: int| 0 <= m < gap.len() ==> gap[m] != ASCII_EQUALS,
        forall|m: int| 0 <= m < pad.len() ==> !is_digit(pad[m]),
        digits.len() > 0,
        forall|m: int| 0 <= m < digits.len() ==> is_digit(digits[m]),
        post.len() == 0 || !is_digit(post[0]),
        digits_value(digits) <= u32::MAX,
    ensures
        sniff_version(pre + version_marker() + gap + seq![ASCII_EQUALS] + pad + digits + post)
            == Some(digits_value(digits) as u32),
{
    let rest = gap + seq![ASCII_EQUALS] + pad + digits + post;
    let b = pre + version_marker() + gap + seq![ASCII_EQUALS] + pad + digits + post;
    assert(b =~= pre + version_marker() + rest);
    lemma_marker_at(pre, rest);
    let j: int = pre.len() + 22int;
    let q: int = j + gap.len();
    let d: int = q + 1 + pad.len();
    let e: int = d + digits.len();
    assert forall|m: int| j <= m < q implies b[m] != ASCII_EQUALS by {
        assert(b[m] == gap[m - j]);
    }
    assert(b[q] == ASCII_EQUALS);
    lemma_find_byte_at(b, j, ASCII_EQUALS, q);
    assert forall|m: int| q + 1 <= m < d implies !is_digit(b[m]) by {
        assert(b[m] == pad[m - q - 1]);
    }
    assert(b[d] == digits[0]);
    lemma_skip_to(b, q + 1, d);
    assert forall|m: int| d <= m < e implies is_digit(b[m]) by {
        assert(b[m] == digits[m - d]);
    }
    if e < b.len() {
        assert(b[e] == post[0]);
    }
    lemma_run_to(b, d, e);
    assert(b.subrange(d, e) =~= digits);
}

/// The bytes between the name and the `=`, and between the `=` and the
/// digits, do not change the version read, as long as the first hold no `=`
/// and the second no digit.
pub proof fn lemma_sniff_ignores_layout(
    pre: Seq<u8>,
    gap1: Seq<u8>,
    pad1: Seq<u8>,
    gap2: Seq<u8>,
    pad2: Seq<u8>,
    digits: Seq<u8>,
    post: Seq<u8>,
)
    requires
        false_starts_only(pre),
        forall|m: int| 0 <= m < gap1.len() ==> gap1[m] != ASCII_EQUALS,
        forall|m: int| 0 <= m < gap2.len() ==> gap2[m] != ASCII_EQUALS,
        forall|m: int| 0 <= m < pad1.len() ==> !is_digit(pad1[m]),
        forall|m: int| 0 <= m < pad2.len() ==> !is_digit(pad2[m]),
        digits.len() > 0,
        forall|m: int| 0 <= m < digits.len() ==> is_digit(digits[m]),
        post.len() == 0 || !is_digit(post[0]),
        digits_value(digits) <= u32::MAX,
    ensures
        sniff_version(pre + version_marker() + gap1 + seq![ASCII_EQUALS] + pad1 + digits + post)
            == sniff_version(pre + version_marker() + gap2 + seq![ASCII_EQUALS] + pad2 + digits + post),
{
    lemma_sniff_reads_assignment(pre, gap1, pad1, digits, post);
    lemma_sniff_reads_assignment(pre, gap2, pad2, digits, post);
}

/// A marker after which no digit ever comes gives no version.
pub proof fn lemma_sniff_marker_without_digits(pre: Seq<u8>, rest: Seq<u8>)
    requires
        false_starts_only(pre),
        forall|m: int| 0 <= m < rest.len() ==> !is_digit(rest[m]),
    ensures
        sniff_version(pre + version_marker() + rest) is None,
{
    let b = pre + version_marker() + rest;
    lemma_marker_at(pre, rest);
    let j: int = pre.len() + 22int;
    let q = find_byte(b, j, ASCII_EQUALS);
    if q < b.len() {
        lemma_find_byte_bounds(b, j, ASCII_EQUALS);
        assert forall|m: int| q + 1 <= m < b.len() implies !is_digit(b[m]) by {
            assert(b[m] == rest[m - j]);
        }
        lemma_skip_to(b, q + 1, b.len() as int);
    }
}

proof fn lemma_find_byte_bounds(b: Seq<u8>, j: int, c: u8)
    requires
        0 <= j,
    ensures
        j <= find_byte(b, j, c) || j > b.len(),
    decreases b.len() - j,
{
    if j < b.len() && b[j] != c {
        lemma_find_byte_bounds(b, j + 1, c);
    }
}

proof fn lemma_none_without_marker(b: Seq<u8>, i: int)
    requires
        !contains_version_marker(b),
        0 <= i,
    ensures
        sniff_from(b, i) is None,
    decreases b.len() - i,
{
    if i < b.len() {
        if b[i] != ASCII_S {
            lemma_none_without_marker(b, i + 1);
        } else {
            let k = first_mismatch(b, i + 1, 0);
            lemma_first_mismatch_bounds(b, i + 1, 0);
            if k >= 21 {
                lemma_full_mismatch_means_match(b, i + 1, 0);
                assert(b.subrange(i, i + 22) =~= version_marker());
            } else if i + 1 + k < b.len() {
                lemma_none_without_marker(b, i + 2 + k);
            }
        }
    }
}

/// Bytes in which the name never occurs give no version.
pub proof fn lemma_sniff_without_marker(b: Seq<u8>)
    requires
        !contains_version_marker(b),
    ensures
        sniff_version(b) is None,
{
    lemma_none_without_marker(b, 0);
}

} // verus!
