//! Fixed-size chunking of a byte buffer, and the per-chunk content digest
//! list used by the upload protocol.

use vstd::prelude::*;
use vstd::arithmetic::div_mod::{
    lemma_div_pos_is_pos, lemma_fundamental_div_mod_converse, lemma_remainder_lower,
    lemma_remainder_upper,
};
use vstd::slice::slice_subrange;

verus! {

/// Number of chunks when `size` bytes are cut into `chunk`-byte windows:
/// the ceiling of `size / chunk`.
pub open spec fn spec_chunk_count(size: nat, chunk: nat) -> nat
    recommends
        chunk > 0,
{
    (((size + chunk - 1) as int) / (chunk as int)) as nat
}

/// Length of chunk `i`: the full window, except that the last chunk holds
/// whatever remains.
pub open spec fn spec_chunk_len(size: nat, chunk: nat, i: nat) -> nat
    recommends
        chunk > 0,
        i < spec_chunk_count(size, chunk),
{
    if size - i * chunk < chunk {
        (size - i * chunk) as nat
    } else {
        chunk
    }
}

/// The bytes of chunk `i` of `data`.
pub open spec fn spec_chunk(data: Seq<u8>, chunk: nat, i: nat) -> Seq<u8>
    recommends
        chunk > 0,
        i < spec_chunk_count(data.len(), chunk),
{
    data.subrange(
        (i * chunk) as int,
        (i * chunk + spec_chunk_len(data.len(), chunk, i)) as int,
    )
}

/// The chunk count is the least number of windows that cover the file:
/// `count * chunk` reaches `size` but overshoots by less than one window.
pub proof fn lemma_chunk_count_bounds(size: nat, chunk: nat)
    requires
        chunk > 0,
    ensures
        spec_chunk_count(size, chunk) * chunk >= size,
        spec_chunk_count(size, chunk) * chunk < size + chunk,
        (size == 0) <==> (spec_chunk_count(size, chunk) == 0),
        spec_chunk_count(size, chunk) <= size,
{
    let n = size as int;
    let c = chunk as int;
    let x = n + c - 1;
    let k = x / c;
    lemma_div_pos_is_pos(x, c);
    lemma_remainder_lower(x, c);
    lemma_remainder_upper(x, c);
    assert(k * c <= x);
    assert(x - c < k * c);
    assert(spec_chunk_count(size, chunk) == k);
    assert(spec_chunk_count(size, chunk) * chunk == k * c);
    if k > n {
        assert(k * c >= (n + 1) * c) by (nonlinear_arith)
            requires
                k >= n + 1,
                c >= 1,
        ;
        assert((n + 1) * c >= n + c) by (nonlinear_arith)
            requires
                n >= 0,
                c >= 1,
        ;
        assert(false);
    }
    if n == 0 && k >= 1 {
        assert(k * c >= c) by (nonlinear_arith)
            requires
                k >= 1,
                c >= 1,
        ;
        assert(false);
    }
    if k == 0 {
        assert(k * c == 0) by (nonlinear_arith)
            requires
                k == 0,
        ;
        assert(n <= 0);
    }
}

/// Every chunk before the last is full; the last holds `size % chunk`
/// bytes, or a full window when `size` is an exact multiple.
pub proof fn lemma_chunk_sizes(size: nat, chunk: nat)
    requires
        chunk > 0,
    ensures
        forall|i: nat|
            i + 1 < spec_chunk_count(size, chunk) ==> spec_chunk_len(size, chunk, i) == chunk,
        spec_chunk_count(size, chunk) > 0 ==> spec_chunk_len(
            size,
            chunk,
            (spec_chunk_count(size, chunk) - 1) as nat,
        ) == (if size % chunk == 0 {
            chunk as int
        } else {
            (size % chunk) as int
        }),
{
    let n = size as int;
    let c = chunk as int;
    let k = spec_chunk_count(size, chunk) as int;
    lemma_chunk_count_bounds(size, chunk);
    assert forall|i: nat| i + 1 < k implies spec_chunk_len(size, chunk, i) == chunk by {
        let ii = i as int;
        assert((ii + 1) * c <= (k - 1) * c) by (nonlinear_arith)
            requires
                ii + 1 <= k - 1,
                c >= 0,
        ;
        assert((k - 1) * c == k * c - c) by (nonlinear_arith);
        assert((ii + 1) * c == ii * c + c) by (nonlinear_arith);
        assert(ii * c + c < n);
    }
    if k > 0 {
        let last = k - 1;
        assert(last * c == k * c - c) by (nonlinear_arith)
            requires
                last == k - 1,
        ;
        assert(last * c < n);
        let tail = n - last * c;
        assert(0 < tail <= c);
        assert(n == last * c + tail);
        if tail == c {
            assert(n == k * c);
            lemma_fundamental_div_mod_converse(n, c, k, 0);
            assert(n % c == 0);
        } else {
            lemma_fundamental_div_mod_converse(n, c, last, tail);
            assert(n % c == tail);
        }
        assert(spec_chunk_len(size, chunk, last as nat) == tail);
    }
}

/// Number of chunks, computed without overflow.
pub fn chunk_count(size: usize, chunk: usize) -> (r: usize)
    requires
        chunk > 0,
    ensures
        r == spec_chunk_count(size as nat, chunk as nat),
{
    if size == 0 {
        proof {
            lemma_chunk_count_bounds(size as nat, chunk as nat);
        }
        0
    } else {
        let q = (size - 1) / chunk;
        proof {
            let n = size as int;
            let c = chunk as int;
            let qq = q as int;
            lemma_remainder_lower(n - 1, c);
            lemma_remainder_upper(n - 1, c);
            assert(qq == (n - 1) / c);
            let r0 = (n - 1) - qq * c;
            assert(0 <= r0 < c);
            assert((qq + 1) * c == qq * c + c) by (nonlinear_arith);
            assert(n + c - 1 == (qq + 1) * c + r0);
            lemma_fundamental_div_mod_converse(n + c - 1, c, qq + 1, r0);
            assert(qq * c <= n - 1);
            assert(qq <= qq * c) by (nonlinear_arith)
                requires
                    qq >= 0,
                    c >= 1,
            ;
        }
        q + 1
    }
}

/// Position facts for chunk `i`, used when slicing.
pub proof fn lemma_chunk_in_range(size: nat, chunk: nat, i: nat)
    requires
        chunk > 0,
        i < spec_chunk_count(size, chunk),
    ensures
        i * chunk < size,
        i * chunk + spec_chunk_len(size, chunk, i) <= size,
{
    let n = size as int;
    let c = chunk as int;
    let k = spec_chunk_count(size, chunk) as int;
    let ii = i as int;
    lemma_chunk_count_bounds(size, chunk);
    assert(ii * c <= (k - 1) * c) by (nonlinear_arith)
        requires
            ii <= k - 1,
            c >= 0,
    ;
    assert((k - 1) * c == k * c - c) by (nonlinear_arith);
    assert(ii * c < n);
}

/// Each chunk of `data` really has the length the chunking arithmetic
/// gives it: together with `lemma_chunk_sizes`, cutting `data` into
/// `chunk`-byte windows yields `ceil(len / chunk)` chunks, all full except
/// the last.
pub proof fn lemma_chunk_len(data: Seq<u8>, chunk: nat, i: nat)
    requires
        chunk > 0,
        i < spec_chunk_count(data.len(), chunk),
    ensures
        spec_chunk(data, chunk, i).len() == spec_chunk_len(data.len(), chunk, i),
{
    lemma_chunk_in_range(data.len(), chunk, i);
}

pub uninterp spec fn md5_hex_of(data: Seq<u8>) -> Seq<char>;

/// Relies on `md5::compute` and the lowercase-hex rendering of its digest:
/// the digest is a function of the input bytes alone, and renders as
/// exactly 32 characters (two per digest byte).
#[verifier::external_body]
pub fn md5_hex(data: &[u8]) -> (r: String)
    ensures
        r@ == md5_hex_of(data@),
        r@.len() == 32,
{
    format!("{:x}", md5::compute(data))
}

/// The ordered digest list of `data` cut into `chunk_size`-byte windows:
/// one lowercase-hex digest per chunk, in chunk order.
pub fn compute_block_list(data: &Vec<u8>, chunk_size: usize) -> (r: Vec<String>)
    requires
        chunk_size > 0,
    ensures
        r@.len() == spec_chunk_count(data@.len(), chunk_size as nat),
        forall|i: int|
            0 <= i < r@.len() ==> r@[i]@ == md5_hex_of(
                spec_chunk(data@, chunk_size as nat, i as nat),
            ),
{
    let len = data.len();
    let count = chunk_count(len, chunk_size);
    let mut r: Vec<String> = Vec::new();
    for i in 0..count
        invariant
            chunk_size > 0,
            len == data@.len(),
            count == spec_chunk_count(len as nat, chunk_size as nat),
            r@.len() == i,
            forall|j: int|
                0 <= j < i ==> r@[j]@ == md5_hex_of(
                    spec_chunk(data@, chunk_size as nat, j as nat),
                ),
    {
        proof {
            lemma_chunk_in_range(len as nat, chunk_size as nat, i as nat);
        }
        let start = i * chunk_size;
        let remain = len - start;
        let clen = if remain < chunk_size {
            remain
        } else {
            chunk_size
        };
        let part = slice_subrange(data.as_slice(), start, start + clen);
        assert(part@ == spec_chunk(data@, chunk_size as nat, i as nat));
        let digest = md5_hex(part);
        r.push(digest);
    }
    r
}

/// The bytes of chunk `i` of `data`, copied out for a slice upload.
pub fn chunk_of(data: &Vec<u8>, chunk_size: usize, i: usize) -> (r: Vec<u8>)
    requires
        chunk_size > 0,
        i < spec_chunk_count(data@.len(), chunk_size as nat),
    ensures
        r@ == spec_chunk(data@, chunk_size as nat, i as nat),
{
    proof {
        lemma_chunk_in_range(data@.len(), chunk_size as nat, i as nat);
    }
    let len = data.len();
    let start = i * chunk_size;
    let remain = len - start;
    let clen = if remain < chunk_size {
        remain
    } else {
        chunk_size
    };
    let part = slice_subrange(data.as_slice(), start, start + clen);
    vstd::slice::slice_to_vec(part)
}

} // verus!
