//! Geometry of a chunked transfer: how a file of a known length is cut into
//! fixed-size pieces, and the facts that make the cut lossless.

use vstd::prelude::*;

verus! {

/// `ceil(file_size / chunk_size)`: the number of pieces of at most
/// `chunk_size` bytes that cover `file_size` bytes.
pub open spec fn chunk_count(file_size: nat, chunk_size: nat) -> nat
    recommends
        chunk_size > 0,
{
    ((file_size + chunk_size - 1) / (chunk_size as int)) as nat
}

/// Byte position at which piece `chunk_id` starts.
pub open spec fn chunk_start(chunk_size: nat, chunk_id: nat) -> nat {
    chunk_id * chunk_size
}

/// Byte length of piece `chunk_id`: a full `chunk_size`, except that the
/// last piece stops at the end of the file. Zero for ids past the end.
pub open spec fn chunk_length(file_size: nat, chunk_size: nat, chunk_id: nat) -> nat {
    let start = chunk_start(chunk_size, chunk_id);
    if start >= file_size {
        0
    } else if file_size - start < chunk_size {
        (file_size - start) as nat
    } else {
        chunk_size
    }
}

/// Sum of the lengths of the first `n` pieces.
pub open spec fn chunk_lengths_sum(file_size: nat, chunk_size: nat, n: nat) -> nat
    decreases n,
{
    if n == 0 {
        0
    } else {
        chunk_lengths_sum(file_size, chunk_size, (n - 1) as nat) + chunk_length(
            file_size,
            chunk_size,
            (n - 1) as nat,
        )
    }
}

/// The bytes of piece `chunk_id` of `file`.
pub open spec fn chunk_bytes(file: Seq<u8>, chunk_size: nat, chunk_id: nat) -> Seq<u8> {
    let start = chunk_start(chunk_size, chunk_id);
    file.subrange(
        start as int,
        (start + chunk_length(file.len(), chunk_size, chunk_id)) as int,
    )
}

/// The first `n` pieces of `file`, one after the other.
pub open spec fn chunks_joined(file: Seq<u8>, chunk_size: nat, n: nat) -> Seq<u8>
    decreases n,
{
    if n == 0 {
        Seq::empty()
    } else {
        chunks_joined(file, chunk_size, (n - 1) as nat) + chunk_bytes(
            file,
            chunk_size,
            (n - 1) as nat,
        )
    }
}

/// The piece count is the least `n` with `n * chunk_size >= file_size`.
pub proof fn lemma_chunk_count_bounds(file_size: nat, chunk_size: nat)
    requires
        chunk_size > 0,
    ensures
        chunk_count(file_size, chunk_size) * chunk_size >= file_size,
        chunk_count(file_size, chunk_size) > 0 ==> (chunk_count(file_size, chunk_size) - 1)
            * chunk_size < file_size,
        chunk_count(file_size, chunk_size) == 0 <==> file_size == 0,
        chunk_count(file_size, chunk_size) <= file_size,
{
    let c = chunk_size as int;
    let a = file_size + chunk_size - 1;
    let n = a / c;
    assert(a == c * n + a % c && 0 <= a % c < c) by {
        vstd::arithmetic::div_mod::lemma_fundamental_div_mod(a, c);
        vstd::arithmetic::div_mod::lemma_mod_bound(a, c);
    }
    assert(c * n == n * c) by (nonlinear_arith);
    assert((n - 1) * c == n * c - c) by (nonlinear_arith);
    assert(n >= 0) by (nonlinear_arith)
        requires
            n * c >= 0 - c + 1,
            c > 0,
    ;
    assert(n <= file_size) by (nonlinear_arith)
        requires
            n * c <= file_size + c - 1,
            c >= 1,
            n >= 0,
            file_size >= 0,
    ;
}

/// A piece that exists is never empty and never longer than `chunk_size`;
/// every piece but the last is full, and the last one ends the file.
pub proof fn lemma_chunk_length_bounds(file_size: nat, chunk_size: nat, chunk_id: nat)
    requires
        chunk_size > 0,
        chunk_id < chunk_count(file_size, chunk_size),
    ensures
        1 <= chunk_length(file_size, chunk_size, chunk_id) <= chunk_size,
        chunk_start(chunk_size, chunk_id) + chunk_length(file_size, chunk_size, chunk_id)
            <= file_size,
        chunk_id + 1 < chunk_count(file_size, chunk_size) ==> chunk_length(
            file_size,
            chunk_size,
            chunk_id,
        ) == chunk_size,
        chunk_id + 1 == chunk_count(file_size, chunk_size) ==> chunk_start(chunk_size, chunk_id)
            + chunk_length(file_size, chunk_size, chunk_id) == file_size,
{
    lemma_chunk_count_bounds(file_size, chunk_size);
    let n = chunk_count(file_size, chunk_size) as int;
    let c = chunk_size as int;
    let i = chunk_id as int;
    assert(i * c <= (n - 1) * c) by (nonlinear_arith)
        requires
            i <= n - 1,
            c > 0,
    ;
    if i + 1 < n {
        assert((i + 1) * c <= (n - 1) * c) by (nonlinear_arith)
            requires
                i + 1 <= n - 1,
                c > 0,
        ;
        assert((i + 1) * c == i * c + c) by (nonlinear_arith);
    } else {
        assert(n * c == i * c + c) by (nonlinear_arith)
            requires
                n == i + 1,
        ;
    }
}

/// The first `n` pieces together hold exactly the bytes before the start
/// of piece `n`.
pub proof fn lemma_chunk_lengths_prefix(file_size: nat, chunk_size: nat, n: nat)
    requires
        chunk_size > 0,
        n <= chunk_count(file_size, chunk_size),
    ensures
        n < chunk_count(file_size, chunk_size) ==> chunk_lengths_sum(file_size, chunk_size, n)
            == chunk_start(chunk_size, n),
        n == chunk_count(file_size, chunk_size) ==> chunk_lengths_sum(file_size, chunk_size, n)
            == file_size,
    decreases n,
{
    if n == 0 {
        lemma_chunk_count_bounds(file_size, chunk_size);
        assert(chunk_start(chunk_size, 0) == 0) by (nonlinear_arith)
            requires
                chunk_start(chunk_size, 0) == 0 * chunk_size,
        ;
    } else {
        let prev = (n - 1) as nat;
        lemma_chunk_lengths_prefix(file_size, chunk_size, prev);
        lemma_chunk_length_bounds(file_size, chunk_size, prev);
        assert(chunk_start(chunk_size, n) == chunk_start(chunk_size, prev) + chunk_size)
            by (nonlinear_arith)
            requires
                n == prev + 1,
                chunk_start(chunk_size, n) == n * chunk_size,
                chunk_start(chunk_size, prev) == prev * chunk_size,
        ;
    }
}

/// For every chunk size `c > 0` and file size `s`, the lengths of the
/// `ceil(s / c)` pieces add up to exactly `s`.
pub proof fn lemma_chunk_lengths_cover_file(file_size: nat, chunk_size: nat)
    requires
        chunk_size > 0,
    ensures
        chunk_lengths_sum(file_size, chunk_size, chunk_count(file_size, chunk_size))
            == file_size,
{
    lemma_chunk_lengths_prefix(file_size, chunk_size, chunk_count(file_size, chunk_size));
}

/// Joining the first `n` pieces of a file gives the file's first bytes,
/// as many as those pieces are long.
pub proof fn lemma_chunks_joined_prefix(file: Seq<u8>, chunk_size: nat, n: nat)
    requires
        chunk_size > 0,
        n <= chunk_count(file.len(), chunk_size),
    ensures
        chunk_lengths_sum(file.len(), chunk_size, n) <= file.len(),
        chunks_joined(file, chunk_size, n) == file.subrange(
            0,
            chunk_lengths_sum(file.len(), chunk_size, n) as int,
        ),
    decreases n,
{
    lemma_chunk_lengths_prefix(file.len(), chunk_size, n);
    if n > 0 {
        let prev = (n - 1) as nat;
        lemma_chunks_joined_prefix(file, chunk_size, prev);
        lemma_chunk_lengths_prefix(file.len(), chunk_size, prev);
        lemma_chunk_length_bounds(file.len(), chunk_size, prev);
        let before = chunk_lengths_sum(file.len(), chunk_size, prev) as int;
        let len = chunk_length(file.len(), chunk_size, prev) as int;
        assert(file.subrange(0, before) + file.subrange(before, before + len) =~= file.subrange(
            0,
            before + len,
        ));
    }
}

/// Cutting a file into pieces and joining them in order of their ids gives
/// the file back: no byte is lost, repeated or moved.
pub proof fn lemma_chunks_rebuild_file(file: Seq<u8>, chunk_size: nat)
    requires
        chunk_size > 0,
    ensures
        chunks_joined(file, chunk_size, chunk_count(file.len(), chunk_size)) == file,
{
    let n = chunk_count(file.len(), chunk_size);
    lemma_chunks_joined_prefix(file, chunk_size, n);
    lemma_chunk_lengths_cover_file(file.len(), chunk_size);
}

/// One piece of a file: its id, where it starts and how long it is.
#[derive(Clone, Copy, Debug, PartialEq, Eq, Structural)]
pub struct ChunkSpan {
    pub chunk_id: u64,
    pub offset: u64,
    pub len: usize,
}

impl ChunkSpan {
    /// Whether this is piece `chunk_id` of a file of `file_size` bytes cut
    /// into pieces of `chunk_size`.
    pub open spec fn is_piece_of(self, file_size: nat, chunk_size: nat) -> bool {
        &&& self.chunk_id < chunk_count(file_size, chunk_size)
        &&& self.offset == chunk_start(chunk_size, self.chunk_id as nat)
        &&& self.len == chunk_length(file_size, chunk_size, self.chunk_id as nat)
    }
}

/// Number of pieces of `chunk_size` bytes in a file of `file_size` bytes.
pub fn total_chunks(file_size: u64, chunk_size: usize) -> (n: u64)
    requires
        chunk_size > 0,
    ensures
        n == chunk_count(file_size as nat, chunk_size as nat),
{
    let c: u64 = chunk_size as u64;
    let whole: u64 = file_size / c;
    let rest: u64 = file_size % c;
    proof {
        let s = file_size as int;
        let d = c as int;
        vstd::arithmetic::div_mod::lemma_fundamental_div_mod(s, d);
        assert(d * whole == whole * d) by (nonlinear_arith);
        if rest == 0 {
            vstd::arithmetic::div_mod::lemma_fundamental_div_mod_converse(
                s + d - 1,
                d,
                whole as int,
                d - 1,
            );
        } else {
            assert((whole + 1) * d == whole * d + d) by (nonlinear_arith);
            vstd::arithmetic::div_mod::lemma_fundamental_div_mod_converse(
                s + d - 1,
                d,
                whole + 1,
                rest - 1,
            );
            assert(whole < u64::MAX) by (nonlinear_arith)
                requires
                    s == d * whole + rest,
                    rest > 0,
                    d >= 1,
                    s <= u64::MAX,
            ;
        }
    }
    if rest == 0 {
        whole
    } else {
        whole + 1
    }
}

/// Where piece `chunk_id` lies in the file.
pub fn chunk_span(file_size: u64, chunk_size: usize, chunk_id: u64) -> (span: ChunkSpan)
    requires
        chunk_size > 0,
        chunk_id < chunk_count(file_size as nat, chunk_size as nat),
    ensures
        span.chunk_id == chunk_id,
        span.is_piece_of(file_size as nat, chunk_size as nat),
{
    proof {
        lemma_chunk_length_bounds(file_size as nat, chunk_size as nat, chunk_id as nat);
    }
    let c: u64 = chunk_size as u64;
    let offset: u64 = chunk_id * c;
    let left: u64 = file_size - offset;
    let len: usize = if left < c {
        left as usize
    } else {
        chunk_size
    };
    ChunkSpan { chunk_id, offset, len }
}

} // verus!
