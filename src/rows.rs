use vstd::prelude::*;
use crate::util::{div_ceil, lemma_div_ceil_parts, usize_div_ceil};

verus! {

/// Bytes that one packed row of `bits_per_row` samples takes.
pub open spec fn row_stride(bits_per_row: nat) -> nat {
    div_ceil(bits_per_row, 8)
}

/// Row `i` of a buffer cut into chunks of `stride` bytes; the last one may be short.
pub open spec fn row_of(bytes: Seq<u8>, stride: nat, i: int) -> Seq<u8> {
    let start = i * stride;
    let end = if (i + 1) * stride <= bytes.len() { (i + 1) * stride } else { bytes.len() as int };
    bytes.subrange(start, end)
}

/// The rows of a buffer, top to bottom, in chunks of `stride` bytes.
pub open spec fn rows_of(bytes: Seq<u8>, stride: nat) -> Seq<Seq<u8>> {
    Seq::new(div_ceil(bytes.len(), stride), |i: int| row_of(bytes, stride, i))
}

/// A buffer of `len` bytes cut into chunks of `stride` bytes gives `ceil(len / stride)`
/// chunks, each of exactly `stride` bytes except the last, which is non-empty and at
/// most `stride` long.
pub proof fn lemma_rows_shape(bytes: Seq<u8>, stride: nat)
    requires
        stride > 0,
    ensures
        rows_of(bytes, stride).len() == div_ceil(bytes.len(), stride),
        forall|i: int|
            0 <= i < rows_of(bytes, stride).len() - 1 ==> #[trigger] rows_of(bytes, stride)[i].len()
                == stride,
        rows_of(bytes, stride).len() > 0 ==> 0 < rows_of(bytes, stride).last().len() <= stride,
{
    let n = div_ceil(bytes.len(), stride);
    assert forall|i: int| 0 <= i < n - 1 implies #[trigger] rows_of(bytes, stride)[i].len()
        == stride by {
        lemma_row_bounds(bytes.len(), stride, i);
        assert((i + 1) * stride == i * stride + stride) by (nonlinear_arith);
    }
    if n > 0 {
        let i = n - 1;
        lemma_row_bounds(bytes.len(), stride, i);
        assert((i + 1) * stride == i * stride + stride) by (nonlinear_arith);
    }
}

/// Row `k` exists exactly when it starts inside the buffer.
proof fn lemma_row_exists(len: nat, stride: nat, k: int)
    requires
        stride > 0,
        k >= 0,
    ensures
        k < div_ceil(len, stride) <==> k * stride < len,
{
    lemma_div_ceil_parts(len, stride);
    let q = len / stride;
    let m = len % stride;
    assert(len == stride * q + m) by (nonlinear_arith)
        requires
            stride > 0,
            q == len / stride,
            m == len % stride,
    ;
    assert(0 <= m < stride);
    if k < q {
        assert(k * stride + stride <= q * stride) by (nonlinear_arith)
            requires
                0 <= k < q,
                stride > 0,
        ;
    } else {
        assert(k * stride >= q * stride) by (nonlinear_arith)
            requires
                k >= q,
                stride > 0,
        ;
        if k > q {
            assert(k * stride >= q * stride + stride) by (nonlinear_arith)
                requires
                    k > q,
                    stride > 0,
            ;
        }
    }
}

/// Where row `i` starts and ends, for every row that exists.
proof fn lemma_row_bounds(len: nat, stride: nat, i: int)
    requires
        stride > 0,
        0 <= i < div_ceil(len, stride),
    ensures
        i * stride < len,
        i + 1 < div_ceil(len, stride) ==> (i + 1) * stride <= len,
{
    lemma_row_exists(len, stride, i);
    lemma_row_exists(len, stride, i + 1);
}

/// Cuts a packed buffer into rows of `ceil(bits_per_row / 8)` bytes, in buffer order;
/// a trailing partial row is kept as it is.
pub fn segment_rows(bits_per_row: usize, bytes: &[u8]) -> (r: Vec<Vec<u8>>)
    requires
        bits_per_row > 0,
    ensures
        r@.len() == rows_of(bytes@, row_stride(bits_per_row as nat)).len(),
        forall|i: int|
            0 <= i < r@.len() ==> #[trigger] r@[i]@ == rows_of(
                bytes@,
                row_stride(bits_per_row as nat),
            )[i],
{
    let stride = usize_div_ceil(bits_per_row, 8);
    let len = bytes.len();
    let ghost n = div_ceil(len as nat, stride as nat);
    proof {
        lemma_div_ceil_parts(bits_per_row as nat, 8);
        lemma_div_ceil_parts(len as nat, stride as nat);
    }
    let mut r: Vec<Vec<u8>> = Vec::new();
    let mut start: usize = 0;
    proof {
        lemma_row_exists(len as nat, stride as nat, 0);
    }
    while start < len
        invariant
            stride > 0,
            stride == row_stride(bits_per_row as nat),
            len == bytes@.len(),
            n == div_ceil(len as nat, stride as nat),
            r@.len() <= n,
            start as int == if r@.len() * stride <= len { r@.len() * stride } else { len as int },
            start < len <==> r@.len() < n,
            forall|i: int| 0 <= i < r@.len() ==> #[trigger] r@[i]@ == row_of(bytes@, stride as nat, i),
        decreases len - start,
    {
        let k = r.len();
        proof {
            lemma_row_bounds(len as nat, stride as nat, k as int);
            assert((k + 1) * stride == k * stride + stride) by (nonlinear_arith);
        }
        let end = if len - start > stride {
            start + stride
        } else {
            len
        };
        let row = vstd::slice::slice_to_vec(vstd::slice::slice_subrange(bytes, start, end));
        r.push(row);
        proof {
            lemma_row_exists(len as nat, stride as nat, k + 1);
        }
        start = end;
    }
    r
}

} // verus!
