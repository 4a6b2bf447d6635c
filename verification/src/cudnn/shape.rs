//! Shapes of four dimensions: how many elements they have, and the order in
//! which the elements of a nested array lie in a flat buffer.

use vstd::prelude::*;

verus! {

/// The number of elements of a shape with the given dimensions.
pub open spec fn volume(n: usize, c: usize, h: usize, w: usize) -> int {
    n * c * h * w
}

/// Computes the number of elements of a shape, or `None` where it does not
/// fit the address type.
pub fn element_count(n: usize, c: usize, h: usize, w: usize) -> (r: Option<usize>)
    ensures
        r == if volume(n, c, h, w) <= usize::MAX {
            Some(volume(n, c, h, w) as usize)
        } else {
            None::<usize>
        },
{
    if n == 0 || c == 0 || h == 0 || w == 0 {
        proof {
            assert(n * c * h * w == 0) by (nonlinear_arith)
                requires
                    n == 0 || c == 0 || h == 0 || w == 0,
            ;
        }
        return Some(0);
    }
    proof {
        assert(n * c <= n * c * h && n * c * h <= n * c * h * w && n * c >= 1 && n * c * h >= 1)
            by (nonlinear_arith)
            requires
                n >= 1,
                c >= 1,
                h >= 1,
                w >= 1,
        ;
    }
    let nc: usize = match n.checked_mul(c) {
        Some(nc) => nc,
        None => {
            return None;
        },
    };
    let nch: usize = match nc.checked_mul(h) {
        Some(nch) => nch,
        None => {
            return None;
        },
    };
    nch.checked_mul(w)
}

/// The rows of a matrix, each as a sequence.
pub open spec fn rows<T, const W: usize>(matrix: Seq<[T; W]>) -> Seq<Seq<T>> {
    matrix.map_values(|row: [T; W]| row@)
}

/// The elements of a matrix, row after row.
pub open spec fn flat2<T, const H: usize, const W: usize>(matrix: [[T; W]; H]) -> Seq<T> {
    rows(matrix@).flatten()
}

/// The matrices of a block, each with its elements row after row.
pub open spec fn planes<T, const H: usize, const W: usize>(block: Seq<[[T; W]; H]>) -> Seq<Seq<T>> {
    block.map_values(|matrix: [[T; W]; H]| flat2(matrix))
}

/// The elements of a block, matrix after matrix.
pub open spec fn flat3<T, const C: usize, const H: usize, const W: usize>(
    block: [[[T; W]; H]; C],
) -> Seq<T> {
    planes(block@).flatten()
}

/// The blocks of a batch, each with its elements matrix after matrix.
pub open spec fn blocks<T, const C: usize, const H: usize, const W: usize>(
    batch: Seq<[[[T; W]; H]; C]>,
) -> Seq<Seq<T>> {
    batch.map_values(|block: [[[T; W]; H]; C]| flat3(block))
}

/// The elements of a batch in the order in which a flat buffer holds them:
/// block after block, within a block matrix after matrix, within a matrix
/// row after row.
pub open spec fn flat4<T, const N: usize, const C: usize, const H: usize, const W: usize>(
    batch: [[[[T; W]; H]; C]; N],
) -> Seq<T> {
    blocks(batch@).flatten()
}

/// Sequences of one length, put end to end, have as many elements as their
/// number times that length.
pub proof fn lemma_flatten_len<A>(parts: Seq<Seq<A>>, each: nat)
    requires
        forall|i: int| 0 <= i < parts.len() ==> (#[trigger] parts[i]).len() == each,
    ensures
        parts.flatten().len() == parts.len() * each,
    decreases parts.len(),
{
    if parts.len() == 0 {
        assert(parts.flatten() =~= Seq::<A>::empty());
    } else {
        let front = parts.drop_last();
        lemma_flatten_len(front, each);
        front.lemma_flatten_push(parts.last());
        assert(front.push(parts.last()) =~= parts);
        assert(parts.len() * each == front.len() * each + each) by (nonlinear_arith)
            requires
                parts.len() == front.len() + 1,
        ;
    }
}

/// A matrix of `H` rows of `W` elements has `H * W` elements.
pub proof fn lemma_flat2_len<T, const H: usize, const W: usize>(matrix: [[T; W]; H])
    ensures
        flat2(matrix).len() == H * W,
{
    assert forall|i: int| 0 <= i < rows(matrix@).len() implies (#[trigger] rows(matrix@)[i]).len()
        == W by {
        assert(rows(matrix@)[i] == matrix@[i]@);
    }
    lemma_flatten_len(rows(matrix@), W as nat);
}

/// A block of `C` matrices has `C * H * W` elements.
pub proof fn lemma_flat3_len<T, const C: usize, const H: usize, const W: usize>(
    block: [[[T; W]; H]; C],
)
    ensures
        flat3(block).len() == C * H * W,
{
    assert forall|i: int| 0 <= i < planes(block@).len() implies (#[trigger] planes(block@)[i]).len()
        == H * W by {
        lemma_flat2_len(block@[i]);
    }
    lemma_flatten_len(planes(block@), (H * W) as nat);
    assert(C * (H * W) == C * H * W) by (nonlinear_arith);
}

/// A batch of `N` blocks has `N * C * H * W` elements.
pub proof fn lemma_flat4_len<T, const N: usize, const C: usize, const H: usize, const W: usize>(
    batch: [[[[T; W]; H]; C]; N],
)
    ensures
        flat4(batch).len() == volume(N, C, H, W),
{
    assert forall|i: int| 0 <= i < blocks(batch@).len() implies (#[trigger] blocks(batch@)[i]).len()
        == C * H * W by {
        lemma_flat3_len(batch@[i]);
    }
    lemma_flatten_len(blocks(batch@), (C * H * W) as nat);
    assert(N * (C * H * W) == N * C * H * W) by (nonlinear_arith);
}

/// Appends the elements of one row.
fn extend_row<T: Copy, const W: usize>(out: &mut Vec<T>, row: &[T; W])
    ensures
        final(out)@ == old(out)@ + row@,
{
    let mut i: usize = 0;
    while i < W
        invariant
            i <= W,
            out@ == old(out)@ + row@.take(i as int),
        decreases W - i,
    {
        out.push(row[i]);
        proof {
            assert(row@.take(i + 1) =~= row@.take(i as int).push(row@[i as int]));
            assert(out@ =~= old(out)@ + row@.take(i + 1));
        }
        i += 1;
    }
    proof {
        assert(row@.take(W as int) =~= row@);
    }
}

/// Appends the elements of one matrix, row after row.
fn extend_matrix<T: Copy, const H: usize, const W: usize>(out: &mut Vec<T>, matrix: &[[T; W]; H])
    ensures
        final(out)@ == old(out)@ + flat2(*matrix),
{
    let mut i: usize = 0;
    proof {
        assert(rows(matrix@.take(0)).flatten() =~= Seq::<T>::empty());
        assert(out@ =~= old(out)@ + rows(matrix@.take(0)).flatten());
    }
    while i < H
        invariant
            i <= H,
            out@ == old(out)@ + rows(matrix@.take(i as int)).flatten(),
        decreases H - i,
    {
        extend_row(out, &matrix[i]);
        proof {
            let done = rows(matrix@.take(i as int));
            assert(rows(matrix@.take(i + 1)) =~= done.push(matrix@[i as int]@));
            done.lemma_flatten_push(matrix@[i as int]@);
            assert(out@ =~= old(out)@ + rows(matrix@.take(i + 1)).flatten());
        }
        i += 1;
    }
    proof {
        assert(matrix@.take(H as int) =~= matrix@);
    }
}

/// Appends the elements of one block, matrix after matrix.
fn extend_block<T: Copy, const C: usize, const H: usize, const W: usize>(
    out: &mut Vec<T>,
    block: &[[[T; W]; H]; C],
)
    ensures
        final(out)@ == old(out)@ + flat3(*block),
{
    let mut i: usize = 0;
    proof {
        assert(planes(block@.take(0)).flatten() =~= Seq::<T>::empty());
        assert(out@ =~= old(out)@ + planes(block@.take(0)).flatten());
    }
    while i < C
        invariant
            i <= C,
            out@ == old(out)@ + planes(block@.take(i as int)).flatten(),
        decreases C - i,
    {
        extend_matrix(out, &block[i]);
        proof {
            let done = planes(block@.take(i as int));
            assert(planes(block@.take(i + 1)) =~= done.push(flat2(block@[i as int])));
            done.lemma_flatten_push(flat2(block@[i as int]));
            assert(out@ =~= old(out)@ + planes(block@.take(i + 1)).flatten());
        }
        i += 1;
    }
    proof {
        assert(block@.take(C as int) =~= block@);
    }
}

/// Lays the elements of a batch out in a flat buffer: block after block,
/// within a block matrix after matrix, within a matrix row after row.
pub fn flatten<T: Copy, const N: usize, const C: usize, const H: usize, const W: usize>(
    batch: &[[[[T; W]; H]; C]; N],
) -> (flat: Vec<T>)
    ensures
        flat@ == flat4(*batch),
        flat@.len() == volume(N, C, H, W),
{
    let mut flat: Vec<T> = Vec::new();
    let mut i: usize = 0;
    proof {
        assert(blocks(batch@.take(0)).flatten() =~= Seq::<T>::empty());
        assert(flat@ =~= blocks(batch@.take(0)).flatten());
    }
    while i < N
        invariant
            i <= N,
            flat@ == blocks(batch@.take(i as int)).flatten(),
        decreases N - i,
    {
        extend_block(&mut flat, &batch[i]);
        proof {
            let done = blocks(batch@.take(i as int));
            assert(blocks(batch@.take(i + 1)) =~= done.push(flat3(batch@[i as int])));
            done.lemma_flatten_push(flat3(batch@[i as int]));
            assert(flat@ =~= blocks(batch@.take(i + 1)).flatten());
        }
        i += 1;
    }
    proof {
        assert(batch@.take(N as int) =~= batch@);
        lemma_flat4_len(*batch);
    }
    flat
}

} // verus!
