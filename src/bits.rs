//! A file's watched portions: 128 chunks, one bit each, over two words.
use vstd::prelude::*;

verus! {

/// Whether chunk `i` (0 to 127) is marked: chunks 0 to 63 are the bits of
/// `seen0`, lowest first, and chunks 64 to 127 those of `seen1`.
pub open spec fn chunk_seen(seen0: u64, seen1: u64, i: int) -> bool {
    if i < 64 {
        (seen0 >> (i as u64)) & 1 == 1
    } else {
        (seen1 >> ((i - 64) as u64)) & 1 == 1
    }
}

/// Whether some span `[beg, end)` of `r` holds `i`.
pub open spec fn covered(r: Seq<(u8, u8)>, i: int) -> bool {
    exists|k: int| 0 <= k < r.len() && r[k].0 <= i < (#[trigger] r[k]).1
}

/// Non-empty spans within the 128 chunks, in order, with a gap between each
/// two.
pub open spec fn spans_ordered(r: Seq<(u8, u8)>) -> bool {
    &&& forall|k: int| 0 <= k < r.len() ==> (#[trigger] r[k]).0 < r[k].1 <= 128
    &&& forall|k: int| 0 <= k < r.len() - 1 ==> (#[trigger] r[k]).1 < r[k + 1].0
}

/// The runs of marked chunks, each as `[beg, end)`, in order. Together they
/// hold exactly the marked chunks, and as runs are separated by an unmarked
/// chunk each is as long as it can be.
pub fn iter_bit_spans(seen0: u64, seen1: u64) -> (r: Vec<(u8, u8)>)
    ensures
        spans_ordered(r@),
        forall|i: int| 0 <= i < 128 ==> (chunk_seen(seen0, seen1, i) <==> covered(r@, i)),
{
    let mut r: Vec<(u8, u8)> = Vec::new();
    let mut beg_x: u8 = 255;
    let mut i: u8 = 0;
    while i < 128
        invariant
            i <= 128,
            spans_ordered(r@),
            r@.len() > 0 ==> r@.last().1 < i && !chunk_seen(seen0, seen1, r@.last().1 as int),
            beg_x != 255 ==> beg_x < i && (r@.len() > 0 ==> r@.last().1 < beg_x),
            beg_x != 255 ==> forall|j: int| beg_x <= j < i ==> chunk_seen(seen0, seen1, j),
            forall|j: int|
                0 <= j < (if beg_x == 255 { i } else { beg_x }) ==> (chunk_seen(seen0, seen1, j)
                    <==> covered(r@, j)),
            forall|k: int| 0 <= k < r@.len() ==> (#[trigger] r@[k]).1 <= i,
        decreases 128 - i,
    {
        let bit = if i < 64 {
            (seen0 >> (i as u64)) & 1 == 1
        } else {
            (seen1 >> ((i - 64) as u64)) & 1 == 1
        };
        assert(bit == chunk_seen(seen0, seen1, i as int));
        if bit {
            if beg_x == 255 {
                beg_x = i;
            }
        } else if beg_x != 255 {
            let ghost old_r = r@;
            r.push((beg_x, i));
            proof {
                let x = (beg_x, i);
                assert(r@[old_r.len() as int] == x);
                assert forall|j: int| 0 <= j < i + 1 implies (chunk_seen(seen0, seen1, j) <==> covered(r@, j)) by {
                    if j < beg_x {
                        if covered(r@, j) {
                            let k = choose|k: int| 0 <= k < r@.len() && r@[k].0 <= j < (#[trigger] r@[k]).1;
                            assert(k < old_r.len());
                            assert(old_r[k] == r@[k]);
                        }
                        if covered(old_r, j) {
                            let k = choose|k: int| 0 <= k < old_r.len() && old_r[k].0 <= j < (#[trigger] old_r[k]).1;
                            assert(old_r[k] == r@[k]);
                        }
                    } else if j < i {
                        assert(r@[old_r.len() as int].0 <= j < r@[old_r.len() as int].1);
                    } else {
                        if covered(r@, j) {
                            let k = choose|k: int| 0 <= k < r@.len() && r@[k].0 <= j < (#[trigger] r@[k]).1;
                            if k < old_r.len() {
                                assert(old_r[k] == r@[k]);
                            }
                        }
                    }
                }
                assert forall|k: int| 0 <= k < r@.len() - 1 implies (#[trigger] r@[k]).1 < r@[k + 1].0 by {
                    assert(r@[k] == old_r[k]);
                    if k + 1 < old_r.len() {
                        assert(r@[k + 1] == old_r[k + 1]);
                    }
                }
            }
            beg_x = 255;
        }
        i = i + 1;
    }
    if beg_x != 255 {
        let ghost old_r = r@;
        r.push((beg_x, 128));
        proof {
            assert(r@[old_r.len() as int] == (beg_x, 128u8));
            assert forall|j: int| 0 <= j < 128 implies (chunk_seen(seen0, seen1, j) <==> covered(r@, j)) by {
                if j < beg_x {
                    if covered(r@, j) {
                        let k = choose|k: int| 0 <= k < r@.len() && r@[k].0 <= j < (#[trigger] r@[k]).1;
                        assert(k < old_r.len());
                        assert(old_r[k] == r@[k]);
                    }
                    if covered(old_r, j) {
                        let k = choose|k: int| 0 <= k < old_r.len() && old_r[k].0 <= j < (#[trigger] old_r[k]).1;
                        assert(old_r[k] == r@[k]);
                    }
                } else {
                    assert(r@[old_r.len() as int].0 <= j < r@[old_r.len() as int].1);
                }
            }
            assert forall|k: int| 0 <= k < r@.len() - 1 implies (#[trigger] r@[k]).1 < r@[k + 1].0 by {
                assert(r@[k] == old_r[k]);
                if k + 1 < old_r.len() {
                    assert(r@[k + 1] == old_r[k + 1]);
                }
            }
        }
    }
    r
}

/// Marks chunk `chunk`, or the last chunk for any larger number, and leaves
/// every other chunk as it was.
pub fn mark_chunk(seen0: u64, seen1: u64, chunk: u8) -> (r: (u64, u64))
    ensures
        forall|j: int|
            0 <= j < 128 ==> (chunk_seen(r.0, r.1, j) <==> (j == (if chunk > 127 {
                127
            } else {
                chunk
            }) || chunk_seen(seen0, seen1, j))),
{
    let p: u8 = if chunk > 127 {
        127
    } else {
        chunk
    };
    proof {
        assert(forall|w: u64, q: u64, j: u64|
            q < 64 && j < 64 ==> ((((w | (1u64 << q)) >> j) & 1 == 1) <==> (j == q || (w >> j) & 1
                == 1))) by (bit_vector);
    }
    if p >= 64 {
        let q: u8 = p - 64;
        let bit: u64 = 1u64 << (q as u64);
        (seen0, seen1 | bit)
    } else {
        let bit: u64 = 1u64 << (p as u64);
        (seen0 | bit, seen1)
    }
}

} // verus!
