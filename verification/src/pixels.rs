//! An icon's pixels as the platform hands them over (32-bit BGRA, alpha premultiplied) turned
//! into the straight RGBA an image encoder wants.
use vstd::prelude::*;

verus! {

/// Whether every whole pixel's alpha byte is zero: a bitmap that never had an alpha channel.
pub open spec fn alpha_all_zero(bgra: Seq<u8>) -> bool {
    forall|p: int| 0 <= p < bgra.len() / 4 ==> #[trigger] bgra[4 * p + 3] == 0
}

/// One colour channel with the premultiplication by `a` undone, capped at 255; zero where the
/// pixel is fully transparent.
pub open spec fn unpremultiplied(c: u8, a: u8) -> u8 {
    if a == 0 {
        0
    } else if (c * 255) / (a as int) > 255 {
        255
    } else {
        ((c * 255) / (a as int)) as u8
    }
}

/// Byte `i` of the converted buffer. Channels swap from BGRA to RGBA; when no pixel has alpha,
/// every pixel is taken as opaque, otherwise each colour channel is un-premultiplied by its
/// pixel's alpha, which stays. Bytes past the last whole pixel are kept as they are.
pub open spec fn straight_byte(bgra: Seq<u8>, opaque: bool, i: int) -> u8 {
    let p = i / 4;
    if p >= bgra.len() / 4 {
        bgra[i]
    } else {
        let b = bgra[4 * p];
        let g = bgra[4 * p + 1];
        let r = bgra[4 * p + 2];
        let a = bgra[4 * p + 3];
        if opaque {
            if i % 4 == 0 {
                r
            } else if i % 4 == 1 {
                g
            } else if i % 4 == 2 {
                b
            } else {
                255
            }
        } else {
            if i % 4 == 0 {
                unpremultiplied(r, a)
            } else if i % 4 == 1 {
                unpremultiplied(g, a)
            } else if i % 4 == 2 {
                unpremultiplied(b, a)
            } else {
                a
            }
        }
    }
}

fn unpremultiply(c: u8, a: u8) -> (r: u8)
    ensures
        r == unpremultiplied(c, a),
{
    if a == 0 {
        0
    } else {
        let v: u32 = (c as u32 * 255) / (a as u32);
        if v > 255 {
            255
        } else {
            v as u8
        }
    }
}

/// The pixels in straight RGBA, from premultiplied BGRA: without this every semi-transparent
/// edge renders too dark, and a bitmap without alpha renders blank.
pub fn straight_rgba(bgra: &[u8]) -> (r: Vec<u8>)
    ensures
        r@.len() == bgra@.len(),
        forall|i: int| 0 <= i < r@.len() ==> #[trigger] r@[i] == straight_byte(
            bgra@,
            alpha_all_zero(bgra@),
            i,
        ),
{
    let n = bgra.len() / 4;
    let mut opaque = true;
    let mut p: usize = 0;
    while p < n
        invariant
            p <= n,
            n == bgra@.len() / 4,
            bgra@.len() <= usize::MAX,
            opaque == forall|q: int| 0 <= q < p ==> #[trigger] bgra@[4 * q + 3] == 0,
        decreases n - p,
    {
        if bgra[4 * p + 3] != 0 {
            opaque = false;
        }
        p = p + 1;
    }
    let ghost op = alpha_all_zero(bgra@);
    assert(opaque == op);
    let mut out: Vec<u8> = Vec::new();
    let mut p: usize = 0;
    while p < n
        invariant
            p <= n,
            n == bgra@.len() / 4,
            bgra@.len() <= usize::MAX,
            opaque == op,
            op == alpha_all_zero(bgra@),
            out@.len() == 4 * p,
            forall|i: int| 0 <= i < out@.len() ==> #[trigger] out@[i] == straight_byte(bgra@, op, i),
        decreases n - p,
    {
        let b = bgra[4 * p];
        let g = bgra[4 * p + 1];
        let r = bgra[4 * p + 2];
        let a = bgra[4 * p + 3];
        let ghost before = out@;
        if opaque {
            out.push(r);
            out.push(g);
            out.push(b);
            out.push(255);
        } else {
            let r2 = unpremultiply(r, a);
            let g2 = unpremultiply(g, a);
            let b2 = unpremultiply(b, a);
            out.push(r2);
            out.push(g2);
            out.push(b2);
            out.push(a);
        }
        proof {
            let base = 4 * p as int;
            assert forall|i: int| 0 <= i < out@.len() implies #[trigger] out@[i] == straight_byte(
                bgra@,
                op,
                i,
            ) by {
                if i < base {
                    assert(out@[i] == before[i]);
                } else {
                    assert(i / 4 == p as int);
                    assert(i % 4 == i - base);
                }
            }
        }
        p = p + 1;
    }
    let mut i: usize = 4 * n;
    while i < bgra.len()
        invariant
            4 * n <= i <= bgra@.len(),
            n == bgra@.len() / 4,
            bgra@.len() <= usize::MAX,
            op == alpha_all_zero(bgra@),
            out@.len() == i,
            forall|k: int| 0 <= k < out@.len() ==> #[trigger] out@[k] == straight_byte(bgra@, op, k),
        decreases bgra@.len() - i,
    {
        let ghost before = out@;
        out.push(bgra[i]);
        proof {
            assert forall|k: int| 0 <= k < out@.len() implies #[trigger] out@[k] == straight_byte(
                bgra@,
                op,
                k,
            ) by {
                if k < before.len() {
                    assert(out@[k] == before[k]);
                } else {
                    assert(k / 4 >= n);
                }
            }
        }
        i = i + 1;
    }
    out
}

} // verus!
