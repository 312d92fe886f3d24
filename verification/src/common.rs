//! Shared helpers: reassembling kernel source lines into one source blob, and
//! small planar integer math used by the mesh layer.

use vstd::prelude::*;

verus! {

/// The source blob that a sequence of lines denotes: each line followed by a
/// newline character.
pub open spec fn joined_lines(lines: Seq<Seq<char>>) -> Seq<char>
    decreases lines.len(),
{
    if lines.len() == 0 {
        Seq::empty()
    } else {
        joined_lines(lines.drop_last()) + lines.last() + seq!['\n']
    }
}

/// Concatenates lines of source text back into a single blob, terminating each
/// line with a newline.
pub fn flatten_lines(lines: &Vec<String>) -> (r: String)
    ensures
        r@ == joined_lines(lines.deep_view()),
{
    let mut s = String::new();
    let n = lines.len();
    for i in 0..n
        invariant
            n == lines@.len(),
            s@ == joined_lines(lines.deep_view().take(i as int)),
    {
        s.append(lines[i].as_str());
        s.append("\n");
        proof {
            reveal_strlit("\n");
            let lv = lines.deep_view();
            assert(lv.take(i + 1).drop_last() =~= lv.take(i as int));
            assert(lv.take(i + 1).last() == lv[i as int]);
            assert("\n"@ =~= seq!['\n']);
            assert(s@ =~= joined_lines(lv.take(i + 1)));
        }
    }
    proof {
        assert(lines.deep_view().take(n as int) =~= lines.deep_view());
    }
    s
}

/// The product of two values in the range of an `i32` stays well inside the
/// range of an `i64`.
proof fn lemma_mul_i32_fits_i64(x: int, y: int)
    by (nonlinear_arith)
    requires
        i32::MIN <= x <= i32::MAX,
        i32::MIN <= y <= i32::MAX,
    ensures
        -0x4000_0000_0000_0000 <= x * y <= 0x4000_0000_0000_0000,
{
}

/// Two-dimensional cross product (the z component of the cross product of two
/// planar integer vectors).
pub fn cross(a: (i32, i32), b: (i32, i32)) -> (r: i32)
    requires
        i32::MIN <= a.0 * b.1 - a.1 * b.0 <= i32::MAX,
    ensures
        r == a.0 * b.1 - a.1 * b.0,
{
    proof {
        lemma_mul_i32_fits_i64(a.0 as int, b.1 as int);
        lemma_mul_i32_fits_i64(a.1 as int, b.0 as int);
    }
    let prod1: i64 = (a.0 as i64) * (b.1 as i64);
    let prod2: i64 = (a.1 as i64) * (b.0 as i64);
    (prod1 - prod2) as i32
}

} // verus!
