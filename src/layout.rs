use vstd::prelude::*;
use vstd::arithmetic::div_mod::{lemma_div_denominator, lemma_fundamental_div_mod, lemma_fundamental_div_mod_converse, lemma_mod_pos_bound, lemma_div_pos_is_pos};

verus! {

/// Position in a flat buffer laid out as rows of blocks: block row `y`, line
/// `line` of `lines`, block `x` of `width`, byte `k` of a run of `run` bytes.
pub open spec fn block_offset(y: int, line: int, x: int, k: int, lines: int, width: int, run: int) -> int {
    ((y * lines + line) * width + x) * run + k
}

/// Each position of such a buffer names its block row, line, block and byte
/// back, so two different tuples never share a position.
pub proof fn lemma_block_index(y: int, line: int, x: int, k: int, lines: int, width: int, run: int)
    requires
        0 <= y,
        0 <= line < lines,
        0 <= x < width,
        0 <= k < run,
    ensures
        ({
            let j = block_offset(y, line, x, k, lines, width, run);
            &&& j / (lines * width * run) == y
            &&& (j / (width * run)) % lines == line
            &&& (j / run) % width == x
            &&& j % run == k
        }),
{
    let a = y * lines + line;
    let b = a * width + x;
    let j = b * run + k;
    assert(0 <= a) by (nonlinear_arith)
        requires 0 <= y, 0 <= line, 0 < lines, a == y * lines + line;
    assert(0 <= b) by (nonlinear_arith)
        requires 0 <= a, 0 <= x, 0 < width, b == a * width + x;
    lemma_fundamental_div_mod_converse(j, run, b, k);
    lemma_fundamental_div_mod_converse(b, width, a, x);
    lemma_fundamental_div_mod_converse(a, lines, y, line);
    assert(0 <= j) by (nonlinear_arith)
        requires 0 <= b, 0 <= k, 0 < run, j == b * run + k;
    lemma_div_denominator(j, run, width);
    lemma_div_denominator(j, run * width, lines);
    assert(run * width == width * run) by (nonlinear_arith);
    assert(run * width * lines == lines * width * run) by (nonlinear_arith);
}

/// Every position below the buffer's size is the offset of exactly the tuple
/// that it names back.
pub proof fn lemma_block_cover(j: int, lines: int, width: int, run: int, rows: int)
    requires
        0 <= j < rows * lines * width * run,
        0 < lines,
        0 < width,
        0 < run,
    ensures
        ({
            let y = j / (lines * width * run);
            let line = (j / (width * run)) % lines;
            let x = (j / run) % width;
            let k = j % run;
            &&& 0 <= y < rows
            &&& 0 <= line < lines
            &&& 0 <= x < width
            &&& 0 <= k < run
            &&& j == block_offset(y, line, x, k, lines, width, run)
        }),
{
    let b = j / run;
    let a = b / width;
    let y = a / lines;
    assert(0 < width * run && 0 < lines * width * run) by (nonlinear_arith)
        requires 0 < lines, 0 < width, 0 < run;
    lemma_div_denominator(j, run, width);
    lemma_div_denominator(j, run * width, lines);
    assert(run * width == width * run) by (nonlinear_arith);
    assert(run * width * lines == lines * width * run) by (nonlinear_arith);
    lemma_fundamental_div_mod(j, run);
    lemma_fundamental_div_mod(b, width);
    lemma_fundamental_div_mod(a, lines);
    lemma_mod_pos_bound(j, run);
    lemma_div_pos_is_pos(j, run);
    lemma_mod_pos_bound(b, width);
    lemma_div_pos_is_pos(b, width);
    lemma_mod_pos_bound(a, lines);
    lemma_div_pos_is_pos(a, lines);
    let (line, x, k) = (a % lines, b % width, j % run);
    assert(j == ((y * lines + line) * width + x) * run + k) by (nonlinear_arith)
        requires j == run * b + k, b == width * a + x, a == lines * y + line;
    assert(y < rows) by (nonlinear_arith)
        requires y == j / (lines * width * run), 0 <= j < rows * lines * width * run, 0 < lines * width * run;
}

} // verus!
