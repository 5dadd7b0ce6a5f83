use vstd::prelude::*;

verus! {

/// First row index met on anti-diagonal `d` (the cells with row + col == d).
pub open spec fn diagonal_low(d: int) -> int {
    if d <= 7 {
        0
    } else {
        d - 7
    }
}

/// Last row index met on anti-diagonal `d`.
pub open spec fn diagonal_high(d: int) -> int {
    if d <= 7 {
        d
    } else {
        7
    }
}

/// Number of cells of an 8x8 block on anti-diagonal `d`.
pub open spec fn diagonal_len(d: int) -> int {
    diagonal_high(d) - diagonal_low(d) + 1
}

/// The `t`-th cell, as (row, col), visited on anti-diagonal `d`: odd
/// diagonals are walked with the row growing, even ones with the row
/// shrinking.
pub open spec fn diagonal_cell(d: int, t: int) -> (int, int) {
    if d % 2 == 1 {
        (diagonal_low(d) + t, d - diagonal_low(d) - t)
    } else {
        (diagonal_high(d) - t, d - diagonal_high(d) + t)
    }
}

/// The cells of anti-diagonal `d` in visiting order.
pub open spec fn diagonal_cells(d: int) -> Seq<(int, int)> {
    Seq::new(diagonal_len(d) as nat, |t: int| diagonal_cell(d, t))
}

/// The cells of anti-diagonals `0 .. d` in visiting order.
pub open spec fn zig_zag_prefix(d: nat) -> Seq<(int, int)>
    decreases d,
{
    if d == 0 {
        Seq::empty()
    } else {
        zig_zag_prefix((d - 1) as nat) + diagonal_cells(d - 1)
    }
}

/// The zig-zag scan of an 8x8 block: the fifteen anti-diagonals in order,
/// alternating direction, starting at (0, 0), (0, 1), (1, 0), (2, 0), ...
pub open spec fn zig_zag_order() -> Seq<(int, int)> {
    zig_zag_prefix(15)
}

/// The entries of `matrix` at `cells`, in that order.
pub open spec fn values_at<T>(matrix: [[T; 8]; 8], cells: Seq<(int, int)>) -> Seq<T> {
    cells.map_values(|p: (int, int)| matrix[p.0][p.1])
}

proof fn lemma_values_at_push<T>(matrix: [[T; 8]; 8], cells: Seq<(int, int)>, p: (int, int))
    ensures
        values_at(matrix, cells.push(p)) == values_at(matrix, cells).push(matrix[p.0][p.1]),
{
    assert(values_at(matrix, cells.push(p)) =~= values_at(matrix, cells).push(matrix[p.0][p.1]));
}

/// Reads `matrix` in zig-zag order, the order in which a JPEG encoder
/// emits the coefficients of a block.
pub fn zig_zag_matrix<T: Copy>(matrix: [[T; 8]; 8]) -> (zig_zag: Vec<T>)
    ensures
        zig_zag@ == values_at(matrix, zig_zag_order()),
        zig_zag@.len() == 64,
        zig_zag@[0] == matrix[0][0],
{
    let mut row: usize = 0;
    let mut col: usize = 0;
    let mut vec_zig_zag: Vec<T> = Vec::new();
    let mut row_inc = false;
    let ghost mut done: Seq<(int, int)> = Seq::empty();

    // upper-left half: anti-diagonals 0 to 7
    let mut len: usize = 1;
    loop
        invariant_except_break
            done == zig_zag_prefix((len - 1) as nat),
            vec_zig_zag@ == values_at(matrix, done),
            (row as int, col as int) == diagonal_cell(len - 1, 0),
            row_inc == ((len - 1) % 2 == 1),
        invariant
            1 <= len <= 8,
        ensures
            len == 8,
            done == zig_zag_prefix(8),
            vec_zig_zag@ == values_at(matrix, done),
            row == 7 && col == 0,
            row_inc,
        decreases 8 - len,
    {
        let ghost d: int = len - 1;
        let mut i: usize = 0;
        loop
            invariant_except_break
                i < len,
                done == zig_zag_prefix(d as nat) + diagonal_cells(d).take(i as int),
                vec_zig_zag@ == values_at(matrix, done),
                (row as int, col as int) == diagonal_cell(d, i as int),
            invariant
                1 <= len <= 8,
                d == len - 1,
                row_inc == (d % 2 == 1),
            ensures
                done == zig_zag_prefix((d + 1) as nat),
                vec_zig_zag@ == values_at(matrix, done),
                (row as int, col as int) == diagonal_cell(d, d),
                row_inc == (d % 2 == 1),
            decreases len - i,
        {
            proof {
                lemma_values_at_push(matrix, done, (row as int, col as int));
                assert(diagonal_cells(d).take(i + 1) =~= diagonal_cells(d).take(i as int).push(
                    diagonal_cell(d, i as int),
                ));
                done = done.push((row as int, col as int));
            }
            vec_zig_zag.push(matrix[row][col]);
            if i + 1 == len {
                assert(diagonal_cells(d).take(i + 1) =~= diagonal_cells(d));
                break ;
            }
            if row_inc {
                row += 1;
                col -= 1;
            } else {
                row -= 1;
                col += 1;
            }
            i += 1;
        }
        if len == 8 {
            break ;
        }
        if row_inc {
            row += 1;
            row_inc = false;
        } else {
            col += 1;
            row_inc = true;
        }
        len += 1;
    }

    // step onto the first cell of anti-diagonal 8
    if row == 0 {
        if col == 8 - 1 {
            row += 1;
        } else {
            col += 1;
        }
        row_inc = true;
    } else {
        if row == 8 - 1 {
            col += 1;
        } else {
            row += 1;
        }
        row_inc = false;
    }

    // lower-right half: anti-diagonals 8 to 14
    let mut diag: usize = 8 - 1;
    while diag > 0
        invariant
            diag <= 7,
            done == zig_zag_prefix((15 - diag) as nat),
            vec_zig_zag@ == values_at(matrix, done),
            diag >= 1 ==> (row as int, col as int) == diagonal_cell(15 - diag, 0),
            row_inc == ((15 - diag) % 2 == 1),
        decreases diag,
    {
        let ghost d: int = 15 - diag;
        let len: usize = if diag > 8 {
            8
        } else {
            diag
        };
        let mut i: usize = 0;
        loop
            invariant_except_break
                i < len,
                done == zig_zag_prefix(d as nat) + diagonal_cells(d).take(i as int),
                vec_zig_zag@ == values_at(matrix, done),
                (row as int, col as int) == diagonal_cell(d, i as int),
            invariant
                1 <= diag <= 7,
                len == diag,
                d == 15 - diag,
                row_inc == (d % 2 == 1),
            ensures
                done == zig_zag_prefix((d + 1) as nat),
                vec_zig_zag@ == values_at(matrix, done),
                (row as int, col as int) == diagonal_cell(d, len - 1),
                row_inc == (d % 2 == 1),
            decreases len - i,
        {
            proof {
                lemma_values_at_push(matrix, done, (row as int, col as int));
                assert(diagonal_cells(d).take(i + 1) =~= diagonal_cells(d).take(i as int).push(
                    diagonal_cell(d, i as int),
                ));
                done = done.push((row as int, col as int));
            }
            vec_zig_zag.push(matrix[row][col]);
            if i + 1 == len {
                assert(diagonal_cells(d).take(i + 1) =~= diagonal_cells(d));
                break ;
            }
            if row_inc {
                row += 1;
                col -= 1;
            } else {
                row -= 1;
                col += 1;
            }
            i += 1;
        }
        if row == 0 || col == 8 - 1 {
            if col == 8 - 1 {
                row += 1;
            } else {
                col += 1;
            }
            row_inc = true;
        } else if col == 0 || row == 8 - 1 {
            if row == 8 - 1 {
                col += 1;
            } else {
                row += 1;
            }
            row_inc = false;
        }
        diag -= 1;
    }
    proof {
        lemma_zig_zag_order_len();
    }
    vec_zig_zag
}

/// The scan has 64 positions and starts at (0, 0).
pub proof fn lemma_zig_zag_order_len()
    ensures
        zig_zag_order().len() == 64,
        zig_zag_order()[0] == (0int, 0int),
{
    reveal_with_fuel(zig_zag_prefix, 16);
    assert(zig_zag_prefix(1) =~= diagonal_cells(0));
}

/// Both coordinates lie in 0..8.
pub open spec fn in_block(p: (int, int)) -> bool {
    0 <= p.0 < 8 && 0 <= p.1 < 8
}

proof fn lemma_diagonal_cell(d: int, t: int)
    requires
        0 <= d <= 14,
        0 <= t < diagonal_len(d),
    ensures
        in_block(diagonal_cell(d, t)),
        diagonal_cell(d, t).0 + diagonal_cell(d, t).1 == d,
        d % 2 == 1 ==> diagonal_cell(d, t).0 == diagonal_low(d) + t,
        d % 2 != 1 ==> diagonal_cell(d, t).0 == diagonal_high(d) - t,
{
}

proof fn lemma_zig_zag_prefix(d: nat)
    requires
        d <= 15,
    ensures
        forall|k: int|
            0 <= k < zig_zag_prefix(d).len() ==> #[trigger] in_block(zig_zag_prefix(d)[k])
                && zig_zag_prefix(d)[k].0 + zig_zag_prefix(d)[k].1 < d,
        forall|i: int, j: int|
            0 <= i < j < zig_zag_prefix(d).len() ==> zig_zag_prefix(d)[i] != zig_zag_prefix(d)[j],
        forall|r: int, c: int|
            0 <= r < 8 && 0 <= c < 8 && r + c < d ==> #[trigger] zig_zag_prefix(d).contains((r, c)),
    decreases d,
{
    if d > 0 {
        let e: nat = (d - 1) as nat;
        lemma_zig_zag_prefix(e);
        let p = zig_zag_prefix(e);
        let cells = diagonal_cells(e as int);
        let q = zig_zag_prefix(d);
        assert(q == p + cells);
        assert forall|k: int| 0 <= k < q.len() implies #[trigger] in_block(q[k]) && q[k].0 + q[k].1
            < d by {
            if k < p.len() {
                assert(q[k] == p[k]);
                assert(in_block(p[k]));
            } else {
                lemma_diagonal_cell(e as int, k - p.len());
            }
        }
        assert forall|i: int, j: int| 0 <= i < j < q.len() implies q[i] != q[j] by {
            if j < p.len() {
                assert(q[i] == p[i] && q[j] == p[j]);
            } else if i < p.len() {
                assert(in_block(p[i]));
                lemma_diagonal_cell(e as int, j - p.len());
            } else {
                lemma_diagonal_cell(e as int, i - p.len());
                lemma_diagonal_cell(e as int, j - p.len());
            }
        }
        assert forall|r: int, c: int| 0 <= r < 8 && 0 <= c < 8 && r + c < d implies #[trigger] q.contains(
            (r, c),
        ) by {
            if r + c < e {
                assert(p.contains((r, c)));
                let k: int = choose|k: int| 0 <= k < p.len() && p[k] == (r, c);
                assert(q[k] == (r, c));
            } else {
                let t: int = if e % 2 == 1 {
                    r - diagonal_low(e as int)
                } else {
                    diagonal_high(e as int) - r
                };
                lemma_diagonal_cell(e as int, t);
                assert(q[p.len() + t] == (r, c));
            }
        }
    }
}

/// The zig-zag scan visits each of the 64 cells of a block exactly once.
pub proof fn lemma_zig_zag_is_permutation()
    ensures
        zig_zag_order().len() == 64,
        forall|k: int| 0 <= k < 64 ==> #[trigger] in_block(zig_zag_order()[k]),
        forall|i: int, j: int| 0 <= i < j < 64 ==> zig_zag_order()[i] != zig_zag_order()[j],
        forall|r: int, c: int| 0 <= r < 8 && 0 <= c < 8 ==> #[trigger] zig_zag_order().contains((r, c)),
{
    lemma_zig_zag_order_len();
    lemma_zig_zag_prefix(15);
}

/// The scan is the standard JPEG zig-zag sequence: (0, 0), (0, 1), (1, 0),
/// (2, 0), (1, 1), (0, 2), ... ending at (7, 7).
pub proof fn lemma_zig_zag_standard_order()
    ensures
        zig_zag_order() == seq![
            (0int, 0int), (0int, 1int), (1int, 0int), (2int, 0int), (1int, 1int), (0int, 2int), (0int, 3int), (1int, 2int),
            (2int, 1int), (3int, 0int), (4int, 0int), (3int, 1int), (2int, 2int), (1int, 3int), (0int, 4int), (0int, 5int),
            (1int, 4int), (2int, 3int), (3int, 2int), (4int, 1int), (5int, 0int), (6int, 0int), (5int, 1int), (4int, 2int),
            (3int, 3int), (2int, 4int), (1int, 5int), (0int, 6int), (0int, 7int), (1int, 6int), (2int, 5int), (3int, 4int),
            (4int, 3int), (5int, 2int), (6int, 1int), (7int, 0int), (7int, 1int), (6int, 2int), (5int, 3int), (4int, 4int),
            (3int, 5int), (2int, 6int), (1int, 7int), (2int, 7int), (3int, 6int), (4int, 5int), (5int, 4int), (6int, 3int),
            (7int, 2int), (7int, 3int), (6int, 4int), (5int, 5int), (4int, 6int), (3int, 7int), (4int, 7int), (5int, 6int),
            (6int, 5int), (7int, 4int), (7int, 5int), (6int, 6int), (5int, 7int), (6int, 7int), (7int, 6int), (7int, 7int),
        ],
{
    reveal_with_fuel(zig_zag_prefix, 16);
    assert(zig_zag_order() =~= seq![
            (0int, 0int), (0int, 1int), (1int, 0int), (2int, 0int), (1int, 1int), (0int, 2int), (0int, 3int), (1int, 2int),
            (2int, 1int), (3int, 0int), (4int, 0int), (3int, 1int), (2int, 2int), (1int, 3int), (0int, 4int), (0int, 5int),
            (1int, 4int), (2int, 3int), (3int, 2int), (4int, 1int), (5int, 0int), (6int, 0int), (5int, 1int), (4int, 2int),
            (3int, 3int), (2int, 4int), (1int, 5int), (0int, 6int), (0int, 7int), (1int, 6int), (2int, 5int), (3int, 4int),
            (4int, 3int), (5int, 2int), (6int, 1int), (7int, 0int), (7int, 1int), (6int, 2int), (5int, 3int), (4int, 4int),
            (3int, 5int), (2int, 6int), (1int, 7int), (2int, 7int), (3int, 6int), (4int, 5int), (5int, 4int), (6int, 3int),
            (7int, 2int), (7int, 3int), (6int, 4int), (5int, 5int), (4int, 6int), (3int, 7int), (4int, 7int), (5int, 6int),
            (6int, 5int), (7int, 4int), (7int, 5int), (6int, 6int), (5int, 7int), (6int, 7int), (7int, 6int), (7int, 7int),
    ]);
}

} // verus!
