use vstd::prelude::*;

use crate::binary::{
    binary_of,
    binary_string,
    bit_length,
    complement,
    binary_value,
    doubling,
    is_bit_string,
    lemma_binary_leading_one,
    lemma_binary_round_trip,
    lemma_complement_value,
    lemma_bit_length_of_byte,
    transform_positive_negative_binary,
};
use crate::zigzag::{
    in_block,
    lemma_zig_zag_is_permutation,
    lemma_zig_zag_order_len,
    lemma_zig_zag_standard_order,
    values_at,
    zig_zag_matrix,
    zig_zag_order,
};
use crate::huffman::{
    ac_luminance_codes,
    ac_luminance_table,
    dc_luminance_codes,
    dc_luminance_table,
    is_ac_symbol,
    lemma_ac_codes_are_bits,
    lemma_ac_luminance_standard,
    lemma_dc_codes_are_bits,
    lemma_dc_luminance_standard,
};

verus! {

broadcast use vstd::std_specs::hash::group_hash_axioms;

/// `x` clamped to 0 ..= 255, as a conversion to `u8` that saturates.
pub open spec fn saturate_u8(x: int) -> int {
    if x < 0 {
        0
    } else if x > 255 {
        255
    } else {
        x
    }
}

/// `x` clamped to -128 ..= 127, as a conversion to `i8` that saturates.
pub open spec fn saturate_i8(x: int) -> int {
    if x < -128 {
        -128
    } else if x > 127 {
        127
    } else {
        x
    }
}

pub open spec fn abs(x: int) -> int {
    if x < 0 {
        -x
    } else {
        x
    }
}

/// The extra bits that follow a Huffman code: the binary digits of a
/// positive value, or the complemented digits of the magnitude of a value
/// that is not positive.
pub open spec fn value_bits(v: int) -> Seq<char> {
    if v > 0 {
        binary_of(v as nat)
    } else {
        complement(binary_of((-v) as nat))
    }
}

/// An AC entry (zeros before it, magnitude category, value) for the
/// nonzero coefficient `v`; the category is taken from the low byte of
/// the magnitude and the value is saturated to `i8`.
pub open spec fn ac_entry(zeros: nat, v: int) -> (nat, nat, int) {
    (zeros, bit_length((abs(v) % 256) as nat), saturate_i8(v))
}

/// Run-length coding of AC coefficients: each nonzero coefficient becomes
/// an entry carrying the number of zeros before it (counted from
/// `zeros`); zeros after the last nonzero coefficient produce nothing.
pub open spec fn run_length_items(ac: Seq<i32>, zeros: nat) -> Seq<(nat, nat, int)>
    decreases ac.len(),
{
    if ac.len() == 0 {
        Seq::empty()
    } else if ac[0] == 0 {
        run_length_items(ac.drop_first(), zeros + 1)
    } else {
        seq![ac_entry(zeros, ac[0] as int)] + run_length_items(ac.drop_first(), 0)
    }
}

/// The end-of-block entry.
pub open spec fn end_of_block() -> (nat, nat, int) {
    (0, 0, 0)
}

/// The AC entries of a zig-zag ordered block (all coefficients after the
/// first), closed by the end-of-block entry.
pub open spec fn ac_items(coefficients: Seq<i32>) -> Seq<(nat, nat, int)> {
    run_length_items(coefficients.drop_first(), 0).push(end_of_block())
}

/// The bits of one AC entry: the Huffman code of (zeros, category), or the
/// code of the pair (15, 0) when more than fifteen zeros precede it,
/// followed by the value bits (none for the end of block).
pub open spec fn ac_item_code(item: (nat, nat, int)) -> Seq<char> {
    (if item.0 > 15 {
        ac_luminance_codes()[(15u8, 0u8)]
    } else {
        ac_luminance_codes()[(item.0 as u8, item.1 as u8)]
    }) + if item == end_of_block() {
        Seq::empty()
    } else {
        value_bits(item.2)
    }
}

/// The bits of a sequence of AC entries, one after the other.
pub open spec fn ac_codes(items: Seq<(nat, nat, int)>) -> Seq<char>
    decreases items.len(),
{
    if items.len() == 0 {
        Seq::empty()
    } else {
        ac_codes(items.drop_last()) + ac_item_code(items.last())
    }
}

/// The DC value that is coded: the first coefficient itself for the first
/// block, its difference from the previous block's DC otherwise.
pub open spec fn dc_difference(coefficients: Seq<i32>, previous_dc: int, first_block: bool) -> int {
    if first_block {
        coefficients[0] as int
    } else {
        coefficients[0] - previous_dc
    }
}

/// The bits of a DC difference: the Huffman code of the category (the
/// number of binary digits of the difference saturated to `u8`) followed
/// by the value bits of the difference saturated to `i8`.
pub open spec fn dc_code(diff: int) -> Seq<char> {
    dc_luminance_codes()[bit_length(saturate_u8(diff) as nat) as i8]@ + value_bits(saturate_i8(diff))
}

/// The bits of one block given as zig-zag ordered quantized coefficients.
pub open spec fn block_bits(coefficients: Seq<i32>, previous_dc: int, first_block: bool) -> Seq<
    char,
> {
    dc_code(dc_difference(coefficients, previous_dc, first_block)) + ac_codes(
        ac_items(coefficients),
    )
}

/// The inputs that a block can be coded from: a DC coefficient, a coded
/// DC difference above -128 and AC coefficients above -128 (the value bits
/// of -128 have no magnitude in `i8`).
pub open spec fn encodable(coefficients: Seq<i32>, previous_dc: int, first_block: bool) -> bool {
    &&& coefficients.len() >= 1
    &&& dc_difference(coefficients, previous_dc, first_block) > -128
    &&& forall|i: int| 1 <= i < coefficients.len() ==> coefficients[i] > -128
}

/// What one exec AC entry stands for.
pub open spec fn item_view(item: ((usize, usize), i8)) -> (nat, nat, int) {
    (item.0.0 as nat, item.0.1 as nat, item.1 as int)
}

/// Every entry of `items` has a category between 1 and 8 and a value in
/// -127 ..= 127 other than 0.
pub open spec fn items_well_formed(items: Seq<(nat, nat, int)>) -> bool {
    forall|k: int|
        0 <= k < items.len() ==> 1 <= #[trigger] items[k].1 <= 8 && items[k].2 != 0 && -128
            < items[k].2 <= 127
}

proof fn lemma_run_length_items(ac: Seq<i32>, zeros: nat)
    requires
        forall|j: int| 0 <= j < ac.len() ==> ac[j] > -128,
    ensures
        items_well_formed(run_length_items(ac, zeros)),
    decreases ac.len(),
{
    if ac.len() > 0 {
        let rest = ac.drop_first();
        if ac[0] == 0 {
            lemma_run_length_items(rest, zeros + 1);
        } else {
            lemma_run_length_items(rest, 0);
            lemma_bit_length_of_byte((abs(ac[0] as int) % 256) as nat);
            let head = seq![ac_entry(zeros, ac[0] as int)];
            let tail = run_length_items(rest, 0);
            assert forall|k: int| 0 <= k < (head + tail).len() implies 1 <= #[trigger] (head
                + tail)[k].1 <= 8 && (head + tail)[k].2 != 0 && -128 < (head + tail)[k].2
                <= 127 by {
                if k > 0 {
                    assert((head + tail)[k] == tail[k - 1]);
                }
            }
        }
    }
}

fn saturate_to_u8(x: i64) -> (r: u8)
    ensures
        r == saturate_u8(x as int),
{
    if x < 0 {
        0
    } else if x > 255 {
        255
    } else {
        x as u8
    }
}

fn saturate_to_i8(x: i64) -> (r: i8)
    ensures
        r == saturate_i8(x as int),
{
    if x < -128 {
        -128
    } else if x > 127 {
        127
    } else {
        x as i8
    }
}

/// The value bits of `v` (see `value_bits`).
fn append_value_bits(out: &mut String, v: i8)
    requires
        v > -128,
    ensures
        final(out)@ == old(out)@ + value_bits(v as int),
{
    if v > 0 {
        let digits = binary_string(v as u8);
        out.append(digits.as_str());
    } else {
        let magnitude: i8 = -v;
        let digits = transform_positive_negative_binary(binary_string(magnitude as u8));
        out.append(digits.as_str());
    }
}

/// Codes one block of quantized coefficients, given in zig-zag order, as a
/// string of binary digits: the DC coefficient (as a difference from
/// `previous_dc` unless `first_block`), then the run-length coded AC
/// coefficients and the end-of-block code.
pub fn get_binary_stream_from_zig_zag_array(
    matrix: &Vec<i32>,
    previous_dc: i32,
    first_block: bool,
) -> (binary: String)
    requires
        encodable(matrix@, previous_dc as int, first_block),
    ensures
        binary@ == block_bits(matrix@, previous_dc as int, first_block),
{
    let table_ac_huffman = ac_luminance_table();
    let dc_huffman_luminance = dc_luminance_table();

    let n: usize = matrix.len();
    let mut vec: Vec<((usize, usize), i8)> = Vec::new();
    let mut number_zero: usize = 0;
    let mut i: usize = 1;
    while i < n
        invariant
            n == matrix@.len(),
            1 <= i <= n,
            number_zero < i,
            forall|j: int| 1 <= j < n ==> matrix@[j] > -128,
            vec@.map_values(|it: ((usize, usize), i8)| item_view(it)) + run_length_items(
                matrix@.subrange(i as int, n as int),
                number_zero as nat,
            ) == run_length_items(matrix@.drop_first(), 0),
        decreases n - i,
    {
        let ghost rest = matrix@.subrange(i as int, n as int);
        let ghost before = vec@.map_values(|it: ((usize, usize), i8)| item_view(it));
        let ghost zeros_before = number_zero;
        assert(rest.drop_first() =~= matrix@.subrange(i + 1, n as int));
        if matrix[i] == 0 {
            number_zero += 1;
        } else {
            let mut value: i32 = matrix[i];
            if matrix[i] < 0 {
                value = -matrix[i];
            }
            let digits = binary_string((value % 256) as u8);
            let number_bit: usize = digits.as_str().unicode_len();
            let item = ((number_zero, number_bit), saturate_to_i8(matrix[i] as i64));
            vec.push(item);
            number_zero = 0;
            proof {
                assert(item_view(item) == ac_entry(zeros_before as nat, matrix@[i as int] as int));
                assert(vec@.map_values(|it: ((usize, usize), i8)| item_view(it)) =~= before.push(
                    item_view(item),
                ));
                assert(before.push(item_view(item)) + run_length_items(rest.drop_first(), 0)
                    =~= before + (seq![item_view(item)] + run_length_items(rest.drop_first(), 0)));
            }
        }
        i += 1;
    }
    let ghost run_items = run_length_items(matrix@.drop_first(), 0);
    proof {
        assert(matrix@.subrange(n as int, n as int) =~= Seq::<i32>::empty());
        assert(matrix@.drop_first() =~= matrix@.subrange(1, n as int));
        lemma_run_length_items(matrix@.drop_first(), 0);
    }
    let ghost before = vec@.map_values(|it: ((usize, usize), i8)| item_view(it));
    vec.push(((0, 0), 0));
    let ghost items = ac_items(matrix@);
    assert(vec@.map_values(|it: ((usize, usize), i8)| item_view(it)) =~= items);

    let mut binary_item = String::new();

    // DC coefficient
    let mut dc_current: i64 = matrix[0] as i64;
    if !first_block {
        dc_current = dc_current - previous_dc as i64;
    }
    let dc_digits = binary_string(saturate_to_u8(dc_current));
    let number_bit: usize = dc_digits.as_str().unicode_len();
    proof {
        lemma_bit_length_of_byte(saturate_u8(dc_current as int) as nat);
    }
    let category: i8 = number_bit as i8;
    match dc_huffman_luminance.get(&category) {
        Some(code) => binary_item.append(*code),
        None => {
            assert(false);
        },
    }
    append_value_bits(&mut binary_item, saturate_to_i8(dc_current));
    let ghost dc_bits = binary_item@;
    assert(dc_bits == dc_code(dc_difference(matrix@, previous_dc as int, first_block)));

    // AC coefficients
    let m: usize = vec.len();
    let mut k: usize = 0;
    while k < m
        invariant
            m == vec@.len(),
            k <= m,
            vec@.map_values(|it: ((usize, usize), i8)| item_view(it)) == items,
            items == run_items.push(end_of_block()),
            items_well_formed(run_items),
            table_ac_huffman@ == ac_luminance_codes(),
            binary_item@ == dc_bits + ac_codes(items.take(k as int)),
        decreases m - k,
    {
        let item = vec[k];
        assert(item_view(item) == items[k as int]);
        assert(items.len() == m);
        assert(items.take(k + 1).drop_last() =~= items.take(k as int));
        if k + 1 < m {
            assert(items[k as int] == run_items[k as int]);
            assert(1 <= run_items[k as int].1 <= 8);
        } else {
            assert(items[k as int] == end_of_block());
        }
        let code = if item.0.0 > 15 {
            table_ac_huffman.get(15, 0)
        } else {
            table_ac_huffman.get(item.0.0 as u8, item.0.1 as u8)
        };
        binary_item.append(code);
        if !(item.0.0 == 0 && item.0.1 == 0 && item.1 == 0) {
            append_value_bits(&mut binary_item, item.1);
        }
        k += 1;
    }
    assert(items.take(m as int) =~= items);
    binary_item
}

proof fn lemma_concat_bits(a: Seq<char>, b: Seq<char>)
    requires
        is_bit_string(a),
        is_bit_string(b),
    ensures
        is_bit_string(a + b),
{
    assert forall|i: int| 0 <= i < (a + b).len() implies ((a + b)[i] == '0' || (a + b)[i]
        == '1') by {
        if i >= a.len() {
            assert((a + b)[i] == b[i - a.len()]);
        }
    }
}

proof fn lemma_value_bits_are_bits(v: int)
    ensures
        is_bit_string(value_bits(v)),
{
    if v > 0 {
        lemma_binary_round_trip(v as nat);
    }
}

proof fn lemma_ac_codes_bits(items: Seq<(nat, nat, int)>)
    requires
        forall|k: int|
            0 <= k < items.len() ==> (#[trigger] items[k] == end_of_block() || 1 <= items[k].1
                <= 8),
    ensures
        is_bit_string(ac_codes(items)),
    decreases items.len(),
{
    if items.len() > 0 {
        let rest = items.drop_last();
        assert forall|k: int| 0 <= k < rest.len() implies (#[trigger] rest[k] == end_of_block()
            || 1 <= rest[k].1 <= 8) by {
            assert(rest[k] == items[k]);
        }
        lemma_ac_codes_bits(rest);
        let it = items.last();
        assert(items[items.len() - 1] == it);
        if it.0 > 15 {
            lemma_ac_codes_are_bits(15, 0);
        } else {
            assert(is_ac_symbol(it.0 as int, it.1 as int));
            lemma_ac_codes_are_bits(it.0 as int, it.1 as int);
        }
        lemma_value_bits_are_bits(it.2);
        let table_code = if it.0 > 15 {
            ac_luminance_codes()[(15u8, 0u8)]
        } else {
            ac_luminance_codes()[(it.0 as u8, it.1 as u8)]
        };
        let extra = if it == end_of_block() {
            Seq::<char>::empty()
        } else {
            value_bits(it.2)
        };
        lemma_concat_bits(table_code, extra);
        lemma_concat_bits(ac_codes(rest), ac_item_code(it));
    }
}

/// The bits of an encodable block are binary digits only.
pub proof fn lemma_block_bits_are_bits(coefficients: Seq<i32>, previous_dc: int, first_block: bool)
    requires
        encodable(coefficients, previous_dc, first_block),
    ensures
        is_bit_string(block_bits(coefficients, previous_dc, first_block)),
{
    let diff: int = dc_difference(coefficients, previous_dc, first_block);
    lemma_bit_length_of_byte(saturate_u8(diff) as nat);
    lemma_dc_codes_are_bits(bit_length(saturate_u8(diff) as nat) as i8);
    lemma_value_bits_are_bits(saturate_i8(diff));
    lemma_concat_bits(
        dc_luminance_codes()[bit_length(saturate_u8(diff) as nat) as i8]@,
        value_bits(saturate_i8(diff)),
    );
    let ac = coefficients.drop_first();
    assert forall|j: int| 0 <= j < ac.len() implies ac[j] > -128 by {
        assert(ac[j] == coefficients[j + 1]);
    }
    lemma_run_length_items(ac, 0);
    let run = run_length_items(ac, 0);
    let items = ac_items(coefficients);
    assert forall|k: int| 0 <= k < items.len() implies (#[trigger] items[k] == end_of_block() || 1
        <= items[k].1 <= 8) by {
        if k < run.len() {
            assert(items[k] == run[k]);
        }
    }
    lemma_ac_codes_bits(items);
    lemma_concat_bits(dc_code(diff), ac_codes(items));
}

/// The block encoder: splits images into 8x8 blocks and turns quantized
/// coefficient blocks into a bit stream.
pub struct Dct2Jpeg;

/// The DC value that precedes block `k` of `blocks` (0 before the first).
pub open spec fn previous_dc(blocks: Seq<[[i32; 8]; 8]>, k: int) -> int {
    if k == 0 {
        0
    } else {
        blocks[k - 1][0][0] as int
    }
}

/// A block of quantized coefficients can be coded when its coded DC value
/// and each of its AC coefficients is above -128.
pub open spec fn block_encodable(matrix: [[i32; 8]; 8], dc_previous: int, first_block: bool) -> bool {
    &&& (if first_block {
        matrix[0][0] as int
    } else {
        matrix[0][0] - dc_previous
    }) > -128
    &&& forall|r: int, c: int|
        0 <= r < 8 && 0 <= c < 8 && (r, c) != (0int, 0int) ==> #[trigger] matrix[r][c] > -128
}

/// The bits of one block of quantized coefficients in natural order.
pub open spec fn matrix_bits(matrix: [[i32; 8]; 8], dc_previous: int, first_block: bool) -> Seq<
    char,
> {
    block_bits(values_at(matrix, zig_zag_order()), dc_previous, first_block)
}

/// The bits of a sequence of blocks: each block coded in turn, the first
/// one with its DC value itself, every later one with the difference from
/// the DC value of the block before it.
pub open spec fn stream_bits(blocks: Seq<[[i32; 8]; 8]>) -> Seq<char>
    decreases blocks.len(),
{
    if blocks.len() == 0 {
        Seq::empty()
    } else {
        let k: int = blocks.len() - 1;
        stream_bits(blocks.drop_last()) + matrix_bits(blocks[k], previous_dc(blocks, k), k == 0)
    }
}

/// Every block of `blocks` can be coded after the one before it.
pub open spec fn stream_encodable(blocks: Seq<[[i32; 8]; 8]>) -> bool {
    forall|k: int|
        0 <= k < blocks.len() ==> block_encodable(#[trigger] blocks[k], previous_dc(blocks, k), k == 0)
}

proof fn lemma_zig_zag_encodable(matrix: [[i32; 8]; 8], dc_previous: int, first_block: bool)
    requires
        block_encodable(matrix, dc_previous, first_block),
    ensures
        encodable(values_at(matrix, zig_zag_order()), dc_previous, first_block),
{
    lemma_zig_zag_is_permutation();
    lemma_zig_zag_order_len();
    let order = zig_zag_order();
    let zz = values_at(matrix, order);
    assert forall|i: int| 1 <= i < zz.len() implies zz[i] > -128 by {
        assert(order[i] != order[0]);
        assert(in_block(order[i]));
        let r: int = order[i].0;
        let c: int = order[i].1;
        assert((r, c) != (0int, 0int));
        assert(matrix[r][c] > -128);
        assert(zz[i] == matrix[r][c]);
    }
    assert(zz[0] == matrix[0][0]);
}

/// The stream of encodable blocks is made of binary digits only.
pub proof fn lemma_stream_bits_are_bits(blocks: Seq<[[i32; 8]; 8]>)
    requires
        stream_encodable(blocks),
    ensures
        is_bit_string(stream_bits(blocks)),
    decreases blocks.len(),
{
    if blocks.len() > 0 {
        let k: int = blocks.len() - 1;
        let rest = blocks.drop_last();
        assert forall|j: int| 0 <= j < rest.len() implies block_encodable(
            #[trigger] rest[j],
            previous_dc(rest, j),
            j == 0,
        ) by {
            assert(rest[j] == blocks[j]);
            assert(block_encodable(blocks[j], previous_dc(blocks, j), j == 0));
        }
        lemma_stream_bits_are_bits(rest);
        assert(block_encodable(blocks[k], previous_dc(blocks, k), k == 0));
        lemma_zig_zag_encodable(blocks[k], previous_dc(blocks, k), k == 0);
        lemma_block_bits_are_bits(
            values_at(blocks[k], zig_zag_order()),
            previous_dc(blocks, k),
            k == 0,
        );
        lemma_concat_bits(
            stream_bits(rest),
            matrix_bits(blocks[k], previous_dc(blocks, k), k == 0),
        );
    }
}

/// The bits of a block are the bits of its coefficients read in zig-zag
/// order (the order of `zig_zag_matrix`, see `lemma_zig_zag_standard_order`).
pub proof fn lemma_matrix_bits_follow_zig_zag(
    matrix: [[i32; 8]; 8],
    dc_previous: int,
    first_block: bool,
)
    ensures
        matrix_bits(matrix, dc_previous, first_block) == block_bits(
            values_at(matrix, zig_zag_order()),
            dc_previous,
            first_block,
        ),
        values_at(matrix, zig_zag_order()).len() == 64,
        values_at(matrix, zig_zag_order())[0] == matrix[0][0],
        values_at(matrix, zig_zag_order())[1] == matrix[0][1],
        values_at(matrix, zig_zag_order())[2] == matrix[1][0],
        values_at(matrix, zig_zag_order())[3] == matrix[2][0],
        values_at(matrix, zig_zag_order())[63] == matrix[7][7],
{
    lemma_zig_zag_standard_order();
}

proof fn lemma_run_length_of_zeros(s: Seq<i32>, zeros: nat)
    requires
        forall|i: int| 0 <= i < s.len() ==> s[i] == 0,
    ensures
        run_length_items(s, zeros) == Seq::<(nat, nat, int)>::empty(),
    decreases s.len(),
{
    if s.len() > 0 {
        assert(s[0] == 0);
        lemma_run_length_of_zeros(s.drop_first(), zeros + 1);
    }
}

proof fn lemma_run_length_one_value(s: Seq<i32>, zeros: nat, r: int)
    requires
        0 <= r < s.len(),
        s[r] != 0,
        forall|i: int| 0 <= i < s.len() && i != r ==> s[i] == 0,
    ensures
        run_length_items(s, zeros) == seq![ac_entry((zeros + r) as nat, s[r] as int)],
    decreases r,
{
    let rest = s.drop_first();
    if r == 0 {
        assert forall|i: int| 0 <= i < rest.len() implies rest[i] == 0 by {
            assert(rest[i] == s[i + 1]);
        }
        lemma_run_length_of_zeros(rest, 0);
        assert(seq![ac_entry(zeros, s[0] as int)] + Seq::<(nat, nat, int)>::empty() =~= seq![
            ac_entry(zeros, s[0] as int),
        ]);
    } else {
        assert(s[0] == 0);
        assert(rest[r - 1] == s[r]);
        assert forall|i: int| 0 <= i < rest.len() && i != r - 1 implies rest[i] == 0 by {
            assert(rest[i] == s[i + 1]);
        }
        lemma_run_length_one_value(rest, zeros + 1, r - 1);
    }
}

/// A block whose only nonzero AC coefficient `v` follows `r` zeros is coded
/// as its DC code, then the table code of (r, category of v) when r is at
/// most 15, or the code of (15, 0) when the run is longer, then the value
/// bits of v, then the end-of-block code "1010".
pub proof fn lemma_single_ac_coefficient_block(
    coefficients: Seq<i32>,
    previous_dc: int,
    first_block: bool,
    r: int,
)
    requires
        0 <= r,
        r + 1 < coefficients.len(),
        coefficients[r + 1] != 0,
        forall|i: int| 1 <= i < coefficients.len() && i != r + 1 ==> coefficients[i] == 0,
    ensures
        block_bits(coefficients, previous_dc, first_block) == dc_code(
            dc_difference(coefficients, previous_dc, first_block),
        ) + (if r <= 15 {
            ac_luminance_codes()[(
                r as u8,
                bit_length((abs(coefficients[r + 1] as int) % 256) as nat) as u8,
            )]
        } else {
            ac_luminance_codes()[(15u8, 0u8)]
        }) + value_bits(saturate_i8(coefficients[r + 1] as int)) + "1010"@,
{
    let ac = coefficients.drop_first();
    let v = coefficients[r + 1] as int;
    assert(ac[r] == coefficients[r + 1]);
    assert forall|i: int| 0 <= i < ac.len() && i != r implies ac[i] == 0 by {
        assert(ac[i] == coefficients[i + 1]);
    }
    lemma_run_length_one_value(ac, 0, r);
    lemma_ac_luminance_standard();
    lemma_bit_length_of_byte((abs(v) % 256) as nat);
    let entry = ac_entry(r as nat, v);
    let items = ac_items(coefficients);
    assert(items =~= seq![entry, end_of_block()]);
    assert(items.drop_last() =~= seq![entry]);
    assert(seq![entry].drop_last() =~= Seq::<(nat, nat, int)>::empty());
    assert(seq![entry].last() == entry);
    assert(ac_codes(Seq::<(nat, nat, int)>::empty()) == Seq::<char>::empty());
    assert(ac_codes(seq![entry]) == ac_codes(seq![entry].drop_last()) + ac_item_code(entry));
    assert(ac_codes(seq![entry]) == Seq::<char>::empty() + ac_item_code(entry));
    assert(Seq::<char>::empty() + ac_item_code(entry) =~= ac_item_code(entry));
    assert(ac_item_code(end_of_block()) =~= "1010"@);
    let table_code = if r <= 15 {
        ac_luminance_codes()[(r as u8, bit_length((abs(v) % 256) as nat) as u8)]
    } else {
        ac_luminance_codes()[(15u8, 0u8)]
    };
    assert(ac_item_code(entry) == table_code + value_bits(saturate_i8(v)));
    let d = dc_code(dc_difference(coefficients, previous_dc, first_block));
    assert(d + (table_code + value_bits(saturate_i8(v)) + "1010"@) =~= d + table_code + value_bits(
        saturate_i8(v),
    ) + "1010"@);
}

/// The value bits of a value in -127 ..= 127: a positive value is written
/// in base 2 (leading digit '1'), a negative one as the one's complement of
/// its magnitude (leading digit '0', digits adding up with the magnitude's
/// to all ones), and zero as the single digit '1'; either way there are as
/// many bits as the magnitude has binary digits.
pub proof fn lemma_value_bits_meaning(v: int)
    requires
        -127 <= v <= 127,
    ensures
        value_bits(v).len() == bit_length(abs(v) as nat),
        v > 0 ==> value_bits(v)[0] == '1' && binary_value(value_bits(v)) == v,
        v < 0 ==> value_bits(v)[0] == '0' && binary_value(value_bits(v)) - v + 1 == doubling(
            value_bits(v).len(),
        ),
        v == 0 ==> value_bits(v) == seq!['1'],
{
    if v > 0 {
        lemma_binary_round_trip(v as nat);
        lemma_binary_leading_one(v as nat);
    } else if v < 0 {
        let b = binary_of((-v) as nat);
        lemma_binary_round_trip((-v) as nat);
        lemma_binary_leading_one((-v) as nat);
        lemma_complement_value(b);
    } else {
        assert(value_bits(0) =~= seq!['1']);
    }
}

/// How the DC value of a block is coded: a difference in 1 ..= 127 as the
/// DC code of its number of binary digits followed by those digits; a
/// larger one with the category of its value saturated at 255 and the
/// digits of 127; one that is not positive (down to -127) as the category-1
/// code "010" followed by the complemented digits of its magnitude.
pub proof fn lemma_dc_code_cases(diff: int)
    requires
        diff >= -127,
    ensures
        1 <= diff <= 127 ==> dc_code(diff) == dc_luminance_codes()[bit_length(diff as nat) as i8]@
            + binary_of(diff as nat),
        diff > 127 ==> dc_code(diff) == dc_luminance_codes()[bit_length(
            if diff > 255 {
                255nat
            } else {
                diff as nat
            },
        ) as i8]@ + binary_of(127),
        diff <= 0 ==> dc_code(diff) == "010"@ + complement(binary_of((-diff) as nat)),
{
    lemma_dc_luminance_standard();
    if diff <= 0 {
        assert(binary_of(0) == seq!['0']);
        assert(bit_length(0) == 1);
    }
}

/// `run` zeros followed by `value`.
pub open spec fn zeros_then(run: nat, value: int) -> Seq<int> {
    Seq::new(run, |i: int| 0int).push(value)
}

/// The coefficients that a sequence of AC entries stands for: each entry
/// gives its run of zeros and then its value.
pub open spec fn expand_items(items: Seq<(nat, nat, int)>) -> Seq<int>
    decreases items.len(),
{
    if items.len() == 0 {
        Seq::empty()
    } else {
        expand_items(items.drop_last()) + zeros_then(items.last().0, items.last().2)
    }
}

proof fn lemma_expand_prepend(x: (nat, nat, int), rest: Seq<(nat, nat, int)>)
    ensures
        expand_items(seq![x] + rest) == zeros_then(x.0, x.2) + expand_items(rest),
    decreases rest.len(),
{
    if rest.len() == 0 {
        assert(seq![x] + rest =~= seq![x]);
        assert(seq![x].drop_last() =~= Seq::<(nat, nat, int)>::empty());
        assert(seq![x].last() == x);
        assert(expand_items(Seq::<(nat, nat, int)>::empty()) == Seq::<int>::empty());
        assert(expand_items(seq![x]) == expand_items(seq![x].drop_last()) + zeros_then(x.0, x.2));
        assert(zeros_then(x.0, x.2) + Seq::<int>::empty() =~= zeros_then(x.0, x.2));
        assert(Seq::<int>::empty() + zeros_then(x.0, x.2) =~= zeros_then(x.0, x.2));
    } else {
        let all = seq![x] + rest;
        assert(all.drop_last() =~= seq![x] + rest.drop_last());
        assert(all.last() == rest.last());
        lemma_expand_prepend(x, rest.drop_last());
        assert(expand_items(all) == expand_items(all.drop_last()) + zeros_then(
            all.last().0,
            all.last().2,
        ));
        assert(expand_items(rest) == expand_items(rest.drop_last()) + zeros_then(
            rest.last().0,
            rest.last().2,
        ));
        assert(zeros_then(x.0, x.2) + expand_items(rest.drop_last()) + zeros_then(
            rest.last().0,
            rest.last().2,
        ) =~= zeros_then(x.0, x.2) + (expand_items(rest.drop_last()) + zeros_then(
            rest.last().0,
            rest.last().2,
        )));
    }
}

/// `zeros` zeros followed by `ac`, as integers.
spec fn padded(ac: Seq<i32>, zeros: nat) -> Seq<int> {
    Seq::new(zeros + ac.len(), |i: int| if i < zeros { 0int } else { ac[i - zeros] as int })
}

proof fn lemma_run_length_expands(ac: Seq<i32>, zeros: nat)
    requires
        forall|i: int| 0 <= i < ac.len() ==> -127 <= #[trigger] ac[i] <= 127,
    ensures
        expand_items(run_length_items(ac, zeros)).len() <= zeros + ac.len(),
        forall|i: int|
            0 <= i < expand_items(run_length_items(ac, zeros)).len() ==> #[trigger] expand_items(
                run_length_items(ac, zeros),
            )[i] == padded(ac, zeros)[i],
        forall|i: int|
            expand_items(run_length_items(ac, zeros)).len() <= i < zeros + ac.len()
                ==> #[trigger] padded(ac, zeros)[i] == 0,
    decreases ac.len(),
{
    let rest = ac.drop_first();
    if ac.len() == 0 {
    } else if ac[0] == 0 {
        lemma_run_length_expands(rest, zeros + 1);
        assert(padded(rest, zeros + 1) =~= padded(ac, zeros));
    } else {
        lemma_run_length_expands(rest, 0);
        let x = ac_entry(zeros, ac[0] as int);
        lemma_expand_prepend(x, run_length_items(rest, 0));
        let e = expand_items(run_length_items(ac, zeros));
        let er = expand_items(run_length_items(rest, 0));
        assert(e == zeros_then(zeros, ac[0] as int) + er);
        assert(x.2 == ac[0] as int);
        assert forall|i: int| 0 <= i < e.len() implies #[trigger] e[i] == padded(ac, zeros)[i] by {
            if i > zeros {
                assert(e[i] == er[i - zeros - 1]);
                assert(padded(rest, 0)[i - zeros - 1] == rest[i - zeros - 1]);
            }
        }
        assert forall|i: int| e.len() <= i < zeros + ac.len() implies #[trigger] padded(
            ac,
            zeros,
        )[i] == 0 by {
            assert(padded(rest, 0)[i - zeros - 1] == 0);
        }
    }
}

/// Run-length coding loses nothing: expanding the AC entries of a block
/// (each entry's run of zeros, then its value) gives back its AC
/// coefficients up to the last nonzero one, and all that follows is zero.
pub proof fn lemma_ac_items_expand_to_coefficients(coefficients: Seq<i32>)
    requires
        coefficients.len() >= 1,
        forall|i: int| 1 <= i < coefficients.len() ==> -127 <= #[trigger] coefficients[i] <= 127,
    ensures
        ac_items(coefficients).last() == end_of_block(),
        expand_items(ac_items(coefficients).drop_last()).len() < coefficients.len(),
        forall|i: int|
            0 <= i < expand_items(ac_items(coefficients).drop_last()).len() ==> #[trigger] expand_items(
                ac_items(coefficients).drop_last(),
            )[i] == coefficients[i + 1],
        forall|i: int|
            expand_items(ac_items(coefficients).drop_last()).len() < i < coefficients.len()
                ==> #[trigger] coefficients[i] == 0,
{
    let ac = coefficients.drop_first();
    assert forall|i: int| 0 <= i < ac.len() implies -127 <= #[trigger] ac[i] <= 127 by {
        assert(ac[i] == coefficients[i + 1]);
    }
    lemma_run_length_expands(ac, 0);
    let items = ac_items(coefficients);
    assert(items.drop_last() =~= run_length_items(ac, 0));
    let e = expand_items(run_length_items(ac, 0));
    assert forall|i: int| 0 <= i < e.len() implies #[trigger] e[i] == coefficients[i + 1] by {
        assert(padded(ac, 0)[i] == ac[i]);
    }
    assert forall|i: int| e.len() < i < coefficients.len() implies #[trigger] coefficients[i] == 0 by {
        assert(padded(ac, 0)[i - 1] == 0);
        assert(padded(ac, 0)[i - 1] == ac[i - 1]);
    }
}

/// A block's bits start with the code of its DC value, which is the first
/// coefficient itself in the first block and its difference from the
/// previous DC value otherwise; the AC entries that follow end with the
/// end-of-block entry, whose code is "1010".
pub proof fn lemma_block_bits_structure(coefficients: Seq<i32>, previous_dc: int, first_block: bool)
    ensures
        block_bits(coefficients, previous_dc, first_block) == dc_code(
            if first_block {
                coefficients[0] as int
            } else {
                coefficients[0] - previous_dc
            },
        ) + ac_codes(ac_items(coefficients)),
        ac_items(coefficients).last() == (0nat, 0nat, 0int),
        ac_item_code((0nat, 0nat, 0int)) == "1010"@,
{
    lemma_ac_luminance_standard();
    assert(ac_item_code((0nat, 0nat, 0int)) =~= "1010"@);
}

/// The stream of blocks is built block by block: the first block is coded
/// on its own and every later one against the DC coefficient of the block
/// just before it.
pub proof fn lemma_stream_bits_chain(blocks: Seq<[[i32; 8]; 8]>)
    ensures
        blocks.len() == 0 ==> stream_bits(blocks) == Seq::<char>::empty(),
        blocks.len() == 1 ==> stream_bits(blocks) == block_bits(
            values_at(blocks[0], zig_zag_order()),
            0,
            true,
        ),
        blocks.len() >= 2 ==> stream_bits(blocks) == stream_bits(blocks.drop_last()) + block_bits(
            values_at(blocks[blocks.len() - 1], zig_zag_order()),
            blocks[blocks.len() - 2][0][0] as int,
            false,
        ),
{
    if blocks.len() == 1 {
        assert(blocks.drop_last() =~= Seq::<[[i32; 8]; 8]>::empty());
        assert(stream_bits(Seq::<[[i32; 8]; 8]>::empty()) == Seq::<char>::empty());
        let b = block_bits(values_at(blocks[0], zig_zag_order()), 0, true);
        assert(Seq::<char>::empty() + b =~= b);
    }
}

impl Dct2Jpeg {
    /// Codes one 8x8 block of quantized DCT coefficients: reads it in
    /// zig-zag order and codes that sequence; returns the bits and the DC
    /// coefficient, which the next block is coded against.
    pub fn transform_binary(matrix: [[i32; 8]; 8], first_block: bool, dc_previous: i32) -> (result: (
        String,
        i32,
    ))
        requires
            block_encodable(matrix, dc_previous as int, first_block),
        ensures
            result.0@ == matrix_bits(matrix, dc_previous as int, first_block),
            result.0@ == block_bits(
                values_at(matrix, zig_zag_order()),
                dc_previous as int,
                first_block,
            ),
            result.1 == matrix[0][0],
    {
        let zig_zag_arr = zig_zag_matrix(matrix);
        proof {
            lemma_zig_zag_encodable(matrix, dc_previous as int, first_block);
        }
        let binary = get_binary_stream_from_zig_zag_array(&zig_zag_arr, dc_previous, first_block);
        let dc: i32 = zig_zag_arr[0];
        (binary, dc)
    }

    /// Codes a sequence of quantized coefficient blocks into one bit
    /// stream, chaining the DC value of each block to the next.
    pub fn forward(images_block: &Vec<[[i32; 8]; 8]>) -> (stream_binary: String)
        requires
            stream_encodable(images_block@),
        ensures
            stream_binary@ == stream_bits(images_block@),
    {
        let mut dc_previous: i32 = 0;
        let mut stream_binary = String::new();
        let n: usize = images_block.len();
        let mut index: usize = 0;
        while index < n
            invariant
                n == images_block@.len(),
                index <= n,
                stream_encodable(images_block@),
                dc_previous as int == previous_dc(images_block@, index as int),
                stream_binary@ == stream_bits(images_block@.take(index as int)),
            decreases n - index,
        {
            let first_block = index == 0;
            assert(block_encodable(images_block@[index as int], previous_dc(images_block@, index as int), index == 0));
            let (binary, dc_previous_func) = Self::transform_binary(
                images_block[index],
                first_block,
                dc_previous,
            );
            dc_previous = dc_previous_func;
            stream_binary.append(binary.as_str());
            proof {
                let next = images_block@.take(index + 1);
                assert(next.drop_last() =~= images_block@.take(index as int));
                assert(previous_dc(next, index as int) == previous_dc(images_block@, index as int));
            }
            index += 1;
        }
        assert(images_block@.take(n as int) =~= images_block@);
        stream_binary
    }
}

} // verus!
