use std::collections::HashMap;
use vstd::prelude::*;

use crate::binary::is_bit_string;

verus! {

broadcast use vstd::std_specs::hash::group_hash_axioms;

/// The key under which the code of the pair (`a`, `b`) is stored.
pub open spec fn table_key(a: u8, b: u8) -> u16 {
    (a * 256 + b) as u16
}

/// A Huffman code table for AC coefficients, indexed by the pair
/// (run of zeros, magnitude category).
pub struct TableACHuffman {
    map: HashMap<u16, &'static str>,
}

impl View for TableACHuffman {
    type V = Map<(u8, u8), Seq<char>>;

    closed spec fn view(&self) -> Map<(u8, u8), Seq<char>> {
        Map::new(
            |k: (u8, u8)| self.map@.contains_key(table_key(k.0, k.1)),
            |k: (u8, u8)| self.map@[table_key(k.0, k.1)]@,
        )
    }
}

proof fn lemma_table_key_injective(a: u8, b: u8, c: u8, d: u8)
    ensures
        table_key(a, b) == table_key(c, d) <==> (a == c && b == d),
{
}

impl TableACHuffman {
    /// An empty table.
    pub fn new() -> (table: Self)
        ensures
            table@ == Map::<(u8, u8), Seq<char>>::empty(),
    {
        let table = TableACHuffman { map: HashMap::new() };
        assert(table@ =~= Map::<(u8, u8), Seq<char>>::empty());
        table
    }

    /// The code stored for (`a`, `b`); the pair must be in the table.
    pub fn get(&self, a: u8, b: u8) -> (code: &'static str)
        requires
            self@.contains_key((a, b)),
        ensures
            code@ == self@[(a, b)],
    {
        let key: u16 = (a as u16) * 256 + (b as u16);
        match self.map.get(&key) {
            Some(code) => *code,
            None => {
                assert(false);
                ""
            },
        }
    }

    /// Stores `v` as the code of (`a`, `b`), replacing any earlier one.
    pub fn set(&mut self, a: u8, b: u8, v: &'static str)
        ensures
            final(self)@ == old(self)@.insert((a, b), v@),
    {
        let key: u16 = (a as u16) * 256 + (b as u16);
        self.map.insert(key, v);
        proof {
            assert forall|k: (u8, u8)| true implies (table_key(k.0, k.1) == key <==> k == (a, b)) by {
                lemma_table_key_injective(k.0, k.1, a, b);
            }
            assert(self@ =~= old(self)@.insert((a, b), v@));
        }
    }
}

/// A pair (run of zeros, magnitude category) that the AC table codes: the
/// end-of-block symbol (0, 0), the categories 1 to 10 after 0 to 15 zeros,
/// and (15, 0), the code for a run of more than fifteen zeros.
pub open spec fn is_ac_symbol(run: int, size: int) -> bool {
    ||| run == 0 && 0 <= size <= 10
    ||| 1 <= run <= 15 && 1 <= size <= 10
    ||| run == 15 && size == 0
}

/// The AC luminance Huffman codes of baseline JPEG (Annex K, table K.5),
/// laid out as rows indexed by run of zeros and columns indexed by magnitude
/// category; the cells that code no symbol hold the empty string.
pub open spec fn ac_luminance_rows() -> [[&'static str; 11]; 16] {
    [
        ["1010", "00", "01", "100", "1011", "11010", "1111000", "11111000", "1111110110", "1111111110000010", "1111111110000011"],
        ["", "1100", "11011", "1111001", "111110110", "11111110110", "1111111110000100", "1111111110000101", "1111111110000110", "1111111110000111", "1111111110001000"],
        ["", "11100", "11111001", "1111110111", "111111110100", "1111111110001001", "1111111110001010", "1111111110001011", "1111111110001100", "1111111110001101", "1111111110001110"],
        ["", "111010", "111110111", "111111110101", "1111111110001111", "1111111110010000", "1111111110010001", "1111111110010010", "1111111110010011", "1111111110010100", "1111111110010101"],
        ["", "111011", "1111111000", "1111111110010110", "1111111110010111", "1111111110011000", "1111111110011001", "1111111110011010", "1111111110011011", "1111111110011100", "1111111110011101"],
        ["", "1111010", "11111110111", "1111111110011110", "1111111110011111", "1111111110100000", "1111111110100001", "1111111110100010", "1111111110100011", "1111111110100100", "1111111110100101"],
        ["", "1111011", "111111110110", "1111111110100110", "1111111110100111", "1111111110101000", "1111111110101001", "1111111110101010", "1111111110101011", "1111111110101100", "1111111110101101"],
        ["", "11111010", "111111110111", "1111111110101110", "1111111110101111", "1111111110110000", "1111111110110001", "1111111110110010", "1111111110110011", "1111111110110100", "1111111110110101"],
        ["", "111111000", "111111111000000", "1111111110110110", "1111111110110111", "1111111110111000", "1111111110111001", "1111111110111010", "1111111110111011", "1111111110111100", "1111111110111101"],
        ["", "111111001", "1111111110111110", "1111111110111111", "1111111111000000", "1111111111000001", "1111111111000010", "1111111111000011", "1111111111000100", "1111111111000101", "1111111111000110"],
        ["", "111111010", "1111111111000111", "1111111111001000", "1111111111001001", "1111111111001010", "1111111111001011", "1111111111001100", "1111111111001101", "1111111111001110", "1111111111001111"],
        ["", "1111111001", "1111111111010000", "1111111111010001", "1111111111010010", "1111111111010011", "1111111111010100", "1111111111010101", "1111111111010110", "1111111111010111", "1111111111011000"],
        ["", "1111111010", "1111111111011001", "1111111111011010", "1111111111011011", "1111111111011100", "1111111111011101", "1111111111011110", "1111111111011111", "1111111111100000", "1111111111100001"],
        ["", "11111111000", "1111111111100010", "1111111111100011", "1111111111100100", "1111111111100101", "1111111111100110", "1111111111100111", "1111111111101000", "1111111111101001", "1111111111101010"],
        ["", "1111111111101011", "1111111111101100", "1111111111101101", "1111111111101110", "1111111111101111", "1111111111110000", "1111111111110001", "1111111111110010", "1111111111110011", "1111111111110100"],
        ["11111111001", "1111111111110101", "1111111111110110", "1111111111110111", "1111111111111000", "1111111111111001", "1111111111111010", "1111111111111011", "1111111111111100", "1111111111111101", "1111111111111110"],
    ]
}

/// The AC luminance table as a map from (run, category) to code.
pub open spec fn ac_luminance_codes() -> Map<(u8, u8), Seq<char>> {
    Map::new(
        |k: (u8, u8)| is_ac_symbol(k.0 as int, k.1 as int),
        |k: (u8, u8)| ac_luminance_rows()[k.0 as int][k.1 as int]@,
    )
}

/// The DC luminance Huffman codes of baseline JPEG (Annex K, table K.3),
/// indexed by magnitude category.
pub open spec fn dc_luminance_codes() -> Map<i8, &'static str> {
    map![
        0i8 => "00",
        1i8 => "010",
        2i8 => "011",
        3i8 => "100",
        4i8 => "101",
        5i8 => "110",
        6i8 => "1110",
        7i8 => "11110",
        8i8 => "111110",
        9i8 => "1111110",
        10i8 => "11111110",
        11i8 => "111111110",
    ]
}

/// Builds the AC luminance table.
pub fn ac_luminance_table() -> (table: TableACHuffman)
    ensures
        table@ == ac_luminance_codes(),
{
    let rows: [[&'static str; 11]; 16] = [
        ["1010", "00", "01", "100", "1011", "11010", "1111000", "11111000", "1111110110", "1111111110000010", "1111111110000011"],
        ["", "1100", "11011", "1111001", "111110110", "11111110110", "1111111110000100", "1111111110000101", "1111111110000110", "1111111110000111", "1111111110001000"],
        ["", "11100", "11111001", "1111110111", "111111110100", "1111111110001001", "1111111110001010", "1111111110001011", "1111111110001100", "1111111110001101", "1111111110001110"],
        ["", "111010", "111110111", "111111110101", "1111111110001111", "1111111110010000", "1111111110010001", "1111111110010010", "1111111110010011", "1111111110010100", "1111111110010101"],
        ["", "111011", "1111111000", "1111111110010110", "1111111110010111", "1111111110011000", "1111111110011001", "1111111110011010", "1111111110011011", "1111111110011100", "1111111110011101"],
        ["", "1111010", "11111110111", "1111111110011110", "1111111110011111", "1111111110100000", "1111111110100001", "1111111110100010", "1111111110100011", "1111111110100100", "1111111110100101"],
        ["", "1111011", "111111110110", "1111111110100110", "1111111110100111", "1111111110101000", "1111111110101001", "1111111110101010", "1111111110101011", "1111111110101100", "1111111110101101"],
        ["", "11111010", "111111110111", "1111111110101110", "1111111110101111", "1111111110110000", "1111111110110001", "1111111110110010", "1111111110110011", "1111111110110100", "1111111110110101"],
        ["", "111111000", "111111111000000", "1111111110110110", "1111111110110111", "1111111110111000", "1111111110111001", "1111111110111010", "1111111110111011", "1111111110111100", "1111111110111101"],
        ["", "111111001", "1111111110111110", "1111111110111111", "1111111111000000", "1111111111000001", "1111111111000010", "1111111111000011", "1111111111000100", "1111111111000101", "1111111111000110"],
        ["", "111111010", "1111111111000111", "1111111111001000", "1111111111001001", "1111111111001010", "1111111111001011", "1111111111001100", "1111111111001101", "1111111111001110", "1111111111001111"],
        ["", "1111111001", "1111111111010000", "1111111111010001", "1111111111010010", "1111111111010011", "1111111111010100", "1111111111010101", "1111111111010110", "1111111111010111", "1111111111011000"],
        ["", "1111111010", "1111111111011001", "1111111111011010", "1111111111011011", "1111111111011100", "1111111111011101", "1111111111011110", "1111111111011111", "1111111111100000", "1111111111100001"],
        ["", "11111111000", "1111111111100010", "1111111111100011", "1111111111100100", "1111111111100101", "1111111111100110", "1111111111100111", "1111111111101000", "1111111111101001", "1111111111101010"],
        ["", "1111111111101011", "1111111111101100", "1111111111101101", "1111111111101110", "1111111111101111", "1111111111110000", "1111111111110001", "1111111111110010", "1111111111110011", "1111111111110100"],
        ["11111111001", "1111111111110101", "1111111111110110", "1111111111110111", "1111111111111000", "1111111111111001", "1111111111111010", "1111111111111011", "1111111111111100", "1111111111111101", "1111111111111110"],
    ];
    let mut table = TableACHuffman::new();
    let mut run: u8 = 0;
    while run < 16
        invariant
            run <= 16,
            rows == ac_luminance_rows(),
            table@ == Map::new(
                |k: (u8, u8)| is_ac_symbol(k.0 as int, k.1 as int) && k.0 < run,
                |k: (u8, u8)| ac_luminance_rows()[k.0 as int][k.1 as int]@,
            ),
        decreases 16 - run,
    {
        let mut size: u8 = 0;
        while size < 11
            invariant
                run < 16,
                size <= 11,
                rows == ac_luminance_rows(),
                table@ == Map::new(
                    |k: (u8, u8)|
                        is_ac_symbol(k.0 as int, k.1 as int) && (k.0 < run || (k.0 == run && k.1
                            < size)),
                    |k: (u8, u8)| ac_luminance_rows()[k.0 as int][k.1 as int]@,
                ),
            decreases 11 - size,
        {
            let ghost before = table@;
            if (run == 0 && size <= 10) || (1 <= run && run <= 15 && 1 <= size && size <= 10) || (
            run == 15 && size == 0) {
                table.set(run, size, rows[run as usize][size as usize]);
            }
            size = size + 1;
            assert(table@ =~= Map::new(
                |k: (u8, u8)|
                    is_ac_symbol(k.0 as int, k.1 as int) && (k.0 < run || (k.0 == run && k.1
                        < size)),
                |k: (u8, u8)| ac_luminance_rows()[k.0 as int][k.1 as int]@,
            ));
        }
        run = run + 1;
        assert(table@ =~= Map::new(
            |k: (u8, u8)| is_ac_symbol(k.0 as int, k.1 as int) && k.0 < run,
            |k: (u8, u8)| ac_luminance_rows()[k.0 as int][k.1 as int]@,
        ));
    }
    assert(table@ =~= ac_luminance_codes());
    table
}

/// Builds the DC luminance table.
pub fn dc_luminance_table() -> (table: HashMap<i8, &'static str>)
    ensures
        table@ == dc_luminance_codes(),
{
    let mut dc_huffman_luminance: HashMap<i8, &'static str> = HashMap::new();
    dc_huffman_luminance.insert(0, "00");
    dc_huffman_luminance.insert(1, "010");
    dc_huffman_luminance.insert(2, "011");
    dc_huffman_luminance.insert(3, "100");
    dc_huffman_luminance.insert(4, "101");
    dc_huffman_luminance.insert(5, "110");
    dc_huffman_luminance.insert(6, "1110");
    dc_huffman_luminance.insert(7, "11110");
    dc_huffman_luminance.insert(8, "111110");
    dc_huffman_luminance.insert(9, "1111110");
    dc_huffman_luminance.insert(10, "11111110");
    dc_huffman_luminance.insert(11, "111111110");
    dc_huffman_luminance
}

proof fn lemma_ac_run_0_bits(size: int)
    requires
        is_ac_symbol(0, size),
    ensures
        is_bit_string(ac_luminance_rows()[0][size]@),
{
    if size == 0 {
        reveal_strlit("1010");
    } else if size == 1 {
        reveal_strlit("00");
    } else if size == 2 {
        reveal_strlit("01");
    } else if size == 3 {
        reveal_strlit("100");
    } else if size == 4 {
        reveal_strlit("1011");
    } else if size == 5 {
        reveal_strlit("11010");
    } else if size == 6 {
        reveal_strlit("1111000");
    } else if size == 7 {
        reveal_strlit("11111000");
    } else if size == 8 {
        reveal_strlit("1111110110");
    } else if size == 9 {
        reveal_strlit("1111111110000010");
    } else if size == 10 {
        reveal_strlit("1111111110000011");
    }
}

proof fn lemma_ac_run_1_bits(size: int)
    requires
        is_ac_symbol(1, size),
    ensures
        is_bit_string(ac_luminance_rows()[1][size]@),
{
    if size == 1 {
        reveal_strlit("1100");
    } else if size == 2 {
        reveal_strlit("11011");
    } else if size == 3 {
        reveal_strlit("1111001");
    } else if size == 4 {
        reveal_strlit("111110110");
    } else if size == 5 {
        reveal_strlit("11111110110");
    } else if size == 6 {
        reveal_strlit("1111111110000100");
    } else if size == 7 {
        reveal_strlit("1111111110000101");
    } else if size == 8 {
        reveal_strlit("1111111110000110");
    } else if size == 9 {
        reveal_strlit("1111111110000111");
    } else if size == 10 {
        reveal_strlit("1111111110001000");
    }
}

proof fn lemma_ac_run_2_bits(size: int)
    requires
        is_ac_symbol(2, size),
    ensures
        is_bit_string(ac_luminance_rows()[2][size]@),
{
    if size == 1 {
        reveal_strlit("11100");
    } else if size == 2 {
        reveal_strlit("11111001");
    } else if size == 3 {
        reveal_strlit("1111110111");
    } else if size == 4 {
        reveal_strlit("111111110100");
    } else if size == 5 {
        reveal_strlit("1111111110001001");
    } else if size == 6 {
        reveal_strlit("1111111110001010");
    } else if size == 7 {
        reveal_strlit("1111111110001011");
    } else if size == 8 {
        reveal_strlit("1111111110001100");
    } else if size == 9 {
        reveal_strlit("1111111110001101");
    } else if size == 10 {
        reveal_strlit("1111111110001110");
    }
}

proof fn lemma_ac_run_3_bits(size: int)
    requires
        is_ac_symbol(3, size),
    ensures
        is_bit_string(ac_luminance_rows()[3][size]@),
{
    if size == 1 {
        reveal_strlit("111010");
    } else if size == 2 {
        reveal_strlit("111110111");
    } else if size == 3 {
        reveal_strlit("111111110101");
    } else if size == 4 {
        reveal_strlit("1111111110001111");
    } else if size == 5 {
        reveal_strlit("1111111110010000");
    } else if size == 6 {
        reveal_strlit("1111111110010001");
    } else if size == 7 {
        reveal_strlit("1111111110010010");
    } else if size == 8 {
        reveal_strlit("1111111110010011");
    } else if size == 9 {
        reveal_strlit("1111111110010100");
    } else if size == 10 {
        reveal_strlit("1111111110010101");
    }
}

proof fn lemma_ac_run_4_bits(size: int)
    requires
        is_ac_symbol(4, size),
    ensures
        is_bit_string(ac_luminance_rows()[4][size]@),
{
    if size == 1 {
        reveal_strlit("111011");
    } else if size == 2 {
        reveal_strlit("1111111000");
    } else if size == 3 {
        reveal_strlit("1111111110010110");
    } else if size == 4 {
        reveal_strlit("1111111110010111");
    } else if size == 5 {
        reveal_strlit("1111111110011000");
    } else if size == 6 {
        reveal_strlit("1111111110011001");
    } else if size == 7 {
        reveal_strlit("1111111110011010");
    } else if size == 8 {
        reveal_strlit("1111111110011011");
    } else if size == 9 {
        reveal_strlit("1111111110011100");
    } else if size == 10 {
        reveal_strlit("1111111110011101");
    }
}

proof fn lemma_ac_run_5_bits(size: int)
    requires
        is_ac_symbol(5, size),
    ensures
        is_bit_string(ac_luminance_rows()[5][size]@),
{
    if size == 1 {
        reveal_strlit("1111010");
    } else if size == 2 {
        reveal_strlit("11111110111");
    } else if size == 3 {
        reveal_strlit("1111111110011110");
    } else if size == 4 {
        reveal_strlit("1111111110011111");
    } else if size == 5 {
        reveal_strlit("1111111110100000");
    } else if size == 6 {
        reveal_strlit("1111111110100001");
    } else if size == 7 {
        reveal_strlit("1111111110100010");
    } else if size == 8 {
        reveal_strlit("1111111110100011");
    } else if size == 9 {
        reveal_strlit("1111111110100100");
    } else if size == 10 {
        reveal_strlit("1111111110100101");
    }
}

proof fn lemma_ac_run_6_bits(size: int)
    requires
        is_ac_symbol(6, size),
    ensures
        is_bit_string(ac_luminance_rows()[6][size]@),
{
    if size == 1 {
        reveal_strlit("1111011");
    } else if size == 2 {
        reveal_strlit("111111110110");
    } else if size == 3 {
        reveal_strlit("1111111110100110");
    } else if size == 4 {
        reveal_strlit("1111111110100111");
    } else if size == 5 {
        reveal_strlit("1111111110101000");
    } else if size == 6 {
        reveal_strlit("1111111110101001");
    } else if size == 7 {
        reveal_strlit("1111111110101010");
    } else if size == 8 {
        reveal_strlit("1111111110101011");
    } else if size == 9 {
        reveal_strlit("1111111110101100");
    } else if size == 10 {
        reveal_strlit("1111111110101101");
    }
}

proof fn lemma_ac_run_7_bits(size: int)
    requires
        is_ac_symbol(7, size),
    ensures
        is_bit_string(ac_luminance_rows()[7][size]@),
{
    if size == 1 {
        reveal_strlit("11111010");
    } else if size == 2 {
        reveal_strlit("111111110111");
    } else if size == 3 {
        reveal_strlit("1111111110101110");
    } else if size == 4 {
        reveal_strlit("1111111110101111");
    } else if size == 5 {
        reveal_strlit("1111111110110000");
    } else if size == 6 {
        reveal_strlit("1111111110110001");
    } else if size == 7 {
        reveal_strlit("1111111110110010");
    } else if size == 8 {
        reveal_strlit("1111111110110011");
    } else if size == 9 {
        reveal_strlit("1111111110110100");
    } else if size == 10 {
        reveal_strlit("1111111110110101");
    }
}

proof fn lemma_ac_run_8_bits(size: int)
    requires
        is_ac_symbol(8, size),
    ensures
        is_bit_string(ac_luminance_rows()[8][size]@),
{
    if size == 1 {
        reveal_strlit("111111000");
    } else if size == 2 {
        reveal_strlit("111111111000000");
    } else if size == 3 {
        reveal_strlit("1111111110110110");
    } else if size == 4 {
        reveal_strlit("1111111110110111");
    } else if size == 5 {
        reveal_strlit("1111111110111000");
    } else if size == 6 {
        reveal_strlit("1111111110111001");
    } else if size == 7 {
        reveal_strlit("1111111110111010");
    } else if size == 8 {
        reveal_strlit("1111111110111011");
    } else if size == 9 {
        reveal_strlit("1111111110111100");
    } else if size == 10 {
        reveal_strlit("1111111110111101");
    }
}

proof fn lemma_ac_run_9_bits(size: int)
    requires
        is_ac_symbol(9, size),
    ensures
        is_bit_string(ac_luminance_rows()[9][size]@),
{
    if size == 1 {
        reveal_strlit("111111001");
    } else if size == 2 {
        reveal_strlit("1111111110111110");
    } else if size == 3 {
        reveal_strlit("1111111110111111");
    } else if size == 4 {
        reveal_strlit("1111111111000000");
    } else if size == 5 {
        reveal_strlit("1111111111000001");
    } else if size == 6 {
        reveal_strlit("1111111111000010");
    } else if size == 7 {
        reveal_strlit("1111111111000011");
    } else if size == 8 {
        reveal_strlit("1111111111000100");
    } else if size == 9 {
        reveal_strlit("1111111111000101");
    } else if size == 10 {
        reveal_strlit("1111111111000110");
    }
}

proof fn lemma_ac_run_10_bits(size: int)
    requires
        is_ac_symbol(10, size),
    ensures
        is_bit_string(ac_luminance_rows()[10][size]@),
{
    if size == 1 {
        reveal_strlit("111111010");
    } else if size == 2 {
        reveal_strlit("1111111111000111");
    } else if size == 3 {
        reveal_strlit("1111111111001000");
    } else if size == 4 {
        reveal_strlit("1111111111001001");
    } else if size == 5 {
        reveal_strlit("1111111111001010");
    } else if size == 6 {
        reveal_strlit("1111111111001011");
    } else if size == 7 {
        reveal_strlit("1111111111001100");
    } else if size == 8 {
        reveal_strlit("1111111111001101");
    } else if size == 9 {
        reveal_strlit("1111111111001110");
    } else if size == 10 {
        reveal_strlit("1111111111001111");
    }
}

proof fn lemma_ac_run_11_bits(size: int)
    requires
        is_ac_symbol(11, size),
    ensures
        is_bit_string(ac_luminance_rows()[11][size]@),
{
    if size == 1 {
        reveal_strlit("1111111001");
    } else if size == 2 {
        reveal_strlit("1111111111010000");
    } else if size == 3 {
        reveal_strlit("1111111111010001");
    } else if size == 4 {
        reveal_strlit("1111111111010010");
    } else if size == 5 {
        reveal_strlit("1111111111010011");
    } else if size == 6 {
        reveal_strlit("1111111111010100");
    } else if size == 7 {
        reveal_strlit("1111111111010101");
    } else if size == 8 {
        reveal_strlit("1111111111010110");
    } else if size == 9 {
        reveal_strlit("1111111111010111");
    } else if size == 10 {
        reveal_strlit("1111111111011000");
    }
}

proof fn lemma_ac_run_12_bits(size: int)
    requires
        is_ac_symbol(12, size),
    ensures
        is_bit_string(ac_luminance_rows()[12][size]@),
{
    if size == 1 {
        reveal_strlit("1111111010");
    } else if size == 2 {
        reveal_strlit("1111111111011001");
    } else if size == 3 {
        reveal_strlit("1111111111011010");
    } else if size == 4 {
        reveal_strlit("1111111111011011");
    } else if size == 5 {
        reveal_strlit("1111111111011100");
    } else if size == 6 {
        reveal_strlit("1111111111011101");
    } else if size == 7 {
        reveal_strlit("1111111111011110");
    } else if size == 8 {
        reveal_strlit("1111111111011111");
    } else if size == 9 {
        reveal_strlit("1111111111100000");
    } else if size == 10 {
        reveal_strlit("1111111111100001");
    }
}

proof fn lemma_ac_run_13_bits(size: int)
    requires
        is_ac_symbol(13, size),
    ensures
        is_bit_string(ac_luminance_rows()[13][size]@),
{
    if size == 1 {
        reveal_strlit("11111111000");
    } else if size == 2 {
        reveal_strlit("1111111111100010");
    } else if size == 3 {
        reveal_strlit("1111111111100011");
    } else if size == 4 {
        reveal_strlit("1111111111100100");
    } else if size == 5 {
        reveal_strlit("1111111111100101");
    } else if size == 6 {
        reveal_strlit("1111111111100110");
    } else if size == 7 {
        reveal_strlit("1111111111100111");
    } else if size == 8 {
        reveal_strlit("1111111111101000");
    } else if size == 9 {
        reveal_strlit("1111111111101001");
    } else if size == 10 {
        reveal_strlit("1111111111101010");
    }
}

proof fn lemma_ac_run_14_bits(size: int)
    requires
        is_ac_symbol(14, size),
    ensures
        is_bit_string(ac_luminance_rows()[14][size]@),
{
    if size == 1 {
        reveal_strlit("1111111111101011");
    } else if size == 2 {
        reveal_strlit("1111111111101100");
    } else if size == 3 {
        reveal_strlit("1111111111101101");
    } else if size == 4 {
        reveal_strlit("1111111111101110");
    } else if size == 5 {
        reveal_strlit("1111111111101111");
    } else if size == 6 {
        reveal_strlit("1111111111110000");
    } else if size == 7 {
        reveal_strlit("1111111111110001");
    } else if size == 8 {
        reveal_strlit("1111111111110010");
    } else if size == 9 {
        reveal_strlit("1111111111110011");
    } else if size == 10 {
        reveal_strlit("1111111111110100");
    }
}

proof fn lemma_ac_run_15_bits(size: int)
    requires
        is_ac_symbol(15, size),
    ensures
        is_bit_string(ac_luminance_rows()[15][size]@),
{
    if size == 0 {
        reveal_strlit("11111111001");
    } else if size == 1 {
        reveal_strlit("1111111111110101");
    } else if size == 2 {
        reveal_strlit("1111111111110110");
    } else if size == 3 {
        reveal_strlit("1111111111110111");
    } else if size == 4 {
        reveal_strlit("1111111111111000");
    } else if size == 5 {
        reveal_strlit("1111111111111001");
    } else if size == 6 {
        reveal_strlit("1111111111111010");
    } else if size == 7 {
        reveal_strlit("1111111111111011");
    } else if size == 8 {
        reveal_strlit("1111111111111100");
    } else if size == 9 {
        reveal_strlit("1111111111111101");
    } else if size == 10 {
        reveal_strlit("1111111111111110");
    }
}

/// Every code of the AC luminance table is a string of binary digits.
pub proof fn lemma_ac_codes_are_bits(run: int, size: int)
    requires
        is_ac_symbol(run, size),
    ensures
        is_bit_string(ac_luminance_codes()[(run as u8, size as u8)]),
{
    if run == 0 {
        lemma_ac_run_0_bits(size);
    } else if run == 1 {
        lemma_ac_run_1_bits(size);
    } else if run == 2 {
        lemma_ac_run_2_bits(size);
    } else if run == 3 {
        lemma_ac_run_3_bits(size);
    } else if run == 4 {
        lemma_ac_run_4_bits(size);
    } else if run == 5 {
        lemma_ac_run_5_bits(size);
    } else if run == 6 {
        lemma_ac_run_6_bits(size);
    } else if run == 7 {
        lemma_ac_run_7_bits(size);
    } else if run == 8 {
        lemma_ac_run_8_bits(size);
    } else if run == 9 {
        lemma_ac_run_9_bits(size);
    } else if run == 10 {
        lemma_ac_run_10_bits(size);
    } else if run == 11 {
        lemma_ac_run_11_bits(size);
    } else if run == 12 {
        lemma_ac_run_12_bits(size);
    } else if run == 13 {
        lemma_ac_run_13_bits(size);
    } else if run == 14 {
        lemma_ac_run_14_bits(size);
    } else if run == 15 {
        lemma_ac_run_15_bits(size);
    }
}

/// Every code of the DC luminance table is a string of binary digits.
pub proof fn lemma_dc_codes_are_bits(category: i8)
    requires
        0 <= category <= 11,
    ensures
        dc_luminance_codes().contains_key(category),
        is_bit_string(dc_luminance_codes()[category]@),
{
    if category == 0 {
        reveal_strlit("00");
    } else if category == 1 {
        reveal_strlit("010");
    } else if category == 2 {
        reveal_strlit("011");
    } else if category == 3 {
        reveal_strlit("100");
    } else if category == 4 {
        reveal_strlit("101");
    } else if category == 5 {
        reveal_strlit("110");
    } else if category == 6 {
        reveal_strlit("1110");
    } else if category == 7 {
        reveal_strlit("11110");
    } else if category == 8 {
        reveal_strlit("111110");
    } else if category == 9 {
        reveal_strlit("1111110");
    } else if category == 10 {
        reveal_strlit("11111110");
    } else if category == 11 {
        reveal_strlit("111111110");
    }
}

/// A code stored for a pair is the one found for it afterwards, and every
/// other pair keeps its code (the views that `set` and `get` speak of).
pub proof fn lemma_get_after_set(
    table: Map<(u8, u8), Seq<char>>,
    a: u8,
    b: u8,
    code: Seq<char>,
    c: u8,
    d: u8,
)
    ensures
        table.insert((a, b), code).contains_key((a, b)),
        table.insert((a, b), code)[(a, b)] == code,
        (c, d) != (a, b) ==> (table.insert((a, b), code).contains_key((c, d)) == table.contains_key(
            (c, d),
        ) && table.insert((a, b), code)[(c, d)] == table[(c, d)]),
{
}

/// The AC table holds the baseline JPEG luminance AC codes (Annex K,
/// table K.5), entry by entry; (15, 0) is the code for sixteen zeros.
pub proof fn lemma_ac_luminance_standard()
    ensures
        ac_luminance_codes().contains_key((0u8, 0u8)) && ac_luminance_codes()[(0u8, 0u8)] == "1010"@,
        ac_luminance_codes().contains_key((0u8, 1u8)) && ac_luminance_codes()[(0u8, 1u8)] == "00"@,
        ac_luminance_codes().contains_key((0u8, 2u8)) && ac_luminance_codes()[(0u8, 2u8)] == "01"@,
        ac_luminance_codes().contains_key((0u8, 3u8)) && ac_luminance_codes()[(0u8, 3u8)] == "100"@,
        ac_luminance_codes().contains_key((0u8, 4u8)) && ac_luminance_codes()[(0u8, 4u8)] == "1011"@,
        ac_luminance_codes().contains_key((0u8, 5u8)) && ac_luminance_codes()[(0u8, 5u8)] == "11010"@,
        ac_luminance_codes().contains_key((0u8, 6u8)) && ac_luminance_codes()[(0u8, 6u8)] == "1111000"@,
        ac_luminance_codes().contains_key((0u8, 7u8)) && ac_luminance_codes()[(0u8, 7u8)] == "11111000"@,
        ac_luminance_codes().contains_key((0u8, 8u8)) && ac_luminance_codes()[(0u8, 8u8)] == "1111110110"@,
        ac_luminance_codes().contains_key((0u8, 9u8)) && ac_luminance_codes()[(0u8, 9u8)] == "1111111110000010"@,
        ac_luminance_codes().contains_key((0u8, 10u8)) && ac_luminance_codes()[(0u8, 10u8)] == "1111111110000011"@,
        ac_luminance_codes().contains_key((1u8, 1u8)) && ac_luminance_codes()[(1u8, 1u8)] == "1100"@,
        ac_luminance_codes().contains_key((1u8, 2u8)) && ac_luminance_codes()[(1u8, 2u8)] == "11011"@,
        ac_luminance_codes().contains_key((1u8, 3u8)) && ac_luminance_codes()[(1u8, 3u8)] == "1111001"@,
        ac_luminance_codes().contains_key((1u8, 4u8)) && ac_luminance_codes()[(1u8, 4u8)] == "111110110"@,
        ac_luminance_codes().contains_key((1u8, 5u8)) && ac_luminance_codes()[(1u8, 5u8)] == "11111110110"@,
        ac_luminance_codes().contains_key((1u8, 6u8)) && ac_luminance_codes()[(1u8, 6u8)] == "1111111110000100"@,
        ac_luminance_codes().contains_key((1u8, 7u8)) && ac_luminance_codes()[(1u8, 7u8)] == "1111111110000101"@,
        ac_luminance_codes().contains_key((1u8, 8u8)) && ac_luminance_codes()[(1u8, 8u8)] == "1111111110000110"@,
        ac_luminance_codes().contains_key((1u8, 9u8)) && ac_luminance_codes()[(1u8, 9u8)] == "1111111110000111"@,
        ac_luminance_codes().contains_key((1u8, 10u8)) && ac_luminance_codes()[(1u8, 10u8)] == "1111111110001000"@,
        ac_luminance_codes().contains_key((2u8, 1u8)) && ac_luminance_codes()[(2u8, 1u8)] == "11100"@,
        ac_luminance_codes().contains_key((2u8, 2u8)) && ac_luminance_codes()[(2u8, 2u8)] == "11111001"@,
        ac_luminance_codes().contains_key((2u8, 3u8)) && ac_luminance_codes()[(2u8, 3u8)] == "1111110111"@,
        ac_luminance_codes().contains_key((2u8, 4u8)) && ac_luminance_codes()[(2u8, 4u8)] == "111111110100"@,
        ac_luminance_codes().contains_key((2u8, 5u8)) && ac_luminance_codes()[(2u8, 5u8)] == "1111111110001001"@,
        ac_luminance_codes().contains_key((2u8, 6u8)) && ac_luminance_codes()[(2u8, 6u8)] == "1111111110001010"@,
        ac_luminance_codes().contains_key((2u8, 7u8)) && ac_luminance_codes()[(2u8, 7u8)] == "1111111110001011"@,
        ac_luminance_codes().contains_key((2u8, 8u8)) && ac_luminance_codes()[(2u8, 8u8)] == "1111111110001100"@,
        ac_luminance_codes().contains_key((2u8, 9u8)) && ac_luminance_codes()[(2u8, 9u8)] == "1111111110001101"@,
        ac_luminance_codes().contains_key((2u8, 10u8)) && ac_luminance_codes()[(2u8, 10u8)] == "1111111110001110"@,
        ac_luminance_codes().contains_key((3u8, 1u8)) && ac_luminance_codes()[(3u8, 1u8)] == "111010"@,
        ac_luminance_codes().contains_key((3u8, 2u8)) && ac_luminance_codes()[(3u8, 2u8)] == "111110111"@,
        ac_luminance_codes().contains_key((3u8, 3u8)) && ac_luminance_codes()[(3u8, 3u8)] == "111111110101"@,
        ac_luminance_codes().contains_key((3u8, 4u8)) && ac_luminance_codes()[(3u8, 4u8)] == "1111111110001111"@,
        ac_luminance_codes().contains_key((3u8, 5u8)) && ac_luminance_codes()[(3u8, 5u8)] == "1111111110010000"@,
        ac_luminance_codes().contains_key((3u8, 6u8)) && ac_luminance_codes()[(3u8, 6u8)] == "1111111110010001"@,
        ac_luminance_codes().contains_key((3u8, 7u8)) && ac_luminance_codes()[(3u8, 7u8)] == "1111111110010010"@,
        ac_luminance_codes().contains_key((3u8, 8u8)) && ac_luminance_codes()[(3u8, 8u8)] == "1111111110010011"@,
        ac_luminance_codes().contains_key((3u8, 9u8)) && ac_luminance_codes()[(3u8, 9u8)] == "1111111110010100"@,
        ac_luminance_codes().contains_key((3u8, 10u8)) && ac_luminance_codes()[(3u8, 10u8)] == "1111111110010101"@,
        ac_luminance_codes().contains_key((4u8, 1u8)) && ac_luminance_codes()[(4u8, 1u8)] == "111011"@,
        ac_luminance_codes().contains_key((4u8, 2u8)) && ac_luminance_codes()[(4u8, 2u8)] == "1111111000"@,
        ac_luminance_codes().contains_key((4u8, 3u8)) && ac_luminance_codes()[(4u8, 3u8)] == "1111111110010110"@,
        ac_luminance_codes().contains_key((4u8, 4u8)) && ac_luminance_codes()[(4u8, 4u8)] == "1111111110010111"@,
        ac_luminance_codes().contains_key((4u8, 5u8)) && ac_luminance_codes()[(4u8, 5u8)] == "1111111110011000"@,
        ac_luminance_codes().contains_key((4u8, 6u8)) && ac_luminance_codes()[(4u8, 6u8)] == "1111111110011001"@,
        ac_luminance_codes().contains_key((4u8, 7u8)) && ac_luminance_codes()[(4u8, 7u8)] == "1111111110011010"@,
        ac_luminance_codes().contains_key((4u8, 8u8)) && ac_luminance_codes()[(4u8, 8u8)] == "1111111110011011"@,
        ac_luminance_codes().contains_key((4u8, 9u8)) && ac_luminance_codes()[(4u8, 9u8)] == "1111111110011100"@,
        ac_luminance_codes().contains_key((4u8, 10u8)) && ac_luminance_codes()[(4u8, 10u8)] == "1111111110011101"@,
        ac_luminance_codes().contains_key((5u8, 1u8)) && ac_luminance_codes()[(5u8, 1u8)] == "1111010"@,
        ac_luminance_codes().contains_key((5u8, 2u8)) && ac_luminance_codes()[(5u8, 2u8)] == "11111110111"@,
        ac_luminance_codes().contains_key((5u8, 3u8)) && ac_luminance_codes()[(5u8, 3u8)] == "1111111110011110"@,
        ac_luminance_codes().contains_key((5u8, 4u8)) && ac_luminance_codes()[(5u8, 4u8)] == "1111111110011111"@,
        ac_luminance_codes().contains_key((5u8, 5u8)) && ac_luminance_codes()[(5u8, 5u8)] == "1111111110100000"@,
        ac_luminance_codes().contains_key((5u8, 6u8)) && ac_luminance_codes()[(5u8, 6u8)] == "1111111110100001"@,
        ac_luminance_codes().contains_key((5u8, 7u8)) && ac_luminance_codes()[(5u8, 7u8)] == "1111111110100010"@,
        ac_luminance_codes().contains_key((5u8, 8u8)) && ac_luminance_codes()[(5u8, 8u8)] == "1111111110100011"@,
        ac_luminance_codes().contains_key((5u8, 9u8)) && ac_luminance_codes()[(5u8, 9u8)] == "1111111110100100"@,
        ac_luminance_codes().contains_key((5u8, 10u8)) && ac_luminance_codes()[(5u8, 10u8)] == "1111111110100101"@,
        ac_luminance_codes().contains_key((6u8, 1u8)) && ac_luminance_codes()[(6u8, 1u8)] == "1111011"@,
        ac_luminance_codes().contains_key((6u8, 2u8)) && ac_luminance_codes()[(6u8, 2u8)] == "111111110110"@,
        ac_luminance_codes().contains_key((6u8, 3u8)) && ac_luminance_codes()[(6u8, 3u8)] == "1111111110100110"@,
        ac_luminance_codes().contains_key((6u8, 4u8)) && ac_luminance_codes()[(6u8, 4u8)] == "1111111110100111"@,
        ac_luminance_codes().contains_key((6u8, 5u8)) && ac_luminance_codes()[(6u8, 5u8)] == "1111111110101000"@,
        ac_luminance_codes().contains_key((6u8, 6u8)) && ac_luminance_codes()[(6u8, 6u8)] == "1111111110101001"@,
        ac_luminance_codes().contains_key((6u8, 7u8)) && ac_luminance_codes()[(6u8, 7u8)] == "1111111110101010"@,
        ac_luminance_codes().contains_key((6u8, 8u8)) && ac_luminance_codes()[(6u8, 8u8)] == "1111111110101011"@,
        ac_luminance_codes().contains_key((6u8, 9u8)) && ac_luminance_codes()[(6u8, 9u8)] == "1111111110101100"@,
        ac_luminance_codes().contains_key((6u8, 10u8)) && ac_luminance_codes()[(6u8, 10u8)] == "1111111110101101"@,
        ac_luminance_codes().contains_key((7u8, 1u8)) && ac_luminance_codes()[(7u8, 1u8)] == "11111010"@,
        ac_luminance_codes().contains_key((7u8, 2u8)) && ac_luminance_codes()[(7u8, 2u8)] == "111111110111"@,
        ac_luminance_codes().contains_key((7u8, 3u8)) && ac_luminance_codes()[(7u8, 3u8)] == "1111111110101110"@,
        ac_luminance_codes().contains_key((7u8, 4u8)) && ac_luminance_codes()[(7u8, 4u8)] == "1111111110101111"@,
        ac_luminance_codes().contains_key((7u8, 5u8)) && ac_luminance_codes()[(7u8, 5u8)] == "1111111110110000"@,
        ac_luminance_codes().contains_key((7u8, 6u8)) && ac_luminance_codes()[(7u8, 6u8)] == "1111111110110001"@,
        ac_luminance_codes().contains_key((7u8, 7u8)) && ac_luminance_codes()[(7u8, 7u8)] == "1111111110110010"@,
        ac_luminance_codes().contains_key((7u8, 8u8)) && ac_luminance_codes()[(7u8, 8u8)] == "1111111110110011"@,
        ac_luminance_codes().contains_key((7u8, 9u8)) && ac_luminance_codes()[(7u8, 9u8)] == "1111111110110100"@,
        ac_luminance_codes().contains_key((7u8, 10u8)) && ac_luminance_codes()[(7u8, 10u8)] == "1111111110110101"@,
        ac_luminance_codes().contains_key((8u8, 1u8)) && ac_luminance_codes()[(8u8, 1u8)] == "111111000"@,
        ac_luminance_codes().contains_key((8u8, 2u8)) && ac_luminance_codes()[(8u8, 2u8)] == "111111111000000"@,
        ac_luminance_codes().contains_key((8u8, 3u8)) && ac_luminance_codes()[(8u8, 3u8)] == "1111111110110110"@,
        ac_luminance_codes().contains_key((8u8, 4u8)) && ac_luminance_codes()[(8u8, 4u8)] == "1111111110110111"@,
        ac_luminance_codes().contains_key((8u8, 5u8)) && ac_luminance_codes()[(8u8, 5u8)] == "1111111110111000"@,
        ac_luminance_codes().contains_key((8u8, 6u8)) && ac_luminance_codes()[(8u8, 6u8)] == "1111111110111001"@,
        ac_luminance_codes().contains_key((8u8, 7u8)) && ac_luminance_codes()[(8u8, 7u8)] == "1111111110111010"@,
        ac_luminance_codes().contains_key((8u8, 8u8)) && ac_luminance_codes()[(8u8, 8u8)] == "1111111110111011"@,
        ac_luminance_codes().contains_key((8u8, 9u8)) && ac_luminance_codes()[(8u8, 9u8)] == "1111111110111100"@,
        ac_luminance_codes().contains_key((8u8, 10u8)) && ac_luminance_codes()[(8u8, 10u8)] == "1111111110111101"@,
        ac_luminance_codes().contains_key((9u8, 1u8)) && ac_luminance_codes()[(9u8, 1u8)] == "111111001"@,
        ac_luminance_codes().contains_key((9u8, 2u8)) && ac_luminance_codes()[(9u8, 2u8)] == "1111111110111110"@,
        ac_luminance_codes().contains_key((9u8, 3u8)) && ac_luminance_codes()[(9u8, 3u8)] == "1111111110111111"@,
        ac_luminance_codes().contains_key((9u8, 4u8)) && ac_luminance_codes()[(9u8, 4u8)] == "1111111111000000"@,
        ac_luminance_codes().contains_key((9u8, 5u8)) && ac_luminance_codes()[(9u8, 5u8)] == "1111111111000001"@,
        ac_luminance_codes().contains_key((9u8, 6u8)) && ac_luminance_codes()[(9u8, 6u8)] == "1111111111000010"@,
        ac_luminance_codes().contains_key((9u8, 7u8)) && ac_luminance_codes()[(9u8, 7u8)] == "1111111111000011"@,
        ac_luminance_codes().contains_key((9u8, 8u8)) && ac_luminance_codes()[(9u8, 8u8)] == "1111111111000100"@,
        ac_luminance_codes().contains_key((9u8, 9u8)) && ac_luminance_codes()[(9u8, 9u8)] == "1111111111000101"@,
        ac_luminance_codes().contains_key((9u8, 10u8)) && ac_luminance_codes()[(9u8, 10u8)] == "1111111111000110"@,
        ac_luminance_codes().contains_key((10u8, 1u8)) && ac_luminance_codes()[(10u8, 1u8)] == "111111010"@,
        ac_luminance_codes().contains_key((10u8, 2u8)) && ac_luminance_codes()[(10u8, 2u8)] == "1111111111000111"@,
        ac_luminance_codes().contains_key((10u8, 3u8)) && ac_luminance_codes()[(10u8, 3u8)] == "1111111111001000"@,
        ac_luminance_codes().contains_key((10u8, 4u8)) && ac_luminance_codes()[(10u8, 4u8)] == "1111111111001001"@,
        ac_luminance_codes().contains_key((10u8, 5u8)) && ac_luminance_codes()[(10u8, 5u8)] == "1111111111001010"@,
        ac_luminance_codes().contains_key((10u8, 6u8)) && ac_luminance_codes()[(10u8, 6u8)] == "1111111111001011"@,
        ac_luminance_codes().contains_key((10u8, 7u8)) && ac_luminance_codes()[(10u8, 7u8)] == "1111111111001100"@,
        ac_luminance_codes().contains_key((10u8, 8u8)) && ac_luminance_codes()[(10u8, 8u8)] == "1111111111001101"@,
        ac_luminance_codes().contains_key((10u8, 9u8)) && ac_luminance_codes()[(10u8, 9u8)] == "1111111111001110"@,
        ac_luminance_codes().contains_key((10u8, 10u8)) && ac_luminance_codes()[(10u8, 10u8)] == "1111111111001111"@,
        ac_luminance_codes().contains_key((11u8, 1u8)) && ac_luminance_codes()[(11u8, 1u8)] == "1111111001"@,
        ac_luminance_codes().contains_key((11u8, 2u8)) && ac_luminance_codes()[(11u8, 2u8)] == "1111111111010000"@,
        ac_luminance_codes().contains_key((11u8, 3u8)) && ac_luminance_codes()[(11u8, 3u8)] == "1111111111010001"@,
        ac_luminance_codes().contains_key((11u8, 4u8)) && ac_luminance_codes()[(11u8, 4u8)] == "1111111111010010"@,
        ac_luminance_codes().contains_key((11u8, 5u8)) && ac_luminance_codes()[(11u8, 5u8)] == "1111111111010011"@,
        ac_luminance_codes().contains_key((11u8, 6u8)) && ac_luminance_codes()[(11u8, 6u8)] == "1111111111010100"@,
        ac_luminance_codes().contains_key((11u8, 7u8)) && ac_luminance_codes()[(11u8, 7u8)] == "1111111111010101"@,
        ac_luminance_codes().contains_key((11u8, 8u8)) && ac_luminance_codes()[(11u8, 8u8)] == "1111111111010110"@,
        ac_luminance_codes().contains_key((11u8, 9u8)) && ac_luminance_codes()[(11u8, 9u8)] == "1111111111010111"@,
        ac_luminance_codes().contains_key((11u8, 10u8)) && ac_luminance_codes()[(11u8, 10u8)] == "1111111111011000"@,
        ac_luminance_codes().contains_key((12u8, 1u8)) && ac_luminance_codes()[(12u8, 1u8)] == "1111111010"@,
        ac_luminance_codes().contains_key((12u8, 2u8)) && ac_luminance_codes()[(12u8, 2u8)] == "1111111111011001"@,
        ac_luminance_codes().contains_key((12u8, 3u8)) && ac_luminance_codes()[(12u8, 3u8)] == "1111111111011010"@,
        ac_luminance_codes().contains_key((12u8, 4u8)) && ac_luminance_codes()[(12u8, 4u8)] == "1111111111011011"@,
        ac_luminance_codes().contains_key((12u8, 5u8)) && ac_luminance_codes()[(12u8, 5u8)] == "1111111111011100"@,
        ac_luminance_codes().contains_key((12u8, 6u8)) && ac_luminance_codes()[(12u8, 6u8)] == "1111111111011101"@,
        ac_luminance_codes().contains_key((12u8, 7u8)) && ac_luminance_codes()[(12u8, 7u8)] == "1111111111011110"@,
        ac_luminance_codes().contains_key((12u8, 8u8)) && ac_luminance_codes()[(12u8, 8u8)] == "1111111111011111"@,
        ac_luminance_codes().contains_key((12u8, 9u8)) && ac_luminance_codes()[(12u8, 9u8)] == "1111111111100000"@,
        ac_luminance_codes().contains_key((12u8, 10u8)) && ac_luminance_codes()[(12u8, 10u8)] == "1111111111100001"@,
        ac_luminance_codes().contains_key((13u8, 1u8)) && ac_luminance_codes()[(13u8, 1u8)] == "11111111000"@,
        ac_luminance_codes().contains_key((13u8, 2u8)) && ac_luminance_codes()[(13u8, 2u8)] == "1111111111100010"@,
        ac_luminance_codes().contains_key((13u8, 3u8)) && ac_luminance_codes()[(13u8, 3u8)] == "1111111111100011"@,
        ac_luminance_codes().contains_key((13u8, 4u8)) && ac_luminance_codes()[(13u8, 4u8)] == "1111111111100100"@,
        ac_luminance_codes().contains_key((13u8, 5u8)) && ac_luminance_codes()[(13u8, 5u8)] == "1111111111100101"@,
        ac_luminance_codes().contains_key((13u8, 6u8)) && ac_luminance_codes()[(13u8, 6u8)] == "1111111111100110"@,
        ac_luminance_codes().contains_key((13u8, 7u8)) && ac_luminance_codes()[(13u8, 7u8)] == "1111111111100111"@,
        ac_luminance_codes().contains_key((13u8, 8u8)) && ac_luminance_codes()[(13u8, 8u8)] == "1111111111101000"@,
        ac_luminance_codes().contains_key((13u8, 9u8)) && ac_luminance_codes()[(13u8, 9u8)] == "1111111111101001"@,
        ac_luminance_codes().contains_key((13u8, 10u8)) && ac_luminance_codes()[(13u8, 10u8)] == "1111111111101010"@,
        ac_luminance_codes().contains_key((14u8, 1u8)) && ac_luminance_codes()[(14u8, 1u8)] == "1111111111101011"@,
        ac_luminance_codes().contains_key((14u8, 2u8)) && ac_luminance_codes()[(14u8, 2u8)] == "1111111111101100"@,
        ac_luminance_codes().contains_key((14u8, 3u8)) && ac_luminance_codes()[(14u8, 3u8)] == "1111111111101101"@,
        ac_luminance_codes().contains_key((14u8, 4u8)) && ac_luminance_codes()[(14u8, 4u8)] == "1111111111101110"@,
        ac_luminance_codes().contains_key((14u8, 5u8)) && ac_luminance_codes()[(14u8, 5u8)] == "1111111111101111"@,
        ac_luminance_codes().contains_key((14u8, 6u8)) && ac_luminance_codes()[(14u8, 6u8)] == "1111111111110000"@,
        ac_luminance_codes().contains_key((14u8, 7u8)) && ac_luminance_codes()[(14u8, 7u8)] == "1111111111110001"@,
        ac_luminance_codes().contains_key((14u8, 8u8)) && ac_luminance_codes()[(14u8, 8u8)] == "1111111111110010"@,
        ac_luminance_codes().contains_key((14u8, 9u8)) && ac_luminance_codes()[(14u8, 9u8)] == "1111111111110011"@,
        ac_luminance_codes().contains_key((14u8, 10u8)) && ac_luminance_codes()[(14u8, 10u8)] == "1111111111110100"@,
        ac_luminance_codes().contains_key((15u8, 1u8)) && ac_luminance_codes()[(15u8, 1u8)] == "1111111111110101"@,
        ac_luminance_codes().contains_key((15u8, 2u8)) && ac_luminance_codes()[(15u8, 2u8)] == "1111111111110110"@,
        ac_luminance_codes().contains_key((15u8, 3u8)) && ac_luminance_codes()[(15u8, 3u8)] == "1111111111110111"@,
        ac_luminance_codes().contains_key((15u8, 4u8)) && ac_luminance_codes()[(15u8, 4u8)] == "1111111111111000"@,
        ac_luminance_codes().contains_key((15u8, 5u8)) && ac_luminance_codes()[(15u8, 5u8)] == "1111111111111001"@,
        ac_luminance_codes().contains_key((15u8, 6u8)) && ac_luminance_codes()[(15u8, 6u8)] == "1111111111111010"@,
        ac_luminance_codes().contains_key((15u8, 7u8)) && ac_luminance_codes()[(15u8, 7u8)] == "1111111111111011"@,
        ac_luminance_codes().contains_key((15u8, 8u8)) && ac_luminance_codes()[(15u8, 8u8)] == "1111111111111100"@,
        ac_luminance_codes().contains_key((15u8, 9u8)) && ac_luminance_codes()[(15u8, 9u8)] == "1111111111111101"@,
        ac_luminance_codes().contains_key((15u8, 10u8)) && ac_luminance_codes()[(15u8, 10u8)] == "1111111111111110"@,
        ac_luminance_codes().contains_key((15u8, 0u8)) && ac_luminance_codes()[(15u8, 0u8)] == "11111111001"@,
{
}

/// The DC table holds the baseline JPEG luminance DC codes (Annex K,
/// table K.3), category by category.
pub proof fn lemma_dc_luminance_standard()
    ensures
        dc_luminance_codes().contains_key(0i8) && dc_luminance_codes()[0i8]@ == "00"@,
        dc_luminance_codes().contains_key(1i8) && dc_luminance_codes()[1i8]@ == "010"@,
        dc_luminance_codes().contains_key(2i8) && dc_luminance_codes()[2i8]@ == "011"@,
        dc_luminance_codes().contains_key(3i8) && dc_luminance_codes()[3i8]@ == "100"@,
        dc_luminance_codes().contains_key(4i8) && dc_luminance_codes()[4i8]@ == "101"@,
        dc_luminance_codes().contains_key(5i8) && dc_luminance_codes()[5i8]@ == "110"@,
        dc_luminance_codes().contains_key(6i8) && dc_luminance_codes()[6i8]@ == "1110"@,
        dc_luminance_codes().contains_key(7i8) && dc_luminance_codes()[7i8]@ == "11110"@,
        dc_luminance_codes().contains_key(8i8) && dc_luminance_codes()[8i8]@ == "111110"@,
        dc_luminance_codes().contains_key(9i8) && dc_luminance_codes()[9i8]@ == "1111110"@,
        dc_luminance_codes().contains_key(10i8) && dc_luminance_codes()[10i8]@ == "11111110"@,
        dc_luminance_codes().contains_key(11i8) && dc_luminance_codes()[11i8]@ == "111111110"@,
{
}

} // verus!
