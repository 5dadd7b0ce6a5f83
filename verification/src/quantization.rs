use vstd::prelude::*;

verus! {

/// The two standard quantization tables of a baseline JPEG encoder.
#[derive(Debug, PartialEq, Eq, Structural, Clone, Copy)]
pub enum QuantizationMatrix {
    LuminanceQuantizationMatrix,
    ChrominanceQuantizationMatrix,
}

/// The chrominance table (JPEG Annex K, table K.2).
pub open spec fn chrominance_table() -> [[u8; 8]; 8] {
    [
        [17, 18, 24, 47, 99, 99, 99, 99],
        [18, 21, 26, 66, 99, 99, 99, 99],
        [24, 26, 56, 99, 99, 99, 99, 99],
        [47, 66, 99, 99, 99, 99, 99, 99],
        [99, 99, 99, 99, 99, 99, 99, 99],
        [99, 99, 99, 99, 99, 99, 99, 99],
        [99, 99, 99, 99, 99, 99, 99, 99],
        [99, 99, 99, 99, 99, 99, 99, 99],
    ]
}

/// The luminance table (JPEG Annex K, table K.1).
pub open spec fn luminance_table() -> [[u8; 8]; 8] {
    [
        [16, 11, 10, 16, 24, 40, 51, 61],
        [12, 12, 14, 19, 26, 58, 60, 55],
        [14, 13, 16, 24, 40, 57, 69, 56],
        [14, 17, 22, 29, 51, 87, 80, 62],
        [18, 22, 37, 56, 68, 109, 103, 77],
        [24, 35, 55, 64, 81, 104, 113, 92],
        [49, 64, 78, 87, 103, 121, 120, 101],
        [72, 92, 95, 98, 112, 100, 103, 99],
    ]
}

impl QuantizationMatrix {
    /// The table that the variant names.
    pub open spec fn spec_table(self) -> [[u8; 8]; 8] {
        match self {
            QuantizationMatrix::LuminanceQuantizationMatrix => luminance_table(),
            QuantizationMatrix::ChrominanceQuantizationMatrix => chrominance_table(),
        }
    }

    /// Returns the 8x8 quantization table; every step size in it is at
    /// least 10, so it can always serve as a divisor.
    pub fn get(self) -> (table: [[u8; 8]; 8])
        ensures
            table == self.spec_table(),
            forall|i: int, j: int| 0 <= i < 8 && 0 <= j < 8 ==> table[i][j] >= 10,
    {
        if self == QuantizationMatrix::ChrominanceQuantizationMatrix {
            [
                [17, 18, 24, 47, 99, 99, 99, 99],
                [18, 21, 26, 66, 99, 99, 99, 99],
                [24, 26, 56, 99, 99, 99, 99, 99],
                [47, 66, 99, 99, 99, 99, 99, 99],
                [99, 99, 99, 99, 99, 99, 99, 99],
                [99, 99, 99, 99, 99, 99, 99, 99],
                [99, 99, 99, 99, 99, 99, 99, 99],
                [99, 99, 99, 99, 99, 99, 99, 99],
            ]
        } else {
            [
                [16, 11, 10, 16, 24, 40, 51, 61],
                [12, 12, 14, 19, 26, 58, 60, 55],
                [14, 13, 16, 24, 40, 57, 69, 56],
                [14, 17, 22, 29, 51, 87, 80, 62],
                [18, 22, 37, 56, 68, 109, 103, 77],
                [24, 35, 55, 64, 81, 104, 113, 92],
                [49, 64, 78, 87, 103, 121, 120, 101],
                [72, 92, 95, 98, 112, 100, 103, 99],
            ]
        }
    }
}

/// The tables are the baseline JPEG example tables of Annex K (K.1 for
/// luminance, K.2 for chrominance), row by row.
pub proof fn lemma_quantization_standard()
    ensures
        QuantizationMatrix::LuminanceQuantizationMatrix.spec_table() == [
            [16u8, 11, 10, 16, 24, 40, 51, 61],
            [12u8, 12, 14, 19, 26, 58, 60, 55],
            [14u8, 13, 16, 24, 40, 57, 69, 56],
            [14u8, 17, 22, 29, 51, 87, 80, 62],
            [18u8, 22, 37, 56, 68, 109, 103, 77],
            [24u8, 35, 55, 64, 81, 104, 113, 92],
            [49u8, 64, 78, 87, 103, 121, 120, 101],
            [72u8, 92, 95, 98, 112, 100, 103, 99],
        ],
        QuantizationMatrix::ChrominanceQuantizationMatrix.spec_table() == [
            [17u8, 18, 24, 47, 99, 99, 99, 99],
            [18u8, 21, 26, 66, 99, 99, 99, 99],
            [24u8, 26, 56, 99, 99, 99, 99, 99],
            [47u8, 66, 99, 99, 99, 99, 99, 99],
            [99u8, 99, 99, 99, 99, 99, 99, 99],
            [99u8, 99, 99, 99, 99, 99, 99, 99],
            [99u8, 99, 99, 99, 99, 99, 99, 99],
            [99u8, 99, 99, 99, 99, 99, 99, 99],
        ],
{
}

} // verus!
