use dct2jpeg::binary::{binary_string, transform_positive_negative_binary};
use dct2jpeg::blocks::ImagePixels;
use dct2jpeg::encoder::{get_binary_stream_from_zig_zag_array, Dct2Jpeg};
use dct2jpeg::huffman::{ac_luminance_table, dc_luminance_table, TableACHuffman};
use dct2jpeg::quantization::QuantizationMatrix;
use dct2jpeg::zigzag::zig_zag_matrix;

fn zeros_with(first: i32, rest: &[(usize, i32)]) -> Vec<i32> {
    let mut v = vec![0; 64];
    v[0] = first;
    for &(i, x) in rest {
        v[i] = x;
    }
    v
}

#[test]
fn quantization_tables() {
    let c = QuantizationMatrix::ChrominanceQuantizationMatrix.get();
    assert_eq!(c[0], [17, 18, 24, 47, 99, 99, 99, 99]);
    assert_eq!(c[3], [47, 66, 99, 99, 99, 99, 99, 99]);
    assert_eq!(c[7], [99; 8]);
    let l = QuantizationMatrix::LuminanceQuantizationMatrix.get();
    assert_eq!(l[0], [16, 11, 10, 16, 24, 40, 51, 61]);
    assert_eq!(l[7], [72, 92, 95, 98, 112, 100, 103, 99]);
    assert_eq!(l[5][6], 113);
}

#[test]
fn quantization_steps_are_at_least_ten() {
    for q in [
        QuantizationMatrix::LuminanceQuantizationMatrix,
        QuantizationMatrix::ChrominanceQuantizationMatrix,
    ] {
        for row in q.get() {
            for x in row {
                assert!(x >= 10);
            }
        }
    }
}

#[test]
fn binary_digits() {
    assert_eq!(binary_string(0), "0");
    assert_eq!(binary_string(1), "1");
    assert_eq!(binary_string(5), "101");
    assert_eq!(binary_string(128), "10000000");
    assert_eq!(binary_string(255), "11111111");
    for v in 0..=255u8 {
        assert_eq!(binary_string(v), format!("{:b}", v));
    }
}

#[test]
fn complement_of_binary() {
    assert_eq!(transform_positive_negative_binary("0101".to_string()), "1010");
    assert_eq!(transform_positive_negative_binary("".to_string()), "");
    assert_eq!(transform_positive_negative_binary("111".to_string()), "000");
    assert_eq!(transform_positive_negative_binary("a0".to_string()), "01");
}

#[test]
fn complement_twice_is_identity() {
    for s in ["", "0", "1", "1011", "00000000", "1100101"] {
        let once = transform_positive_negative_binary(s.to_string());
        assert_eq!(once.len(), s.len());
        assert_eq!(transform_positive_negative_binary(once), s);
    }
}

#[test]
fn zig_zag_order_of_cells() {
    let mut m = [[0i32; 8]; 8];
    for r in 0..8 {
        for c in 0..8 {
            m[r][c] = (r * 8 + c) as i32;
        }
    }
    let z = zig_zag_matrix(m);
    let expected = vec![
        0, 1, 8, 16, 9, 2, 3, 10, 17, 24, 32, 25, 18, 11, 4, 5, 12, 19, 26, 33, 40, 48, 41, 34,
        27, 20, 13, 6, 7, 14, 21, 28, 35, 42, 49, 56, 57, 50, 43, 36, 29, 22, 15, 23, 30, 37, 44,
        51, 58, 59, 52, 45, 38, 31, 39, 46, 53, 60, 61, 54, 47, 55, 62, 63,
    ];
    assert_eq!(z, expected);
}

#[test]
fn zig_zag_is_a_permutation_for_floats() {
    let mut m = [[0.0f32; 8]; 8];
    for r in 0..8 {
        for c in 0..8 {
            m[r][c] = (r * 8 + c) as f32 + 0.5;
        }
    }
    let z = zig_zag_matrix(m);
    assert_eq!(z.len(), 64);
    assert_eq!(z[0], 0.5);
    let mut seen = vec![false; 64];
    for x in z {
        let k = x as usize;
        assert!(!seen[k]);
        seen[k] = true;
    }
    assert!(seen.iter().all(|b| *b));
}

#[test]
fn table_set_then_get() {
    let mut t = TableACHuffman::new();
    t.set(1, 2, "11011");
    t.set(200, 255, "0");
    assert_eq!(t.get(1, 2), "11011");
    assert_eq!(t.get(200, 255), "0");
    t.set(1, 2, "1");
    assert_eq!(t.get(1, 2), "1");
    assert_eq!(t.get(200, 255), "0");
}

#[test]
fn standard_ac_codes() {
    let t = ac_luminance_table();
    assert_eq!(t.get(0, 0), "1010");
    assert_eq!(t.get(0, 1), "00");
    assert_eq!(t.get(0, 10), "1111111110000011");
    assert_eq!(t.get(1, 1), "1100");
    assert_eq!(t.get(2, 2), "11111001");
    assert_eq!(t.get(15, 10), "1111111111111110");
    assert_eq!(t.get(15, 0), "11111111001");
}

#[test]
fn standard_dc_codes() {
    let t = dc_luminance_table();
    assert_eq!(t.len(), 12);
    assert_eq!(t[&0], "00");
    assert_eq!(t[&3], "100");
    assert_eq!(t[&11], "111111110");
}

#[test]
fn stream_with_runs_and_negative_value() {
    let m = zeros_with(5, &[(3, 3), (4, -2)]);
    assert_eq!(
        get_binary_stream_from_zig_zag_array(&m, 0, true),
        "100101111110011101011010"
    );
}

#[test]
fn stream_with_negative_dc() {
    let m = zeros_with(-3, &[]);
    assert_eq!(get_binary_stream_from_zig_zag_array(&m, 0, true), "010001010");
}

#[test]
fn stream_dc_difference_and_long_run() {
    let m = zeros_with(7, &[(18, 1)]);
    assert_eq!(
        get_binary_stream_from_zig_zag_array(&m, 4, false),
        "011111111111100111010"
    );
}

#[test]
fn stream_saturates_large_values() {
    let m = vec![300, 256, -127, 200];
    assert_eq!(
        get_binary_stream_from_zig_zag_array(&m, 0, true),
        "1111101111111001111111111110000000000111111011011111111010"
    );
}

#[test]
fn stream_of_zero_block() {
    let m = vec![0; 64];
    // category 1 ("010"), the complemented digit of 0 ("1"), end of block
    assert_eq!(get_binary_stream_from_zig_zag_array(&m, 0, true), "01011010");
}

#[test]
fn transform_binary_returns_dc() {
    let mut a = [[0i32; 8]; 8];
    a[0][0] = 10;
    a[0][1] = 3;
    let (bits, dc) = Dct2Jpeg::transform_binary(a, true, 0);
    assert_eq!(bits, "101101001111010");
    assert_eq!(dc, 10);
}

#[test]
fn forward_chains_dc_values() {
    let mut a = [[0i32; 8]; 8];
    a[0][0] = 10;
    a[0][1] = 3;
    let mut b = [[0i32; 8]; 8];
    b[0][0] = 4;
    b[1][0] = -1;
    assert_eq!(Dct2Jpeg::forward(&vec![a]), "101101001111010");
    assert_eq!(
        Dct2Jpeg::forward(&vec![a, b]),
        "101101001111010010001110001010"
    );
    assert_eq!(Dct2Jpeg::forward(&vec![]), "");
}

#[test]
fn block_counts_round_up() {
    assert_eq!(Dct2Jpeg::block_counts(16, 8), (2, 1));
    assert_eq!(Dct2Jpeg::block_counts(17, 1), (3, 1));
    assert_eq!(Dct2Jpeg::block_counts(0, 9), (0, 2));
}

#[test]
fn split_pads_with_zeros() {
    let bytes: Vec<u8> = (0..90).map(|x| x as u8 + 1).collect();
    let img = ImagePixels { width: 10, height: 9, bytes: bytes.clone() };
    let blocks = Dct2Jpeg::split_image_block(&img);
    assert_eq!(blocks.len(), 4);
    for r in 0..8 {
        for c in 0..8 {
            assert_eq!(blocks[0][r][c], bytes[c * 9 + r]);
            let right = if c < 2 { bytes[(8 + c) * 9 + r] } else { 0 };
            assert_eq!(blocks[1][r][c], right);
            let below = if r == 0 { bytes[c * 9 + 8] } else { 0 };
            assert_eq!(blocks[2][r][c], below);
            let corner = if r == 0 && c < 2 { bytes[(8 + c) * 9 + 8] } else { 0 };
            assert_eq!(blocks[3][r][c], corner);
        }
    }
}

#[test]
fn split_of_empty_width() {
    let img = ImagePixels { width: 0, height: 3, bytes: vec![] };
    assert_eq!(Dct2Jpeg::split_image_block(&img).len(), 0);
}

#[test]
fn stream_is_made_of_binary_digits() {
    let mut blocks = Vec::new();
    for k in 0..5i32 {
        let mut b = [[0i32; 8]; 8];
        for r in 0..8 {
            for c in 0..8 {
                b[r][c] = ((r as i32 * 7 + c as i32 * 3 + k * 11) % 41) - 20;
            }
        }
        b[0][0] = 30 + k * 20;
        blocks.push(b);
    }
    let s = Dct2Jpeg::forward(&blocks);
    assert!(!s.is_empty());
    assert!(s.chars().all(|c| c == '0' || c == '1'));
    let mut expected = String::new();
    let mut prev = 0;
    for (k, b) in blocks.iter().enumerate() {
        let (bits, dc) = Dct2Jpeg::transform_binary(*b, k == 0, prev);
        expected.push_str(&bits);
        prev = dc;
    }
    assert_eq!(s, expected);
}

#[test]
fn every_sample_lands_in_its_block() {
    let (w, h) = (13u32, 11u32);
    let bytes: Vec<u8> = (0..(w * h)).map(|x| (x % 251) as u8).collect();
    let img = ImagePixels { width: w, height: h, bytes: bytes.clone() };
    let blocks = Dct2Jpeg::split_image_block(&img);
    let (across, down) = Dct2Jpeg::block_counts(w, h);
    assert_eq!(blocks.len(), across * down);
    for i in 0..h as usize {
        for j in 0..w as usize {
            let k = (i / 8) * across + j / 8;
            assert_eq!(blocks[k][i % 8][j % 8], bytes[j * h as usize + i]);
        }
    }
}
