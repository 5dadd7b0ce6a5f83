//! Baseline JPEG-style block encoder: image blocks, quantization tables,
//! zig-zag ordering and Huffman bit-stream generation.

pub mod binary;
pub mod blocks;
pub mod encoder;
pub mod huffman;
pub mod quantization;
pub mod zigzag;
