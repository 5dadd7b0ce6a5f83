# dct2jpeg

A small baseline-JPEG style block encoder, verified with Verus.

- `src/blocks.rs`: cutting a grayscale image into 8x8 blocks, padded with zeros.
- `src/quantization.rs`: the luminance and chrominance quantization tables.
- `src/zigzag.rs`: the zig-zag scan of a block, and the proof that it visits every cell once.
- `src/huffman.rs`: the AC Huffman table type and the standard AC/DC luminance codes.
- `src/binary.rs`: binary digits of a byte and their complement.
- `src/encoder.rs`: run-length and Huffman coding of quantized blocks into a bit string, with
  DC values coded as differences from block to block.
- `app/main.rs`: reads an image, computes the floating-point DCT of each block, and prints
  the bit stream that the library produces.
