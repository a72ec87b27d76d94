//! The byte layout of cells and shader parameters in GPU memory.
//!
//! GPU buffers hold bytes; each cell (an `i32`) and each shader parameter (a
//! `u32`) takes four of them, in the byte order of the machine
//! (`vstd::endian::endianness()`).

use vstd::prelude::*;
use vstd::endian::{Endian, endianness};
use bytemuck::PodCastError;

verus! {

/// `bytemuck::PodCastError`, the error of a refused cast.
#[verifier::external_type_specification]
#[verifier::external_body]
pub struct ExPodCastError(PodCastError);

/// Byte `k` (from 0 to 3) of the four bytes that store `word` in byte order
/// `order`.
pub open spec fn word_byte(order: Endian, word: u32, k: int) -> u8 {
    let significance = match order {
        Endian::Little => k,
        Endian::Big => 3 - k,
    };
    if significance == 0 {
        (word & 0xff) as u8
    } else if significance == 1 {
        ((word >> 8u32) & 0xff) as u8
    } else if significance == 2 {
        ((word >> 16u32) & 0xff) as u8
    } else {
        ((word >> 24u32) & 0xff) as u8
    }
}

/// The four bytes that store `word` in byte order `order`.
pub open spec fn word_bytes(order: Endian, word: u32) -> Seq<u8> {
    Seq::new(4, |k: int| word_byte(order, word, k))
}

/// The word stored in `bytes[start..start + 4]` in byte order `order`.
pub open spec fn bytes_word(order: Endian, bytes: Seq<u8>, start: int) -> u32 {
    let (b0, b1, b2, b3) = match order {
        Endian::Little => (bytes[start], bytes[start + 1], bytes[start + 2], bytes[start + 3]),
        Endian::Big => (bytes[start + 3], bytes[start + 2], bytes[start + 1], bytes[start]),
    };
    (b0 as u32) | ((b1 as u32) << 8u32) | ((b2 as u32) << 16u32) | ((b3 as u32) << 24u32)
}

/// The bytes of a sequence of words, four per word, in byte order `order`.
pub open spec fn words_to_bytes(order: Endian, words: Seq<u32>) -> Seq<u8> {
    Seq::new(4 * words.len(), |j: int| word_byte(order, words[j / 4], j % 4))
}

/// The words stored in a byte sequence, four bytes per word, in byte order
/// `order`.
pub open spec fn bytes_to_words(order: Endian, bytes: Seq<u8>) -> Seq<u32> {
    Seq::new(bytes.len() / 4, |i: int| bytes_word(order, bytes, 4 * i))
}

/// The bytes of a sequence of cells: each cell is stored as the `u32` of the
/// same bits.
pub open spec fn cells_to_bytes(order: Endian, cells: Seq<i32>) -> Seq<u8> {
    words_to_bytes(order, cells.map_values(|c: i32| c as u32))
}

/// The cells stored in a byte sequence: each word read back is taken as the
/// `i32` of the same bits.
pub open spec fn bytes_to_cells(order: Endian, bytes: Seq<u8>) -> Seq<i32> {
    bytes_to_words(order, bytes).map_values(|w: u32| w as i32)
}

/// `i32::to_ne_bytes`: the four bytes of `value` in the byte order of the
/// machine.
#[verifier::external_body]
fn i32_to_ne_bytes(value: i32) -> (bytes: [u8; 4])
    ensures
        bytes@ == word_bytes(endianness(), value as u32),
{
    value.to_ne_bytes()
}

/// `bytemuck::cast_slice` from `u32` to `u8` (copied into a vector): the
/// bytes of the words in the byte order of the machine. A cast to bytes never
/// fails.
#[verifier::external_body]
fn cast_words_to_bytes(words: &[u32]) -> (bytes: Vec<u8>)
    ensures
        bytes@ == words_to_bytes(endianness(), words@),
{
    bytemuck::cast_slice::<u32, u8>(words).to_vec()
}

/// `bytemuck::try_cast_slice` from `u8` to `u32` (copied into a vector). It
/// fails when the byte count is not a multiple of four, and also when the
/// slice does not start at an address aligned for `u32`, which is not stated
/// here; on success the words are those the bytes store in the byte order of
/// the machine.
#[verifier::external_body]
pub(crate) fn try_cast_bytes_to_words(bytes: &[u8]) -> (words: Result<Vec<u32>, PodCastError>)
    ensures
        bytes@.len() % 4 != 0 ==> words is Err,
        words matches Ok(w) ==> w@ == bytes_to_words(endianness(), bytes@),
{
    match bytemuck::try_cast_slice::<u8, u32>(bytes) {
        Ok(w) => Ok(w.to_vec()),
        Err(e) => Err(e),
    }
}

/// Decoding the bytes of a word gives the word back, in either byte order.
pub proof fn lemma_word_round_trip(order: Endian, word: u32)
    ensures
        bytes_word(order, word_bytes(order, word), 0) == word,
{
    let b = word_bytes(order, word);
    let b0 = (word & 0xff) as u8;
    let b1 = ((word >> 8u32) & 0xff) as u8;
    let b2 = ((word >> 16u32) & 0xff) as u8;
    let b3 = ((word >> 24u32) & 0xff) as u8;
    assert((b0 as u32) | ((b1 as u32) << 8u32) | ((b2 as u32) << 16u32) | ((b3 as u32) << 24u32)
        == word) by (bit_vector)
        requires
            b0 == (word & 0xff) as u8,
            b1 == ((word >> 8u32) & 0xff) as u8,
            b2 == ((word >> 16u32) & 0xff) as u8,
            b3 == ((word >> 24u32) & 0xff) as u8,
    ;
    match order {
        Endian::Little => {
            assert(b[0] == b0 && b[1] == b1 && b[2] == b2 && b[3] == b3);
        },
        Endian::Big => {
            assert(b[3] == b0 && b[2] == b1 && b[1] == b2 && b[0] == b3);
        },
    }
}

/// Storing cells as bytes and reading the bytes back as cells gives the same
/// cells, in either byte order: what is uploaded to the GPU is what a
/// readback of the untouched buffer decodes to.
pub proof fn lemma_cells_round_trip(order: Endian, cells: Seq<i32>)
    ensures
        bytes_to_cells(order, cells_to_bytes(order, cells)) == cells,
{
    let words = cells.map_values(|c: i32| c as u32);
    let bytes = cells_to_bytes(order, cells);
    let back = bytes_to_cells(order, bytes);
    assert(bytes.len() == 4 * cells.len());
    assert(back.len() == cells.len());
    assert forall|i: int| 0 <= i < cells.len() implies back[i] == cells[i] by {
        let w = words[i];
        lemma_word_round_trip(order, w);
        let own = word_bytes(order, w);
        assert forall|k: int| 0 <= k < 4 implies bytes[4 * i + k] == own[k] by {
            assert((4 * i + k) / 4 == i);
            assert((4 * i + k) % 4 == k);
        }
        assert(bytes_word(order, bytes, 4 * i) == bytes_word(order, own, 0));
        let c = cells[i];
        assert(((c as u32) as i32) == c) by (bit_vector);
    }
    assert(back =~= cells);
}

/// The bytes uploaded for `cells` fill a buffer sized for them exactly:
/// four bytes per cell, the size `schedule::grid_buffer_size` gives.
pub proof fn lemma_upload_fills_buffer(order: Endian, cells: Seq<i32>)
    ensures
        cells_to_bytes(order, cells).len() == 4 * cells.len(),
{
}

/// The bytes that hold `cells` in GPU memory: each cell in turn, four bytes
/// each, in the byte order of the machine (`i32::to_ne_bytes`).
pub fn cells_to_ne_bytes(cells: &[i32]) -> (bytes: Vec<u8>)
    requires
        4 * cells@.len() <= usize::MAX,
    ensures
        bytes@ == cells_to_bytes(endianness(), cells@),
{
    let ghost order = endianness();
    let ghost words = cells@.map_values(|c: i32| c as u32);
    let mut bytes: Vec<u8> = Vec::new();
    let mut i: usize = 0;
    while i < cells.len()
        invariant
            i <= cells@.len(),
            4 * cells@.len() <= usize::MAX,
            order == endianness(),
            words == cells@.map_values(|c: i32| c as u32),
            bytes@.len() == 4 * i,
            forall|j: int| 0 <= j < 4 * i ==> #[trigger] bytes@[j] == word_byte(order, words[j / 4], j % 4),
        decreases cells@.len() - i,
    {
        let quad = i32_to_ne_bytes(cells[i]);
        assert(words[i as int] == cells@[i as int] as u32);
        let mut k: usize = 0;
        while k < 4
            invariant
                k <= 4,
                i < cells@.len(),
                4 * cells@.len() <= usize::MAX,
                quad@ == word_bytes(order, words[i as int]),
                bytes@.len() == 4 * i + k,
                forall|j: int| 0 <= j < 4 * i + k ==> #[trigger] bytes@[j] == word_byte(order, words[j / 4], j % 4),
            decreases 4 - k,
        {
            let ghost before = bytes@;
            bytes.push(quad[k]);
            assert forall|j: int| 0 <= j < 4 * i + k + 1 implies #[trigger] bytes@[j] == word_byte(order, words[j / 4], j % 4) by {
                if j < 4 * i + k {
                    assert(bytes@[j] == before[j]);
                } else {
                    assert(j / 4 == i as int);
                    assert(j % 4 == k as int);
                }
            }
            k = k + 1;
        }
        i = i + 1;
    }
    assert(bytes@ =~= cells_to_bytes(order, cells@));
    bytes
}

/// The bytes of the shader's parameters, the grid's width then its height,
/// as `bytemuck::cast_slice` lays them out.
pub fn shader_params_bytes(width: u32, height: u32) -> (bytes: Vec<u8>)
    ensures
        bytes@ == words_to_bytes(endianness(), seq![width, height]),
{
    let params: [u32; 2] = [width, height];
    let bytes = cast_words_to_bytes(params.as_slice());
    assert(params@ =~= seq![width, height]);
    bytes
}

/// The cells that the result of casting readback bytes to `u32` words
/// holds: each word taken as the `i32` of the same bits, in order. `None`
/// exactly when the cast failed.
pub fn cells_from_cast(words: Result<Vec<u32>, PodCastError>) -> (cells: Option<Vec<i32>>)
    ensures
        cells is Some <==> words is Ok,
        words matches Ok(w) ==> cells matches Some(c) && c@ == w@.map_values(|x: u32| x as i32),
{
    match words {
        Ok(words) => {
            let mut cells: Vec<i32> = Vec::new();
            let mut i: usize = 0;
            while i < words.len()
                invariant
                    i <= words@.len(),
                    cells@.len() == i,
                    forall|j: int| 0 <= j < i ==> #[trigger] cells@[j] == words@[j] as i32,
                decreases words@.len() - i,
            {
                cells.push(words[i] as i32);
                i = i + 1;
            }
            assert(cells@ =~= words@.map_values(|x: u32| x as i32));
            Some(cells)
        },
        Err(_) => None,
    }
}

/// The cells that a readback of a GPU buffer holds: its words, in the
/// machine's byte order, each taken as the `i32` of the same bits; `None`
/// when the cast of the bytes to `u32` words fails because they do not start
/// at an address aligned for `u32`. The byte count must be a multiple of
/// four: a readback holds whole cells.
pub fn cells_from_readback(bytes: &[u8]) -> (cells: Option<Vec<i32>>)
    requires
        bytes@.len() % 4 == 0,
    ensures
        cells matches Some(c) ==> c@ == bytes_to_cells(endianness(), bytes@),
        cells matches Some(c) ==> c@.len() == bytes@.len() / 4 && forall|i: int|
            0 <= i < bytes@.len() / 4 ==> #[trigger] c@[i] == (bytes_word(endianness(), bytes@, 4 * i)
                as i32),
{
    cells_from_cast(try_cast_bytes_to_words(bytes))
}

} // verus!
