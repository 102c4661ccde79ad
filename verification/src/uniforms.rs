//! Fixed-layout parameter records and their byte images.

use vstd::prelude::*;

verus! {

/// Number of bytes in every uniform record.
pub const UNIFORM_BYTES: usize = 16;

/// The byte of `word` that has weight `256^rank`, for `rank` in `0..4`.
pub open spec fn byte_of_rank(word: u32, rank: int) -> u8 {
    if rank == 0 {
        (word % 256) as u8
    } else if rank == 1 {
        ((word / 256) % 256) as u8
    } else if rank == 2 {
        ((word / 65536) % 256) as u8
    } else {
        ((word / 16777216) % 256) as u8
    }
}

/// The byte that stands at `position` (`0..4`) in the memory image of `word`
/// under the given byte order.
pub open spec fn byte_in_memory(word: u32, position: int, little_endian: bool) -> u8 {
    if little_endian {
        byte_of_rank(word, position)
    } else {
        byte_of_rank(word, 3 - position)
    }
}

/// `bytes` is the memory image of `words` under the given byte order: four
/// bytes per word, words in sequence order.
pub open spec fn is_image(words: Seq<u32>, bytes: Seq<u8>, little_endian: bool) -> bool {
    &&& bytes.len() == 4 * words.len()
    &&& forall|i: int|
        0 <= i < bytes.len() ==> #[trigger] bytes[i] == byte_in_memory(
            words[i / 4],
            i % 4,
            little_endian,
        )
}

/// `bytes` is the memory image of `words` in one of the two byte orders a
/// machine can have.
pub open spec fn is_native_image(words: Seq<u32>, bytes: Seq<u8>) -> bool {
    is_image(words, bytes, true) || is_image(words, bytes, false)
}

/// The four bytes of `bytes` that start at `offset` hold `word` under the
/// given byte order.
pub open spec fn holds_word(bytes: Seq<u8>, offset: int, word: u32, little_endian: bool) -> bool {
    &&& 0 <= offset
    &&& offset + 4 <= bytes.len()
    &&& forall|k: int|
        0 <= k < 4 ==> #[trigger] bytes[offset + k] == byte_in_memory(word, k, little_endian)
}

/// In an image, word `index` stands at byte offset `4 * index`.
pub proof fn lemma_image_holds_word(
    words: Seq<u32>,
    bytes: Seq<u8>,
    little_endian: bool,
    index: int,
)
    requires
        is_image(words, bytes, little_endian),
        0 <= index < words.len(),
    ensures
        holds_word(bytes, 4 * index, words[index], little_endian),
{
    assert forall|k: int| 0 <= k < 4 implies #[trigger] bytes[4 * index + k] == byte_in_memory(
        words[index],
        k,
        little_endian,
    ) by {
        let i = 4 * index + k;
        assert(i / 4 == index && i % 4 == k);
    }
}

/// Reinterprets the words as bytes with `bytemuck::cast_slice` and copies
/// them into a vector.
///
/// Not proved: that the cast, from `u32` to `u8`, always succeeds and yields
/// the memory of the words as it stands, four bytes per word in the byte
/// order of the machine.
#[verifier::external_body]
pub(crate) fn words_as_bytes(words: &Vec<u32>) -> (bytes: Vec<u8>)
    ensures
        is_native_image(words@, bytes@),
{
    bytemuck::cast_slice::<u32, u8>(words.as_slice()).to_vec()
}

/// Per-frame time record: the time step followed by padding up to sixteen
/// bytes.
#[derive(Clone, Copy, Debug, PartialEq, Eq, Structural)]
pub struct TimeUniform {
    /// Bit pattern of the time step in seconds, an IEEE-754 single.
    pub dt: u32,
}

impl TimeUniform {
    /// The record as words: the time step, then three words of padding.
    pub open spec fn words(self) -> Seq<u32> {
        seq![self.dt, 0u32, 0u32, 0u32]
    }

    /// `bytes` is this record under the given byte order: sixteen bytes, the
    /// time step at offset 0, zero padding behind it.
    pub open spec fn is_layout(self, bytes: Seq<u8>, little_endian: bool) -> bool {
        &&& bytes.len() == 16
        &&& holds_word(bytes, 0, self.dt, little_endian)
        &&& forall|i: int| 4 <= i < 16 ==> #[trigger] bytes[i] == 0
    }

    /// Serializes the record for upload.
    pub fn to_bytes(&self) -> (bytes: Vec<u8>)
        ensures
            bytes@.len() == UNIFORM_BYTES,
            is_native_image(self.words(), bytes@),
            self.is_layout(bytes@, true) || self.is_layout(bytes@, false),
    {
        let mut words: Vec<u32> = Vec::new();
        words.push(self.dt);
        words.push(0);
        words.push(0);
        words.push(0);
        assert(words@ =~= self.words());
        let bytes = words_as_bytes(&words);
        proof {
            lemma_time_layout(*self, bytes@, true);
            lemma_time_layout(*self, bytes@, false);
        }
        bytes
    }
}

/// An image of a time record has the record's layout.
pub proof fn lemma_time_layout(record: TimeUniform, bytes: Seq<u8>, little_endian: bool)
    ensures
        is_image(record.words(), bytes, little_endian) ==> record.is_layout(bytes, little_endian),
{
    if is_image(record.words(), bytes, little_endian) {
        let words = record.words();
        lemma_image_holds_word(words, bytes, little_endian, 0);
        assert forall|i: int| 4 <= i < 16 implies #[trigger] bytes[i] == 0 by {
            assert(1 <= i / 4 < 4);
            assert(words[i / 4] == 0);
        }
    }
}

/// Brush record: where and how wide the pointer injects a perturbation.
#[derive(Clone, Copy, Debug, PartialEq, Eq, Structural)]
pub struct BrushUniform {
    /// Bit pattern of the centre's horizontal grid coordinate.
    pub c_x: u32,
    /// Bit pattern of the centre's vertical grid coordinate.
    pub c_y: u32,
    /// Bit pattern of the radius in grid cells.
    pub radius: u32,
}

/// Bit pattern of the single-precision value five, the radius of the brush
/// while nothing else has been chosen.
pub const DEFAULT_BRUSH_RADIUS: u32 = 0x40A0_0000;

impl BrushUniform {
    /// The record as words: centre, radius, one word of padding.
    pub open spec fn words(self) -> Seq<u32> {
        seq![self.c_x, self.c_y, self.radius, 0u32]
    }

    /// `bytes` is this record under the given byte order: sixteen bytes with
    /// the centre at offsets 0 and 4, the radius at offset 8 and zero padding
    /// behind it.
    pub open spec fn is_layout(self, bytes: Seq<u8>, little_endian: bool) -> bool {
        &&& bytes.len() == 16
        &&& holds_word(bytes, 0, self.c_x, little_endian)
        &&& holds_word(bytes, 4, self.c_y, little_endian)
        &&& holds_word(bytes, 8, self.radius, little_endian)
        &&& forall|i: int| 12 <= i < 16 ==> #[trigger] bytes[i] == 0
    }

    /// The brush at rest: centre at the origin, default radius.
    pub open spec fn spec_inactive() -> BrushUniform {
        BrushUniform { c_x: 0, c_y: 0, radius: DEFAULT_BRUSH_RADIUS }
    }

    /// The brush at rest: centre at the origin, default radius. The radius
    /// is the pattern of a positive finite number: no sign bit, and an
    /// exponent that is not all ones.
    pub fn inactive() -> (brush: BrushUniform)
        ensures
            brush == Self::spec_inactive(),
            0 < brush.radius < 0x7F80_0000,
    {
        BrushUniform { c_x: 0, c_y: 0, radius: DEFAULT_BRUSH_RADIUS }
    }

    /// Serializes the record for upload.
    pub fn to_bytes(&self) -> (bytes: Vec<u8>)
        ensures
            bytes@.len() == UNIFORM_BYTES,
            is_native_image(self.words(), bytes@),
            self.is_layout(bytes@, true) || self.is_layout(bytes@, false),
    {
        let mut words: Vec<u32> = Vec::new();
        words.push(self.c_x);
        words.push(self.c_y);
        words.push(self.radius);
        words.push(0);
        assert(words@ =~= self.words());
        let bytes = words_as_bytes(&words);
        proof {
            lemma_brush_layout(*self, bytes@, true);
            lemma_brush_layout(*self, bytes@, false);
        }
        bytes
    }
}

/// An image of a brush record has the record's layout.
pub proof fn lemma_brush_layout(record: BrushUniform, bytes: Seq<u8>, little_endian: bool)
    ensures
        is_image(record.words(), bytes, little_endian) ==> record.is_layout(bytes, little_endian),
{
    if is_image(record.words(), bytes, little_endian) {
        let words = record.words();
        lemma_image_holds_word(words, bytes, little_endian, 0);
        lemma_image_holds_word(words, bytes, little_endian, 1);
        lemma_image_holds_word(words, bytes, little_endian, 2);
        assert forall|i: int| 12 <= i < 16 implies #[trigger] bytes[i] == 0 by {
            assert(i / 4 == 3);
            assert(words[i / 4] == 0);
        }
    }
}

} // verus!
