//! The frame buffer and the encoding of colors into sequencer codes.
use vstd::prelude::*;
use crate::color::{Color, color_bit, frame_bit, grb_word};
use crate::timing::{ONE_CODE, RGB_SIZE, ZERO_CODE};

verus! {

/// The sequencer code that transmits `bit`.
pub open spec fn code_of(bit: bool) -> u16 {
    if bit {
        ONE_CODE
    } else {
        ZERO_CODE
    }
}

/// How many colors an encoding writes into a buffer of `len` codes: one per
/// whole chunk of 24 codes, as far as colors last.
pub open spec fn chunks_filled(len: nat, n_colors: nat) -> nat {
    if n_colors <= len / 24 {
        n_colors
    } else {
        len / 24
    }
}

/// The buffer `buf` after encoding `colors`: chunk `k` holds the 24 codes of
/// `colors[k]` in transmitted bit order, and every code past the last chunk
/// written keeps its value.
pub open spec fn encoded(buf: Seq<u16>, colors: Seq<Color>) -> Seq<u16> {
    Seq::new(
        buf.len(),
        |i: int|
            if i < 24 * chunks_filled(buf.len(), colors.len()) {
                code_of(color_bit(colors[i / 24], i % 24))
            } else {
                buf[i]
            },
    )
}

/// A buffer of `N` sequencer codes, which DMA reads during a transmission.
pub struct DmaBuffer<const N: usize>(pub [u16; N]);

impl<const N: usize> View for DmaBuffer<N> {
    type V = Seq<u16>;

    open spec fn view(&self) -> Seq<u16> {
        self.0@
    }
}

impl<const N: usize> DmaBuffer<N> {
    /// A buffer of `N` zero codes.
    pub fn new() -> (buf: Self)
        ensures
            buf@ == Seq::new(N as nat, |i: int| 0u16),
    {
        let buf = DmaBuffer([0u16; N]);
        assert(buf@ =~= Seq::new(N as nat, |i: int| 0u16));
        buf
    }

    /// The codes, as the sequencer reads them.
    pub fn as_slice(&self) -> (s: &[u16])
        ensures
            s@ == self@,
    {
        self.0.as_slice()
    }

    /// Writes the codes of `colors`, 24 per color, from the start of the buffer.
    /// Colors beyond the buffer's last whole chunk are not written, and codes
    /// beyond the last chunk written keep their values.
    pub fn write_colors(&mut self, colors: &[Color])
        ensures
            final(self)@ == encoded(old(self)@, colors@),
    {
        let n_chunks: usize = N / RGB_SIZE;
        let n_colors: usize = if colors.len() <= n_chunks {
            colors.len()
        } else {
            n_chunks
        };
        let mut k: usize = 0;
        while k < n_colors
            invariant
                self@.len() == N,
                old(self)@.len() == N,
                n_colors == chunks_filled(N as nat, colors@.len()),
                k <= n_colors,
                forall|i: int|
                    0 <= i < 24 * k ==> #[trigger] self@[i] == code_of(
                        color_bit(colors@[i / 24], i % 24),
                    ),
                forall|i: int| 24 * k <= i < N ==> #[trigger] self@[i] == old(self)@[i],
            decreases n_colors - k,
        {
            let c = colors[k];
            let base: usize = k * RGB_SIZE;
            let mut j: usize = 0;
            while j < RGB_SIZE
                invariant
                    self@.len() == N,
                    old(self)@.len() == N,
                    n_colors == chunks_filled(N as nat, colors@.len()),
                    k < n_colors,
                    base == 24 * k,
                    c == colors@[k as int],
                    j <= 24,
                    forall|i: int|
                        0 <= i < base + j ==> #[trigger] self@[i] == code_of(
                            color_bit(colors@[i / 24], i % 24),
                        ),
                    forall|i: int| base + j <= i < N ==> #[trigger] self@[i] == old(self)@[i],
                decreases 24 - j,
            {
                let code: u16 = if frame_bit(&c, j) {
                    ONE_CODE
                } else {
                    ZERO_CODE
                };
                self.0[base + j] = code;
                assert((base + j) / 24 == k && (base + j) % 24 == j);
                j += 1;
            }
            k += 1;
        }
        assert(final(self)@ =~= encoded(old(self)@, colors@));
    }
}

/// The bit that a sequencer code transmits, as 0 or 1.
pub open spec fn bit_value(code: u16) -> int {
    if code == ONE_CODE {
        1
    } else {
        0
    }
}

/// The byte that the eight codes of `s` from index `at` transmit, most
/// significant bit first.
pub open spec fn byte_at(s: Seq<u16>, at: int) -> int {
    128 * bit_value(s[at]) + 64 * bit_value(s[at + 1]) + 32 * bit_value(s[at + 2]) + 16
        * bit_value(s[at + 3]) + 8 * bit_value(s[at + 4]) + 4 * bit_value(s[at + 5]) + 2
        * bit_value(s[at + 6]) + bit_value(s[at + 7])
}

/// The color that chunk `k` of `s` transmits: green, red and blue bytes in turn.
pub open spec fn decode_color(s: Seq<u16>, k: int) -> Color {
    Color { g: byte_at(s, 24 * k) as u8, r: byte_at(s, 24 * k + 8) as u8, b: byte_at(s, 24 * k + 16) as u8 }
}

/// The first `count` colors that `s` transmits.
pub open spec fn decoded(s: Seq<u16>, count: nat) -> Seq<Color> {
    Seq::new(count, |k: int| decode_color(s, k))
}

proof fn lemma_low_bit(x: u32)
    by (bit_vector)
    ensures
        x & 1u32 == 0u32 || x & 1u32 == 1u32,
{
}

proof fn lemma_grb_bytes(g: u8, r: u8, b: u8, w: u32)
    by (bit_vector)
    requires
        w == ((g as u32) << 16u32) | ((r as u32) << 8u32) | (b as u32),
    ensures
        g as u32 == ((w >> 23u32) & 1u32) * 128u32 + ((w >> 22u32) & 1u32) * 64u32 + ((w
            >> 21u32) & 1u32) * 32u32 + ((w >> 20u32) & 1u32) * 16u32 + ((w >> 19u32) & 1u32)
            * 8u32 + ((w >> 18u32) & 1u32) * 4u32 + ((w >> 17u32) & 1u32) * 2u32 + ((w
            >> 16u32) & 1u32),
        r as u32 == ((w >> 15u32) & 1u32) * 128u32 + ((w >> 14u32) & 1u32) * 64u32 + ((w
            >> 13u32) & 1u32) * 32u32 + ((w >> 12u32) & 1u32) * 16u32 + ((w >> 11u32) & 1u32)
            * 8u32 + ((w >> 10u32) & 1u32) * 4u32 + ((w >> 9u32) & 1u32) * 2u32 + ((w >> 8u32)
            & 1u32),
        b as u32 == ((w >> 7u32) & 1u32) * 128u32 + ((w >> 6u32) & 1u32) * 64u32 + ((w
            >> 5u32) & 1u32) * 32u32 + ((w >> 4u32) & 1u32) * 16u32 + ((w >> 3u32) & 1u32)
            * 8u32 + ((w >> 2u32) & 1u32) * 4u32 + ((w >> 1u32) & 1u32) * 2u32 + ((w >> 0u32) & 1u32),
{
}

/// The code for bit `j` of `c` transmits that bit's value.
proof fn lemma_bit_value(c: Color, j: int)
    requires
        0 <= j < 24,
    ensures
        bit_value(code_of(color_bit(c, j))) == ((grb_word(c) >> ((23 - j) as u32)) & 1u32) as int,
{
    lemma_low_bit(grb_word(c) >> ((23 - j) as u32));
    crate::timing::lemma_timing_constants();
}

/// Chunk `k` of a buffer holding the codes of `c` there transmits `c`.
proof fn lemma_decode_chunk(s: Seq<u16>, k: int, c: Color)
    requires
        0 <= k,
        24 * k + 24 <= s.len(),
        forall|j: int| 0 <= j < 24 ==> #[trigger] s[24 * k + j] == code_of(color_bit(c, j)),
    ensures
        decode_color(s, k) == c,
{
    let w = grb_word(c);
    lemma_grb_bytes(c.g, c.r, c.b, w);
    assert forall|i: int| 24 * k <= i < 24 * k + 24 implies bit_value(#[trigger] s[i]) == ((w >> ((
    23 - (i - 24 * k)) as u32)) & 1u32) as int by {
        assert(s[i] == s[24 * k + (i - 24 * k)]);
        lemma_bit_value(c, i - 24 * k);
    }
    assert(byte_at(s, 24 * k) == c.g);
    assert(byte_at(s, 24 * k + 8) == c.r);
    assert(byte_at(s, 24 * k + 16) == c.b);
}

/// Decoding a buffer after `colors` were encoded into it gives back `colors`,
/// when the buffer has a chunk for each of them.
pub proof fn lemma_decode_encoded(buf: Seq<u16>, colors: Seq<Color>)
    requires
        24 * colors.len() <= buf.len(),
    ensures
        decoded(encoded(buf, colors), colors.len()) == colors,
{
    let e = encoded(buf, colors);
    assert forall|k: int| 0 <= k < colors.len() implies decode_color(e, k) == colors[k] by {
        assert forall|j: int| 0 <= j < 24 implies #[trigger] e[24 * k + j] == code_of(
            color_bit(colors[k], j),
        ) by {
            assert((24 * k + j) / 24 == k && (24 * k + j) % 24 == j);
        }
        lemma_decode_chunk(e, k, colors[k]);
    }
    assert(decoded(e, colors.len()) =~= colors);
}

/// Encoding depends on nothing but the colors and the codes it leaves alone:
/// two buffers that agree past the chunks written (two zeroed buffers, say)
/// come out equal; and encoding the same colors again changes nothing.
pub proof fn lemma_encode_deterministic(a: Seq<u16>, b: Seq<u16>, colors: Seq<Color>)
    requires
        a.len() == b.len(),
        forall|i: int|
            24 * chunks_filled(a.len(), colors.len()) <= i < a.len() ==> #[trigger] a[i] == b[i],
    ensures
        encoded(a, colors) == encoded(b, colors),
        encoded(encoded(a, colors), colors) == encoded(a, colors),
{
    assert(encoded(a, colors) =~= encoded(b, colors));
    assert(encoded(encoded(a, colors), colors) =~= encoded(a, colors));
}

} // verus!
