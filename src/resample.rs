use vstd::prelude::*;
use crate::filter::{FilterType, selector_of};

verus! {

/// Why a resample cannot be dispatched.
#[derive(Clone, Copy, Debug, PartialEq, Eq, Structural)]
pub enum ResampleError {
    /// A side of the input or of the output is zero.
    EmptyGeometry,
    /// A side does not fit in 32 bits, or the output raster's byte count does not.
    TooLarge,
    /// The input raster does not hold four bytes for each input pixel.
    LengthMismatch,
}

/// Edge length, in destination pixels, of the square tile one GPU workgroup computes.
pub const TILE: u32 = 8;

/// A checked resample job: the input and output sides as the GPU reads them,
/// and the kernel.
#[derive(Clone, Copy, Debug, PartialEq, Eq, Structural)]
pub struct ResamplePlan {
    pub in_w: u32,
    pub in_h: u32,
    pub out_w: u32,
    pub out_h: u32,
    pub filter: FilterType,
}

impl ResamplePlan {
    /// All sides positive and the output raster's byte count fits in 32 bits.
    pub open spec fn wf(self) -> bool {
        &&& self.in_w > 0
        &&& self.in_h > 0
        &&& self.out_w > 0
        &&& self.out_h > 0
        &&& self.out_w * self.out_h * 4 <= u32::MAX
    }

    /// The byte count of the output raster.
    pub open spec fn out_len(self) -> int {
        self.out_w * self.out_h * 4
    }
}

/// Tiles needed to cover `n` pixels along one axis.
pub open spec fn tiles_for(n: int) -> int {
    (n + TILE - 1) / (TILE as int)
}

/// What planning a resample gives, in the order the checks are made.
pub open spec fn plan_outcome(
    frame_len: usize,
    input_size: (usize, usize),
    output_size: (usize, usize),
    filter: FilterType,
) -> Result<ResamplePlan, ResampleError> {
    if input_size.0 == 0 || input_size.1 == 0 || output_size.0 == 0 || output_size.1 == 0 {
        Err(ResampleError::EmptyGeometry)
    } else if input_size.0 > u32::MAX || input_size.1 > u32::MAX || output_size.0 > u32::MAX
        || output_size.1 > u32::MAX || output_size.0 * output_size.1 * 4 > u32::MAX {
        Err(ResampleError::TooLarge)
    } else if frame_len != input_size.0 * input_size.1 * 4 {
        Err(ResampleError::LengthMismatch)
    } else {
        Ok(
            ResamplePlan {
                in_w: input_size.0 as u32,
                in_h: input_size.1 as u32,
                out_w: output_size.0 as u32,
                out_h: output_size.1 as u32,
                filter,
            },
        )
    }
}

/// Checks a request to resample a `frame_len`-byte RGBA raster of
/// `input_size` pixels to `output_size` pixels with `filter`.
pub fn plan_resample(
    frame_len: usize,
    input_size: (usize, usize),
    output_size: (usize, usize),
    filter: FilterType,
) -> (r: Result<ResamplePlan, ResampleError>)
    ensures
        r == plan_outcome(frame_len, input_size, output_size, filter),
        r matches Ok(p) ==> p.wf(),
{
    if input_size.0 == 0 || input_size.1 == 0 || output_size.0 == 0 || output_size.1 == 0 {
        return Err(ResampleError::EmptyGeometry);
    }
    if input_size.0 > u32::MAX as usize || input_size.1 > u32::MAX as usize || output_size.0
        > u32::MAX as usize || output_size.1 > u32::MAX as usize {
        return Err(ResampleError::TooLarge);
    }
    let ow: u128 = output_size.0 as u128;
    let oh: u128 = output_size.1 as u128;
    assert(ow * oh <= 0xffff_ffff * 0xffff_ffffu128) by (nonlinear_arith)
        requires
            ow <= 0xffff_ffff,
            oh <= 0xffff_ffff,
    ;
    if ow * oh * 4 > u32::MAX as u128 {
        return Err(ResampleError::TooLarge);
    }
    let iw: u128 = input_size.0 as u128;
    let ih: u128 = input_size.1 as u128;
    assert(iw * ih <= 0xffff_ffff * 0xffff_ffffu128) by (nonlinear_arith)
        requires
            iw <= 0xffff_ffff,
            ih <= 0xffff_ffff,
    ;
    if frame_len as u128 != iw * ih * 4 {
        return Err(ResampleError::LengthMismatch);
    }
    Ok(
        ResamplePlan {
            in_w: input_size.0 as u32,
            in_h: input_size.1 as u32,
            out_w: output_size.0 as u32,
            out_h: output_size.1 as u32,
            filter,
        },
    )
}

/// Byte `k` (0 is the least significant) of a word.
pub open spec fn word_byte(w: u32, k: int) -> u8 {
    ((w as int / pow256(k)) % 256) as u8
}

pub open spec fn pow256(k: int) -> int {
    if k <= 0 { 1 } else if k == 1 { 0x100 } else if k == 2 { 0x1_0000 } else { 0x100_0000 }
}

/// Words laid out as bytes, least significant byte of each word first.
pub open spec fn words_le(ws: Seq<u32>) -> Seq<u8> {
    Seq::new((ws.len() * 4) as nat, |i: int| word_byte(ws[i / 4], i % 4))
}

/// Words laid out as bytes, most significant byte of each word first.
pub open spec fn words_be(ws: Seq<u32>) -> Seq<u8> {
    Seq::new((ws.len() * 4) as nat, |i: int| word_byte(ws[i / 4], 3 - i % 4))
}

/// Every request with positive sides that the 32-bit parameter block can
/// carry, and an input raster of four bytes a pixel, is planned, whatever the
/// filter; and the output it accepts is exactly `width * height * 4` bytes of
/// the requested output.
pub proof fn lemma_valid_request_gives_full_output(
    frame_len: usize,
    input_size: (usize, usize),
    output_size: (usize, usize),
    filter: FilterType,
)
    requires
        input_size.0 > 0,
        input_size.1 > 0,
        output_size.0 > 0,
        output_size.1 > 0,
        input_size.0 <= u32::MAX,
        input_size.1 <= u32::MAX,
        output_size.0 * output_size.1 * 4 <= u32::MAX,
        frame_len == input_size.0 * input_size.1 * 4,
    ensures
        plan_outcome(frame_len, input_size, output_size, filter) is Ok,
        plan_outcome(frame_len, input_size, output_size, filter)->Ok_0.out_len() == output_size.0
            * output_size.1 * 4,
        plan_outcome(frame_len, input_size, output_size, filter)->Ok_0.wf(),
{
    assert(output_size.0 <= output_size.0 * output_size.1 && output_size.1 <= output_size.0
        * output_size.1) by (nonlinear_arith)
        requires
            output_size.0 > 0,
            output_size.1 > 0,
    ;
}

/// Relies on bytemuck::bytes_of: it views a `[u32; 6]` as its 24 bytes in
/// memory order, each word in the machine's byte order, which is little- or
/// big-endian.
#[verifier::external_body]
fn words_as_bytes(words: &[u32; 6]) -> (r: Vec<u8>)
    ensures
        r@ == words_le(words@) || r@ == words_be(words@),
{
    bytemuck::bytes_of(words).to_vec()
}

impl ResamplePlan {
    /// The byte count of the output raster, `out_w * out_h * 4`.
    pub fn output_len(&self) -> (r: u32)
        requires
            self.wf(),
        ensures
            r == self.out_len(),
    {
        self.out_w * self.out_h * 4
    }

    /// The workgroup grid: one workgroup per 8x8 tile of output pixels, enough
    /// tiles to cover every output pixel and no tile wholly outside the output.
    pub fn workgroups(&self) -> (r: (u32, u32))
        requires
            self.wf(),
        ensures
            r.0 == tiles_for(self.out_w as int),
            r.1 == tiles_for(self.out_h as int),
            r.0 * TILE >= self.out_w,
            (r.0 - 1) * TILE < self.out_w,
            r.1 * TILE >= self.out_h,
            (r.1 - 1) * TILE < self.out_h,
    {
        assert(self.out_w <= self.out_w * self.out_h && self.out_h <= self.out_w * self.out_h)
            by (nonlinear_arith)
            requires
                self.out_w > 0,
                self.out_h > 0,
        ;
        ((self.out_w + (TILE - 1)) / TILE, (self.out_h + (TILE - 1)) / TILE)
    }

    /// The uniform block the shader reads: input width and height, output
    /// width and height, the filter's selector and the strength's bits.
    pub fn uniform_words(&self, strength_bits: u32) -> (r: [u32; 6])
        ensures
            r@ == seq![
                self.in_w,
                self.in_h,
                self.out_w,
                self.out_h,
                selector_of(self.filter),
                strength_bits,
            ],
    {
        let r: [u32; 6] = [
            self.in_w,
            self.in_h,
            self.out_w,
            self.out_h,
            self.filter.selector(),
            strength_bits,
        ];
        assert(r@ =~= seq![
            self.in_w,
            self.in_h,
            self.out_w,
            self.out_h,
            selector_of(self.filter),
            strength_bits,
        ]);
        r
    }

    /// The uniform block as the bytes uploaded to the GPU: the six words of
    /// `uniform_words`, each in the machine's byte order.
    pub fn uniform_bytes(&self, strength_bits: u32) -> (r: Vec<u8>)
        ensures
            ({
                let ws = seq![
                    self.in_w,
                    self.in_h,
                    self.out_w,
                    self.out_h,
                    selector_of(self.filter),
                    strength_bits,
                ];
                r@ == words_le(ws) || r@ == words_be(ws)
            }),
            r@.len() == 24,
    {
        let words = self.uniform_words(strength_bits);
        words_as_bytes(&words)
    }

    /// Accepts what the GPU read back as the output raster only if it has
    /// exactly four bytes for each output pixel.
    pub fn accept_output(&self, data: Vec<u8>) -> (r: Option<Vec<u8>>)
        requires
            self.wf(),
        ensures
            r is Some <==> data@.len() == self.out_len(),
            r matches Some(d) ==> d@ == data@ && d@.len() == self.out_w * self.out_h * 4,
    {
        let n = self.output_len();
        if data.len() == n as usize {
            Some(data)
        } else {
            None
        }
    }
}

} // verus!
