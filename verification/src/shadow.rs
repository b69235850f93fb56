//! The host-side mirror of the tuner's control registers.
//!
//! The tuner's registers cannot be read back reliably, so the driver keeps the
//! last byte it sent to each of them and computes partial updates from that
//! mirror. This module holds the mathematical model of the mirror: what a
//! write does to it and which bus frames the write produces.

use crate::error::TunerError;
use vstd::prelude::*;

verus! {

/// Address of the first mirrored register.
pub const REG_SHADOW_START: u8 = 5;

/// Number of mirrored registers.
pub const NUM_REGS: usize = 30;

/// Longest write the bus carries in one transaction, the address byte included.
pub const MAX_I2C_MSG_LEN: usize = 8;

/// Power-on contents of registers `0x05` to `0x1f`.
pub const REG_INIT: [u8; 27] = [
    0x83, 0x32, 0x75, 0xc0, 0x40, 0xd6, 0x6c, 0xf5, 0x63, 0x75, 0x68, 0x6c, 0x83, 0x80, 0x00, 0x0f,
    0x00, 0xc0, 0x30, 0x48, 0xcc, 0x60, 0x00, 0x54, 0xae, 0x4a, 0xc0,
];

/// The mirror as a value: entry `i` stands for register `REG_SHADOW_START + i`
/// and is `None` until the register has been written.
pub type ShadowImage = Seq<Option<u8>>;

/// A write of `val` to register `reg` that touches only the bits set in `mask`.
#[derive(Clone, Copy, Debug, PartialEq, Eq, Structural)]
pub struct RegWrite {
    pub reg: u8,
    pub val: u8,
    pub mask: u8,
}

/// The mirror before anything has been written.
pub open spec fn blank_image() -> ShadowImage {
    Seq::new(NUM_REGS as nat, |i: int| None::<u8>)
}

/// Whether `reg` is a mirrored register.
pub open spec fn in_window(reg: int) -> bool {
    REG_SHADOW_START <= reg < REG_SHADOW_START + NUM_REGS
}

/// Whether the `len` registers from `reg` on are all mirrored.
pub open spec fn span_in_window(reg: int, len: int) -> bool {
    REG_SHADOW_START <= reg && 0 <= len && reg + len <= REG_SHADOW_START + NUM_REGS
}

/// What a read of the mirror gives for `reg`.
pub open spec fn spec_read_cached(img: ShadowImage, reg: int) -> Result<u8, TunerError> {
    if !in_window(reg) {
        Err(TunerError::OutOfRange)
    } else {
        match img[reg - REG_SHADOW_START] {
            Some(v) => Ok(v),
            None => Err(TunerError::Uninitialized),
        }
    }
}

/// The byte a partial update of `reg` starts from: the last byte written, or
/// zero for a register that has not been written yet.
pub open spec fn cached_byte(img: ShadowImage, reg: int) -> u8 {
    match img[reg - REG_SHADOW_START] {
        Some(v) => v,
        None => 0,
    }
}

/// `prior` with the bits selected by `mask` replaced by those of `val`.
pub open spec fn merge_bits(prior: u8, val: u8, mask: u8) -> u8 {
    (prior & !mask) | (val & mask)
}

/// The mirror after `bytes` were written to consecutive registers from `reg` on.
pub open spec fn stored(img: ShadowImage, reg: int, bytes: Seq<u8>) -> ShadowImage {
    Seq::new(
        img.len(),
        |i: int|
            if reg - REG_SHADOW_START <= i < reg - REG_SHADOW_START + bytes.len() {
                Some(bytes[i - (reg - REG_SHADOW_START)])
            } else {
                img[i]
            },
    )
}

/// The byte that the masked write `w` sends, given the mirror before it.
pub open spec fn applied_byte(img: ShadowImage, w: RegWrite) -> u8 {
    merge_bits(cached_byte(img, w.reg as int), w.val, w.mask)
}

/// The mirror after the masked write `w`.
pub open spec fn masked(img: ShadowImage, w: RegWrite) -> ShadowImage {
    img.update(w.reg - REG_SHADOW_START, Some(applied_byte(img, w)))
}

/// The bus frame of the masked write `w`: the register address, then the byte.
pub open spec fn masked_frame(img: ShadowImage, w: RegWrite) -> Seq<u8> {
    seq![w.reg, applied_byte(img, w)]
}

/// The mirror after the masked writes of `prog`, performed in order.
pub open spec fn run(img: ShadowImage, prog: Seq<RegWrite>) -> ShadowImage
    decreases prog.len(),
{
    if prog.len() == 0 {
        img
    } else {
        masked(run(img, prog.drop_last()), prog.last())
    }
}

/// The bus frames of the masked writes of `prog`, performed in order from the
/// mirror `img`.
pub open spec fn run_frames(img: ShadowImage, prog: Seq<RegWrite>) -> Seq<Seq<u8>>
    decreases prog.len(),
{
    if prog.len() == 0 {
        Seq::empty()
    } else {
        run_frames(img, prog.drop_last()).push(
            masked_frame(run(img, prog.drop_last()), prog.last()),
        )
    }
}

/// Whether every write of `prog` addresses a mirrored register.
pub open spec fn all_in_window(prog: Seq<RegWrite>) -> bool {
    forall|i: int| 0 <= i < prog.len() ==> in_window(#[trigger] prog[i].reg as int)
}

/// Number of bus frames that a bulk write of `len` bytes takes.
pub open spec fn chunk_count(len: int) -> int {
    (len + MAX_I2C_MSG_LEN - 2) / (MAX_I2C_MSG_LEN - 1)
}

/// Frame `k` of a bulk write: the address of its first register, then up to
/// `MAX_I2C_MSG_LEN - 1` data bytes.
pub open spec fn bulk_frame(reg: int, bytes: Seq<u8>, k: int) -> Seq<u8> {
    let start = k * (MAX_I2C_MSG_LEN - 1);
    let end = if start + (MAX_I2C_MSG_LEN - 1) <= bytes.len() {
        start + (MAX_I2C_MSG_LEN - 1)
    } else {
        bytes.len() as int
    };
    seq![(reg + start) as u8] + bytes.subrange(start, end)
}

/// The bus frames of a bulk write of `bytes` to the registers from `reg` on.
pub open spec fn bulk_frames(reg: int, bytes: Seq<u8>) -> Seq<Seq<u8>> {
    Seq::new(chunk_count(bytes.len() as int) as nat, |k: int| bulk_frame(reg, bytes, k))
}

/// The data bytes of a run of frames, in order, each frame without its
/// address byte.
pub open spec fn payload(frames: Seq<Seq<u8>>) -> Seq<u8>
    decreases frames.len(),
{
    if frames.len() == 0 {
        Seq::empty()
    } else {
        payload(frames.drop_last()) + frames.last().skip(1)
    }
}

/// The views of a vector of frames.
pub open spec fn frames_of(out: Seq<Vec<u8>>) -> Seq<Seq<u8>> {
    Seq::new(out.len(), |i: int| out[i]@)
}

/// Computes `prior` with the bits selected by `mask` replaced by those of `val`.
pub fn merge(prior: u8, val: u8, mask: u8) -> (r: u8)
    ensures
        r == merge_bits(prior, val, mask),
{
    (prior & !mask) | (val & mask)
}

/// A masked write repeated changes nothing more: the mirror after the second
/// write is the mirror after the first. The byte it sends keeps the bits
/// outside the mask as they were in the mirror, takes the bits inside the mask
/// from the value, and no other register of the mirror changes.
pub proof fn lemma_masked_write_idempotent(img: ShadowImage, w: RegWrite)
    requires
        img.len() == NUM_REGS,
        in_window(w.reg as int),
    ensures
        masked(masked(img, w), w) == masked(img, w),
        masked_frame(masked(img, w), w) == masked_frame(img, w),
        applied_byte(img, w) & !w.mask == cached_byte(img, w.reg as int) & !w.mask,
        applied_byte(img, w) & w.mask == w.val & w.mask,
        cached_byte(masked(img, w), w.reg as int) == applied_byte(img, w),
        forall|r: int|
            in_window(r) && r != w.reg ==> #[trigger] masked(img, w)[r - REG_SHADOW_START] == img[r
                - REG_SHADOW_START],
{
    let prior = cached_byte(img, w.reg as int);
    let val = w.val;
    let mask = w.mask;
    let once = merge_bits(prior, val, mask);
    assert(merge_bits(once, val, mask) == once) by (bit_vector)
        requires
            once == (prior & !mask) | (val & mask),
    ;
    assert(once & !mask == prior & !mask && once & mask == val & mask) by (bit_vector)
        requires
            once == (prior & !mask) | (val & mask),
    ;
    assert(masked(masked(img, w), w) =~= masked(img, w));
}

/// A write under the full mask sends the value as it is.
pub proof fn lemma_full_mask(prior: u8, val: u8)
    by (bit_vector)
    ensures
        merge_bits(prior, val, 0xff) == val,
{
}

/// A masked write is a one-byte bulk write of the byte it sends.
pub proof fn lemma_masked_is_stored(img: ShadowImage, w: RegWrite)
    requires
        img.len() == NUM_REGS,
        in_window(w.reg as int),
    ensures
        masked(img, w) == stored(img, w.reg as int, seq![applied_byte(img, w)]),
        seq![masked_frame(img, w)] == bulk_frames(w.reg as int, seq![applied_byte(img, w)]),
{
    let one = seq![applied_byte(img, w)];
    assert(masked(img, w) =~= stored(img, w.reg as int, one));
    assert(one.subrange(0, 1) =~= one);
    assert(bulk_frame(w.reg as int, one, 0) =~= masked_frame(img, w));
    assert(seq![masked_frame(img, w)] =~= bulk_frames(w.reg as int, one));
}

/// After a bulk write the mirror reads back the bytes written, in order, and
/// is unchanged elsewhere.
pub proof fn lemma_stored_reads_back(img: ShadowImage, reg: int, bytes: Seq<u8>)
    requires
        img.len() == NUM_REGS,
        span_in_window(reg, bytes.len() as int),
    ensures
        stored(img, reg, bytes).len() == NUM_REGS,
        forall|i: int|
            0 <= i < bytes.len() ==> #[trigger] spec_read_cached(stored(img, reg, bytes), reg + i)
                == Ok::<u8, TunerError>(bytes[i]),
        forall|r: int|
            in_window(r) && !(reg <= r < reg + bytes.len()) ==> #[trigger] spec_read_cached(
                stored(img, reg, bytes),
                r,
            ) == spec_read_cached(img, r),
{
}

/// The first `k` frames of a bulk write carry the first `7 * k` bytes, or all
/// of them when there are fewer.
pub proof fn lemma_payload_prefix(reg: int, bytes: Seq<u8>, k: int)
    requires
        0 <= k <= chunk_count(bytes.len() as int),
    ensures
        payload(bulk_frames(reg, bytes).take(k)) == bytes.take(
            if k * (MAX_I2C_MSG_LEN - 1) <= bytes.len() {
                k * (MAX_I2C_MSG_LEN - 1)
            } else {
                bytes.len() as int
            },
        ),
    decreases k,
{
    let frames = bulk_frames(reg, bytes);
    if k == 0 {
        assert(payload(frames.take(0)) =~= bytes.take(0));
    } else {
        lemma_payload_prefix(reg, bytes, k - 1);
        let start = (k - 1) * (MAX_I2C_MSG_LEN - 1);
        let end = if k * (MAX_I2C_MSG_LEN - 1) <= bytes.len() {
            k * (MAX_I2C_MSG_LEN - 1)
        } else {
            bytes.len() as int
        };
        assert(frames.take(k).drop_last() =~= frames.take(k - 1));
        assert(frames.take(k).last() == bulk_frame(reg, bytes, k - 1));
        assert(bulk_frame(reg, bytes, k - 1).skip(1) =~= bytes.subrange(start, end));
        assert(bytes.take(start) + bytes.subrange(start, end) =~= bytes.take(end));
    }
}

/// The frames of a bulk write, put together again, are the bytes written, in
/// order, wherever the frame boundaries fall. No frame is longer than the bus
/// allows, each starts with the address of its first register, and none is
/// without data.
pub proof fn lemma_bulk_round_trip(reg: int, bytes: Seq<u8>)
    ensures
        payload(bulk_frames(reg, bytes)) == bytes,
        forall|k: int|
            0 <= k < bulk_frames(reg, bytes).len() ==> {
                let frame = #[trigger] bulk_frames(reg, bytes)[k];
                &&& 2 <= frame.len() <= MAX_I2C_MSG_LEN
                &&& frame[0] == (reg + k * (MAX_I2C_MSG_LEN - 1)) as u8
            },
{
    let frames = bulk_frames(reg, bytes);
    lemma_payload_prefix(reg, bytes, chunk_count(bytes.len() as int));
    assert(frames.take(frames.len() as int) =~= frames);
    assert(bytes.take(bytes.len() as int) =~= bytes);
}

/// The mirror keeps its length under masked writes.
pub proof fn lemma_run_len(img: ShadowImage, prog: Seq<RegWrite>)
    requires
        img.len() == NUM_REGS,
        all_in_window(prog),
    ensures
        run(img, prog).len() == img.len(),
        run_frames(img, prog).len() == prog.len(),
    decreases prog.len(),
{
    if prog.len() > 0 {
        assert(all_in_window(prog.drop_last())) by {
            assert forall|i: int| 0 <= i < prog.drop_last().len() implies in_window(
                #[trigger] prog.drop_last()[i].reg as int,
            ) by {
                assert(prog.drop_last()[i] == prog[i]);
            }
        }
        lemma_run_len(img, prog.drop_last());
    }
}

/// One more write at the end of a program: the mirror and the frames of the
/// program so far, then the write.
pub proof fn lemma_run_push(img: ShadowImage, prog: Seq<RegWrite>, w: RegWrite)
    ensures
        run(img, prog.push(w)) == masked(run(img, prog), w),
        run_frames(img, prog.push(w)) == run_frames(img, prog).push(
            masked_frame(run(img, prog), w),
        ),
{
    assert(prog.push(w).drop_last() =~= prog);
}

/// Two programs in a row act as their concatenation.
pub proof fn lemma_run_concat(img: ShadowImage, first: Seq<RegWrite>, second: Seq<RegWrite>)
    ensures
        run(img, first + second) == run(run(img, first), second),
        run_frames(img, first + second) == run_frames(img, first) + run_frames(
            run(img, first),
            second,
        ),
    decreases second.len(),
{
    if second.len() == 0 {
        assert(first + second =~= first);
        assert(run_frames(img, first) + Seq::<Seq<u8>>::empty() =~= run_frames(img, first));
    } else {
        lemma_run_concat(img, first, second.drop_last());
        assert((first + second).drop_last() =~= first + second.drop_last());
        assert((first + second).last() == second.last());
        assert(run_frames(img, first) + run_frames(run(img, first), second) =~= (run_frames(
            img,
            first,
        ) + run_frames(run(img, first), second.drop_last())).push(
            masked_frame(run(run(img, first), second.drop_last()), second.last()),
        ));
    }
}

/// The views of a vector of frames after one more frame.
pub proof fn lemma_frames_push(out: Seq<Vec<u8>>, frame: Vec<u8>)
    ensures
        frames_of(out.push(frame)) == frames_of(out).push(frame@),
{
    assert(frames_of(out.push(frame)) =~= frames_of(out).push(frame@));
}

} // verus!
