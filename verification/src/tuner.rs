//! The tuner as the surrounding driver sees it.
//!
//! The tuner does no I/O of its own. Every operation appends the bus frames
//! it wants sent to a vector that the caller hands in, each frame a register
//! address followed by data, all of them for the tuner's bus address. The
//! caller sends the frames in order. Where an operation needs to know what the
//! chip answers, it ends by asking for the status registers; the caller reads
//! them and hands the bytes to the operation that continues.

use crate::bits::{bit_reverse, spec_bit_reverse};
use crate::demod::{init_sequence, spec_init_sequence, DemodOp};
use crate::error::TunerError;
use crate::filter::{filter_plan, select_bandwidth, spec_filter_plan, spec_select_bandwidth};
use crate::gain::{auto_gain_plan, spec_auto_gain_plan, TunerGainMode};
use crate::info::{spec_tuner_info, tuner_info, TunerInfo};
use crate::mux::{mux_plan, spec_mux_plan};
use crate::pll::{
    divider_plan, lock_plan, spec_divider_outcome, spec_divider_plan, spec_lock_outcome,
    spec_lock_plan, spec_locked_after, spec_start_plan, spec_start_search, spec_status_request,
    start_plan, start_search, PllLock, PllProgram, PllSearch, STATUS_REG,
};
use crate::ranges::CrystalCapMode;
use crate::shadow::{
    all_in_window, blank_image, bulk_frame, bulk_frames, chunk_count, frames_of, in_window,
    lemma_frames_push, lemma_masked_is_stored, lemma_run_concat, lemma_run_push, masked,
    masked_frame, merge, run, run_frames, span_in_window, spec_read_cached, stored, RegWrite,
    ShadowImage, MAX_I2C_MSG_LEN, NUM_REGS, REG_SHADOW_START,
};
use vstd::prelude::*;

verus! {

/// Driver state of one R820T.
pub struct R820T {
    info: TunerInfo,
    regs: [Option<u8>; NUM_REGS],
    freq: u32,
    int_freq: u32,
    xtal_cap_sel: CrystalCapMode,
    xtal: u32,
    has_lock: bool,
}

/// What a tuner's state amounts to.
#[verifier::ext_equal]
pub struct TunerView {
    /// The descriptor handed to the surrounding driver.
    pub info: TunerInfo,
    /// The mirror of the control registers.
    pub shadow: ShadowImage,
    /// The RF centre frequency of the last tuning request that was taken up,
    /// in Hz.
    pub freq: u32,
    /// The intermediate frequency in use, in Hz.
    pub if_freq: u32,
    /// The crystal load capacitance the front end is trimmed for.
    pub cap_mode: CrystalCapMode,
    /// The crystal reference, in Hz.
    pub xtal: u32,
    /// Whether the last poll that ended an attempt found the loop locked.
    pub locked: bool,
}

impl View for R820T {
    type V = TunerView;

    closed spec fn view(&self) -> TunerView {
        TunerView {
            info: self.info,
            shadow: self.regs@,
            freq: self.freq,
            if_freq: self.int_freq,
            cap_mode: self.xtal_cap_sel,
            xtal: self.xtal,
            locked: self.has_lock,
        }
    }
}

impl R820T {
    /// The mirror always has one entry for each mirrored register.
    pub proof fn lemma_shadow_len(&self)
        ensures
            self@.shadow.len() == NUM_REGS,
    {
    }

    /// Creates the driver state for a tuner clocked by a crystal of
    /// `crystal_ref_hz`: nothing written yet, no IF offset, not locked.
    pub fn new(crystal_ref_hz: u32) -> (tuner: R820T)
        ensures
            tuner@ == (TunerView {
                info: spec_tuner_info(),
                shadow: blank_image(),
                freq: 0,
                if_freq: 0,
                cap_mode: CrystalCapMode::Low30p,
                xtal: crystal_ref_hz,
                locked: false,
            }),
    {
        let tuner = R820T {
            info: tuner_info(),
            regs: [None; NUM_REGS],
            freq: 0,
            int_freq: 0,
            xtal_cap_sel: CrystalCapMode::Low30p,
            xtal: crystal_ref_hz,
            has_lock: false,
        };
        assert(tuner.regs@ =~= blank_image());
        tuner
    }

    /// The descriptor of this tuner.
    pub fn get_info(&self) -> (info: TunerInfo)
        ensures
            info == self@.info,
    {
        self.info
    }

    /// The intermediate frequency in use, in Hz.
    pub fn get_if_freq(&self) -> (if_freq: u32)
        ensures
            if_freq == self@.if_freq,
    {
        self.int_freq
    }

    /// The RF centre frequency of the last tuning request that was taken up,
    /// in Hz; zero before the first.
    pub fn freq(&self) -> (freq: u32)
        ensures
            freq == self@.freq,
    {
        self.freq
    }

    /// Whether the last poll that ended a tuning attempt found the loop locked.
    pub fn has_lock(&self) -> (locked: bool)
        ensures
            locked == self@.locked,
    {
        self.has_lock
    }

    /// Reads a register from the mirror. A register outside the mirrored
    /// window gives `OutOfRange`; one that was never written gives
    /// `Uninitialized`, since the mirror holds only what was sent.
    pub fn read_cache_reg(&self, reg: u8) -> (r: Result<u8, TunerError>)
        ensures
            r == spec_read_cached(self@.shadow, reg as int),
    {
        if reg < REG_SHADOW_START || reg as usize >= REG_SHADOW_START as usize + NUM_REGS {
            return Err(TunerError::OutOfRange);
        }
        match self.regs[(reg - REG_SHADOW_START) as usize] {
            Some(v) => Ok(v),
            None => Err(TunerError::Uninitialized),
        }
    }

    /// Records in the mirror that `val` goes to the registers from `reg` on.
    /// Unless all of them are mirrored, nothing is recorded and the result is
    /// `OutOfRange`.
    pub fn shadow_store(&mut self, reg: u8, val: &[u8]) -> (r: Result<(), TunerError>)
        ensures
            r is Ok <==> span_in_window(reg as int, val@.len() as int),
            r is Err ==> r == Err::<(), TunerError>(TunerError::OutOfRange) && final(self)@ == old(
                self,
            )@,
            r is Ok ==> final(self)@ == (TunerView {
                shadow: stored(old(self)@.shadow, reg as int, val@),
                ..old(self)@
            }),
    {
        if reg < REG_SHADOW_START || val.len() > NUM_REGS || reg as usize + val.len()
            > REG_SHADOW_START as usize + NUM_REGS {
            return Err(TunerError::OutOfRange);
        }
        let base: usize = (reg - REG_SHADOW_START) as usize;
        let mut i: usize = 0;
        while i < val.len()
            invariant
                i <= val@.len(),
                base == reg - REG_SHADOW_START,
                base + val@.len() <= NUM_REGS,
                self@ == (TunerView {
                    shadow: stored(old(self)@.shadow, reg as int, val@.take(i as int)),
                    ..old(self)@
                }),
            decreases val@.len() - i,
        {
            self.regs[base + i] = Some(val[i]);
            i = i + 1;
        }
        assert(val@.take(val@.len() as int) =~= val@);
        Ok(())
    }

    /// Writes `val` to the registers from `reg` on: records the bytes in the
    /// mirror, then frames them for the bus in chunks that the bus can carry,
    /// each chunk behind the address of its first register. An empty write
    /// sends nothing. Unless all the registers are mirrored, nothing happens
    /// and the result is `OutOfRange`.
    pub fn write_regs(&mut self, out: &mut Vec<Vec<u8>>, reg: u8, val: &[u8]) -> (r: Result<
        (),
        TunerError,
    >)
        ensures
            r is Ok <==> span_in_window(reg as int, val@.len() as int),
            r is Err ==> r == Err::<(), TunerError>(TunerError::OutOfRange) && final(self)@ == old(
                self,
            )@ && final(out)@ == old(out)@,
            r is Ok ==> final(self)@ == (TunerView {
                shadow: stored(old(self)@.shadow, reg as int, val@),
                ..old(self)@
            }),
            r is Ok ==> frames_of(final(out)@) == frames_of(old(out)@) + bulk_frames(
                reg as int,
                val@,
            ),
    {
        match self.shadow_store(reg, val) {
            Err(e) => {
                return Err(e);
            },
            Ok(()) => {},
        }
        let len: usize = val.len();
        let mut pos: usize = 0;
        let ghost mut k: int = 0;
        assert(frames_of(out@) =~= frames_of(old(out)@) + bulk_frames(reg as int, val@).take(0));
        while pos < len
            invariant
                len == val@.len(),
                span_in_window(reg as int, len as int),
                0 <= k <= chunk_count(len as int),
                pos == (if k * (MAX_I2C_MSG_LEN - 1) <= len {
                    k * (MAX_I2C_MSG_LEN - 1)
                } else {
                    len as int
                }),
                frames_of(out@) == frames_of(old(out)@) + bulk_frames(reg as int, val@).take(k),
            decreases len - pos,
        {
            assert(k < chunk_count(len as int)) by {
                assert(k * 7 < len);
            }
            let size: usize = if len - pos > MAX_I2C_MSG_LEN - 1 {
                MAX_I2C_MSG_LEN - 1
            } else {
                len - pos
            };
            let mut buf: Vec<u8> = Vec::with_capacity(size + 1);
            buf.push((reg as usize + pos) as u8);
            let mut j: usize = 0;
            while j < size
                invariant
                    j <= size,
                    pos + size <= len,
                    len == val@.len(),
                    buf@ == seq![(reg + pos) as u8] + val@.subrange(pos as int, pos + j),
                decreases size - j,
            {
                buf.push(val[pos + j]);
                j = j + 1;
            }
            proof {
                let frames = bulk_frames(reg as int, val@);
                assert(buf@ == bulk_frame(reg as int, val@, k));
                assert(frames.take(k + 1) =~= frames.take(k).push(frames[k]));
                lemma_frames_push(out@, buf);
            }
            out.push(buf);
            pos = pos + size;
            proof {
                k = k + 1;
            }
        }
        assert(bulk_frames(reg as int, val@).take(k) =~= bulk_frames(reg as int, val@));
        Ok(())
    }

    /// Writes the bits of `val` selected by `bit_mask` to register `reg` and
    /// leaves its other bits as the mirror has them. A masked write takes a
    /// register that was never written as zero. The whole byte is recorded
    /// and sent, also when it equals what the mirror held. A register outside
    /// the mirrored window gives `OutOfRange`, and nothing happens.
    pub fn write_reg_mask(&mut self, out: &mut Vec<Vec<u8>>, reg: u8, val: u8, bit_mask: u8) -> (r:
        Result<(), TunerError>)
        ensures
            r is Ok <==> in_window(reg as int),
            r is Err ==> r == Err::<(), TunerError>(TunerError::OutOfRange) && final(self)@ == old(
                self,
            )@ && final(out)@ == old(out)@,
            r is Ok ==> final(self)@ == (TunerView {
                shadow: masked(old(self)@.shadow, RegWrite { reg, val, mask: bit_mask }),
                ..old(self)@
            }),
            r is Ok ==> frames_of(final(out)@) == frames_of(old(out)@).push(
                masked_frame(old(self)@.shadow, RegWrite { reg, val, mask: bit_mask }),
            ),
    {
        if reg < REG_SHADOW_START || reg as usize >= REG_SHADOW_START as usize + NUM_REGS {
            return Err(TunerError::OutOfRange);
        }
        let rc: u8 = match self.regs[(reg - REG_SHADOW_START) as usize] {
            Some(v) => v,
            None => 0,
        };
        let applied: u8 = merge(rc, val, bit_mask);
        let bytes: [u8; 1] = [applied];
        proof {
            lemma_masked_is_stored(old(self)@.shadow, RegWrite { reg, val, mask: bit_mask });
            assert(bytes@ =~= seq![applied]);
        }
        let r = self.write_regs(out, reg, bytes.as_slice());
        proof {
            let w = RegWrite { reg, val, mask: bit_mask };
            assert(frames_of(old(out)@) + seq![masked_frame(old(self)@.shadow, w)] =~= frames_of(
                old(out)@,
            ).push(masked_frame(old(self)@.shadow, w)));
        }
        r
    }

    /// Decodes bytes read back from the tuner: the bus delivers every byte
    /// with its bits in reverse order.
    pub fn read_reg(raw: &[u8]) -> (data: Vec<u8>)
        ensures
            data@.len() == raw@.len(),
            forall|i: int| 0 <= i < raw@.len() ==> data@[i] == spec_bit_reverse(#[trigger] raw@[i]),
    {
        let mut data: Vec<u8> = Vec::with_capacity(raw.len());
        let mut i: usize = 0;
        while i < raw.len()
            invariant
                i <= raw@.len(),
                data@.len() == i,
                forall|j: int| 0 <= j < i ==> data@[j] == spec_bit_reverse(#[trigger] raw@[j]),
            decreases raw@.len() - i,
        {
            data.push(bit_reverse(raw[i]));
            i = i + 1;
        }
        data
    }

    /// Performs the masked writes of `plan` in order.
    fn write_plan(&mut self, out: &mut Vec<Vec<u8>>, plan: &Vec<RegWrite>)
        requires
            all_in_window(plan@),
        ensures
            final(self)@ == (TunerView {
                shadow: run(old(self)@.shadow, plan@),
                ..old(self)@
            }),
            frames_of(final(out)@) == frames_of(old(out)@) + run_frames(
                old(self)@.shadow,
                plan@,
            ),
    {
        let ghost start = self@.shadow;
        let mut i: usize = 0;
        assert(plan@.take(0) =~= Seq::<RegWrite>::empty());
        assert(frames_of(out@) =~= frames_of(old(out)@) + run_frames(start, plan@.take(0)));
        while i < plan.len()
            invariant
                i <= plan@.len(),
                all_in_window(plan@),
                start == old(self)@.shadow,
                self@ == (TunerView { shadow: run(start, plan@.take(i as int)), ..old(self)@ }),
                frames_of(out@) == frames_of(old(out)@) + run_frames(start, plan@.take(i as int)),
            decreases plan@.len() - i,
        {
            let w: RegWrite = plan[i];
            proof {
                lemma_run_push(start, plan@.take(i as int), w);
                assert(plan@.take(i + 1) =~= plan@.take(i as int).push(w));
                assert(in_window(plan@[i as int].reg as int));
            }
            let r = self.write_reg_mask(out, w.reg, w.val, w.mask);
            assert(r is Ok);
            assert(frames_of(out@) =~= frames_of(old(out)@) + run_frames(
                start,
                plan@.take(i + 1),
            ));
            i = i + 1;
        }
        assert(plan@.take(plan@.len() as int) =~= plan@);
    }

    /// Lists what the demodulator must be told once, before the tuner is
    /// used. It does not depend on the tuner's state.
    pub fn init(&self) -> (ops: Vec<DemodOp>)
        ensures
            ops@ == spec_init_sequence(),
    {
        init_sequence()
    }

    /// Selects how the gain is set. See [`R820T::set_gain`].
    pub fn set_gain_mode(&mut self, out: &mut Vec<Vec<u8>>, mode: TunerGainMode) -> (r: Result<
        (),
        TunerError,
    >)
        ensures
            r is Ok <==> mode is Auto,
            r is Err ==> r == Err::<(), TunerError>(TunerError::NotImplemented) && final(self)@
                == old(self)@ && final(out)@ == old(out)@,
            r is Ok ==> final(self)@ == (TunerView {
                shadow: run(old(self)@.shadow, spec_auto_gain_plan()),
                ..old(self)@
            }),
            r is Ok ==> frames_of(final(out)@) == frames_of(old(out)@) + run_frames(
                old(self)@.shadow,
                spec_auto_gain_plan(),
            ),
    {
        self.set_gain(out, mode, 0)
    }

    /// Sets the gain. Automatic gain writes its three registers. Manual gain
    /// is not available: it fails with `NotImplemented` and writes nothing,
    /// whatever `gain` is.
    pub fn set_gain(&mut self, out: &mut Vec<Vec<u8>>, mode: TunerGainMode, _gain: i32) -> (r:
        Result<(), TunerError>)
        ensures
            r is Ok <==> mode is Auto,
            r is Err ==> r == Err::<(), TunerError>(TunerError::NotImplemented) && final(self)@
                == old(self)@ && final(out)@ == old(out)@,
            r is Ok ==> final(self)@ == (TunerView {
                shadow: run(old(self)@.shadow, spec_auto_gain_plan()),
                ..old(self)@
            }),
            r is Ok ==> frames_of(final(out)@) == frames_of(old(out)@) + run_frames(
                old(self)@.shadow,
                spec_auto_gain_plan(),
            ),
    {
        match mode {
            TunerGainMode::Auto => {
                let plan = auto_gain_plan();
                self.write_plan(out, &plan);
                Ok(())
            },
            TunerGainMode::Manual(_) => Err(TunerError::NotImplemented),
        }
    }

    /// Routes the RF front end for a local-oscillator frequency of `freq` Hz,
    /// with the crystal capacitor trim of the tuner's setting.
    pub fn set_mux(&mut self, out: &mut Vec<Vec<u8>>, freq: u32)
        ensures
            final(self)@ == (TunerView {
                shadow: run(old(self)@.shadow, spec_mux_plan(freq, old(self)@.cap_mode)),
                ..old(self)@
            }),
            frames_of(final(out)@) == frames_of(old(out)@) + run_frames(
                old(self)@.shadow,
                spec_mux_plan(freq, old(self)@.cap_mode),
            ),
    {
        let plan = mux_plan(freq, self.xtal_cap_sel);
        self.write_plan(out, &plan);
    }

    /// Selects the IF filters for a channel of `bw` Hz and returns the
    /// intermediate frequency that goes with them, which later tuning
    /// requests add to their target. The sample rate plays no part.
    pub fn set_bandwidth(&mut self, out: &mut Vec<Vec<u8>>, bw: u32, rate: u32) -> (if_freq: u32)
        ensures
            if_freq == spec_select_bandwidth(bw).if_freq,
            final(self)@ == (TunerView {
                shadow: run(old(self)@.shadow, spec_filter_plan(spec_select_bandwidth(bw))),
                if_freq: spec_select_bandwidth(bw).if_freq,
                ..old(self)@
            }),
            frames_of(final(out)@) == frames_of(old(out)@) + run_frames(
                old(self)@.shadow,
                spec_filter_plan(spec_select_bandwidth(bw)),
            ),
    {
        let choice = select_bandwidth(bw, rate);
        self.int_freq = choice.if_freq;
        let plan = filter_plan(&choice);
        self.write_plan(out, &plan);
        choice.if_freq
    }
    /// Appends the frame that asks the chip for its status registers.
    fn request_status(out: &mut Vec<Vec<u8>>)
        ensures
            frames_of(final(out)@) == frames_of(old(out)@) + spec_status_request(true),
    {
        let frame: Vec<u8> = vec![STATUS_REG];
        proof {
            lemma_frames_push(out@, frame);
            assert(frame@ =~= seq![STATUS_REG]);
            assert(frames_of(out@).push(frame@) =~= frames_of(out@) + spec_status_request(true));
        }
        out.push(frame);
    }

    /// Tunes to an RF centre frequency of `freq` Hz: routes the front end for
    /// the local-oscillator target, which is `freq` plus the intermediate
    /// frequency, and opens a tuning attempt for it.
    ///
    /// A target beyond the range of the frequency type is refused at once
    /// with `FrequencyOutOfRange`: nothing is written and the tuner is left
    /// as it was. Otherwise the front end is routed and the attempt opened,
    /// as [`R820T::set_mux`] and [`R820T::set_pll`] describe.
    ///
    /// The frequency is recorded as the one asked for only when the attempt
    /// is under way, that is when the call returns `Ok`. Where no mixer
    /// divider reaches the target, the writes made so far stay recorded in
    /// the mirror, but [`R820T::freq`] still gives the frequency of the last
    /// request that was taken up.
    pub fn set_freq(&mut self, out: &mut Vec<Vec<u8>>, freq: u32) -> (r: Result<
        PllSearch,
        TunerError,
    >)
        ensures
            freq + old(self)@.if_freq > u32::MAX ==> {
                &&& r == Err::<PllSearch, TunerError>(TunerError::FrequencyOutOfRange)
                &&& final(self)@ == old(self)@
                &&& final(out)@ == old(out)@
            },
            freq + old(self)@.if_freq <= u32::MAX ==> {
                let lo = (freq + old(self)@.if_freq) as u32;
                let plan = spec_mux_plan(lo, old(self)@.cap_mode) + spec_start_plan();
                &&& r == spec_start_search(lo)
                &&& final(self)@ == (TunerView {
                    shadow: run(old(self)@.shadow, plan),
                    freq: if r is Ok {
                        freq
                    } else {
                        old(self)@.freq
                    },
                    ..old(self)@
                })
                &&& frames_of(final(out)@) == frames_of(old(out)@) + run_frames(
                    old(self)@.shadow,
                    plan,
                ) + spec_status_request(r is Ok)
            },
    {
        if freq > u32::MAX - self.int_freq {
            return Err(TunerError::FrequencyOutOfRange);
        }
        let lo_freq: u32 = freq + self.int_freq;
        proof {
            lemma_run_concat(
                old(self)@.shadow,
                spec_mux_plan(lo_freq, old(self)@.cap_mode),
                spec_start_plan(),
            );
        }
        self.set_mux(out, lo_freq);
        let r = self.set_pll(out, lo_freq);
        if r.is_ok() {
            self.freq = freq;
        }
        r
    }

    /// Opens a tuning attempt for a local-oscillator target of `freq` Hz.
    ///
    /// The opening writes are made in any case. Where a mixer divider brings
    /// the VCO into its window for the target, the attempt is under way: the
    /// status registers are asked for, and [`R820T::program_pll`] continues
    /// with `VCO_STATUS_LEN` bytes read from them. Where none does, the
    /// result is `FrequencyOutOfRange`.
    pub fn set_pll(&mut self, out: &mut Vec<Vec<u8>>, freq: u32) -> (r: Result<
        PllSearch,
        TunerError,
    >)
        ensures
            r == spec_start_search(freq),
            final(self)@ == (TunerView {
                shadow: run(old(self)@.shadow, spec_start_plan()),
                ..old(self)@
            }),
            frames_of(final(out)@) == frames_of(old(out)@) + run_frames(
                old(self)@.shadow,
                spec_start_plan(),
            ) + spec_status_request(r is Ok),
    {
        let plan = start_plan();
        self.write_plan(out, &plan);
        let r = start_search(freq);
        if r.is_ok() {
            Self::request_status(out);
        } else {
            assert(frames_of(out@) =~= frames_of(out@) + spec_status_request(false));
        }
        r
    }

    /// Programs the dividers of a tuning attempt, given the status registers
    /// as they were read after [`R820T::set_pll`].
    ///
    /// The divider-select code, compensated by the VCO fine-tune indicator, is
    /// written in any case. Where the integer ratio fits its register, the
    /// ratio, the mode bit and the modulator word follow, the status
    /// registers are asked for again, and [`R820T::lock_pll`] continues with
    /// `LOCK_STATUS_LEN` bytes read from them. Where it does not fit, or the
    /// tuner has no crystal reference, the result is `FrequencyOutOfRange`.
    pub fn program_pll(&mut self, out: &mut Vec<Vec<u8>>, search: PllSearch, raw: &[u8; 5]) -> (r:
        Result<PllProgram, TunerError>)
        ensures
            r == spec_divider_outcome(search, old(self)@.xtal),
            final(self)@ == (TunerView {
                shadow: run(
                    old(self)@.shadow,
                    spec_divider_plan(search, old(self)@.xtal, spec_bit_reverse(raw@[4])),
                ),
                ..old(self)@
            }),
            frames_of(final(out)@) == frames_of(old(out)@) + run_frames(
                old(self)@.shadow,
                spec_divider_plan(search, old(self)@.xtal, spec_bit_reverse(raw@[4])),
            ) + spec_status_request(r is Ok),
    {
        let data = Self::read_reg(raw.as_slice());
        let (plan, r) = divider_plan(&search, self.xtal, data[4]);
        self.write_plan(out, &plan);
        if r.is_ok() {
            Self::request_status(out);
        } else {
            assert(frames_of(out@) =~= frames_of(out@) + spec_status_request(false));
        }
        r
    }

    /// Evaluates a poll of the lock flag, given the status registers as they
    /// were read after [`R820T::program_pll`] or after an earlier poll.
    ///
    /// A locked loop is recorded, and the auto-tune is narrowed for tracking.
    /// After the first poll without lock the VCO current is written again,
    /// the status registers are asked for, and the next poll continues with
    /// the program that is returned. After the second, the loop is recorded
    /// as unlocked and the result is `PllLockFailure`; what was programmed
    /// stays as it is.
    pub fn lock_pll(&mut self, out: &mut Vec<Vec<u8>>, program: PllProgram, raw: &[u8; 3]) -> (r:
        Result<PllLock, TunerError>)
        ensures
            r == spec_lock_outcome(program, spec_bit_reverse(raw@[2])),
            final(self)@ == (TunerView {
                shadow: run(
                    old(self)@.shadow,
                    spec_lock_plan(program, spec_bit_reverse(raw@[2])),
                ),
                locked: spec_locked_after(old(self)@.locked, r),
                ..old(self)@
            }),
            frames_of(final(out)@) == frames_of(old(out)@) + run_frames(
                old(self)@.shadow,
                spec_lock_plan(program, spec_bit_reverse(raw@[2])),
            ) + spec_status_request(r matches Ok(PllLock::Retry(_))),
    {
        let data = Self::read_reg(raw.as_slice());
        let (plan, r) = lock_plan(&program, data[2]);
        self.write_plan(out, &plan);
        match r {
            Ok(PllLock::Locked) => {
                self.has_lock = true;
                assert(frames_of(out@) =~= frames_of(out@) + spec_status_request(false));
            },
            Ok(PllLock::Retry(_)) => {
                Self::request_status(out);
            },
            Err(_) => {
                self.has_lock = false;
                assert(frames_of(out@) =~= frames_of(out@) + spec_status_request(false));
            },
        }
        r
    }
}

} // verus!
