use vstd::prelude::*;
use vstd::arithmetic::div_mod::lemma_div_is_ordered_by_denominator;

use crate::error::Error;
use crate::r82xx::{
    FREQ_RANGE_MHZ, FREQ_RANGE_OPEN_D, FREQ_RANGE_RF_MUX_PLOY, FREQ_RANGE_XTAL_CAP0P, mux_batch,
    mux_index, mux_index_from, adjusted_div_num, gain_batch, IF_LOW_PASS_BW_TABLE, lpf_index, lpf_insertion, R82xxKind, pll_nint, pll_sdm, pll_vco_div, INIT_ARRAY, bandwidth_setting, PllStage, pll_locked, pll_lock_read, pll_register_values, pll_started, pll_window,
    InitOpV, PllOpV, R82xx, R82xxView, SetFreqOpV, TvStandardOpV, init_next, pll_next,
    set_freq_next, tv_next, NUM_REGS, bit_reversed, gain_after, gain_steps, gain_steps_from, i2c_messages, in_shadow,
    masked, pll_div_exponent, pll_div_exponent_from, pll_khz, shadow_holds, shadow_index,
    stored_regs, two_pow, vco_in_range, write_effect,
};
use crate::rtl2832::{
    BandwidthOpV, BandwidthStage, CenterFreqOpV, CenterStage, CorrectionOpV, TunerV,
    correction_next, tuner_kind_of, GainMode, GainOpV, OperationV,
    OutcomeV, ProbeOpV, ProbeStage, RateStage, RepeaterStage, Request, RtlSdrView, SampleRateOpV,
    bandwidth_next, center_next, gain_next, known_device_table, known_name_from, known_name_of,
    operation_start, probe_next, rate_fresh, rate_next, rate_start, rate_wf, repeater_batch,
    sample_rate_plan, sample_rate_valid,
    xtal_scaled, if_register_values, if_word, correction_register_values, correction_offset,
    trunc_div, fir_packed, applied_ratio, real_sample_rate, resampler_ratio,
};
use crate::rtl_usb::{
    demod_value, demod_write_index, read_index, CmdV, Finish, OpStepV, Output, OutputV, Reply, RunStep, RunnerV, TransferV, bytes_of,
    cmd_tuner_after, cmd_tuner_regs, output_result_view, reg_value_seq, runner_moves, wm,
    write_index,
};

verus! {

// ---------------------------------------------------------------------------
// Register arithmetic
// ---------------------------------------------------------------------------

/// Reversing the bit order of a byte twice gives the byte back.
pub proof fn law_bitrev_involution(b: u8)
    ensures
        bit_reversed(bit_reversed(b)) == b,
{
    assert(bit_reversed(bit_reversed(b)) == b) by (bit_vector);
}

/// A masked register write takes exactly the masked bits from the new value and keeps
/// every other bit of the register.
pub proof fn law_masked_bits(reg: u8, value: u8, mask: u8)
    ensures
        forall|i: u8|
            i < 8 ==> ((#[trigger] masked(reg, value, mask) >> i) & 1) == if (mask >> i) & 1 == 1 {
                (value >> i) & 1
            } else {
                (reg >> i) & 1
            },
{
    assert(forall|i: u8|
        i < 8 ==> (((reg & !mask) | (value & mask)) >> i) & 1 == if (mask >> i) & 1 == 1 {
            (value >> i) & 1
        } else {
            (reg >> i) & 1
        }) by (bit_vector);
}

// ---------------------------------------------------------------------------
// The register shadow
// ---------------------------------------------------------------------------

/// After values are stored from a register on, the shadow holds them there.
pub proof fn law_shadow_holds_stored(regs: Seq<u8>, reg: u8, values: Seq<u8>)
    requires
        regs.len() == NUM_REGS,
        in_shadow(reg, values.len() as int),
    ensures
        shadow_holds(stored_regs(regs, reg, values), reg, values),
{
    assert(stored_regs(regs, reg, values).subrange(
        shadow_index(reg),
        shadow_index(reg) + values.len(),
    ) =~= values);
}

/// Storing values leaves the shadow of every other register as it was.
pub proof fn law_shadow_keeps_others(regs: Seq<u8>, reg: u8, values: Seq<u8>, i: int)
    requires
        0 <= i < regs.len(),
        !(shadow_index(reg) <= i < shadow_index(reg) + values.len()),
    ensures
        stored_regs(regs, reg, values)[i] == regs[i],
{
}

/// Writing again what was just written sends nothing and leaves the shadow as it is.
pub proof fn law_repeated_write_sends_nothing(regs: Seq<u8>, reg: u8, values: Seq<u8>)
    requires
        regs.len() == NUM_REGS,
        in_shadow(reg, values.len() as int),
    ensures
        write_effect(write_effect(regs, reg, values).0, reg, values).1 == Seq::<Seq<u8>>::empty(),
        write_effect(write_effect(regs, reg, values).0, reg, values).0 == write_effect(
            regs,
            reg,
            values,
        ).0,
{
    law_shadow_holds_stored(regs, reg, values);
    if shadow_holds(regs, reg, values) {
    } else {
        assert(stored_regs(regs, reg, values).len() == NUM_REGS);
    }
}

/// A masked write of a shadowed register reads back, from the shadow, as the masked value.
pub proof fn law_masked_write_reads_back(regs: Seq<u8>, reg: u8, value: u8, mask: u8)
    requires
        regs.len() == NUM_REGS,
        in_shadow(reg, 1),
    ensures
        write_effect(regs, reg, seq![masked(regs[shadow_index(reg)], value, mask)]).0[shadow_index(
            reg,
        )] == masked(regs[shadow_index(reg)], value, mask),
{
    let v = seq![masked(regs[shadow_index(reg)], value, mask)];
    law_shadow_holds_stored(regs, reg, v);
    if shadow_holds(regs, reg, v) {
        assert(regs.subrange(shadow_index(reg), shadow_index(reg) + 1)[0] == regs[shadow_index(reg)]);
    } else {
        assert(stored_regs(regs, reg, v).subrange(shadow_index(reg), shadow_index(reg) + 1)[0]
            == stored_regs(regs, reg, v)[shadow_index(reg)]);
    }
}

/// On a tuner, storing values and then comparing the shadow with them gives `true`, and
/// comparing it with any other values of the same length gives `false`.
pub proof fn law_shadow_equal_after_store(
    before: &R82xx,
    after: &R82xx,
    reg: u8,
    values: Seq<u8>,
    other: Seq<u8>,
)
    requires
        after@ == (R82xxView { regs: stored_regs(before@.regs, reg, values), ..before@ }),
        in_shadow(reg, values.len() as int),
        other.len() == values.len(),
    ensures
        shadow_holds(after@.regs, reg, values),
        other != values ==> !shadow_holds(after@.regs, reg, other),
{
    before.lemma_shadow_len();
    law_shadow_holds_stored(before@.regs, reg, values);
}

// ---------------------------------------------------------------------------
// The PLL programming, end to end
// ---------------------------------------------------------------------------

/// Programming the PLL for a frequency that some mixer divider serves, when the device
/// answers without error. First the five status registers are read. Then the values of
/// `pll_register_values` (smallest divider, shadowed window, fifth status byte) are
/// written to registers 0x10..0x16 and the lock is read, or the frequency is refused with
/// that function's error. Once the write has run, the shadow holds exactly those values.
/// Neither move changes the tuner.
pub proof fn law_pll_programs_registers(f: u32, tv: R82xxView, gate_reply: OutputV, status: Seq<u8>)
    requires
        tv.regs.len() == NUM_REGS,
        tv.xtal_hz > 0,
        pll_div_exponent(f) is Some,
        status.len() >= 5,
    ensures
        ({
            let e = pll_div_exponent(f)->Some_0;
            let (s1, t1, st1) = pll_next(pll_started(f), tv, Ok(gate_reply));
            let (s2, t2, st2) = pll_next(s1, t1, Ok(OutputV::Bytes(status)));
            let planned = pll_register_values(
                pll_window(tv.regs),
                tv.kind,
                tv.xtal_hz,
                f,
                two_pow(e) as u32,
                (e - 1) as u8,
                status[4],
            );
            &&& t1 == tv
            &&& st1 == OpStepV::<()>::Run(seq![CmdV::TunerRead { reg: 0x00, len: 5 }])
            &&& t2 == tv
            &&& match planned {
                Ok(regs) => {
                    &&& st2 == OpStepV::<()>::Run(
                        seq![CmdV::TunerWrite { reg: 0x10, values: regs }, pll_lock_read()],
                    )
                    &&& s2.stage == PllStage::FirstLockCheck
                    &&& shadow_holds(
                        cmd_tuner_regs(CmdV::TunerWrite { reg: 0x10, values: regs }, tv),
                        0x10,
                        regs,
                    )
                },
                Err(err) => st2 == OpStepV::<()>::Done(Err(err)),
            }
        }),
{
    reveal(pll_next);
    let e = pll_div_exponent(f)->Some_0;
    let (s1, t1, st1) = pll_next(pll_started(f), tv, Ok(gate_reply));
    assert(s1.window == pll_window(tv.regs));
    assert(bytes_of(OutputV::Bytes(status)) == status);
    let planned = pll_register_values(
        pll_window(tv.regs),
        tv.kind,
        tv.xtal_hz,
        f,
        two_pow(e) as u32,
        (e - 1) as u8,
        status[4],
    );
    if planned is Ok {
        let regs = planned->Ok_0;
        assert(regs.len() == 7);
        law_shadow_holds_stored(tv.regs, 0x10, regs);
    }
}

/// The lock checks of a PLL programming: a first read that shows the lock records it and
/// enables the PLL; one that does not retries once with more charge-pump current, and the
/// tuner's lock flag then follows that second read. The checks change nothing of the
/// tuner but that flag, and the programming then ends successfully either way.
pub proof fn law_pll_lock_follows_last_read(
    s: PllOpV,
    tv: R82xxView,
    first: Seq<u8>,
    tv2: R82xxView,
    second: Seq<u8>,
    enable_reply: OutputV,
)
    requires
        s.stage == PllStage::FirstLockCheck,
        first.len() >= 3,
        second.len() >= 3,
    ensures
        ({
            let (s1, t1, st1) = pll_next(s, tv, Ok(OutputV::Bytes(first)));
            if pll_locked(first) {
                &&& t1 == (R82xxView { has_lock: true, ..tv })
                &&& st1 == OpStepV::<()>::Run(seq![wm(0x1a, 0x08, 0x08)])
                &&& pll_next(s1, tv2, Ok(enable_reply)) == (
                    PllOpV { stage: PllStage::Over, ..s1 },
                    tv2,
                    OpStepV::<()>::Done(Ok(())),
                )
            } else {
                let (s2, t2, st2) = pll_next(s1, tv2, Ok(OutputV::Bytes(second)));
                &&& t1 == tv
                &&& st1 == OpStepV::<()>::Run(seq![wm(0x12, 0x60, 0xe0), pll_lock_read()])
                &&& t2 == (R82xxView { has_lock: pll_locked(second), ..tv2 })
                &&& !pll_locked(second) ==> st2 == OpStepV::<()>::Done(Ok(()))
                &&& pll_locked(second) ==> st2 == OpStepV::<()>::Run(seq![wm(0x1a, 0x08, 0x08)])
            }
        }),
{
    reveal(pll_next);
    assert(bytes_of(OutputV::Bytes(first)) == first);
    assert(bytes_of(OutputV::Bytes(second)) == second);
}

// ---------------------------------------------------------------------------
// Transfers, end to end
// ---------------------------------------------------------------------------

/// A batch of one register write, run by the runner: it starts the command, sends exactly
/// one control-out transfer carrying the value's bytes, and then, if the device reports
/// every byte sent, finishes and ends the batch successfully with the tuner untouched;
/// any other count ends it with `ShortTransfer`.
pub proof fn law_register_write_runs(
    block: u8,
    addr: u16,
    value: u16,
    len: usize,
    sent: usize,
    t0: TunerV,
    n1: RunnerV,
    t1: TunerV,
    r1: RunStep,
    n2: RunnerV,
    t2: TunerV,
    r2: RunStep,
    n3: RunnerV,
    t3: TunerV,
    r3: RunStep,
    n4: RunnerV,
    t4: TunerV,
    r4: RunStep,
    n5: RunnerV,
    t5: TunerV,
    r5: RunStep,
)
    requires
        len == 1 || len == 2,
        runner_moves(
            RunnerV {
                cmds: seq![CmdV::WriteReg { block, addr, value, len }],
                next_cmd: 0,
                micros: seq![],
                next_micro: 0,
                finish: Finish::Nothing,
                data: seq![],
                word: 0,
                output: OutputV::Nothing,
                awaiting: false,
                active: false,
            },
            t0,
            None,
            n1,
            t1,
            r1,
        ),
        runner_moves(n1, t1, None, n2, t2, r2),
        runner_moves(n2, t2, Some(Reply::Sent(sent)), n3, t3, r3),
        runner_moves(n3, t3, None, n4, t4, r4),
        runner_moves(n4, t4, None, n5, t5, r5),
    ensures
        ({
            let data = reg_value_seq(value, len)->Ok_0;
            &&& r1 is Busy
            &&& (r2 matches RunStep::Send(tr) && tr@ == TransferV::ControlOut {
                value: addr,
                index: write_index(block),
                data,
            })
            &&& sent == data.len() ==> {
                &&& r3 is Busy
                &&& r4 is Busy
                &&& (r5 matches RunStep::Done(res) && output_result_view(res) == Ok::<
                    OutputV,
                    Error,
                >(OutputV::Nothing))
                &&& t5 == t0
            }
            &&& sent != data.len() ==> (r3 matches RunStep::Done(res) && res == Err::<Output, Error>(
                Error::ShortTransfer { expected: data.len() as usize, actual: sent },
            ))
        }),
{
}

// ---------------------------------------------------------------------------
// The tuner's kind
// ---------------------------------------------------------------------------

/// A move of the PLL programming keeps the tuner's kind, address and shadow.
pub proof fn law_pll_keeps_tuner(s: PllOpV, tv: R82xxView, outcome: Result<OutputV, Error>)
    ensures
        pll_next(s, tv, outcome).1.kind == tv.kind,
        pll_next(s, tv, outcome).1.i2c_addr == tv.i2c_addr,
        pll_next(s, tv, outcome).1.regs == tv.regs,
{
    reveal(pll_next);
}

/// A move of the TV-standard setup keeps the tuner's kind.
pub proof fn law_tv_standard_keeps_kind(s: TvStandardOpV, tv: R82xxView, outcome: Result<OutputV, Error>)
    ensures
        tv_next(s, tv, outcome).1.kind == tv.kind,
{
    reveal(tv_next);
    law_pll_keeps_tuner(s.pll, tv, outcome);
}

/// A move of the tuner initialisation keeps the tuner's kind.
pub proof fn law_init_keeps_kind(s: InitOpV, tv: R82xxView, outcome: Result<OutputV, Error>)
    ensures
        init_next(s, tv, outcome).1.kind == tv.kind,
{
    reveal(init_next);
    law_tv_standard_keeps_kind(s.tv, tv, outcome);
}

/// A move of a tuning keeps the tuner's kind.
pub proof fn law_set_freq_keeps_kind(s: SetFreqOpV, tv: R82xxView, outcome: Result<OutputV, Error>)
    ensures
        set_freq_next(s, tv, outcome).1.kind == tv.kind,
{
    reveal(set_freq_next);
    law_pll_keeps_tuner(s.pll, tv, outcome);
}

/// A register command run on the tuner changes at most its shadow: it stays an R82xx of
/// the same kind.
pub proof fn law_command_keeps_kind(cmd: CmdV, t: R82xxView)
    ensures
        cmd_tuner_after(cmd, TunerV::R82xx(t)) matches TunerV::R82xx(t2) && t2.kind == t.kind
            && t2.i2c_addr == t.i2c_addr,
{
}

/// One change that a call can make to a tuner: the moves of its PLL programming, TV
/// setup, initialisation and tuning; the first steps of setup and initialisation, which
/// load their register tables; storing into or writing through the shadow (plain or
/// masked); a bandwidth change; and a register command that the runner executes on it.
/// A call that leaves the tuner as it was is a move too.
#[verifier::opaque]
pub open spec fn tuner_move(t1: R82xxView, t2: R82xxView) -> bool {
    ||| t2 == t1
    ||| exists|s: PllOpV, o: Result<OutputV, Error>| #[trigger] pll_next(s, t1, o).1 == t2
    ||| exists|s: TvStandardOpV, o: Result<OutputV, Error>| #[trigger] tv_next(s, t1, o).1 == t2
    ||| exists|s: InitOpV, o: Result<OutputV, Error>| #[trigger] init_next(s, t1, o).1 == t2
    ||| exists|s: SetFreqOpV, o: Result<OutputV, Error>| #[trigger] set_freq_next(s, t1, o).1 == t2
    ||| t2 == (R82xxView { regs: INIT_ARRAY@, ..t1 })
    ||| t2 == (R82xxView { regs: Seq::new(NUM_REGS as nat, |i: int| 0u8), ..t1 })
    ||| exists|reg: u8, values: Seq<u8>|
        t2 == (R82xxView { regs: #[trigger] stored_regs(t1.regs, reg, values), ..t1 })
    ||| exists|reg: u8, values: Seq<u8>|
        t2 == (R82xxView { regs: #[trigger] write_effect(t1.regs, reg, values).0, ..t1 })
    ||| exists|b: u32, rate: u32|
        t2 == (R82xxView { int_freq: #[trigger] bandwidth_setting(b, rate).2, ..t1 })
    ||| exists|cmd: CmdV| #[trigger] cmd_tuner_after(cmd, TunerV::R82xx(t1)) == TunerV::R82xx(t2)
}

/// Any one call keeps the tuner's kind.
pub proof fn law_tuner_move_keeps_kind(t1: R82xxView, t2: R82xxView)
    requires
        tuner_move(t1, t2),
    ensures
        t2.kind == t1.kind,
{
    reveal(tuner_move);
    if exists|s: PllOpV, o: Result<OutputV, Error>| #[trigger] pll_next(s, t1, o).1 == t2 {
        let (s, o) = choose|s: PllOpV, o: Result<OutputV, Error>| #[trigger] pll_next(s, t1, o).1 == t2;
        law_pll_keeps_tuner(s, t1, o);
    } else if exists|s: TvStandardOpV, o: Result<OutputV, Error>| #[trigger] tv_next(s, t1, o).1 == t2 {
        let (s, o) = choose|s: TvStandardOpV, o: Result<OutputV, Error>| #[trigger] tv_next(s, t1, o).1 == t2;
        law_tv_standard_keeps_kind(s, t1, o);
    } else if exists|s: InitOpV, o: Result<OutputV, Error>| #[trigger] init_next(s, t1, o).1 == t2 {
        let (s, o) = choose|s: InitOpV, o: Result<OutputV, Error>| #[trigger] init_next(s, t1, o).1 == t2;
        law_init_keeps_kind(s, t1, o);
    } else if exists|s: SetFreqOpV, o: Result<OutputV, Error>| #[trigger] set_freq_next(s, t1, o).1 == t2 {
        let (s, o) = choose|s: SetFreqOpV, o: Result<OutputV, Error>| #[trigger] set_freq_next(s, t1, o).1 == t2;
        law_set_freq_keeps_kind(s, t1, o);
    } else if exists|cmd: CmdV| #[trigger] cmd_tuner_after(cmd, TunerV::R82xx(t1)) == TunerV::R82xx(t2) {
        let cmd = choose|cmd: CmdV| #[trigger] cmd_tuner_after(cmd, TunerV::R82xx(t1)) == TunerV::R82xx(t2);
        law_command_keeps_kind(cmd, t1);
    }
}

/// Whatever sequence of calls a tuner goes through, from its creation on, its kind stays
/// the one it was made with: every state in the sequence has the first one's kind.
pub proof fn law_tuner_kind_kept_over_calls(states: Seq<R82xxView>)
    requires
        states.len() >= 1,
        forall|i: int| 0 <= i < states.len() - 1 ==> tuner_move(#[trigger] states[i], states[i + 1]),
    ensures
        forall|i: int| 0 <= i < states.len() ==> (#[trigger] states[i]).kind == states[0].kind,
    decreases states.len(),
{
    if states.len() > 1 {
        let front = states.drop_last();
        assert forall|i: int| 0 <= i < front.len() - 1 implies tuner_move(
            #[trigger] front[i],
            front[i + 1],
        ) by {
            assert(front[i] == states[i] && front[i + 1] == states[i + 1]);
            assert(tuner_move(states[i], states[i + 1]));
        }
        law_tuner_kind_kept_over_calls(front);
        let n = states.len() - 1;
        assert(tuner_move(states[n - 1], states[n]));
        law_tuner_move_keeps_kind(states[n - 1], states[n]);
        assert forall|i: int| 0 <= i < states.len() implies (#[trigger] states[i]).kind
            == states[0].kind by {
            assert(front[0] == states[0]);
            if i < n {
                assert(front[i] == states[i]);
                assert(front[i].kind == front[0].kind);
            } else {
                assert(front[n - 1] == states[n - 1]);
                assert(front[n - 1].kind == front[0].kind);
            }
        }
    }
}

/// Once found, the tuner's kind is what every driver operation but the probe leaves as it
/// was: tuning, gain, bandwidth, sample rate and frequency correction.
pub proof fn law_operations_keep_tuner_kind(
    dv: RtlSdrView,
    outcome: Result<OutputV, Error>,
    c: CenterFreqOpV,
    b: BandwidthOpV,
    r: SampleRateOpV,
    k: CorrectionOpV,
)
    ensures
        tuner_kind_of(center_next(c, dv, outcome).1.tuner) == tuner_kind_of(dv.tuner),
        tuner_kind_of(bandwidth_next(b, dv, outcome).1.tuner) == tuner_kind_of(dv.tuner),
        tuner_kind_of(rate_next(r, dv, outcome).1.tuner) == tuner_kind_of(dv.tuner),
        tuner_kind_of(correction_next(k, dv, outcome).1.tuner) == tuner_kind_of(dv.tuner),
{
    reveal(center_next);
    reveal(bandwidth_next);
    reveal(rate_next);
    reveal(correction_next);
    lemma_center_keeps_kind(c, dv, outcome);
    lemma_center_keeps_kind(b.retune, dv, outcome);
    lemma_center_keeps_kind(r.retune, dv, outcome);
    lemma_center_keeps_kind(k.retune, dv, outcome);
}

proof fn lemma_center_keeps_kind(c: CenterFreqOpV, dv: RtlSdrView, outcome: Result<OutputV, Error>)
    ensures
        tuner_kind_of(center_next(c, dv, outcome).1.tuner) == tuner_kind_of(dv.tuner),
{
    reveal(center_next);
    law_set_freq_keeps_kind(c.tuning, dv.tuner->R82xx_0, outcome);
}

// ---------------------------------------------------------------------------
// I2C messages
// ---------------------------------------------------------------------------

/// The values that a list of I2C messages carries, in order: each message without its
/// register byte.
pub open spec fn carried(msgs: Seq<Seq<u8>>) -> Seq<u8>
    decreases msgs.len(),
{
    if msgs.len() == 0 {
        seq![]
    } else {
        msgs[0].drop_first() + carried(msgs.drop_first())
    }
}

/// The I2C messages of a register write carry exactly the values written, each message
/// holds between one and `chunk` values after its register byte, and the first names the
/// register the write starts at.
pub proof fn law_i2c_messages_carry_values(reg: u8, values: Seq<u8>, chunk: nat)
    requires
        chunk >= 1,
    ensures
        carried(i2c_messages(reg, values, chunk)) == values,
        forall|k: int|
            0 <= k < i2c_messages(reg, values, chunk).len() ==> 2 <= (#[trigger] i2c_messages(
                reg,
                values,
                chunk,
            )[k]).len() <= chunk + 1,
        values.len() > 0 ==> i2c_messages(reg, values, chunk)[0][0] == reg,
    decreases values.len(),
{
    let msgs = i2c_messages(reg, values, chunk);
    if values.len() == 0 {
        assert(carried(msgs) =~= values);
    } else {
        let n = if values.len() < chunk {
            values.len()
        } else {
            chunk
        };
        let rest = i2c_messages(((reg + n) % 256) as u8, values.skip(n as int), chunk);
        law_i2c_messages_carry_values(((reg + n) % 256) as u8, values.skip(n as int), chunk);
        let first = seq![reg] + values.take(n as int);
        assert(msgs == seq![first] + rest);
        assert(msgs.drop_first() =~= rest);
        assert(first.drop_first() =~= values.take(n as int));
        assert(carried(msgs) == first.drop_first() + carried(rest));
        assert(values.take(n as int) + values.skip(n as int) =~= values);
        assert forall|k: int| 0 <= k < msgs.len() implies 2 <= (#[trigger] msgs[k]).len() <= chunk
            + 1 by {
            if k > 0 {
                assert(msgs[k] == rest[k - 1]);
            }
        }
    }
}

// ---------------------------------------------------------------------------
// Gain
// ---------------------------------------------------------------------------

proof fn lemma_gain_steps_from(target: int, k: int)
    requires
        0 <= k <= 30,
    ensures
        k <= gain_steps_from(target, k) <= 30,
        gain_steps_from(target, k) < 30 ==> gain_after(gain_steps_from(target, k)) >= target,
        forall|j: int| k <= j < gain_steps_from(target, k) ==> gain_after(j) < target,
    decreases 30 - k,
{
    if k < 30 && gain_after(k) < target {
        lemma_gain_steps_from(target, k + 1);
    }
}

/// Manual gain makes the fewest alternating LNA and mixer increments whose gain reaches the
/// target; only when thirty increments do not reach it does it stop short of it.
pub proof fn law_gain_steps_least(target: int)
    ensures
        0 <= gain_steps(target) <= 30,
        gain_steps(target) < 30 ==> gain_after(gain_steps(target)) >= target,
        forall|j: int| 0 <= j < gain_steps(target) ==> gain_after(j) < target,
{
    lemma_gain_steps_from(target, 0);
}

// ---------------------------------------------------------------------------
// PLL
// ---------------------------------------------------------------------------

proof fn lemma_pll_div_from(khz: int, e: nat)
    requires
        1 <= e <= 7,
    ensures
        match pll_div_exponent_from(khz, e) {
            Some(x) => e <= x <= 6 && vco_in_range(khz * two_pow(x)) && forall|y: nat|
                e <= y < x ==> !vco_in_range(khz * two_pow(y)),
            None => forall|y: nat| e <= y <= 6 ==> !vco_in_range(khz * two_pow(y)),
        },
    decreases 7 - e,
{
    if e <= 6 && !vco_in_range(khz * two_pow(e)) {
        lemma_pll_div_from(khz, e + 1);
        assert forall|y: nat| e <= y < 7 && !(e + 1 <= y) implies !vco_in_range(khz * two_pow(y)) by {
            assert(y == e);
        }
    }
}

/// The PLL takes the smallest mixer divider among 2, 4, ..., 64 that brings the VCO into
/// its range, and refuses the frequency only where none does.
pub proof fn law_pll_divider_smallest(freq_hz: u32)
    ensures
        match pll_div_exponent(freq_hz) {
            Some(e) => 1 <= e <= 6 && vco_in_range(pll_khz(freq_hz) * two_pow(e)) && forall|y: nat|
                1 <= y < e ==> !vco_in_range(pll_khz(freq_hz) * two_pow(y)),
            None => forall|y: nat| 1 <= y <= 6 ==> !vco_in_range(pll_khz(freq_hz) * two_pow(y)),
        },
{
    lemma_pll_div_from(pll_khz(freq_hz), 1);
}

// ---------------------------------------------------------------------------
// Known devices
// ---------------------------------------------------------------------------

proof fn lemma_known_name_from(vendor_id: u16, product_id: u16, i: int)
    requires
        0 <= i <= known_device_table().len(),
    ensures
        known_name_from(known_device_table(), vendor_id, product_id, i) is Some <==> exists|j: int|
            i <= j < known_device_table().len() && (#[trigger] known_device_table()[j]).vendor_id
                == vendor_id && known_device_table()[j].product_id == product_id,
    decreases known_device_table().len() - i,
{
    if i < known_device_table().len() {
        lemma_known_name_from(vendor_id, product_id, i + 1);
        if known_name_from(known_device_table(), vendor_id, product_id, i) is Some {
            if known_device_table()[i].vendor_id == vendor_id && known_device_table()[i].product_id
                == product_id {
                assert(i <= i < known_device_table().len());
            }
        }
    }
}

/// A dongle is known exactly when its USB ids are in the table.
pub proof fn law_known_iff_listed(vendor_id: u16, product_id: u16)
    ensures
        known_name_of(vendor_id, product_id) is Some <==> exists|j: int|
            0 <= j < known_device_table().len() && (#[trigger] known_device_table()[j]).vendor_id
                == vendor_id && known_device_table()[j].product_id == product_id,
{
    lemma_known_name_from(vendor_id, product_id, 0);
}

// ---------------------------------------------------------------------------
// Refused requests
// ---------------------------------------------------------------------------

/// A centre frequency of 0 Hz is refused before any transfer, and nothing changes.
pub proof fn law_zero_frequency_refused(dv: RtlSdrView)
    ensures
        operation_start(Request::SetCenterFrequency(0), dv).1 == dv,
        operation_start(Request::SetCenterFrequency(0), dv).2 == OpStepV::<OutcomeV>::Done(
            Err(Error::InvalidFrequency(0)),
        ),
{
}

/// A manual gain outside -10..50 dB is refused before any transfer, and nothing changes.
pub proof fn law_out_of_range_gain_refused(gain: i32, dv: RtlSdrView)
    requires
        !(-100 <= gain <= 500),
    ensures
        operation_start(Request::SetTunerGain(GainMode::ManualTenthsDb(gain)), dv).1 == dv,
        operation_start(Request::SetTunerGain(GainMode::ManualTenthsDb(gain)), dv).2
            == OpStepV::<OutcomeV>::Done(Err(Error::InvalidGain(gain))),
{
}

/// A sample rate outside 225-300 kHz and 900 kHz-3.2 MHz is refused before any transfer,
/// and nothing changes.
pub proof fn law_invalid_rate_refused(rate: u32, dv: RtlSdrView)
    requires
        !sample_rate_valid(rate),
    ensures
        operation_start(Request::SetSampleRate(rate), dv).1 == dv,
        operation_start(Request::SetSampleRate(rate), dv).2 == OpStepV::<OutcomeV>::Done(
            Err(Error::InvalidSampleRate(rate)),
        ),
{
}

/// Every rate in the accepted bands gets a ratio: the plan is never refused there.
pub proof fn law_valid_rate_accepted(rate: u32)
    requires
        sample_rate_valid(rate),
    ensures
        sample_rate_plan(rate) is Ok,
{
    let n: int = xtal_scaled();
    assert(n == 120_795_955_200_000);
    let q: int = n / rate as int;
    if rate <= 300_000 {
        lemma_div_is_ordered_by_denominator(n, rate as int, 300_000);
        lemma_div_is_ordered_by_denominator(n, 225_001, rate as int);
        assert(n / 300_000 == 0x1800_0000);
        assert(n / 225_001 < 0x2000_0000);
        let x: u64 = q as u64;
        assert(0x1800_0000 <= x < 0x2000_0000);
        assert(x & 0x0fff_fffc != 0) by (bit_vector)
            requires
                0x1800_0000 <= x < 0x2000_0000,
        ;
    } else {
        lemma_div_is_ordered_by_denominator(n, rate as int, 3_200_000);
        lemma_div_is_ordered_by_denominator(n, 900_001, rate as int);
        assert(n / 3_200_000 == 37_748_736);
        assert(n / 900_001 < 0x1000_0000);
        let x: u64 = q as u64;
        assert(4 <= x < 0x1000_0000);
        assert(x & 0x0fff_fffc != 0) by (bit_vector)
            requires
                4 <= x < 0x1000_0000,
        ;
    }
}

/// A sample-rate change that starts reports, when it succeeds, the rate that the resampler
/// gives for the requested one.
pub proof fn law_rate_start_plans(rate: u32, dv: RtlSdrView)
    ensures
        ({
            let (n, st) = rate_start(rate_fresh(rate), dv);
            &&& st is Run <==> sample_rate_plan(rate) is Ok
            &&& sample_rate_plan(rate) matches Ok((ratio, obtained)) ==> n.ratio == ratio
                && n.real_rate == obtained
        }),
{
}

/// Every move of a sample-rate change keeps the rate it will report, and once the
/// demodulator is programmed the dongle records that rate; a success reports exactly the
/// recorded rate.
pub proof fn law_rate_reports_recorded_rate(
    s: SampleRateOpV,
    dv: RtlSdrView,
    outcome: Result<OutputV, Error>,
)
    requires
        rate_wf(s),
        s.stage != RateStage::Start,
        s.stage != RateStage::Over,
        s.stage == RateStage::Retuning ==> dv.sample_rate_hz == s.real_rate,
    ensures
        ({
            let (n, dv2, st) = rate_next(s, dv, outcome);
            &&& n.real_rate == s.real_rate
            &&& n.stage == RateStage::Retuning ==> dv2.sample_rate_hz == n.real_rate
            &&& st matches OpStepV::Done(Ok(r)) ==> r == s.real_rate && dv2.sample_rate_hz == r
        }),
{
    reveal(rate_next);
    if s.stage == RateStage::Retuning {
        law_center_closes_repeater(s.retune, dv, outcome);
    }
}

// ---------------------------------------------------------------------------
// The I2C repeater
// ---------------------------------------------------------------------------

/// Tuning gives its result only once the repeater is closed again (or could not be
/// opened), and the move into the closing stage closes it; on success it records the
/// frequency, on failure the recorded frequency stays. Nothing else of the dongle's
/// state but its tuner changes.
pub proof fn law_center_closes_repeater(s: CenterFreqOpV, dv: RtlSdrView, outcome: Result<OutputV, Error>)
    requires
        s.stage != CenterStage::Start,
        s.stage != CenterStage::Over,
    ensures
        ({
            let (n, dv2, st) = center_next(s, dv, outcome);
            &&& st is Done ==> (s.stage == CenterStage::Closing || (s.stage == CenterStage::Opening
                && outcome is Err))
            &&& (n.stage == CenterStage::Closing && s.stage != CenterStage::Closing) ==> st
                == OpStepV::<()>::Run(repeater_batch(false))
            &&& st == OpStepV::<()>::Done(Ok(())) ==> dv2.center_freq_hz == Some(s.freq_hz)
            &&& st matches OpStepV::Done(Err(_)) ==> dv2.center_freq_hz == dv.center_freq_hz
            &&& dv2 == (RtlSdrView { tuner: dv2.tuner, center_freq_hz: dv2.center_freq_hz, ..dv })
        }),
{
    reveal(center_next);
}

/// Setting the gain gives its result only once the repeater is closed again (or could
/// not be opened), and the move into the closing stage closes it.
pub proof fn law_gain_closes_repeater(s: GainOpV, dv: RtlSdrView, outcome: Result<OutputV, Error>)
    requires
        s.stage != RepeaterStage::Start,
        s.stage != RepeaterStage::Over,
    ensures
        ({
            let (n, st) = gain_next(s, dv, outcome);
            &&& st is Done ==> (s.stage == RepeaterStage::Closing || (s.stage
                == RepeaterStage::Opening && outcome is Err))
            &&& (n.stage == RepeaterStage::Closing && s.stage != RepeaterStage::Closing) ==> st
                == OpStepV::<()>::Run(repeater_batch(false))
        }),
{
    reveal(gain_next);
}

/// A bandwidth change gives its result only after the repeater is closed again (or could
/// not be opened), and the move into the closing stage closes it.
pub proof fn law_bandwidth_closes_repeater(s: BandwidthOpV, dv: RtlSdrView, outcome: Result<OutputV, Error>)
    requires
        s.stage != BandwidthStage::Start,
        s.stage != BandwidthStage::Over,
    ensures
        ({
            let (n, _, st) = bandwidth_next(s, dv, outcome);
            &&& st is Done ==> s.stage != BandwidthStage::InTuner && (s.stage
                != BandwidthStage::Opening || outcome is Err)
            &&& (n.stage == BandwidthStage::Closing && s.stage != BandwidthStage::Closing) ==> st
                == OpStepV::<()>::Run(repeater_batch(false))
        }),
{
    reveal(bandwidth_next);
}

/// A sample-rate change gives its result only after the repeater is closed again (or could
/// not be opened), and the move into the closing stage closes it.
pub proof fn law_rate_closes_repeater(s: SampleRateOpV, dv: RtlSdrView, outcome: Result<OutputV, Error>)
    requires
        s.stage != RateStage::Start,
        s.stage != RateStage::Over,
    ensures
        ({
            let (n, _, st) = rate_next(s, dv, outcome);
            &&& st is Done ==> s.stage != RateStage::InTuner && (s.stage != RateStage::Opening
                || outcome is Err)
            &&& (n.stage == RateStage::Closing && s.stage != RateStage::Closing) ==> st
                == OpStepV::<u32>::Run(repeater_batch(false))
        }),
{
    reveal(rate_next);
}

/// The probe gives its result only once the repeater is closed again (or could not be
/// opened), and the move into the closing stage closes it.
pub proof fn law_probe_closes_repeater(s: ProbeOpV, dv: RtlSdrView, outcome: Result<OutputV, Error>)
    requires
        s.stage != ProbeStage::Start,
        s.stage != ProbeStage::Over,
    ensures
        ({
            let (n, _, st) = probe_next(s, dv, outcome);
            &&& st is Done ==> (s.stage == ProbeStage::Closing || (s.stage == ProbeStage::Opening
                && outcome is Err))
            &&& (n.stage == ProbeStage::Closing && s.stage != ProbeStage::Closing) ==> st
                == OpStepV::<()>::Run(repeater_batch(false))
        }),
{
    reveal(probe_next);
}

// ---------------------------------------------------------------------------
// Register encodings, stated by what they mean
// ---------------------------------------------------------------------------

/// The PLL registers encode the divider `w = (xtal + 65536 * f * mix_div) / (2 * xtal)`
/// (rounded, in units of 1/65536): register 0x14 holds its integer part as `4 * ni + si + 13`
/// (ni in the low six bits, si in the top two), and registers 0x15 and 0x16 its fraction,
/// low byte first. The VCO that the registers program, `2 * xtal * w / 65536`, is within
/// half a step of `f * mix_div`.
pub proof fn law_pll_divider_encoding(
    window: Seq<u8>,
    kind: R82xxKind,
    xtal: u32,
    f: u32,
    mix_div: u32,
    div_num: u8,
    status: u8,
)
    requires
        window.len() == 7,
        xtal > 0,
        mix_div <= 64,
    ensures
        pll_register_values(window, kind, xtal, f, mix_div, div_num, status) matches Ok(regs) ==> {
            let w = (xtal + 65536 * (f * mix_div)) / (2 * xtal);
            &&& regs.len() == 7
            &&& regs[5] + 256 * regs[6] == w % 65536
            &&& 4 * (regs[4] % 64) + regs[4] / 64 + 13 == (w / 65536) % 256
            &&& 65536 * (f * mix_div) - xtal < 2 * xtal * w <= 65536 * (f * mix_div) + xtal
        },
{
    let w: int = (xtal + 65536 * (f * mix_div)) / (2 * xtal);
    assert(0 <= f * mix_div <= 0xffff_ffff * 64) by (nonlinear_arith)
        requires
            mix_div <= 64,
    ;
    assert(0 <= w <= xtal + 65536 * (f * mix_div)) by (nonlinear_arith)
        requires
            xtal > 0,
            w == (xtal + 65536 * (f * mix_div)) / (2 * xtal),
            f * mix_div >= 0,
    ;
    assert(65536 * (f * mix_div) - xtal < 2 * xtal * w <= 65536 * (f * mix_div) + xtal)
        by (nonlinear_arith)
        requires
            xtal > 0,
            w == (xtal + 65536 * (f * mix_div)) / (2 * xtal),
    ;
    assert(pll_vco_div(xtal, f, mix_div) == w);
    let sdm = pll_sdm(xtal, f, mix_div);
    let nint = pll_nint(xtal, f, mix_div);
    assert(sdm == w % 65536);
    assert(nint == (w / 65536) % 256) by {
        let q: u64 = (pll_vco_div(xtal, f, mix_div) / 65_536);
        assert(q as u8 == q % 256) by (bit_vector);
    }
    assert((sdm & 0xff) as u8 == sdm % 256 && (sdm >> 8u16) as u8 == sdm / 256) by (bit_vector);
    if pll_register_values(window, kind, xtal, f, mix_div, div_num, status) is Ok {
        let ni = ((nint - 13) / 4) as u8;
        let si = (nint - 4 * ni - 13) as u8;
        assert(si < 4 && ni < 64);
        assert((ni + (si << 6u8)) as u8 == ni + 64 * si) by (bit_vector)
            requires
                si < 4,
                ni < 64,
        ;
        let r4: u8 = (ni + (si << 6u8)) as u8;
        assert(r4 % 64 == ni && r4 / 64 == si);
    }
}

/// The width of the IF low-pass filter that code `c` (the low nibble of register 0x0b)
/// selects.
pub open spec fn lpf_width(c: int) -> int {
    if c == 15 {
        1_700_000
    } else if c == 14 {
        1_600_000
    } else if c == 13 {
        1_550_000
    } else if c == 12 {
        1_450_000
    } else if c == 11 {
        1_200_000
    } else if c == 10 {
        900_000
    } else if c == 9 {
        700_000
    } else if c == 8 {
        550_000
    } else if c == 7 {
        450_000
    } else {
        350_000
    }
}

/// For a bandwidth of at most 2.43 MHz (0 standing for the sample rate), register 0x0b
/// selects the narrowest low-pass filter at least as wide as what is left of the bandwidth
/// once the enabled offsets are taken off: 380 kHz (bit 0x20 cleared) above 2.05 MHz, and
/// 350 kHz (bit 0x40 cleared) where 1.7 MHz is still exceeded. The IF is then
/// `2.3 MHz + shift - (shift + filter width) / 2`, `shift` being the sum of the enabled
/// offsets.
pub proof fn law_narrow_bandwidth_filter(bandwidth_hz: u32, sample_rate_hz: u32)
    requires
        (if bandwidth_hz == 0 {
            sample_rate_hz
        } else {
            bandwidth_hz
        }) <= 2_430_000,
    ensures
        ({
            let bw: int = if bandwidth_hz == 0 {
                sample_rate_hz as int
            } else {
                bandwidth_hz as int
            };
            let (r0a, r0b, f) = bandwidth_setting(bandwidth_hz, sample_rate_hz);
            let off_wide: int = if r0b & 0x20 == 0 {
                380_000
            } else {
                0
            };
            let off_mid: int = if r0b & 0x40 == 0 {
                350_000
            } else {
                0
            };
            let shift = off_wide + off_mid;
            let code = (r0b & 0x0f) as int;
            &&& r0a == 0
            &&& r0b & 0x80 != 0 && r0b & 0x10 == 0
            &&& 6 <= code <= 15
            &&& (off_wide != 0) == (bw > 2_050_000)
            &&& (off_mid != 0) == (bw - off_wide > 1_700_000)
            &&& bw - shift <= lpf_width(code)
            &&& code > 6 ==> lpf_width(code - 1) < bw - shift
            &&& f == 2_300_000 + shift - (shift + lpf_width(code)) / 2
        }),
{
    assert(IF_LOW_PASS_BW_TABLE@ =~= seq![
        1_700_000u32, 1_600_000, 1_550_000, 1_450_000, 1_200_000, 900_000, 700_000, 550_000,
        450_000, 350_000,
    ]);
    reveal_with_fuel(lpf_insertion, 11);
    let bw: int = if bandwidth_hz == 0 {
        sample_rate_hz as int
    } else {
        bandwidth_hz as int
    };
    let wide = bw > 2_050_000;
    let bw1 = if wide {
        bw - 380_000
    } else {
        bw
    };
    let mid = bw1 > 1_700_000;
    let bw2 = if mid {
        bw1 - 350_000
    } else {
        bw1
    };
    let idx = lpf_index(bw2);
    assert(0 <= idx <= 9);
    assert(bw2 <= IF_LOW_PASS_BW_TABLE@[idx]);
    assert(idx < 9 ==> IF_LOW_PASS_BW_TABLE@[idx + 1] < bw2);
    let x: u8 = (15 - idx) as u8;
    let wb: u8 = if wide {
        0u8
    } else {
        0x20u8
    };
    let mb: u8 = if mid {
        0u8
    } else {
        0x40u8
    };
    let b: u8 = ((0x80u8 | wb) | mb) | x;
    assert(b & 0x0f == x && b & 0x20 == wb && b & 0x40 == mb && b & 0x80 != 0 && b & 0x10 == 0)
        by (bit_vector)
        requires
            x <= 15,
            wb == 0 || wb == 0x20,
            mb == 0 || mb == 0x40,
            b == ((0x80u8 | wb) | mb) | x,
    ;
    assert(lpf_width(x as int) == IF_LOW_PASS_BW_TABLE@[idx]);
    assert(x > 6 ==> lpf_width(x - 1) == IF_LOW_PASS_BW_TABLE@[idx + 1]);
}

/// The low 22 bits of a word, as three register bytes of 6, 8 and 8 bits, make up the
/// word modulo 2^22.
proof fn lemma_low_22_bits(w: i64)
    ensures
        (((w >> 16u64) & 0x3f) as u16) < 64,
        (((w >> 8u64) & 0xff) as u16) < 256,
        ((w & 0xff) as u16) < 256,
        (((w >> 16u64) & 0x3f) as u16) as int * 65536 + (((w >> 8u64) & 0xff) as u16) as int * 256
            + ((w & 0xff) as u16) as int == (w as int) % 4194304,
{
    let hi = ((w >> 16u64) & 0x3f) as u16;
    let mi = ((w >> 8u64) & 0xff) as u16;
    let lo = (w & 0xff) as u16;
    let r = w & 0x3f_ffff;
    let k = w >> 22u64;
    assert(hi < 64 && mi < 256 && lo < 256 && hi as int * 65536 + mi as int * 256 + lo as int == r
        && 0 <= r < 4194304 && w as int == k as int * 4194304 + r as int) by (bit_vector)
        requires
            hi == ((w >> 16u64) & 0x3f) as u16,
            mi == ((w >> 8u64) & 0xff) as u16,
            lo == (w & 0xff) as u16,
            r == w & 0x3f_ffff,
            k == w >> 22u64,
    ;
}

/// The low 14 bits of a word, as register bytes of 8 and 6 bits, make up the word modulo
/// 2^14.
proof fn lemma_low_14_bits(w: i64)
    ensures
        ((w & 0xff) as u16) < 256,
        (((w >> 8u64) & 0x3f) as u16) < 64,
        (((w >> 8u64) & 0x3f) as u16) as int * 256 + ((w & 0xff) as u16) as int == (w as int)
            % 16384,
{
    let hi = ((w >> 8u64) & 0x3f) as u16;
    let lo = (w & 0xff) as u16;
    let r = w & 0x3fff;
    let k = w >> 14u64;
    assert(hi < 64 && lo < 256 && hi as int * 256 + lo as int == r && 0 <= r < 16384 && w as int
        == k as int * 16384 + r as int) by (bit_vector)
        requires
            hi == ((w >> 8u64) & 0x3f) as u16,
            lo == (w & 0xff) as u16,
            r == w & 0x3fff,
            k == w >> 14u64,
    ;
}

/// The demodulator's IF registers 0x19, 0x1a, 0x1b hold, most significant first, the
/// 22-bit two's-complement word `-(f * 2^22 / 28.8 MHz)`: the three bytes make up that word
/// modulo 2^22, and, sign-extended, they are exactly it for every IF below 14.4 MHz. So
/// different IFs in that range give different words.
pub proof fn law_if_word_encoding(f: u32)
    ensures
        ({
            let (b0, b1, b2) = if_register_values(f);
            let q: int = f as int * 4194304 / 28_800_000;
            let d: int = b0 as int * 65536 + b1 as int * 256 + b2 as int;
            &&& b0 < 64 && b1 < 256 && b2 < 256
            &&& (d + q) % 4194304 == 0
            &&& f < 14_400_000 ==> (if d >= 0x20_0000 {
                d - 0x40_0000
            } else {
                d
            }) == -q
        }),
{
    let q: int = f as int * 4194304 / 28_800_000;
    assert(0 <= q <= 0xffff_ffff * 4194304 / 28_800_000) by (nonlinear_arith)
        requires
            q == f as int * 4194304 / 28_800_000,
    ;
    let w: i64 = if_word(f);
    assert(w == -q);
    lemma_low_22_bits(w);
    if f < 14_400_000 {
        assert(q < 0x20_0000) by (nonlinear_arith)
            requires
                q == f as int * 4194304 / 28_800_000,
                f < 14_400_000,
        ;
    }
}

/// The sample-clock correction registers 0x3f (low byte) and 0x3e (six high bits) hold the
/// 14-bit two's-complement offset `-ppm * 2^24 / 10^6`, rounded toward zero: positive for a
/// negative ppm. The two bytes make up that offset modulo 2^14, and, sign-extended, they
/// are exactly it for every correction within ±488 ppm.
pub proof fn law_correction_encoding(ppm: i32)
    ensures
        ({
            let (lo, hi) = correction_register_values(ppm);
            let m: int = (if ppm < 0 {
                -(ppm as int)
            } else {
                ppm as int
            }) * 16777216 / 1_000_000;
            let expected: int = if ppm < 0 {
                m
            } else {
                -m
            };
            let d: int = hi as int * 256 + lo as int;
            &&& lo < 256 && hi < 64
            &&& (d - expected) % 16384 == 0
            &&& -488 <= ppm <= 488 ==> (if d >= 0x2000 {
                d - 0x4000
            } else {
                d
            }) == expected
        }),
{
    let a: int = if ppm < 0 {
        -(ppm as int)
    } else {
        ppm as int
    };
    let m: int = a * 16777216 / 1_000_000;
    assert(0 <= m <= 0x8000_0000 * 16777216 / 1_000_000) by (nonlinear_arith)
        requires
            m == a * 16777216 / 1_000_000,
            0 <= a <= 0x8000_0000,
    ;
    let expected: int = if ppm < 0 {
        m
    } else {
        -m
    };
    assert(trunc_div(-(ppm as int) * 0x100_0000, 1_000_000) == expected);
    let w: i64 = correction_offset(ppm);
    assert(w == expected);
    lemma_low_14_bits(w);
    if -488 <= ppm <= 488 {
        assert(m < 0x2000) by (nonlinear_arith)
            requires
                m == a * 16777216 / 1_000_000,
                0 <= a <= 488,
        ;
    }
}

/// Correcting by `-ppm` gives the opposite offset of correcting by `ppm`.
pub proof fn law_correction_is_odd(ppm: i32)
    requires
        ppm > i32::MIN,
    ensures
        correction_offset((-ppm) as i32) == -correction_offset(ppm),
{
    let a: int = if ppm < 0 {
        -(ppm as int)
    } else {
        ppm as int
    };
    let m: int = a * 16777216 / 1_000_000;
    assert(0 <= m <= 0x8000_0000 * 16777216 / 1_000_000) by (nonlinear_arith)
        requires
            m == a * 16777216 / 1_000_000,
            0 <= a <= 0x8000_0000,
    ;
    assert(trunc_div(-(ppm as int) * 0x100_0000, 1_000_000) == if ppm < 0 {
        m
    } else {
        -m
    });
    assert(trunc_div(-(((-ppm) as i32) as int) * 0x100_0000, 1_000_000) == if ppm < 0 {
        -m
    } else {
        m
    });
}

/// The tuner's shadow after the commands of a batch have run on it, in order.
pub open spec fn shadow_after(t: R82xxView, cmds: Seq<CmdV>) -> Seq<u8>
    decreases cmds.len(),
{
    if cmds.len() == 0 {
        t.regs
    } else {
        shadow_after(R82xxView { regs: cmd_tuner_regs(cmds[0], t), ..t }, cmds.drop_first())
    }
}

/// A masked write of a shadowed register changes that register to the masked value and
/// no other.
proof fn lemma_masked_write_effect(t: R82xxView, reg: u8, value: u8, mask: u8)
    requires
        t.regs.len() == NUM_REGS,
        in_shadow(reg, 1),
    ensures
        ({
            let r2 = cmd_tuner_regs(CmdV::TunerWriteMask { reg, value, mask }, t);
            &&& r2.len() == NUM_REGS
            &&& r2[shadow_index(reg)] == masked(t.regs[shadow_index(reg)], value, mask)
            &&& forall|i: int| 0 <= i < NUM_REGS && i != shadow_index(reg) ==> r2[i] == t.regs[i]
        }),
{
    law_masked_write_reads_back(t.regs, reg, value, mask);
    let v = seq![masked(t.regs[shadow_index(reg)], value, mask)];
    if !shadow_holds(t.regs, reg, v) {
        assert(stored_regs(t.regs, reg, v).len() == NUM_REGS);
    }
}

/// Automatic gain clears the LNA's manual-gain bit (bit 4 of register 0x05) and sets the
/// mixer's automatic-gain bit (bit 4 of register 0x07); a manual gain does the opposite.
/// Whatever the shadow held before, these are the bits the batch leaves there.
pub proof fn law_gain_mode_bits(t: R82xxView, gain: i32)
    requires
        t.regs.len() == NUM_REGS,
    ensures
        shadow_after(t, gain_batch(false, gain))[0] & 0x10 == 0,
        shadow_after(t, gain_batch(false, gain))[2] & 0x10 != 0,
        shadow_after(t, gain_batch(true, gain))[0] & 0x10 != 0,
        shadow_after(t, gain_batch(true, gain))[2] & 0x10 == 0,
{
    reveal_with_fuel(shadow_after, 7);
    // Automatic: 0x05 <- bit 4 clear, 0x07 <- bit 4 set, 0x0c.
    let a = gain_batch(false, gain);
    lemma_masked_write_effect(t, 0x05, 0x00, 0x10);
    let t1 = R82xxView { regs: cmd_tuner_regs(a[0], t), ..t };
    lemma_masked_write_effect(t1, 0x07, 0x10, 0x10);
    let t2 = R82xxView { regs: cmd_tuner_regs(a[1], t1), ..t1 };
    lemma_masked_write_effect(t2, 0x0c, 0x0b, 0x9f);
    let t3 = R82xxView { regs: cmd_tuner_regs(a[2], t2), ..t2 };
    assert(a.drop_first().drop_first().drop_first() =~= Seq::<CmdV>::empty());
    assert(shadow_after(t, a) == t3.regs) by {
        assert(a.drop_first()[0] == a[1]);
        assert(a.drop_first().drop_first()[0] == a[2]);
    }
    let x0 = t.regs[0];
    let x2 = t1.regs[2];
    assert(masked(x0, 0x00, 0x10) & 0x10 == 0 && masked(x2, 0x10, 0x10) & 0x10 != 0) by (bit_vector);
    // Manual: 0x05 <- bit 4 set, 0x07 <- bit 4 clear, a read, 0x0c, then the gain indexes
    // under the low-nibble masks, which leave bit 4 alone.
    let mb = gain_batch(true, gain);
    let k = gain_steps(gain as int);
    let lna = ((k + 1) / 2) as u8;
    let mix = (k / 2) as u8;
    lemma_masked_write_effect(t, 0x05, 0x10, 0x10);
    let m1 = R82xxView { regs: cmd_tuner_regs(mb[0], t), ..t };
    lemma_masked_write_effect(m1, 0x07, 0x00, 0x10);
    let m2 = R82xxView { regs: cmd_tuner_regs(mb[1], m1), ..m1 };
    let m3 = R82xxView { regs: cmd_tuner_regs(mb[2], m2), ..m2 };
    assert(m3.regs == m2.regs);
    lemma_masked_write_effect(m3, 0x0c, 0x08, 0x9f);
    let m4 = R82xxView { regs: cmd_tuner_regs(mb[3], m3), ..m3 };
    lemma_masked_write_effect(m4, 0x05, lna, 0x0f);
    let m5 = R82xxView { regs: cmd_tuner_regs(mb[4], m4), ..m4 };
    lemma_masked_write_effect(m5, 0x07, mix, 0x0f);
    let m6 = R82xxView { regs: cmd_tuner_regs(mb[5], m5), ..m5 };
    assert(shadow_after(t, mb) == m6.regs) by {
        let d1 = mb.drop_first();
        let d2 = d1.drop_first();
        let d3 = d2.drop_first();
        let d4 = d3.drop_first();
        let d5 = d4.drop_first();
        assert(d1[0] == mb[1] && d2[0] == mb[2] && d3[0] == mb[3] && d4[0] == mb[4] && d5[0] == mb[5]);
        assert(d5.drop_first() =~= Seq::<CmdV>::empty());
    }
    let z0 = t.regs[0];
    let z2 = m1.regs[2];
    let y0 = masked(z0, 0x10, 0x10);
    let y2 = masked(z2, 0x00, 0x10);
    assert(y0 & 0x10 != 0 && masked(y0, lna, 0x0f) & 0x10 != 0) by (bit_vector)
        requires
            y0 == masked(z0, 0x10, 0x10),
    ;
    assert(y2 & 0x10 == 0 && masked(y2, mix, 0x0f) & 0x10 == 0) by (bit_vector)
        requires
            y2 == masked(z2, 0x00, 0x10),
    ;
}

/// The other PLL registers: register 0x10 carries in its top three bits the mixer divider
/// code, moved one step down when the VCO fine-tune reading (bits 4-5 of the status byte)
/// is above the kind's reference (1 for the R828D, 2 for the R820T) and one step up when it
/// is below, and keeps its other bits; register 0x12 has bit 3 set exactly when the
/// fraction is zero and keeps its other bits; registers 0x11 and 0x13 are kept. The
/// programming is refused exactly when the integer part falls outside 13 up to
/// `128 / reference - 1`.
pub proof fn law_pll_other_registers(
    window: Seq<u8>,
    kind: R82xxKind,
    xtal: u32,
    f: u32,
    mix_div: u32,
    div_num: u8,
    status: u8,
)
    requires
        window.len() == 7,
        xtal > 0,
        mix_div <= 64,
    ensures
        ({
            let w = (xtal + 65536 * (f * mix_div)) / (2 * xtal);
            let reference: int = if kind == R82xxKind::R828D {
                1
            } else {
                2
            };
            let fine: int = (status as int / 16) % 4;
            let code: int = if fine > reference {
                if div_num == 0 {
                    0
                } else {
                    div_num - 1
                }
            } else if fine < reference {
                if div_num == 255 {
                    255
                } else {
                    div_num + 1
                }
            } else {
                div_num as int
            };
            let nint = (w / 65536) % 256;
            &&& (pll_register_values(window, kind, xtal, f, mix_div, div_num, status) is Ok) == (13
                <= nint <= 128int / reference - 1)
            &&& pll_register_values(window, kind, xtal, f, mix_div, div_num, status) matches Ok(regs)
                ==> {
                &&& regs[0] / 32 == code % 8
                &&& regs[0] % 32 == window[0] % 32
                &&& regs[1] == window[1]
                &&& regs[3] == window[3]
                &&& (regs[2] / 8) % 2 == (if w % 65536 == 0 {
                    1int
                } else {
                    0
                })
                &&& regs[2] % 8 == window[2] % 8
                &&& regs[2] / 16 == window[2] / 16
            }
        }),
{
    law_pll_divider_encoding(window, kind, xtal, f, mix_div, div_num, status);
    let w: int = (xtal + 65536 * (f * mix_div)) / (2 * xtal);
    assert(0 <= f * mix_div <= 0xffff_ffff * 64) by (nonlinear_arith)
        requires
            mix_div <= 64,
    ;
    assert(0 <= w <= xtal + 65536 * (f * mix_div)) by (nonlinear_arith)
        requires
            xtal > 0,
            w == (xtal + 65536 * (f * mix_div)) / (2 * xtal),
            f * mix_div >= 0,
    ;
    assert(pll_vco_div(xtal, f, mix_div) == w);
    let q: u64 = pll_vco_div(xtal, f, mix_div) / 65_536;
    assert(q as u8 == q % 256) by (bit_vector);
    let sdm = pll_sdm(xtal, f, mix_div);
    assert(sdm == w % 65536);
    assert(((status & 0x30) >> 4u8) == (status / 16) % 4) by (bit_vector);
    let dn = adjusted_div_num(kind, div_num, status);
    let w0 = window[0];
    let w2 = window[2];
    let r0 = masked(w0, dn << 5u8, 0xe0);
    assert(r0 / 32 == dn % 8 && r0 % 32 == w0 % 32) by (bit_vector)
        requires
            r0 == masked(w0, dn << 5u8, 0xe0),
    ;
    let bit: u8 = if sdm == 0 {
        0x08
    } else {
        0x00
    };
    let r2 = masked(w2, bit, 0x08);
    assert((r2 / 8) % 2 == (if bit == 0x08 { 1u8 } else { 0u8 }) && r2 % 8 == w2 % 8 && r2 / 16
        == w2 / 16) by (bit_vector)
        requires
            r2 == masked(w2, bit, 0x08),
            bit == 0x08 || bit == 0,
    ;
}

/// The resampler ratio of a valid sample rate: the hardware applies `N / rate` rounded down
/// to a multiple of 4 (N = 28.8 MHz * 2^22); the register gets that value's low 28 bits, and
/// the rate reported back is N divided by the applied value.
pub proof fn law_sample_rate_ratio(rate: u32)
    requires
        sample_rate_valid(rate),
    ensures
        ({
            let q: int = 120_795_955_200_000int / rate as int;
            let applied: int = q - q % 4;
            &&& sample_rate_plan(rate) matches Ok((ratio, obtained)) && ratio == applied % 0x1000_0000
                && applied_ratio(ratio) == applied && obtained == 120_795_955_200_000int / applied
        }),
{
    law_valid_rate_accepted(rate);
    let n: int = xtal_scaled();
    assert(n == 120_795_955_200_000);
    let q: int = n / rate as int;
    if rate <= 300_000 {
        lemma_div_is_ordered_by_denominator(n, rate as int, 300_000);
        lemma_div_is_ordered_by_denominator(n, 225_001, rate as int);
        assert(n / 300_000 == 0x1800_0000);
        assert(n / 225_001 < 0x2000_0000);
    } else {
        lemma_div_is_ordered_by_denominator(n, rate as int, 3_200_000);
        lemma_div_is_ordered_by_denominator(n, 900_001, rate as int);
        assert(n / 3_200_000 == 37_748_736);
        assert(n / 900_001 < 0x0800_0000);
    }
    let x: u64 = q as u64;
    let r: u64 = x & 0x0fff_fffc;
    assert(r == (x - x % 4) % 0x1000_0000 && (r | ((r & 0x0800_0000) << 1u64)) == x - x % 4)
        by (bit_vector)
        requires
            r == x & 0x0fff_fffc,
            (4 <= x < 0x0800_0000) || (0x1800_0000 <= x < 0x2000_0000),
    ;
    assert(x as int == q);
    assert(resampler_ratio(rate) == r);
    assert(applied_ratio(r) == x - x % 4);
    let applied: int = q - q % 4;
    assert(applied >= 37_748_732);
    lemma_div_is_ordered_by_denominator(n, 37_748_732, applied);
    assert(n / 37_748_732 < 0x1_0000_0000);
    assert(real_sample_rate(r) == n / applied);
}

proof fn lemma_mux_index_from_brackets(fm: int, i: int)
    requires
        0 <= i <= 20,
        FREQ_RANGE_MHZ@[i] <= fm,
        FREQ_RANGE_MHZ@ =~= seq![
            0u32, 50, 55, 60, 65, 70, 75, 80, 90, 100, 110, 120, 140, 180, 220, 250, 280, 310, 450,
            588, 650,
        ],
    ensures
        ({
            let j = mux_index_from(fm, i);
            &&& i <= j <= 20
            &&& FREQ_RANGE_MHZ@[j] <= fm
            &&& j < 20 ==> fm < FREQ_RANGE_MHZ@[j + 1]
        }),
    decreases 20 - i,
{
    if i < 20 && fm >= FREQ_RANGE_MHZ@[i + 1] {
        lemma_mux_index_from_brackets(fm, i + 1);
    }
}

/// The tracking-filter and multiplexer settings of a tuning come from the band that
/// contains the frequency: the last band whose start (in whole MHz) is at or below it,
/// the band after it starting above it.
pub proof fn law_mux_band_contains_frequency(freq_hz: u32)
    ensures
        ({
            let fm = freq_hz as int / 1_000_000;
            let i = mux_index(fm);
            &&& 0 <= i <= 20
            &&& FREQ_RANGE_MHZ@[i] <= fm
            &&& i < 20 ==> fm < FREQ_RANGE_MHZ@[i + 1]
            &&& mux_batch(freq_hz)[0] == wm(0x17, FREQ_RANGE_OPEN_D@[i], 0x08)
            &&& mux_batch(freq_hz)[1] == wm(0x1a, FREQ_RANGE_RF_MUX_PLOY@[i], 0xc3)
            &&& mux_batch(freq_hz)[3] == wm(0x10, FREQ_RANGE_XTAL_CAP0P@[i], 0x0b)
        }),
{
    assert(FREQ_RANGE_MHZ@ =~= seq![
        0u32, 50, 55, 60, 65, 70, 75, 80, 90, 100, 110, 120, 140, 180, 220, 250, 280, 310, 450,
        588, 650,
    ]);
    lemma_mux_index_from_brackets(freq_hz as int / 1_000_000, 0);
}

proof fn lemma_fir_pair(c: Seq<i16>, k: int)
    requires
        c.len() == 16,
        0 <= k < 4,
        forall|i: int| 8 <= i < 16 ==> 0 <= #[trigger] c[i] < 4096,
    ensures
        fir_packed(c)[8 + 3 * k] as int * 16 + fir_packed(c)[9 + 3 * k] as int / 16 == c[8 + 2 * k],
        (fir_packed(c)[9 + 3 * k] as int % 16) * 256 + fir_packed(c)[10 + 3 * k] as int == c[9 + 2
            * k],
{
    let b = fir_packed(c);
    let v0 = c[8 + 2 * k];
    let v1 = c[9 + 2 * k];
    assert((8 + 3 * k - 8) / 3 == k && (8 + 3 * k - 8) % 3 == 0);
    assert((9 + 3 * k - 8) / 3 == k && (9 + 3 * k - 8) % 3 == 1);
    assert((10 + 3 * k - 8) / 3 == k && (10 + 3 * k - 8) % 3 == 2);
    let b0 = (v0 >> 4u16) as u8;
    let b1 = ((v0 << 4u16) as u8) | (((v1 >> 8u16) as u8) & 0x0f);
    let b2 = v1 as u8;
    assert(b[8 + 3 * k] == b0 && b[9 + 3 * k] == b1 && b[10 + 3 * k] == b2);
    assert(b0 as int * 16 + b1 as int / 16 == v0 && (b1 as int % 16) * 256 + b2 as int == v1)
        by (bit_vector)
        requires
            0 <= v0 < 4096,
            0 <= v1 < 4096,
            b0 == (v0 >> 4u16) as u8,
            b1 == ((v0 << 4u16) as u8) | (((v1 >> 8u16) as u8) & 0x0f),
            b2 == v1 as u8,
    ;
}

/// The FIR registers hold the coefficients so that they read back: the first eight as
/// signed bytes, the other eight as 12-bit values packed in pairs into three bytes (the
/// first value's high eight bits, its low four bits above the second value's high four
/// bits, the second value's low eight bits).
pub proof fn law_fir_coefficients_read_back(c: Seq<i16>)
    requires
        c.len() == 16,
        forall|i: int| 0 <= i < 8 ==> -128 <= #[trigger] c[i] < 128,
        forall|i: int| 8 <= i < 16 ==> 0 <= #[trigger] c[i] < 4096,
    ensures
        ({
            let b = fir_packed(c);
            &&& forall|i: int| 0 <= i < 8 ==> (#[trigger] b[i]) as i8 == c[i]
            &&& forall|k: int|
                0 <= k < 4 ==> (#[trigger] b[8 + 3 * k]) as int * 16 + b[9 + 3 * k] as int / 16
                    == c[8 + 2 * k]
            &&& forall|k: int|
                0 <= k < 4 ==> (b[9 + 3 * k] as int % 16) * 256 + (#[trigger] b[10 + 3 * k]) as int
                    == c[9 + 2 * k]
        }),
{
    let b = fir_packed(c);
    assert forall|i: int| 0 <= i < 8 implies (#[trigger] b[i]) as i8 == c[i] by {
        let v = c[i];
        assert(((v as i8) as u8) as i8 == v) by (bit_vector)
            requires
                -128 <= v < 128,
        ;
    }
    assert forall|k: int| 0 <= k < 4 implies (#[trigger] b[8 + 3 * k]) as int * 16 + b[9 + 3
        * k] as int / 16 == c[8 + 2 * k] by {
        lemma_fir_pair(c, k);
    }
    assert forall|k: int| 0 <= k < 4 implies (b[9 + 3 * k] as int % 16) * 256 + (#[trigger] b[10
        + 3 * k]) as int == c[9 + 2 * k] by {
        lemma_fir_pair(c, k);
    }
}

/// A register value goes out most significant byte first: two bytes `value / 256` and
/// `value % 256`, or the one byte `value % 256`. Register accesses address block `b` with
/// index `256 * b` for a read and `256 * b + 16` for a write; a demodulator register
/// `addr` is selected by the value `256 * (addr % 256) + 32`, written on page `p` (below 16) with
/// index `16 + p`.
pub proof fn law_register_addressing(value: u16, block: u8, addr: u16, page: u8)
    ensures
        reg_value_seq(value, 2) == Ok::<Seq<u8>, Error>(seq![(value / 256) as u8, (value % 256) as u8]),
        reg_value_seq(value, 1) == Ok::<Seq<u8>, Error>(seq![(value % 256) as u8]),
        read_index(block) == 256 * block,
        write_index(block) == 256 * block + 16,
        demod_value(addr) == 256 * (addr % 256) + 32,
        page < 16 ==> demod_write_index(page) == 16 + page,
{
    assert((value >> 8u16) as u8 == value / 256 && (value & 0xff) as u8 == value % 256)
        by (bit_vector);
    assert(((block as u16) << 8u16) == 256 * block && (((block as u16) << 8u16) | 0x10) == 256
        * block + 16) by (bit_vector);
    assert(((addr << 8u16) | 0x20) == 256 * (addr % 256) + 32) by (bit_vector);
    assert(page < 16 ==> (0x10 | page as u16) == 16 + page) by (bit_vector);
}

} // verus!
