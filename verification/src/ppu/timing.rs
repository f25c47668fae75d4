//! The clockwork of the pixel-processing unit: where in the frame a state
//! stands, and that the unit comes round after the ticks of one frame.

use vstd::prelude::*;
use crate::ppu::lemma_step_wf;
use crate::ppu::mode::Mode;
use crate::ppu::PpuModel;
use crate::ppu::FRAME_TICKS;

verus! {

/// The tick of the frame at which the vertical blank begins: the end of
/// scanline 143.
pub const VBLANK_START: u32 = 65664;

/// The hands of the clock: the scanline and the phase within it.
pub struct Clock {
    pub mode: Mode,
    pub ly: u8,
}

impl Clock {
    /// `LY` is at most 153, and the vertical blank is the mode of lines 144
    /// to 153 and of no other.
    pub open spec fn wf(self) -> bool {
        self.ly <= 153 && (self.mode == Mode::VerticalBlank) == (self.ly >= 144)
    }

    /// The tick within the frame, 0 to 70223, at which the phase begins.
    /// A scanline is a scan of 80 ticks, a drawing of 172 and a horizontal
    /// blank of 204; a line of the vertical blank is one phase.
    pub open spec fn phase_start(self) -> int {
        self.ly * 456 + match self.mode {
            Mode::OAMScan => 0int,
            Mode::Drawing => 80int,
            Mode::HorizontalBlank => 252int,
            Mode::VerticalBlank => 0int,
        }
    }

    /// Whether the phase is the last before the vertical blank.
    pub open spec fn enters_vblank(self) -> bool {
        self.mode == Mode::HorizontalBlank && self.ly == 143
    }

    /// The phase that follows.
    pub open spec fn next(self) -> Clock {
        match self.mode {
            Mode::OAMScan => Clock { mode: Mode::Drawing, ..self },
            Mode::Drawing => Clock { mode: Mode::HorizontalBlank, ..self },
            Mode::HorizontalBlank => Clock {
                mode: if self.ly + 1 >= 144 {
                    Mode::VerticalBlank
                } else {
                    Mode::OAMScan
                },
                ly: (self.ly + 1) as u8,
            },
            Mode::VerticalBlank => Clock {
                mode: if (self.ly + 1) % 154 == 0 {
                    Mode::OAMScan
                } else {
                    Mode::VerticalBlank
                },
                ly: ((self.ly + 1) % 154) as u8,
            },
        }
    }
}

/// How many ticks `p` with `from < p <= from + ticks` begin a vertical
/// blank, in a row of frames of which tick 0 begins the first.
pub open spec fn vblank_starts(from: int, ticks: int) -> int {
    (from + ticks - VBLANK_START) / (FRAME_TICKS as int) - (from - VBLANK_START) / (FRAME_TICKS as int)
}

/// Each phase begins where the last one ended, round the frame; `LY`
/// stays or goes up by one, and from 153 back to 0.
pub proof fn lemma_clock_next(c: Clock)
    requires
        c.wf(),
    ensures
        c.next().wf(),
        0 <= c.phase_start(),
        c.phase_start() + c.mode.duration() <= FRAME_TICKS,
        c.next().phase_start() == (c.phase_start() + c.mode.duration()) % (FRAME_TICKS as int),
        c.next().ly == c.ly || c.next().ly == (c.ly + 1) % 154,
        c.enters_vblank() <==> c.next().phase_start() == VBLANK_START,
        c.enters_vblank() <==> (c.next().mode == Mode::VerticalBlank && c.mode != Mode::VerticalBlank),
{
}

/// A clock is where its position says: no two clocks at the same tick of
/// the frame differ.
pub proof fn lemma_clock_unique(a: Clock, a_ticks: nat, b: Clock, b_ticks: nat)
    requires
        a.wf(),
        b.wf(),
        a_ticks < a.mode.duration(),
        b_ticks < b.mode.duration(),
        a.phase_start() + a_ticks == b.phase_start() + b_ticks,
    ensures
        a == b,
        a_ticks == b_ticks,
{
    assert(a.ly == (a.phase_start() + a_ticks) / 456);
    assert(b.ly == (b.phase_start() + b_ticks) / 456);
}

impl PpuModel {
    /// The hands of the unit's clock.
    pub open spec fn clock(self) -> Clock {
        Clock { mode: self.mode, ly: self.ly }
    }

    /// Whether the ticks spent in the current phase are fewer than it
    /// lasts, as they are whenever the unit has run.
    pub open spec fn settled(self) -> bool {
        self.t_cycles < self.mode.duration()
    }

    /// The tick within the frame at which the unit stands.
    pub open spec fn position(self) -> int {
        self.clock().phase_start() + self.t_cycles
    }

    /// How often the vertical blank begins while the unit runs `ticks`
    /// master ticks from the start of its current phase.
    pub open spec fn vblanks(self, ticks: nat) -> nat
        decreases ticks,
    {
        if ticks >= self.mode.duration() {
            (if self.clock().enters_vblank() {
                1nat
            } else {
                0nat
            }) + self.step().vblanks((ticks - self.mode.duration()) as nat)
        } else {
            0
        }
    }
}

/// A step moves the clock to its next phase and leaves the control
/// register and the count of ticks alone. The vertical-blank interrupt is
/// raised by the step that begins the vertical blank, and by no other.
pub proof fn lemma_step(m: PpuModel)
    requires
        m.wf(),
    ensures
        m.step().wf(),
        m.step().clock() == m.clock().next(),
        m.step().control == m.control,
        m.step().t_cycles == m.t_cycles,
        m.clock().enters_vblank() ==> m.step().interrupt & 0x01 == 0x01,
        !m.clock().enters_vblank() ==> m.step().interrupt & 0x01 == m.interrupt & 0x01,
{
    lemma_step_wf(m);
    let i = m.interrupt;
    assert((i | 0x01) & 0x01 == 0x01 && ((i | 0x01) | 0x02) & 0x01 == 0x01 && (i | 0x02) & 0x01 == i & 0x01
        && ((i | 0x02) | 0x01) & 0x01 == 0x01 && (((i | 0x02) | 0x01) | 0x02) & 0x01 == 0x01) by (bit_vector);
    match m.mode {
        Mode::OAMScan => {
            assert(m.step() == m.oam_scan());
        },
        Mode::Drawing => {
            assert(m.step() == m.draw());
        },
        Mode::HorizontalBlank => {
            assert(m.step() == m.horizontal_blank());
        },
        Mode::VerticalBlank => {
            assert(m.step() == m.vertical_blank());
        },
    }
}

/// Running moves the position forward by the ticks run, round the frame,
/// and the vertical blank begins as often as its first tick is passed.
pub proof fn lemma_run(m: PpuModel, ticks: nat)
    requires
        m.wf(),
    ensures
        m.run(ticks).wf(),
        m.run(ticks).settled(),
        m.run(ticks).control == m.control,
        m.run(ticks).position() == (m.clock().phase_start() + ticks) % (FRAME_TICKS as int),
        m.vblanks(ticks) == vblank_starts(m.clock().phase_start(), ticks as int),
    decreases ticks,
{
    lemma_step(m);
    lemma_clock_next(m.clock());
    let start = m.clock().phase_start();
    let duration = m.mode.duration();
    if ticks >= duration {
        let rest = (ticks - duration) as nat;
        lemma_run(m.step(), rest);
        let next = m.step().clock().phase_start();
        lemma_round(start + duration, rest as int, m.clock().enters_vblank());
    } else {
        lemma_within(start, duration as int, ticks as int);
    }
}

/// Counting on from the end of a phase, at `end`, is counting on from
/// where the next phase begins, which is `end` or, at the end of the
/// frame, 0.
proof fn lemma_round(end: int, rest: int, enters: bool)
    requires
        0 < end <= FRAME_TICKS,
        0 <= rest,
        enters <==> end == VBLANK_START,
    ensures
        (end % (FRAME_TICKS as int) + rest) % (FRAME_TICKS as int) == (end + rest) % (FRAME_TICKS as int),
        forall|start: int|
            0 <= start < end && (start < VBLANK_START <==> end <= VBLANK_START) ==> #[trigger] vblank_starts(
                start,
                end - start + rest,
            ) == vblank_starts(end % (FRAME_TICKS as int), rest) + (if enters {
                1int
            } else {
                0
            }),
{
    if end == FRAME_TICKS {
        assert(end % (FRAME_TICKS as int) == 0);
        assert((end + rest) % (FRAME_TICKS as int) == rest % (FRAME_TICKS as int));
        assert((rest - VBLANK_START) / (FRAME_TICKS as int) + 1 == (end + rest - VBLANK_START) / (
        FRAME_TICKS as int));
    } else {
        assert(end % (FRAME_TICKS as int) == end);
    }
}

/// Within a phase no vertical blank begins.
proof fn lemma_within(start: int, duration: int, ticks: int)
    requires
        0 <= start,
        0 <= ticks < duration,
        start + duration <= FRAME_TICKS,
        start < VBLANK_START <==> start + duration <= VBLANK_START,
    ensures
        (start + ticks) % (FRAME_TICKS as int) == start + ticks,
        vblank_starts(start, ticks) == 0,
{
}

/// Two runs in a row are one run of the ticks of both.
pub proof fn lemma_run_twice(m: PpuModel, first: nat, second: nat)
    requires
        m.wf(),
        m.t_cycles == 0,
    ensures
        (PpuModel { t_cycles: 0, ..m.run(first) }).run(m.run(first).t_cycles + second) == m.run(first + second),
        m.vblanks(first) + (PpuModel { t_cycles: 0, ..m.run(first) }).vblanks(m.run(first).t_cycles + second)
            == m.vblanks(first + second),
    decreases first,
{
    if first >= m.mode.duration() {
        lemma_step(m);
        lemma_run_twice(m.step(), (first - m.mode.duration()) as nat, second);
    } else {
        assert((PpuModel { t_cycles: 0, ..m.run(first) }) == m);
    }
}

/// How often the vertical blank begins during an advance.
pub open spec fn vblanks_in_cycle(m: PpuModel, t_cycles: u32) -> nat {
    if m.control.lcd_enable() {
        (PpuModel { t_cycles: 0, ..m }).vblanks(m.t_cycles + t_cycles as nat)
    } else {
        0
    }
}

/// An advance leaves the unit well-formed and settled.
pub proof fn lemma_cycle(m: PpuModel, t_cycles: u32)
    requires
        m.wf(),
    ensures
        m.cycle(t_cycles).wf(),
        m.cycle(t_cycles).control == m.control,
        m.control.lcd_enable() ==> m.cycle(t_cycles).settled(),
{
    lemma_run(PpuModel { t_cycles: 0, ..m }, m.t_cycles + t_cycles as nat);
}

/// Two advances in a row are one advance by the ticks of both.
pub proof fn lemma_cycle_twice(m: PpuModel, first: u32, second: u32)
    requires
        m.wf(),
        first + second <= u32::MAX,
    ensures
        m.cycle(first).cycle(second) == m.cycle((first + second) as u32),
        vblanks_in_cycle(m, first) + vblanks_in_cycle(m.cycle(first), second) == vblanks_in_cycle(
            m,
            (first + second) as u32,
        ),
{
    if m.control.lcd_enable() {
        let reset = PpuModel { t_cycles: 0, ..m };
        lemma_run(reset, m.t_cycles + first as nat);
        lemma_run_twice(reset, m.t_cycles + first as nat, second as nat);
    }
}

/// Running keeps bit 0 of the pending interrupts once it is set, and sets
/// it where the vertical blank begins.
pub proof fn lemma_run_interrupt(m: PpuModel, ticks: nat)
    requires
        m.wf(),
    ensures
        m.run(ticks).interrupt & 0x01 == 0x01 <==> (m.interrupt & 0x01 == 0x01 || m.vblanks(ticks) > 0),
    decreases ticks,
{
    let i = m.interrupt;
    assert(i & 0x01 == 0x01 || i & 0x01 == 0x00) by (bit_vector);
    if ticks >= m.mode.duration() {
        lemma_step(m);
        lemma_run_interrupt(m.step(), (ticks - m.mode.duration()) as nat);
    }
}

/// Round the frame, counting on in two stretches is counting on in one.
pub proof fn lemma_round_twice(position: int, first: int, second: int)
    requires
        0 <= position < FRAME_TICKS,
        0 <= first,
        0 <= second,
    ensures
        ((position + first) % (FRAME_TICKS as int) + second) % (FRAME_TICKS as int) == (position + first
            + second) % (FRAME_TICKS as int),
        vblank_starts(position, first) + vblank_starts((position + first) % (FRAME_TICKS as int), second)
            == vblank_starts(position, first + second),
{
    let frames = (position + first) / (FRAME_TICKS as int);
    let rest = (position + first) % (FRAME_TICKS as int);
    assert(position + first == frames * FRAME_TICKS + rest);
    assert((rest + second) % (FRAME_TICKS as int) == (frames * FRAME_TICKS + rest + second) % (
    FRAME_TICKS as int));
    assert((rest + second - VBLANK_START) / (FRAME_TICKS as int) + frames == (frames * FRAME_TICKS + rest
        + second - VBLANK_START) / (FRAME_TICKS as int));
    assert((rest - VBLANK_START) / (FRAME_TICKS as int) + frames == (frames * FRAME_TICKS + rest
        - VBLANK_START) / (FRAME_TICKS as int));
}

/// An advance of a settled unit with the LCD on moves its position
/// forward by the ticks, round the frame; the vertical blank begins as
/// often as its first tick is passed, and where it begins the
/// vertical-blank interrupt is pending afterwards.
pub proof fn lemma_cycle_position(m: PpuModel, t_cycles: u32)
    requires
        m.wf(),
        m.settled(),
        m.control.lcd_enable(),
    ensures
        m.cycle(t_cycles).wf(),
        m.cycle(t_cycles).settled(),
        m.cycle(t_cycles).control == m.control,
        0 <= m.position() < FRAME_TICKS,
        m.cycle(t_cycles).position() == (m.position() + t_cycles) % (FRAME_TICKS as int),
        vblanks_in_cycle(m, t_cycles) == vblank_starts(m.position(), t_cycles as int),
        m.cycle(t_cycles).interrupt & 0x01 == 0x01 <==> (m.interrupt & 0x01 == 0x01 || vblanks_in_cycle(
            m,
            t_cycles,
        ) > 0),
{
    let reset = PpuModel { t_cycles: 0, ..m };
    let ticks = m.t_cycles + t_cycles as nat;
    lemma_clock_next(m.clock());
    lemma_run(reset, ticks);
    lemma_run_interrupt(reset, ticks);
    lemma_within(m.clock().phase_start(), m.mode.duration() as int, m.t_cycles as int);
}

/// The frame-cycle budget. With the LCD on, the ticks of one frame bring
/// the unit back to the scanline, the mode and the tick within the mode
/// from which it set out, and on the way the vertical blank begins exactly
/// once.
pub proof fn lemma_frame(m: PpuModel)
    requires
        m.wf(),
        m.settled(),
        m.control.lcd_enable(),
    ensures
        m.cycle(FRAME_TICKS).ly == m.ly,
        m.cycle(FRAME_TICKS).mode == m.mode,
        m.cycle(FRAME_TICKS).t_cycles == m.t_cycles,
        m.cycle(FRAME_TICKS).wf(),
        vblanks_in_cycle(m, FRAME_TICKS) == 1,
{
    let ticks = m.t_cycles + FRAME_TICKS as nat;
    let reset = PpuModel { t_cycles: 0, ..m };
    let end = reset.run(ticks);
    lemma_clock_next(m.clock());
    lemma_run(reset, ticks);
    let start = m.clock().phase_start();
    assert((start + ticks) % (FRAME_TICKS as int) == start + m.t_cycles);
    lemma_clock_unique(end.clock(), end.t_cycles, m.clock(), m.t_cycles);
    assert(vblank_starts(start, ticks as int) == 1);
}

/// The machine cycles of a sequence of instructions.
pub open spec fn total(m_cycles: Seq<u32>) -> nat
    decreases m_cycles.len(),
{
    if m_cycles.len() == 0 {
        0
    } else {
        m_cycles[0] as nat + total(m_cycles.drop_first())
    }
}

} // verus!
