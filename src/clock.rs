use vstd::prelude::*;
use vstd::arithmetic::div_mod::{lemma_div_denominator, lemma_div_multiples_vanish_quotient};

verus! {

/// Lowest PLL0 output frequency (kHz) at which the loop locks reliably.
pub const PLL_MIN_KHZ: u64 = 275_000;

/// Highest PLL0 output frequency (kHz) at which the loop locks reliably.
pub const PLL_MAX_KHZ: u64 = 550_000;

/// Highest rated CPU clock (kHz).
pub const CPU_MAX_KHZ: u64 = 100_000;

/// First and last multiplier field value tried by the search.
pub const MSEL_FIRST: u32 = 6;
pub const MSEL_LAST: u32 = 511;

/// Number of pre-divider field values tried by the search (0 up to this, exclusive).
pub const NSEL_END: u32 = 32;

/// First CPU divider field value tried by the search, and its exclusive end.
pub const CCLKSEL_FIRST: u32 = 3;
pub const CCLKSEL_END: u32 = 256;

/// Field values of PLL0 and the CPU clock divider: the PLL multiplies by
/// `2 * (m + 1) / (n + 1)` and the CPU clock divides its output by `d + 1`.
#[derive(Clone, Copy, Debug, PartialEq, Eq, Structural)]
pub struct PLLParameters {
    pub m: u32,
    pub n: u32,
    pub d: u32,
}

/// PLL0 output frequency for multiplier field `m`, pre-divider field `n`.
pub open spec fn pll_output_khz(m: int, n: int, input_khz: int) -> int {
    (2 * (m + 1) * input_khz) / (n + 1)
}

/// CPU frequency reached with parameters `p` from an input clock of `input_khz`.
pub open spec fn cpu_khz(p: PLLParameters, input_khz: int) -> int {
    pll_output_khz(p.m as int, p.n as int, input_khz) / (p.d + 1)
}

/// The candidates that the search considers.
pub open spec fn in_search_space(p: PLLParameters) -> bool {
    MSEL_FIRST <= p.m <= MSEL_LAST && p.n < NSEL_END && CCLKSEL_FIRST <= p.d < CCLKSEL_END
}

/// A candidate whose PLL output locks and whose CPU clock is within rating.
pub open spec fn is_viable(p: PLLParameters, input_khz: int) -> bool {
    &&& in_search_space(p)
    &&& PLL_MIN_KHZ <= pll_output_khz(p.m as int, p.n as int, input_khz) <= PLL_MAX_KHZ
    &&& cpu_khz(p, input_khz) <= CPU_MAX_KHZ
}

/// A viable candidate that reaches the desired CPU frequency exactly.
pub open spec fn is_exact(p: PLLParameters, input_khz: int, desired_khz: int) -> bool {
    is_viable(p, input_khz) && cpu_khz(p, input_khz) == desired_khz
}

/// Search order: multiplier ascending, then pre-divider, then CPU divider.
pub open spec fn precedes(a: PLLParameters, b: PLLParameters) -> bool {
    a.m < b.m || (a.m == b.m && (a.n < b.n || (a.n == b.n && a.d < b.d)))
}

/// Value reported when no candidate is viable at all.
pub open spec fn no_parameters() -> PLLParameters {
    PLLParameters { m: 0, n: 0, d: 0 }
}

/// State of the search once every candidate before `pos` has been looked at.
pub open spec fn search_inv(
    last: PLLParameters,
    pos: PLLParameters,
    input_khz: int,
    desired_khz: int,
) -> bool {
    &&& forall|q: PLLParameters| #[trigger]
        is_exact(q, input_khz, desired_khz) ==> !precedes(q, pos)
    &&& (last == no_parameters() || (is_viable(last, input_khz) && precedes(last, pos)))
    &&& forall|q: PLLParameters|
        #[trigger] is_viable(q, input_khz) && precedes(q, pos) ==> is_viable(last, input_khz)
            && !precedes(last, q)
}

/// Searches PLL0 and CPU divider settings for `desired_khz` from an input
/// clock of `input_khz` (both in kHz). `Ok` holds the first exact candidate in search
/// order; `Err` holds the last viable one, or all zeros if none is viable.
pub fn find_pll_parameters(desired_khz: u32, input_khz: u32) -> (r: Result<
    PLLParameters,
    PLLParameters,
>)
    ensures
        match r {
            Ok(p) => {
                &&& is_exact(p, input_khz as int, desired_khz as int)
                &&& forall|q: PLLParameters| #[trigger]
                    is_exact(q, input_khz as int, desired_khz as int) ==> !precedes(q, p)
            },
            Err(p) => {
                &&& forall|q: PLLParameters| !#[trigger]
                    is_exact(q, input_khz as int, desired_khz as int)
                &&& (p == no_parameters() || is_viable(p, input_khz as int))
                &&& forall|q: PLLParameters| #[trigger]
                    is_viable(q, input_khz as int) ==> is_viable(p, input_khz as int)
                        && !precedes(p, q)
            },
        },
{
    let mut last = PLLParameters { m: 0, n: 0, d: 0 };
    let mut m: u32 = MSEL_FIRST;
    while m <= MSEL_LAST
        invariant
            MSEL_FIRST <= m <= MSEL_LAST + 1,
            search_inv(last, PLLParameters { m, n: 0, d: 0 }, (input_khz as int), (desired_khz as int)),
        decreases MSEL_LAST + 1 - m,
    {
        let mut n: u32 = 0;
        while n < NSEL_END
            invariant
                MSEL_FIRST <= m <= MSEL_LAST,
                0 <= n <= NSEL_END,
                search_inv(last, PLLParameters { m, n, d: 0 }, (input_khz as int), (desired_khz as int)),
            decreases NSEL_END - n,
        {
            assert(2 * (m as int + 1) * (input_khz as int) <= 1024 * 0xffff_ffff) by (nonlinear_arith)
                requires
                    m <= 511,
                    0 <= input_khz <= 0xffff_ffff,
            ;
            let khz: u64 = (2 * (m as u64 + 1) * input_khz as u64) / (n as u64 + 1);
            assert(khz == pll_output_khz(m as int, n as int, (input_khz as int)));
            if PLL_MIN_KHZ <= khz && khz <= PLL_MAX_KHZ {
                let mut d: u32 = CCLKSEL_FIRST;
                while d < CCLKSEL_END
                    invariant
                        MSEL_FIRST <= m <= MSEL_LAST,
                        0 <= n < NSEL_END,
                        CCLKSEL_FIRST <= d <= CCLKSEL_END,
                        khz == pll_output_khz(m as int, n as int, (input_khz as int)),
                        PLL_MIN_KHZ <= khz <= PLL_MAX_KHZ,
                        search_inv(last, PLLParameters { m, n, d }, (input_khz as int), (desired_khz as int)),
                    decreases CCLKSEL_END - d,
                {
                    let cpu: u64 = khz / (d as u64 + 1);
                    let cand = PLLParameters { m, n, d };
                    assert(cpu == cpu_khz(cand, (input_khz as int)));
                    if cpu <= CPU_MAX_KHZ {
                        last = cand;
                        if cpu == desired_khz as u64 {
                            return Ok(cand);
                        }
                    }
                    d = d + 1;
                }
                assert(forall|q: PLLParameters|
                    in_search_space(q) ==> (precedes(q, PLLParameters { m, n, d })
                        == precedes(q, PLLParameters { m, n: (n + 1) as u32, d: 0 })));
            } else {
                assert(forall|q: PLLParameters|
                    #[trigger] is_viable(q, (input_khz as int)) && precedes(
                        q,
                        PLLParameters { m, n: (n + 1) as u32, d: 0 },
                    ) ==> precedes(q, PLLParameters { m, n, d: 0 }));
            }
            n = n + 1;
        }
        assert(forall|q: PLLParameters|
            in_search_space(q) ==> (precedes(q, PLLParameters { m, n, d: 0 }) == precedes(
                q,
                PLLParameters { m: (m + 1) as u32, n: 0, d: 0 },
            )));
        m = m + 1;
    }
    assert(forall|q: PLLParameters|
        in_search_space(q) ==> precedes(q, PLLParameters { m, n: 0, d: 0 }));
    Err(last)
}


/// Oscillator that feeds the divider chain, as selected by CLKSRCSEL.
#[derive(Clone, Copy, Debug, PartialEq, Eq, Structural)]
pub enum ClockSource {
    Internal,
    MainOscillator,
    RtcOscillator,
}

/// Source named by a CLKSRCSEL field value; the reserved value counts as internal.
pub open spec fn source_from_bits(bits: u8) -> ClockSource {
    if bits == 1 {
        ClockSource::MainOscillator
    } else if bits == 2 {
        ClockSource::RtcOscillator
    } else {
        ClockSource::Internal
    }
}

/// CLKSRCSEL field value that selects a source.
pub open spec fn source_bits(source: ClockSource) -> u8 {
    match source {
        ClockSource::Internal => 0,
        ClockSource::MainOscillator => 1,
        ClockSource::RtcOscillator => 2,
    }
}

/// Frequency of each source in Hz.
pub open spec fn source_hz(source: ClockSource) -> int {
    match source {
        ClockSource::Internal => 4_000_000,
        ClockSource::MainOscillator => 12_000_000,
        ClockSource::RtcOscillator => 32_768,
    }
}

impl ClockSource {
    /// Decodes a CLKSRCSEL field value.
    pub fn from_bits(bits: u8) -> (r: ClockSource)
        ensures
            r == source_from_bits(bits),
    {
        if bits == 1 {
            ClockSource::MainOscillator
        } else if bits == 2 {
            ClockSource::RtcOscillator
        } else {
            ClockSource::Internal
        }
    }

    /// The CLKSRCSEL field value that selects this source.
    pub fn bits(self) -> (r: u8)
        ensures
            r == source_bits(self),
            source_from_bits(r) == self,
    {
        match self {
            ClockSource::Internal => 0,
            ClockSource::MainOscillator => 1,
            ClockSource::RtcOscillator => 2,
        }
    }

    /// Frequency of this source in Hz.
    pub fn frequency_hz(self) -> (r: u32)
        ensures
            r == source_hz(self),
    {
        match self {
            ClockSource::Internal => 4_000_000,
            ClockSource::MainOscillator => 12_000_000,
            ClockSource::RtcOscillator => 32_768,
        }
    }
}

/// Live clock-tree state as the hardware reports it: PLL0STAT's enable,
/// connect, multiplier and pre-divider fields, the selected source and the
/// CPU clock divider field of CCLKCFG.
#[derive(Clone, Copy, Debug, PartialEq, Eq, Structural)]
pub struct ClockStatus {
    pub pll_enabled: bool,
    pub pll_connected: bool,
    pub msel: u16,
    pub nsel: u8,
    pub source: ClockSource,
    pub cpu_divider: u8,
}

/// CPU frequency in Hz for a clock-tree state, whatever the field values.
pub open spec fn cpu_frequency(s: ClockStatus) -> int {
    if s.pll_enabled && s.pll_connected {
        2 * source_hz(s.source) * (s.msel + 1) / (s.nsel + 1) / (s.cpu_divider + 1)
    } else {
        source_hz(s.source) / (s.cpu_divider + 1)
    }
}

/// A frequency reduced to the low 32 bits, as a `u32` holds it.
pub open spec fn wrap_u32(x: int) -> int {
    x % 0x1_0000_0000
}

/// The running CPU frequency in Hz reconstructed from the live clock-tree
/// state, computed in 64 bits; a value above `u32::MAX` keeps its low 32 bits.
pub fn get_cpu_clock(status: &ClockStatus) -> (r: u32)
    ensures
        r == wrap_u32(cpu_frequency(*status)),
{
    let hz = status.source.frequency_hz() as u64;
    let div = status.cpu_divider as u64 + 1;
    let f: u64 = if status.pll_enabled && status.pll_connected {
        let m = status.msel as u64 + 1;
        assert(2 * hz * m <= 24_000_000 * 65536) by (nonlinear_arith)
            requires
                hz <= 12_000_000,
                m <= 65536,
        ;
        2 * hz * m / (status.nsel as u64 + 1) / div
    } else {
        hz / div
    };
    (f % 0x1_0000_0000) as u32
}

/// One access to the system-control registers that drive the clock tree.
#[derive(Clone, Copy, Debug, PartialEq, Eq, Structural)]
pub enum SysconOp {
    /// Write PLL0CON (held until the next feed).
    Pll0Con { enable: bool, connect: bool },
    /// Write PLL0CFG (held until the next feed).
    Pll0Cfg { msel: u16, nsel: u8 },
    /// Write CLKSRCSEL.
    ClkSrcSel(ClockSource),
    /// Write CCLKCFG.
    CclkCfg(u8),
    /// Write one byte to PLL0FEED.
    Pll0Feed(u8),
    /// Poll PLL0STAT until the loop reports lock.
    WaitPll0Lock,
}

/// First and second byte of the feed sequence.
pub const FEED_FIRST: u8 = 0xAA;
pub const FEED_SECOND: u8 = 0x55;

/// The writes that only take effect through a feed sequence.
pub open spec fn is_protected(op: SysconOp) -> bool {
    op is Pll0Con || op is Pll0Cfg
}

/// Every protected write is followed at once by the two feed bytes, in order.
pub open spec fn feeds_follow_protected(ops: Seq<SysconOp>) -> bool {
    forall|i: int|
        0 <= i < ops.len() && #[trigger] is_protected(ops[i]) ==> {
            &&& i + 2 < ops.len()
            &&& ops[i + 1] == SysconOp::Pll0Feed(FEED_FIRST)
            &&& ops[i + 2] == SysconOp::Pll0Feed(FEED_SECOND)
        }
}

/// Model of the clock-tree registers: PLL0CON and PLL0CFG hold written
/// values until a feed sequence commits them to the live state.
#[derive(Clone, Copy, Debug, PartialEq, Eq, Structural)]
pub struct Syscon {
    pub held_enable: bool,
    pub held_connect: bool,
    pub held_msel: u16,
    pub held_nsel: u8,
    /// The previous access was the first feed byte.
    pub feed_armed: bool,
    pub status: ClockStatus,
}

/// Effect of one register access on the model.
pub open spec fn step(s: Syscon, op: SysconOp) -> Syscon {
    match op {
        SysconOp::Pll0Con { enable, connect } => Syscon {
            held_enable: enable,
            held_connect: connect,
            feed_armed: false,
            ..s
        },
        SysconOp::Pll0Cfg { msel, nsel } => Syscon {
            held_msel: msel,
            held_nsel: nsel,
            feed_armed: false,
            ..s
        },
        SysconOp::ClkSrcSel(src) => Syscon {
            feed_armed: false,
            status: ClockStatus { source: src, ..s.status },
            ..s
        },
        SysconOp::CclkCfg(d) => Syscon {
            feed_armed: false,
            status: ClockStatus { cpu_divider: d, ..s.status },
            ..s
        },
        SysconOp::Pll0Feed(v) => if v == FEED_FIRST {
            Syscon { feed_armed: true, ..s }
        } else if v == FEED_SECOND && s.feed_armed {
            Syscon {
                feed_armed: false,
                status: ClockStatus {
                    pll_enabled: s.held_enable,
                    pll_connected: s.held_connect,
                    msel: s.held_msel,
                    nsel: s.held_nsel,
                    ..s.status
                },
                ..s
            }
        } else {
            Syscon { feed_armed: false, ..s }
        },
        SysconOp::WaitPll0Lock => Syscon { feed_armed: false, ..s },
    }
}

/// Effect of a sequence of register accesses, in order.
pub open spec fn apply_all(s: Syscon, ops: Seq<SysconOp>) -> Syscon
    decreases ops.len(),
{
    if ops.len() == 0 {
        s
    } else {
        step(apply_all(s, ops.drop_last()), ops.last())
    }
}

impl Syscon {
    /// Performs one register access on the model.
    pub fn apply(&mut self, op: SysconOp)
        ensures
            *final(self) == step(*old(self), op),
    {
        match op {
            SysconOp::Pll0Con { enable, connect } => {
                self.held_enable = enable;
                self.held_connect = connect;
                self.feed_armed = false;
            },
            SysconOp::Pll0Cfg { msel, nsel } => {
                self.held_msel = msel;
                self.held_nsel = nsel;
                self.feed_armed = false;
            },
            SysconOp::ClkSrcSel(src) => {
                self.status.source = src;
                self.feed_armed = false;
            },
            SysconOp::CclkCfg(d) => {
                self.status.cpu_divider = d;
                self.feed_armed = false;
            },
            SysconOp::Pll0Feed(v) => {
                if v == FEED_FIRST {
                    self.feed_armed = true;
                } else if v == FEED_SECOND && self.feed_armed {
                    self.status.pll_enabled = self.held_enable;
                    self.status.pll_connected = self.held_connect;
                    self.status.msel = self.held_msel;
                    self.status.nsel = self.held_nsel;
                    self.feed_armed = false;
                } else {
                    self.feed_armed = false;
                }
            },
            SysconOp::WaitPll0Lock => {
                self.feed_armed = false;
            },
        }
    }

    /// Performs a sequence of register accesses on the model, in order.
    pub fn run(&mut self, ops: &Vec<SysconOp>)
        ensures
            *final(self) == apply_all(*old(self), ops@),
    {
        let ghost start = *self;
        let mut i: usize = 0;
        while i < ops.len()
            invariant
                i <= ops.len(),
                *self == apply_all(start, ops@.take(i as int)),
            decreases ops.len() - i,
        {
            assert(ops@.take(i as int + 1).drop_last() =~= ops@.take(i as int));
            self.apply(ops[i]);
            i = i + 1;
        }
        assert(ops@.take(ops.len() as int) =~= ops@);
    }
}

/// The feed sequence that commits held PLL0 writes.
pub open spec fn feed_ops() -> Seq<SysconOp> {
    seq![SysconOp::Pll0Feed(FEED_FIRST), SysconOp::Pll0Feed(FEED_SECOND)]
}

/// Returns the PLL0 feed sequence.
pub fn sys_clock_pll0_feed() -> (r: Vec<SysconOp>)
    ensures
        r@ == feed_ops(),
{
    vec![SysconOp::Pll0Feed(FEED_FIRST), SysconOp::Pll0Feed(FEED_SECOND)]
}

/// Returns the sequence that takes the CPU clock back to the internal
/// oscillator: disconnect PLL0, disable it, select the internal oscillator,
/// reset the PLL fields and the CPU divider, feeding after each PLL write.
pub open spec fn disable_ops() -> Seq<SysconOp> {
    seq![
        SysconOp::Pll0Con { enable: false, connect: false },
        SysconOp::Pll0Feed(FEED_FIRST),
        SysconOp::Pll0Feed(FEED_SECOND),
        SysconOp::Pll0Con { enable: false, connect: false },
        SysconOp::Pll0Feed(FEED_FIRST),
        SysconOp::Pll0Feed(FEED_SECOND),
        SysconOp::ClkSrcSel(ClockSource::Internal),
        SysconOp::Pll0Cfg { msel: 0, nsel: 0 },
        SysconOp::Pll0Feed(FEED_FIRST),
        SysconOp::Pll0Feed(FEED_SECOND),
        SysconOp::CclkCfg(0),
    ]
}

/// Sequence that drops the clock tree to the internal oscillator, undivided.
pub fn sys_clock_disable() -> (r: Vec<SysconOp>)
    ensures
        r@ == disable_ops(),
        feeds_follow_protected(r@),
{
    let mut r: Vec<SysconOp> = Vec::new();
    r.push(SysconOp::Pll0Con { enable: false, connect: false });
    r.append(&mut sys_clock_pll0_feed());
    r.push(SysconOp::Pll0Con { enable: false, connect: false });
    r.append(&mut sys_clock_pll0_feed());
    r.push(SysconOp::ClkSrcSel(ClockSource::Internal));
    r.push(SysconOp::Pll0Cfg { msel: 0, nsel: 0 });
    r.append(&mut sys_clock_pll0_feed());
    r.push(SysconOp::CclkCfg(0));
    assert(r@ =~= disable_ops());
    r
}

/// The clock-tree sequence that the startup code runs: back to the internal
/// oscillator, undivided.
pub fn sys_clock_configure() -> (r: Vec<SysconOp>)
    ensures
        r@ == disable_ops(),
        feeds_follow_protected(r@),
{
    sys_clock_disable()
}

/// Field values of `p` fit the register fields (15-bit MSEL, 8-bit NSEL and CCLKSEL).
pub open spec fn fits_fields(p: PLLParameters) -> bool {
    p.m < 32768 && p.n < 256 && p.d < 256
}

/// Sequence that runs the CPU from PLL0 with parameters `p` fed by `source`:
/// select the source, load and enable PLL0, wait for lock, set the CPU
/// divider, then connect PLL0; each PLL write is fed.
pub open spec fn enable_ops(source: ClockSource, p: PLLParameters) -> Seq<SysconOp> {
    seq![
        SysconOp::ClkSrcSel(source),
        SysconOp::Pll0Cfg { msel: p.m as u16, nsel: p.n as u8 },
        SysconOp::Pll0Feed(FEED_FIRST),
        SysconOp::Pll0Feed(FEED_SECOND),
        SysconOp::Pll0Con { enable: true, connect: false },
        SysconOp::Pll0Feed(FEED_FIRST),
        SysconOp::Pll0Feed(FEED_SECOND),
        SysconOp::WaitPll0Lock,
        SysconOp::CclkCfg(p.d as u8),
        SysconOp::Pll0Con { enable: true, connect: true },
        SysconOp::Pll0Feed(FEED_FIRST),
        SysconOp::Pll0Feed(FEED_SECOND),
    ]
}

/// Sequence that switches a disabled clock tree over to PLL0 with `p`.
pub fn sys_clock_enable_pll(source: ClockSource, p: PLLParameters) -> (r: Vec<SysconOp>)
    requires
        fits_fields(p),
    ensures
        r@ == enable_ops(source, p),
        feeds_follow_protected(r@),
{
    let mut r: Vec<SysconOp> = Vec::new();
    r.push(SysconOp::ClkSrcSel(source));
    r.push(SysconOp::Pll0Cfg { msel: p.m as u16, nsel: p.n as u8 });
    r.append(&mut sys_clock_pll0_feed());
    r.push(SysconOp::Pll0Con { enable: true, connect: false });
    r.append(&mut sys_clock_pll0_feed());
    r.push(SysconOp::WaitPll0Lock);
    r.push(SysconOp::CclkCfg(p.d as u8));
    r.push(SysconOp::Pll0Con { enable: true, connect: true });
    r.append(&mut sys_clock_pll0_feed());
    assert(r@ =~= enable_ops(source, p));
    r
}

/// Input frequency in kHz that the search uses for a source; the RTC
/// oscillator (32.768 kHz) has no whole-kHz value.
pub open spec fn source_khz(source: ClockSource) -> int {
    source_hz(source) / 1000
}

proof fn lemma_apply_all_take(s: Syscon, ops: Seq<SysconOp>, k: int)
    requires
        0 <= k < ops.len(),
    ensures
        apply_all(s, ops.take(k + 1)) == step(apply_all(s, ops.take(k)), ops[k]),
{
    assert(ops.take(k + 1).drop_last() =~= ops.take(k));
}

/// Live state after the PLL switch-over sequence, from any earlier state.
pub proof fn lemma_enable_result(s: Syscon, source: ClockSource, p: PLLParameters)
    requires
        fits_fields(p),
    ensures
        apply_all(s, enable_ops(source, p)).status == (ClockStatus {
            pll_enabled: true,
            pll_connected: true,
            msel: p.m as u16,
            nsel: p.n as u8,
            source,
            cpu_divider: p.d as u8,
        }),
{
    let ops = enable_ops(source, p);
    assert(ops.take(0) =~= Seq::<SysconOp>::empty());
    lemma_apply_all_take(s, ops, 0);
    lemma_apply_all_take(s, ops, 1);
    lemma_apply_all_take(s, ops, 2);
    lemma_apply_all_take(s, ops, 3);
    lemma_apply_all_take(s, ops, 4);
    lemma_apply_all_take(s, ops, 5);
    lemma_apply_all_take(s, ops, 6);
    lemma_apply_all_take(s, ops, 7);
    lemma_apply_all_take(s, ops, 8);
    lemma_apply_all_take(s, ops, 9);
    lemma_apply_all_take(s, ops, 10);
    lemma_apply_all_take(s, ops, 11);
    assert(ops.take(12) =~= ops);
}

/// A configuration found for a whole-kHz source reads back, through the
/// frequency readback, as the CPU frequency the search computed for it:
/// the Hz value divided by 1000 is exactly the kHz value.
pub proof fn lemma_readback_round_trip(s: Syscon, source: ClockSource, p: PLLParameters)
    requires
        source != ClockSource::RtcOscillator,
        is_viable(p, source_khz(source)),
    ensures
        wrap_u32(cpu_frequency(apply_all(s, enable_ops(source, p)).status)) / 1000 == cpu_khz(
            p,
            source_khz(source),
        ),
{
    lemma_enable_result(s, source, p);
    let k = source_khz(source);
    let x = 2 * (p.m + 1) * k;
    let q = (p.n + 1) * (p.d + 1);
    assert(source_hz(source) == 1000 * k);
    assert(2 * (1000 * k) * (p.m + 1) == 1000 * x) by (nonlinear_arith)
        requires
            x == 2 * (p.m + 1) * k,
    ;
    assert(x >= 0 && 1000 * x >= 0) by (nonlinear_arith)
        requires
            x == 2 * (p.m + 1) * k,
            k >= 0,
    ;
    lemma_div_denominator(1000 * x, p.n + 1, p.d + 1);
    lemma_div_denominator(x, p.n + 1, p.d + 1);
    lemma_div_denominator(1000 * x, q, 1000);
    lemma_div_multiples_vanish_quotient(1000, x, q);
    assert(q * 1000 == 1000 * q) by (nonlinear_arith);
    let f = cpu_frequency(apply_all(s, enable_ops(source, p)).status);
    assert(f == 1000 * x / q);
    assert(f / 1000 == x / q);
    assert(f < u32::MAX);
}

} // verus!
