use lpc_runtime::clock::{
    find_pll_parameters, get_cpu_clock, sys_clock_configure, sys_clock_disable,
    sys_clock_enable_pll, sys_clock_pll0_feed, ClockSource, ClockStatus, PLLParameters, Syscon,
    SysconOp,
};

fn params(m: u32, n: u32, d: u32) -> PLLParameters {
    PLLParameters { m, n, d }
}

fn status(source: ClockSource) -> ClockStatus {
    ClockStatus {
        pll_enabled: false,
        pll_connected: false,
        msel: 0,
        nsel: 0,
        source,
        cpu_divider: 0,
    }
}

fn model(status: ClockStatus) -> Syscon {
    Syscon {
        held_enable: false,
        held_connect: false,
        held_msel: 0,
        held_nsel: 0,
        feed_armed: false,
        status,
    }
}

fn cpu_khz(p: PLLParameters, input_khz: u64) -> u64 {
    2 * (p.m as u64 + 1) * input_khz / (p.n as u64 + 1) / (p.d as u64 + 1)
}

fn pll_khz(p: PLLParameters, input_khz: u64) -> u64 {
    2 * (p.m as u64 + 1) * input_khz / (p.n as u64 + 1)
}

#[test]
fn pll_exact_100_mhz_from_main_oscillator() {
    assert_eq!(find_pll_parameters(100_000, 12_000), Ok(params(49, 2, 3)));
}

#[test]
fn pll_exact_from_internal_oscillator_first_in_order() {
    assert_eq!(find_pll_parameters(48_000, 4_000), Ok(params(35, 0, 5)));
    assert_eq!(find_pll_parameters(24_000, 4_000), Ok(params(35, 0, 11)));
    assert_eq!(find_pll_parameters(72_000, 12_000), Ok(params(11, 0, 3)));
}

#[test]
fn pll_unreachable_returns_last_viable() {
    assert_eq!(find_pll_parameters(1, 12_000), Err(params(511, 31, 255)));
    assert_eq!(find_pll_parameters(123_457, 12_000), Err(params(511, 31, 255)));
}

#[test]
fn pll_nothing_viable_returns_zeros() {
    assert_eq!(find_pll_parameters(1_000, 0), Err(params(0, 0, 0)));
    assert_eq!(find_pll_parameters(1_000, 1), Err(params(0, 0, 0)));
}

#[test]
fn pll_results_lie_in_lock_range() {
    for (desired, input) in [(100_000u32, 12_000u32), (1, 12_000), (48_000, 4_000), (60_000, 4_000)] {
        let p = match find_pll_parameters(desired, input) {
            Ok(p) => p,
            Err(p) => p,
        };
        let pll = pll_khz(p, input as u64);
        assert!((275_000..=550_000).contains(&pll));
        assert!(cpu_khz(p, input as u64) <= 100_000);
    }
}

#[test]
fn readback_without_pll() {
    let mut s = status(ClockSource::Internal);
    assert_eq!(get_cpu_clock(&s), 4_000_000);
    s.source = ClockSource::MainOscillator;
    s.cpu_divider = 3;
    assert_eq!(get_cpu_clock(&s), 3_000_000);
    s.source = ClockSource::RtcOscillator;
    s.cpu_divider = 0;
    assert_eq!(get_cpu_clock(&s), 32_768);
    // PLL enabled but not connected: the oscillator drives the CPU
    s.source = ClockSource::MainOscillator;
    s.pll_enabled = true;
    s.msel = 49;
    assert_eq!(get_cpu_clock(&s), 12_000_000);
}

#[test]
fn readback_with_pll() {
    let s = ClockStatus {
        pll_enabled: true,
        pll_connected: true,
        msel: 49,
        nsel: 2,
        source: ClockSource::MainOscillator,
        cpu_divider: 3,
    };
    assert_eq!(get_cpu_clock(&s), 100_000_000);
    let s = ClockStatus { source: ClockSource::Internal, ..s };
    assert_eq!(get_cpu_clock(&s), 33_333_333);
    let s = ClockStatus { source: ClockSource::RtcOscillator, msel: 1000, nsel: 0, cpu_divider: 0, ..s };
    assert_eq!(get_cpu_clock(&s), 65_601_536);
}

#[test]
fn readback_wraps_on_unreachable_fields() {
    let s = ClockStatus {
        pll_enabled: true,
        pll_connected: true,
        msel: 0xffff,
        nsel: 0,
        source: ClockSource::MainOscillator,
        cpu_divider: 0,
    };
    assert_eq!(get_cpu_clock(&s), 905_969_664);
    let s = ClockStatus { msel: 32767, ..s };
    assert_eq!(get_cpu_clock(&s), 452_984_832);
}

#[test]
fn clock_source_bits() {
    assert_eq!(ClockSource::from_bits(0), ClockSource::Internal);
    assert_eq!(ClockSource::from_bits(1), ClockSource::MainOscillator);
    assert_eq!(ClockSource::from_bits(2), ClockSource::RtcOscillator);
    assert_eq!(ClockSource::from_bits(3), ClockSource::Internal);
    assert_eq!(ClockSource::RtcOscillator.bits(), 2);
    assert_eq!(ClockSource::MainOscillator.frequency_hz(), 12_000_000);
}

fn assert_feeds_follow(ops: &[SysconOp]) {
    for (i, op) in ops.iter().enumerate() {
        if matches!(op, SysconOp::Pll0Con { .. } | SysconOp::Pll0Cfg { .. }) {
            assert_eq!(ops[i + 1], SysconOp::Pll0Feed(0xAA));
            assert_eq!(ops[i + 2], SysconOp::Pll0Feed(0x55));
        }
    }
}

#[test]
fn disable_sequence_feeds_after_each_protected_write() {
    let ops = sys_clock_disable();
    assert_eq!(ops.len(), 11);
    assert_eq!(ops[0], SysconOp::Pll0Con { enable: false, connect: false });
    assert_eq!(ops[6], SysconOp::ClkSrcSel(ClockSource::Internal));
    assert_eq!(ops[10], SysconOp::CclkCfg(0));
    assert_feeds_follow(&ops);
    assert_eq!(sys_clock_configure(), ops);
    assert_eq!(sys_clock_pll0_feed(), vec![SysconOp::Pll0Feed(0xAA), SysconOp::Pll0Feed(0x55)]);
}

#[test]
fn disable_sequence_reaches_internal_oscillator() {
    let mut s = model(ClockStatus {
        pll_enabled: true,
        pll_connected: true,
        msel: 49,
        nsel: 2,
        source: ClockSource::MainOscillator,
        cpu_divider: 3,
    });
    s.run(&sys_clock_disable());
    assert_eq!(s.status, status(ClockSource::Internal));
    assert_eq!(get_cpu_clock(&s.status), 4_000_000);
}

#[test]
fn feed_out_of_order_commits_nothing() {
    let mut s = model(status(ClockSource::Internal));
    s.run(&vec![
        SysconOp::Pll0Con { enable: true, connect: false },
        SysconOp::Pll0Feed(0x55),
        SysconOp::Pll0Feed(0xAA),
    ]);
    assert!(!s.status.pll_enabled);
    s.run(&vec![SysconOp::CclkCfg(1), SysconOp::Pll0Feed(0x55)]);
    assert!(!s.status.pll_enabled);
    s.run(&vec![SysconOp::Pll0Feed(0xAA), SysconOp::Pll0Feed(0x55)]);
    assert!(s.status.pll_enabled);
}

#[test]
fn configured_pll_reads_back_its_target() {
    for (source, input, desired) in [
        (ClockSource::MainOscillator, 12_000u32, 100_000u32),
        (ClockSource::Internal, 4_000, 48_000),
        (ClockSource::MainOscillator, 12_000, 1),
    ] {
        let p = match find_pll_parameters(desired, input) {
            Ok(p) => p,
            Err(p) => p,
        };
        let ops = sys_clock_enable_pll(source, p);
        assert_feeds_follow(&ops);
        let mut s = model(status(ClockSource::Internal));
        s.run(&sys_clock_disable());
        s.run(&ops);
        assert_eq!(get_cpu_clock(&s.status) as u64 / 1000, cpu_khz(p, input as u64));
    }
}
