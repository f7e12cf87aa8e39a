use vstd::prelude::*;

verus! {

/// The startup steps, each a prerequisite for the next.
#[derive(Clone, Copy, Debug, PartialEq, Eq, Structural)]
pub enum BootStep {
    /// Point the process and main stack pointers at the top of the stack region.
    SetupStack,
    /// Full memory and instruction barrier.
    Barrier,
    /// Copy the initialised-data image from flash to RAM.
    InitData,
    /// Zero the uninitialised-data region.
    ZeroBss,
    /// Validate or reset the calendar.
    RtcInit,
    /// Bring the clock tree to a known state.
    ClockConfigure,
    /// Flash timing, serial port and the rest of the application's setup.
    AppSetup,
}

/// The startup order.
pub open spec fn boot_order() -> Seq<BootStep> {
    seq![
        BootStep::SetupStack,
        BootStep::Barrier,
        BootStep::InitData,
        BootStep::ZeroBss,
        BootStep::RtcInit,
        BootStep::ClockConfigure,
        BootStep::AppSetup,
    ]
}

/// The steps that the reset handler runs, in order.
pub fn boot_steps() -> (r: Vec<BootStep>)
    ensures
        r@ == boot_order(),
{
    let r = vec![
        BootStep::SetupStack,
        BootStep::Barrier,
        BootStep::InitData,
        BootStep::ZeroBss,
        BootStep::RtcInit,
        BootStep::ClockConfigure,
        BootStep::AppSetup,
    ];
    assert(r@ =~= boot_order());
    r
}

/// Where the system stands: running, caught in a fault, or stopped for good.
#[derive(Clone, Copy, Debug, PartialEq, Eq, Structural)]
pub enum SystemState {
    Running,
    Faulted,
    Halted,
}

/// What can happen to the system.
#[derive(Clone, Copy, Debug, PartialEq, Eq, Structural)]
pub enum SystemEvent {
    /// A hard fault, or an interrupt with no handler of its own.
    Fault,
    /// The fault has been reported as far as possible.
    Reported,
}

/// Transitions: a fault moves a running system to `Faulted`, reporting it
/// moves on to `Halted`, and nothing leaves `Halted`.
pub open spec fn next_state_spec(s: SystemState, e: SystemEvent) -> SystemState {
    match (s, e) {
        (SystemState::Running, SystemEvent::Fault) => SystemState::Faulted,
        (SystemState::Faulted, SystemEvent::Reported) => SystemState::Halted,
        (SystemState::Faulted, SystemEvent::Fault) => SystemState::Faulted,
        (SystemState::Halted, _) => SystemState::Halted,
        (SystemState::Running, SystemEvent::Reported) => SystemState::Running,
    }
}

/// The state after `e` happens in state `s`.
pub fn next_state(s: SystemState, e: SystemEvent) -> (r: SystemState)
    ensures
        r == next_state_spec(s, e),
{
    match (s, e) {
        (SystemState::Running, SystemEvent::Fault) => SystemState::Faulted,
        (SystemState::Faulted, SystemEvent::Reported) => SystemState::Halted,
        (SystemState::Faulted, SystemEvent::Fault) => SystemState::Faulted,
        (SystemState::Halted, _) => SystemState::Halted,
        (SystemState::Running, SystemEvent::Reported) => SystemState::Running,
    }
}

/// The processor exceptions with an entry in the exception table.
#[derive(Clone, Copy, Debug, PartialEq, Eq, Structural)]
pub enum Exception {
    NonMaskableInt,
    MemoryManagement,
    BusFault,
    UsageFault,
    SVCall,
    DebugMonitor,
    PendSV,
    SysTick,
}

/// Number of entries in the exception table (exceptions 2 to 15).
pub const EXCEPTION_SLOTS: usize = 14;

/// Index of an exception's handler in the exception table, which starts at
/// exception number 2; the hard fault takes index 1.
pub open spec fn exception_slot(e: Exception) -> int {
    match e {
        Exception::NonMaskableInt => 0,
        Exception::MemoryManagement => 2,
        Exception::BusFault => 3,
        Exception::UsageFault => 4,
        Exception::SVCall => 9,
        Exception::DebugMonitor => 10,
        Exception::PendSV => 12,
        Exception::SysTick => 13,
    }
}

/// Index of an exception's handler in the exception table.
pub fn vector_slot(e: Exception) -> (r: usize)
    ensures
        r == exception_slot(e),
        r < EXCEPTION_SLOTS,
{
    match e {
        Exception::NonMaskableInt => 0,
        Exception::MemoryManagement => 2,
        Exception::BusFault => 3,
        Exception::UsageFault => 4,
        Exception::SVCall => 9,
        Exception::DebugMonitor => 10,
        Exception::PendSV => 12,
        Exception::SysTick => 13,
    }
}

/// Whether an index of the exception table is reserved (holds zero).
pub fn slot_is_reserved(i: usize) -> (r: bool)
    requires
        i < EXCEPTION_SLOTS,
    ensures
        r == (i != 1 && forall|e: Exception| exception_slot(e) != i),
{
    let r = (5 <= i && i <= 8) || i == 11;
    assert(!r ==> (i == 1 || exception_slot(Exception::NonMaskableInt) == i || exception_slot(
        Exception::MemoryManagement,
    ) == i || exception_slot(Exception::BusFault) == i || exception_slot(Exception::UsageFault)
        == i || exception_slot(Exception::SVCall) == i || exception_slot(Exception::DebugMonitor)
        == i || exception_slot(Exception::PendSV) == i || exception_slot(Exception::SysTick) == i));
    r
}

/// Flash access time, in CPU clocks, for a CPU clock of `clock_hz`: one
/// clock up to 20 MHz, one more for each further 20 MHz, six above 100 MHz.
/// The frequency counts in whole MHz, rounded down.
pub open spec fn flash_clocks_spec(clock_hz: int) -> int {
    let mhz = clock_hz / 1_000_000;
    if mhz <= 20 {
        1
    } else if mhz <= 40 {
        2
    } else if mhz <= 60 {
        3
    } else if mhz <= 80 {
        4
    } else if mhz <= 100 {
        5
    } else {
        6
    }
}

/// Flash access time, in CPU clocks, for a CPU clock of `clock_hz`.
pub fn flash_access_clocks(clock_hz: u32) -> (r: u8)
    ensures
        r == flash_clocks_spec(clock_hz as int),
        1 <= r <= 6,
{
    let mhz = clock_hz / 1_000_000;
    if mhz <= 20 {
        1
    } else if mhz <= 40 {
        2
    } else if mhz <= 60 {
        3
    } else if mhz <= 80 {
        4
    } else if mhz <= 100 {
        5
    } else {
        6
    }
}

/// Serial baud rate of the console.
pub const CONSOLE_BAUD: u32 = 38400;

/// Divisor latch value for the console's baud rate with the serial port
/// clocked at `clock_hz`: `clock_hz / (16 * baud)`, rounded to nearest,
/// halves up.
pub fn uart_divisor(clock_hz: u32) -> (r: u16)
    ensures
        r == (clock_hz + 8 * CONSOLE_BAUD) / (16 * CONSOLE_BAUD),
{
    let q: u64 = (clock_hz as u64 + 8 * CONSOLE_BAUD as u64) / (16 * CONSOLE_BAUD as u64);
    assert(q <= 7000);
    q as u16
}

} // verus!
