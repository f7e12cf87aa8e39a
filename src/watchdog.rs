use vstd::prelude::*;

verus! {

/// First and second byte of the watchdog feed sequence.
pub const WDT_FEED_FIRST: u8 = 0xAA;
pub const WDT_FEED_SECOND: u8 = 0x55;

/// One write to the watchdog's registers.
#[derive(Clone, Copy, Debug, PartialEq, Eq, Structural)]
pub enum WdtOp {
    /// WDTC: the timeout, in watchdog clock ticks.
    Timeout(u32),
    /// WDMOD: run the watchdog, and reset the chip when it expires.
    Mode { enable: bool, reset: bool },
    /// One byte to WDFEED.
    Feed(u8),
}

/// The writes that only take effect through a feed sequence.
pub open spec fn is_wdt_protected(op: WdtOp) -> bool {
    op is Timeout || op is Mode
}

/// Every protected write is followed at once by the two feed bytes, in order.
pub open spec fn wdt_feeds_follow_protected(ops: Seq<WdtOp>) -> bool {
    forall|i: int|
        0 <= i < ops.len() && #[trigger] is_wdt_protected(ops[i]) ==> {
            &&& i + 2 < ops.len()
            &&& ops[i + 1] == WdtOp::Feed(WDT_FEED_FIRST)
            &&& ops[i + 2] == WdtOp::Feed(WDT_FEED_SECOND)
        }
}

/// The watchdog feed sequence.
pub open spec fn wdt_feed_ops() -> Seq<WdtOp> {
    seq![WdtOp::Feed(WDT_FEED_FIRST), WdtOp::Feed(WDT_FEED_SECOND)]
}

/// Returns the writes that restart the watchdog's countdown.
pub fn feed_watchdog() -> (r: Vec<WdtOp>)
    ensures
        r@ == wdt_feed_ops(),
{
    vec![WdtOp::Feed(WDT_FEED_FIRST), WdtOp::Feed(WDT_FEED_SECOND)]
}

/// Writes that arm the watchdog with `timeout` and reset on expiry.
pub open spec fn enable_watchdog_ops(timeout: u32) -> Seq<WdtOp> {
    seq![
        WdtOp::Timeout(timeout),
        WdtOp::Feed(WDT_FEED_FIRST),
        WdtOp::Feed(WDT_FEED_SECOND),
        WdtOp::Mode { enable: true, reset: true },
        WdtOp::Feed(WDT_FEED_FIRST),
        WdtOp::Feed(WDT_FEED_SECOND),
    ]
}

/// Returns the writes that arm the watchdog with `timeout`, set it to reset
/// the chip on expiry, and start it.
pub fn enable_watchdog(timeout: u32) -> (r: Vec<WdtOp>)
    ensures
        r@ == enable_watchdog_ops(timeout),
        wdt_feeds_follow_protected(r@),
{
    let mut r: Vec<WdtOp> = Vec::new();
    r.push(WdtOp::Timeout(timeout));
    r.append(&mut feed_watchdog());
    r.push(WdtOp::Mode { enable: true, reset: true });
    r.append(&mut feed_watchdog());
    assert(r@ =~= enable_watchdog_ops(timeout));
    r
}

/// One step of the real-time clock's periodic interrupt.
#[derive(Clone, Copy, Debug, PartialEq, Eq, Structural)]
pub enum TickAction {
    /// Write 1 to the counter-increment flag of ILR, acknowledging the interrupt.
    ClearCounterFlag,
    /// A write to the watchdog.
    Watchdog(WdtOp),
}

/// What the periodic interrupt does, given whether the counter-increment
/// flag is set: acknowledge it first, then feed the watchdog; nothing when
/// the flag is clear.
pub fn rtc_tick(counter_flag_set: bool) -> (r: Vec<TickAction>)
    ensures
        counter_flag_set ==> r@ == seq![
            TickAction::ClearCounterFlag,
            TickAction::Watchdog(WdtOp::Feed(WDT_FEED_FIRST)),
            TickAction::Watchdog(WdtOp::Feed(WDT_FEED_SECOND)),
        ],
        !counter_flag_set ==> r@.len() == 0,
{
    let mut r: Vec<TickAction> = Vec::new();
    if counter_flag_set {
        r.push(TickAction::ClearCounterFlag);
        let feeds = feed_watchdog();
        let mut i: usize = 0;
        while i < feeds.len()
            invariant
                feeds@ == wdt_feed_ops(),
                0 <= i <= feeds.len(),
                r@.len() == i + 1,
                r@[0] == TickAction::ClearCounterFlag,
                forall|j: int| 0 <= j < i ==> r@[j + 1] == TickAction::Watchdog(feeds@[j]),
            decreases feeds.len() - i,
        {
            r.push(TickAction::Watchdog(feeds[i]));
            i = i + 1;
        }
        assert(r@ =~= seq![
            TickAction::ClearCounterFlag,
            TickAction::Watchdog(WdtOp::Feed(WDT_FEED_FIRST)),
            TickAction::Watchdog(WdtOp::Feed(WDT_FEED_SECOND)),
        ]);
    }
    r
}

} // verus!
