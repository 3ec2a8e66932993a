//! The time service: tick/nanosecond conversion with a fixed per-board
//! ratio, real-time-clock second selection, the boot-time epoch offset, and
//! one-shot timer arming.

use vstd::prelude::*;

verus! {

/// Nanoseconds in one second.
pub const NANOS_PER_SEC: u64 = 1_000_000_000;

/// The fixed clock ratio of the board: how many nanoseconds one tick of the
/// free-running hardware counter lasts. Computed once from the configured
/// tick frequency and never changed.
#[derive(Clone, Copy)]
pub struct ClockParams {
    /// Nanoseconds per hardware tick.
    pub nanos_per_tick: u64,
}

impl ClockParams {
    /// A usable ratio: at least one nanosecond per tick (the counter is no
    /// faster than 1 GHz) and at most one second per tick.
    pub open spec fn wf(self) -> bool {
        1 <= self.nanos_per_tick <= NANOS_PER_SEC
    }

    /// Derives the ratio from the board's tick frequency (ticks per second).
    pub fn new(tick_frequency: u64) -> (r: ClockParams)
        requires
            1 <= tick_frequency <= NANOS_PER_SEC,
        ensures
            r.nanos_per_tick == NANOS_PER_SEC as int / tick_frequency as int,
            r.wf(),
    {
        proof {
            let f = tick_frequency as int;
            assert(1 <= NANOS_PER_SEC as int / f <= NANOS_PER_SEC as int) by (nonlinear_arith)
                requires
                    1 <= f <= NANOS_PER_SEC as int,
            ;
        }
        ClockParams { nanos_per_tick: NANOS_PER_SEC / tick_frequency }
    }

    /// Ticks expressed in nanoseconds: an exact product.
    pub open spec fn ticks_to_nanos_spec(self, ticks: int) -> int {
        ticks * self.nanos_per_tick
    }

    /// Nanoseconds expressed in ticks: truncating division (sub-tick
    /// precision is deliberately lost, never rounded up).
    pub open spec fn nanos_to_ticks_spec(self, nanos: int) -> int {
        nanos / self.nanos_per_tick as int
    }

    /// Converts hardware ticks to nanoseconds.
    pub fn ticks_to_nanos(&self, ticks: u64) -> (r: u64)
        requires
            self.wf(),
            self.ticks_to_nanos_spec(ticks as int) <= u64::MAX,
        ensures
            r == self.ticks_to_nanos_spec(ticks as int),
    {
        ticks * self.nanos_per_tick
    }

    /// Converts nanoseconds to hardware ticks, truncating.
    pub fn nanos_to_ticks(&self, nanos: u64) -> (r: u64)
        requires
            self.wf(),
        ensures
            r == self.nanos_to_ticks_spec(nanos as int),
    {
        nanos / self.nanos_per_tick
    }
}

/// Converting nanoseconds to ticks and back never gains time: the result is
/// at most the input, and short of it by less than one tick's worth of
/// nanoseconds (the conversion truncates).
pub proof fn lemma_conversion_truncates(p: ClockParams, nanos: u64)
    requires
        p.wf(),
    ensures
        p.ticks_to_nanos_spec(p.nanos_to_ticks_spec(nanos as int)) <= nanos,
        nanos < p.ticks_to_nanos_spec(p.nanos_to_ticks_spec(nanos as int)) + p.nanos_per_tick,
{
    let d = p.nanos_per_tick as int;
    let n = nanos as int;
    assert((n / d) * d <= n && n < (n / d) * d + d) by (nonlinear_arith)
        requires
            d >= 1,
            n >= 0,
    ;
}

/// Zero converts to zero, in both directions.
pub proof fn lemma_zero_converts_to_zero(p: ClockParams)
    requires
        p.wf(),
    ensures
        p.ticks_to_nanos_spec(0) == 0,
        p.nanos_to_ticks_spec(0) == 0,
{
}

/// Byte offset of the real-time clock's primary seconds counter register.
pub const CVI_RTC_SEC_CNTR_VALUE: usize = 0x18;

/// Byte offset of the real-time clock's read-only mirror seconds register.
pub const RTC_MACRO_RO_T: usize = 0x4A8;

/// A mirror reading above this threshold is taken as a plausible timestamp
/// and preferred over the primary counter (board erratum workaround).
pub const VALID_TIME_THRESHOLD: u32 = 0x3000_0000;

/// One reading of the real-time clock's two redundant second counters.
#[derive(Clone, Copy)]
pub struct RtcSnapshot {
    /// The primary seconds counter.
    pub sec: u32,
    /// The read-only mirror of the seconds counter.
    pub sec_ro_t: u32,
}

/// Which seconds value a snapshot yields: the mirror when it exceeds the
/// validity threshold, the primary counter otherwise.
pub open spec fn rtc_seconds_spec(s: RtcSnapshot) -> u64 {
    if s.sec_ro_t > VALID_TIME_THRESHOLD {
        s.sec_ro_t as u64
    } else {
        s.sec as u64
    }
}

/// Selects the authoritative seconds value from a snapshot of the two
/// redundant counters. The threshold-based preference for the mirror is a
/// documented board erratum workaround and must be kept exactly: reading the
/// wrong register yields a wildly incorrect epoch offset.
pub fn rtc_seconds(s: &RtcSnapshot) -> (r: u64)
    ensures
        r == rtc_seconds_spec(*s),
        r <= u32::MAX,
{
    if s.sec_ro_t > VALID_TIME_THRESHOLD {
        s.sec_ro_t as u64
    } else {
        s.sec as u64
    }
}

/// Address of the primary seconds counter register of a clock mapped at
/// `rtc_base_vaddr`.
pub fn rtc_sec_cntr_addr(rtc_base_vaddr: usize) -> (a: usize)
    requires
        rtc_base_vaddr + RTC_MACRO_RO_T <= usize::MAX,
    ensures
        a == rtc_base_vaddr + CVI_RTC_SEC_CNTR_VALUE,
{
    rtc_base_vaddr + CVI_RTC_SEC_CNTR_VALUE
}

/// Address of the read-only mirror seconds register of a clock mapped at
/// `rtc_base_vaddr`.
pub fn rtc_mirror_addr(rtc_base_vaddr: usize) -> (a: usize)
    requires
        rtc_base_vaddr + RTC_MACRO_RO_T <= usize::MAX,
    ensures
        a == rtc_base_vaddr + RTC_MACRO_RO_T,
{
    rtc_base_vaddr + RTC_MACRO_RO_T
}

/// Whether a real-time clock is configured at all: a zero physical address
/// means the board has none.
pub fn rtc_present(rtc_paddr: usize) -> (r: bool)
    ensures
        r == (rtc_paddr != 0),
{
    rtc_paddr != 0
}

/// The epoch offset established at boot: wall-clock nanoseconds read from
/// the real-time clock minus the monotonic nanoseconds already elapsed at
/// that moment; zero when no clock is present.
pub open spec fn epoch_offset_spec(p: ClockParams, rtc: Option<RtcSnapshot>, boot_ticks: u64) -> int {
    match rtc {
        Some(s) => rtc_seconds_spec(s) * NANOS_PER_SEC - p.ticks_to_nanos_spec(boot_ticks as int),
        None => 0,
    }
}

/// The time service: the fixed clock ratio, the epoch offset cached at
/// boot, and the interrupt line of the timer. Constructed once during early
/// boot and never mutated afterwards.
pub struct TimeService {
    /// The fixed tick/nanosecond ratio of the board.
    pub params: ClockParams,
    /// Wall-clock minus monotonic nanoseconds at boot; zero without a
    /// real-time clock.
    pub rtc_epochoffset_nanos: u64,
    /// The interrupt line the one-shot timer fires on.
    pub timer_irq: usize,
}

impl TimeService {
    /// A service built from usable clock parameters.
    pub open spec fn wf(self) -> bool {
        self.params.wf()
    }

    /// Early-boot initialization. With a real-time clock present, its
    /// seconds value (in nanoseconds) minus the monotonic nanoseconds at
    /// `boot_ticks` becomes the cached epoch offset; with none, the offset
    /// is zero and wall time equals monotonic time.
    pub fn init_early(
        params: ClockParams,
        rtc: Option<RtcSnapshot>,
        boot_ticks: u64,
        timer_irq: usize,
    ) -> (s: TimeService)
        requires
            params.wf(),
            (rtc matches Some(r) ==>
                params.ticks_to_nanos_spec(boot_ticks as int) <= rtc_seconds_spec(r) * NANOS_PER_SEC),
        ensures
            s.params == params,
            s.timer_irq == timer_irq,
            s.wf(),
            s.rtc_epochoffset_nanos == epoch_offset_spec(params, rtc, boot_ticks),
            rtc is None ==> s.rtc_epochoffset_nanos == 0,
    {
        let offset: u64 = match rtc {
            Some(snap) => {
                let secs = rtc_seconds(&snap);
                let epoch_time_nanos = secs * NANOS_PER_SEC;
                epoch_time_nanos - params.ticks_to_nanos(boot_ticks)
            },
            None => 0,
        };
        TimeService { params, rtc_epochoffset_nanos: offset, timer_irq }
    }

    /// Early-boot initialization from a raw counter reading, total in its
    /// inputs: succeeds exactly when the epoch offset can be formed — always
    /// without a real-time clock, and with one whenever the monotonic
    /// nanoseconds at `boot_ticks` do not exceed the wall-clock reading.
    /// `None` reports a reading the offset cannot be formed from.
    pub fn try_init_early(
        params: ClockParams,
        rtc: Option<RtcSnapshot>,
        boot_ticks: u64,
        timer_irq: usize,
    ) -> (r: Option<TimeService>)
        requires
            params.wf(),
        ensures
            (r matches Some(s) ==> {
                &&& s.params == params
                &&& s.timer_irq == timer_irq
                &&& s.wf()
                &&& s.rtc_epochoffset_nanos == epoch_offset_spec(params, rtc, boot_ticks)
            }),
            (r is None <==> (rtc matches Some(snap)
                && rtc_seconds_spec(snap) * NANOS_PER_SEC
                    < params.ticks_to_nanos_spec(boot_ticks as int))),
            rtc is None ==> (r matches Some(s) && s.rtc_epochoffset_nanos == 0),
    {
        match rtc {
            Some(snap) => {
                let secs = rtc_seconds(&snap);
                let wall_nanos = secs * NANOS_PER_SEC;
                let npt = params.nanos_per_tick;
                if boot_ticks <= wall_nanos / npt {
                    proof {
                        let t = boot_ticks as int;
                        let d = npt as int;
                        let w = wall_nanos as int;
                        assert(t <= w / d ==> t * d <= w) by (nonlinear_arith)
                            requires
                                d >= 1,
                                t >= 0,
                                w >= 0,
                        ;
                    }
                    Some(TimeService::init_early(params, rtc, boot_ticks, timer_irq))
                } else {
                    proof {
                        let t = boot_ticks as int;
                        let d = npt as int;
                        let w = wall_nanos as int;
                        assert(t > w / d ==> t * d > w) by (nonlinear_arith)
                            requires
                                d >= 1,
                                t >= 0,
                                w >= 0,
                        ;
                    }
                    None
                }
            },
            None => Some(TimeService::init_early(params, rtc, boot_ticks, timer_irq)),
        }
    }

    /// Early-boot initialization against the live clock, as boot performs
    /// it: reads the tick counter now and establishes the epoch offset from
    /// that reading. Whatever the counter held, the result is a
    /// well-formed service; without a real-time clock the offset is zero.
    pub fn init_early_now(
        params: ClockParams,
        rtc: Option<RtcSnapshot>,
        timer_irq: usize,
    ) -> (r: Option<TimeService>)
        requires
            params.wf(),
        ensures
            (r matches Some(s) ==> {
                &&& s.params == params
                &&& s.timer_irq == timer_irq
                &&& s.wf()
                &&& (exists|t: u64| s.rtc_epochoffset_nanos == epoch_offset_spec(params, rtc, t))
            }),
            rtc is None ==> (r matches Some(s) && s.rtc_epochoffset_nanos == 0),
    {
        let boot_ticks = current_ticks();
        Self::try_init_early(params, rtc, boot_ticks, timer_irq)
    }

    /// The cached epoch offset: a pure read, constant after boot.
    pub fn epochoffset_nanos(&self) -> (r: u64)
        ensures
            r == self.rtc_epochoffset_nanos,
    {
        self.rtc_epochoffset_nanos
    }

    /// The interrupt line the one-shot timer is bound to.
    pub fn irq_num(&self) -> (r: usize)
        ensures
            r == self.timer_irq,
    {
        self.timer_irq
    }

    /// Converts hardware ticks to nanoseconds.
    pub fn ticks_to_nanos(&self, ticks: u64) -> (r: u64)
        requires
            self.wf(),
            self.params.ticks_to_nanos_spec(ticks as int) <= u64::MAX,
        ensures
            r == self.params.ticks_to_nanos_spec(ticks as int),
    {
        self.params.ticks_to_nanos(ticks)
    }

    /// Converts nanoseconds to hardware ticks, truncating.
    pub fn nanos_to_ticks(&self, nanos: u64) -> (r: u64)
        requires
            self.wf(),
        ensures
            r == self.params.nanos_to_ticks_spec(nanos as int),
    {
        self.params.nanos_to_ticks(nanos)
    }

    /// Per-core initialization: programs a compare value of zero so the
    /// core starts with a known-clean timer state (any pending one-shot is
    /// cleared at the controller).
    pub fn init_percpu(&self, timer: &mut HwTimer)
        ensures
            final(timer).armed == Some(0u64),
    {
        timer.set_timer(0);
    }

    /// Arms the one-shot timer: the absolute monotonic deadline in
    /// nanoseconds is converted to ticks (truncating) and programmed. The
    /// new deadline replaces whatever was pending on this core.
    pub fn set_oneshot_timer(&self, timer: &mut HwTimer, deadline_ns: u64)
        requires
            self.wf(),
        ensures
            final(timer).armed == Some(self.params.nanos_to_ticks_spec(deadline_ns as int) as u64),
    {
        timer.set_timer(self.params.nanos_to_ticks(deadline_ns));
    }

    /// Arms a simulated timer exactly as `set_oneshot_timer` programs the
    /// hardware: the deadline in nanoseconds converted to ticks, truncating,
    /// replacing any pending deadline.
    pub fn set_oneshot_timer_sim(&self, timer: &mut SimTimer, deadline_ns: u64)
        requires
            self.wf(),
        ensures
            final(timer).deadline == Some(self.params.nanos_to_ticks_spec(deadline_ns as int) as u64),
            final(timer).now_ticks == old(timer).now_ticks,
            final(timer).firings == old(timer).firings,
    {
        let t = self.params.nanos_to_ticks(deadline_ns);
        timer.set_timer(t);
    }
}

/// Reads the current value of the free-running hardware tick counter.
///
/// Relies on `riscv::register::time::read`: reads the `time` CSR, the
/// free-running counter this platform uses as its monotonic clock. Nothing
/// is assumed of the value read; callers treat every reading as an
/// arbitrary tick count.
#[verifier::external_body]
pub fn current_ticks() -> u64 {
    riscv::register::time::read() as u64
}

/// Programs the supervisor one-shot timer through the platform firmware.
///
/// Relies on `sbi_rt::set_timer`: programs the timer for one interrupt when
/// the tick counter reaches `stime_value`, clearing any pending timer
/// interrupt; a later call replaces the programmed value. The returned
/// firmware status is dropped, as the platform firmware is trusted to
/// implement the timer extension.
#[verifier::external_body]
fn sbi_set_timer(stime_value: u64) {
    let _ = sbi_rt::set_timer(stime_value);
}

/// The per-core one-shot timer as programmed through the firmware call.
/// `armed` mirrors the compare value most recently handed to the hardware:
/// `None` until the first call, `Some(t)` once a firing at tick `t` has
/// been requested.
pub struct HwTimer {
    /// The compare value most recently programmed, if any.
    pub armed: Option<u64>,
}

impl HwTimer {
    /// A handle for a core whose timer has not been programmed yet.
    pub fn new() -> (t: HwTimer)
        ensures
            t.armed is None,
    {
        HwTimer { armed: None }
    }

    /// Programs the hardware to raise one timer interrupt when the tick
    /// counter reaches `ticks`, replacing any pending compare value.
    pub fn set_timer(&mut self, ticks: u64)
        ensures
            final(self).armed == Some(ticks),
    {
        sbi_set_timer(ticks);
        self.armed = Some(ticks);
    }
}

/// A simulated one-shot timer controller: what the hardware does, on plain
/// values, so the arming and firing rules can be exercised without a
/// board. The counter only moves when the simulation advances it.
pub struct SimTimer {
    /// The simulated tick counter.
    pub now_ticks: u64,
    /// The pending one-shot deadline, in ticks.
    pub deadline: Option<u64>,
    /// How many firings have happened so far.
    pub firings: u64,
}

/// Whether advancing the counter to `to` makes a pending one-shot fire: it
/// does exactly when a deadline is armed and lies at or before `to`.
pub open spec fn sim_fires(t: SimTimer, to: u64) -> bool {
    t.deadline matches Some(d) && d <= to
}

/// The simulated timer after its counter advances to `to`: a firing
/// consumes the deadline (a one-shot raises a single interrupt and must be
/// re-armed); otherwise only the counter moves.
pub open spec fn sim_advanced(t: SimTimer, to: u64) -> SimTimer {
    if sim_fires(t, to) {
        SimTimer { now_ticks: to, deadline: None, firings: (t.firings + 1) as u64 }
    } else {
        SimTimer { now_ticks: to, ..t }
    }
}

impl SimTimer {
    /// A fresh simulated timer: counter at zero, nothing armed, no firings.
    pub fn new() -> (t: SimTimer)
        ensures
            t.now_ticks == 0,
            t.deadline is None,
            t.firings == 0,
    {
        SimTimer { now_ticks: 0, deadline: None, firings: 0 }
    }

    /// Arms the one-shot: a firing is requested for tick `ticks`, replacing
    /// any pending deadline.
    pub fn set_timer(&mut self, ticks: u64)
        ensures
            final(self).deadline == Some(ticks),
            final(self).now_ticks == old(self).now_ticks,
            final(self).firings == old(self).firings,
    {
        self.deadline = Some(ticks);
    }

    /// Advances the simulated counter to `to` and reports whether the
    /// pending one-shot fired on the way; a firing disarms the timer.
    pub fn advance_to(&mut self, to: u64) -> (fired: bool)
        requires
            old(self).now_ticks <= to,
            old(self).firings < u64::MAX,
        ensures
            fired == sim_fires(*old(self), to),
            *final(self) == sim_advanced(*old(self), to),
    {
        let fired = match self.deadline {
            Some(d) => d <= to,
            None => false,
        };
        self.now_ticks = to;
        if fired {
            self.deadline = None;
            self.firings = self.firings + 1;
        }
        fired
    }
}

/// A one-shot fires exactly once: arming a deadline and advancing the
/// counter to it fires, counts a single firing, and disarms the timer, so
/// no later advance fires again until a new deadline is armed.
pub proof fn lemma_oneshot_fires_exactly_once(t0: SimTimer, deadline_ticks: u64, later: u64)
    requires
        deadline_ticks <= later,
        t0.firings < u64::MAX,
    ensures
        ({
            let armed = SimTimer { deadline: Some(deadline_ticks), ..t0 };
            let after = sim_advanced(armed, deadline_ticks);
            &&& sim_fires(armed, deadline_ticks)
            &&& after.firings == armed.firings + 1
            &&& after.deadline is None
            &&& !sim_fires(after, later)
        }),
{
}

/// A new deadline replaces the pending one: after arming twice, only the
/// second deadline is pending, and advancing anywhere short of it — even to
/// the first, overwritten deadline — fires nothing.
pub proof fn lemma_rearm_replaces(t0: SimTimer, first: u64, second: u64, to: u64)
    requires
        to < second,
    ensures
        ({
            let rearmed = SimTimer { deadline: Some(second), ..(SimTimer { deadline: Some(first), ..t0 }) };
            &&& rearmed.deadline == Some(second)
            &&& !sim_fires(rearmed, to)
        }),
{
}

} // verus!
