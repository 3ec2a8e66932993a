use sg2002_hal::phys_to_virt;
use sg2002_hal::time::{
    rtc_mirror_addr, rtc_present, rtc_sec_cntr_addr, rtc_seconds, ClockParams, RtcSnapshot,
    SimTimer, TimeService, NANOS_PER_SEC,
};

fn params_25mhz() -> ClockParams {
    // The board's timer runs off a 25 MHz reference: 40 ns per tick.
    ClockParams::new(25_000_000)
}

#[test]
fn nanos_per_tick_from_frequency() {
    assert_eq!(params_25mhz().nanos_per_tick, 40);
    assert_eq!(ClockParams::new(NANOS_PER_SEC).nanos_per_tick, 1);
    assert_eq!(ClockParams::new(1).nanos_per_tick, NANOS_PER_SEC);
}

#[test]
fn tick_conversions_exact_values() {
    let p = params_25mhz();
    assert_eq!(p.ticks_to_nanos(0), 0);
    assert_eq!(p.ticks_to_nanos(25), 1000);
    assert_eq!(p.nanos_to_ticks(0), 0);
    assert_eq!(p.nanos_to_ticks(1000), 25);
    // Truncating: sub-tick nanoseconds are lost, never rounded up.
    assert_eq!(p.nanos_to_ticks(1039), 25);
}

#[test]
fn round_trip_never_gains_time() {
    let p = params_25mhz();
    for x in [0u64, 1, 39, 40, 41, 1039, 123_456_789, u64::MAX / 40] {
        let back = p.ticks_to_nanos(p.nanos_to_ticks(x));
        assert!(back <= x);
        assert!(x - back < p.nanos_per_tick);
    }
}

#[test]
fn zero_converts_to_zero_both_ways() {
    let p = params_25mhz();
    assert_eq!(p.ticks_to_nanos(p.nanos_to_ticks(0)), 0);
    assert_eq!(p.nanos_to_ticks(p.ticks_to_nanos(0)), 0);
}

#[test]
fn rtc_prefers_mirror_above_threshold() {
    let snap = RtcSnapshot { sec: 100, sec_ro_t: 0x3000_0001 };
    assert_eq!(rtc_seconds(&snap), 0x3000_0001);
}

#[test]
fn rtc_uses_primary_at_or_below_threshold() {
    let snap = RtcSnapshot { sec: 100, sec_ro_t: 0x10 };
    assert_eq!(rtc_seconds(&snap), 100);
    let at_threshold = RtcSnapshot { sec: 7, sec_ro_t: 0x3000_0000 };
    assert_eq!(rtc_seconds(&at_threshold), 7);
}

#[test]
fn epoch_offset_from_rtc_reading() {
    let p = params_25mhz();
    let snap = RtcSnapshot { sec: 100, sec_ro_t: 0x10 };
    // 25 boot ticks are 1000 monotonic nanoseconds.
    let svc = TimeService::init_early(p, Some(snap), 25, 16);
    assert_eq!(svc.epochoffset_nanos(), 100 * NANOS_PER_SEC - 1000);
    assert_eq!(svc.irq_num(), 16);
}

#[test]
fn epoch_offset_uses_mirror_above_threshold() {
    let p = params_25mhz();
    let snap = RtcSnapshot { sec: 100, sec_ro_t: 0x3000_0001 };
    let svc = TimeService::init_early(p, Some(snap), 0, 16);
    assert_eq!(svc.epochoffset_nanos(), 0x3000_0001 * NANOS_PER_SEC);
}

#[test]
fn epoch_offset_zero_without_rtc() {
    let p = params_25mhz();
    let svc = TimeService::init_early(p, None, 987_654, 16);
    assert_eq!(svc.epochoffset_nanos(), 0);
}

#[test]
fn rtc_absent_at_address_zero() {
    assert!(!rtc_present(0));
    assert!(rtc_present(0x0502_6000));
}

#[test]
fn try_init_rejects_wall_clock_behind_monotonic() {
    let p = params_25mhz();
    // A zeroed clock reads zero seconds; any elapsed monotonic time beats it.
    let snap = RtcSnapshot { sec: 0, sec_ro_t: 0 };
    assert!(TimeService::try_init_early(p, Some(snap), 25, 16).is_none());
    // With a sane reading the offset is formed.
    let good = RtcSnapshot { sec: 100, sec_ro_t: 0 };
    let svc = TimeService::try_init_early(p, Some(good), 25, 16).unwrap();
    assert_eq!(svc.epochoffset_nanos(), 100 * NANOS_PER_SEC - 1000);
    // Without a clock it always succeeds, with a zero offset.
    let svc2 = TimeService::try_init_early(p, None, u64::MAX, 16).unwrap();
    assert_eq!(svc2.epochoffset_nanos(), 0);
}

#[test]
fn oneshot_fires_exactly_once_at_deadline() {
    let p = params_25mhz();
    let svc = TimeService::init_early(p, None, 0, 16);
    let mut sim = SimTimer::new();
    svc.set_oneshot_timer_sim(&mut sim, 1000);
    assert_eq!(sim.deadline, Some(25));
    // Advancing to just before the deadline fires nothing.
    assert!(!sim.advance_to(24));
    // Advancing to exactly the deadline fires, once.
    assert!(sim.advance_to(25));
    assert_eq!(sim.firings, 1);
    // The one-shot is spent: no further firing without re-arming.
    assert!(!sim.advance_to(1_000_000));
    assert_eq!(sim.firings, 1);
}

#[test]
fn new_deadline_replaces_pending_one() {
    let p = params_25mhz();
    let svc = TimeService::init_early(p, None, 0, 16);
    let mut sim = SimTimer::new();
    svc.set_oneshot_timer_sim(&mut sim, 1000);
    svc.set_oneshot_timer_sim(&mut sim, 4000);
    assert_eq!(sim.deadline, Some(100));
    // The overwritten deadline never fires; only the latest one does.
    assert!(!sim.advance_to(25));
    assert!(sim.advance_to(100));
    assert_eq!(sim.firings, 1);
}

#[test]
fn physical_to_virtual_is_linear_offset() {
    assert_eq!(phys_to_virt(0x0414_0000, 0), 0x0414_0000);
    assert_eq!(phys_to_virt(0x1000, 0xffff_0000_0000_0000), 0xffff_0000_0000_1000);
}

#[test]
fn rtc_register_addresses() {
    let base = 0x0502_6000usize;
    assert_eq!(rtc_sec_cntr_addr(base), base + 0x18);
    assert_eq!(rtc_mirror_addr(base), base + 0x4A8);
}
