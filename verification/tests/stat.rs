use procps_marshal::stat::{get_stat, Counter, Cpu, Page, RawStat, SlotPair, Stat, Swap};

fn pair64(first: Option<u64>, second: Option<u64>) -> SlotPair<u64> {
    SlotPair { first, second }
}

fn pair32(first: Option<u32>, second: Option<u32>) -> SlotPair<u32> {
    SlotPair { first, second }
}

fn both64(first: u64, second: u64) -> SlotPair<u64> {
    pair64(Some(first), Some(second))
}

#[test]
fn missing_first_slot_falls_to_second() {
    assert_eq!(pair64(None, Some(5)).decode(), Some(5));
    assert_eq!(pair32(None, Some(5)).decode(), Some(5));
}

#[test]
fn two_zero_slots_are_a_reading_of_zero() {
    assert_eq!(pair64(Some(0), Some(0)).decode(), Some(0));
    assert_eq!(pair32(Some(0), Some(0)).decode(), Some(0));
}

#[test]
fn two_missing_slots_are_no_reading() {
    assert_eq!(pair64(None, None).decode(), None);
    assert_eq!(pair32(None, None).decode(), None);
}

#[test]
fn first_populated_slot_wins() {
    assert_eq!(pair64(Some(3), Some(5)).decode(), Some(3));
    assert_eq!(pair64(Some(0), Some(5)).decode(), Some(5));
    assert_eq!(pair64(Some(7), Some(0)).decode(), Some(7));
    assert_eq!(pair64(Some(7), None).decode(), Some(7));
    assert_eq!(pair32(Some(u32::MAX), Some(1)).decode(), Some(u32::MAX));
    assert_eq!(pair64(Some(0), Some(u64::MAX)).decode(), Some(u64::MAX));
}

#[test]
fn one_zero_slot_is_a_reading_of_zero() {
    assert_eq!(pair64(Some(0), None).decode(), Some(0));
    assert_eq!(pair64(None, Some(0)).decode(), Some(0));
    assert_eq!(pair32(Some(0), None).decode(), Some(0));
    assert_eq!(pair32(None, Some(0)).decode(), Some(0));
}

#[test]
fn absent_exactly_when_both_slots_are_missing() {
    let slots = [None, Some(0u64), Some(1), Some(42)];
    for first in slots {
        for second in slots {
            let reading = pair64(first, second).decode();
            assert_eq!(reading.is_none(), first.is_none() && second.is_none());
            if let Some(value) = reading {
                let populated = |s: Option<u64>| matches!(s, Some(v) if v != 0);
                assert_eq!(value == 0, !populated(first) && !populated(second));
                assert!(Some(value) == first || Some(value) == second);
            }
        }
    }
}

#[test]
fn zero_test_of_counters() {
    assert!(0u32.is_zero());
    assert!(!1u32.is_zero());
    assert!(0u64.is_zero());
    assert!(!u64::MAX.is_zero());
}

fn modern_kernel() -> RawStat {
    RawStat {
        user_processes: both64(120_034, 0),
        nice_processes: both64(1_522, 0),
        system_processes: both64(48_770, 0),
        idle: both64(9_401_223, 0),
        iowait: both64(8_812, 0),
        irq: both64(0, 0),
        soft_irq: both64(2_204, 0),
        steal: both64(0, 0),
        pin: both64(1_930_442, 0),
        pout: both64(5_220_118, 0),
        sin: both64(0, 0),
        sout: both64(0, 0),
        interrupts: pair32(Some(30_441_209), Some(0)),
        context_switches: pair32(Some(61_002_877), Some(0)),
        running_processes: 2,
        blocked_processes: 0,
        btime: 1_700_000_000,
        processes: 48_213,
    }
}

#[test]
fn stat_of_a_modern_kernel() {
    let stat = get_stat(&modern_kernel());
    assert_eq!(
        stat,
        Stat {
            cpu: Cpu {
                user_processes: Some(120_034),
                nice_processes: Some(1_522),
                system_processes: Some(48_770),
                idle: Some(9_401_223),
                iowait: Some(8_812),
                irq: Some(0),
                soft_irq: Some(2_204),
                steal: Some(0),
            },
            page: Page { pin: Some(1_930_442), pout: Some(5_220_118) },
            swap: Swap { sin: Some(0), sout: Some(0) },
            interrupts: Some(30_441_209),
            context_switches: Some(61_002_877),
            running_processes: 2,
            blocked_processes: 0,
            btime: 1_700_000_000,
            processes: 48_213,
        }
    );
}

#[test]
fn stat_of_an_old_kernel_lacks_the_later_counters() {
    let mut raw = modern_kernel();
    // not kept apart before 2.5.41, 2.6.0-test4 and 2.6.11
    raw.iowait = pair64(None, None);
    raw.irq = pair64(None, None);
    raw.soft_irq = pair64(None, None);
    raw.steal = pair64(None, None);
    // reported through the second slot only
    raw.pin = pair64(None, Some(77));
    raw.interrupts = pair32(Some(0), Some(9));
    let stat = get_stat(&raw);
    assert_eq!(stat.cpu.iowait, None);
    assert_eq!(stat.cpu.irq, None);
    assert_eq!(stat.cpu.soft_irq, None);
    assert_eq!(stat.cpu.steal, None);
    assert_eq!(stat.cpu.user_processes, Some(120_034));
    assert_eq!(stat.cpu.idle, Some(9_401_223));
    assert_eq!(stat.page.pin, Some(77));
    assert_eq!(stat.page.pout, Some(5_220_118));
    assert_eq!(stat.interrupts, Some(9));
    assert_eq!(stat.context_switches, Some(61_002_877));
}

#[test]
fn plain_values_pass_through() {
    let mut raw = modern_kernel();
    raw.running_processes = 0;
    raw.blocked_processes = 17;
    raw.btime = u32::MAX;
    raw.processes = 1;
    let stat = get_stat(&raw);
    assert_eq!(stat.running_processes, 0);
    assert_eq!(stat.blocked_processes, 17);
    assert_eq!(stat.btime, u32::MAX);
    assert_eq!(stat.processes, 1);
}

#[test]
fn each_field_comes_from_its_own_pair() {
    let raw = RawStat {
        user_processes: both64(1, 0),
        nice_processes: both64(2, 0),
        system_processes: both64(3, 0),
        idle: both64(4, 0),
        iowait: both64(5, 0),
        irq: both64(6, 0),
        soft_irq: both64(7, 0),
        steal: both64(8, 0),
        pin: both64(9, 0),
        pout: both64(10, 0),
        sin: both64(11, 0),
        sout: both64(12, 0),
        interrupts: pair32(Some(13), None),
        context_switches: pair32(Some(14), None),
        running_processes: 15,
        blocked_processes: 16,
        btime: 17,
        processes: 18,
    };
    let s = get_stat(&raw);
    let seen = [
        s.cpu.user_processes.unwrap(),
        s.cpu.nice_processes.unwrap(),
        s.cpu.system_processes.unwrap(),
        s.cpu.idle.unwrap(),
        s.cpu.iowait.unwrap(),
        s.cpu.irq.unwrap(),
        s.cpu.soft_irq.unwrap(),
        s.cpu.steal.unwrap(),
        s.page.pin.unwrap(),
        s.page.pout.unwrap(),
        s.swap.sin.unwrap(),
        s.swap.sout.unwrap(),
        s.interrupts.unwrap() as u64,
        s.context_switches.unwrap() as u64,
        s.running_processes as u64,
        s.blocked_processes as u64,
        s.btime as u64,
        s.processes as u64,
    ];
    let expected: Vec<u64> = (1..=18).collect();
    assert_eq!(seen.to_vec(), expected);
}
