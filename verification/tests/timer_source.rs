use std::cell::Cell;

use nova_core::Error;
use nova_core::num::U64Ext;
use nova_core::regs::{PTIMER_TIME_0, PTIMER_TIME_1};
use nova_core::sim::SimBar;
use nova_core::timer::Timer;

fn triple(v: u64) -> [u64; 3] {
    [v, v, v]
}

fn script(chunks: &[[u64; 3]]) -> Vec<u64> {
    chunks.iter().flatten().copied().collect()
}

#[test]
fn from_u32s_combines_high_and_low() {
    assert_eq!(u64::from_u32s(0x01234567, 0x89abcdef), 0x01234567_89abcdef);
    assert_eq!(u64::from_u32s(0, 0), 0);
    assert_eq!(u64::from_u32s(u32::MAX, u32::MAX), u64::MAX);
}

#[test]
fn into_u32s_splits_into_high_and_low() {
    assert_eq!(u64::into_u32s(0x01234567_89abcdef), (0x1234567, 0x89abcdef));
    assert_eq!(u64::into_u32s(0), (0, 0));
    assert_eq!(u64::into_u32s(u64::MAX), (u32::MAX, u32::MAX));
    let v = 0xfedc_ba98_7654_3210u64;
    let (hi, lo) = v.into_u32s();
    assert_eq!(u64::from_u32s(hi, lo), v);
}

#[test]
fn read_returns_the_counter_when_the_halves_are_stable() {
    let mut bar = SimBar::new(0, script(&[triple(5)]));
    assert_eq!(Timer::read(&mut bar), Ok(5));
    assert_eq!(bar.position(), 3);
}

#[test]
fn read_combines_the_two_half_registers() {
    let mut bar = SimBar::new(0, script(&[triple(0x0000_0001_0000_0002)]));
    assert_eq!(Timer::read(&mut bar), Ok(0x0000_0001_0000_0002));
}

#[test]
fn read_retries_instead_of_returning_a_torn_value() {
    // The counter wraps its low half between the first high-half read and the
    // low-half read: 0x0_ffff_ffff becomes 0x1_0000_0000. A naive unchecked
    // combination of the first high half with the low half would yield 0.
    let mut bar = SimBar::new(
        0,
        vec![
            0x0000_0000_ffff_ffff, // first high-half read: 0
            0x0000_0001_0000_0000, // low-half read: 0
            0x0000_0001_0000_0000, // second high-half read: 1 != 0, retry
            0x0000_0001_0000_0000,
            0x0000_0001_0000_0000,
            0x0000_0001_0000_0000,
        ],
    );
    let got = Timer::read(&mut bar);
    assert_ne!(got, Ok(0));
    assert_eq!(got, Ok(0x0000_0001_0000_0000));
    // Six half-register reads: one rejected window plus one accepted one.
    assert_eq!(bar.position(), 6);
}

#[test]
fn wait_on_succeeds_at_once_without_any_clock_read() {
    let timer = Timer::new();
    let mut bar = SimBar::new(0, script(&[triple(1)]));
    let got = timer.wait_on(&mut bar, 0, || Some(42u32));
    assert_eq!(got, Ok(42));
    // The condition held on the very first evaluation, with a zero timeout:
    // not a single counter register was read.
    assert_eq!(bar.position(), 0);
}

#[test]
fn wait_on_times_out_when_the_clock_passes_the_deadline() {
    let timer = Timer::new();
    // Deadline is 10 + 100; the next reading jumps past it.
    let mut bar = SimBar::new(0, script(&[triple(10), triple(200)]));
    let got = timer.wait_on(&mut bar, 100, || Option::<()>::None);
    assert_eq!(got, Err(Error::Timeout));
    assert_eq!(bar.position(), 6);
}

#[test]
fn wait_on_times_out_exactly_at_the_deadline() {
    let timer = Timer::new();
    // Deadline is 10 + 100 = 110; a reading at exactly 110 already times out.
    let mut bar = SimBar::new(0, script(&[triple(10), triple(110)]));
    let got = timer.wait_on(&mut bar, 100, || Option::<()>::None);
    assert_eq!(got, Err(Error::Timeout));
    assert_eq!(bar.position(), 6);
}

#[test]
fn wait_on_keeps_polling_just_below_the_deadline() {
    let timer = Timer::new();
    // A reading of 109 is still below the deadline of 110, so the wait goes
    // on; the clock then freezes at 109 and the stall detector ends it.
    let mut bar = SimBar::new(0, script(&[triple(10), triple(109)]));
    let got = timer.wait_on(&mut bar, 100, || Option::<()>::None);
    assert_eq!(got, Err(Error::Timeout));
    // Initial read, the accepted 109 reading, and 16 stalled polls.
    assert_eq!(bar.position(), 3 + 3 + 16 * 3);
}

#[test]
fn wait_on_times_out_when_the_clock_stalls() {
    let timer = Timer::new();
    // The script freezes at 7 forever; the deadline (saturated to u64::MAX)
    // is never reached, yet the wait must fail once the reading has been
    // identical for 16 consecutive polls.
    let mut bar = SimBar::new(0, script(&[triple(7)]));
    let got = timer.wait_on(&mut bar, u64::MAX, || Option::<()>::None);
    assert_eq!(got, Err(Error::Timeout));
    // One initial read plus 16 stalled polls, three half-reads each.
    assert_eq!(bar.position(), 3 + 16 * 3);
}

#[test]
fn wait_on_returns_the_value_once_the_condition_holds() {
    let timer = Timer::new();
    let chunks: Vec<[u64; 3]> = (0..8).map(|i| triple(10 + i)).collect();
    let mut bar = SimBar::new(0, script(&chunks));
    let calls = Cell::new(0u32);
    let got = timer.wait_on(&mut bar, 1_000_000, || {
        calls.set(calls.get() + 1);
        if calls.get() >= 4 { Some(calls.get()) } else { None }
    });
    assert_eq!(got, Ok(4));
    assert_eq!(calls.get(), 4);
    // The first probe runs before any clock access; the deadline read and
    // one read after each of the second and third failed probes remain.
    assert_eq!(bar.position(), 3 * 3);
}

#[test]
fn setting_the_time_writes_the_high_half_then_the_low_half() {
    let mut bar = SimBar::new(0, Vec::new());
    Timer::time(&mut bar, 0x0123_4567_89ab_cdef);
    assert_eq!(
        bar.write_log(),
        vec![(PTIMER_TIME_1, 0x0123_4567u32), (PTIMER_TIME_0, 0x89ab_cdefu32)],
    );
}
