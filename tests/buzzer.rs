use mb2_wukong_expansion::buzzer::{loop_count, Error, TonePlan, TICK_FREQUENCY};
use mb2_wukong_expansion::WuKongBuzzer;

#[test]
fn loop_count_formula() {
    // A4 at 2 MHz is 4545 ticks: one second is 2_000_000_000 / 9_090_000 loops.
    assert_eq!(loop_count(2_000_000, 1000, 4545), 220);
    assert_eq!(loop_count(TICK_FREQUENCY, 125, 4545), 27);
    // No overflow at the largest inputs.
    assert_eq!(loop_count(u32::MAX, u32::MAX, 1), (u32::MAX as u64 * u32::MAX as u64) / 2000);
}

#[test]
fn play_note_plans_burst() {
    let mut b = WuKongBuzzer::new();
    assert!(!b.is_playing());
    let plan = b.play_note(4545, 1000).unwrap();
    assert_eq!(plan, TonePlan { max_duty: 4545, duty: 2272, loops: 220 });
    assert!(b.is_playing());
}

#[test]
fn note_ends_only_when_loops_done() {
    let mut b = WuKongBuzzer::new();
    b.play_note(3822, 500).unwrap();
    for _ in 0..10 {
        assert!(!b.poll(false));
        assert!(b.is_playing());
    }
    assert!(b.poll(true));
    assert!(!b.is_playing());
    // Idle again: the next note can start.
    assert!(b.play_note(3822, 500).is_ok());
}

#[test]
fn period_out_of_range() {
    let mut b = WuKongBuzzer::new();
    assert_eq!(b.play_note(0, 1000), Err(Error::PeriodOutOfRange(0)));
    assert_eq!(b.play_note(32768, 1000), Err(Error::PeriodOutOfRange(32768)));
    assert!(!b.is_playing());
    assert!(b.play_note(32767, 1000).is_ok());
}

#[test]
fn loop_count_out_of_range() {
    let mut b = WuKongBuzzer::new();
    // 2 ms of a 4545-tick period is 4_000_000 / 9_090_000 loops: none.
    assert_eq!(b.play_note(4545, 2), Err(Error::LoopCountOutOfRange(0)));
    // 1000 s of a 100-tick period is 10_000_000 loops.
    assert_eq!(b.play_note(100, 1_000_000), Err(Error::LoopCountOutOfRange(10_000_000)));
    assert!(!b.is_playing());
}
