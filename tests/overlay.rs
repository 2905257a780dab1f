use bevy_mini_fps::aggregator::{
    format_fps, format_frame_time, format_percent, frames_per_second, memory_percent, rounded_div,
    DISPLAY_PERIOD_US, RESOURCE_PERIOD_US, SAMPLE_CAPACITY,
};
use bevy_mini_fps::text::{append_two_digits, decimal_text};
use bevy_mini_fps::{DiagnosticAggregator, DisplayBinding, ProbeReading, RingBuffer, ThrottleGate};

fn sorted(mut v: Vec<u32>) -> Vec<u32> {
    v.sort();
    v
}

#[test]
fn ring_len_counts_pushes_up_to_capacity() {
    let mut b: RingBuffer<8> = RingBuffer::new();
    assert!(b.is_empty());
    assert_eq!(b.len(), 0);
    for i in 0..8u32 {
        b.push(i);
        assert_eq!(b.len(), (i + 1) as usize);
        assert!(!b.is_empty());
    }
}

#[test]
fn ring_len_saturates_at_capacity() {
    let mut b: RingBuffer<8> = RingBuffer::new();
    for i in 0..20u32 {
        b.push(i);
    }
    assert_eq!(b.len(), 8);
    assert_eq!(b.iter().len(), 8);
}

#[test]
fn ring_wraparound_keeps_last_values() {
    let mut b: RingBuffer<4> = RingBuffer::new();
    for v in [10u32, 20, 30, 40, 50, 60] {
        b.push(v);
    }
    assert_eq!(b.len(), 4);
    assert_eq!(sorted(b.iter()), vec![30, 40, 50, 60]);
    assert_eq!(b.iter(), vec![50, 60, 30, 40]);
}

#[test]
fn ring_iter_before_full_is_in_push_order() {
    let mut b: RingBuffer<4> = RingBuffer::new();
    b.push(7);
    b.push(3);
    assert_eq!(b.iter(), vec![7, 3]);
}

#[test]
fn ring_capacity_one() {
    let mut b: RingBuffer<1> = RingBuffer::new();
    b.push(5);
    b.push(9);
    assert_eq!(b.len(), 1);
    assert_eq!(b.iter(), vec![9]);
}

#[test]
fn ring_total_and_largest() {
    let mut b: RingBuffer<4> = RingBuffer::new();
    assert_eq!(b.total(), 0);
    assert_eq!(b.largest(), 0);
    for v in [5u32, 17, 3, 8, 2] {
        b.push(v);
    }
    assert_eq!(b.total(), 17 + 3 + 8 + 2);
    assert_eq!(b.largest(), 17);
    b.push(1);
    assert_eq!(b.largest(), 8);
}

#[test]
fn ring_total_does_not_overflow() {
    let mut b: RingBuffer<4> = RingBuffer::new();
    for _ in 0..4 {
        b.push(u32::MAX);
    }
    assert_eq!(b.total(), 4 * u32::MAX as u128);
}

#[test]
fn gate_fires_once_and_keeps_excess() {
    let period = 50_000u64;
    let eps = 1_000u64;
    let mut g = ThrottleGate::new(period);
    assert!(!g.advance(period - eps));
    assert_eq!(g.accumulated(), period - eps);
    assert!(g.advance(2 * eps));
    assert_eq!(g.accumulated(), eps);
    assert!(!g.advance(period - eps));
    assert!(g.advance(1));
    assert_eq!(g.period(), period);
}

#[test]
fn gate_does_not_fire_at_exact_period() {
    let mut g = ThrottleGate::new(100);
    assert!(!g.advance(100));
    assert!(g.advance(1));
    assert_eq!(g.accumulated(), 1);
}

#[test]
fn gate_fires_only_once_for_many_periods() {
    let mut g = ThrottleGate::new(10);
    assert!(g.advance(35));
    assert_eq!(g.accumulated(), 25);
    assert!(g.advance(0));
    assert_eq!(g.accumulated(), 15);
}

#[test]
fn gate_can_advance_bound() {
    let mut g = ThrottleGate::new(u64::MAX);
    assert!(g.can_advance(u64::MAX));
    assert!(!g.advance(u64::MAX));
    assert!(!g.can_advance(1));
}

#[test]
fn binding_factory_runs_once() {
    let mut binding: DisplayBinding<u32> = DisplayBinding::new();
    assert!(!binding.is_created());
    let mut calls = 0u32;
    for _ in 0..5 {
        let h = binding.get_or_create(|| {
            calls += 1;
            [1, 2, 3, 4, 5]
        });
        assert_eq!(h, [1, 2, 3, 4, 5]);
    }
    assert_eq!(calls, 1);
    assert!(binding.is_created());
}

#[test]
fn binding_keeps_first_handles() {
    let mut binding: DisplayBinding<u8> = DisplayBinding::new();
    assert_eq!(binding.get_or_create(|| [9, 8, 7, 6, 5]), [9, 8, 7, 6, 5]);
    assert_eq!(binding.get_or_create(|| [0, 0, 0, 0, 0]), [9, 8, 7, 6, 5]);
}

#[test]
fn fps_of_ten_samples_of_ten_ms() {
    let mut b: RingBuffer<16> = RingBuffer::new();
    for _ in 0..10 {
        b.push(10_000);
    }
    assert_eq!(frames_per_second(b.len(), b.total()), Some(100));
    assert_eq!(format_fps(b.len(), b.total()), "100");
}

#[test]
fn fps_with_zero_duration_is_infinite() {
    assert_eq!(frames_per_second(3, 0), None);
    assert_eq!(format_fps(3, 0), "inf");
}

#[test]
fn fps_rounds_to_nearest() {
    // 3 frames in 0.07 s: 42.857...
    assert_eq!(frames_per_second(3, 70_000), Some(43));
    // 1 frame in 0.03 s: 33.33...
    assert_eq!(frames_per_second(1, 30_000), Some(33));
}

#[test]
fn rounding_ties_go_to_even() {
    assert_eq!(rounded_div(5, 2), 2);
    assert_eq!(rounded_div(7, 2), 4);
    assert_eq!(rounded_div(125, 10), 12);
    assert_eq!(rounded_div(126, 10), 13);
    assert_eq!(rounded_div(0, 10), 0);
}

#[test]
fn memory_percentage_of_quarter() {
    assert_eq!(memory_percent(50, 200), 25);
    assert_eq!(format_percent(memory_percent(50, 200)), "25%");
}

#[test]
fn memory_percentage_with_zero_total() {
    assert_eq!(memory_percent(50, 0), 0);
    assert_eq!(format_percent(memory_percent(50, 0)), "0%");
}

#[test]
fn memory_percentage_of_large_values() {
    assert_eq!(memory_percent(u64::MAX, u64::MAX), 100);
    assert_eq!(memory_percent(1, 3), 33);
}

#[test]
fn frame_time_text_has_two_decimals() {
    assert_eq!(format_frame_time(16_000), "16.00ms");
    assert_eq!(format_frame_time(16_667), "16.67ms");
    assert_eq!(format_frame_time(0), "0.00ms");
    assert_eq!(format_frame_time(1_234_560), "1234.56ms");
    assert_eq!(format_frame_time(30), "0.03ms");
}

#[test]
fn decimal_text_writes_digits() {
    assert_eq!(decimal_text(0), "0");
    assert_eq!(decimal_text(7), "7");
    assert_eq!(decimal_text(1234567890), "1234567890");
    assert_eq!(decimal_text(u128::MAX), u128::MAX.to_string());
}

#[test]
fn two_digits_are_padded() {
    let mut s = String::from("x");
    append_two_digits(&mut s, 5);
    assert_eq!(s, "x05");
    append_two_digits(&mut s, 42);
    assert_eq!(s, "x0542");
}

#[test]
fn aggregator_end_to_end() {
    let mut agg: DiagnosticAggregator<4, u32> = DiagnosticAggregator::new(200_000, 50_000);
    let mut fired = Vec::new();
    for _ in 0..4 {
        assert!(agg.can_tick(16_000));
        let actions = agg.tick(16_000);
        assert!(!actions.refresh_probe);
        fired.push(actions.refresh_display);
    }
    assert_eq!(fired, vec![false, false, false, true]);
    let probe = ProbeReading { cpu_percent: 37, used_memory: 50, total_memory: 200 };
    let texts = agg.texts(12, &probe);
    assert_eq!(texts.max_frame_time, "16.00ms");
    assert_eq!(texts.fps, "62");
    assert_eq!(texts.entity_count, "12");
    assert_eq!(texts.cpu_usage, "37%");
    assert_eq!(texts.memory_usage, "25%");
    assert_eq!(agg.samples().len(), 4);
}

#[test]
fn aggregator_builds_slots_once() {
    let mut agg: DiagnosticAggregator<4, u16> = DiagnosticAggregator::new(200_000, 50_000);
    let mut builds = 0u32;
    for i in 0..6u16 {
        agg.tick(16_000);
        let h = agg.slot_handles(|| {
            builds += 1;
            [i, i + 1, i + 2, i + 3, i + 4]
        });
        assert_eq!(h, [0, 1, 2, 3, 4]);
    }
    assert_eq!(builds, 1);
    assert_eq!(agg.samples().len(), 4);
}

#[test]
fn aggregator_resource_gate_fires_after_its_period() {
    let mut agg: DiagnosticAggregator<SAMPLE_CAPACITY, u32> =
        DiagnosticAggregator::new(RESOURCE_PERIOD_US, DISPLAY_PERIOD_US);
    let mut probe_ticks = Vec::new();
    for i in 0..30 {
        if agg.tick(16_000).refresh_probe {
            probe_ticks.push(i);
        }
    }
    // 13 ticks pass 0.2 s (0.208 s), the next refresh after 12 more (0.2 s more at 0.4 s).
    assert_eq!(probe_ticks, vec![12, 25]);
    assert_eq!(agg.samples().len(), 30);
}

#[test]
fn aggregator_texts_on_capacity_wrap() {
    let mut agg: DiagnosticAggregator<4, u32> = DiagnosticAggregator::new(200_000, 50_000);
    for d in [40_000u32, 10_000, 10_000, 10_000, 10_000] {
        agg.tick(d);
    }
    let probe = ProbeReading { cpu_percent: 0, used_memory: 0, total_memory: 0 };
    let texts = agg.texts(0, &probe);
    assert_eq!(texts.max_frame_time, "10.00ms");
    assert_eq!(texts.fps, "100");
    assert_eq!(texts.memory_usage, "0%");
}
