use vstd::prelude::*;
use vstd::string::*;

use crate::display::DisplayBinding;
use crate::ring_buffer::{is_power_of_two, push_model, seq_max, seq_sum, RingBuffer};
use crate::text::{append_two_digits, decimal, decimal_text, two_digits};
use crate::throttle::{gate_fires, gate_next, ThrottleGate};

verus! {

/// Default number of frame-time samples kept.
pub const SAMPLE_CAPACITY: usize = 128;

/// Default period of the resource refresh, in microseconds.
pub const RESOURCE_PERIOD_US: u64 = 200_000;

/// Default period of the display refresh, in microseconds.
pub const DISPLAY_PERIOD_US: u64 = 50_000;

/// Samples and periods are in microseconds.
pub const MICROS_PER_SECOND: u128 = 1_000_000;

/// `n / d` rounded to the nearest integer, ties to the even one, as std's fixed-precision
/// formatting rounds. Meaningful for `d > 0`.
pub open spec fn round_div(n: int, d: int) -> int {
    let q = n / d;
    let rem = n % d;
    if 2 * rem > d || (2 * rem == d && q % 2 == 1) {
        q + 1
    } else {
        q
    }
}

/// Frames per second over `count` frames that lasted `total_us` microseconds in all,
/// rounded to the nearest integer. Meaningful for `total_us > 0`.
pub open spec fn fps_of(count: int, total_us: int) -> int {
    round_div(count * 1_000_000, total_us)
}

/// A frame time of `us` microseconds in hundredths of a millisecond, rounded to
/// the nearest.
pub open spec fn frame_time_hundredths(us: int) -> int {
    round_div(us, 10)
}

/// Used memory as a whole percentage of the total, or 0 when the total is 0.
pub open spec fn memory_percent_of(used: int, total: int) -> int {
    if total == 0 {
        0
    } else {
        used * 100 / total
    }
}

/// The FPS text: the rate in decimal, or `inf` when the samples have no duration.
pub open spec fn fps_text(count: int, total_us: int) -> Seq<char> {
    if total_us == 0 {
        seq!['i', 'n', 'f']
    } else {
        decimal(fps_of(count, total_us) as nat)
    }
}

/// A frame time of `us` microseconds as milliseconds with two decimals and a unit.
pub open spec fn frame_time_text(us: int) -> Seq<char> {
    let h = frame_time_hundredths(us);
    decimal((h / 100) as nat) + seq!['.'] + two_digits((h % 100) as nat) + seq!['m', 's']
}

/// A whole percentage followed by `%`.
pub open spec fn percent_text(p: int) -> Seq<char> {
    decimal(p as nat).push('%')
}

/// `n / d` rounded to the nearest integer, ties to the even one.
pub fn rounded_div(n: u128, d: u128) -> (r: u128)
    requires
        d > 0,
    ensures
        r == round_div(n as int, d as int),
{
    let q = n / d;
    let rem = n % d;
    proof {
        assert(q <= n) by (nonlinear_arith)
            requires
                q == n / d,
                d > 0,
        ;
    }
    if rem > d - rem || (rem == d - rem && q % 2 == 1) {
        proof {
            assert(q < n) by (nonlinear_arith)
                requires
                    q == n / d,
                    rem == n % d,
                    rem > 0,
                    d > 0,
            ;
        }
        q + 1
    } else {
        q
    }
}

/// The rounded frame rate of `count` frames lasting `total_us` microseconds, or
/// `None` when `total_us` is 0.
pub fn frames_per_second(count: usize, total_us: u128) -> (r: Option<u128>)
    ensures
        r.is_none() == (total_us == 0),
        r.is_some() ==> r.unwrap() == fps_of(count as int, total_us as int),
{
    if total_us == 0 {
        None
    } else {
        Some(rounded_div(count as u128 * MICROS_PER_SECOND, total_us))
    }
}

/// Used memory as a whole percentage of the total; 0 when the total is 0.
pub fn memory_percent(used: u64, total: u64) -> (r: u128)
    ensures
        r == memory_percent_of(used as int, total as int),
{
    if total == 0 {
        0
    } else {
        used as u128 * 100 / total as u128
    }
}

/// Writes the FPS slot's text.
pub fn format_fps(count: usize, total_us: u128) -> (r: String)
    ensures
        r@ == fps_text(count as int, total_us as int),
{
    match frames_per_second(count, total_us) {
        Some(v) => decimal_text(v),
        None => {
            let r = String::from_str("inf");
            proof {
                reveal_strlit("inf");
            }
            assert(r@ =~= seq!['i', 'n', 'f']);
            r
        },
    }
}

/// Writes a frame time given in microseconds as `<ms>.<two digits>ms`.
pub fn format_frame_time(us: u32) -> (r: String)
    ensures
        r@ == frame_time_text(us as int),
{
    let h: u128 = rounded_div(us as u128, 10);
    let mut s = decimal_text(h / 100);
    proof {
        reveal_strlit(".");
        reveal_strlit("ms");
    }
    s.append(".");
    append_two_digits(&mut s, h % 100);
    s.append("ms");
    assert(s@ =~= frame_time_text(us as int));
    s
}

/// Writes a whole percentage followed by `%`.
pub fn format_percent(p: u128) -> (r: String)
    ensures
        r@ == percent_text(p as int),
{
    let mut s = decimal_text(p);
    proof {
        reveal_strlit("%");
    }
    s.append("%");
    assert(s@ =~= percent_text(p as int));
    s
}

/// What the host is to do after a tick.
pub struct TickActions {
    /// Refresh the CPU and memory readings.
    pub refresh_probe: bool,
    /// Rewrite the five display slots.
    pub refresh_display: bool,
}

/// The latest CPU and memory readings of the resource probe.
pub struct ProbeReading {
    /// CPU usage, truncated to a whole percentage.
    pub cpu_percent: u32,
    /// Used memory, in bytes.
    pub used_memory: u64,
    /// Total memory, in bytes.
    pub total_memory: u64,
}

/// The texts of the five display slots.
pub struct DisplayTexts {
    pub fps: String,
    pub max_frame_time: String,
    pub entity_count: String,
    pub cpu_usage: String,
    pub memory_usage: String,
}

/// The per-tick state of the overlay: recent frame times, the two refresh gates,
/// and the handles `H` of the five value slots once they are built.
pub struct DiagnosticAggregator<const N: usize, H> {
    samples: RingBuffer<N>,
    resource_gate: ThrottleGate,
    display_gate: ThrottleGate,
    binding: DisplayBinding<H>,
}

impl<const N: usize, H: Copy> DiagnosticAggregator<N, H> {
    pub closed spec fn wf(&self) -> bool {
        &&& self.samples.wf()
        &&& self.binding.wf()
    }

    pub closed spec fn slot_binding(&self) -> DisplayBinding<H> {
        self.binding
    }

    pub closed spec fn sample_buffer(&self) -> RingBuffer<N> {
        self.samples
    }

    pub closed spec fn resource(&self) -> ThrottleGate {
        self.resource_gate
    }

    pub closed spec fn display(&self) -> ThrottleGate {
        self.display_gate
    }

    /// Whether both gates can take `delta_us` more.
    pub open spec fn spec_can_tick(&self, delta_us: u32) -> bool {
        &&& self.resource().spec_accumulated() + delta_us <= u64::MAX
        &&& self.display().spec_accumulated() + delta_us <= u64::MAX
    }

    pub fn new(resource_period_us: u64, display_period_us: u64) -> (r: Self)
        requires
            is_power_of_two(N),
        ensures
            r.wf(),
            r.sample_buffer().contents() == Seq::<u32>::empty(),
            r.resource().spec_accumulated() == 0,
            r.resource().spec_period() == resource_period_us,
            r.display().spec_accumulated() == 0,
            r.display().spec_period() == display_period_us,
            r.slot_binding().cached().is_none(),
            r.slot_binding().builds() == 0,
    {
        DiagnosticAggregator {
            samples: RingBuffer::new(),
            resource_gate: ThrottleGate::new(resource_period_us),
            display_gate: ThrottleGate::new(display_period_us),
            binding: DisplayBinding::new(),
        }
    }

    pub fn samples(&self) -> (r: &RingBuffer<N>)
        ensures
            *r == self.sample_buffer(),
    {
        &self.samples
    }

    pub fn can_tick(&self, delta_us: u32) -> (r: bool)
        ensures
            r == self.spec_can_tick(delta_us),
    {
        self.resource_gate.can_advance(delta_us as u64) && self.display_gate.can_advance(
            delta_us as u64,
        )
    }

    /// Records one frame of `delta_us` microseconds and advances both gates by it.
    pub fn tick(&mut self, delta_us: u32) -> (r: TickActions)
        requires
            old(self).wf(),
            old(self).spec_can_tick(delta_us),
        ensures
            final(self).wf(),
            final(self).sample_buffer().contents() == push_model(
                old(self).sample_buffer().contents(),
                delta_us,
                N as nat,
            ),
            r.refresh_probe == gate_fires(
                old(self).resource().spec_accumulated() as int,
                old(self).resource().spec_period() as int,
                delta_us as int,
            ),
            final(self).resource().spec_accumulated() == gate_next(
                old(self).resource().spec_accumulated() as int,
                old(self).resource().spec_period() as int,
                delta_us as int,
            ),
            final(self).resource().spec_period() == old(self).resource().spec_period(),
            r.refresh_display == gate_fires(
                old(self).display().spec_accumulated() as int,
                old(self).display().spec_period() as int,
                delta_us as int,
            ),
            final(self).display().spec_accumulated() == gate_next(
                old(self).display().spec_accumulated() as int,
                old(self).display().spec_period() as int,
                delta_us as int,
            ),
            final(self).display().spec_period() == old(self).display().spec_period(),
            final(self).slot_binding() == old(self).slot_binding(),
    {
        self.samples.push(delta_us);
        let refresh_probe = self.resource_gate.advance(delta_us as u64);
        let refresh_display = self.display_gate.advance(delta_us as u64);
        TickActions { refresh_probe, refresh_display }
    }

    /// The handles of the five value slots; on the first call, runs `factory` to build
    /// them. Samples and gates are left as they are.
    pub fn slot_handles<F: FnOnce() -> [H; 5]>(&mut self, factory: F) -> (r: [H; 5])
        requires
            old(self).wf(),
            old(self).slot_binding().cached().is_none() ==> factory.requires(()),
        ensures
            final(self).wf(),
            final(self).sample_buffer() == old(self).sample_buffer(),
            final(self).resource() == old(self).resource(),
            final(self).display() == old(self).display(),
            final(self).slot_binding().cached() == Some(r),
            old(self).slot_binding().cached().is_some() ==> r == old(self).slot_binding().cached()
                .unwrap(),
            old(self).slot_binding().cached().is_some() ==> final(self).slot_binding().builds()
                == old(self).slot_binding().builds(),
            old(self).slot_binding().cached().is_none() ==> factory.ensures((), r),
            old(self).slot_binding().cached().is_none() ==> final(self).slot_binding().builds()
                == old(self).slot_binding().builds() + 1,
    {
        self.binding.get_or_create(factory)
    }

    /// However often the handles are asked for, the slots are built at most once,
    /// and exactly once when they exist.
    pub proof fn lemma_slots_built_at_most_once(&self)
        requires
            self.wf(),
        ensures
            self.slot_binding().builds() <= 1,
            self.slot_binding().cached().is_some() <==> self.slot_binding().builds() == 1,
    {
        self.binding.lemma_built_at_most_once();
    }

    /// The texts of the five slots, from the samples held, the host's live object
    /// count and the latest probe reading.
    pub fn texts(&self, entity_count: usize, probe: &ProbeReading) -> (r: DisplayTexts)
        requires
            self.wf(),
        ensures
            r.fps@ == fps_text(
                self.sample_buffer().slots().len() as int,
                seq_sum(self.sample_buffer().slots()),
            ),
            r.max_frame_time@ == frame_time_text(seq_max(self.sample_buffer().slots()) as int),
            r.entity_count@ == decimal(entity_count as nat),
            r.cpu_usage@ == percent_text(probe.cpu_percent as int),
            r.memory_usage@ == percent_text(
                memory_percent_of(probe.used_memory as int, probe.total_memory as int),
            ),
    {
        DisplayTexts {
            fps: format_fps(self.samples.len(), self.samples.total()),
            max_frame_time: format_frame_time(self.samples.largest()),
            entity_count: decimal_text(entity_count as u128),
            cpu_usage: format_percent(probe.cpu_percent as u128),
            memory_usage: format_percent(memory_percent(probe.used_memory, probe.total_memory)),
        }
    }
}

} // verus!
