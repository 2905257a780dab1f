pub mod aggregator;
pub mod display;
pub mod ring_buffer;
pub mod text;
pub mod throttle;

pub use aggregator::{DiagnosticAggregator, DisplayTexts, ProbeReading, TickActions};
pub use display::DisplayBinding;
pub use ring_buffer::RingBuffer;
pub use throttle::ThrottleGate;
