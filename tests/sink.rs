use mrbncm::output::{
    ring_len, select_output_config, BufferShape, ResamplerSlot, StreamChoice, SupportedConfig,
    WritePlan,
};

fn cfg(channels: u16, min: u32, max: u32) -> SupportedConfig {
    SupportedConfig { channels, min_sample_rate: min, max_sample_rate: max }
}

#[test]
fn prefers_more_channels_then_higher_minimum_rate() {
    let configs = vec![cfg(1, 8000, 48000), cfg(2, 44100, 48000), cfg(2, 48000, 96000), cfg(6, 8000, 48000)];
    let choice = select_output_config(&configs);
    assert_eq!(choice, StreamChoice { channels: 6, sample_rate: 8000, chosen: Some(3) });
}

#[test]
fn channels_outrank_a_higher_minimum_rate() {
    let configs = vec![cfg(8, 44100, 48000), cfg(2, 48000, 96000)];
    let choice = select_output_config(&configs);
    assert_eq!(choice, StreamChoice { channels: 8, sample_rate: 44100, chosen: Some(0) });
}

#[test]
fn equal_channels_prefer_the_higher_minimum_rate() {
    let configs = vec![cfg(2, 44100, 48000), cfg(2, 48000, 96000), cfg(2, 8000, 192000)];
    let choice = select_output_config(&configs);
    assert_eq!(choice, StreamChoice { channels: 2, sample_rate: 48000, chosen: Some(1) });
}

#[test]
fn a_single_low_config_is_taken() {
    let configs = vec![cfg(1, 0, 8000), cfg(1, 0, 8000)];
    let choice = select_output_config(&configs);
    assert_eq!(choice, StreamChoice { channels: 1, sample_rate: 0, chosen: Some(0) });
}

#[test]
fn no_configs_gives_two_channels_at_rate_zero() {
    let choice = select_output_config(&Vec::new());
    assert_eq!(choice, StreamChoice { channels: 2, sample_rate: 0, chosen: None });
}

#[test]
fn ring_holds_about_200_ms() {
    assert_eq!(ring_len(44100, 2), 17640);
    assert_eq!(ring_len(48000, 6), 57600);
    assert_eq!(ring_len(4, 2), 0);
    assert_eq!(ring_len(u32::MAX, u16::MAX), (200 * u32::MAX as u64 / 1000) * u16::MAX as u64);
}

fn shape(rate: u32) -> BufferShape {
    BufferShape { rate, channels: 3, capacity: 1152 }
}

#[test]
fn resampler_rebuilds_once_per_rate_change() {
    let mut slot = ResamplerSlot::new();
    let rates = [44100, 44100, 44100, 48000, 48000, 44100, 44100];
    let plans: Vec<WritePlan> = rates.iter().map(|r| slot.prepare_write(1152, shape(*r))).collect();
    assert_eq!(
        plans,
        vec![
            WritePlan::Rebuild,
            WritePlan::Reuse,
            WritePlan::Reuse,
            WritePlan::Rebuild,
            WritePlan::Reuse,
            WritePlan::Rebuild,
            WritePlan::Reuse,
        ]
    );
}

#[test]
fn empty_buffers_are_skipped_without_rebuilding() {
    let mut slot = ResamplerSlot::new();
    assert_eq!(slot.prepare_write(0, shape(44100)), WritePlan::Skip);
    assert_eq!(slot.prepare_write(10, shape(44100)), WritePlan::Rebuild);
    assert_eq!(slot.prepare_write(0, shape(48000)), WritePlan::Skip);
    assert_eq!(slot.prepare_write(10, shape(44100)), WritePlan::Reuse);
}

#[test]
fn capacity_change_rebuilds() {
    let mut slot = ResamplerSlot::new();
    assert_eq!(slot.prepare_write(10, shape(44100)), WritePlan::Rebuild);
    let bigger = BufferShape { capacity: 4096, ..shape(44100) };
    assert_eq!(slot.prepare_write(10, bigger), WritePlan::Rebuild);
    let other_channels = BufferShape { channels: 1, ..bigger };
    assert_eq!(slot.prepare_write(10, other_channels), WritePlan::Rebuild);
}
