use mixcore::registry::SharedRegistry;
use mixcore::resource::{AudioResource, ConstantSource, ProduceError, ScriptedSource};
use mixcore::stream::{StreamBuffer, StreamInfo};
use mixcore::system::{AudioSystem, SampleFormat, SystemState};

fn info_stereo() -> StreamInfo {
    StreamInfo::new(44100, 2).unwrap()
}

fn fresh_buffer(info: StreamInfo) -> StreamBuffer {
    StreamBuffer { info, data: Vec::new() }
}

#[test]
fn half_and_minus_half_mix_to_silence() {
    // One resource at 0.5 (16384) and one at -0.5 (-16384), channels = 2,
    // frames = 4: every output slot is the mean 0.
    let info = info_stereo();
    let mut system: AudioSystem<ConstantSource> = AudioSystem::new(info, SampleFormat::I16);
    system.add_resource(ConstantSource::new(16384));
    system.add_resource(ConstantSource::new(-16384));
    let handle = system.registry_handle();
    let mut buf = fresh_buffer(info);
    handle.mix_pass(&mut buf, 8);
    assert_eq!(buf.data.len(), 8);
    for slot in &buf.data {
        assert_eq!(*slot, 0);
    }
}

#[test]
fn mix_is_mean_of_three_known_values() {
    let info = info_stereo();
    let registry: SharedRegistry<ConstantSource> = SharedRegistry::new();
    registry.add(ConstantSource::new(30000));
    registry.add(ConstantSource::new(0));
    registry.add(ConstantSource::new(-12000));
    let mut buf = fresh_buffer(info);
    registry.mix_pass(&mut buf, 4);
    for slot in &buf.data {
        assert_eq!(*slot, 6000); // (30000 + 0 - 12000) / 3
    }
}

#[test]
fn zero_resources_give_silence_for_any_size() {
    let info = info_stereo();
    let registry: SharedRegistry<ConstantSource> = SharedRegistry::new();
    for len in [0usize, 2, 16, 1024] {
        let mut buf = fresh_buffer(info);
        registry.mix_pass(&mut buf, len);
        assert_eq!(buf.data.len(), len);
        assert!(buf.data.iter().all(|s| *s == 0));
    }
}

#[test]
fn resource_added_between_passes_joins_the_next_pass_whole() {
    let info = info_stereo();
    let registry: SharedRegistry<ConstantSource> = SharedRegistry::new();
    registry.add(ConstantSource::new(10000));
    let mut buf = fresh_buffer(info);
    registry.mix_pass(&mut buf, 4);
    assert!(buf.data.iter().all(|s| *s == 10000));

    // A second handle (as the control thread would hold) adds one more
    // resource between two passes: the next pass sees both the new
    // contribution and the grown divisor at once.
    let control = registry.clone_handle();
    control.add(ConstantSource::new(20000));
    registry.mix_pass(&mut buf, 4);
    assert!(buf.data.iter().all(|s| *s == 15000));
}

#[test]
fn failed_production_contributes_silence_and_pass_completes() {
    let info = info_stereo();
    let registry: SharedRegistry<ScriptedSource> = SharedRegistry::new();
    registry.add(ScriptedSource::new(vec![
        Ok(20000),
        Err(ProduceError::Exhausted),
        Ok(-20000),
        Err(ProduceError::Decode),
    ]));
    let mut buf = fresh_buffer(info);
    registry.mix_pass(&mut buf, 6);
    assert_eq!(buf.data, vec![20000, 0, -20000, 0, 0, 0]);
}

#[test]
fn silence_on_error_substitutes_exactly_zero() {
    assert_eq!(mixcore::resource::silence_on_error(Err(ProduceError::Exhausted)), 0);
    assert_eq!(mixcore::resource::silence_on_error(Err(ProduceError::Decode)), 0);
    assert_eq!(mixcore::resource::silence_on_error(Ok(1234)), 1234);
    assert_eq!(mixcore::resource::silence_on_error(Ok(99999)), 32768);
}

#[test]
fn a_scripted_source_ticks_through_its_outcomes() {
    let info = info_stereo();
    let mut source = ScriptedSource::new(vec![Ok(5), Err(ProduceError::Exhausted)]);
    assert_eq!(source.tick(&info), 5);
    assert_eq!(source.tick(&info), 0);
    assert_eq!(source.tick(&info), 0); // exhausted: silence forever
}

#[test]
fn full_scale_constant_passes_through_the_mix_unscaled() {
    // A single full-scale source: the mean of one value is that value, so
    // the float-format branch hands 1.0 through unchanged.
    let info = info_stereo();
    let registry: SharedRegistry<ConstantSource> = SharedRegistry::new();
    registry.add(ConstantSource::new(32768));
    let mut buf = fresh_buffer(info);
    registry.mix_pass(&mut buf, 2);
    assert_eq!(buf.data, vec![32768, 32768]);
}

#[test]
fn run_then_one_shutdown_stops_the_stream_exactly_once() {
    let info = info_stereo();
    let mut system: AudioSystem<ConstantSource> = AudioSystem::new(info, SampleFormat::U16);
    assert_eq!(system.state, SystemState::Configured);
    let format = system.run();
    assert_eq!(format, SampleFormat::U16);
    assert_eq!(system.state, SystemState::Streaming);

    // The one shutdown delivery stops the stream...
    assert!(system.handle_shutdown());
    assert_eq!(system.state, SystemState::Stopped);
    // ...and a duplicate delivery never stops it a second time.
    assert!(!system.handle_shutdown());
    assert_eq!(system.state, SystemState::Stopped);
}
