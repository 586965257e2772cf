use coreaudio::audio_unit::construction::Progress;
use coreaudio::audio_unit::property::property_value;
use coreaudio::audio_unit::render::{
    channel_views, holds_frames, input_proc, render_status, Rendered,
};
use coreaudio::audio_unit::{AudioUnit, Type};
use coreaudio::engine::{Call, Reply};
use coreaudio::error::Error;

#[test]
fn success_is_status_zero() {
    assert_eq!(render_status(Ok(())), Rendered { status: 0, failure: None });
}

#[test]
fn failure_is_no_connection_with_the_description() {
    assert_eq!(
        render_status(Err(String::from("out of samples"))),
        Rendered {
            status: -10876,
            failure: Some(Error::CallbackFailed(String::from("out of samples"))),
        }
    );
}

#[test]
fn views_are_prefixes_of_the_buffers() {
    let mut left: Vec<f32> = vec![1.0, 2.0, 3.0, 4.0];
    let mut right: Vec<f32> = vec![5.0, 6.0, 7.0];
    {
        let buffers: Vec<&mut [f32]> = vec![&mut left[..], &mut right[..]];
        let views = channel_views(buffers, 3);
        assert_eq!(views.len(), 2);
        assert_eq!(views[0], &[1.0, 2.0, 3.0][..]);
        assert_eq!(views[1], &[5.0, 6.0, 7.0][..]);
        for view in views {
            view[0] = 0.0;
        }
    }
    assert_eq!(left, vec![0.0, 2.0, 3.0, 4.0]);
    assert_eq!(right, vec![0.0, 6.0, 7.0]);
}

#[test]
fn views_of_no_frames_are_empty() {
    let mut left: Vec<f32> = vec![1.0, 2.0];
    let buffers: Vec<&mut [f32]> = vec![&mut left[..]];
    let views = channel_views(buffers, 0);
    assert_eq!(views.len(), 1);
    assert!(views[0].is_empty());
    let none: Vec<&mut [f32]> = Vec::new();
    assert!(channel_views(none, 5).is_empty());
}

#[test]
fn holds_frames_checks_every_buffer() {
    let mut left: Vec<f32> = vec![0.0; 4];
    let mut right: Vec<f32> = vec![0.0; 3];
    let buffers: Vec<&mut [f32]> = vec![&mut left[..], &mut right[..]];
    assert!(holds_frames(&buffers, 0));
    assert!(holds_frames(&buffers, 3));
    assert!(!holds_frames(&buffers, 4));
    assert!(!holds_frames(&buffers, 5));
    let none: Vec<&mut [f32]> = Vec::new();
    assert!(holds_frames(&none, 1000));
}

#[test]
fn trampoline_presents_two_views_of_512_frames() {
    let mut left: Vec<f32> = vec![0.5; 512];
    let mut right: Vec<f32> = vec![0.5; 512];
    let mut seen: Vec<usize> = Vec::new();
    let mut frames_seen = 0;
    let mut callback = |channels: &mut [&mut [f32]], frames: usize| -> Result<(), String> {
        for channel in channels.iter() {
            seen.push(channel.len());
        }
        frames_seen = frames;
        Ok(())
    };
    let rendered = input_proc(&mut callback, 512, vec![&mut left[..], &mut right[..]]);
    assert_eq!(rendered, Rendered { status: 0, failure: None });
    assert_eq!(seen, vec![512, 512]);
    assert_eq!(frames_seen, 512);
}

#[test]
fn trampoline_views_stop_at_the_frame_count() {
    let mut left: Vec<f32> = vec![1.0; 8];
    let mut right: Vec<f32> = vec![2.0; 6];
    let mut callback = |channels: &mut [&mut [f32]], frames: usize| -> Result<(), String> {
        assert_eq!(channels.len(), 2);
        for channel in channels.iter_mut() {
            assert_eq!(channel.len(), frames);
            for sample in channel.iter_mut() {
                *sample = 9.0;
            }
        }
        Ok(())
    };
    let rendered = input_proc(&mut callback, 5, vec![&mut left[..], &mut right[..]]);
    assert_eq!(rendered.status, 0);
    assert_eq!(left, vec![9.0, 9.0, 9.0, 9.0, 9.0, 1.0, 1.0, 1.0]);
    assert_eq!(right, vec![9.0, 9.0, 9.0, 9.0, 9.0, 2.0]);
}

#[test]
fn trampoline_with_no_channels_still_calls() {
    let mut calls = 0;
    let mut callback = |channels: &mut [&mut [f32]], frames: usize| -> Result<(), String> {
        assert!(channels.is_empty());
        assert_eq!(frames, 64);
        calls += 1;
        Ok(())
    };
    let rendered = input_proc(&mut callback, 64, Vec::new());
    assert_eq!(rendered.status, 0);
    assert_eq!(calls, 1);
}

#[test]
fn trampoline_translates_a_failure() {
    let mut left: Vec<f32> = vec![0.0; 16];
    let mut callback = |_channels: &mut [&mut [f32]], _frames: usize| -> Result<(), String> {
        Err(String::from("no more audio"))
    };
    let rendered = input_proc(&mut callback, 16, vec![&mut left[..]]);
    assert_eq!(rendered.status, -10876);
    assert_eq!(rendered.failure, Some(Error::CallbackFailed(String::from("no more audio"))));
}

#[test]
fn trampoline_keeps_no_state_between_cycles() {
    let mut left: Vec<f32> = vec![0.0; 4];
    let mut cycle = 0;
    let mut callback = |channels: &mut [&mut [f32]], _frames: usize| -> Result<(), String> {
        cycle += 1;
        if cycle == 2 {
            return Err(String::from("second cycle"));
        }
        channels[0][0] = cycle as f32;
        Ok(())
    };
    assert_eq!(input_proc(&mut callback, 4, vec![&mut left[..]]).status, 0);
    assert_eq!(input_proc(&mut callback, 4, vec![&mut left[..]]).status, -10876);
    assert_eq!(input_proc(&mut callback, 2, vec![&mut left[..]]).status, 0);
    assert_eq!(left, vec![3.0, 0.0, 0.0, 0.0]);
}

#[test]
fn end_to_end_silence() {
    let ty = Type { code: 1635086197, subtype: Some(1684366880) };
    let finding = AudioUnit::new(ty).unwrap();
    match finding.call() {
        Call::FindNext { description } => {
            assert_eq!(description.component_manufacturer, 1634758764)
        }
        _ => panic!("construction should start at discovery"),
    }
    let instantiating = match finding.advance(Reply { status: 0, handle: 3 }) {
        Progress::Pending(next) => next,
        _ => panic!("discovery should lead on"),
    };
    let initializing = match instantiating.advance(Reply { status: 0, handle: 8 }) {
        Progress::Pending(next) => next,
        _ => panic!("creation should lead on"),
    };
    let mut unit = match initializing.advance(Reply { status: 0, handle: 0 }) {
        Progress::Ready(unit) => unit,
        _ => panic!("initialization should yield the unit"),
    };

    let rate = 44100.0f64.to_bits();
    let write = unit.set_sample_rate(&rate);
    assert_eq!(f64::from_bits(*write.data.unwrap()), 44100.0);
    assert_eq!(Error::from_os_status(0), Ok(()));
    assert_eq!(property_value(0, rate).map(f64::from_bits), Ok(44100.0));

    let mut callback = |channels: &mut [&mut [f32]], _frames: usize| -> Result<(), String> {
        for channel in channels.iter_mut() {
            for sample in channel.iter_mut() {
                *sample = 0.0;
            }
        }
        Ok(())
    };
    let registration = unit.set_render_callback(Some(4096));
    assert_eq!(unit.attached(registration, 0).result, Ok(()));
    assert_eq!(unit.render_callback(), Some(4096));
    assert_eq!(unit.start(), Call::Start { instance: 8 });

    let mut left: Vec<f32> = vec![1.0; 256];
    let mut right: Vec<f32> = vec![-1.0; 256];
    let rendered = input_proc(&mut callback, 256, vec![&mut left[..], &mut right[..]]);
    assert_eq!(rendered, Rendered { status: 0, failure: None });
    assert_eq!(left.len(), 256);
    assert_eq!(right.len(), 256);
    assert!(left.iter().all(|sample| *sample == 0.0));
    assert!(right.iter().all(|sample| *sample == 0.0));
}
