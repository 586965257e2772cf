use coreaudio::audio_unit::callback::{Attachment, CallbackRegistration};
use coreaudio::audio_unit::construction::{Construction, Progress};
use coreaudio::audio_unit::property::PropertyAddress;
use coreaudio::audio_unit::teardown::Ending;
use coreaudio::audio_unit::AudioUnit;
use coreaudio::engine::Reply;
use coreaudio::error::Error;

fn unit() -> AudioUnit {
    let state = Construction::Initializing { instance: 42 };
    match state.advance(Reply { status: 0, handle: 0 }) {
        Progress::Ready(unit) => unit,
        _ => panic!("initialization should yield the unit"),
    }
}

fn count(released: &Vec<usize>, context: usize) -> usize {
    released.iter().filter(|c| **c == context).count()
}

#[test]
fn registration_is_a_property_write() {
    let unit = unit();
    let registration = unit.set_render_callback(Some(4096));
    assert_eq!(
        registration,
        CallbackRegistration {
            address: PropertyAddress { instance: 42, id: 23, scope: 1, element: 0 },
            context: 4096,
            size: (2 * std::mem::size_of::<usize>()) as u32,
        }
    );
}

#[test]
fn no_callback_registers_the_null_context() {
    let unit = unit();
    let registration = unit.set_render_callback(None);
    assert_eq!(registration.context, 0);
    assert_eq!(registration.address.id, 23);
    assert_eq!(registration.size, (2 * std::mem::size_of::<usize>()) as u32);
}

#[test]
fn registering_changes_nothing_yet() {
    let unit = unit();
    let _ = unit.set_render_callback(Some(4096));
    assert_eq!(unit.render_callback(), None);
}

#[test]
fn accepted_callback_is_attached() {
    let mut unit = unit();
    let registration = unit.set_render_callback(Some(4096));
    let attachment = unit.attached(registration, 0);
    assert_eq!(attachment, Attachment { result: Ok(()), released: None });
    assert_eq!(unit.render_callback(), Some(4096));
}

#[test]
fn replacing_releases_the_old_callback_once() {
    let mut unit = unit();
    let mut released = Vec::new();
    let a = unit.set_render_callback(Some(1000));
    released.extend(unit.attached(a, 0).released);
    let b = unit.set_render_callback(Some(2000));
    let attachment = unit.attached(b, 0);
    assert_eq!(attachment.result, Ok(()));
    assert_eq!(attachment.released, Some(1000));
    released.extend(attachment.released);
    assert_eq!(unit.render_callback(), Some(2000));
    assert_eq!(count(&released, 1000), 1);
    assert_eq!(count(&released, 2000), 0);
    match unit.destroy().advance(Reply { status: 0, handle: 0 }) {
        Ending::Pending(next) => match next.advance(Reply { status: 0, handle: 0 }) {
            Ending::Released { callback } => released.extend(callback),
            _ => panic!("an uninitialized unit should release its callback"),
        },
        _ => panic!("a stopped unit should go on to uninitialize"),
    }
    assert_eq!(released, vec![1000, 2000]);
}

#[test]
fn refused_callback_is_released_and_old_one_stays() {
    let mut unit = unit();
    let a = unit.set_render_callback(Some(1000));
    let _ = unit.attached(a, 0);
    let b = unit.set_render_callback(Some(2000));
    let attachment = unit.attached(b, -10879);
    assert_eq!(attachment.result, Err(Error::NativeStatus(-10879)));
    assert_eq!(attachment.released, Some(2000));
    assert_eq!(unit.render_callback(), Some(1000));
}

#[test]
fn refused_first_callback_leaves_none_attached() {
    let mut unit = unit();
    let a = unit.set_render_callback(Some(1000));
    let attachment = unit.attached(a, 1);
    assert_eq!(attachment, Attachment { result: Err(Error::NativeStatus(1)), released: Some(1000) });
    assert_eq!(unit.render_callback(), None);
}

#[test]
fn removing_releases_the_attached_callback() {
    let mut unit = unit();
    let a = unit.set_render_callback(Some(1000));
    let _ = unit.attached(a, 0);
    let none = unit.set_render_callback(None);
    let attachment = unit.attached(none, 0);
    assert_eq!(attachment, Attachment { result: Ok(()), released: Some(1000) });
    assert_eq!(unit.render_callback(), None);
}

#[test]
fn refused_removal_releases_nothing() {
    let mut unit = unit();
    let a = unit.set_render_callback(Some(1000));
    let _ = unit.attached(a, 0);
    let none = unit.set_render_callback(None);
    let attachment = unit.attached(none, -1);
    assert_eq!(attachment, Attachment { result: Err(Error::NativeStatus(-1)), released: None });
    assert_eq!(unit.render_callback(), Some(1000));
}

#[test]
fn null_context_counts_as_no_callback() {
    let mut unit = unit();
    let null = unit.set_render_callback(Some(0));
    assert_eq!(null.context, 0);
    let attachment = unit.attached(null, 0);
    assert_eq!(attachment, Attachment { result: Ok(()), released: None });
    assert_eq!(unit.render_callback(), None);
}

#[test]
fn free_render_callback_gives_the_callback_up() {
    let mut unit = unit();
    assert_eq!(unit.free_render_callback(), None);
    let a = unit.set_render_callback(Some(1000));
    let _ = unit.attached(a, 0);
    assert_eq!(unit.free_render_callback(), Some(1000));
    assert_eq!(unit.render_callback(), None);
    assert_eq!(unit.free_render_callback(), None);
    assert_eq!(unit.instance(), 42);
}

#[test]
fn every_callback_is_released_exactly_once() {
    let mut unit = unit();
    let mut released = Vec::new();
    let attempts: [(usize, i32); 6] =
        [(10, 0), (20, -5), (30, 0), (0, -1), (40, 0), (50, 7)];
    for (context, status) in attempts {
        let registration = unit.set_render_callback(if context == 0 { None } else { Some(context) });
        released.extend(unit.attached(registration, status).released);
        let held = unit.render_callback();
        for (handed, _) in attempts {
            if handed != 0 {
                let live = usize::from(held == Some(handed));
                assert!(count(&released, handed) + live <= 1);
            }
        }
    }
    assert_eq!(released, vec![20, 10, 30, 50]);
    assert_eq!(unit.render_callback(), Some(40));
    released.extend(unit.free_render_callback());
    for (handed, _) in attempts {
        if handed != 0 {
            assert_eq!(count(&released, handed), 1);
        }
    }
}
