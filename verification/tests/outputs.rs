use std::time::Duration;

use calloop::channel::{channel, Event};
use calloop::EventLoop;
use wayland_displays::outputs::{
    Mode, ModeFlags, Output, OutputEvent, Publication, Subpixel, Transform, DEFAULT_SCALE,
    MODE_CURRENT, MODE_PREFERRED,
};

fn geometry(x: i32, y: i32, make: &str, model: &str) -> OutputEvent {
    OutputEvent::Geometry {
        x,
        y,
        physical_width: 600,
        physical_height: 340,
        subpixel: Subpixel::HorizontalRgb,
        make: make.to_string(),
        model: model.to_string(),
        transform: Transform::Rotated90,
    }
}

fn mode(bits: u32, width: i32, height: i32, refresh: i32) -> OutputEvent {
    OutputEvent::Mode { flags: ModeFlags::from_bits(bits), width, height, refresh }
}

#[test]
fn new_output_holds_placeholders_and_awaits_its_first_burst() {
    let output = Output::new(7, 31, 1000);
    assert_eq!(output.gid, 7);
    assert_eq!(output.id(), 31);
    assert_eq!(output.x, 0);
    assert_eq!(output.y, 0);
    assert_eq!(output.physical_width, 0);
    assert_eq!(output.physical_height, 0);
    assert_eq!(output.subpixel, Subpixel::Unknown);
    assert_eq!(output.make, "");
    assert_eq!(output.model, "");
    assert_eq!(output.transform, Transform::Normal);
    assert_eq!(output.scale, 1);
    assert_eq!(output.current_mode, None);
    assert_eq!(output.preferred_mode, None);
    assert!(output.update_in_progress);
    assert_eq!(output.last_update, 1000);
    assert!(!output.changed(0));
}

#[test]
fn geometry_mode_scale_done_publishes_the_burst() {
    let mut output = Output::new(1, 2, 0);
    assert!(output.apply(geometry(10, 20, "ACME", "X200"), 1).is_none());
    assert!(output.apply(mode(MODE_CURRENT, 1920, 1080, 60), 2).is_none());
    assert!(output.apply(OutputEvent::Scale { factor: 2 }, 3).is_none());
    let snapshot = output.apply(OutputEvent::Done, 4).expect("done publishes");
    assert_eq!(snapshot.x, 10);
    assert_eq!(snapshot.y, 20);
    assert_eq!(snapshot.scale, 2);
    assert_eq!(snapshot.current_mode, Some(Mode { width: 1920, height: 1080, refresh: 60 }));
    assert!(!snapshot.update_in_progress);
    assert_eq!(snapshot.physical_width, 600);
    assert_eq!(snapshot.physical_height, 340);
    assert_eq!(snapshot.subpixel, Subpixel::HorizontalRgb);
    assert_eq!(snapshot.make, "ACME");
    assert_eq!(snapshot.model, "X200");
    assert_eq!(snapshot.transform, Transform::Rotated90);
    assert_eq!(snapshot.preferred_mode, None);
    assert_eq!(snapshot.last_update, 4);
    assert_eq!(snapshot.gid, 1);
    assert_eq!(snapshot.id(), 2);
    assert_eq!(snapshot, output);
}

#[test]
fn two_modes_without_done_are_not_reported_until_done() {
    let mut output = Output::new(1, 2, 0);
    output.apply(OutputEvent::Done, 5);
    assert!(output.changed(0));
    output.apply(mode(MODE_CURRENT, 1920, 1080, 60), 6);
    output.apply(mode(MODE_PREFERRED, 2560, 1440, 60), 7);
    assert!(!output.changed(0));
    assert!(!output.changed(6));
    let snapshot = output.apply(OutputEvent::Done, 8).expect("done publishes");
    assert_eq!(snapshot.current_mode, Some(Mode { width: 1920, height: 1080, refresh: 60 }));
    assert_eq!(snapshot.preferred_mode, Some(Mode { width: 2560, height: 1440, refresh: 60 }));
    assert!(output.changed(0));
    assert!(output.changed(7));
}

#[test]
fn a_mode_with_both_flags_is_current_and_preferred() {
    let mut output = Output::new(1, 2, 0);
    output.apply(mode(MODE_CURRENT | MODE_PREFERRED, 800, 600, 75), 1);
    let both = Some(Mode { width: 800, height: 600, refresh: 75 });
    assert_eq!(output.current_mode, both);
    assert_eq!(output.preferred_mode, both);
    assert!(output.update_in_progress);
}

#[test]
fn a_mode_with_neither_flag_only_opens_an_update() {
    let mut output = Output::new(1, 2, 0);
    output.apply(mode(MODE_CURRENT, 800, 600, 75), 1);
    output.apply(OutputEvent::Done, 2);
    output.apply(mode(0, 1024, 768, 60), 3);
    assert_eq!(output.current_mode, Some(Mode { width: 800, height: 600, refresh: 75 }));
    assert_eq!(output.preferred_mode, None);
    assert!(output.update_in_progress);
    output.apply(mode(4, 1024, 768, 60), 3);
    assert_eq!(output.current_mode, Some(Mode { width: 800, height: 600, refresh: 75 }));
    assert_eq!(output.preferred_mode, None);
}

#[test]
fn the_last_value_written_to_each_field_is_published() {
    let mut output = Output::new(1, 2, 0);
    output.apply(OutputEvent::Scale { factor: 3 }, 1);
    output.apply(geometry(1, 1, "first", "one"), 1);
    output.apply(mode(MODE_CURRENT, 640, 480, 60), 1);
    output.apply(mode(MODE_PREFERRED, 1280, 720, 60), 1);
    output.apply(geometry(-5, 9, "second", "two"), 1);
    output.apply(mode(MODE_CURRENT, 1920, 1200, 59), 1);
    output.apply(OutputEvent::Scale { factor: 2 }, 1);
    let snapshot = output.apply(OutputEvent::Done, 2).expect("done publishes");
    assert_eq!(snapshot.x, -5);
    assert_eq!(snapshot.y, 9);
    assert_eq!(snapshot.make, "second");
    assert_eq!(snapshot.model, "two");
    assert_eq!(snapshot.scale, 2);
    assert_eq!(snapshot.current_mode, Some(Mode { width: 1920, height: 1200, refresh: 59 }));
    assert_eq!(snapshot.preferred_mode, Some(Mode { width: 1280, height: 720, refresh: 60 }));
    assert!(!snapshot.update_in_progress);
}

#[test]
fn a_later_burst_keeps_what_it_does_not_write() {
    let mut output = Output::new(1, 2, 0);
    output.apply(geometry(10, 20, "ACME", "X200"), 1);
    output.apply(OutputEvent::Scale { factor: 2 }, 1);
    output.apply(OutputEvent::Done, 2);
    output.apply(mode(MODE_CURRENT, 1920, 1080, 60), 3);
    let snapshot = output.apply(OutputEvent::Done, 4).expect("done publishes");
    assert_eq!(snapshot.x, 10);
    assert_eq!(snapshot.y, 20);
    assert_eq!(snapshot.scale, 2);
    assert_eq!(snapshot.make, "ACME");
    assert_eq!(snapshot.current_mode, Some(Mode { width: 1920, height: 1080, refresh: 60 }));
}

#[test]
fn no_change_is_reported_between_a_property_event_and_done() {
    let events = vec![
        geometry(1, 2, "a", "b"),
        mode(MODE_CURRENT, 1, 2, 3),
        OutputEvent::Scale { factor: 4 },
    ];
    for event in events {
        let mut output = Output::new(1, 2, 0);
        output.apply(OutputEvent::Done, 100);
        assert!(output.changed(99));
        assert!(output.apply(event, 101).is_none());
        assert!(output.update_in_progress);
        assert!(!output.changed(0));
        assert!(!output.changed(99));
        assert!(output.apply(OutputEvent::Unknown, 102).is_none());
        assert!(!output.changed(0));
        assert!(output.apply(OutputEvent::Done, 103).is_some());
        assert!(output.changed(99));
        assert!(output.changed(102));
    }
}

#[test]
fn two_dones_in_a_row_differ_only_in_their_stamp() {
    let mut output = Output::new(1, 2, 0);
    output.apply(geometry(10, 20, "ACME", "X200"), 1);
    output.apply(OutputEvent::Scale { factor: 2 }, 1);
    let first = output.apply(OutputEvent::Done, 50).expect("done publishes");
    let second = output.apply(OutputEvent::Done, 51).expect("done publishes");
    assert_eq!(first.last_update, 50);
    assert_eq!(second.last_update, 51);
    assert!(first.last_update < second.last_update);
    assert!(!first.update_in_progress);
    assert!(!second.update_in_progress);
    let mut restamped = first.clone();
    restamped.last_update = second.last_update;
    assert_eq!(restamped, second);
    assert_ne!(first, second);
}

#[test]
fn scale_is_one_when_no_scale_event_arrived() {
    assert_eq!(DEFAULT_SCALE, 1);
    let mut output = Output::new(1, 2, 0);
    output.apply(geometry(10, 20, "ACME", "X200"), 1);
    output.apply(mode(MODE_CURRENT | MODE_PREFERRED, 1920, 1080, 60), 1);
    output.apply(OutputEvent::Unknown, 1);
    let snapshot = output.apply(OutputEvent::Done, 2).expect("done publishes");
    assert_eq!(snapshot.scale, 1);
    let mut bare = Output::new(3, 4, 0);
    let snapshot = bare.apply(OutputEvent::Done, 2).expect("done publishes");
    assert_eq!(snapshot.scale, 1);
}

#[test]
fn an_unknown_event_changes_nothing() {
    let mut output = Output::new(1, 2, 0);
    output.apply(geometry(10, 20, "ACME", "X200"), 1);
    output.apply(OutputEvent::Done, 2);
    let before = output.clone();
    assert!(output.apply(OutputEvent::Unknown, 3).is_none());
    assert_eq!(output, before);
    assert!(!output.update_in_progress);
    assert!(output.changed(1));
}

#[test]
fn changed_wants_a_strictly_later_update() {
    let mut output = Output::new(1, 2, 0);
    output.apply(OutputEvent::Done, 10);
    assert!(output.changed(9));
    assert!(!output.changed(10));
    assert!(!output.changed(11));
    assert!(!output.changed(u64::MAX));
}

#[test]
fn snapshot_is_a_copy_of_every_field() {
    let mut output = Output::new(8, 9, 3);
    output.apply(geometry(10, 20, "ACME", "X200"), 4);
    let copy = output.snapshot();
    assert_eq!(copy, output);
    assert!(copy.update_in_progress);
    output.apply(OutputEvent::Scale { factor: 5 }, 5);
    assert_eq!(copy.scale, 1);
}

#[test]
fn mode_flags_test_single_bits() {
    let current = ModeFlags::from_bits(MODE_CURRENT);
    assert!(current.is_current());
    assert!(!current.is_preferred());
    assert!(current.contains(MODE_CURRENT));
    assert!(!current.contains(MODE_CURRENT | MODE_PREFERRED));
    let both = ModeFlags::from_bits(3);
    assert!(both.is_current());
    assert!(both.is_preferred());
    assert!(both.contains(3));
    let neither = ModeFlags::from_bits(0);
    assert!(!neither.is_current());
    assert!(!neither.is_preferred());
    assert!(neither.contains(0));
    assert_eq!(ModeFlags::from_bits(6).bits, 6);
    assert!(ModeFlags::from_bits(6).is_preferred());
    assert!(!ModeFlags::from_bits(6).is_current());
}

fn drain(event_loop: &mut EventLoop<Vec<Output>>, received: &mut Vec<Output>) {
    event_loop.dispatch(Some(Duration::from_millis(0)), received).expect("dispatch");
}

#[test]
fn done_sends_the_snapshot_through_the_channel() {
    let mut event_loop: EventLoop<Vec<Output>> = EventLoop::try_new().expect("event loop");
    let (tx, rx) = channel::<Output>();
    event_loop
        .handle()
        .insert_source(rx, |event, _, received: &mut Vec<Output>| {
            if let Event::Msg(snapshot) = event {
                received.push(snapshot);
            }
        })
        .map_err(|_| ())
        .expect("insert channel");
    let mut received = Vec::new();

    let mut output = Output::new(1, 2, 0);
    assert_eq!(output.process_event(geometry(10, 20, "ACME", "X200"), 1, &tx), Publication::NotDue);
    assert_eq!(
        output.process_event(mode(MODE_CURRENT, 1920, 1080, 60), 2, &tx),
        Publication::NotDue
    );
    assert_eq!(output.process_event(OutputEvent::Scale { factor: 2 }, 3, &tx), Publication::NotDue);
    assert_eq!(output.process_event(OutputEvent::Unknown, 3, &tx), Publication::NotDue);
    drain(&mut event_loop, &mut received);
    assert!(received.is_empty());

    assert_eq!(output.process_event(OutputEvent::Done, 4, &tx), Publication::Delivered);
    drain(&mut event_loop, &mut received);
    assert_eq!(received.len(), 1);
    assert_eq!(received[0], output);
    assert_eq!(received[0].x, 10);
    assert_eq!(received[0].y, 20);
    assert_eq!(received[0].scale, 2);
    assert_eq!(received[0].current_mode, Some(Mode { width: 1920, height: 1080, refresh: 60 }));
    assert!(!received[0].update_in_progress);
    assert_eq!(received[0].last_update, 4);

    assert_eq!(output.process_event(OutputEvent::Done, 9, &tx), Publication::Delivered);
    drain(&mut event_loop, &mut received);
    assert_eq!(received.len(), 2);
    assert_eq!(received[1].last_update, 9);
    assert_eq!(received[1].x, received[0].x);
}

#[test]
fn a_snapshot_that_nobody_receives_comes_back() {
    let (tx, rx) = channel::<Output>();
    drop(rx);
    let mut output = Output::new(1, 2, 0);
    assert_eq!(output.process_event(geometry(10, 20, "ACME", "X200"), 1, &tx), Publication::NotDue);
    let publication = output.process_event(OutputEvent::Done, 2, &tx);
    match publication {
        Publication::Undelivered(unsent) => {
            assert_eq!(unsent, output);
            assert_eq!(unsent.x, 10);
            assert_eq!(unsent.make, "ACME");
            assert!(!unsent.update_in_progress);
            assert_eq!(unsent.last_update, 2);
        }
        other => panic!("expected an undelivered snapshot, got {:?}", other),
    }
    assert!(!output.update_in_progress);
    assert!(output.changed(1));
}
