use std::time::Duration;

use calloop::channel::{channel, Event, Sender};
use calloop::EventLoop;
use wayland_displays::aggregator::{
    inspect, is_output_interface, Aggregator, GlobalEvent, Interest, UnsupportedOutputVersion,
    MIN_OUTPUT_VERSION,
};
use wayland_displays::outputs::{ModeFlags, Output, OutputEvent, Publication, MODE_CURRENT};
use wayland_displays::roster::{position, position_of_global};

fn added(id: u32, interface: &str, version: u32) -> GlobalEvent {
    GlobalEvent::Added { id, interface: interface.to_string(), version }
}

fn removed(id: u32, interface: &str) -> GlobalEvent {
    GlobalEvent::Removed { id, interface: interface.to_string() }
}

fn listening() -> (EventLoop<'static, Vec<Output>>, Sender<Output>) {
    let event_loop: EventLoop<Vec<Output>> = EventLoop::try_new().expect("event loop");
    let (tx, rx) = channel::<Output>();
    event_loop
        .handle()
        .insert_source(rx, |event, _, received: &mut Vec<Output>| {
            if let Event::Msg(snapshot) = event {
                received.push(snapshot);
            }
        })
        .map_err(|_| ())
        .expect("insert channel");
    (event_loop, tx)
}

#[test]
fn only_the_output_interface_is_of_interest() {
    assert!(is_output_interface(&"wl_output".to_string()));
    assert!(!is_output_interface(&"wl_outputs".to_string()));
    assert!(!is_output_interface(&"wl_outpu".to_string()));
    assert!(!is_output_interface(&"WL_OUTPUT".to_string()));
    assert!(!is_output_interface(&"".to_string()));
    assert!(!is_output_interface(&"wl_seat".to_string()));
}

#[test]
fn other_globals_are_ignored() {
    assert_eq!(inspect(&added(4, "wl_seat", 7)), Ok(Interest::Ignore));
    assert_eq!(inspect(&added(4, "wl_compositor", 1)), Ok(Interest::Ignore));
    assert_eq!(inspect(&added(4, "zxdg_output_manager_v1", 3)), Ok(Interest::Ignore));
    assert_eq!(inspect(&removed(4, "wl_seat")), Ok(Interest::Ignore));
}

#[test]
fn an_announced_output_is_to_be_bound() {
    assert_eq!(MIN_OUTPUT_VERSION, 3);
    assert_eq!(inspect(&added(9, "wl_output", 3)), Ok(Interest::Track { gid: 9 }));
    assert_eq!(inspect(&added(9, "wl_output", 4)), Ok(Interest::Track { gid: 9 }));
    assert_eq!(inspect(&added(0, "wl_output", u32::MAX)), Ok(Interest::Track { gid: 0 }));
}

#[test]
fn an_output_that_is_too_old_is_refused() {
    assert_eq!(
        inspect(&added(9, "wl_output", 2)),
        Err(UnsupportedOutputVersion { gid: 9, version: 2 })
    );
    assert_eq!(
        inspect(&added(9, "wl_output", 0)),
        Err(UnsupportedOutputVersion { gid: 9, version: 0 })
    );
}

#[test]
fn a_retracted_output_is_to_be_retired() {
    assert_eq!(inspect(&removed(9, "wl_output")), Ok(Interest::Retire { gid: 9 }));
}

#[test]
fn position_finds_by_object_id_and_by_global() {
    let list = vec![Output::new(10, 100, 0), Output::new(11, 101, 0), Output::new(12, 102, 0)];
    assert_eq!(position(&list, 100), Some(0));
    assert_eq!(position(&list, 102), Some(2));
    assert_eq!(position(&list, 10), None);
    assert_eq!(position_of_global(&list, 11), Some(1));
    assert_eq!(position_of_global(&list, 101), None);
    assert_eq!(position(&Vec::new(), 1), None);
}

#[test]
fn outputs_are_tracked_once() {
    let mut aggregator = Aggregator::new();
    assert_eq!(aggregator.len(), 0);
    assert!(aggregator.track(Output::new(10, 100, 0)));
    assert!(aggregator.track(Output::new(11, 101, 0)));
    assert_eq!(aggregator.len(), 2);
    assert!(!aggregator.track(Output::new(12, 100, 0)));
    assert!(!aggregator.track(Output::new(10, 102, 0)));
    assert_eq!(aggregator.len(), 2);
    assert_eq!(aggregator.get(100).map(|o| o.gid), Some(10));
    assert_eq!(aggregator.get(101).map(|o| o.gid), Some(11));
    assert!(aggregator.get(102).is_none());
}

#[test]
fn events_reach_the_output_they_are_for() {
    let (mut event_loop, tx) = listening();
    let mut received = Vec::new();
    let mut aggregator = Aggregator::new();
    aggregator.track(Output::new(10, 100, 0));
    aggregator.track(Output::new(11, 101, 0));

    assert_eq!(
        aggregator.dispatch(101, OutputEvent::Scale { factor: 2 }, 1, &tx),
        Some(Publication::NotDue)
    );
    assert_eq!(aggregator.get(101).expect("tracked").scale, 2);
    assert_eq!(aggregator.get(100).expect("tracked").scale, 1);
    assert_eq!(aggregator.dispatch(101, OutputEvent::Done, 2, &tx), Some(Publication::Delivered));
    event_loop.dispatch(Some(Duration::from_millis(0)), &mut received).expect("dispatch");
    assert_eq!(received.len(), 1);
    assert_eq!(received[0].id(), 101);
    assert_eq!(received[0].gid, 11);
    assert_eq!(received[0].scale, 2);
    assert_eq!(received[0].last_update, 2);
    assert!(!received[0].update_in_progress);
    assert!(aggregator.get(100).expect("tracked").update_in_progress);
}

#[test]
fn events_for_an_unknown_output_are_dropped() {
    let (mut event_loop, tx) = listening();
    let mut received = Vec::new();
    let mut aggregator = Aggregator::new();
    aggregator.track(Output::new(10, 100, 0));
    assert_eq!(aggregator.dispatch(7, OutputEvent::Done, 1, &tx), None);
    event_loop.dispatch(Some(Duration::from_millis(0)), &mut received).expect("dispatch");
    assert!(received.is_empty());
    assert!(aggregator.get(100).expect("tracked").update_in_progress);
}

#[test]
fn a_retired_output_is_no_longer_processed() {
    let (mut event_loop, tx) = listening();
    let mut received = Vec::new();
    let mut aggregator = Aggregator::new();
    aggregator.track(Output::new(10, 100, 0));
    aggregator.track(Output::new(11, 101, 0));
    aggregator.track(Output::new(12, 102, 0));
    aggregator.dispatch(
        101,
        OutputEvent::Mode {
            flags: ModeFlags::from_bits(MODE_CURRENT),
            width: 1,
            height: 2,
            refresh: 3,
        },
        1,
        &tx,
    );

    let retired = aggregator.retire(11).expect("was tracked");
    assert_eq!(retired.id(), 101);
    assert_eq!(retired.gid, 11);
    assert!(retired.current_mode.is_some());
    assert_eq!(aggregator.len(), 2);
    assert!(aggregator.get(101).is_none());
    assert!(aggregator.retire(11).is_none());
    assert!(aggregator.retire(101).is_none());

    assert_eq!(aggregator.dispatch(101, OutputEvent::Done, 2, &tx), None);
    event_loop.dispatch(Some(Duration::from_millis(0)), &mut received).expect("dispatch");
    assert!(received.is_empty());

    assert_eq!(aggregator.get(100).map(|o| o.gid), Some(10));
    assert_eq!(aggregator.get(102).map(|o| o.gid), Some(12));
    assert!(aggregator.track(Output::new(11, 101, 5)));
    assert_eq!(aggregator.len(), 3);
}
