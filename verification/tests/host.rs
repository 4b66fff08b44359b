use bevy::prelude::{App, Event, EventReader, EventWriter, PreUpdate, ResMut, Resource, Update};
use bevy_extern_events::{poll_events, queue_event};
use generic_global_variables::GenericGlobal;
use once_cell::sync::OnceCell;
use std::sync::Arc;

#[derive(Default)]
pub struct MyEvent;

#[derive(Default)]
pub struct MyEventResource(i32);

impl Resource for MyEventResource {}

/// What the host's channel carries for a forwarded `T`.
struct Forwarded<T>(T);

impl<T: 'static + Send + Sync> Event for Forwarded<T> {}

#[derive(Debug, Default, PartialEq)]
struct Ping {
    id: u32,
}

#[derive(Debug, Default, PartialEq)]
struct Pong {
    id: u32,
}

#[derive(Default)]
struct Seen {
    pings: Vec<u32>,
    pongs: Vec<u32>,
}

impl Resource for Seen {}

pub fn event_system(
    mut res: ResMut<MyEventResource>,
    mut native_events: EventReader<Forwarded<MyEvent>>,
) {
    for _e in native_events.read() {
        res.0 += 1;
    }
}

fn ping_reader(mut seen: ResMut<Seen>, mut pings: EventReader<Forwarded<Ping>>) {
    for ping in pings.read() {
        seen.pings.push(ping.0.id);
    }
}

fn pong_reader(mut seen: ResMut<Seen>, mut pongs: EventReader<Forwarded<Pong>>) {
    for pong in pongs.read() {
        seen.pongs.push(pong.0.id);
    }
}

/// Registers the channel for `T` and the poll step that feeds it before the
/// readers run.
fn install<T: 'static + Send + Sync + Default>(app: &mut App, globals: &Arc<OnceCell<GenericGlobal>>) {
    let globals = Arc::clone(globals);
    app.add_event::<Forwarded<T>>().add_systems(
        PreUpdate,
        move |mut writer: EventWriter<Forwarded<T>>| {
            for event in poll_events::<T>(&globals).unwrap() {
                writer.send(Forwarded(event.0));
            }
        },
    );
}

#[test]
fn smoke() {
    let globals = Arc::new(OnceCell::new());
    let mut app = App::new();
    app.init_resource::<MyEventResource>();
    install::<MyEvent>(&mut app, &globals);
    app.add_systems(Update, event_system);

    queue_event(&globals, MyEvent::default()).unwrap();

    app.update();

    assert_eq!(app.world.resource::<MyEventResource>().0, 1);

    app.update();

    // make sure no other event was forwarded
    assert_eq!(app.world.resource::<MyEventResource>().0, 1);
}

#[test]
fn reader_sees_one_ping_in_the_first_tick_only() {
    let globals = Arc::new(OnceCell::new());
    let mut app = App::new();
    app.init_resource::<Seen>();
    install::<Ping>(&mut app, &globals);
    app.add_systems(Update, ping_reader);

    queue_event(&globals, Ping { id: 7 }).unwrap();

    app.update();
    assert_eq!(app.world.resource::<Seen>().pings, vec![7]);

    app.update();
    assert_eq!(app.world.resource::<Seen>().pings, vec![7]);
}

#[test]
fn ping_and_pong_readers_see_their_own_events() {
    let globals = Arc::new(OnceCell::new());
    let mut app = App::new();
    app.init_resource::<Seen>();
    install::<Ping>(&mut app, &globals);
    install::<Pong>(&mut app, &globals);
    app.add_systems(Update, (ping_reader, pong_reader));

    queue_event(&globals, Pong { id: 10 }).unwrap();
    queue_event(&globals, Ping { id: 20 }).unwrap();
    queue_event(&globals, Pong { id: 30 }).unwrap();

    app.update();
    assert_eq!(app.world.resource::<Seen>().pings, vec![20]);
    assert_eq!(app.world.resource::<Seen>().pongs, vec![10, 30]);

    app.update();
    assert_eq!(app.world.resource::<Seen>().pings, vec![20]);
    assert_eq!(app.world.resource::<Seen>().pongs, vec![10, 30]);
}

#[test]
fn events_queued_before_the_bridge_is_installed_are_kept() {
    let globals = Arc::new(OnceCell::new());
    queue_event(&globals, Ping { id: 1 }).unwrap();
    queue_event(&globals, Ping { id: 2 }).unwrap();

    let mut app = App::new();
    app.init_resource::<Seen>();
    install::<Ping>(&mut app, &globals);
    app.add_systems(Update, ping_reader);

    app.update();
    assert_eq!(app.world.resource::<Seen>().pings, vec![1, 2]);

    queue_event(&globals, Ping { id: 3 }).unwrap();
    app.update();
    assert_eq!(app.world.resource::<Seen>().pings, vec![1, 2, 3]);
}
