use moonlight::connection::InputError;
use moonlight::touch::{TouchChange, TouchEventType, TouchInput, TouchPhase, TouchRoute, TouchSend};
use moonlight::video::fit_size;

type Point = (f32, f32);

#[derive(Debug, PartialEq)]
enum Sent {
    Touch(TouchEventType, u32, f32, f32),
    Position(f32, f32),
    Button(bool),
}

struct Sink {
    native: bool,
    sent: Vec<Sent>,
}

impl Sink {
    fn new(native: bool) -> Self {
        Sink {
            native,
            sent: Vec::new(),
        }
    }

    fn send(&mut self, packet: TouchSend<Point>) -> Result<(), InputError> {
        match packet {
            TouchSend::Touch(kind, id, (x, y)) => self.sent.push(Sent::Touch(kind, id, x, y)),
            TouchSend::Position((x, y)) => self.sent.push(Sent::Position(x, y)),
            TouchSend::Button(pressed) => self.sent.push(Sent::Button(pressed)),
        }
        Ok(())
    }
}

fn video_position(x: i32, y: i32, viewport: (u32, u32), video: (u32, u32), clamp: bool) -> Option<Point> {
    let (w, h) = fit_size(video.0, video.1, viewport.0, viewport.1);
    if w == 0 || h == 0 {
        return None;
    }
    let x = (x as f32 - (viewport.0 - w) as f32 * 0.5) / w as f32;
    let y = (y as f32 - (viewport.1 - h) as f32 * 0.5) / h as f32;
    if !clamp && (!(0.0..=1.0).contains(&x) || !(0.0..=1.0).contains(&y)) {
        return None;
    }
    Some((x.clamp(0.0, 1.0), y.clamp(0.0, 1.0)))
}

fn event(id: u64, phase: TouchPhase) -> TouchChange {
    TouchChange {
        seat_id: 0,
        id,
        phase,
    }
}

fn route(
    input: &mut TouchInput<Point>,
    id: u64,
    phase: TouchPhase,
    position: (i32, i32),
    viewport: (u32, u32),
    sink: &mut Sink,
) -> Result<bool, InputError> {
    let change = event(id, phase);
    let point = video_position(position.0, position.1, viewport, (1920, 1080), phase != TouchPhase::Down);
    loop {
        match input.plan(change, point) {
            TouchRoute::Answer(answer) => return Ok(answer),
            TouchRoute::QueryCapability => input.set_native(sink.native),
            TouchRoute::Send {
                sends,
                stop_on_error,
            } => {
                let mut result = Ok(());
                for packet in sends {
                    let sent = sink.send(packet);
                    if result.is_ok() {
                        result = sent;
                    }
                    if stop_on_error && result.is_err() {
                        break;
                    }
                }
                return input.commit(change, point, result);
            }
        }
    }
}

fn release(input: &mut TouchInput<Point>, sink: &mut Sink) {
    if let Some(packet) = input.release((0.0, 0.0)) {
        sink.send(packet).unwrap();
    }
}

#[test]
fn native_contacts_keep_distinct_ids_and_release_outside_the_image() {
    let mut sink = Sink::new(true);
    let mut input = TouchInput::new();
    for id in [1, (1u64 << 32) + 1] {
        route(&mut input, id, TouchPhase::Down, (400, 400), (800, 800), &mut sink).unwrap();
    }
    route(&mut input, 1, TouchPhase::Up, (900, 900), (800, 800), &mut sink).unwrap();
    route(&mut input, (1u64 << 32) + 1, TouchPhase::Cancel, (0, 0), (0, 0), &mut sink).unwrap();
    assert_eq!(
        sink.sent,
        vec![
            Sent::Touch(TouchEventType::Down, 0, 0.5, 0.5),
            Sent::Touch(TouchEventType::Down, 1, 0.5, 0.5),
            Sent::Touch(TouchEventType::Up, 0, 1.0, 1.0),
            Sent::Touch(TouchEventType::Cancel, 1, 0.5, 0.5)
        ]
    );
    assert!(input.release((0.0, 0.0)).is_none());
}

#[test]
fn focus_loss_cancels_native_contacts() {
    let mut sink = Sink::new(true);
    let mut input = TouchInput::new();
    route(&mut input, 9, TouchPhase::Down, (400, 400), (800, 800), &mut sink).unwrap();
    release(&mut input, &mut sink);
    assert_eq!(
        sink.sent.last(),
        Some(&Sent::Touch(TouchEventType::CancelAll, 0, 0.0, 0.0))
    );
    assert!(input.release((0.0, 0.0)).is_none());
    assert!(!route(&mut input, 9, TouchPhase::Move, (410, 410), (800, 800), &mut sink).unwrap());
}

#[test]
fn unsupported_host_uses_one_finger_absolute_mouse_drag() {
    let mut sink = Sink::new(false);
    let mut input = TouchInput::new();
    route(&mut input, 1, TouchPhase::Down, (400, 400), (800, 800), &mut sink).unwrap();
    assert!(!route(&mut input, 2, TouchPhase::Down, (500, 400), (800, 800), &mut sink).unwrap());
    route(&mut input, 1, TouchPhase::Move, (600, 400), (800, 800), &mut sink).unwrap();
    release(&mut input, &mut sink);
    assert_eq!(
        sink.sent,
        vec![
            Sent::Position(0.5, 0.5),
            Sent::Button(true),
            Sent::Position(0.75, 0.5),
            Sent::Button(false)
        ]
    );
}

#[test]
fn letterbox_tap_never_presses_remote_input() {
    let mut sink = Sink::new(true);
    let mut input = TouchInput::new();
    assert!(!route(&mut input, 1, TouchPhase::Down, (100, 100), (800, 800), &mut sink).unwrap());
    assert!(!route(&mut input, 1, TouchPhase::Up, (400, 400), (800, 800), &mut sink).unwrap());
    assert!(sink.sent.is_empty());
}

#[test]
fn at_most_ten_native_contacts_are_tracked() {
    let mut sink = Sink::new(true);
    let mut input = TouchInput::new();
    for id in 0..10 {
        assert!(route(&mut input, id, TouchPhase::Down, (400, 400), (800, 800), &mut sink).unwrap());
    }
    assert!(!route(&mut input, 10, TouchPhase::Down, (400, 400), (800, 800), &mut sink).unwrap());
    route(&mut input, 3, TouchPhase::Up, (400, 400), (800, 800), &mut sink).unwrap();
    assert!(route(&mut input, 11, TouchPhase::Down, (400, 400), (800, 800), &mut sink).unwrap());
    assert_eq!(
        sink.sent.last(),
        Some(&Sent::Touch(TouchEventType::Down, 3, 0.5, 0.5))
    );
}

#[test]
fn failed_down_is_not_remembered() {
    let mut input: TouchInput<Point> = TouchInput::new();
    input.set_native(true);
    let change = event(1, TouchPhase::Down);
    assert!(matches!(input.plan(change, Some((0.5, 0.5))), TouchRoute::Send { .. }));
    assert_eq!(
        input.commit(change, Some((0.5, 0.5)), Err(InputError::ConnectionInactive)),
        Err(InputError::ConnectionInactive)
    );
    assert!(input.release((0.0, 0.0)).is_none());
}
