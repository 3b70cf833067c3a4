use clock_face::events::{drain, Event, Keycode};
use clock_face::frame::FrameGeometry;
use clock_face::presentation::{Action, LoopState, Presentation, RenderPolicy};

const ESCAPE: Event = Event::KeyDown { keycode: Some(Keycode::Escape) };
const OTHER_KEY: Event = Event::KeyDown { keycode: Some(Keycode::Other) };
const NO_KEY: Event = Event::KeyDown { keycode: None };

#[test]
fn only_quit_and_escape_ask_to_quit() {
    assert!(Event::Quit.asks_to_quit());
    assert!(ESCAPE.asks_to_quit());
    assert!(!OTHER_KEY.asks_to_quit());
    assert!(!NO_KEY.asks_to_quit());
    assert!(!Event::Other.asks_to_quit());
}

#[test]
fn drain_finds_a_quit_signal_anywhere() {
    assert!(!drain(&vec![]));
    assert!(!drain(&vec![Event::Other, OTHER_KEY, NO_KEY]));
    assert!(drain(&vec![Event::Quit]));
    assert!(drain(&vec![ESCAPE]));
    assert!(drain(&vec![Event::Other, OTHER_KEY, ESCAPE]));
    assert!(drain(&vec![Event::Quit, Event::Other, Event::Other]));
    assert!(drain(&vec![Event::Other, Event::Quit, Event::Other]));
}

#[test]
fn clock_loop_renders_every_frame() {
    let mut presentation = Presentation::start(RenderPolicy::EveryFrame);
    assert!(!RenderPolicy::EveryFrame.render_at_startup());
    assert!(!presentation.is_stopped());
    for _ in 0..5 {
        let action = presentation.tick(&vec![Event::Other, OTHER_KEY]);
        assert_eq!(action, Action::Present { render: true, delay_ms: 200 });
        assert_eq!(presentation.state, LoopState::Running);
        assert_eq!(presentation.policy, RenderPolicy::EveryFrame);
    }
}

#[test]
fn still_loop_renders_once_before_the_loop() {
    let mut presentation = Presentation::start(RenderPolicy::Once);
    assert!(RenderPolicy::Once.render_at_startup());
    for _ in 0..5 {
        let action = presentation.tick(&vec![NO_KEY]);
        assert_eq!(action, Action::Present { render: false, delay_ms: 100 });
        assert_eq!(presentation.state, LoopState::Running);
        assert_eq!(presentation.policy, RenderPolicy::Once);
    }
    assert_eq!(presentation.tick(&vec![]), Action::Present { render: false, delay_ms: 100 });
}

#[test]
fn quit_ends_the_loop_in_the_same_iteration() {
    for policy in [RenderPolicy::EveryFrame, RenderPolicy::Once] {
        for signal in [Event::Quit, ESCAPE] {
            let mut presentation = Presentation::start(policy);
            assert!(matches!(presentation.tick(&vec![Event::Other]), Action::Present { .. }));
            assert_eq!(presentation.tick(&vec![Event::Other, signal]), Action::Exit);
            assert!(presentation.is_stopped());
            assert_eq!(presentation.state, LoopState::Stopped);
        }
    }
}

#[test]
fn stopped_loop_never_runs_again() {
    let mut presentation = Presentation::start(RenderPolicy::EveryFrame);
    assert_eq!(presentation.tick(&vec![Event::Quit]), Action::Exit);
    for batch in [vec![], vec![Event::Other], vec![OTHER_KEY, NO_KEY], vec![ESCAPE]] {
        assert_eq!(presentation.tick(&batch), Action::Exit);
        assert!(presentation.is_stopped());
    }
    let mut stopped = Presentation { policy: RenderPolicy::Once, state: LoopState::Stopped };
    assert_eq!(stopped.tick(&vec![]), Action::Exit);
    assert_eq!(stopped.state, LoopState::Stopped);
}

#[test]
fn packed_frame_has_four_bytes_per_pixel() {
    let frame = FrameGeometry::packed(800, 600).unwrap();
    assert_eq!(frame, FrameGeometry { width: 800, height: 600, stride: 3200 });
    assert_eq!(frame.len(), 1_920_000);
    assert_eq!(FrameGeometry::packed(0, 600).unwrap().len(), 0);
    assert_eq!(
        FrameGeometry::packed(0x3fff_ffff, 1),
        Some(FrameGeometry { width: 0x3fff_ffff, height: 1, stride: 0xffff_fffc })
    );
    assert_eq!(FrameGeometry::packed(0x4000_0000, 1), None);
    assert_eq!(FrameGeometry::packed(u32::MAX, u32::MAX), None);
}

#[test]
fn frame_length_does_not_overflow() {
    let frame = FrameGeometry { width: 1, height: u32::MAX, stride: u32::MAX };
    assert_eq!(frame.len(), (u32::MAX as u64) * (u32::MAX as u64));
}

#[test]
fn frame_carries_only_exact_data() {
    let frame = FrameGeometry::packed(800, 600).unwrap();
    assert!(frame.carries(3200, 1_920_000));
    assert!(!frame.carries(3204, 1_920_000));
    assert!(!frame.carries(3200, 1_919_999));
    assert!(!frame.carries(3200, 1_920_001));
    assert!(!frame.carries(0, 0));
}
