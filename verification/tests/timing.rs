use panels::renderobj::{Position, RenderObject};
use panels::texturerenderer::{
    Color, LoadOp, RenderError, TextureIndex, TextureRenderer, TextureViewQuery,
};
use panels::timing::{fps_to_dur, ConfigError, FrameRate, Interval, Span, Timestamp, Timing};

const MS: u64 = 1_000_000;

fn at_ms(ms: u64) -> Timestamp {
    Timestamp::new(ms * MS)
}

#[test]
fn zero_rate_is_rejected() {
    assert_eq!(FrameRate::new(0), Err(ConfigError::InvalidConfiguration));
    assert_eq!(FrameRate::from_hz(0), Err(ConfigError::InvalidConfiguration));
    assert_eq!(
        Timing::frame_locked(at_ms(0), 0),
        Err(ConfigError::InvalidConfiguration)
    );
}

#[test]
fn zero_interval_is_rejected() {
    assert_eq!(
        Interval::new(Span::new(0)),
        Err(ConfigError::InvalidConfiguration)
    );
    assert_eq!(
        Timing::wall_clock(at_ms(5), Span::new(0)),
        Err(ConfigError::InvalidConfiguration)
    );
}

#[test]
fn positive_rate_and_interval_are_accepted() {
    let rate = FrameRate::from_hz(60).unwrap();
    assert_eq!(rate.get(), 60_000);
    assert_eq!(FrameRate::new(59_940).unwrap().get(), 59_940);
    let interval = Interval::new(Span::new(7)).unwrap();
    assert_eq!(interval.get(), Span::new(7));
    match Timing::frame_locked(at_ms(3), 30_000).unwrap() {
        Timing::FrameLocked { last_fired, target_rate } => {
            assert_eq!(last_fired, at_ms(3));
            assert_eq!(target_rate.get(), 30_000);
        }
        other => panic!("unexpected policy {:?}", other),
    }
    match Timing::wall_clock(at_ms(3), Span::new(9)).unwrap() {
        Timing::WallClock { last_fired, interval } => {
            assert_eq!(last_fired, at_ms(3));
            assert_eq!(interval.get(), Span::new(9));
        }
        other => panic!("unexpected policy {:?}", other),
    }
}

#[test]
fn period_is_rounded_up_to_whole_nanoseconds() {
    assert_eq!(fps_to_dur(FrameRate::from_hz(30).unwrap()), Span::new(33_333_334));
    assert_eq!(fps_to_dur(FrameRate::from_hz(60).unwrap()), Span::new(16_666_667));
    assert_eq!(fps_to_dur(FrameRate::from_hz(1).unwrap()), Span::new(1_000_000_000));
    assert_eq!(fps_to_dur(FrameRate::new(1).unwrap()), Span::new(1_000_000_000_000));
    assert_eq!(fps_to_dur(FrameRate::new(u64::MAX).unwrap()), Span::new(1));
    assert_eq!(fps_to_dur(FrameRate::new(1_000_000_000_000).unwrap()), Span::new(1));
    assert_eq!(fps_to_dur(FrameRate::new(999_999_999_999).unwrap()), Span::new(2));
}

#[test]
fn span_from_millis() {
    assert_eq!(Span::from_millis(16), Some(Span::new(16_000_000)));
    assert_eq!(Span::from_millis(0), Some(Span::new(0)));
    assert_eq!(Span::from_millis(u64::MAX), None);
    assert_eq!(
        Span::from_millis(u64::MAX / 1_000_000),
        Some(Span::new((u64::MAX / 1_000_000) * 1_000_000))
    );
}

#[test]
fn elapsed_time_never_goes_negative() {
    assert_eq!(at_ms(5).elapsed_since(at_ms(2)), Span::new(3 * MS));
    assert_eq!(at_ms(2).elapsed_since(at_ms(5)), Span::new(0));
    assert_eq!(
        Timestamp::new(u64::MAX - 1).saturating_add(Span::new(5)),
        Timestamp::new(u64::MAX)
    );
    assert_eq!(Timestamp::new(10).saturating_add(Span::new(5)), Timestamp::new(15));
}

#[test]
fn immediate_is_always_due_and_disabled_never() {
    let mut now = Timing::Immediate;
    let mut never = Timing::Disabled;
    for t in [0u64, 1, 1_000, u64::MAX] {
        assert!(now.is_due(Timestamp::new(t)));
        assert!(!never.is_due(Timestamp::new(t)));
    }
    now.just_called(at_ms(1));
    never.just_called(at_ms(1));
    assert_eq!(now, Timing::Immediate);
    assert_eq!(never, Timing::Disabled);
    assert!(now.is_due(at_ms(1)));
    assert!(!never.is_due(at_ms(1_000_000)));
}

#[test]
fn frame_locked_is_due_from_its_threshold_on() {
    let t0 = at_ms(100);
    let mut p = Timing::frame_locked(at_ms(0), 30_000).unwrap();
    p.just_called(t0);
    assert!(!p.is_due(t0));
    assert!(!p.is_due(Timestamp::new(t0.nanos + 33_333_333)));
    assert!(p.is_due(Timestamp::new(t0.nanos + 33_333_334)));
    assert!(p.is_due(Timestamp::new(t0.nanos + 1_000_000_000)));
    assert!(!p.is_due(at_ms(50)));
}

#[test]
fn wall_clock_is_due_from_its_interval_on() {
    let t0 = at_ms(7);
    let mut p = Timing::wall_clock(at_ms(0), Span::new(250)).unwrap();
    p.just_called(t0);
    assert!(!p.is_due(Timestamp::new(t0.nanos + 249)));
    assert!(p.is_due(Timestamp::new(t0.nanos + 250)));
    assert!(p.is_due(Timestamp::new(t0.nanos + 251)));
}

#[test]
fn just_called_moves_last_fired_only() {
    let mut p = Timing::frame_locked(at_ms(0), 24_000).unwrap();
    p.just_called(at_ms(9));
    match p {
        Timing::FrameLocked { last_fired, target_rate } => {
            assert_eq!(last_fired, at_ms(9));
            assert_eq!(target_rate.get(), 24_000);
        }
        other => panic!("unexpected policy {:?}", other),
    }
}

#[test]
fn a_policy_that_was_not_fired_stays_due() {
    let p = Timing::wall_clock(at_ms(0), Span::new(10)).unwrap();
    let now = Timestamp::new(10);
    assert!(p.is_due(now));
    assert!(p.is_due(now));
    assert!(p.is_due(Timestamp::new(11)));
}

#[test]
fn a_due_policy_stays_due_as_time_goes_on() {
    let locked = Timing::frame_locked(at_ms(0), 30_000).unwrap();
    let clock = Timing::wall_clock(at_ms(0), Span::new(40 * MS)).unwrap();
    let mut locked_due = false;
    let mut clock_due = false;
    for ms in 0..200u64 {
        let now = at_ms(ms);
        assert!(!locked_due || locked.is_due(now));
        assert!(!clock_due || clock.is_due(now));
        locked_due = locked.is_due(now);
        clock_due = clock.is_due(now);
        assert_eq!(locked_due, ms >= 34);
        assert_eq!(clock_due, ms >= 40);
    }
}

#[test]
fn next_wake_of_each_policy() {
    let now = at_ms(40);
    assert_eq!(Timing::Immediate.next_wake(now), Some(now));
    assert_eq!(Timing::Disabled.next_wake(now), None);
    let locked = Timing::frame_locked(at_ms(10), 30_000).unwrap();
    assert_eq!(
        locked.next_wake(now),
        Some(Timestamp::new(10 * MS + 33_333_334))
    );
    let clock = Timing::wall_clock(at_ms(10), Span::new(5 * MS)).unwrap();
    assert_eq!(clock.next_wake(now), Some(at_ms(15)));
    let far = Timing::wall_clock(Timestamp::new(u64::MAX - 1), Span::new(5)).unwrap();
    assert_eq!(far.next_wake(now), Some(Timestamp::new(u64::MAX)));
}

#[test]
fn new_renderer_is_unscheduled() {
    let r = TextureRenderer::new("main", Some(4), TextureIndex::Index(2));
    assert_eq!(r.name, "main");
    assert_eq!(r.texture, TextureIndex::Index(2));
    assert_eq!(r.clear_or_load, LoadOp::Load);
    assert!(r.my_objects.is_empty());
    assert_eq!(r.program_id, Some(4));
    assert_eq!(r.drawf_status, Timing::Disabled);
    assert_eq!(r.updatef_status, Timing::Disabled);
    assert!(!r.should_call_drawf(at_ms(1), false));
    assert!(!r.should_call_updatef(at_ms(1)));
}

#[test]
fn redraw_request_forces_the_surface_only() {
    let surface = TextureRenderer::new("surface", None, TextureIndex::Surface);
    let mut offscreen = TextureRenderer::new("offscreen", None, TextureIndex::Index(0));
    assert!(surface.should_call_drawf(at_ms(0), true));
    assert!(!surface.should_call_drawf(at_ms(0), false));
    assert!(!offscreen.should_call_drawf(at_ms(0), true));
    assert!(!offscreen.should_call_drawf(at_ms(0), false));
    offscreen.set_render_timing(Timing::frame_locked(at_ms(0), 30_000).unwrap());
    assert!(!offscreen.should_call_drawf(at_ms(10), true));
    assert!(offscreen.should_call_drawf(at_ms(40), true));
    assert!(offscreen.should_call_drawf(at_ms(40), false));
    offscreen.set_render_timing(Timing::Immediate);
    assert!(offscreen.should_call_drawf(at_ms(0), false));
}

#[test]
fn redraw_request_never_forces_an_update() {
    let mut r = TextureRenderer::new("surface", None, TextureIndex::Surface);
    assert!(!r.should_call_updatef(at_ms(0)));
    r.set_update_timing(Timing::Immediate);
    assert!(r.should_call_updatef(at_ms(0)));
    assert!(!r.should_call_drawf(at_ms(0), false));
}

#[test]
fn predicates_are_idempotent_without_firing() {
    let mut r = TextureRenderer::new("r", Some(0), TextureIndex::Index(1));
    r.set_update_timing(Timing::wall_clock(at_ms(0), Span::new(5 * MS)).unwrap());
    r.set_render_timing(Timing::frame_locked(at_ms(0), 60_000).unwrap());
    for now in [at_ms(1), at_ms(5), at_ms(16), at_ms(17)] {
        for forced in [false, true] {
            let first = r.should_call_drawf(now, forced);
            assert_eq!(r.should_call_drawf(now, forced), first);
        }
        let first = r.should_call_updatef(now);
        assert_eq!(r.should_call_updatef(now), first);
    }
    assert!(r.should_call_updatef(at_ms(5)));
    r.mark_updated(at_ms(5));
    assert!(!r.should_call_updatef(at_ms(5)));
    assert!(r.should_call_drawf(at_ms(17), false));
    r.mark_drawn(at_ms(17));
    assert!(!r.should_call_drawf(at_ms(17), false));
}

#[test]
fn frame_locked_30_with_ticks_16_ms_apart() {
    let mut r = TextureRenderer::new("surface", Some(0), TextureIndex::Surface);
    r.set_render_timing(Timing::frame_locked(at_ms(0), 30_000).unwrap());
    let mut drawn = Vec::new();
    for tick in 1..=10u64 {
        let now = at_ms(16 * tick);
        if r.should_call_drawf(now, false) {
            r.mark_drawn(now);
            drawn.push(tick);
        }
    }
    // Two ticks are 32 ms, short of the 33.3 ms of one frame: every third
    // tick draws.
    assert_eq!(drawn, vec![3, 6, 9]);
}

#[test]
fn frame_locked_30_with_ticks_17_ms_apart() {
    let mut r = TextureRenderer::new("surface", Some(0), TextureIndex::Surface);
    r.set_render_timing(Timing::frame_locked(at_ms(0), 30_000).unwrap());
    let mut drawn = Vec::new();
    for tick in 1..=10u64 {
        let now = at_ms(17 * tick);
        if r.should_call_drawf(now, false) {
            r.mark_drawn(now);
            drawn.push(tick);
        }
    }
    assert_eq!(drawn, vec![2, 4, 6, 8, 10]);
}

#[test]
fn target_of_a_renderer() {
    let surface = TextureRenderer::new("s", None, TextureIndex::Surface);
    assert_eq!(surface.get_textureview(0), Ok(TextureViewQuery::RequestSurfaceView));
    let offscreen = TextureRenderer::new("o", None, TextureIndex::Index(3));
    assert_eq!(offscreen.get_textureview(4), Ok(TextureViewQuery::View(3)));
    assert_eq!(offscreen.get_textureview(3), Err(RenderError::TargetUnavailable));
    assert_eq!(offscreen.get_textureview(0), Err(RenderError::TargetUnavailable));
}

#[test]
fn setters_change_one_field() {
    let mut r = TextureRenderer::new("r", None, TextureIndex::Index(1));
    let red = Color { r: 255, g: 0, b: 0, a: 255 };
    r.set_clear(LoadOp::Clear(red));
    assert_eq!(r.clear_or_load, LoadOp::Clear(red));
    r.hook_program(7);
    assert_eq!(r.program_id, Some(7));
    r.set_draw_status(Timing::Immediate);
    assert_eq!(*r.ref_draw_status(), Timing::Immediate);
    *r.mut_draw_status() = Timing::Disabled;
    assert_eq!(r.drawf_status, Timing::Disabled);
    r.set_update_timing(Timing::Immediate);
    assert_eq!(*r.ref_update_status(), Timing::Immediate);
    assert_eq!(r.texture, TextureIndex::Index(1));
    assert_eq!(r.name, "r");
}

#[test]
fn placeholder_rect_names_the_first_resources() {
    let o = RenderObject::new_placeholder_rect();
    assert_eq!(o.position, Position::new(0, 0, 0));
    assert_eq!(o.pipeline, 0);
    assert_eq!(o.bind_group, 0);
    assert_eq!(o.model, 0);
    assert!(o.uniforms.is_empty());
    let n = RenderObject::new();
    assert_eq!((n.pipeline, n.bind_group, n.model), (0, 0, 0));
    assert!(!o.can_render(0, 1, 1));
    assert!(o.can_render(1, 1, 1));
    let w = RenderObject::with_resources(2, 3, 4);
    assert_eq!((w.pipeline, w.model, w.bind_group), (2, 3, 4));
    assert!(w.can_render(3, 5, 4));
    assert!(!w.can_render(3, 4, 4));
    assert!(!w.can_render(3, 5, 3));
}
