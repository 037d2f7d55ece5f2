use panels::appmgmt::{EventLoopAction, FrameControl, WindowEvent};
use panels::dispatch::{
    commit, record_draws, run_updates, tick, Directives, FramePlan, GpuCommand, GpuOutcome,
    RecordedPass,
};
use panels::modelbuffers::{Model, ModelBuilder};
use panels::programhook::{DrawCall, ProgramHook, RenderPass};
use panels::renderobj::RenderObject;
use panels::texturerenderer::{
    Color, LoadOp, RenderError, SurfaceFailure, TextureIndex, TextureRenderer, TextureViewQuery,
};
use panels::timing::{Span, Timestamp, Timing};
use panels::{
    create_program_and_renderer, hook_pair, pair_program_and_renderer, surface_claimed, RegistryError,
};

const MS: u64 = 1_000_000;

fn at_ms(ms: u64) -> Timestamp {
    Timestamp::new(ms * MS)
}

/// What the programs of a test did, in order.
#[derive(Default)]
struct Log {
    calls: Vec<String>,
}

/// A program that notes every call and answers `update` as told.
struct Probe {
    label: &'static str,
    renderer: Option<usize>,
    answer: u8,
    update_timing: Timing,
    draw_timing: Timing,
}

impl Probe {
    fn new(label: &'static str) -> Probe {
        Probe {
            label,
            renderer: None,
            answer: 0,
            update_timing: Timing::Immediate,
            draw_timing: Timing::Immediate,
        }
    }

    fn answering(label: &'static str, answer: u8) -> Probe {
        Probe { answer, ..Probe::new(label) }
    }

    fn timed(label: &'static str, update_timing: Timing, draw_timing: Timing) -> Probe {
        Probe { update_timing, draw_timing, ..Probe::new(label) }
    }
}

impl ProgramHook for Probe {
    type Message = String;
    type Context = Log;

    fn init(&mut self, renderer: &mut TextureRenderer, state: &mut Log) {
        state.calls.push(format!("init {}", self.label));
        renderer.set_update_timing(self.update_timing);
        renderer.set_render_timing(self.draw_timing);
    }

    fn hook_renderer(&mut self, renderer_id: usize) {
        self.renderer = Some(renderer_id);
    }

    fn render(&self, renderer: &mut TextureRenderer, state: &mut Log, render_pass: &mut RenderPass) {
        state.calls.push(format!("render {}", self.label));
        for object in &renderer.my_objects {
            object.render_this(render_pass);
        }
    }

    fn update(&mut self, _renderer: &mut TextureRenderer, state: &mut Log) -> EventLoopAction<String> {
        state.calls.push(format!("update {}", self.label));
        match self.answer {
            1 => EventLoopAction::SkipFrame,
            2 => EventLoopAction::RequestClose,
            3 => EventLoopAction::Message(format!("hello from {}", self.label)),
            _ => EventLoopAction::Nothing,
        }
    }
}

/// A program that writes nothing but what it must.
struct Quiet;

impl ProgramHook for Quiet {
    type Message = ();
    type Context = ();

    fn hook_renderer(&mut self, _renderer_id: usize) {}
}

fn register(
    log: &mut Log,
    renderers: &mut Vec<TextureRenderer>,
    programs: &mut Vec<Probe>,
    probe: Probe,
    target: TextureIndex,
) -> (usize, usize) {
    let name = probe.label;
    create_program_and_renderer(name, log, renderers, programs, probe, target).unwrap()
}

fn count(cmds: &[GpuCommand], wanted: GpuCommand) -> usize {
    cmds.iter().filter(|c| **c == wanted).count()
}

#[test]
fn registration_wires_then_initialises() {
    let mut log = Log::default();
    let mut renderers = Vec::new();
    let mut programs = Vec::new();
    let a = register(&mut log, &mut renderers, &mut programs, Probe::new("a"), TextureIndex::Surface);
    let b = register(&mut log, &mut renderers, &mut programs, Probe::new("b"), TextureIndex::Index(0));
    assert_eq!(a, (0, 0));
    assert_eq!(b, (1, 1));
    assert_eq!(log.calls, vec!["init a", "init b"]);
    assert_eq!(programs[0].renderer, Some(0));
    assert_eq!(programs[1].renderer, Some(1));
    assert_eq!(renderers[0].program_id, Some(0));
    assert_eq!(renderers[1].program_id, Some(1));
    assert_eq!(renderers[0].name, "a");
    assert_eq!(renderers[0].texture, TextureIndex::Surface);
    assert_eq!(renderers[1].texture, TextureIndex::Index(0));
    assert_eq!(renderers[1].updatef_status, Timing::Immediate);
}

#[test]
fn pairing_alone_leaves_the_renderer_unscheduled() {
    let mut renderers = Vec::new();
    let mut programs = Vec::new();
    let ids = pair_program_and_renderer("p", &mut renderers, &mut programs, Probe::new("p"), TextureIndex::Index(5));
    assert_eq!(ids, Ok((0, 0)));
    assert_eq!(renderers[0].program_id, Some(0));
    assert_eq!(renderers[0].texture, TextureIndex::Index(5));
    assert_eq!(renderers[0].drawf_status, Timing::Disabled);
    assert_eq!(renderers[0].updatef_status, Timing::Disabled);
    assert_eq!(renderers[0].clear_or_load, LoadOp::Load);
    assert_eq!(programs[0].renderer, Some(0));
}

#[test]
fn second_surface_renderer_is_refused() {
    let mut log = Log::default();
    let mut renderers = Vec::new();
    let mut programs = Vec::new();
    assert!(!surface_claimed(&renderers));
    register(&mut log, &mut renderers, &mut programs, Probe::new("a"), TextureIndex::Index(0));
    assert!(!surface_claimed(&renderers));
    register(&mut log, &mut renderers, &mut programs, Probe::new("b"), TextureIndex::Surface);
    assert!(surface_claimed(&renderers));
    let again = create_program_and_renderer(
        "c",
        &mut log,
        &mut renderers,
        &mut programs,
        Probe::new("c"),
        TextureIndex::Surface,
    );
    assert_eq!(again, Err(RegistryError::SurfaceClaimed));
    assert_eq!(renderers.len(), 2);
    assert_eq!(programs.len(), 2);
    assert_eq!(log.calls, vec!["init a", "init b"]);
    let offscreen = register(&mut log, &mut renderers, &mut programs, Probe::new("d"), TextureIndex::Index(1));
    assert_eq!(offscreen, (2, 2));
}

#[test]
fn default_capabilities_schedule_nothing() {
    let mut renderers = Vec::new();
    let mut programs = Vec::new();
    let mut ctx = ();
    let ids = create_program_and_renderer("quiet", &mut ctx, &mut renderers, &mut programs, Quiet, TextureIndex::Index(0));
    assert_eq!(ids, Ok((0, 0)));
    assert_eq!(renderers[0].updatef_status, Timing::Disabled);
    assert_eq!(renderers[0].drawf_status, Timing::Disabled);
    let mut slot = TextureRenderer::new("x", None, TextureIndex::Index(0));
    slot.set_update_timing(Timing::Immediate);
    assert!(matches!(programs[0].update(&mut slot, &mut ctx), EventLoopAction::Nothing));
    assert!(matches!(
        programs[0].input(&mut slot, &mut ctx, &WindowEvent::CloseRequested),
        EventLoopAction::Nothing
    ));
    let mut pass = RenderPass::new();
    programs[0].render(&mut slot, &mut ctx, &mut pass);
    assert!(pass.calls.is_empty());
    programs[0].stop_program(&mut slot, &mut ctx);
    assert_eq!(slot.updatef_status, Timing::Immediate);
    programs[0].init(&mut slot, &mut ctx);
    assert_eq!(slot.updatef_status, Timing::Disabled);
    let report = tick(&mut renderers, &mut programs, &mut ctx, 1, at_ms(1), false).unwrap();
    assert!(report.updated.is_empty());
    assert!(report.plan.commands().is_empty());
}

#[test]
fn updates_run_in_registration_order() {
    let mut log = Log::default();
    let mut renderers = Vec::new();
    let mut programs = Vec::new();
    for label in ["p1", "p2", "p3", "p4"] {
        register(&mut log, &mut renderers, &mut programs, Probe::new(label), TextureIndex::Index(0));
    }
    log.calls.clear();
    let report = run_updates(&mut renderers, &mut programs, &mut log, at_ms(1)).unwrap();
    assert_eq!(report.updated, vec![0, 1, 2, 3]);
    assert_eq!(log.calls, vec!["update p1", "update p2", "update p3", "update p4"]);
    assert_eq!(report.control, FrameControl::Proceed);
    assert!(report.messages.is_empty());
}

#[test]
fn draws_run_in_registration_order() {
    let mut log = Log::default();
    let mut renderers = Vec::new();
    let mut programs = Vec::new();
    for label in ["p1", "p2", "p3"] {
        register(&mut log, &mut renderers, &mut programs, Probe::new(label), TextureIndex::Index(0));
    }
    log.calls.clear();
    let plan = record_draws(&mut renderers, &programs, &mut log, 1, at_ms(1), false).unwrap();
    assert_eq!(log.calls, vec!["render p1", "render p2", "render p3"]);
    let order: Vec<usize> = plan.passes.iter().map(|p| p.renderer).collect();
    assert_eq!(order, vec![0, 1, 2]);
    assert!(plan.skipped.is_empty());
    assert!(plan.encoder_opened);
}

#[test]
fn only_due_programs_are_updated() {
    let mut log = Log::default();
    let mut renderers = Vec::new();
    let mut programs = Vec::new();
    let slow = Timing::wall_clock(at_ms(0), Span::new(100 * MS)).unwrap();
    register(&mut log, &mut renderers, &mut programs, Probe::timed("slow", slow, Timing::Disabled), TextureIndex::Index(0));
    register(&mut log, &mut renderers, &mut programs, Probe::timed("fast", Timing::Immediate, Timing::Disabled), TextureIndex::Index(0));
    register(&mut log, &mut renderers, &mut programs, Probe::timed("off", Timing::Disabled, Timing::Disabled), TextureIndex::Index(0));
    log.calls.clear();
    let report = run_updates(&mut renderers, &mut programs, &mut log, at_ms(50)).unwrap();
    assert_eq!(report.updated, vec![1]);
    let report = run_updates(&mut renderers, &mut programs, &mut log, at_ms(100)).unwrap();
    assert_eq!(report.updated, vec![0, 1]);
    match renderers[0].updatef_status {
        Timing::WallClock { last_fired, .. } => assert_eq!(last_fired, at_ms(100)),
        other => panic!("unexpected policy {:?}", other),
    }
    let report = run_updates(&mut renderers, &mut programs, &mut log, at_ms(150)).unwrap();
    assert_eq!(report.updated, vec![1]);
    assert_eq!(log.calls, vec!["update fast", "update slow", "update fast", "update fast"]);
}

#[test]
fn a_renderer_without_program_is_passed_over() {
    let mut log = Log::default();
    let mut programs: Vec<Probe> = Vec::new();
    let mut lone = TextureRenderer::new("lone", None, TextureIndex::Surface);
    lone.set_update_timing(Timing::Immediate);
    lone.set_render_timing(Timing::Immediate);
    let mut renderers = vec![lone];
    let report = tick(&mut renderers, &mut programs, &mut log, 0, at_ms(1), true).unwrap();
    assert!(report.updated.is_empty());
    assert!(report.plan.commands().is_empty());
    assert!(log.calls.is_empty());
}

#[test]
fn dangling_pairing_stops_the_phase() {
    let mut log = Log::default();
    let mut renderers = Vec::new();
    let mut programs = Vec::new();
    register(&mut log, &mut renderers, &mut programs, Probe::new("a"), TextureIndex::Index(0));
    register(&mut log, &mut renderers, &mut programs, Probe::new("b"), TextureIndex::Index(0));
    renderers[1].hook_program(9);
    log.calls.clear();
    let report = run_updates(&mut renderers, &mut programs, &mut log, at_ms(1));
    assert_eq!(report.err(), Some(RenderError::DanglingPairing));
    assert_eq!(log.calls, vec!["update a"]);
    let plan = record_draws(&mut renderers, &programs, &mut log, 1, at_ms(1), false);
    assert_eq!(plan.err(), Some(RenderError::DanglingPairing));
    let whole = tick(&mut renderers, &mut programs, &mut log, 1, at_ms(1), false);
    assert_eq!(whole.err(), Some(RenderError::DanglingPairing));
    renderers[1].set_update_timing(Timing::Disabled);
    renderers[1].set_render_timing(Timing::Disabled);
    assert!(tick(&mut renderers, &mut programs, &mut log, 1, at_ms(1), false).is_ok());
}

#[test]
fn directives_merge_by_dominance() {
    let p = FrameControl::Proceed;
    let s = FrameControl::SkipFrame;
    let c = FrameControl::Close;
    assert_eq!(p.merge(p), p);
    assert_eq!(p.merge(s), s);
    assert_eq!(s.merge(p), s);
    assert_eq!(s.merge(s), s);
    assert_eq!(s.merge(c), c);
    assert_eq!(c.merge(s), c);
    assert_eq!(c.merge(p), c);
    assert_eq!(p.merge(c), c);
    assert_eq!(c.merge(c), c);
}

#[test]
fn directives_split_into_control_and_message() {
    assert_eq!(EventLoopAction::<u8>::Nothing.split(), (FrameControl::Proceed, None));
    assert_eq!(EventLoopAction::<u8>::SkipFrame.split(), (FrameControl::SkipFrame, None));
    assert_eq!(EventLoopAction::<u8>::RequestClose.split(), (FrameControl::Close, None));
    assert_eq!(EventLoopAction::Message(7u8).split(), (FrameControl::Proceed, Some(7)));
    assert_eq!(EventLoopAction::<u8>::Nothing.peek(), FrameControl::Proceed);
    assert_eq!(EventLoopAction::<u8>::SkipFrame.peek(), FrameControl::SkipFrame);
    assert_eq!(EventLoopAction::<u8>::RequestClose.peek(), FrameControl::Close);
    assert_eq!(EventLoopAction::Message(7u8).peek(), FrameControl::Proceed);
}

#[test]
fn absorbed_messages_keep_their_order() {
    let mut d: Directives<u8> = Directives::new();
    assert_eq!(d.control, FrameControl::Proceed);
    d.absorb(EventLoopAction::Message(1));
    d.absorb(EventLoopAction::SkipFrame);
    d.absorb(EventLoopAction::Message(2));
    d.absorb(EventLoopAction::Nothing);
    assert_eq!(d.control, FrameControl::SkipFrame);
    assert_eq!(d.messages, vec![1, 2]);
    d.absorb(EventLoopAction::RequestClose);
    d.absorb(EventLoopAction::SkipFrame);
    assert_eq!(d.control, FrameControl::Close);
    assert_eq!(d.messages, vec![1, 2]);
}

#[test]
fn messages_are_queued_until_the_phase_is_over() {
    let mut log = Log::default();
    let mut renderers = Vec::new();
    let mut programs = Vec::new();
    register(&mut log, &mut renderers, &mut programs, Probe::answering("a", 3), TextureIndex::Index(0));
    register(&mut log, &mut renderers, &mut programs, Probe::answering("b", 1), TextureIndex::Index(0));
    register(&mut log, &mut renderers, &mut programs, Probe::answering("c", 3), TextureIndex::Index(0));
    log.calls.clear();
    let report = run_updates(&mut renderers, &mut programs, &mut log, at_ms(1)).unwrap();
    assert_eq!(report.messages, vec!["hello from a", "hello from c"]);
    assert_eq!(
        report.answers,
        vec![FrameControl::Proceed, FrameControl::SkipFrame, FrameControl::Proceed]
    );
    assert_eq!(report.control, FrameControl::SkipFrame);
    assert_eq!(log.calls, vec!["update a", "update b", "update c"]);
}

#[test]
fn pairing_can_be_changed() {
    let mut log = Log::default();
    let mut renderers = Vec::new();
    let mut programs = Vec::new();
    register(&mut log, &mut renderers, &mut programs, Probe::new("a"), TextureIndex::Index(0));
    register(&mut log, &mut renderers, &mut programs, Probe::new("b"), TextureIndex::Index(1));
    assert_eq!(hook_pair(&mut renderers, &mut programs, 0, 1), Ok(()));
    assert_eq!(renderers[1].program_id, Some(0));
    assert_eq!(renderers[0].program_id, Some(0));
    assert_eq!(programs[0].renderer, Some(1));
    assert_eq!(programs[1].renderer, Some(1));
    assert_eq!(hook_pair(&mut renderers, &mut programs, 2, 0), Err(RenderError::DanglingPairing));
    assert_eq!(hook_pair(&mut renderers, &mut programs, 0, 2), Err(RenderError::DanglingPairing));
    assert_eq!(renderers[0].program_id, Some(0));
    log.calls.clear();
    let report = run_updates(&mut renderers, &mut programs, &mut log, at_ms(1)).unwrap();
    assert_eq!(report.updated, vec![0, 1]);
    assert_eq!(log.calls, vec!["update a", "update a"]);
}

#[test]
fn close_during_updates_skips_the_draw_phase() {
    let mut log = Log::default();
    let mut renderers = Vec::new();
    let mut programs = Vec::new();
    register(&mut log, &mut renderers, &mut programs, Probe::new("a"), TextureIndex::Surface);
    register(&mut log, &mut renderers, &mut programs, Probe::answering("b", 2), TextureIndex::Index(0));
    register(&mut log, &mut renderers, &mut programs, Probe::new("c"), TextureIndex::Index(0));
    log.calls.clear();
    let report = tick(&mut renderers, &mut programs, &mut log, 1, at_ms(1), true).unwrap();
    assert_eq!(report.control, FrameControl::Close);
    assert_eq!(
        report.answers,
        vec![FrameControl::Proceed, FrameControl::Close, FrameControl::Proceed]
    );
    assert_eq!(report.updated, vec![0, 1, 2]);
    assert_eq!(log.calls, vec!["update a", "update b", "update c"]);
    assert!(report.plan.passes.is_empty());
    assert!(report.plan.commands().is_empty());
}

#[test]
fn skip_frame_during_updates_skips_the_draw_phase() {
    let mut log = Log::default();
    let mut renderers = Vec::new();
    let mut programs = Vec::new();
    register(&mut log, &mut renderers, &mut programs, Probe::answering("a", 1), TextureIndex::Surface);
    log.calls.clear();
    let report = tick(&mut renderers, &mut programs, &mut log, 0, at_ms(1), false).unwrap();
    assert_eq!(report.control, FrameControl::SkipFrame);
    assert!(report.plan.commands().is_empty());
    assert_eq!(log.calls, vec!["update a"]);
}

#[test]
fn idle_tick_creates_no_encoder_and_submits_nothing() {
    let mut log = Log::default();
    let mut renderers = Vec::new();
    let mut programs = Vec::new();
    let later = Timing::wall_clock(at_ms(0), Span::new(100 * MS)).unwrap();
    register(&mut log, &mut renderers, &mut programs, Probe::timed("a", later, later), TextureIndex::Surface);
    register(&mut log, &mut renderers, &mut programs, Probe::timed("b", Timing::Disabled, later), TextureIndex::Index(0));
    log.calls.clear();
    let report = tick(&mut renderers, &mut programs, &mut log, 1, at_ms(10), false).unwrap();
    assert!(report.updated.is_empty());
    assert!(report.messages.is_empty());
    assert_eq!(report.control, FrameControl::Proceed);
    assert!(!report.plan.encoder_opened);
    assert!(report.plan.commands().is_empty());
    assert!(log.calls.is_empty());
    assert_eq!(renderers[0].drawf_status, later);
}

#[test]
fn frame_is_one_batch_with_one_presentation() {
    let mut log = Log::default();
    let mut renderers = Vec::new();
    let mut programs = Vec::new();
    register(&mut log, &mut renderers, &mut programs, Probe::new("off"), TextureIndex::Index(0));
    register(&mut log, &mut renderers, &mut programs, Probe::new("screen"), TextureIndex::Surface);
    let blue = Color { r: 0, g: 0, b: 255, a: 255 };
    renderers[1].set_clear(LoadOp::Clear(blue));
    renderers[0].my_objects.push(RenderObject::with_resources(1, 2, 3));
    renderers[0].my_objects.push(RenderObject::new_placeholder_rect());
    renderers[1].my_objects.push(RenderObject::with_resources(4, 5, 6));
    let report = tick(&mut renderers, &mut programs, &mut log, 1, at_ms(1), false).unwrap();
    let cmds = report.plan.commands();
    assert_eq!(
        cmds,
        vec![
            GpuCommand::CreateEncoder,
            GpuCommand::BeginPass { target: TextureViewQuery::View(0), load: LoadOp::Load },
            GpuCommand::Draw(DrawCall { pipeline: 1, bind_group: 3, model: 2 }),
            GpuCommand::Draw(DrawCall { pipeline: 0, bind_group: 0, model: 0 }),
            GpuCommand::EndPass,
            GpuCommand::AcquireSurface,
            GpuCommand::BeginPass {
                target: TextureViewQuery::RequestSurfaceView,
                load: LoadOp::Clear(blue)
            },
            GpuCommand::Draw(DrawCall { pipeline: 4, bind_group: 6, model: 5 }),
            GpuCommand::EndPass,
            GpuCommand::Submit,
            GpuCommand::Present,
        ]
    );
}

#[test]
fn offscreen_frame_is_submitted_but_not_presented() {
    let mut log = Log::default();
    let mut renderers = Vec::new();
    let mut programs = Vec::new();
    register(&mut log, &mut renderers, &mut programs, Probe::new("off"), TextureIndex::Index(0));
    let report = tick(&mut renderers, &mut programs, &mut log, 1, at_ms(1), true).unwrap();
    assert_eq!(
        report.plan.commands(),
        vec![
            GpuCommand::CreateEncoder,
            GpuCommand::BeginPass { target: TextureViewQuery::View(0), load: LoadOp::Load },
            GpuCommand::EndPass,
            GpuCommand::Submit,
        ]
    );
}

#[test]
fn surface_is_acquired_and_presented_once_whatever_claims_it() {
    let pass = |renderer: usize| RecordedPass {
        renderer,
        program: renderer,
        target: TextureViewQuery::RequestSurfaceView,
        load: LoadOp::Load,
        pass: RenderPass::new(),
    };
    let plan = FramePlan {
        encoder_opened: true,
        passes: vec![pass(0), pass(1), pass(2)],
        skipped: vec![],
    };
    let cmds = plan.commands();
    assert_eq!(count(&cmds, GpuCommand::AcquireSurface), 1);
    assert_eq!(count(&cmds, GpuCommand::Present), 1);
    assert_eq!(count(&cmds, GpuCommand::CreateEncoder), 1);
    assert_eq!(count(&cmds, GpuCommand::Submit), 1);
    assert_eq!(count(&cmds, GpuCommand::EndPass), 3);
    assert_eq!(cmds[0], GpuCommand::CreateEncoder);
    assert_eq!(cmds[1], GpuCommand::AcquireSurface);
    assert_eq!(cmds[cmds.len() - 2], GpuCommand::Submit);
    assert_eq!(cmds[cmds.len() - 1], GpuCommand::Present);
    assert!(FramePlan::empty().commands().is_empty());
}

#[test]
fn forced_redraw_draws_the_surface_renderer_only() {
    let mut log = Log::default();
    let mut renderers = Vec::new();
    let mut programs = Vec::new();
    let later = Timing::wall_clock(at_ms(0), Span::new(100 * MS)).unwrap();
    register(&mut log, &mut renderers, &mut programs, Probe::timed("off", Timing::Disabled, later), TextureIndex::Index(0));
    register(&mut log, &mut renderers, &mut programs, Probe::timed("screen", Timing::Disabled, later), TextureIndex::Surface);
    register(&mut log, &mut renderers, &mut programs, Probe::timed("never", Timing::Disabled, Timing::Disabled), TextureIndex::Index(0));
    log.calls.clear();
    let report = tick(&mut renderers, &mut programs, &mut log, 1, at_ms(10), true).unwrap();
    let order: Vec<usize> = report.plan.passes.iter().map(|p| p.renderer).collect();
    assert_eq!(order, vec![1]);
    assert_eq!(log.calls, vec!["render screen"]);
    assert_eq!(count(&report.plan.commands(), GpuCommand::Present), 1);
    let unforced = tick(&mut renderers, &mut programs, &mut log, 1, at_ms(10), false).unwrap();
    assert!(unforced.plan.commands().is_empty());
}

#[test]
fn unavailable_target_skips_that_renderer_only() {
    let mut log = Log::default();
    let mut renderers = Vec::new();
    let mut programs = Vec::new();
    register(&mut log, &mut renderers, &mut programs, Probe::new("gone"), TextureIndex::Index(5));
    register(&mut log, &mut renderers, &mut programs, Probe::new("there"), TextureIndex::Index(1));
    log.calls.clear();
    let plan = record_draws(&mut renderers, &programs, &mut log, 2, at_ms(1), false).unwrap();
    assert_eq!(plan.skipped, vec![0]);
    let order: Vec<usize> = plan.passes.iter().map(|p| p.renderer).collect();
    assert_eq!(order, vec![1]);
    assert_eq!(plan.passes[0].program, 1);
    assert_eq!(plan.passes[0].target, TextureViewQuery::View(1));
    assert_eq!(log.calls, vec!["render there"]);
    let before = renderers[0].drawf_status;
    commit(&mut renderers, &plan, at_ms(1), GpuOutcome::Submitted).unwrap();
    assert_eq!(renderers[0].drawf_status, before);
    let retry = record_draws(&mut renderers, &programs, &mut log, 6, at_ms(2), false).unwrap();
    assert!(retry.skipped.is_empty());
    assert_eq!(retry.passes.len(), 2);
}

#[test]
fn only_unavailable_targets_still_open_the_encoder() {
    let mut log = Log::default();
    let mut renderers = Vec::new();
    let mut programs = Vec::new();
    register(&mut log, &mut renderers, &mut programs, Probe::new("gone"), TextureIndex::Index(0));
    let plan = record_draws(&mut renderers, &programs, &mut log, 0, at_ms(1), false).unwrap();
    assert!(plan.encoder_opened);
    assert!(plan.passes.is_empty());
    assert_eq!(plan.commands(), vec![GpuCommand::CreateEncoder, GpuCommand::Submit]);
}

#[test]
fn commit_fires_the_drawn_renderers() {
    let mut log = Log::default();
    let mut renderers = Vec::new();
    let mut programs = Vec::new();
    let locked = Timing::frame_locked(at_ms(0), 30_000).unwrap();
    let slow = Timing::wall_clock(at_ms(0), Span::new(500 * MS)).unwrap();
    register(&mut log, &mut renderers, &mut programs, Probe::timed("a", Timing::Disabled, locked), TextureIndex::Surface);
    register(&mut log, &mut renderers, &mut programs, Probe::timed("b", Timing::Disabled, slow), TextureIndex::Index(0));
    let now = at_ms(40);
    let plan = record_draws(&mut renderers, &programs, &mut log, 1, now, false).unwrap();
    assert_eq!(plan.passes.len(), 1);
    assert_eq!(renderers[0].drawf_status, locked);
    assert_eq!(commit(&mut renderers, &plan, now, GpuOutcome::Submitted), Ok(()));
    match renderers[0].drawf_status {
        Timing::FrameLocked { last_fired, .. } => assert_eq!(last_fired, now),
        other => panic!("unexpected policy {:?}", other),
    }
    assert_eq!(renderers[1].drawf_status, slow);
    assert!(!renderers[0].should_call_drawf(now, false));
}

#[test]
fn failed_surface_acquisition_fires_nothing() {
    let mut log = Log::default();
    let mut renderers = Vec::new();
    let mut programs = Vec::new();
    let locked = Timing::frame_locked(at_ms(0), 30_000).unwrap();
    register(&mut log, &mut renderers, &mut programs, Probe::timed("off", Timing::Disabled, locked), TextureIndex::Index(0));
    register(&mut log, &mut renderers, &mut programs, Probe::timed("screen", Timing::Disabled, locked), TextureIndex::Surface);
    let now = at_ms(40);
    let plan = record_draws(&mut renderers, &programs, &mut log, 1, now, false).unwrap();
    assert_eq!(plan.passes.len(), 2);
    assert_eq!(
        commit(&mut renderers, &plan, now, GpuOutcome::SurfaceFailed(SurfaceFailure::Lost)),
        Err(RenderError::SurfaceAcquisitionFailed(SurfaceFailure::Lost))
    );
    assert_eq!(
        commit(&mut renderers, &plan, now, GpuOutcome::SurfaceFailed(SurfaceFailure::Timeout)),
        Err(RenderError::SurfaceAcquisitionFailed(SurfaceFailure::Timeout))
    );
    assert_eq!(renderers[0].drawf_status, locked);
    assert_eq!(renderers[1].drawf_status, locked);
    assert!(renderers[1].should_call_drawf(now, false));
}

#[test]
fn a_draw_sees_the_update_of_the_same_tick() {
    struct Grower;
    impl ProgramHook for Grower {
        type Message = ();
        type Context = ();
        fn init(&mut self, renderer: &mut TextureRenderer, _state: &mut ()) {
            renderer.set_update_timing(Timing::Immediate);
            renderer.set_render_timing(Timing::Immediate);
        }
        fn hook_renderer(&mut self, _renderer_id: usize) {}
        fn update(&mut self, renderer: &mut TextureRenderer, _state: &mut ()) -> EventLoopAction<()> {
            renderer.my_objects.push(RenderObject::new_placeholder_rect());
            EventLoopAction::Nothing
        }
        fn render(&self, renderer: &mut TextureRenderer, _state: &mut (), render_pass: &mut RenderPass) {
            for object in &renderer.my_objects {
                object.render_this(render_pass);
            }
        }
    }
    let mut renderers = Vec::new();
    let mut programs = Vec::new();
    let mut ctx = ();
    create_program_and_renderer("g", &mut ctx, &mut renderers, &mut programs, Grower, TextureIndex::Surface).unwrap();
    let report = tick(&mut renderers, &mut programs, &mut ctx, 0, at_ms(1), false).unwrap();
    assert_eq!(report.plan.passes[0].pass.calls.len(), 1);
    let report = tick(&mut renderers, &mut programs, &mut ctx, 0, at_ms(2), false).unwrap();
    assert_eq!(report.plan.passes[0].pass.calls.len(), 2);
}

#[test]
fn render_pass_records_draws_in_order() {
    let mut pass = RenderPass::new();
    pass.draw(DrawCall { pipeline: 1, bind_group: 2, model: 3 });
    RenderObject::with_resources(7, 8, 9).render_this(&mut pass);
    assert_eq!(
        pass.calls,
        vec![
            DrawCall { pipeline: 1, bind_group: 2, model: 3 },
            DrawCall { pipeline: 7, bind_group: 9, model: 8 },
        ]
    );
}

#[test]
fn index_data_holds_the_indices_in_machine_order() {
    let builder: ModelBuilder = Model::new();
    let indices: Vec<u16> = vec![0, 1, 4, 258, 0xABCD];
    let data = builder.index_data(&indices).unwrap();
    assert_eq!(data.num_indices, 5);
    assert_eq!(data.bytes.len(), 10);
    for (i, index) in indices.iter().enumerate() {
        let pair = [data.bytes[2 * i], data.bytes[2 * i + 1]];
        assert_eq!(u16::from_ne_bytes(pair), *index);
    }
    let none = builder.index_data(&Vec::new()).unwrap();
    assert_eq!(none.num_indices, 0);
    assert!(none.bytes.is_empty());
}
