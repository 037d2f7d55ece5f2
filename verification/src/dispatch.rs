//! The frame dispatcher: one tick updates every program that is due, lets
//! every renderer that is due record its draws, and lays out the GPU work of
//! the frame as one batch with at most one presentation of the surface.

use vstd::prelude::*;
use crate::appmgmt::{lemma_join_all_push, EventLoopAction, FrameControl, WindowEvent};
use crate::programhook::{DrawCall, ProgramHook, RenderPass};
use crate::texturerenderer::{
    LoadOp, RenderError, SurfaceFailure, TextureIndex, TextureRenderer, TextureViewQuery,
};
use crate::timing::Timestamp;

verus! {

/// The directives of one phase, merged as they come in.
#[derive(Debug)]
pub struct Directives<T> {
    pub control: FrameControl,
    pub messages: Vec<T>,
}

/// What the update phase of a tick did.
#[derive(Debug)]
pub struct UpdateReport<T> {
    /// The renderers whose programs were updated, in the order of the calls.
    pub updated: Vec<usize>,
    /// What each update asked of the frame, in the order of the calls.
    pub answers: Vec<FrameControl>,
    /// What the programs asked of the frame, merged.
    pub control: FrameControl,
    /// The messages that the programs sent, oldest first. They go to the
    /// conductor once the phase is over.
    pub messages: Vec<T>,
}

/// One render pass of a frame: the draws that one renderer's program
/// recorded against the renderer's target.
#[derive(Debug)]
pub struct RecordedPass {
    pub renderer: usize,
    pub program: usize,
    pub target: TextureViewQuery,
    pub load: LoadOp,
    pub pass: RenderPass,
}

/// The GPU work of one frame.
#[derive(Debug)]
pub struct FramePlan {
    /// Whether the frame needs a command encoder: it does as soon as one
    /// renderer is due.
    pub encoder_opened: bool,
    /// The passes of the frame, in the order in which they are recorded.
    pub passes: Vec<RecordedPass>,
    /// The renderers that were due but whose target was not available. They
    /// are tried again on the next tick.
    pub skipped: Vec<usize>,
}

/// One step of the GPU work of a frame.
#[derive(Clone, Copy, Debug, PartialEq, Eq, Structural)]
pub enum GpuCommand {
    CreateEncoder,
    AcquireSurface,
    BeginPass { target: TextureViewQuery, load: LoadOp },
    Draw(DrawCall),
    EndPass,
    Submit,
    Present,
}

/// How the GPU work of a frame ended.
#[derive(Clone, Copy, Debug, PartialEq, Eq, Structural)]
pub enum GpuOutcome {
    /// The batch was submitted, and the surface presented if it was acquired.
    Submitted,
    /// The surface could not be acquired; the encoder was dropped.
    SurfaceFailed(SurfaceFailure),
}

/// What one tick did.
#[derive(Debug)]
pub struct TickReport<T> {
    pub updated: Vec<usize>,
    pub answers: Vec<FrameControl>,
    pub control: FrameControl,
    pub messages: Vec<T>,
    pub plan: FramePlan,
}

/// The renderer names a program that is not among `programs` programs.
pub open spec fn dangling(r: TextureRenderer, programs: nat) -> bool {
    r.program_id matches Some(p) && p >= programs
}

/// The renderer's program is to be updated at `now`.
pub open spec fn update_ready(r: TextureRenderer, now: Timestamp) -> bool {
    r.update_due(now) && r.program_id.is_some()
}

/// The renderer's program is to be asked for its draws at `now`.
pub open spec fn draw_ready(r: TextureRenderer, now: Timestamp, forced: bool) -> bool {
    r.draw_due(now, forced) && r.program_id.is_some()
}

/// The renderer gets a pass at `now`: it is ready and its target exists.
pub open spec fn draws(r: TextureRenderer, now: Timestamp, forced: bool, textures: nat) -> bool {
    draw_ready(r, now, forced) && r.target(textures).is_ok()
}

/// The renderer is ready at `now` but its target does not exist.
pub open spec fn skips(r: TextureRenderer, now: Timestamp, forced: bool, textures: nat) -> bool {
    draw_ready(r, now, forced) && r.target(textures).is_err()
}

/// The indices below `n` of the renderers whose programs are updated at
/// `now`, in registration order.
pub open spec fn update_schedule(rs: Seq<TextureRenderer>, now: Timestamp, n: nat) -> Seq<usize>
    decreases n,
{
    if n == 0 {
        Seq::empty()
    } else if update_ready(rs[n - 1], now) {
        update_schedule(rs, now, (n - 1) as nat).push((n - 1) as usize)
    } else {
        update_schedule(rs, now, (n - 1) as nat)
    }
}

/// The indices below `n` of the renderers that get a pass at `now`, in
/// registration order.
pub open spec fn draw_schedule(
    rs: Seq<TextureRenderer>,
    now: Timestamp,
    forced: bool,
    textures: nat,
    n: nat,
) -> Seq<usize>
    decreases n,
{
    if n == 0 {
        Seq::empty()
    } else if draws(rs[n - 1], now, forced, textures) {
        draw_schedule(rs, now, forced, textures, (n - 1) as nat).push((n - 1) as usize)
    } else {
        draw_schedule(rs, now, forced, textures, (n - 1) as nat)
    }
}

/// The indices below `n` of the renderers that are ready at `now` but have
/// no target, in registration order.
pub open spec fn skip_schedule(
    rs: Seq<TextureRenderer>,
    now: Timestamp,
    forced: bool,
    textures: nat,
    n: nat,
) -> Seq<usize>
    decreases n,
{
    if n == 0 {
        Seq::empty()
    } else if skips(rs[n - 1], now, forced, textures) {
        skip_schedule(rs, now, forced, textures, (n - 1) as nat).push((n - 1) as usize)
    } else {
        skip_schedule(rs, now, forced, textures, (n - 1) as nat)
    }
}

impl<T> Directives<T> {
    pub fn new() -> (d: Directives<T>)
        ensures
            d.control == FrameControl::Proceed,
            d.messages@ == Seq::<T>::empty(),
    {
        Directives { control: FrameControl::Proceed, messages: Vec::new() }
    }

    /// Takes in one directive: its control is merged with those before it,
    /// its message, if it has one, is queued behind those before it.
    pub fn absorb(&mut self, action: EventLoopAction<T>)
        ensures
            final(self).control == old(self).control.join(action.control()),
            final(self).messages@ == (match action.message() {
                Some(m) => old(self).messages@.push(m),
                None => old(self).messages@,
            }),
    {
        let (control, message) = action.split();
        self.control = self.control.merge(control);
        match message {
            Some(m) => {
                self.messages.push(m);
            },
            None => {},
        }
    }
}

/// The update phase of a tick. Every renderer whose update timing is due at
/// `now` has its program's `update` called, in registration order, and its
/// update timing told that it ran. A renderer without a program is passed
/// over. The phase stops with `DanglingPairing` at the first due renderer
/// that names a program which is not there.
///
/// What `update` does to its renderer, and which directive it returns, is
/// the program's business: `Directives::absorb` says how each directive
/// enters the report.
pub fn run_updates<P: ProgramHook>(
    renderers: &mut Vec<TextureRenderer>,
    programs: &mut Vec<P>,
    state: &mut P::Context,
    now: Timestamp,
) -> (r: Result<UpdateReport<P::Message>, RenderError>)
    ensures
        final(renderers)@.len() == old(renderers)@.len(),
        final(programs)@.len() == old(programs)@.len(),
        forall|i: int|
            0 <= i < old(renderers)@.len() && !update_ready(#[trigger] old(renderers)@[i], now)
                ==> final(renderers)@[i] == old(renderers)@[i],
        r.is_err() <==> exists|i: int|
            0 <= i < old(renderers)@.len() && (#[trigger] old(renderers)@[i]).update_due(now)
                && dangling(old(renderers)@[i], old(programs)@.len()),
        r matches Err(e) ==> e == RenderError::DanglingPairing,
        r matches Ok(report) ==> {
            &&& report.updated@ == update_schedule(old(renderers)@, now, old(renderers)@.len())
            &&& report.answers@.len() == report.updated@.len()
            &&& report.control == FrameControl::Proceed.join_all(report.answers@)
            &&& report.messages@.len() <= report.updated@.len()
            &&& updates_applied(old(renderers)@, final(renderers)@, now)
        },
{
    let ghost before = renderers@;
    let n: usize = renderers.len();
    let mut acc: Directives<P::Message> = Directives::new();
    let mut updated: Vec<usize> = Vec::new();
    let mut answers: Vec<FrameControl> = Vec::new();
    let mut i: usize = 0;
    while i < n
        invariant
            i <= n,
            before == old(renderers)@,
            n == before.len(),
            renderers@.len() == n,
            programs@.len() == old(programs)@.len(),
            updated@ == update_schedule(before, now, i as nat),
            acc.messages@.len() <= updated@.len(),
            answers@.len() == updated@.len(),
            acc.control == FrameControl::Proceed.join_all(answers@),
            forall|j: int| i <= j < n ==> renderers@[j] == before[j],
            forall|j: int|
                0 <= j < i && !update_ready(#[trigger] before[j], now) ==> renderers@[j] == before[j],
            forall|j: int|
                0 <= j < i && update_ready(#[trigger] before[j], now) ==> renderers@[j].updatef_status
                    == renderers@[j].updatef_status.fired(now),
            forall|j: int|
                0 <= j < i ==> !((#[trigger] before[j]).update_due(now) && dangling(
                    before[j],
                    programs@.len(),
                )),
        decreases n - i,
    {
        if renderers[i].should_call_updatef(now) {
            match renderers[i].program_id {
                Some(p) => {
                    if p >= programs.len() {
                        assert(before[i as int].update_due(now) && dangling(
                            before[i as int],
                            programs@.len(),
                        ));
                        return Err(RenderError::DanglingPairing);
                    }
                    let action = programs[p].update(&mut renderers[i], state);
                    renderers[i].mark_updated(now);
                    proof {
                        lemma_join_all_push(FrameControl::Proceed, answers@, action.control());
                    }
                    answers.push(action.peek());
                    acc.absorb(action);
                    updated.push(i);
                },
                None => {},
            }
        }
        i += 1;
    }
    Ok(UpdateReport { updated, answers, control: acc.control, messages: acc.messages })
}

/// Whether `pass` is the pass of the renderer at `index` of `rs`: it names
/// the renderer's program and target, and the clear policy that the renderer
/// had when the pass was opened.
pub open spec fn pass_of(pass: RecordedPass, rs: Seq<TextureRenderer>, index: usize, textures: nat) -> bool {
    &&& index < rs.len()
    &&& pass.renderer == index
    &&& rs[index as int].program_id == Some(pass.program)
    &&& rs[index as int].target(textures) == Ok::<TextureViewQuery, RenderError>(pass.target)
    &&& pass.load == rs[index as int].clear_or_load
}

/// Whether `plan` is the plan of the draw phase on the renderers `rs`:
/// one pass for each renderer that draws, in registration order; the
/// renderers without a target noted as skipped, in registration order; and
/// an encoder exactly when a renderer was ready.
pub open spec fn plan_of(plan: FramePlan, rs: Seq<TextureRenderer>, now: Timestamp, forced: bool, textures: nat) -> bool {
    let schedule = draw_schedule(rs, now, forced, textures, rs.len());
    &&& plan.passes@.len() == schedule.len()
    &&& forall|k: int| 0 <= k < schedule.len() ==> pass_of(#[trigger] plan.passes@[k], rs, schedule[k], textures)
    &&& plan.skipped@ == skip_schedule(rs, now, forced, textures, rs.len())
    &&& plan.encoder_opened <==> exists|i: int| 0 <= i < rs.len() && draw_ready(#[trigger] rs[i], now, forced)
}

/// What the update phase at `now` can make of the renderers `before`: a
/// renderer whose program is not updated stays as it is, and one whose
/// program is updated has an update timing that ran at `now`.
pub open spec fn updates_applied(before: Seq<TextureRenderer>, after: Seq<TextureRenderer>, now: Timestamp) -> bool {
    &&& after.len() == before.len()
    &&& forall|i: int| 0 <= i < before.len() && !update_ready(#[trigger] before[i], now) ==> after[i] == before[i]
    &&& forall|i: int|
        0 <= i < before.len() && update_ready(#[trigger] before[i], now) ==> after[i].updatef_status
            == after[i].updatef_status.fired(now)
}

/// What the draw phase can make of the renderers `before`: a renderer that
/// gets no pass stays as it is.
pub open spec fn draws_applied(
    before: Seq<TextureRenderer>,
    after: Seq<TextureRenderer>,
    now: Timestamp,
    forced: bool,
    textures: nat,
) -> bool {
    &&& after.len() == before.len()
    &&& forall|i: int|
        0 <= i < before.len() && !draws(#[trigger] before[i], now, forced, textures) ==> after[i] == before[i]
}

/// The draw phase of a tick, up to the GPU. Every renderer that is due at
/// `now` and has a program is looked at in registration order; `forced`
/// makes the renderer of the surface due whatever its timing says. Its
/// target is resolved against a table of `textures` textures: if it exists,
/// the program's `render` records its draws into a fresh pass; if not, the
/// renderer is noted as skipped and the phase goes on. The phase stops with
/// `DanglingPairing` at the first due renderer that names a program which is
/// not there.
///
/// No timing is touched here: `commit` does that once the GPU has taken the
/// frame.
pub fn record_draws<P: ProgramHook>(
    renderers: &mut Vec<TextureRenderer>,
    programs: &Vec<P>,
    state: &mut P::Context,
    textures: usize,
    now: Timestamp,
    forced: bool,
) -> (r: Result<FramePlan, RenderError>)
    ensures
        draws_applied(old(renderers)@, final(renderers)@, now, forced, textures as nat),
        r.is_err() <==> exists|i: int|
            0 <= i < old(renderers)@.len() && (#[trigger] old(renderers)@[i]).draw_due(now, forced)
                && dangling(old(renderers)@[i], programs@.len()),
        r matches Err(e) ==> e == RenderError::DanglingPairing,
        r matches Ok(plan) ==> plan_of(plan, old(renderers)@, now, forced, textures as nat),
{
    let ghost before = renderers@;
    let n: usize = renderers.len();
    let mut passes: Vec<RecordedPass> = Vec::new();
    let mut skipped: Vec<usize> = Vec::new();
    let mut encoder_opened: bool = false;
    let mut i: usize = 0;
    while i < n
        invariant
            i <= n,
            before == old(renderers)@,
            n == before.len(),
            renderers@.len() == n,
            passes@.len() == draw_schedule(before, now, forced, textures as nat, i as nat).len(),
            forall|k: int|
                0 <= k < passes@.len() ==> pass_of(
                    #[trigger] passes@[k],
                    before,
                    draw_schedule(before, now, forced, textures as nat, i as nat)[k],
                    textures as nat,
                ),
            skipped@ == skip_schedule(before, now, forced, textures as nat, i as nat),
            encoder_opened <==> exists|j: int| 0 <= j < i && draw_ready(#[trigger] before[j], now, forced),
            forall|j: int| i <= j < n ==> renderers@[j] == before[j],
            forall|j: int|
                0 <= j < i && !draws(#[trigger] before[j], now, forced, textures as nat) ==> renderers@[j]
                    == before[j],
            forall|j: int|
                0 <= j < i ==> !((#[trigger] before[j]).draw_due(now, forced) && dangling(
                    before[j],
                    programs@.len(),
                )),
        decreases n - i,
    {
        if renderers[i].should_call_drawf(now, forced) {
            match renderers[i].program_id {
                Some(p) => {
                    if p >= programs.len() {
                        assert(before[i as int].draw_due(now, forced) && dangling(
                            before[i as int],
                            programs@.len(),
                        ));
                        return Err(RenderError::DanglingPairing);
                    }
                    assert(draw_ready(before[i as int], now, forced));
                    encoder_opened = true;
                    match renderers[i].get_textureview(textures) {
                        Ok(target) => {
                            let load = renderers[i].clear_or_load;
                            let mut pass = RenderPass::new();
                            programs[p].render(&mut renderers[i], state, &mut pass);
                            let ghost sofar = passes@;
                            passes.push(RecordedPass { renderer: i, program: p, target, load, pass });
                            assert(forall|k: int| 0 <= k < sofar.len() ==> passes@[k] == sofar[k]);
                        },
                        Err(_) => {
                            skipped.push(i);
                        },
                    }
                },
                None => {},
            }
        }
        i += 1;
    }
    Ok(FramePlan { encoder_opened, passes, skipped })
}

/// The draws of a pass as GPU commands, in the order of their recording.
pub open spec fn draw_commands(calls: Seq<DrawCall>) -> Seq<GpuCommand> {
    Seq::new(calls.len(), |i: int| GpuCommand::Draw(calls[i]))
}

/// Whether one of the first `n` passes draws on the surface.
pub open spec fn uses_surface(passes: Seq<RecordedPass>, n: nat) -> bool
    decreases n,
{
    n > 0 && (uses_surface(passes, (n - 1) as nat) || passes[n - 1].target
        == TextureViewQuery::RequestSurfaceView)
}

impl RecordedPass {
    /// The GPU commands of this pass. The surface is acquired right before
    /// the pass where `acquire` says so.
    pub open spec fn commands(self, acquire: bool) -> Seq<GpuCommand> {
        (if acquire {
            seq![GpuCommand::AcquireSurface]
        } else {
            Seq::<GpuCommand>::empty()
        }) + seq![GpuCommand::BeginPass { target: self.target, load: self.load }] + draw_commands(
            self.pass.calls@,
        ) + seq![GpuCommand::EndPass]
    }
}

/// The GPU commands of the first `n` passes. The surface is acquired once,
/// right before the first pass that draws on it.
pub open spec fn pass_commands(passes: Seq<RecordedPass>, n: nat) -> Seq<GpuCommand>
    decreases n,
{
    if n == 0 {
        Seq::empty()
    } else {
        pass_commands(passes, (n - 1) as nat) + passes[n - 1].commands(
            passes[n - 1].target == TextureViewQuery::RequestSurfaceView && !uses_surface(
                passes,
                (n - 1) as nat,
            ),
        )
    }
}

impl FramePlan {
    /// A plan for a frame in which nothing is drawn.
    pub fn empty() -> (plan: FramePlan)
        ensures
            !plan.encoder_opened,
            plan.passes@.len() == 0,
            plan.skipped@.len() == 0,
            plan.command_seq() == Seq::<GpuCommand>::empty(),
    {
        FramePlan { encoder_opened: false, passes: Vec::new(), skipped: Vec::new() }
    }

    /// The GPU work of the frame, step by step. Without an encoder there is
    /// none. With one: the encoder is created, the passes follow in order,
    /// the batch is submitted, and the surface is presented after that if a
    /// pass drew on it.
    pub open spec fn command_seq(self) -> Seq<GpuCommand> {
        if !self.encoder_opened {
            Seq::empty()
        } else {
            seq![GpuCommand::CreateEncoder] + pass_commands(self.passes@, self.passes@.len())
                + seq![GpuCommand::Submit] + (if uses_surface(self.passes@, self.passes@.len()) {
                seq![GpuCommand::Present]
            } else {
                Seq::<GpuCommand>::empty()
            })
        }
    }

    /// Whether the renderer at `index` has a pass among the first `n`.
    pub open spec fn has_pass(self, index: int, n: int) -> bool {
        exists|k: int| 0 <= k < n && k < self.passes@.len() && (#[trigger] self.passes@[k]).renderer == index
    }

    /// The GPU work of the frame, for the host to carry out in order.
    pub fn commands(&self) -> (cmds: Vec<GpuCommand>)
        ensures
            cmds@ == self.command_seq(),
    {
        let mut cmds: Vec<GpuCommand> = Vec::new();
        if !self.encoder_opened {
            return cmds;
        }
        cmds.push(GpuCommand::CreateEncoder);
        let mut acquired: bool = false;
        let n: usize = self.passes.len();
        let mut k: usize = 0;
        while k < n
            invariant
                k <= n,
                n == self.passes@.len(),
                acquired == uses_surface(self.passes@, k as nat),
                cmds@ =~= seq![GpuCommand::CreateEncoder] + pass_commands(self.passes@, k as nat),
            decreases n - k,
        {
            let ghost head = cmds@;
            let pass = &self.passes[k];
            let on_surface: bool = match pass.target {
                TextureViewQuery::RequestSurfaceView => true,
                TextureViewQuery::View(_) => false,
            };
            let acquire: bool = on_surface && !acquired;
            if acquire {
                cmds.push(GpuCommand::AcquireSurface);
                acquired = true;
            }
            cmds.push(GpuCommand::BeginPass { target: pass.target, load: pass.load });
            let ghost opened = cmds@;
            let m: usize = pass.pass.calls.len();
            let mut c: usize = 0;
            while c < m
                invariant
                    c <= m,
                    m == pass.pass.calls@.len(),
                    cmds@ =~= opened + draw_commands(pass.pass.calls@.take(c as int)),
                decreases m - c,
            {
                cmds.push(GpuCommand::Draw(pass.pass.calls[c]));
                c += 1;
            }
            assert(pass.pass.calls@.take(m as int) =~= pass.pass.calls@);
            cmds.push(GpuCommand::EndPass);
            assert(cmds@ =~= head + pass.commands(acquire));
            k += 1;
        }
        cmds.push(GpuCommand::Submit);
        if acquired {
            cmds.push(GpuCommand::Present);
        }
        cmds
    }
}

/// Ends the draw phase. Where the GPU took the frame, every renderer that
/// has a pass in `plan` has its draw timing told that it ran at `now`; every
/// other renderer stays as it is. Where the surface could not be acquired,
/// nothing was drawn: no renderer changes, and the failure is handed on.
pub fn commit(renderers: &mut Vec<TextureRenderer>, plan: &FramePlan, now: Timestamp, outcome: GpuOutcome) -> (r:
    Result<(), RenderError>)
    ensures
        final(renderers)@.len() == old(renderers)@.len(),
        outcome matches GpuOutcome::SurfaceFailed(why) ==> r == Err::<(), RenderError>(
            RenderError::SurfaceAcquisitionFailed(why),
        ) && final(renderers)@ == old(renderers)@,
        outcome == GpuOutcome::Submitted ==> r.is_ok() && forall|i: int|
            0 <= i < old(renderers)@.len() ==> #[trigger] final(renderers)@[i] == (if plan.has_pass(
                i,
                plan.passes@.len() as int,
            ) {
                old(renderers)@[i].drawn(now)
            } else {
                old(renderers)@[i]
            }),
{
    match outcome {
        GpuOutcome::SurfaceFailed(why) => Err(RenderError::SurfaceAcquisitionFailed(why)),
        GpuOutcome::Submitted => {
            let ghost before = renderers@;
            let n: usize = plan.passes.len();
            let mut k: usize = 0;
            while k < n
                invariant
                    k <= n,
                    n == plan.passes@.len(),
                    before == old(renderers)@,
                    renderers@.len() == before.len(),
                    forall|i: int|
                        0 <= i < before.len() ==> #[trigger] renderers@[i] == (if plan.has_pass(i, k as int) {
                            before[i].drawn(now)
                        } else {
                            before[i]
                        }),
                decreases n - k,
            {
                let index: usize = plan.passes[k].renderer;
                let ghost sofar = renderers@;
                if index < renderers.len() {
                    renderers[index].mark_drawn(now);
                }
                assert forall|i: int| 0 <= i < before.len() implies #[trigger] renderers@[i] == (if plan.has_pass(
                    i,
                    k + 1,
                ) {
                    before[i].drawn(now)
                } else {
                    before[i]
                }) by {
                    if i == index {
                        assert(plan.passes@[k as int].renderer == i);
                        assert(plan.has_pass(i, k + 1));
                    } else {
                        assert(renderers@[i] == sofar[i]);
                        if plan.has_pass(i, k + 1) {
                            let w = choose|w: int|
                                0 <= w < k + 1 && w < plan.passes@.len() && (#[trigger] plan.passes@[w]).renderer
                                    == i;
                            assert(w < k);
                            assert(plan.has_pass(i, k as int));
                        }
                    }
                }
                k += 1;
            }
            Ok(())
        },
    }
}

/// One tick up to the GPU: the update phase, then, unless a program asked
/// to skip the frame or to close, the draw phase. Updates are over before
/// the first draw is recorded, so a draw sees what its own update did.
///
/// The host carries out `plan.commands()` and reports to `commit`.
pub fn tick<P: ProgramHook>(
    renderers: &mut Vec<TextureRenderer>,
    programs: &mut Vec<P>,
    state: &mut P::Context,
    textures: usize,
    now: Timestamp,
    forced: bool,
) -> (r: Result<TickReport<P::Message>, RenderError>)
    ensures
        final(renderers)@.len() == old(renderers)@.len(),
        final(programs)@.len() == old(programs)@.len(),
        forall|i: int|
            0 <= i < old(renderers)@.len() && !(#[trigger] old(renderers)@[i]).update_due(now) && !old(
                renderers,
            )@[i].draw_due(now, forced) ==> final(renderers)@[i] == old(renderers)@[i],
        r matches Err(e) ==> e == RenderError::DanglingPairing,
        (forall|i: int|
            0 <= i < old(renderers)@.len() ==> !dangling(
                #[trigger] old(renderers)@[i],
                old(programs)@.len(),
            )) && (forall|i: int|
            0 <= i < old(renderers)@.len() ==> !update_ready(#[trigger] old(renderers)@[i], now))
            ==> r.is_ok(),
        (exists|i: int|
            0 <= i < old(renderers)@.len() && (#[trigger] old(renderers)@[i]).update_due(now) && dangling(
                old(renderers)@[i],
                old(programs)@.len(),
            )) ==> r.is_err(),
        r matches Ok(report) ==> {
            &&& report.updated@ == update_schedule(old(renderers)@, now, old(renderers)@.len())
            &&& report.answers@.len() == report.updated@.len()
            &&& report.control == FrameControl::Proceed.join_all(report.answers@)
            &&& report.messages@.len() <= report.updated@.len()
            &&& report.control != FrameControl::Proceed ==> report.plan.command_seq() == Seq::<
                GpuCommand,
            >::empty() && updates_applied(old(renderers)@, final(renderers)@, now)
            &&& report.control == FrameControl::Proceed ==> exists|mid: Seq<TextureRenderer>|
                {
                    &&& #[trigger] updates_applied(old(renderers)@, mid, now)
                    &&& plan_of(report.plan, mid, now, forced, textures as nat)
                    &&& draws_applied(mid, final(renderers)@, now, forced, textures as nat)
                }
            &&& (forall|i: int|
                0 <= i < old(renderers)@.len() ==> !(#[trigger] old(renderers)@[i]).update_due(now) && !old(
                    renderers,
                )@[i].draw_due(now, forced)) ==> {
                &&& report.updated@.len() == 0
                &&& report.messages@.len() == 0
                &&& report.control == FrameControl::Proceed
                &&& report.plan.command_seq() == Seq::<GpuCommand>::empty()
            }
        },
{
    let ghost before = renderers@;
    let report = match run_updates(renderers, programs, state, now) {
        Ok(report) => report,
        Err(e) => {
            return Err(e);
        },
    };
    let ghost mid = renderers@;
    proof {
        if forall|i: int| 0 <= i < before.len() ==> !update_ready(#[trigger] before[i], now) {
            assert(mid =~= before);
        }
    }
    let plan = match report.control {
        FrameControl::Proceed => {
            match record_draws(renderers, programs, state, textures, now, forced) {
                Ok(plan) => plan,
                Err(e) => {
                    return Err(e);
                },
            }
        },
        _ => FramePlan::empty(),
    };
    proof {
        if report.control == FrameControl::Proceed {
            assert(updates_applied(before, mid, now) && plan_of(plan, mid, now, forced, textures as nat)
                && draws_applied(mid, renderers@, now, forced, textures as nat));
        }
        if forall|i: int|
            0 <= i < before.len() ==> !(#[trigger] before[i]).update_due(now) && !before[i].draw_due(
                now,
                forced,
            ) {
            lemma_idle_schedules(before, now, forced, textures as nat, before.len());
            assert(mid =~= before);
            if plan.encoder_opened {
                let i = choose|i: int| 0 <= i < mid.len() && draw_ready(#[trigger] mid[i], now, forced);
                assert(!before[i].draw_due(now, forced));
            }
        }
    }
    Ok(
        TickReport {
            updated: report.updated,
            answers: report.answers,
            control: report.control,
            messages: report.messages,
            plan,
        },
    )
}

/// How often `c` occurs in `cmds`.
pub open spec fn count(cmds: Seq<GpuCommand>, c: GpuCommand) -> nat
    decreases cmds.len(),
{
    if cmds.len() == 0 {
        0
    } else {
        count(cmds.drop_last(), c) + (if cmds.last() == c {
            1nat
        } else {
            0nat
        })
    }
}

proof fn lemma_count_concat(a: Seq<GpuCommand>, b: Seq<GpuCommand>, c: GpuCommand)
    ensures
        count(a + b, c) == count(a, c) + count(b, c),
    decreases b.len(),
{
    if b.len() == 0 {
        assert(a + b =~= a);
    } else {
        assert((a + b).drop_last() =~= a + b.drop_last());
        lemma_count_concat(a, b.drop_last(), c);
    }
}

proof fn lemma_count_single(x: GpuCommand, c: GpuCommand)
    ensures
        count(seq![x], c) == (if x == c {
            1nat
        } else {
            0nat
        }),
        count(Seq::<GpuCommand>::empty(), c) == 0,
{
    reveal_with_fuel(count, 2);
    assert(seq![x].drop_last() =~= Seq::<GpuCommand>::empty());
}

proof fn lemma_count_draws(calls: Seq<DrawCall>, c: GpuCommand)
    requires
        !(c is Draw),
    ensures
        count(draw_commands(calls), c) == 0,
    decreases calls.len(),
{
    if calls.len() > 0 {
        assert(draw_commands(calls).drop_last() =~= draw_commands(calls.drop_last()));
        lemma_count_draws(calls.drop_last(), c);
    }
}

proof fn lemma_count_pass(pass: RecordedPass, acquire: bool, c: GpuCommand)
    requires
        !(c is Draw),
        !(c is BeginPass),
        c != GpuCommand::EndPass,
    ensures
        count(pass.commands(acquire), c) == (if acquire && c == GpuCommand::AcquireSurface {
            1nat
        } else {
            0nat
        }),
{
    let first = if acquire {
        seq![GpuCommand::AcquireSurface]
    } else {
        Seq::<GpuCommand>::empty()
    };
    let begin = seq![GpuCommand::BeginPass { target: pass.target, load: pass.load }];
    let body = draw_commands(pass.pass.calls@);
    let end = seq![GpuCommand::EndPass];
    lemma_count_single(GpuCommand::AcquireSurface, c);
    lemma_count_single(GpuCommand::BeginPass { target: pass.target, load: pass.load }, c);
    lemma_count_single(GpuCommand::EndPass, c);
    lemma_count_draws(pass.pass.calls@, c);
    lemma_count_concat(first, begin, c);
    lemma_count_concat(first + begin, body, c);
    lemma_count_concat(first + begin + body, end, c);
}

proof fn lemma_count_passes(passes: Seq<RecordedPass>, n: nat, c: GpuCommand)
    requires
        n <= passes.len(),
        !(c is Draw),
        !(c is BeginPass),
        c != GpuCommand::EndPass,
    ensures
        count(pass_commands(passes, n), c) == (if c == GpuCommand::AcquireSurface && uses_surface(passes, n) {
            1nat
        } else {
            0nat
        }),
    decreases n,
{
    if n == 0 {
        lemma_count_single(c, c);
    } else {
        let m = (n - 1) as nat;
        let acquire = passes[n - 1].target == TextureViewQuery::RequestSurfaceView && !uses_surface(passes, m);
        lemma_count_passes(passes, m, c);
        lemma_count_pass(passes[n - 1], acquire, c);
        lemma_count_concat(pass_commands(passes, m), passes[n - 1].commands(acquire), c);
    }
}

/// The shape of every frame. An encoder is created at most once, and what
/// was created is submitted, once. The surface is acquired at most once,
/// however many passes draw on it, and presented exactly as often as it was
/// acquired: never twice, and once exactly when a pass draws on it. A
/// presentation is the last step of the frame and follows the submission
/// directly. A frame without an encoder has no step at all.
pub proof fn lemma_frame_shape(plan: FramePlan)
    ensures
        count(plan.command_seq(), GpuCommand::CreateEncoder) == (if plan.encoder_opened {
            1nat
        } else {
            0nat
        }),
        count(plan.command_seq(), GpuCommand::Submit) == count(plan.command_seq(), GpuCommand::CreateEncoder),
        count(plan.command_seq(), GpuCommand::Present) <= 1,
        count(plan.command_seq(), GpuCommand::Present) == count(
            plan.command_seq(),
            GpuCommand::AcquireSurface,
        ),
        count(plan.command_seq(), GpuCommand::Present) == 1 <==> plan.encoder_opened && uses_surface(
            plan.passes@,
            plan.passes@.len(),
        ),
        !plan.encoder_opened ==> plan.command_seq().len() == 0,
        plan.encoder_opened ==> plan.command_seq().len() >= 2 && plan.command_seq()[0]
            == GpuCommand::CreateEncoder,
        count(plan.command_seq(), GpuCommand::Present) == 1 ==> plan.command_seq().last()
            == GpuCommand::Present && plan.command_seq()[plan.command_seq().len() - 2] == GpuCommand::Submit,
        plan.encoder_opened && count(plan.command_seq(), GpuCommand::Present) == 0
            ==> plan.command_seq().last() == GpuCommand::Submit,
{
    let passes = plan.passes@;
    let n = passes.len();
    let open = seq![GpuCommand::CreateEncoder];
    let body = pass_commands(passes, n);
    let submit = seq![GpuCommand::Submit];
    let present = if uses_surface(passes, n) {
        seq![GpuCommand::Present]
    } else {
        Seq::<GpuCommand>::empty()
    };
    if plan.encoder_opened {
        assert(plan.command_seq() == open + body + submit + present);
        assert forall|c: GpuCommand| !(c is Draw) && !(c is BeginPass) && c != GpuCommand::EndPass implies count(
            plan.command_seq(),
            c,
        ) == count(open, c) + count(body, c) + count(submit, c) + count(present, c) by {
            lemma_count_concat(open, body, c);
            lemma_count_concat(open + body, submit, c);
            lemma_count_concat(open + body + submit, present, c);
        }
        lemma_count_passes(passes, n, GpuCommand::CreateEncoder);
        lemma_count_passes(passes, n, GpuCommand::Submit);
        lemma_count_passes(passes, n, GpuCommand::Present);
        lemma_count_passes(passes, n, GpuCommand::AcquireSurface);
        lemma_count_single(GpuCommand::CreateEncoder, GpuCommand::CreateEncoder);
        lemma_count_single(GpuCommand::CreateEncoder, GpuCommand::Submit);
        lemma_count_single(GpuCommand::CreateEncoder, GpuCommand::Present);
        lemma_count_single(GpuCommand::CreateEncoder, GpuCommand::AcquireSurface);
        lemma_count_single(GpuCommand::Submit, GpuCommand::CreateEncoder);
        lemma_count_single(GpuCommand::Submit, GpuCommand::Submit);
        lemma_count_single(GpuCommand::Submit, GpuCommand::Present);
        lemma_count_single(GpuCommand::Submit, GpuCommand::AcquireSurface);
        lemma_count_single(GpuCommand::Present, GpuCommand::CreateEncoder);
        lemma_count_single(GpuCommand::Present, GpuCommand::Submit);
        lemma_count_single(GpuCommand::Present, GpuCommand::Present);
        lemma_count_single(GpuCommand::Present, GpuCommand::AcquireSurface);
    } else {
        lemma_count_single(GpuCommand::Submit, GpuCommand::Submit);
    }
}

/// Where no renderer is due for an update or for a draw, nothing is
/// scheduled: no update, no pass, no skipped renderer.
pub proof fn lemma_idle_schedules(rs: Seq<TextureRenderer>, now: Timestamp, forced: bool, textures: nat, n: nat)
    requires
        n <= rs.len(),
        forall|i: int| 0 <= i < n ==> !(#[trigger] rs[i]).update_due(now) && !rs[i].draw_due(now, forced),
    ensures
        update_schedule(rs, now, n) == Seq::<usize>::empty(),
        draw_schedule(rs, now, forced, textures, n) == Seq::<usize>::empty(),
        skip_schedule(rs, now, forced, textures, n) == Seq::<usize>::empty(),
    decreases n,
{
    if n > 0 {
        lemma_idle_schedules(rs, now, forced, textures, (n - 1) as nat);
    }
}

/// A tick on which no renderer is due for a draw creates no encoder and
/// submits nothing: its plan has no step at all.
pub proof fn lemma_idle_plan_is_empty(
    plan: FramePlan,
    rs: Seq<TextureRenderer>,
    now: Timestamp,
    forced: bool,
    textures: nat,
)
    requires
        plan_of(plan, rs, now, forced, textures),
        forall|i: int| 0 <= i < rs.len() ==> !(#[trigger] rs[i]).draw_due(now, forced),
    ensures
        plan.command_seq() == Seq::<GpuCommand>::empty(),
        count(plan.command_seq(), GpuCommand::CreateEncoder) == 0,
        count(plan.command_seq(), GpuCommand::Submit) == 0,
        count(plan.command_seq(), GpuCommand::Present) == 0,
        plan.passes@.len() == 0,
        plan.skipped@.len() == 0,
{
    if plan.encoder_opened {
        let i = choose|i: int| 0 <= i < rs.len() && draw_ready(#[trigger] rs[i], now, forced);
        assert(!rs[i].draw_due(now, forced));
    }
    lemma_frame_shape(plan);
    lemma_draw_schedule_empty(rs, now, forced, textures, rs.len());
}

proof fn lemma_draw_schedule_empty(rs: Seq<TextureRenderer>, now: Timestamp, forced: bool, textures: nat, n: nat)
    requires
        n <= rs.len(),
        forall|i: int| 0 <= i < n ==> !(#[trigger] rs[i]).draw_due(now, forced),
    ensures
        draw_schedule(rs, now, forced, textures, n) == Seq::<usize>::empty(),
        skip_schedule(rs, now, forced, textures, n) == Seq::<usize>::empty(),
    decreases n,
{
    if n > 0 {
        lemma_draw_schedule_empty(rs, now, forced, textures, (n - 1) as nat);
    }
}

/// Registration order is the order of the calls. The update schedule lists
/// exactly the renderers that are ready, each once, with indices going up.
pub proof fn lemma_update_schedule_order(rs: Seq<TextureRenderer>, now: Timestamp, n: nat)
    requires
        n <= rs.len(),
        rs.len() <= usize::MAX,
    ensures
        forall|k: int|
            0 <= k < update_schedule(rs, now, n).len() ==> (#[trigger] update_schedule(rs, now, n)[k]) < n
                && update_ready(rs[update_schedule(rs, now, n)[k] as int], now),
        forall|j: int, k: int|
            0 <= j < k < update_schedule(rs, now, n).len() ==> (#[trigger] update_schedule(rs, now, n)[j])
                < (#[trigger] update_schedule(rs, now, n)[k]),
        forall|i: int|
            0 <= i < n && update_ready(#[trigger] rs[i], now) ==> update_schedule(rs, now, n).contains(
                i as usize,
            ),
    decreases n,
{
    if n > 0 {
        let m = (n - 1) as nat;
        let prev = update_schedule(rs, now, m);
        let full = update_schedule(rs, now, n);
        lemma_update_schedule_order(rs, now, m);
        assert forall|i: int| 0 <= i < n && update_ready(#[trigger] rs[i], now) implies full.contains(
            i as usize,
        ) by {
            if i < m {
                let k = choose|k: int| 0 <= k < prev.len() && prev[k] == i as usize;
                assert(full[k] == i as usize);
            } else {
                assert(full[full.len() - 1] == i as usize);
            }
        }
    }
}

/// The draw schedule lists exactly the renderers that get a pass, each
/// once, with indices going up.
pub proof fn lemma_draw_schedule_order(rs: Seq<TextureRenderer>, now: Timestamp, forced: bool, textures: nat, n: nat)
    requires
        n <= rs.len(),
        rs.len() <= usize::MAX,
    ensures
        forall|k: int|
            0 <= k < draw_schedule(rs, now, forced, textures, n).len() ==> (#[trigger] draw_schedule(
                rs,
                now,
                forced,
                textures,
                n,
            )[k]) < n && draws(rs[draw_schedule(rs, now, forced, textures, n)[k] as int], now, forced, textures),
        forall|j: int, k: int|
            0 <= j < k < draw_schedule(rs, now, forced, textures, n).len() ==> (#[trigger] draw_schedule(
                rs,
                now,
                forced,
                textures,
                n,
            )[j]) < (#[trigger] draw_schedule(rs, now, forced, textures, n)[k]),
        forall|i: int|
            0 <= i < n && draws(#[trigger] rs[i], now, forced, textures) ==> draw_schedule(
                rs,
                now,
                forced,
                textures,
                n,
            ).contains(i as usize),
    decreases n,
{
    if n > 0 {
        let m = (n - 1) as nat;
        let prev = draw_schedule(rs, now, forced, textures, m);
        let full = draw_schedule(rs, now, forced, textures, n);
        lemma_draw_schedule_order(rs, now, forced, textures, m);
        assert forall|i: int| 0 <= i < n && draws(#[trigger] rs[i], now, forced, textures) implies full.contains(
            i as usize,
        ) by {
            if i < m {
                let k = choose|k: int| 0 <= k < prev.len() && prev[k] == i as usize;
                assert(full[k] == i as usize);
            } else {
                assert(full[full.len() - 1] == i as usize);
            }
        }
    }
}

/// On a tick where the programs of the first `n` renderers are all due for
/// an update, they are updated in exactly the order of their registration;
/// and where all are due for a draw and their targets exist, their passes
/// are recorded in exactly that order.
pub proof fn lemma_all_due_in_registration_order(
    rs: Seq<TextureRenderer>,
    now: Timestamp,
    forced: bool,
    textures: nat,
    n: nat,
)
    requires
        n <= rs.len(),
        rs.len() <= usize::MAX,
    ensures
        (forall|i: int| 0 <= i < n ==> update_ready(#[trigger] rs[i], now)) ==> update_schedule(rs, now, n)
            == Seq::new(n, |i: int| i as usize),
        (forall|i: int| 0 <= i < n ==> draws(#[trigger] rs[i], now, forced, textures)) ==> draw_schedule(
            rs,
            now,
            forced,
            textures,
            n,
        ) == Seq::new(n, |i: int| i as usize),
    decreases n,
{
    if n > 0 {
        let m = (n - 1) as nat;
        lemma_all_due_in_registration_order(rs, now, forced, textures, m);
        if forall|i: int| 0 <= i < n ==> update_ready(#[trigger] rs[i], now) {
            assert(update_schedule(rs, now, n) =~= Seq::new(n, |i: int| i as usize));
        }
        if forall|i: int| 0 <= i < n ==> draws(#[trigger] rs[i], now, forced, textures) {
            assert(draw_schedule(rs, now, forced, textures, n) =~= Seq::new(n, |i: int| i as usize));
        }
    } else {
        assert(update_schedule(rs, now, n) =~= Seq::new(n, |i: int| i as usize));
        assert(draw_schedule(rs, now, forced, textures, n) =~= Seq::new(n, |i: int| i as usize));
    }
}

/// What the delivery of a window event to the programs did.
#[derive(Debug)]
pub struct InputReport<T> {
    /// The renderers whose programs received the event, in the order of the
    /// calls.
    pub delivered: Vec<usize>,
    /// What each program asked of the frame, in the order of the calls.
    pub answers: Vec<FrameControl>,
    /// What the programs asked of the frame, merged.
    pub control: FrameControl,
    /// The messages that the programs sent, oldest first.
    pub messages: Vec<T>,
}

/// The indices below `n` of the renderers that have a program, in
/// registration order.
pub open spec fn input_schedule(rs: Seq<TextureRenderer>, n: nat) -> Seq<usize>
    decreases n,
{
    if n == 0 {
        Seq::empty()
    } else if rs[n - 1].program_id.is_some() {
        input_schedule(rs, (n - 1) as nat).push((n - 1) as usize)
    } else {
        input_schedule(rs, (n - 1) as nat)
    }
}

/// Hands a window event to the program of every renderer that has one, in
/// registration order. No timing is read or touched: input is not
/// scheduled. The delivery stops with `DanglingPairing` at the first
/// renderer that names a program which is not there.
pub fn deliver_input<P: ProgramHook>(
    renderers: &mut Vec<TextureRenderer>,
    programs: &mut Vec<P>,
    state: &mut P::Context,
    event: &WindowEvent,
) -> (r: Result<InputReport<P::Message>, RenderError>)
    ensures
        final(renderers)@.len() == old(renderers)@.len(),
        final(programs)@.len() == old(programs)@.len(),
        forall|i: int|
            0 <= i < old(renderers)@.len() && (#[trigger] old(renderers)@[i]).program_id.is_none()
                ==> final(renderers)@[i] == old(renderers)@[i],
        r.is_err() <==> exists|i: int|
            0 <= i < old(renderers)@.len() && dangling(#[trigger] old(renderers)@[i], old(programs)@.len()),
        r matches Err(e) ==> e == RenderError::DanglingPairing,
        r matches Ok(report) ==> {
            &&& report.delivered@ == input_schedule(old(renderers)@, old(renderers)@.len())
            &&& report.answers@.len() == report.delivered@.len()
            &&& report.control == FrameControl::Proceed.join_all(report.answers@)
            &&& report.messages@.len() <= report.delivered@.len()
        },
{
    let ghost before = renderers@;
    let n: usize = renderers.len();
    let mut acc: Directives<P::Message> = Directives::new();
    let mut delivered: Vec<usize> = Vec::new();
    let mut answers: Vec<FrameControl> = Vec::new();
    let mut i: usize = 0;
    while i < n
        invariant
            i <= n,
            before == old(renderers)@,
            n == before.len(),
            renderers@.len() == n,
            programs@.len() == old(programs)@.len(),
            delivered@ == input_schedule(before, i as nat),
            acc.messages@.len() <= delivered@.len(),
            answers@.len() == delivered@.len(),
            acc.control == FrameControl::Proceed.join_all(answers@),
            forall|j: int| i <= j < n ==> renderers@[j] == before[j],
            forall|j: int|
                0 <= j < i && (#[trigger] before[j]).program_id.is_none() ==> renderers@[j] == before[j],
            forall|j: int| 0 <= j < i ==> !dangling(#[trigger] before[j], programs@.len()),
        decreases n - i,
    {
        match renderers[i].program_id {
            Some(p) => {
                if p >= programs.len() {
                    assert(dangling(before[i as int], programs@.len()));
                    return Err(RenderError::DanglingPairing);
                }
                let action = programs[p].input(&mut renderers[i], state, event);
                proof {
                    lemma_join_all_push(FrameControl::Proceed, answers@, action.control());
                }
                answers.push(action.peek());
                acc.absorb(action);
                delivered.push(i);
            },
            None => {},
        }
        i += 1;
    }
    Ok(InputReport { delivered, answers, control: acc.control, messages: acc.messages })
}

} // verus!
