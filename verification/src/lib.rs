//! A scheduling core for programs that share one GPU device and one display
//! surface: which programs update and draw on a tick, in what order, and how
//! their work reaches the queue and the screen.

pub mod appmgmt;
pub mod combos;
pub mod conductor;
pub mod dispatch;
pub mod eventloop;
pub mod modelbuffers;
pub mod programhook;
pub mod proxyevents;
pub mod renderablestate;
pub mod renderobj;
pub mod texturerenderer;
pub mod timing;
pub mod wgpustate;

use vstd::prelude::*;
use crate::programhook::ProgramHook;
use crate::texturerenderer::{LoadOp, RenderError, TextureIndex, TextureRenderer};
use crate::timing::Timing;

verus! {

/// Why a program could not be registered.
#[derive(Clone, Copy, Debug, PartialEq, Eq, Structural)]
pub enum RegistryError {
    /// The new renderer was to draw on the surface, and a renderer that does
    /// so is registered already.
    SurfaceClaimed,
}

/// Whether one of the renderers draws on the surface.
pub open spec fn claims_surface(rs: Seq<TextureRenderer>) -> bool {
    exists|i: int| 0 <= i < rs.len() && (#[trigger] rs[i]).texture == TextureIndex::Surface
}

/// At most one of the renderers draws on the surface.
pub open spec fn surface_claimed_once(rs: Seq<TextureRenderer>) -> bool {
    forall|i: int, j: int|
        0 <= i < rs.len() && 0 <= j < rs.len() && (#[trigger] rs[i]).texture == TextureIndex::Surface && (
        #[trigger] rs[j]).texture == TextureIndex::Surface ==> i == j
}

/// The renderer that a new pairing starts with, before the program's `init`
/// has seen it.
pub open spec fn fresh_renderer(r: TextureRenderer, name: Seq<char>, program: usize, target: TextureIndex) -> bool {
    &&& r.name@ == name
    &&& r.texture == target
    &&& r.clear_or_load == LoadOp::Load
    &&& r.my_objects@.len() == 0
    &&& r.program_id == Some(program)
    &&& r.drawf_status == Timing::Disabled
    &&& r.updatef_status == Timing::Disabled
}

/// Whether one of the renderers draws on the surface.
pub fn surface_claimed(renderers: &Vec<TextureRenderer>) -> (b: bool)
    ensures
        b == claims_surface(renderers@),
{
    let mut i: usize = 0;
    while i < renderers.len()
        invariant
            i <= renderers@.len(),
            forall|j: int| 0 <= j < i ==> (#[trigger] renderers@[j]).texture != TextureIndex::Surface,
        decreases renderers@.len() - i,
    {
        match renderers[i].texture {
            TextureIndex::Surface => {
                return true;
            },
            TextureIndex::Index(_) => {},
        }
        i += 1;
    }
    false
}

/// Appends `phook` to the programs and a new renderer for `target` to the
/// renderers, and tells each the index of the other. The program's `init`
/// is not called.
///
/// A second renderer for the surface is refused, and nothing changes.
pub fn pair_program_and_renderer<P: ProgramHook>(
    nametag: &str,
    renderers: &mut Vec<TextureRenderer>,
    programs: &mut Vec<P>,
    phook: P,
    target: TextureIndex,
) -> (r: Result<(usize, usize), RegistryError>)
    ensures
        r.is_err() <==> target == TextureIndex::Surface && claims_surface(old(renderers)@),
        r matches Err(e) ==> e == RegistryError::SurfaceClaimed && final(renderers)@ == old(renderers)@ && final(programs)@
            == old(programs)@,
        r matches Ok(ids) ==> {
            &&& ids.0 == old(programs)@.len()
            &&& ids.1 == old(renderers)@.len()
            &&& final(programs)@.len() == old(programs)@.len() + 1
            &&& final(programs)@.take(ids.0 as int) == old(programs)@
            &&& final(renderers)@.len() == old(renderers)@.len() + 1
            &&& final(renderers)@.take(ids.1 as int) == old(renderers)@
            &&& fresh_renderer(final(renderers)@[ids.1 as int], nametag@, ids.0, target)
            &&& surface_claimed_once(old(renderers)@) ==> surface_claimed_once(final(renderers)@)
        },
{
    let on_surface: bool = match target {
        TextureIndex::Surface => true,
        TextureIndex::Index(_) => false,
    };
    if on_surface && surface_claimed(renderers) {
        return Err(RegistryError::SurfaceClaimed);
    }
    let program_id: usize = programs.len();
    let renderer_id: usize = renderers.len();
    programs.push(phook);
    renderers.push(TextureRenderer::new(nametag, None, target));
    programs[program_id].hook_renderer(renderer_id);
    renderers[renderer_id].hook_program(program_id);
    assert(programs@.take(program_id as int) =~= old(programs)@);
    assert(renderers@.take(renderer_id as int) =~= old(renderers)@);
    Ok((program_id, renderer_id))
}

/// Creates a paired program and renderer and returns their indices, the
/// program's first. The pair is wired first; then the program's `init` is
/// called, once, before any other call reaches the program.
///
/// What `init` makes of the new renderer is the program's business;
/// `pair_program_and_renderer` says what it is handed. Renderers and
/// programs that were there before are not touched.
pub fn create_program_and_renderer<P: ProgramHook>(
    nametag: &str,
    state: &mut P::Context,
    renderers: &mut Vec<TextureRenderer>,
    programs: &mut Vec<P>,
    phook: P,
    target: TextureIndex,
) -> (r: Result<(usize, usize), RegistryError>)
    ensures
        r.is_err() <==> target == TextureIndex::Surface && claims_surface(old(renderers)@),
        r matches Err(e) ==> e == RegistryError::SurfaceClaimed && final(renderers)@ == old(renderers)@ && final(programs)@
            == old(programs)@,
        r matches Ok(ids) ==> {
            &&& ids.0 == old(programs)@.len()
            &&& ids.1 == old(renderers)@.len()
            &&& final(programs)@.len() == old(programs)@.len() + 1
            &&& final(programs)@.take(ids.0 as int) == old(programs)@
            &&& final(renderers)@.len() == old(renderers)@.len() + 1
            &&& final(renderers)@.take(ids.1 as int) == old(renderers)@
            &&& (final(renderers)@[ids.1 as int].texture == target && surface_claimed_once(old(renderers)@))
                ==> surface_claimed_once(final(renderers)@)
        },
{
    match pair_program_and_renderer(nametag, renderers, programs, phook, target) {
        Err(e) => Err(e),
        Ok((program_id, renderer_id)) => {
            let ghost paired = renderers@;
            let ghost hooked = programs@;
            programs[program_id].init(&mut renderers[renderer_id], state);
            assert(programs@.take(program_id as int) =~= hooked.take(program_id as int));
            assert(renderers@.take(renderer_id as int) =~= paired.take(renderer_id as int));
            Ok((program_id, renderer_id))
        },
    }
}

/// Pairs the program at `program_id` with the renderer at `renderer_id`:
/// the renderer is given the program's index, and the program is told the
/// renderer's through `hook_renderer`. Work that was dispatched before is
/// not moved. Where either index names nothing the pairing would dangle:
/// it is refused, and nothing changes.
pub fn hook_pair<P: ProgramHook>(
    renderers: &mut Vec<TextureRenderer>,
    programs: &mut Vec<P>,
    program_id: usize,
    renderer_id: usize,
) -> (r: Result<(), RenderError>)
    ensures
        r.is_ok() <==> program_id < old(programs)@.len() && renderer_id < old(renderers)@.len(),
        r matches Err(e) ==> e == RenderError::DanglingPairing && final(renderers)@ == old(renderers)@ && final(programs)@ == old(programs)@,
        r.is_ok() ==> {
            &&& final(renderers)@ == old(renderers)@.update(
                renderer_id as int,
                TextureRenderer { program_id: Some(program_id), ..old(renderers)@[renderer_id as int] },
            )
            &&& final(programs)@.len() == old(programs)@.len()
            &&& forall|i: int|
                0 <= i < old(programs)@.len() && i != program_id ==> final(programs)@[i] == old(programs)@[i]
        },
{
    if program_id >= programs.len() || renderer_id >= renderers.len() {
        return Err(RenderError::DanglingPairing);
    }
    programs[program_id].hook_renderer(renderer_id);
    renderers[renderer_id].hook_program(program_id);
    assert(renderers@ =~= old(renderers)@.update(
        renderer_id as int,
        TextureRenderer { program_id: Some(program_id), ..old(renderers)@[renderer_id as int] },
    ));
    Ok(())
}

} // verus!
