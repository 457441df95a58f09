use rand::Rng;
use vstd::prelude::*;

use crate::color::Rgba;
use crate::life::{colorize, compute_color, compute_life, next_gen, Grid};

verus! {

// The simulation engine. It owns two equal-size grids whose roles swap
// every step (double buffering), and the output image the colorize phase
// writes. Each `compute` call records two dispatches over the same
// submission -- phase 0 advances the automaton, phase 1 colorizes -- and
// then swaps the buffer roles, so the next call reads the generation this
// call wrote.

/// The abstract state of the engine: the most recently computed
/// generation (`current`), the superseded one (`scratch`), and the output
/// image.
#[verifier::ext_equal]
pub ghost struct EngineView {
    pub width: nat,
    pub height: nat,
    pub current: Seq<u32>,
    pub scratch: Seq<u32>,
    pub image: Seq<Rgba>,
}

/// What one `compute` call does to the abstract state: the new current
/// generation is the successor of the old one, the old current becomes
/// the scratch, and the image colors the new generation.
pub open spec fn step_view(v: EngineView, live: Rgba, dead: Rgba) -> EngineView {
    let next = next_gen(v.current, v.width as int, v.height as int);
    EngineView {
        width: v.width,
        height: v.height,
        current: next,
        scratch: v.current,
        image: colorize(next, live, dead),
    }
}

/// What running the colorize phase alone does: the image is recomputed
/// from the unchanged current generation; no grid changes.
pub open spec fn recolor_view(v: EngineView, live: Rgba, dead: Rgba) -> EngineView {
    EngineView { image: colorize(v.current, live, dead), ..v }
}

/// Double-buffer correctness: after a step, the grid the engine will read
/// on the next step is exactly the generation written this step, and the
/// buffer holding the generation read this step has become the scratch.
pub proof fn lemma_double_buffer(v: EngineView, live: Rgba, dead: Rgba)
    ensures
        step_view(v, live, dead).current == next_gen(v.current, v.width as int, v.height as int),
        step_view(v, live, dead).scratch == v.current,
{
}

/// Phase ordering: the image a step leaves behind colors the generation
/// computed by this step's update phase, never the prior generation.
pub proof fn lemma_phase_order(v: EngineView, live: Rgba, dead: Rgba)
    ensures
        step_view(v, live, dead).image == colorize(step_view(v, live, dead).current, live, dead),
{
}

/// Idempotent color mapping: recomputing the colorize phase alone, with
/// the same colors and no intervening update, leaves the image
/// pixel-identical -- whether the image came from a full step or from an
/// earlier recolor.
pub proof fn lemma_recolor_idempotent(v: EngineView, live: Rgba, dead: Rgba)
    ensures
        recolor_view(step_view(v, live, dead), live, dead) == step_view(v, live, dead),
        recolor_view(recolor_view(v, live, dead), live, dead) == recolor_view(v, live, dead),
{
    assert(recolor_view(step_view(v, live, dead), live, dead) =~= step_view(v, live, dead));
    assert(recolor_view(recolor_view(v, live, dead), live, dead) =~= recolor_view(v, live, dead));
}

/// One recorded compute dispatch: its push parameters and how many 8x8
/// work groups it covers the grid with.
#[derive(Clone, Copy, PartialEq, Eq, Structural, Debug)]
pub struct DispatchPlan {
    /// 0 advances the automaton, 1 colorizes.
    pub step: i32,
    pub life_color: Rgba,
    pub dead_color: Rgba,
    pub groups_x: usize,
    pub groups_y: usize,
}

/// The work-group tile edge: dispatches cover the grid in 8x8 tiles.
pub open spec fn spec_tile() -> int {
    8
}

/// How many tiles cover `len` cells: the least count whose coverage
/// reaches `len` (dimensions not divisible by the tile size get one
/// partial tile, so no boundary strip is left uncovered).
pub open spec fn tiles_for(len: int) -> int {
    if len % spec_tile() == 0 {
        len / spec_tile()
    } else {
        len / spec_tile() + 1
    }
}

pub struct GameComputePipeline {
    /// The most recently fully computed generation; the only grid the
    /// colorize phase may read as authoritative.
    pub life_in: Grid,
    /// The superseded grid, overwritten by the next step's update phase.
    pub life_out: Grid,
    /// One pixel per cell, written by the colorize phase.
    pub out_image: Vec<Rgba>,
}

impl GameComputePipeline {
    pub open spec fn wf(self) -> bool {
        &&& self.life_in.wf()
        &&& self.life_out.wf()
        &&& self.life_out.width == self.life_in.width
        &&& self.life_out.height == self.life_in.height
        &&& self.out_image@.len() == self.life_in.width * self.life_in.height
    }

    pub open spec fn spec_width(self) -> int {
        self.life_in.width as int
    }

    pub open spec fn spec_height(self) -> int {
        self.life_in.height as int
    }

    /// The abstract state this engine is in.
    pub open spec fn model(self) -> EngineView {
        EngineView {
            width: self.life_in.width as nat,
            height: self.life_in.height as nat,
            current: self.life_in.cells@,
            scratch: self.life_out.cells@,
            image: self.out_image@,
        }
    }

    /// A new engine: both grids hold an independent random state, and
    /// the output image stays zeroed until the first step colorizes it.
    pub fn new(width: usize, height: usize) -> (s: Self)
        requires
            0 < width,
            0 < height,
            width * height <= usize::MAX,
        ensures
            s.wf(),
            s.spec_width() == width,
            s.spec_height() == height,
    {
        let n = width * height;
        let life_in = Grid { width, height, cells: rand_grid(n) };
        let life_out = Grid { width, height, cells: rand_grid(n) };
        let mut out_image: Vec<Rgba> = Vec::new();
        let mut i: usize = 0;
        while i < n
            invariant
                i <= n,
                out_image@.len() == i,
            decreases n - i,
        {
            out_image.push(Rgba { r: 0, g: 0, b: 0, a: 0 });
            i += 1;
        }
        GameComputePipeline { life_in, life_out, out_image }
    }

    /// An engine over a given starting generation; the scratch grid
    /// starts dead and is overwritten by the first step.
    pub fn from_grid(grid: Grid) -> (s: Self)
        requires
            grid.wf(),
        ensures
            s.wf(),
            s.model().current == grid.cells@,
            s.model().width == grid.width,
            s.model().height == grid.height,
    {
        let n = grid.cells.len();
        let mut scratch: Vec<u32> = Vec::new();
        let mut out_image: Vec<Rgba> = Vec::new();
        let mut i: usize = 0;
        while i < n
            invariant
                i <= n,
                scratch@.len() == i,
                out_image@.len() == i,
                forall|j: int| 0 <= j < i ==> scratch@[j] == 0u32,
            decreases n - i,
        {
            scratch.push(0);
            out_image.push(Rgba { r: 0, g: 0, b: 0, a: 0 });
            i += 1;
        }
        let life_out = Grid { width: grid.width, height: grid.height, cells: scratch };
        GameComputePipeline { life_in: grid, life_out, out_image }
    }

    /// The output image, as the compositor samples it: pixel `y * width
    /// + x` belongs to cell `(x, y)`.
    pub fn view(&self) -> (img: &Vec<Rgba>)
        ensures
            img@ == self.model().image,
    {
        &self.out_image
    }

    /// One step: phase 0 reads the current generation and writes its
    /// successor into the scratch grid, phase 1 colors the grid just
    /// written, and the buffer roles swap, so the next step reads what
    /// this one wrote. Returns the recorded submission: the two
    /// dispatches in order, the colorize phase strictly after the update
    /// phase.
    pub fn compute(&mut self, life_color: Rgba, dead_color: Rgba) -> (plans: Vec<DispatchPlan>)
        requires
            old(self).wf(),
        ensures
            final(self).wf(),
            final(self).model() == step_view(old(self).model(), life_color, dead_color),
            final(self).spec_width() == old(self).spec_width(),
            final(self).spec_height() == old(self).spec_height(),
            plans@.len() == 2,
            plans@[0] == (old(self).dispatch_plan(life_color, dead_color, 0)),
            plans@[1] == (old(self).dispatch_plan(life_color, dead_color, 1)),
    {
        let plan0 = self.dispatch(life_color, dead_color, 0);
        let plan1 = self.dispatch(life_color, dead_color, 1);
        // Phase 0: advance the automaton, reading the current generation
        // and writing the scratch grid only.
        let next = compute_life(&self.life_in);
        self.life_out = next;
        // Phase 1: colorize the generation just written.
        self.out_image = compute_color(&self.life_out, life_color, dead_color);
        // Swap the buffer roles for the next step.
        core::mem::swap(&mut self.life_in, &mut self.life_out);
        let mut plans: Vec<DispatchPlan> = Vec::new();
        plans.push(plan0);
        plans.push(plan1);
        proof {
            assert(self.model() =~= step_view(old(self).model(), life_color, dead_color));
        }
        plans
    }

    /// Re-run the colorize phase alone: the image is recomputed from the
    /// unchanged current generation.
    pub fn recolor(&mut self, life_color: Rgba, dead_color: Rgba)
        requires
            old(self).wf(),
        ensures
            final(self).wf(),
            final(self).model() == recolor_view(old(self).model(), life_color, dead_color),
    {
        self.out_image = compute_color(&self.life_in, life_color, dead_color);
        proof {
            assert(self.model() =~= recolor_view(old(self).model(), life_color, dead_color));
        }
    }

    /// Reinitialize both grids with independent random cell states; the
    /// dimensions and the output image are left as they were.
    pub fn reset(&mut self)
        requires
            old(self).wf(),
        ensures
            final(self).wf(),
            final(self).spec_width() == old(self).spec_width(),
            final(self).spec_height() == old(self).spec_height(),
            final(self).model().image == old(self).model().image,
    {
        let width = self.life_in.width;
        let height = self.life_in.height;
        let n = self.life_in.cells.len();
        self.life_in = Grid { width, height, cells: rand_grid(n) };
        self.life_out = Grid { width, height, cells: rand_grid(n) };
    }

    /// The plan `dispatch` records for a given phase.
    pub open spec fn dispatch_plan(self, life_color: Rgba, dead_color: Rgba, step: i32) -> DispatchPlan {
        DispatchPlan {
            step,
            life_color,
            dead_color,
            groups_x: tiles_for(self.spec_width()) as usize,
            groups_y: tiles_for(self.spec_height()) as usize,
        }
    }

    /// Record one dispatch: the push parameters for the given phase and
    /// enough 8x8 work groups to cover every cell.
    pub fn dispatch(&self, life_color: Rgba, dead_color: Rgba, step: i32) -> (p: DispatchPlan)
        requires
            self.wf(),
        ensures
            p == self.dispatch_plan(life_color, dead_color, step),
            p.groups_x * 8 >= self.spec_width() > (p.groups_x - 1) * 8,
            p.groups_y * 8 >= self.spec_height() > (p.groups_y - 1) * 8,
    {
        let width = self.life_in.width;
        let height = self.life_in.height;
        let groups_x = width / 8 + (if width % 8 == 0 { 0 } else { 1 });
        let groups_y = height / 8 + (if height % 8 == 0 { 0 } else { 1 });
        DispatchPlan { step, life_color, dead_color, groups_x, groups_y }
    }
}

/// Relies on rand::thread_rng and rand::Rng::gen_range over `0..=1`: each
/// cell is drawn independently and is either 0 or 1.
#[verifier::external_body]
fn rand_grid(n: usize) -> (r: Vec<u32>)
    ensures
        r@.len() == n,
        forall|i: int| 0 <= i < r@.len() ==> r@[i] <= 1,
{
    (0..n).map(|_| rand::thread_rng().gen_range(0u32..=1)).collect()
}

} // verus!
