//! Properties of the grid engine, proved over the model that its
//! operations are specified by.

use vstd::prelude::*;

use crate::controller::{
    base_fits, frame_cells, no_input, ticked, Application, InputEvents, RunMode,
};
use crate::grid::GameOfLife;
use crate::rules::{all_dead, in_bounds, neighbor_count, toggled};

verus! {

/// Advancing a grid on which every cell is dead gives a grid on which every
/// cell is dead: no life arises from nothing.
pub proof fn lemma_all_dead_stays_dead(g: GameOfLife)
    requires
        g.wf(),
        g.has_standard_rule(),
        all_dead(g.cells(), g.state_width as int, g.state_height as int),
    ensures
        all_dead(g.next_cells(), g.state_width as int, g.state_height as int),
{
    let c = g.cells();
    let w = g.state_width as int;
    let h = g.state_height as int;
    assert forall|x: int, y: int| in_bounds(w, h, x, y) implies !#[trigger] g.next_cells()[x][y]
    by {
        assert(neighbor_count(c, w, h, x, y) == 0);
    }
}

/// A cell with no living neighbour is dead in the next generation,
/// whatever its state now.
pub proof fn lemma_isolated_cell_dies(g: GameOfLife, x: int, y: int)
    requires
        g.wf(),
        g.has_standard_rule(),
        in_bounds(g.state_width as int, g.state_height as int, x, y),
        neighbor_count(g.cells(), g.state_width as int, g.state_height as int, x, y) == 0,
    ensures
        !g.next_cells()[x][y],
{
}

/// A grid with exactly one living cell becomes all dead after one
/// generation.
pub proof fn lemma_lone_cell_dies(g: GameOfLife, x: int, y: int)
    requires
        g.wf(),
        g.has_standard_rule(),
        in_bounds(g.state_width as int, g.state_height as int, x, y),
        forall|i: int, j: int|
            in_bounds(g.state_width as int, g.state_height as int, i, j)
                ==> (#[trigger] g.cells()[i][j] <==> (i == x && j == y)),
    ensures
        all_dead(g.next_cells(), g.state_width as int, g.state_height as int),
{
    let c = g.cells();
    let w = g.state_width as int;
    let h = g.state_height as int;
    assert forall|i: int, j: int| in_bounds(w, h, i, j) implies !#[trigger] g.next_cells()[i][j]
    by {
        assert(neighbor_count(c, w, h, i, j) <= 1);
        if i == x && j == y {
            assert(neighbor_count(c, w, h, i, j) == 0);
        }
    }
}

/// Flipping the same cell twice gives back the grid it started from.
pub proof fn lemma_toggle_twice(g: GameOfLife, x: int, y: int)
    requires
        g.wf(),
        in_bounds(g.state_width as int, g.state_height as int, x, y),
    ensures
        toggled(toggled(g.cells(), x, y), x, y) == g.cells(),
{
    let c = g.cells();
    assert(toggled(c, x, y)[x] =~= c[x].update(y, !c[x][y]));
    assert(toggled(toggled(c, x, y), x, y)[x] =~= c[x]);
    assert(toggled(toggled(c, x, y), x, y) =~= c);
}

/// In automatic mode, a frame that leaves the accumulated time below the
/// interval keeps the grid as it is; a second one that brings the total to
/// the interval advances it exactly one generation.
pub proof fn lemma_automatic_waits_then_advances(
    a0: Application,
    a1: Application,
    a2: Application,
    e1: int,
    e2: int,
    ev1: InputEvents,
    ev2: InputEvents,
)
    requires
        a0.wf(),
        a0.mode == RunMode::Automatic,
        0 <= e1,
        0 <= e2,
        no_input(ev1),
        no_input(ev2),
        a0.update_counter + e1 < a0.update_delta,
        a0.update_counter + e1 + e2 >= a0.update_delta,
        ticked(a0, a1, e1, ev1),
        ticked(a1, a2, e2, ev2),
    ensures
        a1.game.cells() == a0.game.cells(),
        a2.game.cells() == a0.game.next_cells(),
        a2.mode == RunMode::Automatic,
        a2.update_counter == 0,
{
    let b1 = choose|b: Seq<Seq<bool>>|
        base_fits(b, a0, ev1) && #[trigger] frame_cells(b, a0.game, ev1, false) == a1.game.cells();
    assert(b1 == a0.game.cells());
    let b2 = choose|b: Seq<Seq<bool>>|
        base_fits(b, a1, ev2) && #[trigger] frame_cells(b, a1.game, ev2, true) == a2.game.cells();
    assert(b2 == a1.game.cells());
}

/// In manual mode, a frame without the step key keeps the grid as it is,
/// however much time has passed; a frame with it advances the grid exactly
/// one generation.
pub proof fn lemma_manual_advances_only_on_step(
    a0: Application,
    a1: Application,
    elapsed: int,
    ev: InputEvents,
)
    requires
        a0.wf(),
        a0.mode == RunMode::Manual,
        0 <= elapsed,
        !ev.toggle_step,
        !ev.reset,
        !ev.empty,
        ev.click is None,
        ticked(a0, a1, elapsed, ev),
    ensures
        !ev.step ==> a1.game.cells() == a0.game.cells(),
        ev.step ==> a1.game.cells() == a0.game.next_cells(),
        a1.mode == RunMode::Manual,
{
    let b = choose|b: Seq<Seq<bool>>|
        base_fits(b, a0, ev) && #[trigger] frame_cells(b, a0.game, ev, ev.step) == a1.game.cells();
    assert(b == a0.game.cells());
}

} // verus!
