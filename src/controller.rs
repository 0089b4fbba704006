//! The run controller: owns a grid and decides, once per frame, which
//! operations the frame's input calls for and whether the grid advances.
//! Time is counted in whole microseconds.

use vstd::prelude::*;

use crate::grid::GameOfLife;
use crate::rules::{dead_grid, has_shape, in_bounds, lists_live_cells, next_generation, toggled};

verus! {

/// Time between two automatic generations, in microseconds (1/15 s).
pub const UPDATE_TIME_MICROS: u64 = 66_667;

/// How generations are triggered.
#[derive(Debug, Clone, Copy, PartialEq, Eq, Structural)]
pub enum RunMode {
    /// One generation each time the accumulated time reaches the interval.
    Automatic,
    /// One generation per step key press.
    Manual,
}

/// What the host saw in one frame. Keys count once, in the frame in which
/// they were pressed.
#[derive(Debug, Clone, Copy)]
pub struct InputEvents {
    /// The single-step key.
    pub step: bool,
    /// The key that switches between automatic and manual mode.
    pub toggle_step: bool,
    /// The key that refills the grid at random.
    pub reset: bool,
    /// The key that clears the grid and pauses.
    pub empty: bool,
    /// A click of the main mouse button, at this cell position.
    pub click: Option<(i32, i32)>,
}

/// The run controller.
pub struct Application {
    pub game: GameOfLife,
    /// Microseconds gathered since the last automatic generation.
    pub update_counter: u64,
    /// Microseconds between automatic generations.
    pub update_delta: u64,
    pub mode: RunMode,
}

/// The mode once a frame's keys are handled: clearing pauses, a refill
/// keeps the mode, and the toggle key flips it.
pub open spec fn mode_after_input(mode: RunMode, ev: InputEvents) -> RunMode {
    if ev.empty {
        RunMode::Manual
    } else if ev.reset {
        mode
    } else if ev.toggle_step {
        match mode {
            RunMode::Automatic => RunMode::Manual,
            RunMode::Manual => RunMode::Automatic,
        }
    } else {
        mode
    }
}

/// The accumulated time once a frame's keys are handled: a change of mode
/// starts it again from zero.
pub open spec fn counter_after_input(counter: int, ev: InputEvents) -> int {
    if !ev.empty && !ev.reset && ev.toggle_step {
        0
    } else {
        counter
    }
}

/// Whether the frame advances the grid, at most once.
pub open spec fn advances(
    mode: RunMode,
    counter: int,
    elapsed: int,
    delta: int,
    ev: InputEvents,
) -> bool {
    match mode {
        RunMode::Manual => ev.step,
        RunMode::Automatic => counter + elapsed >= delta,
    }
}

/// The accumulated time at the end of the frame: manual mode leaves it
/// alone; automatic mode adds the frame's time, and starts from zero after
/// a generation (no backlog is kept).
pub open spec fn counter_after_frame(mode: RunMode, counter: int, elapsed: int, delta: int) -> int {
    match mode {
        RunMode::Manual => counter,
        RunMode::Automatic => if counter + elapsed >= delta {
            0
        } else {
            counter + elapsed
        },
    }
}

/// `c` after a click: the clicked cell flips when it is on the grid.
pub open spec fn clicked(
    c: Seq<Seq<bool>>,
    w: int,
    h: int,
    click: Option<(i32, i32)>,
) -> Seq<Seq<bool>> {
    match click {
        Some(p) => if in_bounds(w, h, p.0 as int, p.1 as int) {
            toggled(c, p.0 as int, p.1 as int)
        } else {
            c
        },
        None => c,
    }
}

/// The cells a frame ends with, from the cells `b` its keys left.
pub open spec fn frame_cells(
    b: Seq<Seq<bool>>,
    g: GameOfLife,
    ev: InputEvents,
    advance: bool,
) -> Seq<Seq<bool>> {
    let w = g.state_width as int;
    let h = g.state_height as int;
    let t = clicked(b, w, h, ev.click);
    if advance {
        next_generation(
            t,
            w,
            h,
            g.live_threshold as int,
            g.die_threshold_lower as int,
            g.die_threshold_upper as int,
        )
    } else {
        t
    }
}

/// `b` can be the grid that the keys of `ev` leave from `pre`: all dead
/// after a clear, any grid of the same shape after a refill, and `pre`'s
/// own cells otherwise.
pub open spec fn base_fits(b: Seq<Seq<bool>>, pre: Application, ev: InputEvents) -> bool {
    &&& has_shape(b, pre.game.state_width as int, pre.game.state_height as int)
    &&& ev.empty ==> b == dead_grid(pre.game.state_width as int, pre.game.state_height as int)
    &&& !ev.empty && !ev.reset ==> b == pre.game.cells()
}

/// `post` is what one frame of `elapsed` microseconds with input `ev`
/// makes of `pre`.
pub open spec fn ticked(
    pre: Application,
    post: Application,
    elapsed: int,
    ev: InputEvents,
) -> bool {
    let mode = mode_after_input(pre.mode, ev);
    let counter = counter_after_input(pre.update_counter as int, ev);
    let advance = advances(mode, counter, elapsed, pre.update_delta as int, ev);
    &&& post.wf()
    &&& post.game.same_frame(&pre.game)
    &&& post.update_delta == pre.update_delta
    &&& post.mode == mode
    &&& post.update_counter == counter_after_frame(mode, counter, elapsed, pre.update_delta as int)
    &&& exists|b: Seq<Seq<bool>>|
        base_fits(b, pre, ev) && #[trigger] frame_cells(b, pre.game, ev, advance)
            == post.game.cells()
}

/// A frame in which no key was pressed and nothing was clicked.
pub open spec fn no_input(ev: InputEvents) -> bool {
    &&& !ev.step
    &&& !ev.toggle_step
    &&& !ev.reset
    &&& !ev.empty
    &&& ev.click is None
}

impl Application {
    /// A valid grid, and accumulated time below a positive interval.
    pub open spec fn wf(&self) -> bool {
        &&& self.game.wf()
        &&& self.update_counter < self.update_delta
    }

    /// A controller in automatic mode over `game`, with no time gathered.
    pub fn new(game: GameOfLife) -> (r: Application)
        requires
            game.wf(),
        ensures
            r.wf(),
            r.game == game,
            r.update_counter == 0,
            r.update_delta == UPDATE_TIME_MICROS,
            r.mode == RunMode::Automatic,
    {
        Application {
            game,
            update_counter: 0,
            update_delta: UPDATE_TIME_MICROS,
            mode: RunMode::Automatic,
        }
    }

    /// Handles one frame: first the keys (clear and pause, else refill at
    /// random, else switch mode), then a click on a cell of the grid, then
    /// at most one generation. Returns the living cells to draw.
    pub fn tick(&mut self, elapsed: u64, events: InputEvents) -> (r: Vec<(usize, usize)>)
        requires
            old(self).wf(),
        ensures
            ticked(*old(self), *final(self), elapsed as int, events),
            lists_live_cells(
                r@,
                final(self).game.cells(),
                final(self).game.state_width as int,
                final(self).game.state_height as int,
            ),
    {
        let ghost pre = *self;
        if events.empty {
            self.game.empty_state();
            self.mode = RunMode::Manual;
        } else if events.reset {
            self.game.randomize_state();
        } else if events.toggle_step {
            self.mode = match self.mode {
                RunMode::Automatic => RunMode::Manual,
                RunMode::Manual => RunMode::Automatic,
            };
            self.update_counter = 0;
        }
        let ghost base = self.game.cells();
        if let Some((x, y)) = events.click {
            if 0 <= x && 0 <= y && (x as usize) < self.game.state_width && (y as usize)
                < self.game.state_height {
                let _ = self.game.toggle_cell(x as usize, y as usize);
            }
        }
        let ghost clicked_cells = self.game.cells();
        assert(clicked_cells == clicked(
            base,
            pre.game.state_width as int,
            pre.game.state_height as int,
            events.click,
        ));
        match self.mode {
            RunMode::Manual => {
                if events.step {
                    self.game.update();
                }
            },
            RunMode::Automatic => {
                let t = self.update_counter.saturating_add(elapsed);
                if t >= self.update_delta {
                    self.game.update();
                    self.update_counter = 0;
                } else {
                    self.update_counter = t;
                }
            },
        }
        let ghost advance = advances(
            mode_after_input(pre.mode, events),
            counter_after_input(pre.update_counter as int, events),
            elapsed as int,
            pre.update_delta as int,
            events,
        );
        assert(base_fits(base, pre, events));
        assert(frame_cells(base, pre.game, events, advance) == self.game.cells());
        self.game.draw()
    }
}

} // verus!
