//! A running simulation as its host sees it: the game, the settings that
//! the host's commands change, and the surface that shows both.
//!
//! The host owns the window and the clock. It hands over what its window
//! reports as `Event`s, shows the frame that a request for a redraw is
//! answered with, and between events asks what to do next.

use crate::board::Board;
use crate::density::Density;
use crate::game_of_life::GameOfLife;
use crate::panel::{
    bar_width, black, cyan, gauge, lemma_game_region, lemma_gauge_ends, magenta, white, Layout,
    Region,
};
use vstd::arithmetic::div_mod::{lemma_mod_bound, lemma_multiply_divide_lt};
use vstd::prelude::*;

verus! {

/// The smallest width and height of the standard game, in pixels.
pub const MIN_SIZE: u32 = 50;

/// The displayed width of the standard game, in pixels.
pub const WIDTH: u32 = 50;

/// The displayed height of the standard game, in pixels.
pub const HEIGHT: u32 = 50;

/// Whether the standard game runs on sub-pixels.
pub const SUBPIXELS: bool = true;

/// The border of the standard surface, in pixels.
pub const BORDER: u32 = 80;

/// The height of one band of the gauge strip of the standard surface.
pub const INDICATOR: u32 = 3;

/// Densities are counted in hundredths.
pub const LIFE_DENSITY_SCALE: u32 = 100;

/// The density a simulation starts with: 8%.
pub const LIFE_DENSITY_DEFAULT: u32 = 8;

/// The lowest density that can be set: 2%.
pub const LIFE_DENSITY_MIN: u32 = 2;

/// The highest density that can be set: 50%.
pub const LIFE_DENSITY_MAX: u32 = 50;

/// By how much one command changes the density: 2%.
pub const LIFE_DENSITY_STEP: u32 = 2;

/// The speed level a simulation starts with.
pub const SPEED_DEFAULT: u64 = 0;

/// The number of speed levels.
pub const SPEED_LEVELS: u64 = 7;

/// The measures of the standard surface: the standard game, no smaller than
/// `MIN_SIZE` either way, inside the standard border and gauge strip.
pub open spec fn standard_layout() -> Layout {
    Layout {
        game_width: if WIDTH < MIN_SIZE {
            MIN_SIZE
        } else {
            WIDTH
        },
        game_height: if HEIGHT < MIN_SIZE {
            MIN_SIZE
        } else {
            HEIGHT
        },
        border: BORDER,
        indicator: INDICATOR,
    }
}

/// The pause between two generations at each speed level, in
/// milliseconds: the higher the level, the shorter the pause.
pub open spec fn spec_sleep_time(speed: u64) -> u64 {
    if speed == 0 {
        500
    } else if speed == 1 {
        300
    } else if speed == 2 {
        150
    } else if speed == 3 {
        80
    } else if speed == 4 {
        50
    } else if speed == 5 {
        25
    } else {
        0
    }
}

#[verifier::when_used_as_spec(spec_sleep_time)]
pub fn sleep_time(speed: u64) -> (millis: u64)
    ensures
        millis == spec_sleep_time(speed),
{
    match speed {
        0 => 500,
        1 => 300,
        2 => 150,
        3 => 80,
        4 => 50,
        5 => 25,
        _ => 0,
    }
}

/// What the host can ask of a simulation.
#[derive(Clone, Copy, Debug, PartialEq, Eq)]
pub enum Command {
    /// Draw the board anew at the present density.
    Randomize,
    /// Start running on the clock, or stop.
    ToggleRun,
    /// Advance one generation by hand. Ignored while running.
    Step,
    /// Raise the density by one step and draw the board anew.
    DensityUp,
    /// Lower the density by one step and draw the board anew.
    DensityDown,
    /// Go one speed level up.
    SpeedUp,
    /// Go one speed level down.
    SpeedDown,
    /// Ask the simulation to end.
    Exit,
}

/// A key of the keyboard, as far as a simulation tells keys apart.
#[derive(Clone, Copy, Debug, PartialEq, Eq)]
pub enum KeyPress {
    /// A key that types the given character.
    Character(char),
    Enter,
    Space,
    ArrowUp,
    ArrowDown,
    ArrowRight,
    ArrowLeft,
    Escape,
    /// Any other key.
    Other,
}

/// What the window tells its host, as far as a simulation cares.
#[derive(Clone, Copy, Debug, PartialEq, Eq)]
pub enum Event {
    /// The user has asked to close the window.
    CloseRequested,
    /// A key went down.
    KeyPressed(KeyPress),
    /// The window wants its content drawn.
    RedrawRequested,
    /// Anything else.
    Other,
}

impl Command {
    /// The command that a key stands for: `r` randomises, Enter starts and
    /// stops, Space steps by hand, the up and down arrows change the
    /// density, the right and left arrows the speed, Escape leaves. Other
    /// keys stand for nothing.
    pub open spec fn spec_for_key(key: KeyPress) -> Option<Command> {
        match key {
            KeyPress::Character(c) => if c == 'r' {
                Some(Command::Randomize)
            } else {
                None
            },
            KeyPress::Enter => Some(Command::ToggleRun),
            KeyPress::Space => Some(Command::Step),
            KeyPress::ArrowUp => Some(Command::DensityUp),
            KeyPress::ArrowDown => Some(Command::DensityDown),
            KeyPress::ArrowRight => Some(Command::SpeedUp),
            KeyPress::ArrowLeft => Some(Command::SpeedDown),
            KeyPress::Escape => Some(Command::Exit),
            KeyPress::Other => None,
        }
    }

    #[verifier::when_used_as_spec(spec_for_key)]
    pub fn for_key(key: KeyPress) -> (command: Option<Command>)
        ensures
            command == Command::for_key(key),
    {
        match key {
            KeyPress::Character('r') => Some(Command::Randomize),
            KeyPress::Enter => Some(Command::ToggleRun),
            KeyPress::Space => Some(Command::Step),
            KeyPress::ArrowUp => Some(Command::DensityUp),
            KeyPress::ArrowDown => Some(Command::DensityDown),
            KeyPress::ArrowRight => Some(Command::SpeedUp),
            KeyPress::ArrowLeft => Some(Command::SpeedDown),
            KeyPress::Escape => Some(Command::Exit),
            _ => None,
        }
    }
}

/// What the host is to do before it waits for the next event.
#[derive(Clone, Copy, Debug, PartialEq, Eq)]
pub struct IdlePlan {
    /// Sleep for so many milliseconds first.
    pub sleep: Option<u64>,
    /// Then ask the window for a redraw.
    pub redraw: bool,
    /// Come back at once (`true`) or when the next event arrives (`false`).
    pub poll: bool,
    /// Leave the event loop.
    pub exit: bool,
}

/// The mathematical model of a simulation.
pub struct SimulationState {
    pub board: Board,
    pub layout: Layout,
    /// The density in hundredths.
    pub life_density: nat,
    pub speed: nat,
    pub run: bool,
    pub request_redraw: bool,
    pub close_requested: bool,
}

impl SimulationState {
    /// The game fills the game area of the layout, the settings are within
    /// their ranges, and a frame of the surface can be held in memory.
    pub open spec fn wf(self) -> bool {
        &&& self.layout.wf()
        &&& self.board.wf()
        &&& self.board.display_width() == self.layout.game_width
        &&& self.board.height == self.layout.game_height
        &&& LIFE_DENSITY_MIN <= self.life_density <= LIFE_DENSITY_MAX
        &&& self.speed < SPEED_LEVELS
        &&& 4 * (self.layout.spec_window_width() * self.layout.spec_window_height()) <= usize::MAX
    }

    /// The density one step up: the step is added first and the sum then
    /// held to the highest density.
    pub open spec fn density_up(density: nat) -> nat {
        if density + LIFE_DENSITY_STEP > LIFE_DENSITY_MAX {
            LIFE_DENSITY_MAX as nat
        } else {
            (density + LIFE_DENSITY_STEP) as nat
        }
    }

    /// The density one step down: the step is taken off first and the
    /// difference then held to the lowest density.
    pub open spec fn density_down(density: nat) -> nat {
        if density - LIFE_DENSITY_STEP < LIFE_DENSITY_MIN {
            LIFE_DENSITY_MIN as nat
        } else {
            (density - LIFE_DENSITY_STEP) as nat
        }
    }

    /// Whether the command has the board drawn anew.
    pub open spec fn randomizes(self, command: Command) -> bool {
        match command {
            Command::Randomize => true,
            Command::DensityUp => self.life_density < LIFE_DENSITY_MAX,
            Command::DensityDown => self.life_density > LIFE_DENSITY_MIN,
            _ => false,
        }
    }

    /// Whether the command advances the board by one generation.
    pub open spec fn steps(self, command: Command) -> bool {
        command == Command::Step && !self.run
    }

    /// The settings after a command. What becomes of the board is told by
    /// `randomizes` and `steps`: here it stays as it is.
    pub open spec fn settings_after(self, command: Command) -> SimulationState {
        match command {
            Command::Randomize => SimulationState { request_redraw: true, ..self },
            Command::ToggleRun => SimulationState { run: !self.run, ..self },
            Command::Step => if self.run {
                self
            } else {
                SimulationState { request_redraw: true, ..self }
            },
            Command::DensityUp => if self.life_density < LIFE_DENSITY_MAX {
                SimulationState {
                    life_density: Self::density_up(self.life_density),
                    request_redraw: true,
                    ..self
                }
            } else {
                self
            },
            Command::DensityDown => if self.life_density > LIFE_DENSITY_MIN {
                SimulationState {
                    life_density: Self::density_down(self.life_density),
                    request_redraw: true,
                    ..self
                }
            } else {
                self
            },
            Command::SpeedUp => if self.speed < SPEED_LEVELS - 1 {
                SimulationState {
                    speed: self.speed + 1,
                    request_redraw: self.request_redraw || !self.run,
                    ..self
                }
            } else {
                self
            },
            Command::SpeedDown => if self.speed > 0 {
                SimulationState {
                    speed: (self.speed - 1) as nat,
                    request_redraw: self.request_redraw || !self.run,
                    ..self
                }
            } else {
                self
            },
            Command::Exit => SimulationState { close_requested: true, ..self },
        }
    }

    /// Whether `after` is a state that the command may lead to from this
    /// one. The settings are those of `settings_after`. The board advances
    /// by one generation on a `Step` taken while stopped, is any board of the
    /// same shape after a command that randomises, and is left alone
    /// otherwise.
    pub open spec fn handled(self, command: Command, after: SimulationState) -> bool {
        &&& after == SimulationState { board: after.board, ..self.settings_after(command) }
        &&& after.board.same_shape(self.board)
        &&& self.steps(command) ==> after.board == self.board.step()
        &&& !self.steps(command) && !self.randomizes(command) ==> after.board == self.board
    }

    /// The state after a redraw: while running the board has advanced by one
    /// generation, and nothing else has changed.
    pub open spec fn redrawn(self) -> SimulationState {
        SimulationState {
            board: if self.run {
                self.board.step()
            } else {
                self.board
            },
            ..self
        }
    }

    /// The filled width of the density gauge: the share that the density
    /// has of the highest density.
    pub open spec fn density_bar(self) -> int {
        gauge(self.layout.game_width as int, self.life_density as int, LIFE_DENSITY_MAX as int)
    }

    /// The filled width of the speed gauge: the share of the speed levels
    /// reached, the lowest level counting as one.
    pub open spec fn speed_bar(self) -> int {
        gauge(self.layout.game_width as int, self.speed as int + 1, SPEED_LEVELS as int)
    }

    /// The colour of the pixel at `(x, y)` of the surface.
    pub open spec fn window_pixel(self, x: int, y: int) -> Seq<u8> {
        match self.layout.spec_region(x, y) {
            Region::Margin => black(),
            Region::DensityGauge => if x < self.layout.border + self.density_bar() {
                cyan()
            } else {
                white()
            },
            Region::SpeedGauge => if x < self.layout.border + self.speed_bar() {
                magenta()
            } else {
                white()
            },
            Region::Game => self.board.pixel(
                x - self.layout.border,
                y - self.layout.border - self.layout.spec_panel_height(),
            ),
        }
    }

    /// The whole surface as bytes: four for each pixel, the pixels row by
    /// row.
    pub open spec fn frame(self) -> Seq<u8> {
        let width = self.layout.spec_window_width();
        let height = self.layout.spec_window_height();
        Seq::new(
            (4 * (width * height)) as nat,
            |k: int| self.window_pixel((k / 4) % width, (k / 4) / width)[k % 4],
        )
    }

    /// What the host is to do before it waits. While running, and unless
    /// asked to end, it sleeps for the pause of the speed level and then
    /// redraws; while stopped it redraws only if something has changed.
    pub open spec fn idle_plan(self) -> IdlePlan {
        IdlePlan {
            sleep: if self.run && !self.close_requested {
                Some(spec_sleep_time(self.speed as u64))
            } else {
                None
            },
            redraw: if self.run {
                !self.close_requested
            } else {
                self.request_redraw
            },
            poll: self.run,
            exit: self.close_requested,
        }
    }
}

/// Whatever the host commands, the settings stay within their ranges and
/// the simulation stays sound: the density between the lowest and the
/// highest that can be set, the speed among its levels.
pub proof fn lemma_settings_stay_sound(state: SimulationState, command: Command)
    requires
        state.wf(),
    ensures
        state.settings_after(command).wf(),
        state.settings_after(command).layout == state.layout,
        state.settings_after(command).board == state.board,
{
}

/// One step up raises the density by the step, but never past the highest
/// density; one step down lowers it by the step, but never under the lowest.
pub proof fn lemma_density_steps(density: nat)
    requires
        LIFE_DENSITY_MIN <= density <= LIFE_DENSITY_MAX,
    ensures
        density <= SimulationState::density_up(density) <= LIFE_DENSITY_MAX,
        SimulationState::density_up(density) <= density + LIFE_DENSITY_STEP,
        density < LIFE_DENSITY_MAX ==> density < SimulationState::density_up(density),
        LIFE_DENSITY_MIN <= SimulationState::density_down(density) <= density,
        density - LIFE_DENSITY_STEP <= SimulationState::density_down(density),
        density > LIFE_DENSITY_MIN ==> SimulationState::density_down(density) < density,
{
}

/// Neither gauge is ever filled past the end of its bar.
pub proof fn lemma_bars_in_range(state: SimulationState)
    requires
        state.wf(),
    ensures
        0 <= state.density_bar() <= state.layout.game_width,
        0 <= state.speed_bar() <= state.layout.game_width,
{
    lemma_gauge_ends(
        state.layout.game_width as int,
        state.life_density as int,
        LIFE_DENSITY_MAX as int,
    );
    lemma_gauge_ends(state.layout.game_width as int, state.speed as int + 1, SPEED_LEVELS as int);
}

/// At the highest density the density gauge is filled over the whole width
/// of the game area: every one of its pixels is cyan.
pub proof fn lemma_density_gauge_full(state: SimulationState, x: int, y: int)
    requires
        state.wf(),
        state.life_density == LIFE_DENSITY_MAX,
        state.layout.spec_region(x, y) == Region::DensityGauge,
    ensures
        state.density_bar() == state.layout.game_width,
        state.window_pixel(x, y) == cyan(),
{
    lemma_gauge_ends(
        state.layout.game_width as int,
        LIFE_DENSITY_MAX as int,
        LIFE_DENSITY_MAX as int,
    );
}

/// At the highest speed level the speed gauge is filled over the whole
/// width of the game area: every one of its pixels is magenta.
pub proof fn lemma_speed_gauge_full(state: SimulationState, x: int, y: int)
    requires
        state.wf(),
        state.speed == SPEED_LEVELS - 1,
        state.layout.spec_region(x, y) == Region::SpeedGauge,
    ensures
        state.speed_bar() == state.layout.game_width,
        state.window_pixel(x, y) == magenta(),
{
    lemma_gauge_ends(state.layout.game_width as int, SPEED_LEVELS as int, SPEED_LEVELS as int);
}

/// A simulation: a game, the settings of its host, and the measures of the
/// surface that shows them. Its view is a `SimulationState`.
pub struct Simulation {
    layout: Layout,
    life_density: u32,
    speed: u64,
    game: GameOfLife,
    run: bool,
    request_redraw: bool,
    close_requested: bool,
}

impl View for Simulation {
    type V = SimulationState;

    closed spec fn view(&self) -> SimulationState {
        SimulationState {
            board: self.game@,
            layout: self.layout,
            life_density: self.life_density as nat,
            speed: self.speed as nat,
            run: self.run,
            request_redraw: self.request_redraw,
            close_requested: self.close_requested,
        }
    }
}

impl Simulation {
    /// The simulation is of sound shape.
    pub open spec fn wf(&self) -> bool {
        self@.wf()
    }

    /// The standard simulation: the standard game on the standard surface,
    /// drawn at the default density, stopped, and due a first redraw.
    pub fn new() -> (simulation: Self)
        ensures
            simulation.wf(),
            simulation@.layout == standard_layout(),
            simulation@.board.subpixels == SUBPIXELS,
            simulation@.life_density == LIFE_DENSITY_DEFAULT,
            simulation@.speed == SPEED_DEFAULT,
            !simulation@.run,
            simulation@.request_redraw,
            !simulation@.close_requested,
    {
        let width = if WIDTH < MIN_SIZE {
            MIN_SIZE
        } else {
            WIDTH
        };
        let height = if HEIGHT < MIN_SIZE {
            MIN_SIZE
        } else {
            HEIGHT
        };
        let layout = Layout {
            game_width: width,
            game_height: height,
            border: BORDER,
            indicator: INDICATOR,
        };
        proof {
            let cells_in_row = Board::storage_width(SUBPIXELS, layout.game_width as nat);
            let surface_width = layout.spec_window_width();
            let surface_height = layout.spec_window_height();
            assert(cells_in_row * layout.game_height == 7500) by (nonlinear_arith)
                requires
                    cells_in_row == 50 * 3,
                    layout.game_height == 50,
            ;
            assert(surface_width * surface_height == 46620) by (nonlinear_arith)
                requires
                    surface_width == 210,
                    surface_height == 222,
            ;
        }
        Self::with_layout(SUBPIXELS, layout).unwrap()
    }

    /// A simulation on a surface of one's own measures, drawn at the default
    /// density, stopped, and due a first redraw; or `None` where the layout
    /// is unsound or the game or a frame of the surface is too large to
    /// hold.
    pub fn with_layout(subpixels: bool, layout: Layout) -> (simulation: Option<Self>)
        ensures
            match simulation {
                Some(s) => {
                    &&& s.wf()
                    &&& Board::storage_width(subpixels, layout.game_width as nat)
                        * layout.game_height <= usize::MAX
                    &&& s@.layout == layout
                    &&& s@.board.subpixels == subpixels
                    &&& s@.life_density == LIFE_DENSITY_DEFAULT
                    &&& s@.speed == SPEED_DEFAULT
                    &&& !s@.run
                    &&& s@.request_redraw
                    &&& !s@.close_requested
                },
                None => {
                    ||| !layout.wf()
                    ||| Board::storage_width(subpixels, layout.game_width as nat)
                        * layout.game_height > usize::MAX
                    ||| 4 * (layout.spec_window_width() * layout.spec_window_height()) > usize::MAX
                },
            },
    {
        if !layout.is_sound() {
            return None;
        }
        let width = layout.window_width() as u64;
        let height = layout.window_height() as u64;
        assert(width * height <= 0xffff_ffff * 0xffff_ffff) by (nonlinear_arith)
            requires
                0 <= width <= 0xffff_ffff,
                0 <= height <= 0xffff_ffff,
        ;
        let pixels = width * height;
        if pixels > (usize::MAX / 4) as u64 {
            return None;
        }
        if GameOfLife::storage_len(
            subpixels,
            layout.game_width as usize,
            layout.game_height as usize,
        ).is_none() {
            return None;
        }
        let mut game = GameOfLife::new(
            subpixels,
            layout.game_width as usize,
            layout.game_height as usize,
            Self::density_of(LIFE_DENSITY_DEFAULT),
        );
        game.randomize(Self::density_of(LIFE_DENSITY_DEFAULT));
        Some(
            Simulation {
                layout,
                life_density: LIFE_DENSITY_DEFAULT,
                speed: SPEED_DEFAULT,
                game,
                run: false,
                request_redraw: true,
                close_requested: false,
            },
        )
    }

    /// The density that a setting in hundredths stands for.
    fn density_of(hundredths: u32) -> (density: Density)
        requires
            hundredths <= LIFE_DENSITY_SCALE,
        ensures
            density.wf(),
            density.numerator() == hundredths,
            density.denominator() == LIFE_DENSITY_SCALE,
    {
        Density::new(hundredths, LIFE_DENSITY_SCALE).unwrap()
    }

    /// Takes an event of the window. A request to close and a pressed key
    /// are turned into commands and carried out; a request for a redraw is
    /// answered with the frame to show; anything else is passed over.
    pub fn window_event(&mut self, event: Event) -> (frame: Option<Vec<u8>>)
        requires
            old(self).wf(),
        ensures
            final(self).wf(),
            match event {
                Event::CloseRequested => frame is None && old(self)@.handled(
                    Command::Exit,
                    final(self)@,
                ),
                Event::KeyPressed(key) => frame is None && match Command::for_key(key) {
                    Some(command) => old(self)@.handled(command, final(self)@),
                    None => final(self)@ == old(self)@,
                },
                Event::RedrawRequested => {
                    &&& final(self)@ == old(self)@.redrawn()
                    &&& frame matches Some(bytes)
                    &&& bytes@ == final(self)@.frame()
                },
                Event::Other => frame is None && final(self)@ == old(self)@,
            },
    {
        match event {
            Event::CloseRequested => {
                self.handle(Command::Exit);
                None
            },
            Event::KeyPressed(key) => {
                match Command::for_key(key) {
                    Some(command) => self.handle(command),
                    None => (),
                }
                None
            },
            Event::RedrawRequested => Some(self.redraw()),
            Event::Other => None,
        }
    }

    /// Carries out a command of the host.
    ///
    /// The settings change as `settings_after` tells. The board advances by
    /// one generation on a `Step` taken while stopped, is drawn anew by
    /// chance on a command that randomises, and is left alone otherwise.
    pub fn handle(&mut self, command: Command)
        requires
            old(self).wf(),
        ensures
            final(self).wf(),
            old(self)@.handled(command, final(self)@),
    {
        proof {
            crate::board::lemma_step_keeps_shape(self@.board);
        }
        match command {
            Command::Randomize => {
                self.game.randomize(Self::density_of(self.life_density));
                self.request_redraw = true;
            },
            Command::ToggleRun => {
                self.run = !self.run;
            },
            Command::Step => {
                match self.run {
                    false => {
                        self.game.update();
                        self.request_redraw = true
                    },
                    _ => (),
                }
            },
            Command::DensityUp => {
                if self.life_density < LIFE_DENSITY_MAX {
                    self.life_density += LIFE_DENSITY_STEP;
                    if self.life_density > LIFE_DENSITY_MAX {
                        self.life_density = LIFE_DENSITY_MAX;
                    }
                    self.game.randomize(Self::density_of(self.life_density));
                    self.request_redraw = true;
                }
            },
            Command::DensityDown => {
                if self.life_density > LIFE_DENSITY_MIN {
                    self.life_density = self.life_density.saturating_sub(LIFE_DENSITY_STEP);
                    if self.life_density < LIFE_DENSITY_MIN {
                        self.life_density = LIFE_DENSITY_MIN;
                    }
                    self.game.randomize(Self::density_of(self.life_density));
                    self.request_redraw = true;
                }
            },
            Command::SpeedUp => {
                if self.speed < SPEED_LEVELS - 1 {
                    self.speed += 1;
                    if !self.run {
                        self.request_redraw = true;
                    }
                }
            },
            Command::SpeedDown => {
                if self.speed > 0 {
                    self.speed -= 1;
                    if !self.run {
                        self.request_redraw = true;
                    }
                }
            },
            Command::Exit => {
                self.close_requested = true;
            },
        }
    }

    /// Answers the window's request for a redraw: while running the game
    /// first advances by one generation, then the whole surface is drawn.
    pub fn redraw(&mut self) -> (frame: Vec<u8>)
        requires
            old(self).wf(),
        ensures
            final(self).wf(),
            final(self)@ == old(self)@.redrawn(),
            frame@ == final(self)@.frame(),
    {
        proof {
            crate::board::lemma_step_keeps_shape(self@.board);
        }
        if self.run {
            self.game.update();
        }
        self.frame()
    }

    /// The whole surface as bytes: four for each pixel, the pixels row by
    /// row.
    pub fn frame(&mut self) -> (frame: Vec<u8>)
        requires
            old(self).wf(),
        ensures
            *final(self) == *old(self),
            frame@ == old(self)@.frame(),
    {
        let width = self.layout.window_width() as usize;
        let height = self.layout.window_height() as usize;
        let count = width * height;
        let mut frame: Vec<u8> = Vec::with_capacity(4 * count);
        let mut i: usize = 0;
        while i < count
            invariant
                *self == *old(self),
                self.wf(),
                width == self@.layout.spec_window_width(),
                height == self@.layout.spec_window_height(),
                count == width * height,
                4 * count <= usize::MAX,
                i <= count,
                frame.len() == 4 * i,
                forall|k: int| 0 <= k < 4 * i ==> frame[k] == #[trigger] self@.frame()[k],
            decreases count - i,
        {
            proof {
                lemma_mod_bound(i as int, width as int);
                lemma_multiply_divide_lt(i as int, width as int, height as int);
            }
            let x = (i % width) as u32;
            let y = (i / width) as u32;
            let rgba = self.window_pixel(x, y);
            frame.push(rgba[0]);
            frame.push(rgba[1]);
            frame.push(rgba[2]);
            frame.push(rgba[3]);
            i += 1;
        }
        assert(frame@ =~= self@.frame());
        frame
    }

    /// The colour of the pixel at `(x, y)` of the surface. Whatever lies
    /// outside the surface is black.
    pub fn window_pixel(&mut self, x: u32, y: u32) -> (rgba: [u8; 4])
        requires
            old(self).wf(),
        ensures
            *final(self) == *old(self),
            rgba@ == old(self)@.window_pixel(x as int, y as int),
    {
        match self.layout.region(x, y) {
            Region::Margin => {
                let rgba = [0, 0, 0, 255];
                assert(rgba@ =~= black());
                rgba
            },
            Region::DensityGauge => {
                // life density indicator
                proof {
                    lemma_gauge_ends(
                        self.layout.game_width as int,
                        self.life_density as int,
                        LIFE_DENSITY_MAX as int,
                    );
                }
                let life_density_width = bar_width(
                    self.layout.game_width,
                    self.life_density,
                    LIFE_DENSITY_MAX,
                );
                if x < self.layout.border + life_density_width {
                    let rgba = [0, 255, 255, 255];
                    assert(rgba@ =~= cyan());
                    rgba
                } else {
                    let rgba = [255, 255, 255, 255];
                    assert(rgba@ =~= white());
                    rgba
                }
            },
            Region::SpeedGauge => {
                // current speed indicator
                proof {
                    lemma_gauge_ends(
                        self.layout.game_width as int,
                        self.speed + 1,
                        SPEED_LEVELS as int,
                    );
                }
                let speed_width = bar_width(
                    self.layout.game_width,
                    (self.speed + 1) as u32,
                    SPEED_LEVELS as u32,
                );
                if x < self.layout.border + speed_width {
                    let rgba = [255, 0, 255, 255];
                    assert(rgba@ =~= magenta());
                    rgba
                } else {
                    let rgba = [255, 255, 255, 255];
                    assert(rgba@ =~= white());
                    rgba
                }
            },
            Region::Game => {
                // game grid
                proof {
                    lemma_game_region(self.layout, x as int, y as int);
                }
                let control_panel = self.layout.panel_height();
                let game_x = x - self.layout.border;
                let game_y = y - self.layout.border - control_panel;
                self.game.pixel_color(game_x as usize, game_y as usize)
            },
        }
    }

    /// Tells the host what to do before it waits for the next event, and
    /// takes note that a redraw that was due while stopped is now asked for.
    pub fn about_to_wait(&mut self) -> (plan: IdlePlan)
        requires
            old(self).wf(),
        ensures
            final(self).wf(),
            plan == old(self)@.idle_plan(),
            final(self)@ == (SimulationState {
                request_redraw: old(self)@.request_redraw && old(self)@.run,
                ..old(self)@
            }),
    {
        let mut plan = IdlePlan { sleep: None, redraw: false, poll: self.run, exit: self.close_requested };
        if self.run && !self.close_requested {
            plan.sleep = Some(sleep_time(self.speed));
            plan.redraw = true;
        }
        if !self.run && self.request_redraw {
            plan.redraw = true;
            self.request_redraw = false;
        }
        plan
    }

    /// The width and the height of the surface, in pixels.
    pub fn window_size(&self) -> (size: (u32, u32))
        requires
            self.wf(),
        ensures
            size.0 == self@.layout.spec_window_width(),
            size.1 == self@.layout.spec_window_height(),
    {
        (self.layout.window_width(), self.layout.window_height())
    }

    /// The measures of the surface.
    pub fn layout(&self) -> (layout: Layout)
        ensures
            layout == self@.layout,
    {
        self.layout
    }

    /// The game.
    pub fn game(&self) -> (game: &GameOfLife)
        ensures
            game@ == self@.board,
    {
        &self.game
    }

    /// The density setting, in hundredths.
    pub fn life_density(&self) -> (hundredths: u32)
        ensures
            hundredths == self@.life_density,
    {
        self.life_density
    }

    /// The speed level.
    pub fn speed(&self) -> (level: u64)
        ensures
            level == self@.speed,
    {
        self.speed
    }

    /// Whether the simulation runs on the clock.
    pub fn is_running(&self) -> (run: bool)
        ensures
            run == self@.run,
    {
        self.run
    }

    /// Whether a redraw is due.
    pub fn redraw_requested(&self) -> (due: bool)
        ensures
            due == self@.request_redraw,
    {
        self.request_redraw
    }

    /// Whether the simulation has been asked to end.
    pub fn close_requested(&self) -> (asked: bool)
        ensures
            asked == self@.close_requested,
    {
        self.close_requested
    }
}

} // verus!
