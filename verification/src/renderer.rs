//! The drawing session as a state machine.
//!
//! A session takes the terminal over, plots the points of the chaos game one
//! by one, waits for the quit key, and hands the terminal back. The machine
//! here makes every decision of that course and performs none of its input
//! or output: it names the next terminal command, a driver carries the
//! command out and reports what happened, and the machine answers with the
//! command after that.

use vstd::prelude::*;
use crate::config::Config;
use crate::generator::PointGenerator;
use crate::geometry::{Point, Triangle};
use crate::palette::{color_for, color_for_spec, palette, Color};
use crate::random::{random_usize, Draws};

verus! {

/// How long one poll for input may block, in milliseconds.
pub const POLL_TIMEOUT_MS: u64 = 100;

/// The glyph that marks a plotted cell.
pub const GLYPH: char = '*';

/// The status line that is shown once the figure is complete.
pub const STATUS_TEXT: &'static str = "press 'q' to quit";

/// A key of the keyboard, as far as the session tells keys apart.
#[derive(Clone, Copy, Debug, PartialEq, Eq, Structural)]
pub enum Key {
    /// A key that types a character.
    Char(char),
    /// The Escape key.
    Esc,
    /// Any other key.
    Other,
}

/// The keys that end the session: the character `q` and Escape.
pub open spec fn is_quit_key_spec(key: Key) -> bool {
    key == Key::Char('q') || key == Key::Esc
}

pub fn is_quit_key(key: Key) -> (quit: bool)
    ensures
        quit == is_quit_key_spec(key),
{
    match key {
        Key::Char(c) => c == 'q',
        Key::Esc => true,
        Key::Other => false,
    }
}

/// What the driver reports after it has carried out a command.
#[derive(Clone, Copy, Debug, PartialEq, Eq, Structural)]
pub enum Event {
    /// The command went through. For a poll: no key arrived in time.
    Completed,
    /// The command reported an error.
    Failed,
    /// The poll delivered a key.
    KeyPressed(Key),
}

/// Why a session ended early.
#[derive(Clone, Copy, Debug, PartialEq, Eq, Structural)]
pub enum RenderError {
    /// A command that takes the terminal over, or one that hands it back,
    /// failed.
    TerminalSetup,
    /// A command that writes to the screen failed while the figure was drawn.
    Render,
    /// Waiting for input failed.
    InputPoll,
}

/// A command for the driver to carry out.
#[derive(Clone, Copy, Debug, PartialEq, Eq)]
pub enum Action {
    /// Switch the terminal to raw input mode.
    EnableRawMode,
    /// Switch to the alternate screen buffer.
    EnterAlternateScreen,
    /// Clear the whole screen.
    ClearScreen,
    /// Hide the text cursor.
    HideCursor,
    /// Print the glyph at `position` in `color`.
    Plot { position: Point, color: Color },
    /// Pause for `micros` microseconds.
    Sleep { micros: u64 },
    /// Print the status line in `color`, starting at `position`.
    PrintStatus { position: Point, color: Color },
    /// Flush buffered output.
    Flush,
    /// Wait up to `timeout_ms` milliseconds for an input event.
    PollInput { timeout_ms: u64 },
    /// Show the text cursor again.
    ShowCursor,
    /// Leave the alternate screen buffer.
    LeaveAlternateScreen,
    /// Switch raw input mode off.
    DisableRawMode,
    /// Nothing is left to do; the session ended with `result`.
    Finish { result: Result<(), RenderError> },
}

/// How far a session has come.
#[derive(Clone, Copy, Debug, PartialEq, Eq, Structural)]
pub enum Phase {
    /// Nothing was done to the terminal yet.
    Uninitialized,
    /// Raw input mode is on.
    RawModeActive,
    /// The alternate screen is shown and is being prepared.
    AlternateScreenActive,
    /// The figure is being drawn.
    Rendering,
    /// The figure is complete; the quit key is awaited.
    AwaitingQuit,
    /// The terminal is being handed back.
    Restoring,
    /// The session is over.
    Terminated,
}

/// The state of one drawing session.
#[derive(Clone, Copy, Debug)]
pub struct Renderer {
    /// The settings of the session.
    pub config: Config,
    /// The chaos game that supplies the points.
    pub generator: PointGenerator,
    /// How far the session has come.
    pub phase: Phase,
    /// The command whose outcome the machine waits for.
    pub pending: Action,
    /// Raw mode was switched on, and the command that switches it off has
    /// not been carried out.
    pub holds_raw_mode: bool,
    /// The alternate screen was entered, and the command that leaves it has
    /// not been carried out.
    pub holds_alternate_screen: bool,
    /// The first failure that was reported, if any.
    pub failure: Option<RenderError>,
    /// How many points were handed out to be plotted.
    pub plotted: u64,
}

impl Renderer {
    /// The result of a session with the given first failure.
    pub open spec fn result_of(failure: Option<RenderError>) -> Result<(), RenderError> {
        match failure {
            None => Ok(()),
            Some(e) => Err(e),
        }
    }

    /// The session ends at once with `error`; the terminal stays as it is.
    pub open spec fn aborted(&self, error: RenderError) -> Renderer {
        Renderer {
            phase: Phase::Terminated,
            pending: Action::Finish { result: Err(error) },
            failure: Some(error),
            ..*self
        }
    }

    /// The session goes on with `pending`, in the same phase.
    pub open spec fn proceed(&self, pending: Action) -> Renderer {
        Renderer { pending, ..*self }
    }

    /// The command that prints the status line: in white, from the first
    /// column of the bottom row.
    pub open spec fn status_line(&self) -> Action {
        Action::PrintStatus {
            position: Point { x: 0, y: (self.config.screen_dim.height - 1) as u16 },
            color: Color::White,
        }
    }

    /// The next point is plotted, or the status line is printed when no
    /// point is left.
    pub open spec fn plot_or_status(&self, draws: Draws) -> Renderer {
        if self.generator.exhausted() {
            Renderer { phase: Phase::Rendering, pending: self.status_line(), ..*self }
        } else {
            Renderer {
                phase: Phase::Rendering,
                generator: self.generator.after(draws),
                pending: Action::Plot {
                    position: self.generator.next_point_spec(draws),
                    color: color_for_spec(draws.color),
                },
                plotted: (self.plotted + 1) as u64,
                ..*self
            }
        }
    }

    /// The first failure after `event` was reported while the terminal is
    /// handed back.
    pub open spec fn noted(&self, event: Event) -> Option<RenderError> {
        if self.failure is None && event is Failed {
            Some(RenderError::TerminalSetup)
        } else {
            self.failure
        }
    }

    /// The session after the driver reported `event` for the pending command.
    /// `draws` is read only where a point is plotted next.
    ///
    /// Until the quit key was pressed, a failure ends the session at once.
    /// While the terminal is handed back, every command is issued whatever
    /// the one before it reported. Any event but `Failed` counts as "the
    /// command went through" where a key cannot be the answer.
    pub open spec fn next(&self, event: Event, draws: Draws) -> Renderer {
        match self.phase {
            Phase::Uninitialized => if event is Failed {
                self.aborted(RenderError::TerminalSetup)
            } else {
                Renderer {
                    phase: Phase::RawModeActive,
                    pending: Action::EnterAlternateScreen,
                    holds_raw_mode: true,
                    ..*self
                }
            },
            Phase::RawModeActive => if event is Failed {
                self.aborted(RenderError::TerminalSetup)
            } else {
                Renderer {
                    phase: Phase::AlternateScreenActive,
                    pending: Action::ClearScreen,
                    holds_alternate_screen: true,
                    ..*self
                }
            },
            Phase::AlternateScreenActive => if event is Failed {
                self.aborted(RenderError::TerminalSetup)
            } else if self.pending is ClearScreen {
                self.proceed(Action::HideCursor)
            } else {
                self.plot_or_status(draws)
            },
            Phase::Rendering => if event is Failed {
                self.aborted(RenderError::Render)
            } else {
                match self.pending {
                    Action::Plot { .. } => if self.generator.exhausted() {
                        self.plot_or_status(draws)
                    } else {
                        self.proceed(Action::Sleep { micros: self.config.refresh_rate_usec })
                    },
                    Action::Sleep { .. } => self.plot_or_status(draws),
                    Action::PrintStatus { .. } => self.proceed(Action::Flush),
                    _ => Renderer {
                        phase: Phase::AwaitingQuit,
                        pending: Action::PollInput { timeout_ms: POLL_TIMEOUT_MS },
                        ..*self
                    },
                }
            },
            Phase::AwaitingQuit => match event {
                Event::Failed => self.aborted(RenderError::InputPoll),
                Event::KeyPressed(key) => if is_quit_key_spec(key) {
                    Renderer { phase: Phase::Restoring, pending: Action::ClearScreen, ..*self }
                } else {
                    *self
                },
                Event::Completed => *self,
            },
            Phase::Restoring => match self.pending {
                Action::ClearScreen => Renderer {
                    pending: Action::ShowCursor,
                    failure: self.noted(event),
                    ..*self
                },
                Action::ShowCursor => Renderer {
                    pending: Action::LeaveAlternateScreen,
                    failure: self.noted(event),
                    ..*self
                },
                Action::LeaveAlternateScreen => Renderer {
                    pending: Action::DisableRawMode,
                    holds_alternate_screen: false,
                    failure: self.noted(event),
                    ..*self
                },
                _ => Renderer {
                    phase: Phase::Terminated,
                    pending: Action::Finish { result: Self::result_of(self.noted(event)) },
                    holds_raw_mode: false,
                    failure: self.noted(event),
                    ..*self
                },
            },
            Phase::Terminated => *self,
        }
    }

    /// The session after the driver's reports were taken in order, each with
    /// its round of draws.
    pub open spec fn run(&self, steps: Seq<(Event, Draws)>) -> Renderer
        decreases steps.len(),
    {
        if steps.len() == 0 {
            *self
        } else {
            self.next(steps[0].0, steps[0].1).run(steps.drop_first())
        }
    }

    /// The commands that the session issues in answer to the driver's
    /// reports, one for each report.
    pub open spec fn issued(&self, steps: Seq<(Event, Draws)>) -> Seq<Action>
        decreases steps.len(),
    {
        if steps.len() == 0 {
            Seq::empty()
        } else {
            let after = self.next(steps[0].0, steps[0].1);
            seq![after.pending] + after.issued(steps.drop_first())
        }
    }

    /// The generator has emitted nothing yet.
    pub open spec fn generator_fresh(&self) -> bool {
        self.generator.current is None && self.generator.remaining == self.config.max_iterations
    }

    /// What holds of every session that began with `new` and went on by
    /// `step` or `step_with`: phase, pending command, held terminal state and
    /// generator fit together.
    pub open spec fn wf(&self) -> bool {
        &&& self.config.screen_dim.is_valid()
        &&& self.generator.screen == self.config.screen_dim
        &&& self.generator.triangle.spans(self.config.screen_dim)
        &&& self.plotted + self.generator.pending() == self.config.max_iterations + 1
        &&& match self.phase {
            Phase::Uninitialized => {
                &&& self.pending is EnableRawMode
                &&& !self.holds_raw_mode
                &&& !self.holds_alternate_screen
                &&& self.failure is None
                &&& self.generator_fresh()
            },
            Phase::RawModeActive => {
                &&& self.pending is EnterAlternateScreen
                &&& self.holds_raw_mode
                &&& !self.holds_alternate_screen
                &&& self.failure is None
                &&& self.generator_fresh()
            },
            Phase::AlternateScreenActive => {
                &&& self.pending is ClearScreen || self.pending is HideCursor
                &&& self.holds_raw_mode
                &&& self.holds_alternate_screen
                &&& self.failure is None
                &&& self.generator_fresh()
            },
            Phase::Rendering => {
                &&& self.holds_raw_mode
                &&& self.holds_alternate_screen
                &&& self.failure is None
                &&& match self.pending {
                    Action::Plot { position, color } => {
                        &&& self.generator.current == Some(position)
                        &&& palette().contains(color)
                    },
                    Action::Sleep { micros } => {
                        &&& micros == self.config.refresh_rate_usec
                        &&& self.generator.current is Some
                        &&& !self.generator.exhausted()
                    },
                    Action::PrintStatus { .. } => {
                        &&& self.pending == self.status_line()
                        &&& self.generator.exhausted()
                    },
                    Action::Flush => self.generator.exhausted(),
                    _ => false,
                }
            },
            Phase::AwaitingQuit => {
                &&& self.pending == Action::PollInput { timeout_ms: POLL_TIMEOUT_MS }
                &&& self.holds_raw_mode
                &&& self.holds_alternate_screen
                &&& self.failure is None
                &&& self.generator.exhausted()
            },
            Phase::Restoring => {
                &&& self.holds_raw_mode
                &&& self.generator.exhausted()
                &&& self.failure is None || self.failure == Some(RenderError::TerminalSetup)
                &&& match self.pending {
                    Action::ClearScreen => self.holds_alternate_screen && self.failure is None,
                    Action::ShowCursor => self.holds_alternate_screen,
                    Action::LeaveAlternateScreen => self.holds_alternate_screen,
                    Action::DisableRawMode => !self.holds_alternate_screen,
                    _ => false,
                }
            },
            Phase::Terminated => {
                &&& self.pending == Action::Finish { result: Self::result_of(self.failure) }
                &&& self.failure is None ==> {
                    &&& !self.holds_raw_mode
                    &&& !self.holds_alternate_screen
                    &&& self.generator.exhausted()
                }
            },
        }
    }

    /// A session that has not touched the terminal yet. Its first command is
    /// `EnableRawMode`, and its triangle spans the configured screen.
    pub fn new(config: Config) -> (renderer: Renderer)
        requires
            config.screen_dim.is_valid(),
        ensures
            renderer.wf(),
            renderer.config == config,
            renderer.phase == Phase::Uninitialized,
            renderer.pending == Action::EnableRawMode,
            !renderer.holds_raw_mode,
            !renderer.holds_alternate_screen,
            renderer.failure is None,
            renderer.plotted == 0,
            renderer.generator.triangle.spans(config.screen_dim),
            renderer.generator.screen == config.screen_dim,
            renderer.generator.current is None,
            renderer.generator.remaining == config.max_iterations,
    {
        let triangle = Triangle::from_screen(&config.screen_dim);
        Renderer {
            config,
            generator: PointGenerator::new(triangle, &config),
            phase: Phase::Uninitialized,
            pending: Action::EnableRawMode,
            holds_raw_mode: false,
            holds_alternate_screen: false,
            failure: None,
            plotted: 0,
        }
    }

    /// The command that the driver has to carry out now.
    pub fn pending_action(&self) -> (action: Action)
        ensures
            action == self.pending,
    {
        self.pending
    }

    /// The result of the session, once it is over.
    pub fn result(&self) -> (result: Option<Result<(), RenderError>>)
        ensures
            result == match self.phase {
                Phase::Terminated => Some(Self::result_of(self.failure)),
                _ => None,
            },
    {
        match self.phase {
            Phase::Terminated => match self.failure {
                None => Some(Ok(())),
                Some(e) => Some(Err(e)),
            },
            _ => None,
        }
    }

    /// Whether the answer to `event` is to plot a point, so that `next` reads
    /// its draws.
    pub open spec fn plots_next(&self, event: Event) -> bool {
        &&& !(event is Failed)
        &&& !self.generator.exhausted()
        &&& match self.phase {
            Phase::AlternateScreenActive => !(self.pending is ClearScreen),
            Phase::Rendering => self.pending is Sleep,
            _ => false,
        }
    }

    fn abort(&mut self, error: RenderError)
        ensures
            *final(self) == old(self).aborted(error),
    {
        self.phase = Phase::Terminated;
        self.pending = Action::Finish { result: Err(error) };
        self.failure = Some(error);
    }

    fn plot_next_or_status(&mut self, draws: &Draws)
        requires
            old(self).generator.wf(),
            old(self).config.screen_dim.is_valid(),
            old(self).plotted + old(self).generator.pending() <= u32::MAX + 1,
        ensures
            *final(self) == old(self).plot_or_status(*draws),
    {
        self.phase = Phase::Rendering;
        match self.generator.next_with(draws) {
            Some(position) => {
                self.pending = Action::Plot { position, color: color_for(draws.color) };
                self.plotted = self.plotted + 1;
            },
            None => {
                self.pending = Action::PrintStatus {
                    position: Point::new(0, self.config.screen_dim.height - 1),
                    color: Color::White,
                };
            },
        }
    }

    fn note(&mut self, event: Event)
        ensures
            *final(self) == (Renderer { failure: old(self).noted(event), ..*old(self) }),
    {
        match event {
            Event::Failed => {
                if self.failure.is_none() {
                    self.failure = Some(RenderError::TerminalSetup);
                }
            },
            _ => {},
        }
    }

    /// Takes the driver's report on the pending command and answers with the
    /// next command, using `draws` where a point is plotted next.
    pub fn step_with(&mut self, event: Event, draws: &Draws) -> (action: Action)
        requires
            old(self).wf(),
        ensures
            *final(self) == old(self).next(event, *draws),
            action == final(self).pending,
            final(self).wf(),
    {
        let failed = match event {
            Event::Failed => true,
            _ => false,
        };
        match self.phase {
            Phase::Uninitialized => {
                if failed {
                    self.abort(RenderError::TerminalSetup);
                } else {
                    self.phase = Phase::RawModeActive;
                    self.pending = Action::EnterAlternateScreen;
                    self.holds_raw_mode = true;
                }
            },
            Phase::RawModeActive => {
                if failed {
                    self.abort(RenderError::TerminalSetup);
                } else {
                    self.phase = Phase::AlternateScreenActive;
                    self.pending = Action::ClearScreen;
                    self.holds_alternate_screen = true;
                }
            },
            Phase::AlternateScreenActive => {
                if failed {
                    self.abort(RenderError::TerminalSetup);
                } else {
                    match self.pending {
                        Action::ClearScreen => {
                            self.pending = Action::HideCursor;
                        },
                        _ => {
                            self.plot_next_or_status(draws);
                        },
                    }
                }
            },
            Phase::Rendering => {
                if failed {
                    self.abort(RenderError::Render);
                } else {
                    match self.pending {
                        Action::Plot { .. } => {
                            if self.generator.is_exhausted() {
                                self.plot_next_or_status(draws);
                            } else {
                                self.pending = Action::Sleep {
                                    micros: self.config.refresh_rate_usec,
                                };
                            }
                        },
                        Action::Sleep { .. } => {
                            self.plot_next_or_status(draws);
                        },
                        Action::PrintStatus { .. } => {
                            self.pending = Action::Flush;
                        },
                        _ => {
                            self.phase = Phase::AwaitingQuit;
                            self.pending = Action::PollInput { timeout_ms: POLL_TIMEOUT_MS };
                        },
                    }
                }
            },
            Phase::AwaitingQuit => {
                match event {
                    Event::Failed => {
                        self.abort(RenderError::InputPoll);
                    },
                    Event::KeyPressed(key) => {
                        if is_quit_key(key) {
                            self.phase = Phase::Restoring;
                            self.pending = Action::ClearScreen;
                        }
                    },
                    Event::Completed => {},
                }
            },
            Phase::Restoring => {
                self.note(event);
                match self.pending {
                    Action::ClearScreen => {
                        self.pending = Action::ShowCursor;
                    },
                    Action::ShowCursor => {
                        self.pending = Action::LeaveAlternateScreen;
                    },
                    Action::LeaveAlternateScreen => {
                        self.pending = Action::DisableRawMode;
                        self.holds_alternate_screen = false;
                    },
                    _ => {
                        self.phase = Phase::Terminated;
                        self.holds_raw_mode = false;
                        self.pending = match self.failure {
                            None => Action::Finish { result: Ok(()) },
                            Some(e) => Action::Finish { result: Err(e) },
                        };
                    },
                }
            },
            Phase::Terminated => {},
        }
        proof {
            lemma_next_keeps_wf(*old(self), event, *draws);
        }
        self.pending
    }

    /// Takes the driver's report on the pending command and answers with the
    /// next command. Where a point is plotted next, fresh random values place
    /// or move it and select its colour; no random value is taken otherwise.
    /// Whatever was drawn, the outcome is that of `step_with` for some round
    /// of draws.
    pub fn step(&mut self, event: Event) -> (action: Action)
        requires
            old(self).wf(),
        ensures
            exists|draws: Draws| *final(self) == #[trigger] old(self).next(event, draws),
            !old(self).plots_next(event) ==> forall|draws: Draws|
                *final(self) == #[trigger] old(self).next(event, draws),
            action == final(self).pending,
            final(self).wf(),
    {
        let mut draws = Draws::new(0, 0, 0, 0);
        let failed = match event {
            Event::Failed => true,
            _ => false,
        };
        let plots = !failed && !self.generator.is_exhausted() && match self.phase {
            Phase::AlternateScreenActive => match self.pending {
                Action::ClearScreen => false,
                _ => true,
            },
            Phase::Rendering => match self.pending {
                Action::Sleep { .. } => true,
                _ => false,
            },
            _ => false,
        };
        if plots {
            draws = self.generator.fresh_draws();
            draws.color = random_usize();
        }
        let action = self.step_with(event, &draws);
        assert(*self == old(self).next(event, draws));
        assert forall|other: Draws| !old(self).plots_next(event) implies *self == #[trigger] old(
            self,
        ).next(event, other) by {
            lemma_draws_matter_only_for_plots(*old(self), event, draws, other);
        }
        action
    }

    /// Runs the session against a script: takes the recorded reports in
    /// order, each with its round of draws, and records the command that
    /// answers each.
    pub fn replay(&mut self, steps: &Vec<(Event, Draws)>) -> (actions: Vec<Action>)
        requires
            old(self).wf(),
        ensures
            *final(self) == old(self).run(steps@),
            actions@ == old(self).issued(steps@),
            actions@.len() == steps@.len(),
            final(self).wf(),
    {
        let mut actions: Vec<Action> = Vec::new();
        let mut i: usize = 0;
        assert(steps@.skip(0) =~= steps@);
        assert(Seq::<Action>::empty() + self.issued(steps@) =~= self.issued(steps@));
        while i < steps.len()
            invariant
                i <= steps.len(),
                self.wf(),
                actions@.len() == i,
                old(self).run(steps@) == self.run(steps@.skip(i as int)),
                old(self).issued(steps@) == actions@ + self.issued(steps@.skip(i as int)),
            decreases steps.len() - i,
        {
            let ghost before = *self;
            let ghost rest = steps@.skip(i as int);
            assert(rest.len() > 0 && rest[0] == steps@[i as int]);
            assert(rest.drop_first() =~= steps@.skip(i + 1));
            let event = steps[i].0;
            let draws = steps[i].1;
            let action = self.step_with(event, &draws);
            actions.push(action);
            assert(actions@ + self.issued(steps@.skip(i + 1)) =~= actions@.drop_last()
                + before.issued(rest));
            i = i + 1;
        }
        assert(steps@.skip(i as int).len() == 0);
        assert(actions@ + Seq::<Action>::empty() =~= actions@);
        actions
    }
}

/// A step leads from a well-formed session to a well-formed session.
pub proof fn lemma_next_keeps_wf(renderer: Renderer, event: Event, draws: Draws)
    requires
        renderer.wf(),
    ensures
        renderer.next(event, draws).wf(),
{
    if renderer.plots_next(event) {
        assert(palette()[(draws.color % 7) as int] == color_for_spec(draws.color));
    }
}

/// The draws are read only where a point is plotted next: every other step
/// has one outcome, whatever the random source would have given.
pub proof fn lemma_draws_matter_only_for_plots(
    renderer: Renderer,
    event: Event,
    draws: Draws,
    other: Draws,
)
    requires
        !renderer.plots_next(event),
    ensures
        renderer.next(event, draws) == renderer.next(event, other),
{
}

/// However a session goes on, it stays well-formed.
pub proof fn lemma_run_keeps_wf(renderer: Renderer, steps: Seq<(Event, Draws)>)
    requires
        renderer.wf(),
    ensures
        renderer.run(steps).wf(),
    decreases steps.len(),
{
    if steps.len() > 0 {
        lemma_next_keeps_wf(renderer, steps[0].0, steps[0].1);
        lemma_run_keeps_wf(renderer.next(steps[0].0, steps[0].1), steps.drop_first());
    }
}

/// Until the quit key was pressed, a failure ends the session at once: the
/// result names the stage that failed, no further command is issued, and
/// what the session holds of the terminal is not given back.
pub proof fn lemma_failure_ends_session(renderer: Renderer, draws: Draws)
    requires
        !(renderer.phase is Restoring),
        !(renderer.phase is Terminated),
    ensures
        ({
            let after = renderer.next(Event::Failed, draws);
            &&& after.phase is Terminated
            &&& after.pending == Action::Finish {
                result: Err(
                    match renderer.phase {
                        Phase::Rendering => RenderError::Render,
                        Phase::AwaitingQuit => RenderError::InputPoll,
                        _ => RenderError::TerminalSetup,
                    },
                ),
            }
            &&& after.holds_raw_mode == renderer.holds_raw_mode
            &&& after.holds_alternate_screen == renderer.holds_alternate_screen
        }),
{
}

/// While the quit key is awaited, the session leaves the wait for the
/// terminal's restoration on the character `q` and on Escape and on nothing
/// else: any other key, and a poll that brought no key, leave it where it
/// is, polling again.
pub proof fn lemma_only_quit_key_quits(renderer: Renderer, event: Event, draws: Draws)
    requires
        renderer.phase is AwaitingQuit,
    ensures
        ({
            let after = renderer.next(event, draws);
            let quit = event == Event::KeyPressed(Key::Char('q')) || event == Event::KeyPressed(
                Key::Esc,
            );
            &&& after.phase is Restoring <==> quit
            &&& quit ==> after.pending is ClearScreen
            &&& !quit && !(event is Failed) ==> after == renderer
        }),
{
}

/// Once the terminal is being handed back, all four commands of the
/// restoration are issued in their order, whatever the driver reports for
/// any of them; after the fourth the session is over and holds neither raw
/// mode nor the alternate screen. It ends well exactly if none of the four
/// was reported as failed.
pub proof fn lemma_restoration_runs_to_its_end(
    renderer: Renderer,
    first: (Event, Draws),
    second: (Event, Draws),
    third: (Event, Draws),
    fourth: (Event, Draws),
)
    requires
        renderer.wf(),
        renderer.phase is Restoring,
        renderer.pending is ClearScreen,
    ensures
        ({
            let a = renderer.next(first.0, first.1);
            let b = a.next(second.0, second.1);
            let c = b.next(third.0, third.1);
            let d = c.next(fourth.0, fourth.1);
            let failed = first.0 is Failed || second.0 is Failed || third.0 is Failed
                || fourth.0 is Failed;
            &&& renderer.issued(seq![first, second, third, fourth]) == seq![
                Action::ShowCursor,
                Action::LeaveAlternateScreen,
                Action::DisableRawMode,
                d.pending,
            ]
            &&& d.phase is Terminated
            &&& !d.holds_raw_mode
            &&& !d.holds_alternate_screen
            &&& d.pending == Action::Finish {
                result: if failed {
                    Err(RenderError::TerminalSetup)
                } else {
                    Ok(())
                },
            }
            &&& d == renderer.run(seq![first, second, third, fourth])
        }),
{
    let steps = seq![first, second, third, fourth];
    let a = renderer.next(first.0, first.1);
    let b = a.next(second.0, second.1);
    let c = b.next(third.0, third.1);
    let d = c.next(fourth.0, fourth.1);
    assert(steps.drop_first() =~= seq![second, third, fourth]);
    assert(seq![second, third, fourth].drop_first() =~= seq![third, fourth]);
    assert(seq![third, fourth].drop_first() =~= seq![fourth]);
    assert(seq![fourth].drop_first() =~= Seq::<(Event, Draws)>::empty());
    assert(d.run(Seq::<(Event, Draws)>::empty()) == d);
    assert(c.run(seq![fourth]) == d);
    assert(b.run(seq![third, fourth]) == d);
    assert(a.run(seq![second, third, fourth]) == d);
    assert(d.issued(Seq::<(Event, Draws)>::empty()) =~= Seq::<Action>::empty());
    assert(c.issued(seq![fourth]) =~= seq![d.pending]);
    assert(b.issued(seq![third, fourth]) =~= seq![c.pending, d.pending]);
    assert(a.issued(seq![second, third, fourth]) =~= seq![b.pending, c.pending, d.pending]);
    assert(renderer.issued(steps) =~= seq![a.pending, b.pending, c.pending, d.pending]);
}

/// A session that is over without a failure has plotted one point more than
/// the configured number of iterations and has given the terminal back: it
/// holds neither raw mode nor the alternate screen.
pub proof fn lemma_success_leaves_terminal_restored(start: Renderer, steps: Seq<(Event, Draws)>)
    requires
        start.wf(),
    ensures
        ({
            let end = start.run(steps);
            end.phase is Terminated && end.failure is None ==> {
                &&& end.pending == Action::Finish { result: Ok(()) }
                &&& !end.holds_raw_mode
                &&& !end.holds_alternate_screen
                &&& end.plotted == start.config.max_iterations + 1
            }
        }),
{
    lemma_run_keeps_wf(start, steps);
    lemma_run_keeps_config(start, steps);
}

/// The settings of a session never change.
pub proof fn lemma_run_keeps_config(start: Renderer, steps: Seq<(Event, Draws)>)
    ensures
        start.run(steps).config == start.config,
    decreases steps.len(),
{
    if steps.len() > 0 {
        lemma_run_keeps_config(start.next(steps[0].0, steps[0].1), steps.drop_first());
    }
}

} // verus!
