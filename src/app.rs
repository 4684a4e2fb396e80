//! The viewer's state and how intents change it.
use vstd::prelude::*;

use crate::camera::{Orientation, PITCH_LIMIT};
use crate::input::{event_action, resolve_event, InputEvent};
use crate::intent::{Action, Direction, DrawMarker, RenderMode, Vec2};

verus! {

/// What the caller must still do to the camera's position and lens after an
/// intent, work that is done in real-valued arithmetic outside this state.
#[derive(Clone, Copy, Debug, PartialEq, Eq, Structural)]
pub enum CameraStep {
    /// Nothing.
    Keep,
    /// Translate the camera one step toward the direction.
    Translate(Direction),
    /// Recompute the aspect ratio from the new `terminal_size`.
    Refit,
}

/// The viewer's state between frames.
#[derive(Clone, Copy, Debug, PartialEq, Eq, Structural)]
pub struct App {
    pub should_quit: bool,
    /// The display surface's size in cells.
    pub terminal_size: Vec2,
    pub orientation: Orientation,
    pub draw_mode: DrawMarker,
    pub render_mode: RenderMode,
}

impl App {
    pub open spec fn wf(self) -> bool {
        self.orientation.wf()
    }

    /// The state after `action`.
    pub open spec fn after(self, action: Action) -> App {
        match action {
            Action::Quit => App { should_quit: true, ..self },
            Action::Look(d) => App { orientation: self.orientation.turned(d), ..self },
            Action::ChangeDrawMode(m) => App { draw_mode: m, ..self },
            Action::ChangeRenderMode(m) => App { render_mode: m, ..self },
            Action::ChangeWindowSize(s) => App { terminal_size: s, ..self },
            Action::Move(_) | Action::Idle => self,
        }
    }

    /// The state after each of `actions` in turn.
    pub open spec fn after_all(self, actions: Seq<Action>) -> App
        decreases actions.len(),
    {
        if actions.len() == 0 {
            self
        } else {
            self.after(actions[0]).after_all(actions.drop_first())
        }
    }

    /// What is left for the camera's position and lens after `action`.
    pub open spec fn step_for(action: Action) -> CameraStep {
        match action {
            Action::Move(d) => CameraStep::Translate(d),
            Action::ChangeWindowSize(_) => CameraStep::Refit,
            _ => CameraStep::Keep,
        }
    }

    /// Running, ten by ten cells, level, drawing edges in braille.
    pub fn default() -> (r: App)
        ensures
            !r.should_quit,
            r.terminal_size == (Vec2 { x: 10, y: 10 }),
            r.orientation == Orientation::default_spec(),
            r.draw_mode == DrawMarker::Braille,
            r.render_mode == RenderMode::Vertex,
            r.wf(),
    {
        App {
            should_quit: false,
            terminal_size: Vec2 { x: 10, y: 10 },
            orientation: Orientation::default(),
            draw_mode: DrawMarker::Braille,
            render_mode: RenderMode::Vertex,
        }
    }

    /// The intent that `event` stands for.
    pub fn process_event(&self, event: Option<InputEvent>) -> (r: Action)
        ensures
            r == event_action(event),
    {
        resolve_event(event)
    }

    /// Applies `action`, and says what is left to do to the camera's position
    /// and lens.
    pub fn process_action(&mut self, action: Action) -> (r: CameraStep)
        ensures
            *final(self) == old(self).after(action),
            r == App::step_for(action),
    {
        match action {
            Action::Quit => {
                self.should_quit = true;
                CameraStep::Keep
            },
            Action::Move(d) => CameraStep::Translate(d),
            Action::Look(d) => {
                self.orientation.look(d);
                CameraStep::Keep
            },
            Action::ChangeDrawMode(m) => {
                self.draw_mode = m;
                CameraStep::Keep
            },
            Action::ChangeRenderMode(m) => {
                self.render_mode = m;
                CameraStep::Keep
            },
            Action::ChangeWindowSize(s) => {
                self.terminal_size = s;
                CameraStep::Refit
            },
            Action::Idle => CameraStep::Keep,
        }
    }
}

/// From a state whose pitch is within the limit, the pitch stays within
/// `[-89, 89]` degrees after any sequence of intents, however many looks up or
/// down come one after another.
pub proof fn lemma_pitch_stays_bounded(app: App, actions: Seq<Action>)
    requires
        app.wf(),
    ensures
        app.after_all(actions).wf(),
        -PITCH_LIMIT <= app.after_all(actions).orientation.pitch <= PITCH_LIMIT,
    decreases actions.len(),
{
    if actions.len() > 0 {
        lemma_pitch_stays_bounded(app.after(actions[0]), actions.drop_first());
    }
}

} // verus!
