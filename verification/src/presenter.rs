//! The presenter: it owns the presentation that is shown, takes one command at
//! a time, and says what is to be done next.
use crate::error::BuildError;
use crate::presentation::Presentation;
use crate::presentation::PresentationView;
use crate::strings::joined;
use vstd::prelude::*;
use vstd::string::StringExecFns;

verus! {

/// How a presentation is run.
#[derive(Clone, Copy, Debug, PartialEq, Eq)]
pub enum PresentMode {
    /// The presentation is being written: it is reloaded when its file changes.
    Development,
    /// The presentation is being given: it is never reloaded.
    Presentation,
}

/// A command of the user.
#[derive(Clone, Copy, Debug, PartialEq, Eq)]
pub enum UserCommand {
    /// Draw the screen again.
    Redraw,
    JumpNextSlide,
    JumpPreviousSlide,
    JumpFirstSlide,
    JumpLastSlide,
    /// Go to the slide of this number, the first slide being number 1.
    JumpSlide(u32),
    /// End the session.
    Exit,
}

/// A command to the presenter.
#[derive(Clone, Debug, PartialEq, Eq)]
pub enum Command {
    /// A command of the user.
    User(UserCommand),
    /// The document changed.
    ReloadPresentation,
    /// Something went wrong where the commands come from.
    Abort { error: String },
}

/// What a command of the user leads to.
#[derive(Clone, Copy, Debug, PartialEq, Eq)]
pub enum CommandSideEffect {
    /// The session ends.
    Exit,
    /// The screen is drawn again.
    Redraw,
    /// Nothing happens.
    Nothing,
}

/// Why the screen could not be drawn.
#[derive(Clone, Debug, PartialEq, Eq)]
pub enum RenderError {
    /// The terminal is too small for the slide.
    TerminalTooSmall,
    /// Anything else.
    Other(String),
}

/// An error when loading a presentation.
#[derive(Clone, Debug, PartialEq, Eq)]
pub enum LoadPresentationError {
    /// The document cannot be parsed.
    Parse(String),
    /// The document cannot be read.
    Reading(String),
    /// The presentation cannot be built.
    Processing(BuildError),
}

/// An error during the presentation.
#[derive(Clone, Debug, PartialEq, Eq)]
pub enum PresentationError {
    Render(RenderError),
    LoadPresentationError(LoadPresentationError),
    Io(String),
    Fatal(String),
}

impl RenderError {
    /// The error in words.
    pub open spec fn message_of(self) -> Seq<char> {
        match self {
            RenderError::TerminalTooSmall => "terminal is too small"@,
            RenderError::Other(reason) => reason@,
        }
    }

    /// The error in words.
    pub fn message(&self) -> (text: String)
        ensures
            text@ == self.message_of(),
    {
        match self {
            RenderError::TerminalTooSmall => String::from_str("terminal is too small"),
            RenderError::Other(reason) => reason.clone(),
        }
    }
}

impl LoadPresentationError {
    /// The error in words.
    pub open spec fn message_of(self) -> Seq<char> {
        match self {
            LoadPresentationError::Parse(reason) => reason@,
            LoadPresentationError::Reading(reason) => "reading presentation: "@ + reason@,
            LoadPresentationError::Processing(error) => error.message_of(),
        }
    }

    /// The error in words.
    pub fn message(&self) -> (text: String)
        ensures
            text@ == self.message_of(),
    {
        match self {
            LoadPresentationError::Parse(reason) => reason.clone(),
            LoadPresentationError::Reading(reason) => joined(
                "reading presentation: ",
                reason.as_str(),
            ),
            LoadPresentationError::Processing(error) => error.message(),
        }
    }
}

impl PresentationError {
    /// The error in words.
    pub open spec fn message_of(self) -> Seq<char> {
        match self {
            PresentationError::Render(error) => error.message_of(),
            PresentationError::LoadPresentationError(error) => error.message_of(),
            PresentationError::Io(reason) => "io: "@ + reason@,
            PresentationError::Fatal(reason) => "fatal error: "@ + reason@,
        }
    }

    /// The error in words.
    pub fn message(&self) -> (text: String)
        ensures
            text@ == self.message_of(),
    {
        match self {
            PresentationError::Render(error) => error.message(),
            PresentationError::LoadPresentationError(error) => error.message(),
            PresentationError::Io(reason) => joined("io: ", reason.as_str()),
            PresentationError::Fatal(reason) => joined("fatal error: ", reason.as_str()),
        }
    }
}

/// What the presenter shows.
#[derive(Debug)]
pub enum PresenterState {
    /// Nothing yet: no presentation was loaded.
    Empty,
    /// A presentation.
    Presenting(Presentation),
    /// An error, in front of the last presentation that could be built.
    Failure { error: String, presentation: Presentation },
}

/// What the presenter shows, as contracts see it.
#[verifier::ext_equal]
pub enum StateView {
    Empty,
    Presenting(PresentationView),
    Failure { error: Seq<char>, presentation: PresentationView },
}

impl View for PresenterState {
    type V = StateView;

    open spec fn view(&self) -> StateView {
        match self {
            PresenterState::Empty => StateView::Empty,
            PresenterState::Presenting(presentation) => StateView::Presenting(presentation@),
            PresenterState::Failure { error, presentation } => StateView::Failure {
                error: error@,
                presentation: presentation@,
            },
        }
    }
}

/// The index of the slide that `number` names, the first slide being number 1
/// and number 0 standing for the first slide too.
pub open spec fn slide_index(number: u32) -> usize {
    if number > 0 {
        (number - 1) as usize
    } else {
        0
    }
}

/// The presentation after a command of the user.
pub open spec fn navigated(presentation: PresentationView, command: UserCommand) -> PresentationView {
    match command {
        UserCommand::JumpNextSlide => if presentation.current_slide_index
            < presentation.last_index() {
            presentation.at((presentation.current_slide_index + 1) as usize)
        } else {
            presentation
        },
        UserCommand::JumpPreviousSlide => if presentation.current_slide_index > 0 {
            presentation.at((presentation.current_slide_index - 1) as usize)
        } else {
            presentation
        },
        UserCommand::JumpFirstSlide => presentation.at(0),
        UserCommand::JumpLastSlide => presentation.at(presentation.last_index()),
        UserCommand::JumpSlide(number) => if slide_index(number) < presentation.slides.len() {
            presentation.at(slide_index(number))
        } else {
            presentation
        },
        UserCommand::Redraw => presentation,
        UserCommand::Exit => presentation,
    }
}

impl StateView {
    /// The presentation that is kept: the one that is shown, or the one behind
    /// the error.
    pub open spec fn presentation(self) -> PresentationView
        recommends
            !(self is Empty),
    {
        match self {
            StateView::Presenting(presentation) => presentation,
            StateView::Failure { presentation, .. } => presentation,
            StateView::Empty => arbitrary(),
        }
    }

    /// This state with another presentation in place of the one it keeps.
    pub open spec fn with_presentation(self, presentation: PresentationView) -> StateView {
        match self {
            StateView::Presenting(_) => StateView::Presenting(presentation),
            StateView::Failure { error, .. } => StateView::Failure { error, presentation },
            StateView::Empty => StateView::Empty,
        }
    }

    /// The state after a command of the user: the cursor of the presentation
    /// that is kept moves, also behind an error.
    pub open spec fn applied(self, command: UserCommand) -> StateView {
        match self {
            StateView::Empty => StateView::Empty,
            _ => self.with_presentation(navigated(self.presentation(), command)),
        }
    }

    /// What a command of the user leads to: the end of the session, a new
    /// drawing if the cursor moved or the user asked for one, or nothing.
    pub open spec fn side_effect(self, command: UserCommand) -> CommandSideEffect {
        if command == UserCommand::Exit {
            CommandSideEffect::Exit
        } else if self is Empty {
            CommandSideEffect::Nothing
        } else if command == UserCommand::Redraw || navigated(
            self.presentation(),
            command,
        ).current_slide_index != self.presentation().current_slide_index {
            CommandSideEffect::Redraw
        } else {
            CommandSideEffect::Nothing
        }
    }

    /// The state after the document was built anew. The new presentation is
    /// shown at the first slide that differs from before, or else at the slide
    /// that was shown.
    pub open spec fn reloaded(self, new: PresentationView, first_modified: Option<usize>) -> StateView {
        let target = match first_modified {
            Some(index) => index,
            None => self.presentation().current_slide_index,
        };
        StateView::Presenting(
            if target < new.slides.len() {
                new.at(target)
            } else {
                new
            },
        )
    }

    /// The state after the document could not be built anew: the error is
    /// shown, and the presentation is kept behind it.
    pub open spec fn failed(self, error: Seq<char>) -> StateView {
        StateView::Failure { error, presentation: self.presentation() }
    }
}

impl PresenterState {
    /// The presentation that is kept.
    pub fn presentation(&self) -> (presentation: &Presentation)
        requires
            !(self@ is Empty),
        ensures
            presentation@ == self@.presentation(),
    {
        match self {
            PresenterState::Presenting(presentation) => presentation,
            PresenterState::Failure { presentation, .. } => presentation,
            PresenterState::Empty => vstd::pervasive::unreached(),
        }
    }

    /// The presentation that is kept.
    pub fn into_presentation(self) -> (presentation: Presentation)
        requires
            !(self@ is Empty),
        ensures
            presentation@ == self@.presentation(),
    {
        match self {
            PresenterState::Presenting(presentation) => presentation,
            PresenterState::Failure { presentation, .. } => presentation,
            PresenterState::Empty => vstd::pervasive::unreached(),
        }
    }
}

/// What has to be done after a command.
#[derive(Debug)]
pub enum Action {
    /// Nothing: the next command is waited for.
    Wait,
    /// The screen is drawn again.
    Redraw,
    /// The document is built anew, and the presenter is told how it went.
    Reload,
    /// The session ends.
    Exit,
    /// The session ends with an error.
    Abort(PresentationError),
}

/// What is drawn.
pub enum RenderTarget<'a> {
    /// The slide at the cursor of this presentation.
    Slide(&'a Presentation),
    /// This error.
    Error(&'a String),
}

/// A slideshow presenter.
pub struct Presenter {
    mode: PresentMode,
    state: PresenterState,
}

/// A presenter as contracts see it.
#[verifier::ext_equal]
pub struct PresenterView {
    pub mode: PresentMode,
    pub state: StateView,
}

impl View for Presenter {
    type V = PresenterView;

    closed spec fn view(&self) -> PresenterView {
        PresenterView { mode: self.mode, state: self.state@ }
    }
}

/// Moves the cursor of `presentation` as `command` says.
fn navigate(presentation: &mut Presentation, command: UserCommand) -> (needs_redraw: bool)
    ensures
        final(presentation)@ == navigated(old(presentation)@, command),
        needs_redraw == (command == UserCommand::Redraw || final(presentation)@.current_slide_index
            != old(presentation)@.current_slide_index),
{
    match command {
        UserCommand::Redraw => true,
        UserCommand::JumpNextSlide => presentation.jump_next_slide(),
        UserCommand::JumpPreviousSlide => presentation.jump_previous_slide(),
        UserCommand::JumpFirstSlide => presentation.jump_first_slide(),
        UserCommand::JumpLastSlide => presentation.jump_last_slide(),
        UserCommand::JumpSlide(number) => {
            let index = if number > 0 {
                number - 1
            } else {
                0
            };
            presentation.jump_slide(index as usize)
        },
        UserCommand::Exit => false,
    }
}

impl Presenter {
    /// A presenter that shows nothing yet.
    pub fn new(mode: PresentMode) -> (presenter: Presenter)
        ensures
            presenter@ == (PresenterView { mode, state: StateView::Empty }),
    {
        Presenter { mode, state: PresenterState::Empty }
    }

    /// Shows `presentation`, which was loaded for the first time.
    pub fn start(&mut self, presentation: Presentation)
        ensures
            final(self)@ == (PresenterView {
                state: StateView::Presenting(presentation@),
                ..old(self)@
            }),
    {
        self.state = PresenterState::Presenting(presentation);
    }

    /// The presentation that is kept.
    pub fn presentation(&self) -> (presentation: &Presentation)
        requires
            !(self@.state is Empty),
        ensures
            presentation@ == self@.state.presentation(),
    {
        self.state.presentation()
    }

    /// What is drawn: the slide at the cursor, or the error.
    pub fn render_target(&self) -> (target: RenderTarget<'_>)
        requires
            !(self@.state is Empty),
        ensures
            match target {
                RenderTarget::Slide(presentation) => self@.state == StateView::Presenting(
                    presentation@,
                ),
                RenderTarget::Error(error) => self@.state is Failure && self@.state->error
                    == error@,
            },
    {
        match &self.state {
            PresenterState::Presenting(presentation) => RenderTarget::Slide(presentation),
            PresenterState::Failure { error, .. } => RenderTarget::Error(error),
            PresenterState::Empty => vstd::pervasive::unreached(),
        }
    }

    /// What a drawing comes to: a terminal that is too small is no error, since
    /// the user will resize it; anything else stands.
    pub fn render(result: Result<(), RenderError>) -> (outcome: Result<(), RenderError>)
        ensures
            outcome == match result {
                Err(RenderError::TerminalTooSmall) => Ok::<(), RenderError>(()),
                other => other,
            },
    {
        match result {
            Err(RenderError::TerminalTooSmall) => Ok(()),
            other => other,
        }
    }

    /// Takes a command of the user.
    pub fn apply_user_command(&mut self, command: UserCommand) -> (effect: CommandSideEffect)
        ensures
            effect == old(self)@.state.side_effect(command),
            final(self)@ == (PresenterView {
                state: if command == UserCommand::Exit {
                    old(self)@.state
                } else {
                    old(self)@.state.applied(command)
                },
                ..old(self)@
            }),
    {
        // The session can always be ended.
        if let UserCommand::Exit = command {
            return CommandSideEffect::Exit;
        }
        let needs_redraw = match &mut self.state {
            PresenterState::Presenting(presentation) => navigate(presentation, command),
            PresenterState::Failure { presentation, .. } => navigate(presentation, command),
            PresenterState::Empty => false,
        };
        if needs_redraw {
            CommandSideEffect::Redraw
        } else {
            CommandSideEffect::Nothing
        }
    }

    /// Whether the presentation is built anew when its document changes.
    pub fn reloads(&self) -> (reloads: bool)
        ensures
            reloads == (self@.mode == PresentMode::Development),
    {
        match self.mode {
            PresentMode::Development => true,
            PresentMode::Presentation => false,
        }
    }

    /// Takes the outcome of building the document anew. While the presentation
    /// is being given, nothing changes. Otherwise a new presentation is shown
    /// at `first_modified`, the first slide that differs from before, or else
    /// at the slide that was shown; and where the build failed, the error is
    /// shown and the presentation is kept behind it.
    pub fn try_reload(&mut self, outcome: Result<Presentation, String>, first_modified: Option<usize>)
        requires
            !(old(self)@.state is Empty),
        ensures
            old(self)@.mode == PresentMode::Presentation ==> final(self)@ == old(self)@,
            old(self)@.mode == PresentMode::Development ==> final(self)@ == (PresenterView {
                state: match outcome {
                    Ok(presentation) => old(self)@.state.reloaded(presentation@, first_modified),
                    Err(error) => old(self)@.state.failed(error@),
                },
                ..old(self)@
            }),
    {
        if !self.reloads() {
            return ;
        }
        match outcome {
            Ok(new) => {
                let mut presentation = new;
                let target_slide = match first_modified {
                    Some(index) => index,
                    None => self.state.presentation().current_slide_index(),
                };
                presentation.jump_slide(target_slide);
                self.state = PresenterState::Presenting(presentation);
            },
            Err(error) => {
                let mut state = PresenterState::Empty;
                core::mem::swap(&mut self.state, &mut state);
                let presentation = state.into_presentation();
                self.state = PresenterState::Failure { error, presentation };
            },
        }
    }

    /// Takes one command and says what has to be done. A change of the
    /// document is ignored while the presentation is being given.
    pub fn handle(&mut self, command: Command) -> (action: Action)
        ensures
            match command {
                Command::User(command) => {
                    &&& final(self)@ == (PresenterView {
                        state: if command == UserCommand::Exit {
                            old(self)@.state
                        } else {
                            old(self)@.state.applied(command)
                        },
                        ..old(self)@
                    })
                    &&& match old(self)@.state.side_effect(command) {
                        CommandSideEffect::Exit => action is Exit,
                        CommandSideEffect::Redraw => action is Redraw,
                        CommandSideEffect::Nothing => action is Wait,
                    }
                },
                Command::ReloadPresentation => {
                    &&& final(self)@ == old(self)@
                    &&& if old(self)@.mode == PresentMode::Development {
                        action is Reload
                    } else {
                        action is Wait
                    }
                },
                Command::Abort { error } => {
                    &&& final(self)@ == old(self)@
                    &&& action matches Action::Abort(PresentationError::Fatal(reason))
                    &&& reason == error
                },
            },
    {
        match command {
            Command::User(command) => match self.apply_user_command(command) {
                CommandSideEffect::Exit => Action::Exit,
                CommandSideEffect::Redraw => Action::Redraw,
                CommandSideEffect::Nothing => Action::Wait,
            },
            Command::ReloadPresentation => {
                if self.reloads() {
                    Action::Reload
                } else {
                    Action::Wait
                }
            },
            Command::Abort { error } => Action::Abort(PresentationError::Fatal(error)),
        }
    }
}

/// Once a presentation was loaded, the presenter always keeps one: no command
/// of the user and no outcome of a build empties it.
pub proof fn lemma_never_empty_again(
    state: StateView,
    command: UserCommand,
    new: PresentationView,
    first_modified: Option<usize>,
    error: Seq<char>,
)
    requires
        !(state is Empty),
    ensures
        !(state.applied(command) is Empty),
        !(state.reloaded(new, first_modified) is Empty),
        !(state.failed(error) is Empty),
{
}

/// While an error is shown, the presentation that was shown before is kept:
/// the error is the one of the failed build, every command of the user moves
/// the cursor over the slides that were there before as it did without the
/// error, and the error stays until a build succeeds, which shows the new
/// presentation and no error.
pub proof fn lemma_failure_keeps_presentation(
    state: StateView,
    error: Seq<char>,
    command: UserCommand,
    new: PresentationView,
    first_modified: Option<usize>,
)
    requires
        !(state is Empty),
    ensures
        state.failed(error) == (StateView::Failure { error, presentation: state.presentation() }),
        state.failed(error).applied(command) == (StateView::Failure {
            error,
            presentation: navigated(state.presentation(), command),
        }),
        state.failed(error).applied(command).presentation().slides == state.presentation().slides,
        state.failed(error).side_effect(command) == StateView::Presenting(
            state.presentation(),
        ).side_effect(command),
        state.failed(error).reloaded(new, first_modified) is Presenting,
        state.failed(error).reloaded(new, first_modified).presentation().slides == new.slides,
{
}

} // verus!
