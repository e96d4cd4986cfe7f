use slideshow::error::BuildError;
use slideshow::presentation::Presentation;
use slideshow::presentation::RenderOperation;
use slideshow::presentation::Slide;
use slideshow::presenter::Action;
use slideshow::presenter::Command;
use slideshow::presenter::CommandSideEffect;
use slideshow::presenter::LoadPresentationError;
use slideshow::presenter::PresentMode;
use slideshow::presenter::PresentationError;
use slideshow::presenter::Presenter;
use slideshow::presenter::RenderError;
use slideshow::presenter::RenderTarget;
use slideshow::presenter::UserCommand;

fn presentation(slides: usize) -> Presentation {
    let slides = (0..slides).map(|_| Slide { render_operations: vec![RenderOperation::ClearScreen] }).collect();
    Presentation::new(slides, "bob".to_string())
}

fn presenter(mode: PresentMode, slides: usize) -> Presenter {
    let mut presenter = Presenter::new(mode);
    presenter.start(presentation(slides));
    presenter
}

fn index(presenter: &Presenter) -> usize {
    presenter.presentation().current_slide_index()
}

#[test]
fn cursor_stays_on_the_slides() {
    let mut presentation = presentation(3);
    assert_eq!(presentation.current_slide_index(), 0);
    assert_eq!(presentation.total_slides(), 3);
    assert!(!presentation.jump_previous_slide());
    assert!(!presentation.jump_first_slide());
    assert!(presentation.jump_next_slide());
    assert!(presentation.jump_next_slide());
    assert_eq!(presentation.current_slide_index(), 2);
    assert!(!presentation.jump_next_slide());
    assert!(!presentation.jump_last_slide());
    assert!(presentation.jump_previous_slide());
    assert_eq!(presentation.current_slide_index(), 1);
    assert!(!presentation.jump_slide(3));
    assert!(!presentation.jump_slide(1));
    assert_eq!(presentation.current_slide_index(), 1);
    assert!(presentation.jump_slide(0));
    assert!(presentation.jump_last_slide());
    assert_eq!(presentation.current_slide_index(), 2);
    assert!(presentation.jump_first_slide());
    assert_eq!(presentation.current_slide_index(), 0);
    assert_eq!(presentation.footer_context().total_slides, 3);
    assert_eq!(presentation.footer_context().author, "bob");
}

#[test]
fn user_commands() {
    let mut presenter = presenter(PresentMode::Development, 3);
    assert_eq!(presenter.apply_user_command(UserCommand::JumpNextSlide), CommandSideEffect::Redraw);
    assert_eq!(index(&presenter), 1);
    assert_eq!(presenter.apply_user_command(UserCommand::JumpSlide(2)), CommandSideEffect::Nothing);
    assert_eq!(presenter.apply_user_command(UserCommand::JumpSlide(3)), CommandSideEffect::Redraw);
    assert_eq!(index(&presenter), 2);
    assert_eq!(presenter.apply_user_command(UserCommand::JumpSlide(4)), CommandSideEffect::Nothing);
    assert_eq!(presenter.apply_user_command(UserCommand::JumpNextSlide), CommandSideEffect::Nothing);
    assert_eq!(presenter.apply_user_command(UserCommand::JumpSlide(0)), CommandSideEffect::Redraw);
    assert_eq!(index(&presenter), 0);
    assert_eq!(presenter.apply_user_command(UserCommand::Redraw), CommandSideEffect::Redraw);
    assert_eq!(presenter.apply_user_command(UserCommand::JumpLastSlide), CommandSideEffect::Redraw);
    assert_eq!(presenter.apply_user_command(UserCommand::JumpPreviousSlide), CommandSideEffect::Redraw);
    assert_eq!(presenter.apply_user_command(UserCommand::JumpFirstSlide), CommandSideEffect::Redraw);
    assert_eq!(presenter.apply_user_command(UserCommand::Exit), CommandSideEffect::Exit);
    assert_eq!(index(&presenter), 0);

    let mut empty = Presenter::new(PresentMode::Development);
    assert_eq!(empty.apply_user_command(UserCommand::JumpNextSlide), CommandSideEffect::Nothing);
    assert_eq!(empty.apply_user_command(UserCommand::Redraw), CommandSideEffect::Nothing);
    assert_eq!(empty.apply_user_command(UserCommand::Exit), CommandSideEffect::Exit);
}

#[test]
fn commands_say_what_to_do() {
    let mut presenter = presenter(PresentMode::Development, 2);
    assert!(matches!(presenter.handle(Command::User(UserCommand::JumpNextSlide)), Action::Redraw));
    assert!(matches!(presenter.handle(Command::User(UserCommand::JumpNextSlide)), Action::Wait));
    assert!(matches!(presenter.handle(Command::ReloadPresentation), Action::Reload));
    assert!(matches!(presenter.handle(Command::User(UserCommand::Exit)), Action::Exit));
    match presenter.handle(Command::Abort { error: "lost".to_string() }) {
        Action::Abort(error) => {
            assert_eq!(error, PresentationError::Fatal("lost".to_string()));
            assert_eq!(error.message(), "fatal error: lost");
        }
        other => panic!("no abort but {other:?}"),
    }
    // While the presentation is given, a change of the document is ignored.
    let mut live = self::presenter(PresentMode::Presentation, 2);
    assert!(!live.reloads());
    assert!(matches!(live.handle(Command::ReloadPresentation), Action::Wait));
}

#[test]
fn reload_moves_to_the_first_change() {
    let mut presenter = presenter(PresentMode::Development, 4);
    presenter.apply_user_command(UserCommand::JumpSlide(3));
    presenter.try_reload(Ok(presentation(5)), Some(4));
    assert_eq!(index(&presenter), 4);
    // Without a change the slide that was shown is shown again.
    presenter.try_reload(Ok(presentation(6)), None);
    assert_eq!(index(&presenter), 4);
    assert_eq!(presenter.presentation().total_slides(), 6);
    // A slide that is not there is not moved to.
    presenter.try_reload(Ok(presentation(2)), None);
    assert_eq!(index(&presenter), 0);
}

#[test]
fn failed_reload_keeps_the_presentation() {
    let mut presenter = presenter(PresentMode::Development, 3);
    presenter.apply_user_command(UserCommand::JumpNextSlide);
    presenter.try_reload(Err("it broke".to_string()), None);
    match presenter.render_target() {
        RenderTarget::Error(error) => assert_eq!(error, "it broke"),
        RenderTarget::Slide(_) => panic!("no error shown"),
    }
    // The slides that were there can still be paged through.
    assert_eq!(presenter.presentation().total_slides(), 3);
    assert_eq!(index(&presenter), 1);
    assert_eq!(presenter.apply_user_command(UserCommand::JumpNextSlide), CommandSideEffect::Redraw);
    assert_eq!(index(&presenter), 2);
    assert_eq!(presenter.apply_user_command(UserCommand::JumpNextSlide), CommandSideEffect::Nothing);
    assert_eq!(presenter.apply_user_command(UserCommand::Redraw), CommandSideEffect::Redraw);
    // A second failure keeps them too.
    presenter.try_reload(Err("still broken".to_string()), Some(0));
    assert!(matches!(presenter.render_target(), RenderTarget::Error(error) if error == "still broken"));
    assert_eq!(index(&presenter), 2);
    // A build that succeeds shows the new slides and no error.
    presenter.try_reload(Ok(presentation(5)), None);
    match presenter.render_target() {
        RenderTarget::Slide(shown) => {
            assert_eq!(shown.total_slides(), 5);
            assert_eq!(shown.current_slide_index(), 2);
        }
        RenderTarget::Error(_) => panic!("the error is still shown"),
    }
}

#[test]
fn no_reload_while_the_presentation_is_given() {
    let mut presenter = presenter(PresentMode::Presentation, 3);
    presenter.apply_user_command(UserCommand::JumpNextSlide);
    presenter.try_reload(Err("it broke".to_string()), None);
    assert!(matches!(presenter.render_target(), RenderTarget::Slide(_)));
    presenter.try_reload(Ok(presentation(5)), Some(4));
    assert_eq!(presenter.presentation().total_slides(), 3);
    assert_eq!(index(&presenter), 1);
}

#[test]
fn a_small_terminal_is_no_error() {
    assert_eq!(Presenter::render(Ok(())), Ok(()));
    assert_eq!(Presenter::render(Err(RenderError::TerminalTooSmall)), Ok(()));
    let error = RenderError::Other("no terminal".to_string());
    assert_eq!(Presenter::render(Err(error.clone())), Err(error));
}

#[test]
fn presentation_error_messages() {
    assert_eq!(PresentationError::Io("closed".to_string()).message(), "io: closed");
    assert_eq!(
        PresentationError::Render(RenderError::Other("no terminal".to_string())).message(),
        "no terminal"
    );
    let reading = LoadPresentationError::Reading("no file".to_string());
    assert_eq!(reading.message(), "reading presentation: no file");
    assert_eq!(PresentationError::LoadPresentationError(reading).message(), "reading presentation: no file");
    assert_eq!(LoadPresentationError::Parse("bad markdown".to_string()).message(), "bad markdown");
    assert_eq!(
        LoadPresentationError::Processing(BuildError::NoLayout).message(),
        "can't enter layout: no layout defined"
    );
}
