use lazy_foo::loading_other_image::{on_event, stretch_area, Failure, IMAGE};
use lazy_foo::event::{InputEvent, Step};
use lazy_foo::shape::Rect;

fn lines(expected: &[&str]) -> Vec<String> {
    expected.iter().map(|line| line.to_string()).collect()
}

#[test]
fn loading_other_image_stretches_over_the_window() {
    assert_eq!(
        stretch_area(),
        Rect { x: 0, y: 0, width: 640, height: 480 }
    );
}

#[test]
fn loading_other_image_draws_after_every_event_but_quit() {
    assert_eq!(on_event(None), Step::Wait);
    assert_eq!(
        on_event(Some(InputEvent::ControllerButtonDown { button: 1 })),
        Step::Redraw
    );
    assert_eq!(on_event(Some(InputEvent::Quit)), Step::Quit);
}

#[test]
fn loading_other_image_reports_failures() {
    assert_eq!(IMAGE, "imgs/loading_other_image/loaded.png");
    assert_eq!(
        Failure::Sdl { error: "e1".to_string() }.report(),
        lines(&["SDL could not initialize! SDL_Error: e1", "Failed to initialize!"])
    );
    assert_eq!(
        Failure::Window { error: "e2".to_string() }.report(),
        lines(&["Window could not be created! SDL_Error: %e2", "Failed to initialize!"])
    );
    assert_eq!(
        Failure::ImageSupport { error: "e3".to_string() }.report(),
        lines(&["SDL_image could not initialize! SDL_image Error: e3", "Failed to initialize!"])
    );
    assert_eq!(
        Failure::Load { error: "e4".to_string() }.report(),
        lines(&[
            "Unable to load image imgs/loading_other_image/loaded.png! SDL Error: e4",
            "Failed to load PNG image!",
            "Failed to load media!",
        ])
    );
    assert_eq!(
        Failure::Optimize { error: "e5".to_string() }.report(),
        lines(&[
            "Unable to optimize image imgs/loading_other_image/loaded.png! SDL Error: e5",
            "Failed to load PNG image!",
            "Failed to load media!",
        ])
    );
}

#[test]
fn loading_other_image_reports_video_failure() {
    assert_eq!(
        Failure::Video { error: "no driver".to_string() }.report(),
        vec![
            "Window could not be created! SDL_Error: %no driver".to_string(),
            "Failed to initialize!".to_string(),
        ]
    );
}

#[test]
fn loading_other_image_reports_event_pump_failure() {
    assert_eq!(
        Failure::EventPump { error: "in use".to_string() }.report(),
        vec!["Event pump could not be created! SDL_Error: %in use".to_string()]
    );
}

#[test]
fn loading_other_image_reports_what_it_could_not_draw() {
    assert_eq!(
        Failure::Surface { error: "s".to_string() }.report(),
        vec!["Window surface could not be obtained! SDL_Error: s".to_string()]
    );
    assert_eq!(
        Failure::Blit { error: "b".to_string() }.report(),
        vec!["Unable to blit image! SDL Error: b".to_string()]
    );
    assert_eq!(
        Failure::Update { error: "u".to_string() }.report(),
        vec!["Unable to update window! SDL Error: u".to_string()]
    );
}
