use lazy_foo::event::{InputEvent, Step};
use lazy_foo::key_presses::{
    media, on_event, Failure, DEFAULT_KEY, KEY_DOWN, KEY_LEFT, KEY_RIGHT, KEY_UP,
};
use lazy_foo::media::Asset;

fn key(code: i32) -> Option<InputEvent> {
    Some(InputEvent::KeyDown { keycode: Some(code) })
}

#[test]
fn key_presses_key_codes() {
    assert_eq!(DEFAULT_KEY, 0);
    assert_eq!(KEY_RIGHT, 0x4000_004F);
    assert_eq!(KEY_LEFT, 0x4000_0050);
    assert_eq!(KEY_DOWN, 0x4000_0051);
    assert_eq!(KEY_UP, 0x4000_0052);
}

#[test]
fn key_presses_media_in_loading_order() {
    assert_eq!(
        media(),
        vec![
            Asset { key: 0, path: "imgs/key_presses/press.bmp", label: "default" },
            Asset { key: 1073741906, path: "imgs/key_presses/up.bmp", label: "up" },
            Asset { key: 1073741905, path: "imgs/key_presses/down.bmp", label: "down" },
            Asset { key: 1073741904, path: "imgs/key_presses/left.bmp", label: "left" },
            Asset { key: 1073741903, path: "imgs/key_presses/right.bmp", label: "right" },
        ]
    );
}

#[test]
fn key_presses_media_keys_are_distinct() {
    let table = media();
    for i in 0..table.len() {
        for j in (i + 1)..table.len() {
            assert_ne!(table[i].key, table[j].key);
        }
    }
}

#[test]
fn key_presses_arrow_selects_its_image() {
    for code in [KEY_UP, KEY_DOWN, KEY_LEFT, KEY_RIGHT] {
        assert_eq!(on_event(DEFAULT_KEY, key(code)), (code, Step::Redraw));
        assert_eq!(on_event(KEY_UP, key(code)), (code, Step::Redraw));
    }
}

#[test]
fn key_presses_other_key_selects_the_default_image() {
    assert_eq!(on_event(KEY_LEFT, key(97)), (DEFAULT_KEY, Step::Redraw));
    assert_eq!(on_event(KEY_LEFT, key(0)), (DEFAULT_KEY, Step::Redraw));
    assert_eq!(on_event(KEY_LEFT, key(KEY_UP + 1)), (DEFAULT_KEY, Step::Redraw));
    assert_eq!(on_event(KEY_LEFT, key(KEY_RIGHT - 1)), (DEFAULT_KEY, Step::Redraw));
    assert_eq!(on_event(DEFAULT_KEY, key(i32::MIN)), (DEFAULT_KEY, Step::Redraw));
}

#[test]
fn key_presses_other_event_redraws_the_same_image() {
    assert_eq!(on_event(KEY_DOWN, Some(InputEvent::Other)), (KEY_DOWN, Step::Redraw));
    assert_eq!(
        on_event(KEY_DOWN, Some(InputEvent::ControllerButtonDown { button: 0 })),
        (KEY_DOWN, Step::Redraw)
    );
}

#[test]
fn key_presses_empty_queue_waits() {
    assert_eq!(on_event(KEY_DOWN, None), (KEY_DOWN, Step::Wait));
}

#[test]
fn key_presses_quit_ends_the_loop() {
    assert_eq!(on_event(KEY_DOWN, Some(InputEvent::Quit)), (KEY_DOWN, Step::Quit));
    assert_eq!(on_event(DEFAULT_KEY, Some(InputEvent::Quit)), (DEFAULT_KEY, Step::Quit));
}

#[test]
fn key_presses_every_shown_key_has_an_image() {
    let table = media();
    let polls = [
        None,
        Some(InputEvent::Quit),
        Some(InputEvent::Other),
        key(KEY_UP),
        key(KEY_DOWN),
        key(KEY_LEFT),
        key(KEY_RIGHT),
        key(13),
        Some(InputEvent::KeyDown { keycode: None }),
        Some(InputEvent::ControllerButtonDown { button: 2 }),
    ];
    for asset in table.iter() {
        for polled in polls {
            let (next, _) = on_event(asset.key, polled);
            assert!(table.iter().any(|entry| entry.key == next));
        }
    }
}

#[test]
fn key_presses_reports_sdl_failure() {
    let failure = Failure::Sdl { error: "No available video device".to_string() };
    assert_eq!(
        failure.report(),
        vec![
            "SDL could not initialize! SDL_Error: No available video device".to_string(),
            "Failed to initialize!".to_string(),
        ]
    );
}

#[test]
fn key_presses_reports_window_failure() {
    let failure = Failure::Window { error: "Invalid window".to_string() };
    assert_eq!(
        failure.report(),
        vec![
            "Window could not be created! SDL_Error: %Invalid window".to_string(),
            "Failed to initialize!".to_string(),
        ]
    );
}

#[test]
fn key_presses_reports_each_image_that_fails_to_load() {
    let labels = ["default", "up", "down", "left", "right"];
    let table = media();
    assert_eq!(table.len(), labels.len());
    for (asset, label) in table.into_iter().zip(labels) {
        let failure = Failure::Load { asset, error: "Couldn't open file".to_string() };
        assert_eq!(
            failure.report(),
            vec![
                format!("Unable to load image {}! SDL Error: Couldn't open file", asset.path),
                format!("Failed to load {} image!", label),
                "Failed to load media!".to_string(),
            ]
        );
    }
}

#[test]
fn key_presses_reports_load_failure_of_the_up_image() {
    let asset = Asset { key: KEY_UP, path: "imgs/key_presses/up.bmp", label: "up" };
    let failure = Failure::Load { asset, error: "Couldn't open imgs/key_presses/up.bmp".to_string() };
    assert_eq!(
        failure.report(),
        vec![
            "Unable to load image imgs/key_presses/up.bmp! SDL Error: Couldn't open imgs/key_presses/up.bmp"
                .to_string(),
            "Failed to load up image!".to_string(),
            "Failed to load media!".to_string(),
        ]
    );
}

#[test]
fn key_presses_reports_video_failure() {
    assert_eq!(
        Failure::Video { error: "no driver".to_string() }.report(),
        vec![
            "Window could not be created! SDL_Error: %no driver".to_string(),
            "Failed to initialize!".to_string(),
        ]
    );
}

#[test]
fn key_presses_reports_event_pump_failure() {
    assert_eq!(
        Failure::EventPump { error: "in use".to_string() }.report(),
        vec!["Event pump could not be created! SDL_Error: %in use".to_string()]
    );
}

#[test]
fn key_presses_reports_what_it_could_not_draw() {
    assert_eq!(
        Failure::Surface { error: "s".to_string() }.report(),
        vec!["Window surface could not be obtained! SDL_Error: s".to_string()]
    );
    assert_eq!(
        Failure::Blit { error: "b".to_string() }.report(),
        vec!["Unable to blit image! SDL Error: b".to_string()]
    );
    assert_eq!(
        Failure::Update { error: "u".to_string() }.report(),
        vec!["Unable to update window! SDL Error: u".to_string()]
    );
}

#[test]
fn key_presses_key_without_code_selects_the_default_image() {
    let polled = Some(InputEvent::KeyDown { keycode: None });
    assert_eq!(on_event(KEY_UP, polled), (DEFAULT_KEY, Step::Redraw));
    assert_eq!(on_event(KEY_RIGHT, polled), (DEFAULT_KEY, Step::Redraw));
    assert_eq!(on_event(DEFAULT_KEY, polled), (DEFAULT_KEY, Step::Redraw));
}
