use dcr::path::{shorten_components, shorten_path};
use dcr::screen::{AlternateScreen, ResizeScreen, SplitScreen};

#[test]
fn panes_cycle() {
    let mut p = SplitScreen::UpperLeft;
    let order = [SplitScreen::LowerLeft, SplitScreen::UpperRight, SplitScreen::LowerRight, SplitScreen::UpperLeft];
    for want in order {
        p = p.transition();
        assert_eq!(p, want);
    }
    assert_eq!(SplitScreen::UpperLeft.transition_back(), SplitScreen::LowerRight);
    assert_eq!(SplitScreen::UpperRight.transition_back(), SplitScreen::LowerLeft);
}

#[test]
fn resize_screen_minimum() {
    let r = ResizeScreen::new();
    assert_eq!(r.min_width, 130);
    assert_eq!(r.min_height, 20);
    assert!(r.too_small(129, 40));
    assert!(r.too_small(200, 19));
    assert!(!r.too_small(130, 20));
}

#[test]
fn pane_scrolls_saturate() {
    let mut a = AlternateScreen::new();
    a.scroll(SplitScreen::LowerRight, 3, true);
    assert_eq!(a.lower_right_scroll, 0);
    a.scroll(SplitScreen::LowerRight, usize::MAX, false);
    a.scroll(SplitScreen::LowerRight, 5, false);
    assert_eq!(a.lower_right_scroll, usize::MAX);
    assert_eq!(a.upper_left_scroll, 0);
    a.reset_scrolls();
    assert_eq!(a.lower_right_scroll, 0);
}

#[test]
fn long_paths_shortened() {
    assert_eq!(
        shorten_path("/home/user/projects/app/docker-compose.yml", 10),
        "/h./u./p./app/docker-compose.yml"
    );
    assert_eq!(shorten_path("/home/ab/projects/app/c.yml", 5), "/h./ab/p./app/c.yml");
}

#[test]
fn short_paths_kept() {
    assert_eq!(shorten_path("/home/user/projects/app/docker-compose.yml", 100), "/home/user/projects/app/docker-compose.yml");
    assert_eq!(shorten_path("verylongdirectory/file.yml", 3), "verylongdirectory/file.yml");
}

#[test]
fn components_rebuilt_shortened() {
    let comps: Vec<String> = ["/", "home", "ab", "projects", "app", "c.yml"].iter().map(|c| c.to_string()).collect();
    assert_eq!(shorten_components(&comps), "/h./ab/p./app/c.yml");
    let rel: Vec<String> = ["srv", "compose", "x.yml"].iter().map(|c| c.to_string()).collect();
    assert_eq!(shorten_components(&rel), "s./compose/x.yml");
}
