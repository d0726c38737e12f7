use fictional_waffle::app::{App, AppState};
use fictional_waffle::layout::{Rect, Regions};

fn screen(width: u16, height: u16) -> Rect {
    Rect { x: 0, y: 0, width, height }
}

fn app_in(state: AppState) -> App {
    App { state, page_index: 0 }
}

#[test]
fn six_regions_outside_split() {
    for state in [AppState::Stopped, AppState::Running] {
        let r = app_in(state).layout(screen(80, 24));
        assert_eq!(r.len(), 6);
        assert_eq!(r[0], Rect { x: 0, y: 0, width: 20, height: 2 });
        assert_eq!(r[1], Rect { x: 20, y: 0, width: 60, height: 2 });
        assert_eq!(r[2], Rect { x: 0, y: 2, width: 80, height: 8 });
        assert_eq!(r[3], Rect { x: 0, y: 10, width: 80, height: 1 });
        assert_eq!(r[4], Rect { x: 0, y: 11, width: 80, height: 12 });
        assert_eq!(r[5], Rect { x: 0, y: 23, width: 80, height: 1 });
    }
}

#[test]
fn seven_regions_in_split_with_equal_halves() {
    let r = app_in(AppState::Split).layout(screen(80, 24));
    assert_eq!(r.len(), 7);
    assert_eq!(r[3], Rect { x: 0, y: 11, width: 40, height: 12 });
    assert_eq!(r[4], Rect { x: 40, y: 11, width: 40, height: 12 });
    assert_eq!(r[5], Rect { x: 0, y: 11, width: 80, height: 12 });
    assert_eq!(r[6], Rect { x: 0, y: 23, width: 80, height: 1 });
    let odd = app_in(AppState::Split).layout(screen(81, 30));
    let (a, b) = (odd[3].width as i32, odd[4].width as i32);
    assert!((a - b).abs() <= 1);
    assert_eq!(a + b, 81);
}

#[test]
fn layout_of_an_empty_screen() {
    let r = app_in(AppState::Stopped).layout(screen(0, 0));
    assert_eq!(r.len(), 6);
    for part in r {
        assert_eq!(part.width, 0);
    }
}

#[test]
fn split_keeps_the_stopped_regions_and_cuts_the_body() {
    let area = Rect { x: 3, y: 2, width: 51, height: 20 };
    let base = app_in(AppState::Stopped).layout(area);
    let split = app_in(AppState::Split).layout(area);
    assert_eq!(&split[0..3], &base[0..3]);
    assert_eq!(split[5], base[4]);
    assert_eq!(split[6], base[5]);
    let (a, b, body) = (split[3], split[4], base[4]);
    assert_eq!((a.y, b.y, a.height, b.height), (body.y, body.y, body.height, body.height));
    assert_eq!(a.x, body.x);
    assert_eq!(b.x, a.x + a.width);
    assert_eq!(a.width + b.width, body.width);
    assert!((a.width as i32 - b.width as i32).abs() <= 1);
    assert_eq!(base[0], Rect { x: 3, y: 2, width: 20, height: 2 });
    assert_eq!(base[5], Rect { x: 3, y: 21, width: 51, height: 1 });
}

#[test]
fn regions_for_each_mode() {
    let stopped = app_in(AppState::Stopped).regions();
    assert_eq!(stopped, Regions { title: 0, status: 1, banner: 2, splits: None, page: 4, help: 5 });
    let split = app_in(AppState::Split).regions();
    assert_eq!(split, Regions { title: 0, status: 1, banner: 2, splits: Some(3), page: 4, help: 6 });
}
