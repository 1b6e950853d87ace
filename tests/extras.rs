use minigrep::arith::{sum_of_squares, GridPoint, Meters, Millimeters};
use minigrep::outline::outline;
use minigrep::pig_latin::{pig_latin, space};
use minigrep::screen::{Draw, Screen};
use minigrep::summary::returns_summarise;
use minigrep::user::create_user;
use minigrep::workout::{plan_workout, Cacher, Workout};

use std::cell::Cell;
use std::rc::Rc;

#[test]
fn pig_latin_moves_first_letters() {
    assert_eq!(
        pig_latin("i love horses best of all the animals"),
        "i-ay ove-lay orses-hay est-bay of-ay all-ay he-tay animals-ay"
    );
}

#[test]
fn pig_latin_collapses_white_space() {
    assert_eq!(pig_latin("  first\t\nsecond  "), "irst-fay econd-say");
    assert_eq!(pig_latin(""), "");
    assert_eq!(pig_latin(" \u{3000} "), "");
    assert!(space('\u{a0}'));
    assert!(!space('x'));
}

#[test]
fn points_and_lengths_add() {
    let p = GridPoint { x: 1, y: 0 }.add(GridPoint { x: 2, y: 3 });
    assert_eq!(p, GridPoint { x: 3, y: 3 });
    assert_eq!(Millimeters(5).add(Meters(2)), Millimeters(2005));
}

#[test]
fn sum_of_squares_of_points() {
    let points = vec![GridPoint { x: 0, y: 0 }, GridPoint { x: 1, y: 5 }, GridPoint { x: 10, y: -3 }];
    assert_eq!(sum_of_squares(&points), 135);
}

#[test]
fn outline_frames_text() {
    assert_eq!(outline("(1, 3)"), vec!["**********", "*        *", "* (1, 3) *", "*        *", "**********"]);
}

#[test]
fn cacher_runs_its_calculation_once() {
    let calls = Rc::new(Cell::new(0));
    let seen = calls.clone();
    let mut cacher = Cacher::new(move |n: u32| {
        seen.set(seen.get() + 1);
        n * 2
    });
    assert_eq!(cacher.value(4), 8);
    assert_eq!(cacher.value(10), 8);
    assert_eq!(calls.get(), 1);
}

#[test]
fn workout_choice() {
    assert_eq!(plan_workout(10, 3), Workout::PushupsAndSitups);
    assert_eq!(plan_workout(25, 3), Workout::Rest);
    assert_eq!(plan_workout(30, 7), Workout::Run);
}

struct Button {
    clicks: Rc<Cell<u32>>,
}

impl Draw for Button {
    fn draw(&self) {
        self.clicks.set(self.clicks.get() + 1);
    }
}

#[test]
fn screen_draws_every_component() {
    let drawn = Rc::new(Cell::new(0));
    let screen = Screen {
        components: vec![Box::new(Button { clicks: drawn.clone() }), Box::new(Button { clicks: drawn.clone() })],
    };
    screen.run();
    assert_eq!(drawn.get(), 2);
}

#[test]
fn new_users_are_active() {
    let user = create_user("a@example.com".to_string(), "alice".to_string());
    assert_eq!(user.email, "a@example.com");
    assert_eq!(user.username, "alice");
    assert!(user.active);
    assert_eq!(user.sign_in_count, 1);
    let tweet = returns_summarise();
    assert_eq!(tweet.username, "horse_ebooks");
}
