use std::cell::RefCell;

use minigrep::adder::{add_two, greeting, internal_adder, Guess};
use minigrep::coins::{average, plus_one, value_in_cents, Coin, UsState};
use minigrep::counter::{Counter, Iterator as CountingIterator, Iterator2};
use minigrep::fibonacci::fib;
use minigrep::generics::{largest_char, largest_i32, Pair, Point, TwoTypePoint};
use minigrep::limit::{quota_alert, Alert, LimitTracker, Messenger};
use minigrep::mastermind::{add_one, add_one_to_many, color_at, generate_code, Color};
use minigrep::plant::{Appetizer, Vegetable};
use minigrep::post::{Post, Stage};
use minigrep::shapes::{area, struct_refactor, tuple_refactor, Rectangle};
use minigrep::summary::{NewsArticle, SharedDefaults, Summary, Tweet};
use minigrep::words::{first_word, first_words, longest, longest_again, refactored_first_words};

#[test]
fn add_two_and_two() {
    assert_eq!(4, add_two(2));
}

#[test]
fn add_three_and_two() {
    assert_eq!(5, add_two(3));
}

#[test]
fn one_hundred() {
    assert_eq!(102, add_two(100));
}

#[test]
fn internal() {
    assert_eq!(4, internal_adder(2, 2));
}

#[test]
fn it_adds_twoooooo() {
    assert_eq!(4, add_two(2));
}

#[test]
fn integration_test_it_adds_two() {
    assert_eq!(4, add_two(2));
}

#[test]
fn lib_it_adds_two() {
    assert_eq!(4, add_two(2));
}

#[test]
fn lib_it_works() {
    assert_eq!(2 + 2, 4);
}

#[test]
fn it_works_for_0() {
    assert_eq!(fib(0), 0);
}

#[test]
fn it_works_for_1() {
    assert_eq!(fib(1), 1);
}

#[test]
fn it_works_for_n() {
    assert_eq!(fib(2), 1);
    assert_eq!(fib(3), 2);
    assert_eq!(fib(4), 3);
    assert_eq!(fib(5), 5);
    assert_eq!(fib(6), 8);
    assert_eq!(fib(7), 13);
}

#[test]
fn fib_of_negative_is_one_and_largest_fits() {
    assert_eq!(fib(-3), 1);
    assert_eq!(fib(46), 1836311903);
}

#[test]
fn lib_calling_next_directly() {
    let mut counter = Counter::new();
    assert_eq!(counter.next(), Some(1));
    assert_eq!(counter.next(), Some(2));
    assert_eq!(counter.next(), Some(3));
    assert_eq!(counter.next(), Some(4));
    assert_eq!(counter.next(), Some(5));
    assert_eq!(counter.next(), None);
}

#[test]
fn main_calling_next_directly() {
    let mut counter = Counter::new();
    assert_eq!(CountingIterator::next(&mut counter), Some(1));
    assert_eq!(CountingIterator::next(&mut counter), Some(2));
    assert_eq!(CountingIterator::next(&mut counter), Some(3));
    assert_eq!(CountingIterator::next(&mut counter), Some(4));
    assert_eq!(CountingIterator::next(&mut counter), Some(5));
    assert_eq!(CountingIterator::next(&mut counter), None);
}

fn drain(mut counter: Counter) -> Vec<u32> {
    let mut out = Vec::new();
    while let Some(n) = Iterator2::<u32>::next(&mut counter) {
        out.push(n);
    }
    out
}

#[test]
fn using_other_iterator_trait_methods() {
    let sum: u32 = drain(Counter::new())
        .into_iter()
        .zip(drain(Counter::new()).into_iter().skip(1))
        .map(|(a, b)| a * b)
        .filter(|x| x % 3 == 0)
        .sum();
    assert_eq!(18, sum);
}

#[test]
fn counter_stays_dry() {
    let mut counter = Counter::new();
    for _ in 0..5 {
        counter.next();
    }
    assert_eq!(counter.next(), None);
    assert_eq!(counter.next(), None);
}

#[test]
fn it_adds_one() {
    assert_eq!(add_one(2), 3);
}

#[test]
fn it_adds_one_to_many() {
    assert_eq!(add_one_to_many(vec![1, 2, 3]), vec![2, 3, 4]);
}

#[test]
fn palette_and_random_code() {
    assert_eq!(color_at(0), Color::Red);
    assert_eq!(color_at(3), Color::Green);
    assert_eq!(color_at(5), Color::Purple);
    assert_eq!(generate_code().len(), 4);
}

struct MockMessenger {
    sent_messages: RefCell<Vec<String>>,
}

impl MockMessenger {
    fn new() -> MockMessenger {
        MockMessenger { sent_messages: RefCell::new(vec![]) }
    }
}

impl Messenger for MockMessenger {
    fn send(&self, message: &str) {
        self.sent_messages.borrow_mut().push(String::from(message));
    }
}

#[test]
fn it_sends_an_over_75_percent_warning_message() {
    let mock_messenger = MockMessenger::new();
    let mut limit_tracker = LimitTracker::new(&mock_messenger, 100);
    limit_tracker.set_value(80);
    assert_eq!(mock_messenger.sent_messages.borrow().len(), 1);
}

#[test]
fn tracker_sends_the_message_of_each_level() {
    let mock_messenger = MockMessenger::new();
    let mut limit_tracker = LimitTracker::new(&mock_messenger, 100);
    limit_tracker.set_value(10);
    limit_tracker.set_value(95);
    limit_tracker.set_value(100);
    let sent = mock_messenger.sent_messages.borrow();
    assert_eq!(
        *sent,
        vec![
            "Urgent warning: You've used up over 90% of your quota!".to_string(),
            "Error: You are over your quota!".to_string(),
        ]
    );
}

#[test]
fn quota_alert_levels() {
    assert_eq!(quota_alert(74, 100), None);
    assert_eq!(quota_alert(75, 100), Some(Alert::Warning));
    assert_eq!(quota_alert(89, 100), Some(Alert::Warning));
    assert_eq!(quota_alert(90, 100), Some(Alert::Urgent));
    assert_eq!(quota_alert(100, 100), Some(Alert::Over));
    assert_eq!(quota_alert(0, 0), None);
    assert_eq!(quota_alert(1, 0), Some(Alert::Over));
    assert_eq!(Alert::Warning.message(), "Warning: You've used up over 75% of your quota!");
}

#[test]
fn larger_can_hold_smaller() {
    let larger = Rectangle { width: 8, height: 7 };
    let smaller = Rectangle { width: 6, height: 3 };
    assert!(larger.can_hold(&smaller));
}

#[test]
fn smaller_cannot_hold_larger() {
    let larger = Rectangle { width: 8, height: 7 };
    let smaller = Rectangle { width: 5, height: 1 };
    assert!(!smaller.can_hold(&larger));
}

#[test]
fn rectangle_areas() {
    assert_eq!(area(30, 50), 1500);
    assert_eq!(tuple_refactor((30, 50)), 1500);
    let rec = Rectangle { width: 11, height: 9 };
    assert_eq!(struct_refactor(&rec), 99);
    assert_eq!(rec.area(), 99);
}

#[test]
fn greeting_contains_name() {
    let result = greeting("Carol");
    assert!(result.contains("Carol"), "Greeting did not contain name, value was `{}`", result);
    assert_eq!(result, "Hello Carol!");
}

#[test]
fn guess_keeps_its_value() {
    assert_eq!(Guess::new(1).value(), 1);
    assert_eq!(Guess::new(100).value(), 100);
}

#[test]
fn post_is_shown_once_approved() {
    let mut post = Post::new();
    post.add_text("I ate a salad for lunch today");
    assert_eq!("", post.content());
    post.request_review();
    assert_eq!("", post.content());
    post.approve();
    assert_eq!("I ate a salad for lunch today", post.content());
}

#[test]
fn draft_is_not_published_by_approval_alone() {
    let mut post = Post::new();
    post.add_text("draft");
    post.approve();
    assert_eq!("", post.content());
    assert_eq!(Stage::Draft.approve(), Stage::Draft);
    assert_eq!(Stage::Draft.request_review(), Stage::PendingReview);
    assert_eq!(Stage::Published.request_review(), Stage::Published);
}

#[test]
fn summaries() {
    let tweet = Tweet {
        username: String::from("horse_ebooks"),
        content: String::from("of course"),
        reply: false,
        retweet: false,
    };
    assert_eq!(tweet.summarize(), "horse_ebooks: of course");
    assert_eq!(tweet.summarise(), "Example: of course");
    assert_eq!(tweet.uses_other_fn(), "Oh we'll be here: Example: of course ");
    let article = NewsArticle {
        headline: String::from("Headline here"),
        content: String::from("test"),
        location: String::from("somewhere"),
        author: String::from("me"),
    };
    assert_eq!(article.summarize(), "Headline here, by me (somewhere)");
    assert_eq!(article.default_example(), "Read more...");
}

#[test]
fn largest_items() {
    assert_eq!(largest_i32(&[34, 50, 25, 100, 65]), 100);
    assert_eq!(largest_i32(&[-3, -7]), -3);
    assert_eq!(largest_char(&['y', 'm', 'a', 'q']), 'y');
}

#[test]
fn points_and_pairs() {
    let p = Point { x: 5, y: 6 };
    assert_eq!(*p.x(), 5);
    let a = TwoTypePoint { x: 1, y: 10 };
    let b = TwoTypePoint { x: "hello", y: 'n' };
    let c = a.mixup(b);
    assert_eq!(c.x, 1);
    assert_eq!(c.y, 'n');
    assert!(Pair::new(3, 3).first_is_largest());
    assert!(!Pair::new(2, 3).first_is_largest());
}

#[test]
fn first_words_and_longest() {
    assert_eq!(first_words(&String::from("Hello world")), 5);
    assert_eq!(first_words(&String::from("Hello")), 5);
    assert_eq!(first_word("hello world"), "hello");
    assert_eq!(first_word("héllo wörld"), "héllo");
    assert_eq!(first_word(""), "");
    assert_eq!(refactored_first_words(&String::from("Hello world")), "Hello");
    assert_eq!(longest("abcd", "xyz"), "abcd");
    assert_eq!(longest("ab", "xy"), "xy");
    assert_eq!(longest_again("abc", "longer one"), "abc");
}

#[test]
fn coins_and_increments() {
    assert_eq!(value_in_cents(Coin::Penny), 1);
    assert_eq!(value_in_cents(Coin::Nickel), 5);
    assert_eq!(value_in_cents(Coin::Dime), 10);
    assert_eq!(value_in_cents(Coin::Quarter(UsState::Alaska)), 25);
    assert_eq!(plus_one(Some(5)), Some(6));
    assert_eq!(plus_one(None), None);
}

#[test]
fn averages_round_down() {
    assert_eq!(average(vec![1, 2, 3, 4, 5]), 3);
    assert_eq!(average(vec![1, 2]), 1);
}

#[test]
fn vegetables_and_appetizers() {
    let v = Vegetable::new("Squash");
    assert_eq!(v.name, "Squash");
    assert_ne!(Appetizer::Soup, Appetizer::Salad);
}

#[test]
fn counter_count_rises_past_the_limit() {
    let mut counter = Counter::new();
    let got: Vec<Option<u32>> = (0..7).map(|_| counter.next()).collect();
    assert_eq!(got, vec![Some(1), Some(2), Some(3), Some(4), Some(5), None, None]);
}
