//! A line-oriented literal text search (`search`), the configuration a search
//! runs from (`config`), and a collection of small verified building blocks:
//! arithmetic helpers, a bounded guess, Fibonacci numbers, a colour code, a
//! counter, a quota tracker, a reviewed blog post, summaries, rectangles,
//! largest items, words and pig latin, coins and averages, a calculation
//! cache, a screen of drawable components, a frame of stars, and accounts.

pub mod search;
pub mod config;
pub mod adder;
pub mod fibonacci;
pub mod mastermind;
pub mod counter;
pub mod limit;
pub mod post;
pub mod summary;
pub mod shapes;
pub mod generics;
pub mod words;
pub mod coins;
pub mod plant;
pub mod workout;
pub mod screen;
pub mod pig_latin;
pub mod arith;
pub mod outline;
pub mod user;
