//! A small verified library centred on a command-line text search:
//! configuration resolution from an argument list and an environment flag,
//! and a line-by-line substring search over a body of text.
//!
//! A handful of smaller verified pieces live alongside the core: a blog-post
//! state machine, a guessing game's decision logic, and assorted helpers on
//! numbers, words and rectangles.

/// Addition, fibonacci and other small numeric helpers.
pub mod arith;
/// A blog post whose content is visible only once approved.
pub mod blog;
/// Resolution of the search configuration from arguments and environment.
pub mod config;
/// The guessing game: secret numbers and the verdict on a guess.
pub mod game;
/// Areas of rectangles.
pub mod geometry;
/// A guess bounded to the range the game accepts.
pub mod guess;
/// The largest element of a slice.
pub mod largest;
/// Splitting text into lines.
pub mod lines;
/// A one-element box.
pub mod mybox;
/// A screen of drawable components.
pub mod screen;
/// Line search over text: the heart of the tool.
pub mod search;
/// Summaries of articles.
pub mod summary;
/// Substring containment over text.
pub mod text;
/// Finding the first word of a string.
pub mod words;
