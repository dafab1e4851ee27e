use minigrep::arith::{add, fibonacci_sequence, five, plus_one};
use minigrep::blog::Post;
use minigrep::game::{guess_outcome, new_secret_number, GuessOutcome};
use minigrep::geometry::{area_dimensions, area_struct, Rectangle};
use minigrep::guess::Guess;
use minigrep::largest::largest;
use minigrep::mybox::MyBox;
use minigrep::screen::{Button, Screen};
use minigrep::summary::{NewsArticle, Summary};
use minigrep::words::{common_first_word, first_word, new_first_word};

#[test]
fn it_works() {
    let result = add(2, 2);
    assert_eq!(result, 4);
}

#[test]
fn small_numeric_helpers() {
    assert_eq!(5, five());
    assert_eq!(2, plus_one(1));
    assert_eq!(-3, plus_one(-4));
}

#[test]
fn fibonacci_counts_as_the_library_does() {
    assert_eq!(1, fibonacci_sequence(1));
    assert_eq!(2, fibonacci_sequence(2));
    assert_eq!(3, fibonacci_sequence(3));
    assert_eq!(5, fibonacci_sequence(4));
    assert_eq!(8, fibonacci_sequence(5));
}

#[test]
fn largest_of_numbers_and_chars() {
    let number_list = vec![34, 50, 25, 100, 65];
    assert_eq!(100, largest(&number_list));
    let char_list = vec!['y', 'm', 'a', 'q'];
    assert_eq!('y', largest(&char_list));
}

#[test]
fn first_words() {
    let s = String::from("hello world");
    assert_eq!(5, first_word(&s));
    assert_eq!("hello", new_first_word(&s));
    assert_eq!("hello", common_first_word("hello world"));
    assert_eq!("hello", common_first_word("hello"));
    assert_eq!("", common_first_word(" leading"));
}

#[test]
fn rectangle_areas() {
    assert_eq!(1500, area_dimensions((30, 50)));
    let rect = Rectangle { width: 30, height: 50 };
    assert_eq!(1500, area_struct(&rect));
}

#[test]
fn guesses_keep_their_value() {
    let g = Guess::new(1);
    assert_eq!(1, g.value());
    let g = Guess::new(100);
    assert_eq!(100, g.value());
    let g = Guess::new(42);
    assert_eq!(42, g.value());
}

#[test]
fn boxed_values_come_back_out() {
    let x = 5;
    let y = MyBox::new(x);
    assert_eq!(5, x);
    assert_eq!(5, *y.inner());
}

#[test]
fn post_content_is_visible_only_once_approved() {
    let mut post = Post::new();

    post.add_text("l ate an egg");
    assert_eq!("", post.content());

    post.request_review();
    assert_eq!("", post.content());

    post.approve();
    assert_eq!("l ate an egg", post.content());
}

#[test]
fn approving_a_draft_does_not_publish_it() {
    let mut post = Post::new();
    post.add_text("half a thought");
    post.approve();
    assert_eq!("", post.content());
}

#[test]
fn articles_summarize_by_title() {
    let article = NewsArticle {
        title: String::from("a"),
        description: String::from("b"),
    };
    assert_eq!("@a", article.summarize_author());
    assert_eq!("(Read more from @a...)", article.summarize());
}

#[test]
fn screens_run_without_fuss() {
    let screen = Screen {
        components: vec![
            Button { width: 50, height: 10, label: String::from("OK") },
            Button { width: 20, height: 20, label: String::from("Cancel") },
        ],
    };
    screen.run();
}

#[test]
fn secret_numbers_stay_in_range() {
    for _ in 0..200 {
        let secret = new_secret_number();
        assert!((1..=100).contains(&secret));
    }
}

#[test]
fn guess_outcomes() {
    assert_eq!(GuessOutcome::TooSmall, guess_outcome(10, 50));
    assert_eq!(GuessOutcome::TooBig, guess_outcome(90, 50));
    assert_eq!(GuessOutcome::Win, guess_outcome(50, 50));
}
