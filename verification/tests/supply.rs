use seeder::{join_words, words};

fn strings(words: &[&str]) -> Vec<String> {
    words.iter().map(|w| w.to_string()).collect()
}

#[test]
fn join_words_puts_one_space_between_two_words() {
    assert_eq!(join_words(&strings(&["lorem", "ipsum", "dolor"])), "lorem ipsum dolor");
}

#[test]
fn join_words_of_one_word_is_the_word() {
    assert_eq!(join_words(&strings(&["lorem"])), "lorem");
}

#[test]
fn join_words_of_nothing_is_empty() {
    assert_eq!(join_words(&strings(&[])), "");
}

#[test]
fn join_words_keeps_empty_words() {
    assert_eq!(join_words(&strings(&["", "a", ""])), " a ");
}

#[test]
fn join_words_agrees_with_the_standard_join() {
    let drawn = strings(&["sit", "amet", "consectetur", "adipiscing"]);
    assert_eq!(join_words(&drawn), drawn.join(" "));
}

#[test]
fn words_draws_a_count_within_the_range() {
    for _ in 0..200 {
        let text = words(2, 7);
        let count = text.split(' ').count();
        assert!((2..7).contains(&count), "{} words in {:?}", count, text);
        assert!(text.split(' ').all(|w| !w.is_empty()));
    }
}

#[test]
fn words_of_a_range_of_one_draws_that_many() {
    for _ in 0..50 {
        assert_eq!(words(3, 4).split(' ').count(), 3);
    }
}

#[test]
fn words_are_not_empty_and_hold_no_space() {
    for _ in 0..200 {
        let text = words(1, 2);
        assert!(!text.is_empty());
        assert!(!text.contains(' '));
    }
}

#[test]
fn words_takes_a_wide_range() {
    let count = words(1, 5000).split(' ').count();
    assert!((1..5000).contains(&count));
}
