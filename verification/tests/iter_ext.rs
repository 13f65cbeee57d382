use mod_add::iter_ext::{IterExt, IterExtPositions};
use std::collections::HashSet;

#[test]
fn collect_vec_keeps_the_order() {
    assert_eq!((0..5).collect_vec(), [0, 1, 2, 3, 4]);
    assert_eq!(
        vec!["c", "a", "b", "a"].into_iter().collect_vec(),
        ["c", "a", "b", "a"]
    );
    assert_eq!("héllo".chars().rev().collect_vec(), ['o', 'l', 'l', 'é', 'h']);
}

#[test]
fn collect_vec_of_nothing_is_empty() {
    assert!(std::iter::empty::<u8>().collect_vec().is_empty());
}

#[test]
fn collect_hashset_drops_repetitions() {
    let set = vec![3, 1, 3, 2, 1, 3].into_iter().collect_hashset();
    assert_eq!(set, HashSet::from([1, 2, 3]));
    assert_eq!(set.len(), 3);
}

#[test]
fn collect_hashset_of_nothing_is_empty() {
    assert!(std::iter::empty::<String>().collect_hashset().is_empty());
}

#[test]
fn display_puts_the_separator_between_items() {
    assert_eq!([1, 2, 3].iter().display(", "), "1, 2, 3");
    assert_eq!(["a", "b"].iter().display(""), "ab");
    assert_eq!(["a", "b", "c"].iter().display(" and "), "a and b and c");
}

#[test]
fn display_of_one_item_has_no_separator() {
    assert_eq!(["alone"].iter().display(", "), "alone");
}

#[test]
fn display_of_nothing_is_empty() {
    assert_eq!(std::iter::empty::<u8>().display(", "), "");
}

#[test]
fn display_keeps_empty_items() {
    assert_eq!(["", "a"].iter().display("-"), "-a");
    assert_eq!(["a", ""].iter().display("-"), "a-");
    assert_eq!(["", "", ""].iter().display("-"), "--");
}

#[test]
fn display_agrees_with_join() {
    let samples: [&[&str]; 6] = [
        &[],
        &[""],
        &["x"],
        &["x", "y"],
        &["", "", "z", ""],
        &["sodium", "lithium", "iris"],
    ];
    for items in samples {
        for sep in ["", ",", ", ", "\n"] {
            assert_eq!(items.iter().display(sep), items.join(sep));
        }
    }
}

#[test]
fn positions_gives_the_indices_of_the_matches() {
    let items = ["a", "b", "a", "c", "a"];
    assert_eq!(
        items.iter().enumerate().positions(|item| *item == "a"),
        [0, 2, 4]
    );
    assert_eq!(
        items.iter().enumerate().positions(|item| *item == "c"),
        [3]
    );
    assert!(items
        .iter()
        .enumerate()
        .positions(|item| *item == "z")
        .is_empty());
    assert_eq!(
        items.iter().enumerate().positions(|_| true),
        [0, 1, 2, 3, 4]
    );
}

#[test]
fn positions_hands_on_the_indices_it_is_given() {
    let numbered = vec![(7, 'x'), (3, 'y'), (9, 'x')];
    assert_eq!(numbered.into_iter().positions(|c| c == 'x'), [7, 9]);
}
