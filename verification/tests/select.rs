use code_lines::error::ErrorKind;
use code_lines::select::{get_random_string, string_from_choice};

#[test]
fn test_get_random_string_one_string() {
    let result = get_random_string(&vec![String::from("random")]);
    assert_eq!(result.unwrap(), String::from("random"));
}

#[test]
fn test_get_random_string_no_strings() {
    let result = get_random_string(&vec![]);
    assert_eq!(true, result.is_err());
}

#[test]
fn test_get_random_string_various_strings() {
    let thing = vec![String::from("o"), String::from("a")];
    let result = get_random_string(&thing);
    assert_eq!(true, thing.contains(&result.unwrap()));
}

#[test]
fn an_empty_choice_is_reported_as_such() {
    let error = get_random_string(&Vec::new()).unwrap_err();
    assert_eq!(error.kind, ErrorKind::Empty);
    assert_eq!(error.message, "Error getting random string.");
}

#[test]
fn a_single_string_is_always_chosen() {
    let only = vec![String::from("the one and only")];
    for _ in 0..100 {
        assert_eq!(get_random_string(&only).unwrap(), "the one and only");
    }
}

#[test]
fn every_choice_is_a_member() {
    let candidates: Vec<String> = (0..25).map(|i| format!("candidate {}", i)).collect();
    for _ in 0..500 {
        assert!(candidates.contains(&get_random_string(&candidates).unwrap()));
    }
}

#[test]
fn every_member_is_chosen_sooner_or_later() {
    let candidates = vec![String::from("a"), String::from("b"), String::from("c")];
    let mut seen = [false; 3];
    for _ in 0..2000 {
        let chosen = get_random_string(&candidates).unwrap();
        let index = candidates.iter().position(|candidate| *candidate == chosen).unwrap();
        seen[index] = true;
    }
    assert_eq!(seen, [true, true, true]);
}

#[test]
fn the_choice_is_roughly_even() {
    let candidates = vec![String::from("heads"), String::from("tails")];
    let mut heads = 0;
    for _ in 0..10000 {
        if get_random_string(&candidates).unwrap() == "heads" {
            heads += 1;
        }
    }
    assert!(heads > 4000 && heads < 6000);
}

#[test]
fn what_was_chosen_is_copied() {
    let line = String::from("let thing = other;");
    assert_eq!(string_from_choice(Some(&line)).unwrap(), "let thing = other;");
    let error = string_from_choice(None).unwrap_err();
    assert_eq!(error.kind, ErrorKind::Empty);
    assert_eq!(error.message, "Error getting random string.");
}
