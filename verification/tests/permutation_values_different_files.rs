use permutate::{Permutator, PermutatorWrapper as _};

fn get_inputs<'a>() -> Vec<Vec<&'a str>> {
    vec![
        vec!["0", "1"],
        vec!["A", "B"],
        vec!["a", "b", "c"],
        vec!["_"],
    ]
}

fn get_expected<'a>() -> [&'a [&'a str]; 12] {
    [
        &["0", "A", "a", "_"],
        &["0", "A", "b", "_"],
        &["0", "A", "c", "_"],
        &["0", "B", "a", "_"],
        &["0", "B", "b", "_"],
        &["0", "B", "c", "_"],
        &["1", "A", "a", "_"],
        &["1", "A", "b", "_"],
        &["1", "A", "c", "_"],
        &["1", "B", "a", "_"],
        &["1", "B", "b", "_"],
        &["1", "B", "c", "_"],
    ]
}

#[test]
// Verify that the permutations are generated with the correct values,
// in the correct order.
fn test_permutation_values_with_different_sizes() {
    let inputs = get_inputs();
    let expected = get_expected();

    let mut permutator = Permutator::new(&inputs);
    let mut expected_iterator = expected[..].iter();
    while let Some(output) = permutator.next() {
        let expected_permutation = expected_iterator.next().unwrap();
        assert_eq!(&output[..], *expected_permutation);
    }
    assert!(expected_iterator.next().is_none());
}

#[test]
// Verify that the permutations are generated with the correct values,
// in the correct order, with the list-of-lists shape named explicitly.
fn test_same_various_derefs() {
    let inputs = get_inputs();
    let expected = get_expected();

    let mut permutator = Permutator::<Vec<Vec<&str>>, _>::new(&inputs);
    let mut expected_iterator = expected[..].iter();
    while let Some(output) = permutator.next() {
        let expected_permutation = expected_iterator.next().unwrap();
        assert_eq!(&output[..], *expected_permutation);
    }
    assert!(expected_iterator.next().is_none());
}
