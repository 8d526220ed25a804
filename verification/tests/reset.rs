use permutate::{Permutator, PermutatorWrapper as _, Repeated};

fn get_input<'a>() -> Repeated<&'a str> {
    Repeated(vec!["1", "2", "3"])
}

fn get_expected<'a>() -> [&'a [&'a str]; 27] {
    [
        &["1", "1", "1"][..],
        &["1", "1", "2"][..],
        &["1", "1", "3"][..],
        &["1", "2", "1"][..],
        &["1", "2", "2"][..],
        &["1", "2", "3"][..],
        &["1", "3", "1"][..],
        &["1", "3", "2"][..],
        &["1", "3", "3"][..],
        &["2", "1", "1"][..],
        &["2", "1", "2"][..],
        &["2", "1", "3"][..],
        &["2", "2", "1"][..],
        &["2", "2", "2"][..],
        &["2", "2", "3"][..],
        &["2", "3", "1"][..],
        &["2", "3", "2"][..],
        &["2", "3", "3"][..],
        &["3", "1", "1"][..],
        &["3", "1", "2"][..],
        &["3", "1", "3"][..],
        &["3", "2", "1"][..],
        &["3", "2", "2"][..],
        &["3", "2", "3"][..],
        &["3", "3", "1"][..],
        &["3", "3", "2"][..],
        &["3", "3", "3"][..],
    ]
}

#[test]
fn test_reset() {
    let input = get_input();
    let expected = get_expected();
    let mut permutator = Permutator::<Repeated<&str>, _>::new(&input);

    let mut expected_iterator = expected[..].iter();
    while let Some(output) = permutator.next() {
        let expected_permutation = expected_iterator.next().unwrap();
        assert_eq!(&output[..], *expected_permutation);
    }
    assert!(expected_iterator.next().is_none());

    permutator.reset();

    let mut expected_iterator = expected[..].iter();
    while let Some(output) = permutator.next() {
        let expected_permutation = expected_iterator.next().unwrap();
        assert_eq!(&output[..], *expected_permutation);
    }
    assert!(expected_iterator.next().is_none());
}
