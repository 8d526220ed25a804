use permutate::{Permutator, PermutatorWrapper as _, Repeated};

fn get_input<'a>() -> Repeated<&'a str> {
    Repeated(vec!["1", "2", "3"])
}

fn get_expected<'a>() -> [&'a [&'a str]; 27] {
    [
        &["1", "1", "1"][..],
        &["1", "1", "2"][..],
        &["1", "1", "3"][..],
        &["1", "2", "1"][..],
        &["1", "2", "2"][..],
        &["1", "2", "3"][..],
        &["1", "3", "1"][..],
        &["1", "3", "2"][..],
        &["1", "3", "3"][..],
        &["2", "1", "1"][..],
        &["2", "1", "2"][..],
        &["2", "1", "3"][..],
        &["2", "2", "1"][..],
        &["2", "2", "2"][..],
        &["2", "2", "3"][..],
        &["2", "3", "1"][..],
        &["2", "3", "2"][..],
        &["2", "3", "3"][..],
        &["3", "1", "1"][..],
        &["3", "1", "2"][..],
        &["3", "1", "3"][..],
        &["3", "2", "1"][..],
        &["3", "2", "2"][..],
        &["3", "2", "3"][..],
        &["3", "3", "1"][..],
        &["3", "3", "2"][..],
        &["3", "3", "3"][..],
    ]
}

fn get_expected_b<'a>() -> [&'a [&'a str]; 3] {
    [&["1"][..], &["2"][..], &["3"][..]]
}

#[test]
fn single_list_permutation() {
    let input = get_input();
    let expected = get_expected();

    let mut permutator = Permutator::<Repeated<&str>, _>::new(&input);
    let mut expected_iterator = expected[..].iter();
    while let Some(output) = permutator.next() {
        let expected_permutation = expected_iterator.next().unwrap();
        assert_eq!(&output[..], *expected_permutation);
    }
    assert!(expected_iterator.next().is_none());
}

#[test]
fn single_list_permutation_with_buffer() {
    let input = get_input();
    let expected = get_expected();

    let mut permutator = Permutator::<Repeated<&str>, _>::new(&input);
    let mut expected_iterator = expected[..].iter();

    if let Some(mut permutation) = permutator.next() {
        let expected_permutation = expected_iterator.next().unwrap();
        assert_eq!(&permutation[..], *expected_permutation);

        while permutator.next_with_buffer(&mut permutation) {
            let expected_permutation = expected_iterator.next().unwrap();
            assert_eq!(permutation.as_slice(), *expected_permutation);
        }
    }

    // verifies that the expected iterator has been fully consumed
    assert!(expected_iterator.next().is_none())
}

#[test]
fn single_list_permutation_b() {
    let input: Vec<Vec<&str>> = vec![vec!["1", "2", "3"]];
    let expected = get_expected_b();

    let mut permutator = Permutator::new(&input);
    let mut expected_iterator = expected[..].iter();
    while let Some(output) = permutator.next() {
        let expected_permutation = expected_iterator.next().unwrap();
        assert_eq!(&output[..], *expected_permutation);
    }
    assert!(expected_iterator.next().is_none());
}

#[test]
fn single_list_permutation_b_with_buffer() {
    let input: Vec<Vec<&str>> = vec![vec!["1", "2", "3"]];
    let expected = get_expected_b();

    let mut permutator = Permutator::new(&input);
    let mut expected_iterator = expected[..].iter();

    if let Some(mut permutation) = permutator.next() {
        let expected_permutation = expected_iterator.next().unwrap();
        assert_eq!(&permutation[..], *expected_permutation);

        while permutator.next_with_buffer(&mut permutation) {
            let expected_permutation = expected_iterator.next().unwrap();
            assert_eq!(&permutation[..], *expected_permutation);
        }
    }

    // verifies that the expected iterator has been fully consumed
    assert!(expected_iterator.next().is_none())
}

fn get_input_c<'a>() -> Repeated<i32> {
    Repeated(vec![1, 2, 3])
}

fn get_expected_c<'a>() -> [&'a [i32]; 27] {
    [
        &[1, 1, 1][..],
        &[1, 1, 2][..],
        &[1, 1, 3][..],
        &[1, 2, 1][..],
        &[1, 2, 2][..],
        &[1, 2, 3][..],
        &[1, 3, 1][..],
        &[1, 3, 2][..],
        &[1, 3, 3][..],
        &[2, 1, 1][..],
        &[2, 1, 2][..],
        &[2, 1, 3][..],
        &[2, 2, 1][..],
        &[2, 2, 2][..],
        &[2, 2, 3][..],
        &[2, 3, 1][..],
        &[2, 3, 2][..],
        &[2, 3, 3][..],
        &[3, 1, 1][..],
        &[3, 1, 2][..],
        &[3, 1, 3][..],
        &[3, 2, 1][..],
        &[3, 2, 2][..],
        &[3, 2, 3][..],
        &[3, 3, 1][..],
        &[3, 3, 2][..],
        &[3, 3, 3][..],
    ]
}

#[test]
// Verify that the permutations are generated with the correct values,
// in the correct order.
fn test_value_owned_permutation() {
    let input = get_input_c();
    let expected = get_expected_c();

    let mut permutator = Permutator::<Repeated<i32>, _>::new(&input);
    let mut expected_iterator = expected[..].iter();
    while let Some(output) = permutator.next() {
        let expected_permutation = expected_iterator.next().unwrap();
        assert_eq!(&output[..], *expected_permutation);
    }
    assert!(expected_iterator.next().is_none());

    let mut permutator = Permutator::new(&input);
    let mut expected = expected[..].iter();
    assert_eq!(&(permutator.nth(10).unwrap())[..], *expected.nth(10).unwrap());
    assert_eq!(&(permutator.nth(0).unwrap())[..], *expected.nth(0).unwrap());
}

fn get_input_d<'a>() -> Repeated<&'a i32> {
    Repeated(vec![&1, &2, &3])
}

fn get_expected_d<'a>() -> [&'a [&'a i32]; 27] {
    [
        &[&1, &1, &1][..],
        &[&1, &1, &2][..],
        &[&1, &1, &3][..],
        &[&1, &2, &1][..],
        &[&1, &2, &2][..],
        &[&1, &2, &3][..],
        &[&1, &3, &1][..],
        &[&1, &3, &2][..],
        &[&1, &3, &3][..],
        &[&2, &1, &1][..],
        &[&2, &1, &2][..],
        &[&2, &1, &3][..],
        &[&2, &2, &1][..],
        &[&2, &2, &2][..],
        &[&2, &2, &3][..],
        &[&2, &3, &1][..],
        &[&2, &3, &2][..],
        &[&2, &3, &3][..],
        &[&3, &1, &1][..],
        &[&3, &1, &2][..],
        &[&3, &1, &3][..],
        &[&3, &2, &1][..],
        &[&3, &2, &2][..],
        &[&3, &2, &3][..],
        &[&3, &3, &1][..],
        &[&3, &3, &2][..],
        &[&3, &3, &3][..],
    ]
}

#[test]
// Verify that the permutations are generated with the correct values,
// in the correct order.
fn test_value_permutation_b() {
    let input = get_input_d();
    let expected = get_expected_d();

    let mut permutator = Permutator::<Repeated<&i32>, _>::new(&input);
    let mut expected_iterator = expected[..].iter();
    while let Some(output) = permutator.next() {
        let expected_permutation = expected_iterator.next().unwrap();
        assert_eq!(&output[..], *expected_permutation);
    }
    assert!(expected_iterator.next().is_none());

    let mut permutator = Permutator::new(&input);
    let mut expected = expected[..].iter();
    assert_eq!(&(permutator.nth(10).unwrap())[..], *expected.nth(10).unwrap());
    assert_eq!(&(permutator.nth(0).unwrap())[..], *expected.nth(0).unwrap());
}
