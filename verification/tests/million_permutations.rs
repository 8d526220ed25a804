use permutate::{Permutator, PermutatorWrapper as _};

fn get_input<'a>() -> Vec<Vec<&'a str>> {
    vec![
        vec!["0", "1", "2", "3", "4", "5", "6", "7", "8", "9"], // 10
        vec!["0", "1", "2", "3", "4", "5", "6", "7", "8", "9"], // 100
        vec!["0", "1", "2", "3", "4", "5", "6", "7", "8", "9"], // 1k
        vec!["0", "1", "2", "3", "4", "5", "6", "7", "8", "9"], // 10k
        vec!["0", "1", "2", "3", "4", "5", "6", "7", "8", "9"], // 100k
        vec!["0", "1", "2", "3", "4", "5", "6", "7", "8", "9"], // 1M
    ]
}

#[test]
// Check to see if exactly 1,000,000 permutations were collected.
fn test_million_permutations() {
    let input = get_input();
    assert_eq!(1_000_000, Permutator::new(&input).count())
}
