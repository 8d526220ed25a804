use permutate::output::{format_combination, prepare, PreparedPermutator};
use permutate::{Permutator, PermutatorWrapper as _, Repeated};

fn mismatched_input<'a>() -> Vec<Vec<&'a str>> {
    vec![
        vec!["0", "1"],
        vec!["A", "B"],
        vec!["a", "b", "c"],
        vec!["_"],
    ]
}

#[test]
// The engine produces exactly the product of the list lengths many
// combinations, then signals exhaustion forever until a reset.
fn count_property() {
    let input = mismatched_input();
    let mut permutator = Permutator::new(&input);

    let mut produced = 0;
    while let Some(_) = permutator.next() {
        produced += 1;
    }
    assert_eq!(produced, 2 * 2 * 3 * 1);

    // Exhaustion is permanent: repeated calls keep signalling it.
    assert!(permutator.next().is_none());
    assert!(permutator.next().is_none());
    assert!(permutator.nth(0).is_none());

    // ... until a reset.
    permutator.reset();
    assert!(permutator.next().is_some());
}

#[test]
// The last list varies fastest: the first four combinations over three
// copies of ["1", "2", "3"] change only in the last position, then carry.
fn order_property() {
    let input = vec![
        vec!["1", "2", "3"],
        vec!["1", "2", "3"],
        vec!["1", "2", "3"],
    ];
    let mut permutator = Permutator::new(&input);
    assert_eq!(permutator.next().unwrap(), vec!["1", "1", "1"]);
    assert_eq!(permutator.next().unwrap(), vec!["1", "1", "2"]);
    assert_eq!(permutator.next().unwrap(), vec!["1", "1", "3"]);
    assert_eq!(permutator.next().unwrap(), vec!["1", "2", "1"]);
}

#[test]
// A repeated-shape engine over one list produces the same sequence,
// element for element, as a homogeneous engine over that list repeated
// once per element.
fn repeated_shape_equivalence() {
    let single = Repeated(vec!["1", "2", "3"]);
    let repeated_lists = vec![
        vec!["1", "2", "3"],
        vec!["1", "2", "3"],
        vec!["1", "2", "3"],
    ];
    let mut by_repetition = Permutator::<Repeated<&str>, _>::new(&single);
    let mut by_lists = Permutator::new(&repeated_lists);

    let mut produced = 0;
    loop {
        let a = by_repetition.next();
        let b = by_lists.next();
        assert_eq!(a, b);
        if a.is_none() {
            break;
        }
        produced += 1;
    }
    assert_eq!(produced, 27);
}

#[test]
// The sequence obtained by re-using one buffer equals the sequence of
// freshly allocated combinations, position by position.
fn buffer_reuse_equivalence() {
    let input = mismatched_input();
    let mut allocating = Permutator::new(&input);
    let mut reusing = Permutator::new(&input);

    let mut buffer = reusing.next().unwrap();
    assert_eq!(allocating.next().unwrap(), buffer);
    loop {
        let fresh = allocating.next();
        let more = reusing.next_with_buffer(&mut buffer);
        assert_eq!(fresh.is_some(), more);
        match fresh {
            Some(fresh) => assert_eq!(fresh, buffer),
            None => break,
        }
    }
}

#[test]
// nth(n) from the initial state equals the (n+1)-th element of the
// next()-driven sequence, and the following next() yields the (n+2)-th.
fn skip_consistency() {
    let input = mismatched_input();

    let mut full = Vec::new();
    let mut driver = Permutator::new(&input);
    while let Some(output) = driver.next() {
        full.push(output);
    }

    for n in 0..full.len() {
        let mut skipper = Permutator::new(&input);
        assert_eq!(skipper.nth(n).unwrap(), full[n]);
        if n + 1 < full.len() {
            assert_eq!(skipper.next().unwrap(), full[n + 1]);
        } else {
            assert!(skipper.next().is_none());
        }
    }

    // Skipping everything or more signals exhaustion.
    let mut skipper = Permutator::new(&input);
    assert!(skipper.nth(full.len()).is_none());
    let mut skipper = Permutator::new(&input);
    assert!(skipper.nth(full.len() + 7).is_none());
}

#[test]
// The heterogeneous tuple example: (str, int, bool) lists of sizes 2, 3, 2
// yield twelve combinations in odometer order.
fn heterogeneous_tuple_example() {
    let input = (vec!["A", "B"], vec![0, 1, 2], vec![false, true]);
    let expected = [
        ("A", 0, false),
        ("A", 0, true),
        ("A", 1, false),
        ("A", 1, true),
        ("A", 2, false),
        ("A", 2, true),
        ("B", 0, false),
        ("B", 0, true),
        ("B", 1, false),
        ("B", 1, true),
        ("B", 2, false),
        ("B", 2, true),
    ];

    let mut permutator = Permutator::new(&input);
    let mut produced = Vec::new();
    while let Some(output) = permutator.next() {
        produced.push(output);
    }
    assert_eq!(produced.len(), 12);
    assert_eq!(&produced[..], &expected[..]);
    assert_eq!(produced[0], ("A", 0, false));
    assert_eq!(produced[10], ("B", 2, false));
    assert_eq!(produced[11], ("B", 2, true));
}

#[test]
// The mismatched-lengths example: lists of sizes 2, 2, 3, 1 yield
// 2 * 2 * 3 * 1 = 12 combinations, from ["0", "A", "a", "_"] to
// ["1", "B", "c", "_"].
fn mismatched_list_lengths_example() {
    let input = mismatched_input();
    let mut permutator = Permutator::new(&input);

    let mut produced = Vec::new();
    while let Some(output) = permutator.next() {
        produced.push(output);
    }
    assert_eq!(produced.len(), 12);
    assert_eq!(produced[0], vec!["0", "A", "a", "_"]);
    assert_eq!(produced[11], vec!["1", "B", "c", "_"]);
}

#[test]
// max_permutations reports the product of the list lengths, before and
// after enumeration.
fn max_permutations_reports_total() {
    let input = mismatched_input();
    let mut permutator = Permutator::new(&input);
    assert_eq!(permutator.max_permutations(), 12);
    while let Some(_) = permutator.next() {}
    assert_eq!(permutator.max_permutations(), 12);
}

#[test]
// A position saved with get_index and restored with set_index resumes the
// enumeration exactly where it left off.
fn position_save_restore() {
    let input = mismatched_input();

    let mut driver = Permutator::new(&input);
    for _ in 0..5 {
        driver.next().unwrap();
    }
    let (iter_no, indexes) = driver.get_index();
    assert_eq!(iter_no, 5);

    let rest_from_driver: Vec<_> = {
        let mut rest = Vec::new();
        while let Some(output) = driver.next() {
            rest.push(output);
        }
        rest
    };

    let mut resumed = Permutator::new(&input);
    resumed.set_index(iter_no, indexes);
    let mut rest_from_resumed = Vec::new();
    while let Some(output) = resumed.next() {
        rest_from_resumed.push(output);
    }

    assert_eq!(rest_from_driver, rest_from_resumed);
    assert_eq!(rest_from_resumed.len(), 7);
}

#[test]
// Restoring the all-zero position with iteration count zero is a reset.
fn set_index_to_start_restarts() {
    let input = mismatched_input();
    let mut permutator = Permutator::new(&input);
    let (start_iter, start_indexes) = permutator.get_index();
    assert_eq!(start_iter, 0);

    let first = permutator.next().unwrap();
    while let Some(_) = permutator.next() {}

    permutator.set_index(start_iter, start_indexes);
    assert_eq!(permutator.next().unwrap(), first);
}

#[test]
// One printed line: elements joined by spaces, closed by a newline; with
// delimiters off, nothing between the elements.
fn format_combination_lines() {
    let combo = vec!["10", "2", "3"];
    assert_eq!(format_combination(&combo, false), "10 2 3\n");
    assert_eq!(format_combination(&combo, true), "1023\n");

    let single = vec!["only"];
    assert_eq!(format_combination(&single, false), "only\n");
    assert_eq!(format_combination(&single, true), "only\n");
}

#[test]
// A single input list is prepared as the repeated shape and enumerated
// squared against itself.
fn prepare_single_list() {
    let lists: Vec<Vec<String>> = vec![vec!["1".to_string(), "2".to_string(), "3".to_string()]];
    match prepare(&lists) {
        PreparedPermutator::RepeatedShape(mut q) => {
            assert_eq!(q.max_permutations(), 27);
            assert_eq!(q.next().unwrap(), vec!["1", "1", "1"]);
            assert_eq!(q.next().unwrap(), vec!["1", "1", "2"]);
        },
        PreparedPermutator::ListShape(_) => panic!("expected the repeated shape"),
    }
}

#[test]
// Several input lists are prepared as the homogeneous shape.
fn prepare_several_lists() {
    let lists: Vec<Vec<String>> = vec![
        vec!["0".to_string(), "1".to_string()],
        vec!["A".to_string(), "B".to_string()],
    ];
    match prepare(&lists) {
        PreparedPermutator::RepeatedShape(_) => panic!("expected the list shape"),
        PreparedPermutator::ListShape(mut q) => {
            assert_eq!(q.max_permutations(), 4);
            assert_eq!(q.next().unwrap(), vec!["0", "A"]);
            assert_eq!(q.next().unwrap(), vec!["0", "B"]);
            assert_eq!(q.next().unwrap(), vec!["1", "A"]);
            assert_eq!(q.next().unwrap(), vec!["1", "B"]);
            assert!(q.next().is_none());
        },
    }
}
