use ec_engine::median::{
    input_at, median, training_cases, training_inputs, INPUT_SPAN, MAX_INPUT, MIN_INPUT,
};

#[test]
fn median_is_the_middle_of_three() {
    assert_eq!(median((1, 2, 3)), 2);
    assert_eq!(median((3, 1, 2)), 2);
    assert_eq!(median((2, 3, 1)), 2);
    assert_eq!(median((5, 5, -7)), 5);
    assert_eq!(median((-7, 5, 5)), 5);
    assert_eq!(median((-100, 100, 0)), 0);
    assert_eq!(median((i8::MIN, i8::MAX, i8::MIN)), i8::MIN);
    for x in -3i8..=3 {
        for y in -3i8..=3 {
            for z in -3i8..=3 {
                let mut sorted = [x, y, z];
                sorted.sort();
                assert_eq!(median((x, y, z)), sorted[1]);
            }
        }
    }
}

#[test]
fn training_cases_pair_inputs_in_range_with_their_median() {
    let mut rng = rand::thread_rng();
    let cases = training_cases(200, &mut rng);
    assert_eq!(cases.len(), 200);
    for ((x, y, z), expected) in cases {
        for input in [x, y, z] {
            assert!(MIN_INPUT <= input && input <= MAX_INPUT);
        }
        let mut sorted = [x, y, z];
        sorted.sort();
        assert_eq!(expected, sorted[1]);
    }
    assert!(training_cases(0, &mut rng).is_empty());
    let inputs = training_inputs(300, &mut rng);
    assert_eq!(inputs.len(), 300);
    assert!(inputs.iter().any(|(x, _, _)| *x < 0));
    assert!(inputs.iter().any(|(x, _, _)| *x > 0));
}

#[test]
fn an_offset_becomes_the_input_that_far_above_the_least() {
    assert_eq!(input_at(0), MIN_INPUT);
    assert_eq!(input_at(1), -99);
    assert_eq!(input_at(100), 0);
    assert_eq!(input_at(INPUT_SPAN - 1), MAX_INPUT);
    let all: Vec<i8> = (0..INPUT_SPAN).map(input_at).collect();
    assert_eq!(all, (MIN_INPUT..=MAX_INPUT).collect::<Vec<i8>>());
}
