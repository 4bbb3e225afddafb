use inputgen::Error;
use inputgen::Generator;
use inputgen::Rand;
use inputgen::RandBytesGenerator;
use inputgen::RandPrintablesGenerator;
use inputgen::StepRand;

const ALPHABET: &[u8] =
    b"0123456789ABCDEFGHIJKLMNOPQRSTUVWXYZabcdefghijklmnopqrstuvwxyz \t\n!\"#$%&'()*+,-./:;<=>?@[\\]^_`{|}~";

#[test]
fn step_rand_draws_state_below_bound_and_advances() {
    let mut rand = StepRand::new(10, 7);
    assert_eq!(rand.below(8), 2);
    assert_eq!(rand.below(8), 1);
    assert_eq!(rand.below(100), 24);
    let mut constant = StepRand::new(5, 0);
    assert_eq!(constant.below(3), 2);
    assert_eq!(constant.below(3), 2);
}

#[test]
fn generate_length_stays_in_range() {
    let mut rand = StepRand::new(3, 11);
    let mut bytes_gen = RandBytesGenerator::<StepRand>::new(10);
    let mut printables_gen = RandPrintablesGenerator::<StepRand>::new(10);
    for _ in 0..50 {
        let input = bytes_gen.generate(&mut rand).unwrap();
        assert!(1 <= input.len() && input.len() < 10);
        let input = printables_gen.generate(&mut rand).unwrap();
        assert!(1 <= input.len() && input.len() < 10);
    }
}

#[test]
fn generate_with_bound_one_yields_length_one() {
    let mut rand = StepRand::new(42, 13);
    let mut bytes_gen = RandBytesGenerator::<StepRand>::new(1);
    let mut printables_gen = RandPrintablesGenerator::<StepRand>::new(1);
    for _ in 0..20 {
        assert_eq!(bytes_gen.generate(&mut rand).unwrap().len(), 1);
        assert_eq!(printables_gen.generate(&mut rand).unwrap().len(), 1);
    }
}

#[test]
fn generated_bytes_follow_the_draws() {
    // With state 0 and step 1, the length draw below 10 yields 0, forced up
    // to 1, and the single content draw below 256 then yields 1.
    let mut rand = StepRand::new(0, 1);
    let mut bytes_gen = RandBytesGenerator::<StepRand>::new(10);
    let input = bytes_gen.generate(&mut rand).unwrap();
    assert_eq!(input.bytes(), &vec![1u8]);
}

#[test]
fn printable_bytes_stay_in_the_alphabet() {
    let mut rand = StepRand::new(17, 31);
    let mut printables_gen = RandPrintablesGenerator::<StepRand>::new(20);
    for _ in 0..50 {
        let input = printables_gen.generate(&mut rand).unwrap();
        for byte in input.bytes() {
            assert!(ALPHABET.contains(byte));
        }
    }
}

#[test]
fn printable_picks_walk_the_whole_alphabet() {
    // With a bound of one the length draw is forced to 1, and a constant
    // source starting at `s` then picks the element at index `s % 97`; over
    // all starts the generator spells out the alphabet in order.
    let mut collected: Vec<u8> = Vec::new();
    for s in 0..97u64 {
        let mut rand = StepRand::new(s, 0);
        let mut printables_gen = RandPrintablesGenerator::<StepRand>::new(1);
        let input = printables_gen.generate(&mut rand).unwrap();
        assert_eq!(input.len(), 1);
        collected.push(input.bytes()[0]);
    }
    assert_eq!(collected.as_slice(), ALPHABET);
}

#[test]
fn zero_draw_source_yields_single_first_elements() {
    let mut rand = StepRand::new(0, 0);
    let mut bytes_gen = RandBytesGenerator::<StepRand>::new(10);
    let input = bytes_gen.generate(&mut rand).unwrap();
    assert_eq!(input.bytes(), &vec![0u8]);
    let mut printables_gen = RandPrintablesGenerator::<StepRand>::new(10);
    let input = printables_gen.generate(&mut rand).unwrap();
    assert_eq!(input.bytes(), &vec![b'0']);
}

#[test]
fn dummy_length_is_the_bound_when_small() {
    let bytes_gen = RandBytesGenerator::<StepRand>::new(5);
    assert_eq!(bytes_gen.generate_dummy().bytes(), &vec![0u8; 5]);
    let printables_gen = RandPrintablesGenerator::<StepRand>::new(5);
    assert_eq!(printables_gen.generate_dummy().bytes(), &vec![0u8; 5]);
}

#[test]
fn dummy_length_is_capped_at_sixty_four() {
    let bytes_gen = RandBytesGenerator::<StepRand>::new(1000);
    assert_eq!(bytes_gen.generate_dummy().bytes(), &vec![0u8; 64]);
    let printables_gen = RandPrintablesGenerator::<StepRand>::new(1000);
    assert_eq!(printables_gen.generate_dummy().bytes(), &vec![0u8; 64]);
    let at_cap = RandBytesGenerator::<StepRand>::new(64);
    assert_eq!(at_cap.generate_dummy().len(), 64);
    let below_cap = RandBytesGenerator::<StepRand>::new(63);
    assert_eq!(below_cap.generate_dummy().len(), 63);
    let above_cap = RandPrintablesGenerator::<StepRand>::new(65);
    assert_eq!(above_cap.generate_dummy().len(), 64);
}

#[test]
fn dummy_is_deterministic_across_calls_and_variants() {
    let bytes_gen = RandBytesGenerator::<StepRand>::new(30);
    let first = bytes_gen.generate_dummy();
    let second = bytes_gen.generate_dummy();
    assert_eq!(first.bytes(), second.bytes());
    let printables_gen = RandPrintablesGenerator::<StepRand>::new(30);
    assert_eq!(printables_gen.generate_dummy().bytes(), first.bytes());
}

#[test]
fn zero_bound_is_a_configuration_error() {
    let mut rand = StepRand::new(9, 2);
    let mut bytes_gen = RandBytesGenerator::<StepRand>::new(0);
    assert_eq!(bytes_gen.generate(&mut rand), Err(Error::Configuration));
    let mut printables_gen = RandPrintablesGenerator::<StepRand>::new(0);
    assert_eq!(printables_gen.generate(&mut rand), Err(Error::Configuration));
}

#[test]
fn zero_bound_dummy_still_succeeds_and_is_empty() {
    let bytes_gen = RandBytesGenerator::<StepRand>::new(0);
    assert_eq!(bytes_gen.generate_dummy().len(), 0);
    let printables_gen = RandPrintablesGenerator::<StepRand>::new(0);
    assert_eq!(printables_gen.generate_dummy().len(), 0);
}

#[test]
fn generate_succeeds_for_every_positive_bound() {
    let mut rand = StepRand::new(1, 19);
    for max_size in 1..20usize {
        let mut bytes_gen = RandBytesGenerator::<StepRand>::new(max_size);
        assert!(bytes_gen.generate(&mut rand).is_ok());
        let mut printables_gen = RandPrintablesGenerator::<StepRand>::new(max_size);
        assert!(printables_gen.generate(&mut rand).is_ok());
    }
}

#[test]
fn cloned_generators_share_their_configuration() {
    let bytes_gen = RandBytesGenerator::<StepRand>::new(7);
    let cloned = bytes_gen.clone();
    assert_eq!(cloned.generate_dummy().len(), 7);
    let printables_gen = RandPrintablesGenerator::<StepRand>::new(70);
    let cloned = printables_gen.clone();
    assert_eq!(cloned.generate_dummy().len(), 64);
}
