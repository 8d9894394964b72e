use blockchain::pow::{gap, meets_target, proof_accepted, square_wrapping, to_be_bytes};
use blockchain::Blockchain;

#[test]
fn square_wrapping_without_overflow() {
    assert_eq!(square_wrapping(0), 0);
    assert_eq!(square_wrapping(1), 1);
    assert_eq!(square_wrapping(12), 144);
    assert_eq!(square_wrapping(4_294_967_295), 18_446_744_065_119_617_025);
}

#[test]
fn square_wrapping_wraps_at_64_bits() {
    assert_eq!(square_wrapping(4_294_967_296), 0);
    assert_eq!(square_wrapping(4_294_967_297), 8_589_934_593);
    assert_eq!(square_wrapping(u64::MAX), 1);
}

#[test]
fn gap_of_small_proofs() {
    assert_eq!(gap(1, 2), 3);
    assert_eq!(gap(3, 5), 16);
    assert_eq!(gap(7, 7), 0);
}

#[test]
fn gap_wraps_below_zero() {
    assert_eq!(gap(2, 1), 18_446_744_073_709_551_613);
    assert_eq!(gap(1, 0), u64::MAX);
}

#[test]
fn gap_wraps_squares() {
    assert_eq!(gap(0, 4_294_967_296), 0);
    assert_eq!(gap(u64::MAX, 1), 0);
    assert_eq!(gap(4_294_967_296, 3), 9);
}

#[test]
fn gap_agrees_with_wrapping_operations() {
    for (previous, candidate) in [(1u64, 56_330u64), (56_330, 12_713), (u64::MAX, 2), (0, u64::MAX)] {
        let expected = candidate.wrapping_pow(2).wrapping_sub(previous.wrapping_pow(2));
        assert_eq!(gap(previous, candidate), expected);
    }
}

#[test]
fn to_be_bytes_puts_most_significant_first() {
    assert_eq!(to_be_bytes(0x0102_0304_0506_0708), [1, 2, 3, 4, 5, 6, 7, 8]);
    assert_eq!(to_be_bytes(0), [0; 8]);
    assert_eq!(to_be_bytes(3), [0, 0, 0, 0, 0, 0, 0, 3]);
    assert_eq!(to_be_bytes(u64::MAX), [0xff; 8]);
}

#[test]
fn to_be_bytes_agrees_with_std() {
    for x in [1u64, 255, 256, 65_535, 0xdead_beef, 0x8000_0000_0000_0000, 3_173_068_899] {
        assert_eq!(to_be_bytes(x), x.to_be_bytes());
    }
}

#[test]
fn meets_target_needs_two_zero_bytes() {
    let mut digest = [0xffu8; 32];
    assert!(!meets_target(&digest));
    digest[0] = 0;
    assert!(!meets_target(&digest));
    digest[1] = 0x0f;
    assert!(!meets_target(&digest));
    digest[1] = 0xf0;
    assert!(!meets_target(&digest));
    digest[1] = 0;
    assert!(meets_target(&digest));
    digest[0] = 0x10;
    assert!(!meets_target(&digest));
}

#[test]
fn meets_target_ignores_the_rest() {
    assert!(meets_target(&[0u8; 32]));
    let mut digest = [0u8; 32];
    digest[2] = 0xc6;
    digest[31] = 0xfe;
    assert!(meets_target(&digest));
}

#[test]
fn proof_accepted_on_known_pairs() {
    assert!(proof_accepted(1, 56_330));
    assert!(proof_accepted(56_330, 12_713));
    assert!(proof_accepted(0, 50_153));
    assert!(proof_accepted(2, 6_760));
    assert!(proof_accepted(u64::MAX, 56_330));
}

#[test]
fn proof_accepted_rejects_known_pairs() {
    assert!(!proof_accepted(1, 2));
    assert!(!proof_accepted(1, 1));
    assert!(!proof_accepted(1, 56_329));
    assert!(!proof_accepted(1, 56_331));
    assert!(!proof_accepted(56_330, 1));
}

#[test]
fn proof_of_work_after_genesis_proof() {
    let chain = Blockchain::new();
    assert_eq!(chain.proof_of_work(1), Some(56_330));
}

#[test]
fn proof_of_work_on_more_proofs() {
    let chain = Blockchain::new();
    assert_eq!(chain.proof_of_work(0), Some(50_153));
    assert_eq!(chain.proof_of_work(2), Some(6_760));
    assert_eq!(chain.proof_of_work(56_330), Some(12_713));
}

#[test]
fn proof_of_work_wraps_the_previous_square() {
    // The square of u64::MAX wraps to 1, so the search goes as after 1.
    let chain = Blockchain::new();
    assert_eq!(chain.proof_of_work(u64::MAX), Some(56_330));
}

#[test]
fn proof_of_work_gives_the_least_candidate() {
    let chain = Blockchain::new();
    let found = chain.proof_of_work(2).unwrap();
    assert!(found >= 1);
    assert!(proof_accepted(2, found));
    for smaller in 1..found {
        assert!(!proof_accepted(2, smaller));
    }
}

#[test]
fn proof_of_work_is_repeatable() {
    let chain = Blockchain::new();
    let first = chain.proof_of_work(533);
    let second = chain.proof_of_work(533);
    assert_eq!(first, Some(33_868));
    assert_eq!(first, second);
}
