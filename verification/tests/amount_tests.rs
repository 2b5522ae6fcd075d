use fvm_shared::bigint::BigInt;
use fvm_shared::bigint::Sign;
use fvm_shared::error::ExitCode;
use token_ledger::amount::TokenAmount;
use token_ledger::error::map_failure;
use token_ledger::error::ActorError;
use token_ledger::error::MapError;

fn big(amount: &TokenAmount) -> BigInt {
    let sign = if amount.negative { Sign::Minus } else { Sign::Plus };
    BigInt::from_bytes_be(sign, &amount.magnitude)
}

#[test]
fn zero_is_zero() {
    let zero = TokenAmount::zero();
    assert_eq!(big(&zero), BigInt::from(0));
    assert!(!zero.is_negative());
    assert!(zero.same_value(&TokenAmount::from_u64(0)));
}

#[test]
fn from_u64_holds_the_value() {
    assert_eq!(big(&TokenAmount::from_u64(1000)), BigInt::from(1000u64));
    assert_eq!(big(&TokenAmount::from_u64(u64::MAX)), BigInt::from(u64::MAX));
    assert_eq!(TokenAmount::from_u64(258).magnitude, vec![1, 2]);
    assert!(!TokenAmount::from_u64(258).negative);
}

#[test]
fn plus_adds() {
    let sum = TokenAmount::from_u64(60).plus(&TokenAmount::from_u64(40));
    assert!(sum.same_value(&TokenAmount::from_u64(100)));
    assert_eq!(big(&sum), BigInt::from(100));
}

#[test]
fn plus_carries_beyond_sixty_four_bits() {
    let sum = TokenAmount::from_u64(u64::MAX).plus(&TokenAmount::from_u64(1));
    let two_to_64 = TokenAmount { negative: false, magnitude: vec![1, 0, 0, 0, 0, 0, 0, 0, 0] };
    assert!(sum.same_value(&two_to_64));
    assert_eq!(big(&sum), BigInt::from(u64::MAX) + BigInt::from(1));
}

#[test]
fn minus_subtracts() {
    let difference = TokenAmount::from_u64(100).minus(&TokenAmount::from_u64(40));
    assert!(difference.same_value(&TokenAmount::from_u64(60)));
    assert!(!difference.same_value(&TokenAmount::from_u64(100)));
}

#[test]
fn minus_goes_below_zero() {
    let difference = TokenAmount::from_u64(40).minus(&TokenAmount::from_u64(100));
    assert!(difference.is_negative());
    assert_eq!(big(&difference), BigInt::from(-60));
    assert!(difference.same_value(&TokenAmount::from_u64(60).negated()));
}

#[test]
fn less_than_orders_amounts() {
    let small = TokenAmount::from_u64(39);
    let large = TokenAmount::from_u64(40);
    assert!(small.less_than(&large));
    assert!(!large.less_than(&small));
    assert!(!large.less_than(&large));
    assert!(large.negated().less_than(&small.negated()));
    assert!(small.negated().less_than(&TokenAmount::zero()));
}

#[test]
fn negated_flips_the_sign() {
    let five = TokenAmount::from_u64(5);
    let minus_five = five.negated();
    assert!(minus_five.is_negative());
    assert_eq!(big(&minus_five), BigInt::from(-5));
    assert!(minus_five.negated().same_value(&five));
    assert!(five.plus(&minus_five).same_value(&TokenAmount::zero()));
}

#[test]
fn one_number_in_several_forms() {
    let plain = TokenAmount { negative: false, magnitude: vec![7] };
    let padded = TokenAmount { negative: false, magnitude: vec![0, 0, 7] };
    let negative_zero = TokenAmount { negative: true, magnitude: vec![0] };
    assert!(plain.same_value(&padded));
    assert!(negative_zero.same_value(&TokenAmount::zero()));
    assert!(!negative_zero.is_negative());
    assert!(padded.plus(&negative_zero).same_value(&TokenAmount::from_u64(7)));
}

#[test]
fn clone_keeps_the_value() {
    let amount = TokenAmount::from_u64(123_456_789).negated();
    let copy = amount.clone();
    assert!(copy.same_value(&amount));
    assert_eq!(copy.negative, amount.negative);
    assert_eq!(copy.magnitude, amount.magnitude);
}

#[test]
fn exit_codes_are_those_of_the_host() {
    assert_eq!(ActorError::InvalidArgument.exit_code(), 16);
    assert_eq!(ActorError::Forbidden.exit_code(), 18);
    assert_eq!(ActorError::InsufficientFunds.exit_code(), 19);
    assert_eq!(ActorError::IllegalState.exit_code(), 20);
    assert_eq!(ActorError::SerializationError.exit_code(), 21);
    assert_eq!(ActorError::UnhandledMethod.exit_code(), 22);
    assert_eq!(ActorError::InsufficientSupplyCap.exit_code(), 32);
}

#[test]
fn exit_codes_match_the_shared_constants() {
    assert_eq!(ActorError::InvalidArgument.exit_code(), ExitCode::USR_ILLEGAL_ARGUMENT.value());
    assert_eq!(ActorError::Forbidden.exit_code(), ExitCode::USR_FORBIDDEN.value());
    assert_eq!(ActorError::InsufficientFunds.exit_code(), ExitCode::USR_INSUFFICIENT_FUNDS.value());
    assert_eq!(ActorError::IllegalState.exit_code(), ExitCode::USR_ILLEGAL_STATE.value());
    assert_eq!(ActorError::SerializationError.exit_code(), ExitCode::USR_SERIALIZATION.value());
    assert_eq!(ActorError::UnhandledMethod.exit_code(), ExitCode::USR_UNHANDLED_MESSAGE.value());
}

#[test]
fn map_failures_are_illegal_states() {
    assert_eq!(map_failure(MapError::StateCorruption), ActorError::IllegalState);
    assert_eq!(map_failure(MapError::StorageWriteError), ActorError::IllegalState);
}

#[test]
fn is_storable_draws_the_line_at_127_bytes() {
    assert!(TokenAmount::zero().is_storable());
    assert!(TokenAmount::from_u64(u64::MAX).is_storable());
    assert!(TokenAmount { negative: false, magnitude: vec![0xff; 127] }.is_storable());
    assert!(TokenAmount { negative: true, magnitude: vec![0xff; 127] }.is_storable());
    let mut over = vec![0u8; 128];
    over[0] = 1;
    assert!(!TokenAmount { negative: false, magnitude: over.clone() }.is_storable());
    assert!(!TokenAmount { negative: true, magnitude: over }.is_storable());
    let mut padded = vec![0u8; 300];
    padded[299] = 7;
    assert!(TokenAmount { negative: false, magnitude: padded }.is_storable());
}
