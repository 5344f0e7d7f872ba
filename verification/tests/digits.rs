//! Decimal printing and parsing, and the URL pieces built from them.

use edmunds::digits::{parse_u64_dec, u64_to_dec};
use edmunds::models::State;
use edmunds::{build_target, equipment_endpoint, models_endpoint, state_param, styles_endpoint};

#[test]
fn prints_decimal_without_leading_zeros() {
    assert_eq!("0", u64_to_dec(0));
    assert_eq!("7", u64_to_dec(7));
    assert_eq!("2015", u64_to_dec(2015));
    assert_eq!("401593354", u64_to_dec(401593354));
    assert_eq!("18446744073709551615", u64_to_dec(u64::MAX));
}

#[test]
fn parses_exactly_the_all_digit_strings_that_fit() {
    assert_eq!(Some(0), parse_u64_dec("0"));
    assert_eq!(Some(2015), parse_u64_dec("2015"));
    assert_eq!(Some(u64::MAX), parse_u64_dec("18446744073709551615"));
    // One past the top: overflow, not a wrapped value.
    assert_eq!(None, parse_u64_dec("18446744073709551616"));
    assert_eq!(None, parse_u64_dec(""));
    assert_eq!(None, parse_u64_dec("12a"));
    assert_eq!(None, parse_u64_dec("-3"));
    assert_eq!(None, parse_u64_dec(" 3"));
}

#[test]
fn state_parameters_are_lowercase_names() {
    assert_eq!("new", state_param(State::New));
    assert_eq!("used", state_param(State::Used));
    assert_eq!("future", state_param(State::Future));
}

#[test]
fn endpoints_and_target_compose_exactly() {
    assert_eq!("/api/vehicle/v2/bmw/models", models_endpoint("bmw"));
    assert_eq!(
        "/api/vehicle/v2/alfa-romeo/4c/2015/styles",
        styles_endpoint("alfa-romeo", "4c", 2015)
    );
    assert_eq!("/api/vehicle/v2/styles/401593354/equipment", equipment_endpoint(401593354));
    assert_eq!(
        "/api/vehicle/v2/makes?fmt=json&api_key=k&state=new",
        build_target("/api/vehicle/v2/makes", "k", "state=new")
    );
}
