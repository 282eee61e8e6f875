use campaign_service::service::receipt;
use campaign_service::text::append_decimal;
use campaign_service::Error;

fn to_decimal(n: u64) -> String {
    let mut text = String::new();
    append_decimal(&mut text, n);
    text
}

#[test]
fn decimal_numerals() {
    assert_eq!(to_decimal(0), "0");
    assert_eq!(to_decimal(7), "7");
    assert_eq!(to_decimal(10), "10");
    assert_eq!(to_decimal(1024), "1024");
    assert_eq!(to_decimal(9_007_199_254_740_993), "9007199254740993");
    assert_eq!(to_decimal(u64::MAX), "18446744073709551615");
    for n in [0u64, 9, 10, 99, 100, 101, 12345, 1 << 40] {
        assert_eq!(to_decimal(n), n.to_string());
    }
}

#[test]
fn decimal_is_appended_to_what_is_there() {
    let mut text = String::from("id=");
    append_decimal(&mut text, 305);
    append_decimal(&mut text, 0);
    assert_eq!(text, "id=3050");
}

#[test]
fn rejection_messages() {
    let not_found = Error::not_found(99);
    assert_eq!(not_found, Error::NotFound { msg: "Campaign with id=99 not found".to_string() });
    assert_eq!(not_found.message(), "Campaign with id=99 not found");
    assert_eq!(
        Error::over_goal(),
        Error::NotEnoughFunds { msg: "Donation exceeds the campaign goal".to_string() }
    );
    assert_eq!(
        Error::size_exceeded(),
        Error::SizeExceeded { msg: "Campaign data exceeds the max size of 1024".to_string() }
    );
    assert_eq!(
        Error::not_found(u64::MAX).message(),
        "Campaign with id=18446744073709551615 not found"
    );
}

#[test]
fn receipt_names_amount_and_campaign() {
    assert_eq!(receipt(400, 1), "Donation of 400 accepted to campaign 1");
    assert_eq!(receipt(0, 20), "Donation of 0 accepted to campaign 20");
}
