use personnummer::calendar::{calculate_full_year, validate_date, validate_separator, Date};
use personnummer::luhn::luhn_check;
use personnummer::reason::{Reason, Separator};
use personnummer::validate::validate_swedish_id_with_date;

fn mock_today() -> Date {
    Date::new(2025, 12, 6).unwrap()
}

#[test]
fn test_valid_personnummer() {
    assert!(validate_swedish_id_with_date("19870604-6714", mock_today()).is_ok());
}

#[test]
fn test_invalid_date() {
    assert_eq!(
        validate_swedish_id_with_date("19870230-1234", mock_today()).unwrap_err().message(),
        "Ogiltigt datum"
    );
}

#[test]
fn test_invalid_luhn() {
    assert_eq!(
        validate_swedish_id_with_date("19870604-6715", mock_today()).unwrap_err().message(),
        "Ogiltig kontrollsiffra (Luhn)"
    );
}

// "19231201+1234" passes the separator rule, but its check digit is wrong:
// 2312011234 has Luhn sum 26.
#[test]
fn test_old_person_wrong_separator() {
    assert_eq!(
        validate_swedish_id_with_date("19231201-1234", mock_today()).unwrap_err().message(),
        "Fel separator: '+' krävs för personer 100 år eller äldre"
    );
    let birth = Date::new(1923, 12, 1).unwrap();
    assert_eq!(validate_separator(&birth, Separator::Plus, &mock_today()), Ok(()));
    assert_eq!(
        validate_swedish_id_with_date("19231201+1234", mock_today()),
        Err(Reason::InvalidChecksum)
    );
}

// "20000101-1234" passes the separator rule; 0001011234 has Luhn sum 16.
#[test]
fn test_young_person_wrong_separator() {
    assert_eq!(
        validate_swedish_id_with_date("20000101+1234", mock_today()).unwrap_err().message(),
        "Fel separator: '-' krävs för personer under 100 år"
    );
    let birth = Date::new(2000, 1, 1).unwrap();
    assert_eq!(validate_separator(&birth, Separator::Minus, &mock_today()), Ok(()));
    assert_eq!(validate_separator(&birth, Separator::Empty, &mock_today()), Ok(()));
    assert_eq!(
        validate_swedish_id_with_date("20000101-1234", mock_today()),
        Err(Reason::InvalidChecksum)
    );
}

// Day 64 stands for the 4th; the date stage accepts it, and 8706646714 has
// Luhn sum 43.
#[test]
fn test_coordination_number() {
    assert_eq!(validate_date(1987, 6, 64), Ok(Date::new(1987, 6, 4).unwrap()));
    assert_eq!(
        validate_swedish_id_with_date("19870664-6714", mock_today()),
        Err(Reason::InvalidChecksum)
    );
}

// 2501011232 has Luhn sum 23.
#[test]
fn test_short_year_2000s() {
    assert_eq!(calculate_full_year(25, false, &mock_today()), Ok(2025));
    assert_eq!(
        validate_swedish_id_with_date("250101-1232", mock_today()),
        Err(Reason::InvalidChecksum)
    );
}

// 8701011235 has Luhn sum 31.
#[test]
fn test_short_year_1900s() {
    assert_eq!(calculate_full_year(87, false, &mock_today()), Ok(1987));
    assert_eq!(
        validate_swedish_id_with_date("870101-1235", mock_today()),
        Err(Reason::InvalidChecksum)
    );
}

// Three trailing digits do not make the shape of an identifier.
#[test]
fn test_too_few_digits() {
    assert_eq!(
        validate_swedish_id_with_date("870101-123", mock_today()).unwrap_err().message(),
        "Ogiltigt format"
    );
}

// A letter among the trailing digits breaks the shape.
#[test]
fn test_non_digit_in_luhn() {
    assert_eq!(
        validate_swedish_id_with_date("19870604-67A4", mock_today()).unwrap_err().message(),
        "Ogiltigt format"
    );
    assert!(!luhn_check("87060467A4"));
}

#[test]
fn test_future_year_invalid() {
    assert_eq!(
        validate_swedish_id_with_date("20870604-6714", mock_today()).unwrap_err().message(),
        "Ogiltigt årtal i framtiden"
    );
}
