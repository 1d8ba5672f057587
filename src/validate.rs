use vstd::prelude::*;
use crate::calendar::{
    Date, adjusted_day, calculate_full_year, full_year, is_real_date, separator_rule,
    validate_date, validate_separator,
};
use crate::luhn::{digit_value, is_digit, luhn_check_chars, luhn_sum, luhn_valid, lemma_luhn_sum_prefix};
use crate::parse::{chars_of, parse_id, parsed_of, well_shaped};
use crate::reason::Reason;

verus! {

/// The digits of `s`, in order, with every other character left out.
pub open spec fn digits_of(s: Seq<char>) -> Seq<char>
    decreases s.len(),
{
    if s.len() == 0 {
        Seq::empty()
    } else if is_digit(s.last()) {
        digits_of(s.drop_last()).push(s.last())
    } else {
        digits_of(s.drop_last())
    }
}

/// The last ten digits of `s`, on which the checksum is computed.
pub open spec fn check_digits(s: Seq<char>) -> Seq<char> {
    let d = digits_of(s);
    d.subrange(d.len() - 10, d.len() as int)
}

/// The checksum stage: at least ten digits, whose last ten pass the Luhn check.
pub open spec fn checksum_stage(s: Seq<char>) -> Result<(), Reason> {
    if digits_of(s).len() < 10 {
        Err(Reason::TooFewDigits)
    } else if luhn_valid(check_digits(s)) {
        Ok(())
    } else {
        Err(Reason::InvalidChecksum)
    }
}

/// The birth date that a well-shaped identifier names, once its year is resolved.
pub open spec fn birth_date(s: Seq<char>, year: int) -> Date {
    let p = parsed_of(s);
    Date { year: year as i32, month: p.month, day: adjusted_day(p.day as int) as u32 }
}

/// The verdict on identifier `s` seen from `today`: the first stage that
/// fails gives the reason, and an identifier that passes every stage is valid.
pub open spec fn verdict(s: Seq<char>, today: Date) -> Result<(), Reason> {
    if !well_shaped(s) {
        Err(Reason::MalformedFormat)
    } else {
        let p = parsed_of(s);
        match full_year(p.year_fragment as int, p.four_digit_year, today.year as int) {
            Err(e) => Err(e),
            Ok(y) => if !is_real_date(y, p.month as int, adjusted_day(p.day as int)) {
                Err(Reason::InvalidDate)
            } else {
                match separator_rule(birth_date(s, y), p.separator, today) {
                    Err(e) => Err(e),
                    Ok(_) => checksum_stage(s),
                }
            },
        }
    }
}

/// The digits of `v`, in order.
fn collect_digits(v: &Vec<char>) -> (r: Vec<char>)
    ensures
        r@ == digits_of(v@),
{
    let mut r: Vec<char> = Vec::new();
    let mut i: usize = 0;
    while i < v.len()
        invariant
            i <= v.len(),
            r@ == digits_of(v@.subrange(0, i as int)),
        decreases v.len() - i,
    {
        let c = v[i];
        assert(v@.subrange(0, i + 1).drop_last() == v@.subrange(0, i as int));
        if '0' <= c && c <= '9' {
            r.push(c);
        }
        i = i + 1;
    }
    assert(v@.subrange(0, v@.len() as int) == v@);
    r
}

/// Validates a Swedish personal identity number or coordination number
/// against the reference date `today`.
pub fn validate_swedish_id_with_date(id: &str, today: Date) -> (r: Result<(), Reason>)
    requires
        today.wf(),
    ensures
        r == verdict(id@, today),
{
    let parsed = parse_id(id)?;
    let year = calculate_full_year(parsed.year_fragment, parsed.four_digit_year, &today)?;
    let birthdate = validate_date(year, parsed.month, parsed.day)?;
    assert(birthdate == birth_date(id@, year as int));
    validate_separator(&birthdate, parsed.separator, &today)?;
    let digits = collect_digits(&chars_of(id));
    if digits.len() < 10 {
        return Err(Reason::TooFewDigits);
    }
    if !luhn_check_chars(&digits, digits.len() - 10) {
        return Err(Reason::InvalidChecksum);
    }
    Ok(())
}

/// An identifier of the right shape, whose year resolves, whose date is
/// real, whose separator fits the holder's age and whose last ten digits pass
/// the Luhn check, is valid.
pub proof fn lemma_valid_when_every_stage_passes(s: Seq<char>, today: Date, year: int)
    requires
        today.wf(),
        well_shaped(s),
        full_year(parsed_of(s).year_fragment as int, parsed_of(s).four_digit_year, today.year as int)
            == Ok::<int, Reason>(year),
        is_real_date(year, parsed_of(s).month as int, adjusted_day(parsed_of(s).day as int)),
        separator_rule(birth_date(s, year), parsed_of(s).separator, today) == Ok::<(), Reason>(()),
        digits_of(s).len() >= 10,
        luhn_valid(check_digits(s)),
    ensures
        verdict(s, today) == Ok::<(), Reason>(()),
{
}

/// Changing the last digit of a valid identifier into another digit makes it
/// fail on the checksum, and on nothing before it.
pub proof fn lemma_altered_check_digit(s: Seq<char>, today: Date, c: char)
    requires
        today.wf(),
        verdict(s, today) == Ok::<(), Reason>(()),
        is_digit(c),
        c != s.last(),
    ensures
        verdict(s.update(s.len() - 1, c), today) == Err::<(), Reason>(Reason::InvalidChecksum),
{
    let n = s.len() as int;
    let t = s.update(n - 1, c);
    assert(t.drop_last() == s.drop_last());
    assert(parsed_of(t) == parsed_of(s));
    assert(well_shaped(t));
    let ds = digits_of(s);
    let dt = digits_of(t);
    assert(is_digit(s.last()));
    assert(dt == ds.update(ds.len() - 1, c));
    let a = check_digits(s);
    let b = check_digits(t);
    assert(b == a.update(9, c));
    lemma_luhn_sum_prefix(a, b, 9);
    assert(luhn_sum(a, 10) == luhn_sum(a, 9) + digit_value(s.last()));
    assert(luhn_sum(b, 10) == luhn_sum(a, 9) + digit_value(c));
    assert(luhn_sum(b, 10) % 10 != 0);
}

/// A coordination number (written day from 61 to 91) whose day less 60 is a
/// real day of its month never fails on the date.
pub proof fn lemma_coordination_day_accepted(s: Seq<char>, today: Date, year: int)
    requires
        today.wf(),
        well_shaped(s),
        61 <= parsed_of(s).day <= 91,
        full_year(parsed_of(s).year_fragment as int, parsed_of(s).four_digit_year, today.year as int)
            == Ok::<int, Reason>(year),
        is_real_date(year, parsed_of(s).month as int, parsed_of(s).day - 60),
    ensures
        verdict(s, today) != Err::<(), Reason>(Reason::InvalidDate),
{
}

/// Validating the same identifier against the same reference date twice
/// gives the same verdict.
pub proof fn lemma_validation_deterministic(
    s: Seq<char>,
    today: Date,
    first: Result<(), Reason>,
    second: Result<(), Reason>,
)
    requires
        first == verdict(s, today),
        second == verdict(s, today),
    ensures
        first == second,
{
}

} // verus!
