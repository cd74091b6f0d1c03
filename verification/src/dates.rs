//! Upload dates: an 8-digit `YYYYMMDD` source field becomes an
//! "Uploaded on YYYY/MM/DD" footer line, and invalid or partial dates
//! are silently omitted rather than reported.

use vstd::prelude::*;
use vstd::string::*;

verus! {

use crate::text::spec_all_digits;
use crate::text::spec_digits_value;
use crate::text::digits_value;

/// The proleptic-Gregorian leap-year rule.
pub open spec fn spec_is_leap_year(y: nat) -> bool {
    (y % 4 == 0 && y % 100 != 0) || y % 400 == 0
}

pub open spec fn spec_days_in_month(y: nat, m: nat) -> nat
    recommends
        1 <= m <= 12,
{
    if m == 2 {
        if spec_is_leap_year(y) {
            29
        } else {
            28
        }
    } else if m == 4 || m == 6 || m == 9 || m == 11 {
        30
    } else {
        31
    }
}

/// Whether year `y`, month `m`, day `d` name a day of the proleptic
/// Gregorian calendar.
pub open spec fn spec_valid_ymd(y: nat, m: nat, d: nat) -> bool {
    &&& 1 <= m <= 12
    &&& 1 <= d <= spec_days_in_month(y, m)
}

/// Relies on chrono's `NaiveDate::from_ymd_opt`, which returns `Some`
/// exactly on valid proleptic-Gregorian calendar dates within chrono's
/// supported year range; that range contains every four-digit year.
#[verifier::external_body]
fn ymd_in_calendar(y: u32, m: u32, d: u32) -> (r: bool)
    requires
        y <= 9999,
    ensures
        r == spec_valid_ymd(y as nat, m as nat, d as nat),
{
    chrono::NaiveDate::from_ymd_opt(y as i32, m, d).is_some()
}

/// An upload-date field is usable when it is exactly 8 digits and those
/// digits name a valid calendar day.
pub open spec fn spec_date_ok(date: Seq<char>) -> bool {
    &&& date.len() == 8
    &&& spec_all_digits(date)
    &&& spec_valid_ymd(
        spec_digits_value(date.subrange(0, 4)),
        spec_digits_value(date.subrange(4, 6)),
        spec_digits_value(date.subrange(6, 8)),
    )
}

/// The footer line rendered for a usable 8-digit date.
pub open spec fn spec_upload_footer(date: Seq<char>) -> Seq<char> {
    "Uploaded on "@ + date.subrange(0, 4) + "/"@ + date.subrange(4, 6) + "/"@ + date.subrange(6, 8)
}

/// Derives the optional upload-date footer from a raw source date field:
/// `Some("Uploaded on YYYY/MM/DD")` when the field is a usable 8-digit
/// date, `None` (silently, not an error) otherwise.
pub fn upload_date_footer(date: &str) -> (r: Option<String>)
    ensures
        spec_date_ok(date@) ==> (r matches Some(s) && s@ == spec_upload_footer(date@)),
        !spec_date_ok(date@) ==> r is None,
{
    let n = date.unicode_len();
    if n != 8 {
        return None;
    }
    let y = match digits_value(date, 0, 4) {
        Some(v) => v,
        None => {
            return None;
        },
    };
    let m = match digits_value(date, 4, 6) {
        Some(v) => v,
        None => {
            return None;
        },
    };
    let d = match digits_value(date, 6, 8) {
        Some(v) => v,
        None => {
            return None;
        },
    };
    proof {
        crate::text::lemma_digits_value_bound(date@.subrange(0, 4));
        assert(crate::text::pow10(0) == 1);
        assert(crate::text::pow10(1) == 10);
        assert(crate::text::pow10(2) == 100);
        assert(crate::text::pow10(3) == 1000);
        assert(crate::text::pow10(4) == 10000);
        assert(spec_all_digits(date@) <==> (spec_all_digits(date@.subrange(0, 4))
            && spec_all_digits(date@.subrange(4, 6)) && spec_all_digits(date@.subrange(6, 8))))
            by {
            if spec_all_digits(date@.subrange(0, 4)) && spec_all_digits(date@.subrange(4, 6))
                && spec_all_digits(date@.subrange(6, 8)) {
                assert forall|i: int| 0 <= i < date@.len() implies crate::text::spec_is_digit(
                    #[trigger] date@[i],
                ) by {
                    if i < 4 {
                        assert(date@.subrange(0, 4)[i] == date@[i]);
                    } else if i < 6 {
                        assert(date@.subrange(4, 6)[i - 4] == date@[i]);
                    } else {
                        assert(date@.subrange(6, 8)[i - 6] == date@[i]);
                    }
                }
            }
        };
    }
    if !ymd_in_calendar(y, m, d) {
        return None;
    }
    let mut s = String::from_str("Uploaded on ");
    s.append(date.substring_char(0, 4));
    s.append("/");
    s.append(date.substring_char(4, 6));
    s.append("/");
    s.append(date.substring_char(6, 8));
    proof {
        assert(s@ =~= spec_upload_footer(date@));
    }
    Some(s)
}

} // verus!
