use vstd::prelude::*;

use crate::calc::{digits_end, digits_val, is_digit, max_digits, pow10, scan_digits, digits_value,
    lem_digits_all, lem_pow10_pos};
use crate::rat::{
    rat_add, rat_div, rat_mk_i128, rat_mul, rat_sub, rat_wf, spec_add, spec_div, spec_mk,
    spec_mul, spec_sub, Rat,
};
use crate::strings::{
    chars_eq, chars_to_string, is_space, lower_seq, skip_ws, skip_ws_idx, subvec, to_chars,
    to_lower_chars,
};
use crate::format::{format_rat, spec_format_rat};
use crate::item::{Item, ItemType};

verus! {

// ---------------------------------------------------------------------------
// Unit tables: each maps a synonym to the factor that takes one such unit
// to the table's base unit (metres, grams, seconds, bytes).  Temperature is
// non-linear and handled by its own three-way formulas.
// ---------------------------------------------------------------------------

/// Metres per unit, for each length synonym.
pub open spec fn length_factor(u: Seq<char>) -> Option<Rat> {
    if u == seq!['m'] || u == seq!['m', 'e', 't', 'e', 'r'] || u == seq!['m', 'e', 't', 'e', 'r', 's'] {
        Some(Rat { num: 1, den: 1 })
    } else if u == seq!['k', 'm'] || u == seq!['k', 'i', 'l', 'o', 'm', 'e', 't', 'e', 'r'] || u == seq!['k', 'i', 'l', 'o', 'm', 'e', 't', 'e', 'r', 's'] {
        Some(Rat { num: 1000, den: 1 })
    } else if u == seq!['c', 'm'] || u == seq!['c', 'e', 'n', 't', 'i', 'm', 'e', 't', 'e', 'r'] || u == seq!['c', 'e', 'n', 't', 'i', 'm', 'e', 't', 'e', 'r', 's'] {
        Some(Rat { num: 1, den: 100 })
    } else if u == seq!['m', 'm'] || u == seq!['m', 'i', 'l', 'l', 'i', 'm', 'e', 't', 'e', 'r'] || u == seq!['m', 'i', 'l', 'l', 'i', 'm', 'e', 't', 'e', 'r', 's'] {
        Some(Rat { num: 1, den: 1000 })
    } else if u == seq!['m', 'i'] || u == seq!['m', 'i', 'l', 'e'] || u == seq!['m', 'i', 'l', 'e', 's'] {
        Some(Rat { num: 201168, den: 125 })
    } else if u == seq!['f', 't'] || u == seq!['f', 'o', 'o', 't'] || u == seq!['f', 'e', 'e', 't'] {
        Some(Rat { num: 381, den: 1250 })
    } else if u == seq!['i', 'n'] || u == seq!['i', 'n', 'c', 'h'] || u == seq!['i', 'n', 'c', 'h', 'e', 's'] {
        Some(Rat { num: 127, den: 5000 })
    } else if u == seq!['y', 'd'] || u == seq!['y', 'a', 'r', 'd'] || u == seq!['y', 'a', 'r', 'd', 's'] {
        Some(Rat { num: 1143, den: 1250 })
    } else {
        None
    }
}

/// Grams per unit, for each weight synonym.
pub open spec fn weight_factor(u: Seq<char>) -> Option<Rat> {
    if u == seq!['g'] || u == seq!['g', 'r', 'a', 'm'] || u == seq!['g', 'r', 'a', 'm', 's'] {
        Some(Rat { num: 1, den: 1 })
    } else if u == seq!['k', 'g'] || u == seq!['k', 'i', 'l', 'o', 'g', 'r', 'a', 'm'] || u == seq!['k', 'i', 'l', 'o', 'g', 'r', 'a', 'm', 's'] {
        Some(Rat { num: 1000, den: 1 })
    } else if u == seq!['m', 'g'] || u == seq!['m', 'i', 'l', 'l', 'i', 'g', 'r', 'a', 'm'] || u == seq!['m', 'i', 'l', 'l', 'i', 'g', 'r', 'a', 'm', 's'] {
        Some(Rat { num: 1, den: 1000 })
    } else if u == seq!['l', 'b'] || u == seq!['l', 'b', 's'] || u == seq!['p', 'o', 'u', 'n', 'd'] || u == seq!['p', 'o', 'u', 'n', 'd', 's'] {
        Some(Rat { num: 56699, den: 125 })
    } else if u == seq!['o', 'z'] || u == seq!['o', 'u', 'n', 'c', 'e'] || u == seq!['o', 'u', 'n', 'c', 'e', 's'] {
        Some(Rat { num: 56699, den: 2000 })
    } else if u == seq!['t'] || u == seq!['t', 'o', 'n'] || u == seq!['t', 'o', 'n', 's'] {
        Some(Rat { num: 1000000, den: 1 })
    } else {
        None
    }
}

/// Seconds per unit, for each time synonym.
pub open spec fn time_factor(u: Seq<char>) -> Option<Rat> {
    if u == seq!['s'] || u == seq!['s', 'e', 'c'] || u == seq!['s', 'e', 'c', 'o', 'n', 'd'] || u == seq!['s', 'e', 'c', 'o', 'n', 'd', 's'] {
        Some(Rat { num: 1, den: 1 })
    } else if u == seq!['m', 's'] || u == seq!['m', 'i', 'l', 'l', 'i', 's', 'e', 'c', 'o', 'n', 'd'] || u == seq!['m', 'i', 'l', 'l', 'i', 's', 'e', 'c', 'o', 'n', 'd', 's'] {
        Some(Rat { num: 1, den: 1000 })
    } else if u == seq!['m', 'i', 'n'] || u == seq!['m', 'i', 'n', 'u', 't', 'e'] || u == seq!['m', 'i', 'n', 'u', 't', 'e', 's'] {
        Some(Rat { num: 60, den: 1 })
    } else if u == seq!['h'] || u == seq!['h', 'r'] || u == seq!['h', 'o', 'u', 'r'] || u == seq!['h', 'o', 'u', 'r', 's'] {
        Some(Rat { num: 3600, den: 1 })
    } else if u == seq!['d'] || u == seq!['d', 'a', 'y'] || u == seq!['d', 'a', 'y', 's'] {
        Some(Rat { num: 86400, den: 1 })
    } else if u == seq!['w'] || u == seq!['w', 'e', 'e', 'k'] || u == seq!['w', 'e', 'e', 'k', 's'] {
        Some(Rat { num: 604800, den: 1 })
    } else if u == seq!['y'] || u == seq!['y', 'e', 'a', 'r'] || u == seq!['y', 'e', 'a', 'r', 's'] {
        Some(Rat { num: 31536000, den: 1 })
    } else {
        None
    }
}

/// Bytes per unit, for each data synonym (1024-based).
pub open spec fn data_factor(u: Seq<char>) -> Option<Rat> {
    if u == seq!['b'] || u == seq!['b', 'y', 't', 'e'] || u == seq!['b', 'y', 't', 'e', 's'] {
        Some(Rat { num: 1, den: 1 })
    } else if u == seq!['k', 'b'] || u == seq!['k', 'i', 'l', 'o', 'b', 'y', 't', 'e'] || u == seq!['k', 'i', 'l', 'o', 'b', 'y', 't', 'e', 's'] {
        Some(Rat { num: 1024, den: 1 })
    } else if u == seq!['m', 'b'] || u == seq!['m', 'e', 'g', 'a', 'b', 'y', 't', 'e'] || u == seq!['m', 'e', 'g', 'a', 'b', 'y', 't', 'e', 's'] {
        Some(Rat { num: 1048576, den: 1 })
    } else if u == seq!['g', 'b'] || u == seq!['g', 'i', 'g', 'a', 'b', 'y', 't', 'e'] || u == seq!['g', 'i', 'g', 'a', 'b', 'y', 't', 'e', 's'] {
        Some(Rat { num: 1073741824, den: 1 })
    } else if u == seq!['t', 'b'] || u == seq!['t', 'e', 'r', 'a', 'b', 'y', 't', 'e'] || u == seq!['t', 'e', 'r', 'a', 'b', 'y', 't', 'e', 's'] {
        Some(Rat { num: 1099511627776, den: 1 })
    } else {
        None
    }
}

/// The temperature unit names.
pub open spec fn is_temp_unit(u: Seq<char>) -> bool {
    u == seq!['c'] || u == seq!['c', 'e', 'l', 's', 'i', 'u', 's'] || u == seq!['f'] || u == seq!['f', 'a', 'h', 'r', 'e', 'n', 'h', 'e', 'i', 't'] || u == seq!['k'] || u == seq!['k', 'e', 'l', 'v', 'i', 'n']
}

#[verifier::rlimit(100)]
fn length_factor_of(u: &Vec<char>) -> (r: Option<Rat>)
    ensures
        r == length_factor(u@),
        r matches Some(x) ==> rat_wf(x),
{
    let u_m: Vec<char> = vec!['m'];
    let u_meter: Vec<char> = vec!['m', 'e', 't', 'e', 'r'];
    let u_meters: Vec<char> = vec!['m', 'e', 't', 'e', 'r', 's'];
    let u_km: Vec<char> = vec!['k', 'm'];
    let u_kilometer: Vec<char> = vec!['k', 'i', 'l', 'o', 'm', 'e', 't', 'e', 'r'];
    let u_kilometers: Vec<char> = vec!['k', 'i', 'l', 'o', 'm', 'e', 't', 'e', 'r', 's'];
    let u_cm: Vec<char> = vec!['c', 'm'];
    let u_centimeter: Vec<char> = vec!['c', 'e', 'n', 't', 'i', 'm', 'e', 't', 'e', 'r'];
    let u_centimeters: Vec<char> = vec!['c', 'e', 'n', 't', 'i', 'm', 'e', 't', 'e', 'r', 's'];
    let u_mm: Vec<char> = vec!['m', 'm'];
    let u_millimeter: Vec<char> = vec!['m', 'i', 'l', 'l', 'i', 'm', 'e', 't', 'e', 'r'];
    let u_millimeters: Vec<char> = vec!['m', 'i', 'l', 'l', 'i', 'm', 'e', 't', 'e', 'r', 's'];
    let u_mi: Vec<char> = vec!['m', 'i'];
    let u_mile: Vec<char> = vec!['m', 'i', 'l', 'e'];
    let u_miles: Vec<char> = vec!['m', 'i', 'l', 'e', 's'];
    let u_ft: Vec<char> = vec!['f', 't'];
    let u_foot: Vec<char> = vec!['f', 'o', 'o', 't'];
    let u_feet: Vec<char> = vec!['f', 'e', 'e', 't'];
    let u_in: Vec<char> = vec!['i', 'n'];
    let u_inch: Vec<char> = vec!['i', 'n', 'c', 'h'];
    let u_inches: Vec<char> = vec!['i', 'n', 'c', 'h', 'e', 's'];
    let u_yd: Vec<char> = vec!['y', 'd'];
    let u_yard: Vec<char> = vec!['y', 'a', 'r', 'd'];
    let u_yards: Vec<char> = vec!['y', 'a', 'r', 'd', 's'];
    proof {
        assert(u_m@ =~= seq!['m']);
        assert(u_meter@ =~= seq!['m', 'e', 't', 'e', 'r']);
        assert(u_meters@ =~= seq!['m', 'e', 't', 'e', 'r', 's']);
        assert(u_km@ =~= seq!['k', 'm']);
        assert(u_kilometer@ =~= seq!['k', 'i', 'l', 'o', 'm', 'e', 't', 'e', 'r']);
        assert(u_kilometers@ =~= seq!['k', 'i', 'l', 'o', 'm', 'e', 't', 'e', 'r', 's']);
        assert(u_cm@ =~= seq!['c', 'm']);
        assert(u_centimeter@ =~= seq!['c', 'e', 'n', 't', 'i', 'm', 'e', 't', 'e', 'r']);
        assert(u_centimeters@ =~= seq!['c', 'e', 'n', 't', 'i', 'm', 'e', 't', 'e', 'r', 's']);
        assert(u_mm@ =~= seq!['m', 'm']);
        assert(u_millimeter@ =~= seq!['m', 'i', 'l', 'l', 'i', 'm', 'e', 't', 'e', 'r']);
        assert(u_millimeters@ =~= seq!['m', 'i', 'l', 'l', 'i', 'm', 'e', 't', 'e', 'r', 's']);
        assert(u_mi@ =~= seq!['m', 'i']);
        assert(u_mile@ =~= seq!['m', 'i', 'l', 'e']);
        assert(u_miles@ =~= seq!['m', 'i', 'l', 'e', 's']);
        assert(u_ft@ =~= seq!['f', 't']);
        assert(u_foot@ =~= seq!['f', 'o', 'o', 't']);
        assert(u_feet@ =~= seq!['f', 'e', 'e', 't']);
        assert(u_in@ =~= seq!['i', 'n']);
        assert(u_inch@ =~= seq!['i', 'n', 'c', 'h']);
        assert(u_inches@ =~= seq!['i', 'n', 'c', 'h', 'e', 's']);
        assert(u_yd@ =~= seq!['y', 'd']);
        assert(u_yard@ =~= seq!['y', 'a', 'r', 'd']);
        assert(u_yards@ =~= seq!['y', 'a', 'r', 'd', 's']);
    }
    if chars_eq(u, &u_m) || chars_eq(u, &u_meter) || chars_eq(u, &u_meters) {
        Some(Rat { num: 1, den: 1 })
    } else if chars_eq(u, &u_km) || chars_eq(u, &u_kilometer) || chars_eq(u, &u_kilometers) {
        Some(Rat { num: 1000, den: 1 })
    } else if chars_eq(u, &u_cm) || chars_eq(u, &u_centimeter) || chars_eq(u, &u_centimeters) {
        Some(Rat { num: 1, den: 100 })
    } else if chars_eq(u, &u_mm) || chars_eq(u, &u_millimeter) || chars_eq(u, &u_millimeters) {
        Some(Rat { num: 1, den: 1000 })
    } else if chars_eq(u, &u_mi) || chars_eq(u, &u_mile) || chars_eq(u, &u_miles) {
        Some(Rat { num: 201168, den: 125 })
    } else if chars_eq(u, &u_ft) || chars_eq(u, &u_foot) || chars_eq(u, &u_feet) {
        Some(Rat { num: 381, den: 1250 })
    } else if chars_eq(u, &u_in) || chars_eq(u, &u_inch) || chars_eq(u, &u_inches) {
        Some(Rat { num: 127, den: 5000 })
    } else if chars_eq(u, &u_yd) || chars_eq(u, &u_yard) || chars_eq(u, &u_yards) {
        Some(Rat { num: 1143, den: 1250 })
    } else {
        None
    }
}

#[verifier::rlimit(100)]
fn weight_factor_of(u: &Vec<char>) -> (r: Option<Rat>)
    ensures
        r == weight_factor(u@),
        r matches Some(x) ==> rat_wf(x),
{
    let u_g: Vec<char> = vec!['g'];
    let u_gram: Vec<char> = vec!['g', 'r', 'a', 'm'];
    let u_grams: Vec<char> = vec!['g', 'r', 'a', 'm', 's'];
    let u_kg: Vec<char> = vec!['k', 'g'];
    let u_kilogram: Vec<char> = vec!['k', 'i', 'l', 'o', 'g', 'r', 'a', 'm'];
    let u_kilograms: Vec<char> = vec!['k', 'i', 'l', 'o', 'g', 'r', 'a', 'm', 's'];
    let u_mg: Vec<char> = vec!['m', 'g'];
    let u_milligram: Vec<char> = vec!['m', 'i', 'l', 'l', 'i', 'g', 'r', 'a', 'm'];
    let u_milligrams: Vec<char> = vec!['m', 'i', 'l', 'l', 'i', 'g', 'r', 'a', 'm', 's'];
    let u_lb: Vec<char> = vec!['l', 'b'];
    let u_lbs: Vec<char> = vec!['l', 'b', 's'];
    let u_pound: Vec<char> = vec!['p', 'o', 'u', 'n', 'd'];
    let u_pounds: Vec<char> = vec!['p', 'o', 'u', 'n', 'd', 's'];
    let u_oz: Vec<char> = vec!['o', 'z'];
    let u_ounce: Vec<char> = vec!['o', 'u', 'n', 'c', 'e'];
    let u_ounces: Vec<char> = vec!['o', 'u', 'n', 'c', 'e', 's'];
    let u_t: Vec<char> = vec!['t'];
    let u_ton: Vec<char> = vec!['t', 'o', 'n'];
    let u_tons: Vec<char> = vec!['t', 'o', 'n', 's'];
    proof {
        assert(u_g@ =~= seq!['g']);
        assert(u_gram@ =~= seq!['g', 'r', 'a', 'm']);
        assert(u_grams@ =~= seq!['g', 'r', 'a', 'm', 's']);
        assert(u_kg@ =~= seq!['k', 'g']);
        assert(u_kilogram@ =~= seq!['k', 'i', 'l', 'o', 'g', 'r', 'a', 'm']);
        assert(u_kilograms@ =~= seq!['k', 'i', 'l', 'o', 'g', 'r', 'a', 'm', 's']);
        assert(u_mg@ =~= seq!['m', 'g']);
        assert(u_milligram@ =~= seq!['m', 'i', 'l', 'l', 'i', 'g', 'r', 'a', 'm']);
        assert(u_milligrams@ =~= seq!['m', 'i', 'l', 'l', 'i', 'g', 'r', 'a', 'm', 's']);
        assert(u_lb@ =~= seq!['l', 'b']);
        assert(u_lbs@ =~= seq!['l', 'b', 's']);
        assert(u_pound@ =~= seq!['p', 'o', 'u', 'n', 'd']);
        assert(u_pounds@ =~= seq!['p', 'o', 'u', 'n', 'd', 's']);
        assert(u_oz@ =~= seq!['o', 'z']);
        assert(u_ounce@ =~= seq!['o', 'u', 'n', 'c', 'e']);
        assert(u_ounces@ =~= seq!['o', 'u', 'n', 'c', 'e', 's']);
        assert(u_t@ =~= seq!['t']);
        assert(u_ton@ =~= seq!['t', 'o', 'n']);
        assert(u_tons@ =~= seq!['t', 'o', 'n', 's']);
    }
    if chars_eq(u, &u_g) || chars_eq(u, &u_gram) || chars_eq(u, &u_grams) {
        Some(Rat { num: 1, den: 1 })
    } else if chars_eq(u, &u_kg) || chars_eq(u, &u_kilogram) || chars_eq(u, &u_kilograms) {
        Some(Rat { num: 1000, den: 1 })
    } else if chars_eq(u, &u_mg) || chars_eq(u, &u_milligram) || chars_eq(u, &u_milligrams) {
        Some(Rat { num: 1, den: 1000 })
    } else if chars_eq(u, &u_lb) || chars_eq(u, &u_lbs) || chars_eq(u, &u_pound) || chars_eq(u, &u_pounds) {
        Some(Rat { num: 56699, den: 125 })
    } else if chars_eq(u, &u_oz) || chars_eq(u, &u_ounce) || chars_eq(u, &u_ounces) {
        Some(Rat { num: 56699, den: 2000 })
    } else if chars_eq(u, &u_t) || chars_eq(u, &u_ton) || chars_eq(u, &u_tons) {
        Some(Rat { num: 1000000, den: 1 })
    } else {
        None
    }
}

#[verifier::rlimit(100)]
fn time_factor_of(u: &Vec<char>) -> (r: Option<Rat>)
    ensures
        r == time_factor(u@),
        r matches Some(x) ==> rat_wf(x),
{
    let u_s: Vec<char> = vec!['s'];
    let u_sec: Vec<char> = vec!['s', 'e', 'c'];
    let u_second: Vec<char> = vec!['s', 'e', 'c', 'o', 'n', 'd'];
    let u_seconds: Vec<char> = vec!['s', 'e', 'c', 'o', 'n', 'd', 's'];
    let u_ms: Vec<char> = vec!['m', 's'];
    let u_millisecond: Vec<char> = vec!['m', 'i', 'l', 'l', 'i', 's', 'e', 'c', 'o', 'n', 'd'];
    let u_milliseconds: Vec<char> = vec!['m', 'i', 'l', 'l', 'i', 's', 'e', 'c', 'o', 'n', 'd', 's'];
    let u_min: Vec<char> = vec!['m', 'i', 'n'];
    let u_minute: Vec<char> = vec!['m', 'i', 'n', 'u', 't', 'e'];
    let u_minutes: Vec<char> = vec!['m', 'i', 'n', 'u', 't', 'e', 's'];
    let u_h: Vec<char> = vec!['h'];
    let u_hr: Vec<char> = vec!['h', 'r'];
    let u_hour: Vec<char> = vec!['h', 'o', 'u', 'r'];
    let u_hours: Vec<char> = vec!['h', 'o', 'u', 'r', 's'];
    let u_d: Vec<char> = vec!['d'];
    let u_day: Vec<char> = vec!['d', 'a', 'y'];
    let u_days: Vec<char> = vec!['d', 'a', 'y', 's'];
    let u_w: Vec<char> = vec!['w'];
    let u_week: Vec<char> = vec!['w', 'e', 'e', 'k'];
    let u_weeks: Vec<char> = vec!['w', 'e', 'e', 'k', 's'];
    let u_y: Vec<char> = vec!['y'];
    let u_year: Vec<char> = vec!['y', 'e', 'a', 'r'];
    let u_years: Vec<char> = vec!['y', 'e', 'a', 'r', 's'];
    proof {
        assert(u_s@ =~= seq!['s']);
        assert(u_sec@ =~= seq!['s', 'e', 'c']);
        assert(u_second@ =~= seq!['s', 'e', 'c', 'o', 'n', 'd']);
        assert(u_seconds@ =~= seq!['s', 'e', 'c', 'o', 'n', 'd', 's']);
        assert(u_ms@ =~= seq!['m', 's']);
        assert(u_millisecond@ =~= seq!['m', 'i', 'l', 'l', 'i', 's', 'e', 'c', 'o', 'n', 'd']);
        assert(u_milliseconds@ =~= seq!['m', 'i', 'l', 'l', 'i', 's', 'e', 'c', 'o', 'n', 'd', 's']);
        assert(u_min@ =~= seq!['m', 'i', 'n']);
        assert(u_minute@ =~= seq!['m', 'i', 'n', 'u', 't', 'e']);
        assert(u_minutes@ =~= seq!['m', 'i', 'n', 'u', 't', 'e', 's']);
        assert(u_h@ =~= seq!['h']);
        assert(u_hr@ =~= seq!['h', 'r']);
        assert(u_hour@ =~= seq!['h', 'o', 'u', 'r']);
        assert(u_hours@ =~= seq!['h', 'o', 'u', 'r', 's']);
        assert(u_d@ =~= seq!['d']);
        assert(u_day@ =~= seq!['d', 'a', 'y']);
        assert(u_days@ =~= seq!['d', 'a', 'y', 's']);
        assert(u_w@ =~= seq!['w']);
        assert(u_week@ =~= seq!['w', 'e', 'e', 'k']);
        assert(u_weeks@ =~= seq!['w', 'e', 'e', 'k', 's']);
        assert(u_y@ =~= seq!['y']);
        assert(u_year@ =~= seq!['y', 'e', 'a', 'r']);
        assert(u_years@ =~= seq!['y', 'e', 'a', 'r', 's']);
    }
    if chars_eq(u, &u_s) || chars_eq(u, &u_sec) || chars_eq(u, &u_second) || chars_eq(u, &u_seconds) {
        Some(Rat { num: 1, den: 1 })
    } else if chars_eq(u, &u_ms) || chars_eq(u, &u_millisecond) || chars_eq(u, &u_milliseconds) {
        Some(Rat { num: 1, den: 1000 })
    } else if chars_eq(u, &u_min) || chars_eq(u, &u_minute) || chars_eq(u, &u_minutes) {
        Some(Rat { num: 60, den: 1 })
    } else if chars_eq(u, &u_h) || chars_eq(u, &u_hr) || chars_eq(u, &u_hour) || chars_eq(u, &u_hours) {
        Some(Rat { num: 3600, den: 1 })
    } else if chars_eq(u, &u_d) || chars_eq(u, &u_day) || chars_eq(u, &u_days) {
        Some(Rat { num: 86400, den: 1 })
    } else if chars_eq(u, &u_w) || chars_eq(u, &u_week) || chars_eq(u, &u_weeks) {
        Some(Rat { num: 604800, den: 1 })
    } else if chars_eq(u, &u_y) || chars_eq(u, &u_year) || chars_eq(u, &u_years) {
        Some(Rat { num: 31536000, den: 1 })
    } else {
        None
    }
}

#[verifier::rlimit(100)]
fn data_factor_of(u: &Vec<char>) -> (r: Option<Rat>)
    ensures
        r == data_factor(u@),
        r matches Some(x) ==> rat_wf(x),
{
    let u_b: Vec<char> = vec!['b'];
    let u_byte: Vec<char> = vec!['b', 'y', 't', 'e'];
    let u_bytes: Vec<char> = vec!['b', 'y', 't', 'e', 's'];
    let u_kb: Vec<char> = vec!['k', 'b'];
    let u_kilobyte: Vec<char> = vec!['k', 'i', 'l', 'o', 'b', 'y', 't', 'e'];
    let u_kilobytes: Vec<char> = vec!['k', 'i', 'l', 'o', 'b', 'y', 't', 'e', 's'];
    let u_mb: Vec<char> = vec!['m', 'b'];
    let u_megabyte: Vec<char> = vec!['m', 'e', 'g', 'a', 'b', 'y', 't', 'e'];
    let u_megabytes: Vec<char> = vec!['m', 'e', 'g', 'a', 'b', 'y', 't', 'e', 's'];
    let u_gb: Vec<char> = vec!['g', 'b'];
    let u_gigabyte: Vec<char> = vec!['g', 'i', 'g', 'a', 'b', 'y', 't', 'e'];
    let u_gigabytes: Vec<char> = vec!['g', 'i', 'g', 'a', 'b', 'y', 't', 'e', 's'];
    let u_tb: Vec<char> = vec!['t', 'b'];
    let u_terabyte: Vec<char> = vec!['t', 'e', 'r', 'a', 'b', 'y', 't', 'e'];
    let u_terabytes: Vec<char> = vec!['t', 'e', 'r', 'a', 'b', 'y', 't', 'e', 's'];
    proof {
        assert(u_b@ =~= seq!['b']);
        assert(u_byte@ =~= seq!['b', 'y', 't', 'e']);
        assert(u_bytes@ =~= seq!['b', 'y', 't', 'e', 's']);
        assert(u_kb@ =~= seq!['k', 'b']);
        assert(u_kilobyte@ =~= seq!['k', 'i', 'l', 'o', 'b', 'y', 't', 'e']);
        assert(u_kilobytes@ =~= seq!['k', 'i', 'l', 'o', 'b', 'y', 't', 'e', 's']);
        assert(u_mb@ =~= seq!['m', 'b']);
        assert(u_megabyte@ =~= seq!['m', 'e', 'g', 'a', 'b', 'y', 't', 'e']);
        assert(u_megabytes@ =~= seq!['m', 'e', 'g', 'a', 'b', 'y', 't', 'e', 's']);
        assert(u_gb@ =~= seq!['g', 'b']);
        assert(u_gigabyte@ =~= seq!['g', 'i', 'g', 'a', 'b', 'y', 't', 'e']);
        assert(u_gigabytes@ =~= seq!['g', 'i', 'g', 'a', 'b', 'y', 't', 'e', 's']);
        assert(u_tb@ =~= seq!['t', 'b']);
        assert(u_terabyte@ =~= seq!['t', 'e', 'r', 'a', 'b', 'y', 't', 'e']);
        assert(u_terabytes@ =~= seq!['t', 'e', 'r', 'a', 'b', 'y', 't', 'e', 's']);
    }
    if chars_eq(u, &u_b) || chars_eq(u, &u_byte) || chars_eq(u, &u_bytes) {
        Some(Rat { num: 1, den: 1 })
    } else if chars_eq(u, &u_kb) || chars_eq(u, &u_kilobyte) || chars_eq(u, &u_kilobytes) {
        Some(Rat { num: 1024, den: 1 })
    } else if chars_eq(u, &u_mb) || chars_eq(u, &u_megabyte) || chars_eq(u, &u_megabytes) {
        Some(Rat { num: 1048576, den: 1 })
    } else if chars_eq(u, &u_gb) || chars_eq(u, &u_gigabyte) || chars_eq(u, &u_gigabytes) {
        Some(Rat { num: 1073741824, den: 1 })
    } else if chars_eq(u, &u_tb) || chars_eq(u, &u_terabyte) || chars_eq(u, &u_terabytes) {
        Some(Rat { num: 1099511627776, den: 1 })
    } else {
        None
    }
}

fn temp_unit(u: &Vec<char>) -> (r: bool)
    ensures
        r == is_temp_unit(u@),
{
    let u_c: Vec<char> = vec!['c'];
    let u_celsius: Vec<char> = vec!['c', 'e', 'l', 's', 'i', 'u', 's'];
    let u_f: Vec<char> = vec!['f'];
    let u_fahrenheit: Vec<char> = vec!['f', 'a', 'h', 'r', 'e', 'n', 'h', 'e', 'i', 't'];
    let u_k: Vec<char> = vec!['k'];
    let u_kelvin: Vec<char> = vec!['k', 'e', 'l', 'v', 'i', 'n'];
    proof {
        assert(u_c@ =~= seq!['c']);
        assert(u_celsius@ =~= seq!['c', 'e', 'l', 's', 'i', 'u', 's']);
        assert(u_f@ =~= seq!['f']);
        assert(u_fahrenheit@ =~= seq!['f', 'a', 'h', 'r', 'e', 'n', 'h', 'e', 'i', 't']);
        assert(u_k@ =~= seq!['k']);
        assert(u_kelvin@ =~= seq!['k', 'e', 'l', 'v', 'i', 'n']);
    }
    chars_eq(u, &u_c) || chars_eq(u, &u_celsius) || chars_eq(u, &u_f) || chars_eq(u, &u_fahrenheit) || chars_eq(u, &u_k) || chars_eq(u, &u_kelvin)
}

// ---------------------------------------------------------------------------
// Extraction: the first occurrence, in the lower-cased query, of
//   <number> <optional-space> <unit> <space> (to|in) <space> <unit>
// where a unit is a maximal run of lowercase letters.
// ---------------------------------------------------------------------------

pub open spec fn is_lc_letter(c: char) -> bool {
    'a' <= c && c <= 'z'
}

/// Position of the first non-letter at or after `i`.
pub open spec fn letters_end(s: Seq<char>, i: nat) -> nat
    decreases s.len() - i,
{
    if i < s.len() && is_lc_letter(s[i as int]) {
        letters_end(s, i + 1)
    } else {
        i
    }
}

/// A number match may only start on a digit that does not merely continue
/// an earlier number.
pub open spec fn good_start(s: Seq<char>, i: nat) -> bool {
    i < s.len() && is_digit(s[i as int]) && (i == 0 || !(is_digit(s[i - 1]) || (s[i - 1] == '.'
        && i >= 2 && is_digit(s[i - 2]))))
}

/// The parsed number at `i`: its value and the position after it;
/// `None` when it cannot be represented exactly.
pub open spec fn sp_conv_number(s: Seq<char>, i: nat) -> (Option<Rat>, nat)
    recommends
        good_start(s, i),
{
    let j1 = digits_end(s, i);
    let dotted = j1 < s.len() && s[j1 as int] == '.';
    let j2 = if dotted {
        digits_end(s, j1 + 1)
    } else {
        j1
    };
    let di = (j1 - i) as nat;
    let df = if dotted {
        (j2 - j1 - 1) as nat
    } else {
        0
    };
    if di + df > max_digits() {
        (None, j2)
    } else {
        let n = digits_val(s, i, j1) * pow10(df) + (if dotted {
            digits_val(s, j1 + 1, j2)
        } else {
            0
        });
        (spec_mk(n as int, pow10(df) as int), j2)
    }
}

/// The unit spans of a conversion phrase whose number ends at `j2`:
/// `from` unit, the word `to` or `in`, and the `to` unit.
pub open spec fn sp_conv_tail(s: Seq<char>, j2: nat) -> Option<(Seq<char>, Seq<char>)> {
    let u1s = skip_ws(s, j2);
    let u1e = letters_end(s, u1s);
    if u1e == u1s {
        None
    } else {
        let g1 = skip_ws(s, u1e);
        if g1 == u1e {
            None
        } else {
            if g1 + 2 <= s.len() && ((s[g1 as int] == 't' && s[(g1 + 1) as int] == 'o') || (s[g1 as int]
                == 'i' && s[(g1 + 1) as int] == 'n')) {
                let w2 = skip_ws(s, g1 + 2);
                if w2 == g1 + 2 {
                    None
                } else {
                    let u2e = letters_end(s, w2);
                    if u2e == w2 {
                        None
                    } else {
                        Some((s.subrange(u1s as int, u1e as int), s.subrange(w2 as int, u2e as int)))
                    }
                }
            } else {
                None
            }
        }
    }
}

/// The first conversion phrase at or after `i`: value, from unit, to unit.
pub open spec fn sp_find_conv(s: Seq<char>, i: nat) -> Option<(Rat, Seq<char>, Seq<char>)>
    decreases s.len() - i,
{
    if i >= s.len() {
        None
    } else if good_start(s, i) {
        let (val, j2) = sp_conv_number(s, i);
        match val {
            None => sp_find_conv(s, if i < j2 && j2 <= s.len() {
                j2
            } else {
                i + 1
            }),
            Some(v) => match sp_conv_tail(s, j2) {
                Some((fu, tu)) => Some((v, fu, tu)),
                None => sp_find_conv(s, i + 1),
            },
        }
    } else {
        sp_find_conv(s, i + 1)
    }
}

// ---------------------------------------------------------------------------
// Conversion arithmetic.
// ---------------------------------------------------------------------------

/// Scale into the base unit by `f1`, then out of it by `f2`.
pub open spec fn spec_linear(v: Rat, f1: Rat, f2: Rat) -> Option<Rat> {
    match spec_mul(v, f1) {
        None => None,
        Some(b) => spec_div(b, f2),
    }
}

pub open spec fn is_c_unit(u: Seq<char>) -> bool {
    u == seq!['c'] || u == seq!['c', 'e', 'l', 's', 'i', 'u', 's']
}

pub open spec fn is_f_unit(u: Seq<char>) -> bool {
    u == seq!['f'] || u == seq!['f', 'a', 'h', 'r', 'e', 'n', 'h', 'e', 'i', 't']
}

pub open spec fn is_k_unit(u: Seq<char>) -> bool {
    u == seq!['k'] || u == seq!['k', 'e', 'l', 'v', 'i', 'n']
}

/// Into degrees Celsius from the named scale.
pub open spec fn spec_to_celsius(v: Rat, from: Seq<char>) -> Option<Rat> {
    if is_c_unit(from) {
        Some(v)
    } else if is_f_unit(from) {
        match spec_sub(v, Rat { num: 32, den: 1 }) {
            None => None,
            Some(d) => spec_mul(d, Rat { num: 5, den: 9 }),
        }
    } else if is_k_unit(from) {
        spec_sub(v, Rat { num: 5463, den: 20 })
    } else {
        None
    }
}

/// Out of degrees Celsius into the named scale.
pub open spec fn spec_from_celsius(c: Rat, to: Seq<char>) -> Option<Rat> {
    if is_c_unit(to) {
        Some(c)
    } else if is_f_unit(to) {
        match spec_mul(c, Rat { num: 9, den: 5 }) {
            None => None,
            Some(d) => spec_add(d, Rat { num: 32, den: 1 }),
        }
    } else if is_k_unit(to) {
        spec_add(c, Rat { num: 5463, den: 20 })
    } else {
        None
    }
}

pub open spec fn spec_convert_temperature(v: Rat, from: Seq<char>, to: Seq<char>) -> Option<Rat> {
    match spec_to_celsius(v, from) {
        None => None,
        Some(c) => spec_from_celsius(c, to),
    }
}

/// The conversion: the first table holding both units wins; units from
/// different tables, or unknown units, convert to nothing.
pub open spec fn spec_convert(v: Rat, from: Seq<char>, to: Seq<char>) -> Option<Rat> {
    if length_factor(from) is Some && length_factor(to) is Some {
        spec_linear(v, length_factor(from)->Some_0, length_factor(to)->Some_0)
    } else if weight_factor(from) is Some && weight_factor(to) is Some {
        spec_linear(v, weight_factor(from)->Some_0, weight_factor(to)->Some_0)
    } else if is_temp_unit(from) && is_temp_unit(to) {
        spec_convert_temperature(v, from, to)
    } else if time_factor(from) is Some && time_factor(to) is Some {
        spec_linear(v, time_factor(from)->Some_0, time_factor(to)->Some_0)
    } else if data_factor(from) is Some && data_factor(to) is Some {
        spec_linear(v, data_factor(from)->Some_0, data_factor(to)->Some_0)
    } else {
        None
    }
}

/// The whole resolver over a raw query.
pub open spec fn spec_resolve(q: Seq<char>) -> Option<(Rat, Seq<char>, Seq<char>, Rat)> {
    match sp_find_conv(lower_seq(q), 0) {
        None => None,
        Some((v, fu, tu)) => match spec_convert(v, fu, tu) {
            None => None,
            Some(r) => Some((v, fu, tu, r)),
        },
    }
}

// ---------------------------------------------------------------------------
// Executable resolver.
// ---------------------------------------------------------------------------

fn scan_letters(s: &Vec<char>, i: usize) -> (j: usize)
    requires
        i <= s@.len(),
    ensures
        j as nat == letters_end(s@, i as nat),
        i <= j <= s@.len(),
{
    let n: usize = s.len();
    let mut j: usize = i;
    while j < n && s[j] >= 'a' && s[j] <= 'z'
        invariant
            i <= j <= n,
            n == s@.len(),
            letters_end(s@, i as nat) == letters_end(s@, j as nat),
        decreases n - j,
    {
        j = j + 1;
    }
    j
}

fn conv_number(s: &Vec<char>, i: usize) -> (r: (Option<Rat>, usize))
    requires
        good_start(s@, i as nat),
    ensures
        (r.0, r.1 as nat) == sp_conv_number(s@, i as nat),
        i < r.1 <= s@.len(),
        r.0 matches Some(x) ==> rat_wf(x),
{
    let n: usize = s.len();
    let j1 = scan_digits(s, i);
    let dotted: bool = j1 < n && s[j1] == '.';
    let j2: usize = if dotted {
        scan_digits(s, j1 + 1)
    } else {
        j1
    };
    proof {
        crate::calc::lem_digits_end(s@, (i + 1) as nat);
    }
    let di: usize = j1 - i;
    let df: usize = if dotted {
        j2 - j1 - 1
    } else {
        0
    };
    if di + df > 27 {
        return (None, j2);
    }
    proof {
        lem_digits_all(s@, i as nat);
        if dotted {
            lem_digits_all(s@, (j1 + 1) as nat);
        }
        crate::calc::lem_pow10_27();
        lem_pow10_pos(df as nat);
    }
    let iv: u128 = digits_value(s, i, j1);
    let fv: u128 = if dotted {
        digits_value(s, j1 + 1, j2)
    } else {
        0
    };
    let p: u128 = crate::calc::pow10_u128(df);
    proof {
        crate::calc::lem_pow10_add(di as nat, df as nat);
        crate::calc::lem_pow10_mono((di + df) as nat, 27);
        assert((iv as nat) * (p as nat) < pow10(di as nat) * pow10(df as nat)) by (nonlinear_arith)
            requires
                (iv as nat) < pow10(di as nat),
                p as nat == pow10(df as nat),
                (p as nat) >= 1,
        ;
        crate::calc::lem_pow10_mono(df as nat, 27);
    }
    let nv: u128 = iv * p + fv;
    (rat_mk_i128(nv as i128, p as i128), j2)
}

fn conv_tail(s: &Vec<char>, j2: usize) -> (r: Option<(Vec<char>, Vec<char>)>)
    requires
        j2 <= s@.len(),
    ensures
        match r {
            None => sp_conv_tail(s@, j2 as nat) is None,
            Some((fu, tu)) => sp_conv_tail(s@, j2 as nat) == Some((fu@, tu@)),
        },
{
    let n: usize = s.len();
    let u1s = skip_ws_idx(s, j2);
    let u1e = scan_letters(s, u1s);
    if u1e == u1s {
        return None;
    }
    let g1 = skip_ws_idx(s, u1e);
    if g1 == u1e {
        return None;
    }
    if n - g1 >= 2 && ((s[g1] == 't' && s[g1 + 1] == 'o') || (s[g1] == 'i' && s[g1 + 1] == 'n')) {
        let w2 = skip_ws_idx(s, g1 + 2);
        if w2 == g1 + 2 {
            return None;
        }
        let u2e = scan_letters(s, w2);
        if u2e == w2 {
            return None;
        }
        Some((subvec(s, u1s, u1e), subvec(s, w2, u2e)))
    } else {
        None
    }
}

fn find_conv(s: &Vec<char>) -> (r: Option<(Rat, Vec<char>, Vec<char>)>)
    ensures
        match r {
            None => sp_find_conv(s@, 0) is None,
            Some((v, fu, tu)) => sp_find_conv(s@, 0) == Some((v, fu@, tu@)) && rat_wf(v),
        },
{
    let n: usize = s.len();
    let mut i: usize = 0;
    while i < n
        invariant
            i <= n,
            n == s@.len(),
            sp_find_conv(s@, 0) == sp_find_conv(s@, i as nat),
        decreases n - i,
    {
        let gs: bool = s[i] >= '0' && s[i] <= '9' && (i == 0 || !((s[i - 1] >= '0' && s[i - 1]
            <= '9') || (s[i - 1] == '.' && i >= 2 && s[i - 2] >= '0' && s[i - 2] <= '9')));
        if gs {
            let (val, j2) = conv_number(s, i);
            match val {
                None => {
                    i = j2;
                },
                Some(v) => {
                    match conv_tail(s, j2) {
                        Some((fu, tu)) => {
                            return Some((v, fu, tu));
                        },
                        None => {
                            i = i + 1;
                        },
                    }
                },
            }
        } else {
            i = i + 1;
        }
    }
    None
}

/// The unit conversion resolver.
pub struct Converter;

impl Converter {
    pub fn new() -> (c: Converter) {
        Converter
    }

    /// The result items for a conversion query: one item carrying the
    /// rendered conversion, or none when no conversion resolves.
    pub fn get_items(&self, query: &str) -> (r: Vec<Item>)
        ensures
            spec_resolve(query@) is None ==> r@.len() == 0,
            spec_resolve(query@) matches Some((v, fu, tu, c)) ==> ({
                &&& r@.len() == 1
                &&& r@[0].item_type == ItemType::Converter
                &&& r@[0].id@ == seq!['c', 'o', 'n', 'v', 'e', 'r', 't', ':'] + spec_format_rat(
                    c,
                    4,
                )
                &&& r@[0].name@ == spec_format_rat(v, 6) + seq![' '] + fu + seq![' ', '=', ' ']
                    + spec_format_rat(c, 4) + seq![' '] + tu
                &&& r@[0].metadata.content matches Some(cc) && cc@ == spec_format_rat(c, 4)
            }),
    {
        let mut out: Vec<Item> = Vec::new();
        match self.resolve(query) {
            None => out,
            Some((v, fu, tu, c)) => {
                let vs: String = format_rat(v, 6);
                let cs: String = format_rat(c, 4);
                proof {
                    reveal_strlit("convert:");
                    assert("convert:"@ =~= seq!['c', 'o', 'n', 'v', 'e', 'r', 't', ':']);
                    reveal_strlit(" = ");
                    assert(" = "@ =~= seq![' ', '=', ' ']);
                    reveal_strlit(" ");
                    assert(" "@ =~= seq![' ']);
                }
                let id = String::from_str("convert:").concat(cs.as_str());
                let name = vs.concat(" ").concat(fu.as_str()).concat(" = ").concat(
                    cs.as_str(),
                ).concat(" ").concat(tu.as_str());
                let mut item = Item::new(id, name, ItemType::Converter).with_description(
                    String::from_str("Press Enter to copy result"),
                ).with_icon(String::from_str("accessories-calculator"));
                item.metadata.content = Some(cs);
                out.push(item);
                out
            },
        }
    }

    /// Extracts the first conversion phrase of a query: value, source
    /// unit, target unit.
    pub fn parse_conversion(&self, query: &str) -> (r: Option<(Rat, String, String)>)
        ensures
            match r {
                None => sp_find_conv(lower_seq(query@), 0) is None,
                Some((v, fu, tu)) => sp_find_conv(lower_seq(query@), 0) == Some((v, fu@, tu@))
                    && rat_wf(v),
            },
    {
        let qc = to_chars(query);
        let ql = to_lower_chars(&qc);
        match find_conv(&ql) {
            None => None,
            Some((v, fu, tu)) => Some((v, chars_to_string(&fu), chars_to_string(&tu))),
        }
    }

    /// Converts a value between two units of the same dimension; `None`
    /// across dimensions or for unknown units.
    pub fn convert(&self, value: Rat, from: &str, to: &str) -> (r: Option<Rat>)
        requires
            rat_wf(value),
        ensures
            r == spec_convert(value, from@, to@),
            r matches Some(x) ==> rat_wf(x),
    {
        let fu = to_chars(from);
        let tu = to_chars(to);
        convert_chars(value, &fu, &tu)
    }

    /// The resolver: value, source unit, target unit, converted value.
    pub fn resolve(&self, query: &str) -> (r: Option<(Rat, String, String, Rat)>)
        ensures
            match r {
                None => spec_resolve(query@) is None,
                Some((v, fu, tu, c)) => spec_resolve(query@) == Some((v, fu@, tu@, c)) && rat_wf(v)
                    && rat_wf(c),
            },
    {
        let qc = to_chars(query);
        let ql = to_lower_chars(&qc);
        match find_conv(&ql) {
            None => None,
            Some((v, fu, tu)) => {
                match convert_chars(v, &fu, &tu) {
                    None => None,
                    Some(c) => Some((v, chars_to_string(&fu), chars_to_string(&tu), c)),
                }
            },
        }
    }
}

fn linear(v: Rat, f1: Rat, f2: Rat) -> (r: Option<Rat>)
    requires
        rat_wf(v),
        rat_wf(f1),
        rat_wf(f2),
    ensures
        r == spec_linear(v, f1, f2),
        r matches Some(x) ==> rat_wf(x),
{
    match rat_mul(v, f1) {
        None => None,
        Some(b) => rat_div(b, f2),
    }
}

fn convert_temperature(v: Rat, from: &Vec<char>, to: &Vec<char>) -> (r: Option<Rat>)
    requires
        rat_wf(v),
    ensures
        r == spec_convert_temperature(v, from@, to@),
        r matches Some(x) ==> rat_wf(x),
{
    let u_c: Vec<char> = vec!['c'];
    let u_celsius: Vec<char> = vec!['c', 'e', 'l', 's', 'i', 'u', 's'];
    let u_f: Vec<char> = vec!['f'];
    let u_fahrenheit: Vec<char> = vec!['f', 'a', 'h', 'r', 'e', 'n', 'h', 'e', 'i', 't'];
    let u_k: Vec<char> = vec!['k'];
    let u_kelvin: Vec<char> = vec!['k', 'e', 'l', 'v', 'i', 'n'];
    proof {
        assert(u_c@ =~= seq!['c']);
        assert(u_celsius@ =~= seq!['c', 'e', 'l', 's', 'i', 'u', 's']);
        assert(u_f@ =~= seq!['f']);
        assert(u_fahrenheit@ =~= seq!['f', 'a', 'h', 'r', 'e', 'n', 'h', 'e', 'i', 't']);
        assert(u_k@ =~= seq!['k']);
        assert(u_kelvin@ =~= seq!['k', 'e', 'l', 'v', 'i', 'n']);
    }
    let c: Option<Rat> = if chars_eq(from, &u_c) || chars_eq(from, &u_celsius) {
        Some(v)
    } else if chars_eq(from, &u_f) || chars_eq(from, &u_fahrenheit) {
        match rat_sub(v, Rat { num: 32, den: 1 }) {
            None => None,
            Some(d) => rat_mul(d, Rat { num: 5, den: 9 }),
        }
    } else if chars_eq(from, &u_k) || chars_eq(from, &u_kelvin) {
        rat_sub(v, Rat { num: 5463, den: 20 })
    } else {
        None
    };
    match c {
        None => None,
        Some(cv) => {
            if chars_eq(to, &u_c) || chars_eq(to, &u_celsius) {
                Some(cv)
            } else if chars_eq(to, &u_f) || chars_eq(to, &u_fahrenheit) {
                match rat_mul(cv, Rat { num: 9, den: 5 }) {
                    None => None,
                    Some(d) => rat_add(d, Rat { num: 32, den: 1 }),
                }
            } else if chars_eq(to, &u_k) || chars_eq(to, &u_kelvin) {
                rat_add(cv, Rat { num: 5463, den: 20 })
            } else {
                None
            }
        },
    }
}

fn convert_chars(v: Rat, from: &Vec<char>, to: &Vec<char>) -> (r: Option<Rat>)
    requires
        rat_wf(v),
    ensures
        r == spec_convert(v, from@, to@),
        r matches Some(x) ==> rat_wf(x),
{
    let lf = length_factor_of(from);
    let lt = length_factor_of(to);
    if lf.is_some() && lt.is_some() {
        return linear(v, lf.unwrap(), lt.unwrap());
    }
    let wf_ = weight_factor_of(from);
    let wt = weight_factor_of(to);
    if wf_.is_some() && wt.is_some() {
        return linear(v, wf_.unwrap(), wt.unwrap());
    }
    if temp_unit(from) && temp_unit(to) {
        return convert_temperature(v, from, to);
    }
    let tf = time_factor_of(from);
    let tt = time_factor_of(to);
    if tf.is_some() && tt.is_some() {
        return linear(v, tf.unwrap(), tt.unwrap());
    }
    let df_ = data_factor_of(from);
    let dt = data_factor_of(to);
    if df_.is_some() && dt.is_some() {
        return linear(v, df_.unwrap(), dt.unwrap());
    }
    None
}

} // verus!
