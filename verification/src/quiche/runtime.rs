//! How many threads the server runs on.

use crate::text::{
    law_plus_sign_makes_no_difference, lemma_digits_of_number, number_text, numeral_value,
    parse_number,
};
use vstd::prelude::*;

verus! {

/// The least number of worker threads that is chosen where none is asked for: one of them stays
/// free for the listener while a connection keeps another busy.
pub const MIN_WORKER_THREADS: usize = 2;

/// The number of threads that a setting asks for: a number from one up.
pub open spec fn setting_value(setting: Seq<char>) -> Option<nat> {
    match numeral_value(setting, 10, usize::MAX as nat) {
        Some(n) => if n >= 1 {
            Some(n)
        } else {
            None
        },
        None => None,
    }
}

/// The number of threads that a setting asks for, if there is one and it asks for any.
pub open spec fn asked_threads(setting: Option<&str>) -> Option<nat> {
    match setting {
        Some(s) => setting_value(s@),
        None => None,
    }
}

/// The number of threads where none is asked for.
pub open spec fn detected_threads(available: Option<usize>) -> nat {
    match available {
        Some(n) => if n >= MIN_WORKER_THREADS {
            n as nat
        } else {
            MIN_WORKER_THREADS as nat
        },
        None => MIN_WORKER_THREADS as nat,
    }
}

/// The number of threads that a setting asks for; none where it is not a positive integer.
pub fn parse_setting(setting: &str) -> (r: Option<usize>)
    ensures
        match setting_value(setting@) {
            Some(n) => r matches Some(v) && v as nat == n,
            None => r is None,
        },
{
    match parse_number(setting, 10, usize::MAX as u128) {
        Some(n) => if n >= 1 {
            Some(n as usize)
        } else {
            None
        },
        None => None,
    }
}

/// The number of worker threads: what the setting asks for, or else as many as the machine can run
/// at once.
pub fn worker_thread_count(setting: Option<&str>, available: Option<usize>) -> (r: usize)
    ensures
        r as nat == (match asked_threads(setting) {
            Some(n) => n,
            None => detected_threads(available),
        }),
        r >= 1,
{
    if let Some(s) = setting {
        if let Some(n) = parse_setting(s) {
            return n;
        }
    }
    match available {
        Some(n) => if n >= MIN_WORKER_THREADS {
            n
        } else {
            MIN_WORKER_THREADS
        },
        None => MIN_WORKER_THREADS,
    }
}

/// A setting that is the text of a positive number asks for that many threads, with a plus sign or
/// without, and zero asks for none. Only a numeral asks for any.
pub proof fn law_setting_asks_for_its_number(n: usize, setting: Seq<char>)
    ensures
        setting_value(number_text(n as nat, 10)) == (if n >= 1 {
            Some(n as nat)
        } else {
            None
        }),
        setting_value(seq!['+'] + number_text(n as nat, 10)) == setting_value(
            number_text(n as nat, 10),
        ),
        setting_value(setting) matches Some(m) ==> m >= 1 && numeral_value(
            setting,
            10,
            usize::MAX as nat,
        ) == Some(m),
        numeral_value(setting, 10, usize::MAX as nat) matches Some(m) ==> m >= 1 ==> setting_value(
            setting,
        ) == Some(m),
{
    lemma_digits_of_number(n as nat, 10);
    law_plus_sign_makes_no_difference(number_text(n as nat, 10), 10, usize::MAX as nat);
}

/// Where no setting asks, there are as many threads as the machine runs at once, and never fewer
/// than two.
pub proof fn law_threads_without_a_setting(available: Option<usize>)
    ensures
        detected_threads(available) >= 2,
        available is None ==> detected_threads(available) == 2,
        available matches Some(n) ==> n >= 2 ==> detected_threads(available) == n,
        available matches Some(n) ==> n < 2 ==> detected_threads(available) == 2,
        asked_threads(None) is None,
{
}

/// A setting is asked exactly for what its text says.
pub proof fn law_setting_is_asked(setting: &str)
    ensures
        asked_threads(Some(setting)) == setting_value(setting@),
{
}

} // verus!
