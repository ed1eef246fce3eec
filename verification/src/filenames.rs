//! Canonical asset file names: each slot is stored as `HH-MM.wav` under the
//! `voice_files` directory, and only names of exactly that shape count when
//! a directory is validated.

use vstd::prelude::*;
use vstd::arithmetic::div_mod::{
    lemma_div_is_ordered, lemma_fundamental_div_mod, lemma_mod_pos_bound,
};
use crate::digits::{
    digit_char, digit_val, is_digit_char, lemma_digit_round_trip, two_digit_chars,
    two_digit_string,
};

verus! {

/// The canonical file name of a slot: zero-padded hour, dash, zero-padded
/// minute, and the `.wav` extension.
pub open spec fn filename_chars(h: int, m: int) -> Seq<char> {
    two_digit_chars(h) + seq!['-'] + two_digit_chars(m) + seq!['.', 'w', 'a', 'v']
}

/// The directory every asset lives in.
pub open spec fn dir_prefix_chars() -> Seq<char> {
    seq!['v', 'o', 'i', 'c', 'e', '_', 'f', 'i', 'l', 'e', 's', '/']
}

/// The canonical path of a slot's asset file.
pub open spec fn voice_path_chars(h: int, m: int) -> Seq<char> {
    dir_prefix_chars() + filename_chars(h, m)
}

/// Whether a name is a canonical slot file name: two digits reading below
/// 24, a dash, two digits reading below 60, then `.wav`, and nothing else.
pub open spec fn is_slot_filename(s: Seq<char>) -> bool {
    &&& s.len() == 9
    &&& is_digit_char(s[0]) && is_digit_char(s[1])
    &&& digit_val(s[0]) * 10 + digit_val(s[1]) < 24
    &&& s[2] == '-'
    &&& is_digit_char(s[3]) && is_digit_char(s[4])
    &&& digit_val(s[3]) <= 5
    &&& s[5] == '.' && s[6] == 'w' && s[7] == 'a' && s[8] == 'v'
}

/// The hour a canonical slot file name reads as.
pub open spec fn filename_hour(s: Seq<char>) -> int {
    digit_val(s[0]) * 10 + digit_val(s[1])
}

/// The minute a canonical slot file name reads as.
pub open spec fn filename_minute(s: Seq<char>) -> int {
    digit_val(s[3]) * 10 + digit_val(s[4])
}

/// Builds the canonical file name `HH-MM.wav` of a slot.
pub fn canonical_filename(hour: u8, minute: u8) -> (r: String)
    requires
        hour < 24,
        minute < 60,
    ensures
        r@ == filename_chars(hour as int, minute as int),
{
    proof {
        reveal_strlit("-");
        reveal_strlit(".wav");
    }
    let mut s = two_digit_string(hour);
    s.append("-");
    let mm = two_digit_string(minute);
    s.append(mm.as_str());
    s.append(".wav");
    proof {
        assert(s@ =~= filename_chars(hour as int, minute as int));
    }
    s
}

/// Builds the canonical path `voice_files/HH-MM.wav` of a slot's asset.
pub fn voice_path(hour: u8, minute: u8) -> (r: String)
    requires
        hour < 24,
        minute < 60,
    ensures
        r@ == voice_path_chars(hour as int, minute as int),
{
    proof {
        reveal_strlit("voice_files/");
    }
    let mut s = String::from_str("voice_files/");
    let name = canonical_filename(hour, minute);
    s.append(name.as_str());
    proof {
        assert(s@ =~= voice_path_chars(hour as int, minute as int));
    }
    s
}

/// The decimal value of a digit character, or nothing for any other
/// character.
pub fn digit_of(c: char) -> (r: Option<u8>)
    ensures
        match r {
            Some(d) => is_digit_char(c) && d == digit_val(c),
            None => !is_digit_char(c),
        },
{
    match c {
        '0' => Some(0),
        '1' => Some(1),
        '2' => Some(2),
        '3' => Some(3),
        '4' => Some(4),
        '5' => Some(5),
        '6' => Some(6),
        '7' => Some(7),
        '8' => Some(8),
        '9' => Some(9),
        _ => None,
    }
}

/// Parses a canonical slot file name back into its (hour, minute) pair;
/// any name not of the canonical shape is rejected.
pub fn parse_filename(name: &str) -> (r: Option<(u8, u8)>)
    ensures
        match r {
            Some(hm) => is_slot_filename(name@) && hm.0 == filename_hour(name@) && hm.1
                == filename_minute(name@),
            None => !is_slot_filename(name@),
        },
{
    let n = name.unicode_len();
    if n != 9 {
        return None;
    }
    let d0 = match digit_of(name.get_char(0)) {
        Some(d) => d,
        None => { return None; },
    };
    let d1 = match digit_of(name.get_char(1)) {
        Some(d) => d,
        None => { return None; },
    };
    if name.get_char(2) != '-' {
        return None;
    }
    let d3 = match digit_of(name.get_char(3)) {
        Some(d) => d,
        None => { return None; },
    };
    let d4 = match digit_of(name.get_char(4)) {
        Some(d) => d,
        None => { return None; },
    };
    if name.get_char(5) != '.' || name.get_char(6) != 'w' || name.get_char(7) != 'a'
        || name.get_char(8) != 'v' {
        return None;
    }
    let hour = d0 * 10 + d1;
    if hour >= 24 {
        return None;
    }
    if d3 > 5 {
        return None;
    }
    let minute = d3 * 10 + d4;
    Some((hour, minute))
}

/// The canonical file name of a valid slot round-trips: it matches the slot
/// file pattern and reads back as the same hour and minute.
pub proof fn lemma_filename_round_trip(h: int, m: int)
    requires
        0 <= h < 24,
        0 <= m < 60,
    ensures
        is_slot_filename(filename_chars(h, m)),
        filename_hour(filename_chars(h, m)) == h,
        filename_minute(filename_chars(h, m)) == m,
{
    let s = filename_chars(h, m);
    lemma_fundamental_div_mod(h, 10);
    lemma_mod_pos_bound(h, 10);
    lemma_fundamental_div_mod(m, 10);
    lemma_mod_pos_bound(m, 10);
    assert(s[0] == digit_char(h / 10));
    assert(s[1] == digit_char(h % 10));
    assert(s[3] == digit_char(m / 10));
    assert(s[4] == digit_char(m % 10));
    lemma_digit_round_trip(h / 10);
    lemma_digit_round_trip(h % 10);
    lemma_digit_round_trip(m / 10);
    lemma_digit_round_trip(m % 10);
    // m < 60 keeps the leading minute digit at or below 5.
    lemma_div_is_ordered(m, 59, 10);
}

} // verus!
