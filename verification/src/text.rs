//! The canonical spoken text of a slot, the utterance handed to the
//! synthesis service.

use vstd::prelude::*;
use crate::digits::{dec_chars, decimal_string};

verus! {

/// The spoken reading of an hour: hour zero is read with its own numeral
/// token, every other hour as its plain decimal numeral.
pub open spec fn hour_reading(h: int) -> Seq<char> {
    if h == 0 {
        seq!['零']
    } else {
        dec_chars(h)
    }
}

/// The announcement text of a slot: the hour reading and the hour marker,
/// then for off-the-hour slots the minute and the minute marker, then the
/// closing copula.
pub open spec fn slot_text_chars(h: int, m: int) -> Seq<char> {
    hour_reading(h) + seq!['時'] + (if m == 0 {
        Seq::<char>::empty()
    } else {
        dec_chars(m) + seq!['分']
    }) + seq!['で', 'す']
}

/// Builds the announcement text spoken at a slot.
pub fn slot_text(hour: u8, minute: u8) -> (r: String)
    requires
        hour < 24,
        minute < 60,
    ensures
        r@ == slot_text_chars(hour as int, minute as int),
{
    proof {
        reveal_strlit("零");
        reveal_strlit("時");
        reveal_strlit("分");
        reveal_strlit("です");
    }
    let mut s = String::new();
    if hour == 0 {
        s.append("零");
    } else {
        let hs = decimal_string(hour as u32);
        s.append(hs.as_str());
    }
    s.append("時");
    if minute != 0 {
        let ms = decimal_string(minute as u32);
        s.append(ms.as_str());
        s.append("分");
    }
    s.append("です");
    proof {
        assert(s@ =~= slot_text_chars(hour as int, minute as int));
    }
    s
}

} // verus!
