//! Small renderings shared by the dashboard's panes.
use vstd::prelude::*;

use crate::num::{dec, dec_string, f64_value, fixed2};
use crate::os::linux_generic::common::{GB, KB, MB, scaled};
use crate::text::{owned, push_char};
use vstd::string::StringSliceAdditionalSpecFns;

verus! {

/// An uptime of `seconds` as days, hours and minutes: `1d 2h 3m`, `2h 3m`
/// or `3m`, whichever is the largest unit that is not zero.
pub open spec fn uptime_text(seconds: nat) -> Seq<char> {
    let d = seconds / 86400;
    let h = (seconds % 86400) / 3600;
    let m = (seconds % 3600) / 60;
    if d > 0 {
        dec(d) + "d "@ + dec(h) + "h "@ + dec(m) + "m"@
    } else if h > 0 {
        dec(h) + "h "@ + dec(m) + "m"@
    } else {
        dec(m) + "m"@
    }
}

/// An uptime is shown to the minute: the seconds past the last full minute
/// never change its text, which always ends in `m`; under an hour it is
/// the minutes alone, and from a day on it has days, hours and minutes.
pub proof fn lemma_uptime_minutes(seconds: nat)
    ensures
        uptime_text(seconds) == uptime_text((seconds - seconds % 60) as nat),
        uptime_text(seconds).last() == 'm',
        seconds < 3600 ==> uptime_text(seconds) == dec(seconds / 60) + "m"@,
        seconds >= 86400 ==> uptime_text(seconds) == dec(seconds / 86400) + "d "@ + dec((seconds % 86400) / 3600)
            + "h "@ + dec((seconds % 3600) / 60) + "m"@,
{
    reveal_strlit("m");
    let s = seconds as int;
    let q = s / 60;
    let t = s - s % 60;
    assert(t == 60 * q) by (nonlinear_arith)
        requires
            q == s / 60,
            t == s - s % 60,
            s >= 0,
    ;
    assert(t / 86400 == s / 86400 && (t % 86400) / 3600 == (s % 86400) / 3600 && (t % 3600) / 60 == (s % 3600) / 60)
        by (nonlinear_arith)
        requires
            t == 60 * q,
            q == s / 60,
            s >= 0,
    ;
    if seconds < 3600 {
        assert(seconds % 86400 == seconds && seconds % 3600 == seconds);
    }
}

/// Renders an uptime given in seconds.
pub fn format_uptime(seconds: u64) -> (r: String)
    ensures
        r@ == uptime_text(seconds as nat),
{
    let d = seconds / 86400;
    let h = (seconds % 86400) / 3600;
    let m = (seconds % 3600) / 60;
    let mut s = String::new();
    if d > 0 {
        s.append(dec_string(d).as_str());
        s.append("d ");
    }
    if d > 0 || h > 0 {
        s.append(dec_string(h).as_str());
        s.append("h ");
    }
    s.append(dec_string(m).as_str());
    s.append("m");
    proof {
        reveal_strlit("");
    }
    s
}

/// `bytes` in the largest binary unit up to gigabytes that it reaches,
/// with two decimals; below a kilobyte, the plain number of bytes.
pub open spec fn dash_bytes_text(bytes: nat) -> Seq<char> {
    if bytes >= GB {
        fixed2(f64_value(bytes), GB as nat) + " GB"@
    } else if bytes >= MB {
        fixed2(f64_value(bytes), MB as nat) + " MB"@
    } else if bytes >= KB {
        fixed2(f64_value(bytes), KB as nat) + " KB"@
    } else {
        dec(bytes) + " B"@
    }
}

/// Renders a byte count in B, KB, MB or GB.
pub fn format_bytes(bytes: u64) -> (r: String)
    ensures
        r@ == dash_bytes_text(bytes as nat),
{
    if bytes >= GB {
        scaled(bytes, GB, " GB")
    } else if bytes >= MB {
        scaled(bytes, MB, " MB")
    } else if bytes >= KB {
        scaled(bytes, KB, " KB")
    } else {
        let mut s = dec_string(bytes);
        s.append(" B");
        s
    }
}

/// The colours that tell users apart.
#[derive(Clone, Copy, Debug, PartialEq, Eq, Structural)]
pub enum UserColor {
    Red,
    Green,
    Yellow,
    Blue,
    Magenta,
    Cyan,
}

/// The sum of the bytes, wrapping at 2^64.
pub open spec fn byte_sum(b: Seq<u8>) -> u64
    decreases b.len(),
{
    if b.len() == 0 {
        0
    } else {
        ((byte_sum(b.drop_last()) + b.last()) % 0x1_0000_0000_0000_0000) as u64
    }
}

/// The colour at a place of the palette.
pub open spec fn palette(i: nat) -> UserColor {
    if i == 0 {
        UserColor::Red
    } else if i == 1 {
        UserColor::Green
    } else if i == 2 {
        UserColor::Yellow
    } else if i == 3 {
        UserColor::Blue
    } else if i == 4 {
        UserColor::Magenta
    } else {
        UserColor::Cyan
    }
}

/// The colour of a user: the sum of the bytes of the name picks one of the
/// six, so that a name always gets the same colour.
pub fn get_user_color(user: &str) -> (r: UserColor)
    ensures
        r == palette(((byte_sum(user.spec_bytes()) as usize) % 6) as nat),
{
    let bytes = user.as_bytes();
    let mut hash: u64 = 0;
    let mut i: usize = 0;
    while i < bytes.len()
        invariant
            0 <= i <= bytes@.len(),
            bytes@ == user.spec_bytes(),
            hash == byte_sum(bytes@.take(i as int)),
        decreases bytes.len() - i,
    {
        assert(bytes@.take(i + 1 as int).drop_last() =~= bytes@.take(i as int));
        hash = hash.wrapping_add(bytes[i] as u64);
        i += 1;
    }
    assert(bytes@.take(bytes@.len() as int) =~= bytes@);
    let k = (hash as usize) % 6;
    if k == 0 {
        UserColor::Red
    } else if k == 1 {
        UserColor::Green
    } else if k == 2 {
        UserColor::Yellow
    } else if k == 3 {
        UserColor::Blue
    } else if k == 4 {
        UserColor::Magenta
    } else {
        UserColor::Cyan
    }
}

/// The cells of a usage bar of `width` cells whose first `filled` are full.
pub open spec fn bar_cells(filled: nat, width: nat) -> Seq<char> {
    Seq::new(width, |i: int| if i < filled { '■' } else { ' ' })
}

/// A usage bar: `width` cells between brackets, the first `filled` of them
/// full and the rest blank.
pub fn bar_of_cells(filled: u16, width: u16) -> (r: String)
    ensures
        r@ == seq!['['] + bar_cells(filled as nat, width as nat) + seq![']'],
{
    let mut bar = String::new();
    push_char(&mut bar, '[');
    let mut i: u16 = 0;
    while i < width
        invariant
            0 <= i <= width,
            bar@ == seq!['['] + bar_cells(filled as nat, i as nat),
        decreases width - i,
    {
        push_char(&mut bar, if i < filled { '■' } else { ' ' });
        assert(seq!['['] + bar_cells(filled as nat, (i + 1) as nat) =~= (seq!['['] + bar_cells(
            filled as nat,
            i as nat,
        )).push(if i < filled { '■' } else { ' ' }));
        i += 1;
    }
    push_char(&mut bar, ']');
    bar
}

} // verus!
