//! Text renderings of file metadata: permission bits, sizes and times.
use vstd::prelude::*;

verus! {

/// The character of a decimal digit, as text.
pub open spec fn digit_text(d: nat) -> Seq<char> {
    if d == 0 { "0"@ }
    else if d == 1 { "1"@ }
    else if d == 2 { "2"@ }
    else if d == 3 { "3"@ }
    else if d == 4 { "4"@ }
    else if d == 5 { "5"@ }
    else if d == 6 { "6"@ }
    else if d == 7 { "7"@ }
    else if d == 8 { "8"@ }
    else { "9"@ }
}

/// The decimal rendering of `n`, without leading zeros.
pub open spec fn decimal(n: nat) -> Seq<char>
    decreases n,
{
    if n < 10 {
        digit_text(n)
    } else {
        decimal(n / 10) + digit_text(n % 10)
    }
}

/// `n` in decimal, padded with a leading zero to at least two digits.
pub open spec fn pad2(n: nat) -> Seq<char> {
    if n < 10 { "0"@ + decimal(n) } else { decimal(n) }
}

/// Below 100, the padded rendering has exactly two digits.
proof fn lemma_pad2_len(n: nat)
    requires
        n < 100,
    ensures
        pad2(n).len() == 2,
{
    reveal_strlit("0");
    reveal_strlit("1");
    reveal_strlit("2");
    reveal_strlit("3");
    reveal_strlit("4");
    reveal_strlit("5");
    reveal_strlit("6");
    reveal_strlit("7");
    reveal_strlit("8");
    reveal_strlit("9");
    if n >= 10 {
        assert(decimal(n) == decimal(n / 10) + digit_text(n % 10));
        assert(decimal(n / 10) == digit_text(n / 10));
    }
}

fn push_digit(s: &mut String, d: u128)
    requires
        d < 10,
    ensures
        final(s)@ == old(s)@ + digit_text(d as nat),
{
    if d == 0 { s.append("0"); }
    else if d == 1 { s.append("1"); }
    else if d == 2 { s.append("2"); }
    else if d == 3 { s.append("3"); }
    else if d == 4 { s.append("4"); }
    else if d == 5 { s.append("5"); }
    else if d == 6 { s.append("6"); }
    else if d == 7 { s.append("7"); }
    else if d == 8 { s.append("8"); }
    else { s.append("9"); }
}

fn push_decimal(s: &mut String, n: u128)
    ensures
        final(s)@ == old(s)@ + decimal(n as nat),
    decreases n,
{
    if n >= 10 {
        push_decimal(s, n / 10);
    }
    push_digit(s, n % 10);
    proof {
        if n >= 10 {
            assert(final(s)@ =~= old(s)@ + decimal(n as nat));
        }
    }
}

fn push_pad2(s: &mut String, n: u32)
    ensures
        final(s)@ == old(s)@ + pad2(n as nat),
{
    if n < 10 {
        s.append("0");
    }
    push_decimal(s, n as u128);
    proof {
        assert(final(s)@ =~= old(s)@ + pad2(n as nat));
    }
}

// ---------------------------------------------------------------------------
// Permissions

/// One `rwx` group: the read, write and execute bits of the low three bits of `bits`.
pub open spec fn rwx_text(bits: u32) -> Seq<char> {
    (if bits & 4 != 0 { "r"@ } else { "-"@ })
        + (if bits & 2 != 0 { "w"@ } else { "-"@ })
        + (if bits & 1 != 0 { "x"@ } else { "-"@ })
}

/// The nine-character rendering of the owner, group and other bits of a mode.
pub open spec fn perm_text(bits: u32) -> Seq<char> {
    rwx_text(bits >> 6) + rwx_text(bits >> 3) + rwx_text(bits)
}

/// Appends the `rwx` rendering of the low three bits of `bits`.
pub fn rwx(s: &mut String, bits: u32)
    ensures
        final(s)@ == old(s)@ + rwx_text(bits),
{
    if bits & 4 != 0 { s.append("r"); } else { s.append("-"); }
    if bits & 2 != 0 { s.append("w"); } else { s.append("-"); }
    if bits & 1 != 0 { s.append("x"); } else { s.append("-"); }
    proof {
        assert(final(s)@ =~= old(s)@ + rwx_text(bits));
    }
}

/// Renders the permission bits of a Unix mode as `rwxr-xr-x`.
pub fn getPerm(bits: u32) -> (r: String)
    ensures
        r@ == perm_text(bits),
{
    let mut s = String::new();
    rwx(&mut s, bits >> 6);
    rwx(&mut s, bits >> 3);
    rwx(&mut s, bits);
    proof {
        assert(s@ =~= perm_text(bits));
    }
    s
}


// ---------------------------------------------------------------------------
// Sizes

/// 1024 to the power `k`, for the units up to petabytes.
pub open spec fn unit_divisor(k: nat) -> nat {
    if k == 0 { 1 }
    else if k == 1 { 1024 }
    else if k == 2 { 1048576 }
    else if k == 3 { 1073741824 }
    else if k == 4 { 1099511627776 }
    else { 1125899906842624 }
}

/// The unit a byte count is shown in: the count is divided by 1024 while it
/// is at least 1024, up to petabytes, so 1024 bytes show as `1 kB`.
pub open spec fn size_unit(len: nat) -> nat {
    if len >= unit_divisor(5) { 5 }
    else if len >= unit_divisor(4) { 4 }
    else if len >= unit_divisor(3) { 3 }
    else if len >= unit_divisor(2) { 2 }
    else if len >= unit_divisor(1) { 1 }
    else { 0 }
}

pub open spec fn unit_name(k: nat) -> Seq<char> {
    if k == 0 { "B"@ }
    else if k == 1 { "kB"@ }
    else if k == 2 { "MB"@ }
    else if k == 3 { "GB"@ }
    else if k == 4 { "TB"@ }
    else { "PB"@ }
}

/// The scaled size in hundredths of its unit, rounded half up.
pub open spec fn size_hundredths(len: nat) -> nat {
    let d = unit_divisor(size_unit(len));
    (200 * len + d) / (2 * d)
}

/// The rendering of a byte count: no decimals where the rounded value is whole,
/// two otherwise, then the unit.
pub open spec fn size_text(len: nat) -> Seq<char> {
    let h = size_hundredths(len);
    let unit = " "@ + unit_name(size_unit(len));
    if h % 100 == 0 {
        decimal(h / 100) + unit
    } else {
        decimal(h / 100) + "."@ + pad2(h % 100) + unit
    }
}

fn unit_of(len: u64) -> (r: (usize, u64))
    ensures
        r.0 == size_unit(len as nat),
        r.1 == unit_divisor(r.0 as nat),
{
    if len >= 1125899906842624 { (5, 1125899906842624) }
    else if len >= 1099511627776 { (4, 1099511627776) }
    else if len >= 1073741824 { (3, 1073741824) }
    else if len >= 1048576 { (2, 1048576) }
    else if len >= 1024 { (1, 1024) }
    else { (0, 1) }
}

fn push_unit_name(s: &mut String, k: usize)
    ensures
        final(s)@ == old(s)@ + unit_name(k as nat),
{
    if k == 0 { s.append("B"); }
    else if k == 1 { s.append("kB"); }
    else if k == 2 { s.append("MB"); }
    else if k == 3 { s.append("GB"); }
    else if k == 4 { s.append("TB"); }
    else { s.append("PB"); }
}

/// Renders a byte count in the largest fitting unit, as `1.50 kB` or `4 kB`.
pub fn getSize(byteLength: u64) -> (r: String)
    ensures
        r@ == size_text(byteLength as nat),
{
    let (k, d) = unit_of(byteLength);
    let d = d as u128;
    let h: u128 = (200 * (byteLength as u128) + d) / (2 * d);
    let mut s = String::new();
    push_decimal(&mut s, h / 100);
    if h % 100 != 0 {
        s.append(".");
        push_pad2(&mut s, (h % 100) as u32);
    }
    s.append(" ");
    push_unit_name(&mut s, k);
    proof {
        assert(s@ =~= size_text(byteLength as nat));
    }
    s
}


// ---------------------------------------------------------------------------
// Modification times, in seconds since the Unix epoch, shown in UTC

/// Whether chrono can represent the UTC date and time of `secs`.
pub uninterp spec fn utc_representable(secs: int) -> bool;

/// The English three-letter name of weekday `d`, counted from Sunday.
pub open spec fn weekday_name(d: int) -> Seq<char> {
    if d == 0 { "Sun"@ }
    else if d == 1 { "Mon"@ }
    else if d == 2 { "Tue"@ }
    else if d == 3 { "Wed"@ }
    else if d == 4 { "Thu"@ }
    else if d == 5 { "Fri"@ }
    else { "Sat"@ }
}

/// The weekday of `secs` in UTC, counted from Sunday: the epoch fell on a Thursday.
pub open spec fn utc_weekday(secs: int) -> int {
    (secs / 86400 + 4) % 7
}

/// chrono's abbreviated English month name (`%b`) of `secs` in UTC.
pub uninterp spec fn utc_month_abbrev(secs: int) -> Seq<char>;

/// chrono's day of the month of `secs` in UTC.
pub uninterp spec fn utc_day_of_month(secs: int) -> u32;

/// Relies on chrono's `DateTime::from_timestamp`: `Some` exactly for the
/// seconds that it can represent.
#[verifier::external_body]
fn utc_in_range(secs: i64) -> (r: bool)
    ensures
        r == utc_representable(secs as int),
{
    chrono::DateTime::from_timestamp(secs, 0).is_some()
}

/// Relies on chrono's `DateTime::format` with `%a` on the date of `secs`:
/// the English name of its weekday, always three letters.
#[verifier::external_body]
fn weekday_abbrev(secs: i64) -> (r: String)
    requires
        utc_representable(secs as int),
    ensures
        r@ == weekday_name(utc_weekday(secs as int)),
        r@.len() == 3,
{
    chrono::DateTime::from_timestamp(secs, 0).unwrap().format("%a").to_string()
}

/// Relies on chrono's `DateTime::format` with `%b` on the date of `secs`:
/// an English name, always three letters.
#[verifier::external_body]
fn month_abbrev(secs: i64) -> (r: String)
    requires
        utc_representable(secs as int),
    ensures
        r@ == utc_month_abbrev(secs as int),
        r@.len() == 3,
{
    chrono::DateTime::from_timestamp(secs, 0).unwrap().format("%b").to_string()
}

/// Relies on chrono's `Datelike::day` on the date of `secs`: from 1 to 31.
#[verifier::external_body]
fn day_of_month(secs: i64) -> (r: u32)
    requires
        utc_representable(secs as int),
    ensures
        r == utc_day_of_month(secs as int),
        1 <= r <= 31,
{
    chrono::Datelike::day(&chrono::DateTime::from_timestamp(secs, 0).unwrap())
}

/// `<weekday> <month> <DD> <HH>:<MM>` from its parts.
pub open spec fn time_fields_text(weekday: Seq<char>, month: Seq<char>, day: nat, hour: nat, minute: nat) -> Seq<char> {
    weekday + " "@ + month + " "@ + pad2(day) + " "@ + pad2(hour) + ":"@ + pad2(minute)
}

/// The rendering of a modification time given in seconds since the epoch.
pub open spec fn time_text(secs: int) -> Seq<char> {
    let in_day = secs % 86400;
    time_fields_text(
        weekday_name(utc_weekday(secs)),
        utc_month_abbrev(secs),
        utc_day_of_month(secs) as nat,
        (in_day / 3600) as nat,
        (in_day % 3600 / 60) as nat,
    )
}

/// Lays out a time as `Tue Jan 05 14:32` from its weekday and month names,
/// day of the month, hour and minute.
pub fn formatTime(weekday: &str, month: &str, day: u32, hour: u32, minute: u32) -> (r: String)
    ensures
        r@ == time_fields_text(weekday@, month@, day as nat, hour as nat, minute as nat),
{
    let mut s = String::from_str(weekday);
    s.append(" ");
    s.append(month);
    s.append(" ");
    push_pad2(&mut s, day);
    s.append(" ");
    push_pad2(&mut s, hour);
    s.append(":");
    push_pad2(&mut s, minute);
    proof {
        assert(s@ =~= time_fields_text(weekday@, month@, day as nat, hour as nat, minute as nat));
    }
    s
}

/// The seconds elapsed since midnight UTC.
fn seconds_of_day(secs: i64) -> (r: u32)
    ensures
        r as int == secs as int % 86400,
{
    if secs >= 0 {
        ((secs as u64) % 86400) as u32
    } else {
        let neg: u64 = (-(secs as i128)) as u64;
        let m: u64 = neg % 86400;
        let q: u64 = neg / 86400;
        if m == 0 {
            proof {
                vstd::arithmetic::div_mod::lemma_fundamental_div_mod_converse(secs as int, 86400, -(q as int), 0);
            }
            0
        } else {
            proof {
                vstd::arithmetic::div_mod::lemma_fundamental_div_mod_converse(
                    secs as int,
                    86400,
                    -(q as int) - 1,
                    86400 - m as int,
                );
            }
            (86400 - m) as u32
        }
    }
}

/// Renders a modification time, given in seconds since the Unix epoch, as
/// `Tue Jan 05 14:32` in UTC; `None` where the time lies outside what chrono
/// can represent.
pub fn getModified(secs: i64) -> (r: Option<String>)
    ensures
        r is None <==> !utc_representable(secs as int),
        r matches Some(t) ==> t@ == time_text(secs as int),
        r matches Some(t) ==> t@.len() == 16,
{
    if !utc_in_range(secs) {
        return None;
    }
    let weekday = weekday_abbrev(secs);
    let month = month_abbrev(secs);
    let day = day_of_month(secs);
    let in_day = seconds_of_day(secs);
    let t = formatTime(weekday.as_str(), month.as_str(), day, in_day / 3600, in_day % 3600 / 60);
    proof {
        lemma_pad2_len(day as nat);
        lemma_pad2_len((in_day / 3600) as nat);
        lemma_pad2_len((in_day % 3600 / 60) as nat);
        reveal_strlit(" ");
        reveal_strlit(":");
    }
    Some(t)
}

} // verus!
