use vstd::prelude::*;

verus! {

/// The decimal digit character for `d`.
pub open spec fn spec_digit(d: nat) -> char {
    if d == 0 {
        '0'
    } else if d == 1 {
        '1'
    } else if d == 2 {
        '2'
    } else if d == 3 {
        '3'
    } else if d == 4 {
        '4'
    } else if d == 5 {
        '5'
    } else if d == 6 {
        '6'
    } else if d == 7 {
        '7'
    } else if d == 8 {
        '8'
    } else {
        '9'
    }
}

/// The decimal numeral of `n`, most significant digit first, no sign and no
/// leading zeros (a lone zero for `n == 0`).
pub open spec fn spec_dec(n: nat) -> Seq<char>
    decreases n,
{
    if n < 10 {
        seq![spec_digit(n)]
    } else {
        spec_dec(n / 10).push(spec_digit(n % 10))
    }
}

/// What `format_duration` prints for a duration of `n` whole seconds: units
/// from the largest non-zero one downward, every smaller unit reduced modulo
/// the size of the unit above it, with one year counted as 365 days, one
/// month as 30 days and one week as 7 days.
pub open spec fn spec_format_duration(n: nat) -> Seq<char> {
    let minutes = n / 60;
    let hours = minutes / 60;
    let days = hours / 24;
    let weeks = days / 7;
    let months = days / 30;
    let years = days / 365;
    if years > 0 {
        spec_dec(years) + " years, "@ + spec_dec(months % 12) + " months, "@ + spec_dec(
            weeks % 4,
        ) + " weeks, "@ + spec_dec(days % 7) + " days, "@ + spec_dec(hours % 24) + " hours, "@
            + spec_dec(minutes % 60) + " minutes, "@ + spec_dec(n % 60) + " seconds."@
    } else if months > 0 {
        spec_dec(months) + " months, "@ + spec_dec(weeks % 4) + " weeks, "@ + spec_dec(days % 7)
            + " days, "@ + spec_dec(hours % 24) + " hours, "@ + spec_dec(minutes % 60)
            + " minutes, "@ + spec_dec(n % 60) + " seconds."@
    } else if weeks > 0 {
        spec_dec(weeks) + " weeks, "@ + spec_dec(days % 7) + " days, "@ + spec_dec(hours % 24)
            + " hours, "@ + spec_dec(minutes % 60) + " minutes, "@ + spec_dec(n % 60)
            + " seconds."@
    } else if days > 0 {
        spec_dec(days) + " days, "@ + spec_dec(hours % 24) + " hours, "@ + spec_dec(minutes % 60)
            + " minutes, "@ + spec_dec(n % 60) + " seconds."@
    } else if hours > 0 {
        spec_dec(hours) + " hours, "@ + spec_dec(minutes % 60) + " minutes, "@ + spec_dec(n % 60)
            + " seconds."@
    } else if minutes > 0 {
        spec_dec(minutes) + " minutes, "@ + spec_dec(n % 60) + " seconds."@
    } else {
        spec_dec(n) + " seconds."@
    }
}

/// The one-character string for the decimal digit `d`.
fn digit_str(d: u64) -> (r: &'static str)
    requires
        d < 10,
    ensures
        r@ == spec_dec(d as nat),
{
    proof {
        reveal_strlit("0");
        reveal_strlit("1");
        reveal_strlit("2");
        reveal_strlit("3");
        reveal_strlit("4");
        reveal_strlit("5");
        reveal_strlit("6");
        reveal_strlit("7");
        reveal_strlit("8");
        reveal_strlit("9");
    }
    let r: &'static str = if d == 0 {
        "0"
    } else if d == 1 {
        "1"
    } else if d == 2 {
        "2"
    } else if d == 3 {
        "3"
    } else if d == 4 {
        "4"
    } else if d == 5 {
        "5"
    } else if d == 6 {
        "6"
    } else if d == 7 {
        "7"
    } else if d == 8 {
        "8"
    } else {
        "9"
    };
    proof {
        assert(r@ =~= seq![spec_digit(d as nat)]);
    }
    r
}

/// The decimal numeral of `n` as a string.
pub fn u64_to_dec(n: u64) -> (r: String)
    ensures
        r@ == spec_dec(n as nat),
    decreases n,
{
    if n < 10 {
        String::from_str(digit_str(n))
    } else {
        let mut r = u64_to_dec(n / 10);
        r.append(digit_str(n % 10));
        proof {
            assert(r@ =~= spec_dec(n as nat));
        }
        r
    }
}

/// Appends the decimal numeral of `value` followed by `suffix`.
fn append_num(r: &mut String, value: u64, suffix: &'static str)
    ensures
        final(r)@ == old(r)@ + spec_dec(value as nat) + suffix@,
{
    let num = u64_to_dec(value);
    r.append(num.as_str());
    r.append(suffix);
}

/// Renders a duration of `total_seconds` whole seconds as text, from the
/// largest non-zero unit downward, ending in `"<N> seconds."`.
pub fn format_duration(total_seconds: u64) -> (r: String)
    ensures
        r@ == spec_format_duration(total_seconds as nat),
{
    let seconds = total_seconds;
    let minutes = seconds / 60;
    let hours = minutes / 60;
    let days = hours / 24;
    let weeks = days / 7;
    let months = days / 30;
    let years = days / 365;
    let mut r = String::new();
    if years > 0 {
        append_num(&mut r, years, " years, ");
        append_num(&mut r, months % 12, " months, ");
        append_num(&mut r, weeks % 4, " weeks, ");
        append_num(&mut r, days % 7, " days, ");
        append_num(&mut r, hours % 24, " hours, ");
        append_num(&mut r, minutes % 60, " minutes, ");
        append_num(&mut r, seconds % 60, " seconds.");
    } else if months > 0 {
        append_num(&mut r, months, " months, ");
        append_num(&mut r, weeks % 4, " weeks, ");
        append_num(&mut r, days % 7, " days, ");
        append_num(&mut r, hours % 24, " hours, ");
        append_num(&mut r, minutes % 60, " minutes, ");
        append_num(&mut r, seconds % 60, " seconds.");
    } else if weeks > 0 {
        append_num(&mut r, weeks, " weeks, ");
        append_num(&mut r, days % 7, " days, ");
        append_num(&mut r, hours % 24, " hours, ");
        append_num(&mut r, minutes % 60, " minutes, ");
        append_num(&mut r, seconds % 60, " seconds.");
    } else if days > 0 {
        append_num(&mut r, days, " days, ");
        append_num(&mut r, hours % 24, " hours, ");
        append_num(&mut r, minutes % 60, " minutes, ");
        append_num(&mut r, seconds % 60, " seconds.");
    } else if hours > 0 {
        append_num(&mut r, hours, " hours, ");
        append_num(&mut r, minutes % 60, " minutes, ");
        append_num(&mut r, seconds % 60, " seconds.");
    } else if minutes > 0 {
        append_num(&mut r, minutes, " minutes, ");
        append_num(&mut r, seconds % 60, " seconds.");
    } else {
        append_num(&mut r, seconds, " seconds.");
    }
    proof {
        assert(r@ =~= spec_format_duration(total_seconds as nat));
    }
    r
}

/// Law: every numeric component that a formatted duration prints below its
/// leading unit is reduced modulo the size of the unit above it, so the
/// seconds and minutes shown stay below 60, the hours below 24, the days
/// below 7, the weeks below 4 and the months below 12.
pub proof fn lemma_format_components_bounded(n: nat)
    ensures
        n % 60 < 60,
        (n / 60) % 60 < 60,
        ((n / 60) / 60) % 24 < 24,
        (((n / 60) / 60) / 24) % 7 < 7,
        ((((n / 60) / 60) / 24) / 7) % 4 < 4,
        ((((n / 60) / 60) / 24) / 30) % 12 < 12,
{
}

} // verus!
