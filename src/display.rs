//! Text pieces of the terminal view: durations, progress dots and bars.
use vstd::prelude::*;
use vstd::string::*;
use crate::estimator::div_floor;
use crate::sampler::BatteryMonitor;

verus! {

/// Seconds a run of the program lasts.
pub const PROGRAM_DURATION_SECS: u64 = 20;

/// Dots the animated cat has to eat.
pub const TOTAL_DOTS: usize = 20;

/// The decimal digits, in order.
pub open spec fn digit_chars() -> Seq<char> {
    "0123456789"@
}

/// The decimal notation of `n`, without leading zeros.
pub open spec fn decimal(n: nat) -> Seq<char>
    decreases n,
{
    if n < 10 {
        digit_chars().subrange(n as int, n as int + 1)
    } else {
        decimal(n / 10) + digit_chars().subrange((n % 10) as int, (n % 10) as int + 1)
    }
}

/// `s` repeated `n` times.
pub open spec fn repeat(s: Seq<char>, n: nat) -> Seq<char>
    decreases n,
{
    if n == 0 {
        seq![]
    } else {
        repeat(s, (n - 1) as nat) + s
    }
}

/// Appends the decimal notation of `n`.
pub fn push_decimal(out: &mut String, n: u64)
    ensures
        final(out)@ == old(out)@ + decimal(n as nat),
    decreases n,
{
    let digits = "0123456789";
    proof {
        reveal_strlit("0123456789");
    }
    if n >= 10 {
        push_decimal(out, n / 10);
        let d = (n % 10) as usize;
        out.append(digits.substring_char(d, d + 1));
        assert(out@ =~= old(out)@ + decimal(n as nat));
    } else {
        let d = n as usize;
        out.append(digits.substring_char(d, d + 1));
    }
}

/// Appends `s` repeated `n` times.
pub fn push_repeated(out: &mut String, s: &str, n: usize)
    ensures
        final(out)@ == old(out)@ + repeat(s@, n as nat),
{
    let mut i: usize = 0;
    assert(old(out)@ + repeat(s@, 0) =~= old(out)@);
    while i < n
        invariant
            i <= n,
            out@ == old(out)@ + repeat(s@, i as nat),
        decreases n - i,
    {
        out.append(s);
        i = i + 1;
        assert(out@ =~= old(out)@ + repeat(s@, i as nat));
    }
}

/// The cat's face for a given second: its mouth opens and closes.
pub open spec fn cat_face(elapsed_secs: u64) -> Seq<char> {
    let k = elapsed_secs % 4;
    if k == 0 {
        "C"@
    } else if k == 1 {
        "c"@
    } else if k == 2 {
        "o"@
    } else {
        "O"@
    }
}

/// The eating-cat animation: the cat, then the dots it has not yet eaten
/// (one a second); once all are eaten, a message says so.
pub open spec fn pacman_text(elapsed_secs: u64) -> Seq<char> {
    let eaten = if elapsed_secs > TOTAL_DOTS {
        TOTAL_DOTS as int
    } else {
        elapsed_secs as int
    };
    let remaining = (TOTAL_DOTS - eaten) as nat;
    if remaining == 0 {
        "All dots eaten!"@
    } else {
        cat_face(elapsed_secs) + repeat("●"@, remaining)
    }
}

/// The eating-cat animation frame for the given elapsed seconds.
pub fn generate_pacman_cat_animation(elapsed_secs: u64) -> (r: String)
    ensures
        r@ == pacman_text(elapsed_secs),
{
    let eaten: usize = if elapsed_secs > TOTAL_DOTS as u64 {
        TOTAL_DOTS
    } else {
        elapsed_secs as usize
    };
    let remaining = TOTAL_DOTS - eaten;
    if remaining == 0 {
        return "All dots eaten!".to_owned();
    }
    let cat = match elapsed_secs % 4 {
        0 => "C",
        1 => "c",
        2 => "o",
        _ => "O",
    };
    let mut r = cat.to_owned();
    push_repeated(&mut r, "●", remaining);
    r
}

/// The countdown: a space for each second gone, then the dots of the
/// seconds left in brackets, then how many seconds are left.
pub open spec fn countdown_text(elapsed_secs: u64) -> Seq<char> {
    let remaining: nat = if elapsed_secs >= PROGRAM_DURATION_SECS {
        0
    } else {
        (PROGRAM_DURATION_SECS - elapsed_secs) as nat
    };
    let gone = (PROGRAM_DURATION_SECS - remaining) as nat;
    repeat(" "@, gone) + "["@ + repeat("●"@, remaining) + "] "@ + decimal(remaining) + "s remaining"@
}

/// The countdown line for the given elapsed seconds.
pub fn generate_countdown_dots(elapsed_secs: u64) -> (r: String)
    ensures
        r@ == countdown_text(elapsed_secs),
{
    let remaining: u64 = PROGRAM_DURATION_SECS.saturating_sub(elapsed_secs);
    let gone = PROGRAM_DURATION_SECS - remaining;
    let mut r = String::new();
    push_repeated(&mut r, " ", gone as usize);
    r.append("[");
    push_repeated(&mut r, "●", remaining as usize);
    r.append("] ");
    push_decimal(&mut r, remaining);
    r.append("s remaining");
    assert(r@ =~= countdown_text(elapsed_secs));
    r
}

/// A minute count as hours and minutes: "2h 05m", or "45m" under an hour.
pub open spec fn time_text(minutes: nat) -> Seq<char> {
    let h = minutes / 60;
    let m = minutes % 60;
    if h > 0 {
        decimal(h) + "h "@ + (if m < 10 {
            "0"@
        } else {
            seq![]
        }) + decimal(m) + "m"@
    } else {
        decimal(m) + "m"@
    }
}

/// Thousandths of a degree Celsius in thousandths of a degree Fahrenheit,
/// rounded down.
pub open spec fn fahrenheit_spec(milli_c: int) -> int {
    milli_c * 9 / 5 + 32_000
}

/// Thousandths of a degree Celsius in thousandths of a degree Fahrenheit.
pub fn celsius_to_fahrenheit(milli_c: i64) -> (r: i128)
    ensures
        r == fahrenheit_spec(milli_c as int),
{
    div_floor(milli_c as i128 * 9, 5) + 32_000
}

/// The color escape of a battery bar: red up to 15%, yellow up to 30%,
/// green up to 80%, cyan above.
pub open spec fn bar_color(capacity: u8) -> Seq<char> {
    if capacity <= 15 {
        "\x1b[31m"@
    } else if capacity <= 30 {
        "\x1b[33m"@
    } else if capacity <= 80 {
        "\x1b[32m"@
    } else {
        "\x1b[36m"@
    }
}

/// Cells of a bar of `width` cells that are filled at `capacity` percent.
pub open spec fn filled_cells(capacity: u8, width: usize) -> nat {
    let f = (capacity * width) / 100;
    if f > width {
        width as nat
    } else {
        f as nat
    }
}

/// A colored bar of `width` cells, filled in proportion to `capacity`.
pub open spec fn bar_text(capacity: u8, width: usize) -> Seq<char> {
    let f = filled_cells(capacity, width);
    bar_color(capacity) + repeat("█"@, f) + repeat("░"@, (width - f) as nat) + "\x1b[0m"@
}

/// The change of capacity over the last five readings (or fewer): the sum
/// of the differences between each and the one before, which is the newest
/// minus the oldest of them.
pub open spec fn capacity_change(caps: Seq<u8>) -> int {
    let n = caps.len() as int;
    let k = if n < 5 {
        n
    } else {
        5
    };
    caps[n - 1] - caps[n - k]
}

/// An arrow for the capacity trend: a plain bar with fewer than two
/// readings, else green up, red down, or gray level.
pub open spec fn trend_text(caps: Seq<u8>) -> Seq<char> {
    if caps.len() < 2 {
        "━"@
    } else if capacity_change(caps) > 0 {
        "\x1b[32m↗\x1b[0m"@
    } else if capacity_change(caps) < 0 {
        "\x1b[31m↘\x1b[0m"@
    } else {
        "\x1b[37m━\x1b[0m"@
    }
}

/// The smallest of the values (0 for none).
pub open spec fn seq_min(s: Seq<i64>) -> int
    decreases s.len(),
{
    if s.len() <= 1 {
        if s.len() == 0 {
            0
        } else {
            s[0] as int
        }
    } else if s.last() < seq_min(s.drop_last()) {
        s.last() as int
    } else {
        seq_min(s.drop_last())
    }
}

/// The largest of the values (0 for none).
pub open spec fn seq_max(s: Seq<i64>) -> int
    decreases s.len(),
{
    if s.len() <= 1 {
        if s.len() == 0 {
            0
        } else {
            s[0] as int
        }
    } else if s.last() > seq_max(s.drop_last()) {
        s.last() as int
    } else {
        seq_max(s.drop_last())
    }
}

/// The span of a graph's values, at least 0.1 W.
pub open spec fn graph_range(s: Seq<i64>) -> int {
    if seq_max(s) - seq_min(s) < 100_000 {
        100_000
    } else {
        seq_max(s) - seq_min(s)
    }
}

/// The eight bar heights of a graph, lowest first.
pub open spec fn bar_glyphs() -> Seq<char> {
    "▁▂▃▄▅▆▇█"@
}

/// The bar height, 0 to 7, of value `v` on a scale from `lo` spanning `range`.
pub open spec fn bar_level(v: int, lo: int, range: int) -> int {
    let l = (v - lo) * 7 / range;
    if l > 7 {
        7
    } else {
        l
    }
}

/// The bars of values `from..to` of `s`.
pub open spec fn graph_bars(s: Seq<i64>, lo: int, range: int, from: int, to: int) -> Seq<char>
    decreases to - from,
{
    if to <= from {
        seq![]
    } else {
        let l = bar_level(s[to - 1] as int, lo, range);
        graph_bars(s, lo, range, from, to - 1) + bar_glyphs().subrange(l, l + 1)
    }
}

/// A bar graph of the last `width` power values, oldest left, scaled
/// between the smallest and largest value of the whole history; blank with
/// fewer than two values.
pub open spec fn graph_text(s: Seq<i64>, width: nat) -> Seq<char> {
    if s.len() < 2 {
        repeat(" "@, width)
    } else {
        let start = if s.len() > width {
            s.len() - width
        } else {
            0
        };
        graph_bars(s, seq_min(s), graph_range(s), start, s.len() as int)
    }
}

proof fn lemma_min_below(s: Seq<i64>, i: int)
    requires
        0 <= i < s.len(),
    ensures
        seq_min(s) <= s[i],
    decreases s.len(),
{
    if s.len() > 1 && i < s.len() - 1 {
        lemma_min_below(s.drop_last(), i);
    }
}

impl BatteryMonitor {
    /// A colored bar of `width` cells for a capacity in percent.
    pub fn get_battery_bar(&self, capacity: u8, width: usize) -> (r: String)
        ensures
            r@ == bar_text(capacity, width),
    {
        assert(capacity * width <= 255 * usize::MAX) by (nonlinear_arith)
            requires
                capacity <= 255,
                width <= usize::MAX,
        ;
        let share: u128 = (capacity as u128 * width as u128) / 100;
        let filled: usize = if share > width as u128 {
            width
        } else {
            share as usize
        };
        let color = if capacity <= 15 {
            "\x1b[31m"
        } else if capacity <= 30 {
            "\x1b[33m"
        } else if capacity <= 80 {
            "\x1b[32m"
        } else {
            "\x1b[36m"
        };
        let mut r = color.to_owned();
        push_repeated(&mut r, "█", filled);
        push_repeated(&mut r, "░", width - filled);
        r.append("\x1b[0m");
        r
    }

    /// An arrow showing whether capacity rose or fell over the last
    /// readings.
    pub fn get_trend_indicator(&self) -> (r: String)
        ensures
            r@ == trend_text(self@.readings.map_values(|x: crate::sampler::BatteryReading| x.capacity_percent)),
    {
        let caps = self.capacity_history();
        let ghost want = self@.readings.map_values(|x: crate::sampler::BatteryReading| x.capacity_percent);
        assert(caps@ =~= want);
        let n = caps.len();
        if n < 2 {
            return "━".to_owned();
        }
        let k: usize = if n < 5 {
            n
        } else {
            5
        };
        let change: i32 = caps[n - 1] as i32 - caps[n - k] as i32;
        if change > 0 {
            "\x1b[32m↗\x1b[0m".to_owned()
        } else if change < 0 {
            "\x1b[31m↘\x1b[0m".to_owned()
        } else {
            "\x1b[37m━\x1b[0m".to_owned()
        }
    }

    /// A minute count as hours and minutes.
    pub fn format_time(&self, minutes: u32) -> (r: String)
        ensures
            r@ == time_text(minutes as nat),
    {
        let h = minutes / 60;
        let m = minutes % 60;
        let mut r = String::new();
        if h > 0 {
            push_decimal(&mut r, h as u64);
            r.append("h ");
            if m < 10 {
                r.append("0");
            }
            push_decimal(&mut r, m as u64);
        } else {
            push_decimal(&mut r, m as u64);
        }
        r.append("m");
        assert(r@ =~= time_text(minutes as nat));
        r
    }
    /// A bar graph of the last `width` power samples.
    pub fn get_power_graph(&self, width: usize) -> (r: String)
        ensures
            r@ == graph_text(
                self@.estimator.history.map_values(|x: crate::estimator::PowerSample| x.power_uw),
                width as nat,
            ),
    {
        let h = self.estimator().history();
        let ghost vals = self@.estimator.history.map_values(
            |x: crate::estimator::PowerSample| x.power_uw,
        );
        let n = h.len();
        if n < 2 {
            let mut r = String::new();
            push_repeated(&mut r, " ", width);
            return r;
        }
        let mut lo: i64 = h[0].power_uw;
        let mut hi: i64 = h[0].power_uw;
        let mut i: usize = 1;
        while i < n
            invariant
                h@ == self@.estimator.history,
                vals == self@.estimator.history.map_values(
                    |x: crate::estimator::PowerSample| x.power_uw,
                ),
                n == h@.len(),
                1 <= i <= n,
                lo == seq_min(vals.subrange(0, i as int)),
                hi == seq_max(vals.subrange(0, i as int)),
                lo <= hi,
            decreases n - i,
        {
            assert(vals.subrange(0, i + 1).drop_last() =~= vals.subrange(0, i as int));
            let v = h[i].power_uw;
            if v < lo {
                lo = v;
            }
            if v > hi {
                hi = v;
            }
            i = i + 1;
        }
        assert(vals.subrange(0, n as int) =~= vals);
        let span: i128 = hi as i128 - lo as i128;
        let range: i128 = if span < 100_000 {
            100_000
        } else {
            span
        };
        let start: usize = if n > width {
            n - width
        } else {
            0
        };
        let glyphs = "▁▂▃▄▅▆▇█";
        proof {
            reveal_strlit("▁▂▃▄▅▆▇█");
        }
        let mut r = String::new();
        let mut j: usize = start;
        while j < n
            invariant
                h@ == self@.estimator.history,
                vals == self@.estimator.history.map_values(
                    |x: crate::estimator::PowerSample| x.power_uw,
                ),
                n == h@.len(),
                n >= 2,
                start <= j <= n,
                lo == seq_min(vals),
                range == graph_range(vals),
                range > 0,
                glyphs@ == bar_glyphs(),
                glyphs@.len() == 8,
                r@ == graph_bars(vals, lo as int, range as int, start as int, j as int),
            decreases n - j,
        {
            let d: i128 = h[j].power_uw as i128 - lo as i128;
            let level = div_floor(d * 7, range);
            proof {
                lemma_min_below(vals, j as int);
                assert(0 <= (d * 7) / (range as int)) by (nonlinear_arith)
                    requires
                        d >= 0,
                        range > 0,
                ;
            }
            let l: usize = if level > 7 {
                7
            } else {
                level as usize
            };
            r.append(glyphs.substring_char(l, l + 1));
            j = j + 1;
        }
        r
    }
}

} // verus!
