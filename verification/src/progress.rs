//! The progress bridge: parses the line-oriented `key=value` progress
//! stream of the media backend and decides which uniform updates to emit.
//! With a known total duration it reports a percentage, capped at one
//! hundred, and a linear time estimate, and emits only when the percentage
//! has moved by at least one; without one it reports raw elapsed time on a
//! one-second cadence. Reading the stream and delivering the updates to a
//! console or an event channel is the surrounding program's job.

use vstd::prelude::*;
use crate::numbers::dec_val;
use crate::numbers::parse_u64;
use crate::strings::all_digits;
use crate::strings::is_digit;
use crate::strings::is_space;
use crate::strings::is_ws_char;
use crate::strings::starts_with;
use crate::strings::str_eq;

verus! {

// ---------------------------------------------------------------------------
// Small text helpers
// ---------------------------------------------------------------------------

/// Spec: index of the first occurrence of `c` in `s`, or -1 when absent.
pub open spec fn find_first(s: Seq<char>, c: char) -> int
    decreases s.len(),
{
    if s.len() == 0 {
        -1
    } else if s[0] == c {
        0
    } else {
        let r = find_first(s.drop_first(), c);
        if r == -1 {
            -1
        } else {
            r + 1
        }
    }
}

/// `find_first` names the least index holding `c`, or -1 when `c` is absent.
pub proof fn lemma_find_first(s: Seq<char>, c: char)
    ensures
        find_first(s, c) == -1 || (0 <= find_first(s, c) < s.len()),
        find_first(s, c) == -1 ==> forall|j: int| 0 <= j < s.len() ==> s[j] != c,
        find_first(s, c) >= 0 ==> s[find_first(s, c)] == c,
        find_first(s, c) >= 0 ==> forall|j: int| 0 <= j < find_first(s, c) ==> s[j] != c,
    decreases s.len(),
{
    if s.len() > 0 && s[0] != c {
        lemma_find_first(s.drop_first(), c);
        if find_first(s, c) == -1 {
            assert forall|j: int| 0 <= j < s.len() implies s[j] != c by {
                if j > 0 {
                    assert(s.drop_first()[j - 1] == s[j]);
                }
            }
        } else {
            assert(s.drop_first()[find_first(s, c) - 1] == s[find_first(s, c)]);
            assert forall|j: int| 0 <= j < find_first(s, c) implies s[j] != c by {
                if j > 0 {
                    assert(s.drop_first()[j - 1] == s[j]);
                }
            }
        }
    }
}

/// If `s[i] == c` and nothing before `i` is `c`, then `i` is the first
/// occurrence.
pub proof fn lemma_find_first_unique(s: Seq<char>, c: char, i: int)
    requires
        0 <= i < s.len(),
        s[i] == c,
        forall|j: int| 0 <= j < i ==> s[j] != c,
    ensures
        find_first(s, c) == i,
    decreases i,
{
    if i > 0 {
        lemma_find_first_unique(s.drop_first(), c, i - 1);
        assert(forall|j: int| 0 <= j < s.len() - 1 ==> s.drop_first()[j] == s[j + 1]);
    }
}

/// Index of the first occurrence of `c` in `s`.
pub fn find_first_char(s: &str, c: char) -> (r: Option<usize>)
    ensures
        match r {
            Some(i) => find_first(s@, c) == i as int,
            None => find_first(s@, c) == -1,
        },
{
    let n: usize = s.unicode_len();
    let mut i: usize = 0;
    while i < n
        invariant
            n == s@.len(),
            i <= n,
            forall|j: int| 0 <= j < i ==> s@[j] != c,
        decreases n - i,
    {
        if s.get_char(i) == c {
            proof {
                lemma_find_first_unique(s@, c, i as int);
            }
            return Some(i);
        }
        i = i + 1;
    }
    proof {
        lemma_find_first(s@, c);
        if find_first(s@, c) >= 0 {
            assert(s@[find_first(s@, c)] == c);
        }
    }
    None
}

/// Spec: the string without leading and trailing whitespace.
pub open spec fn trim_spec(s: Seq<char>) -> Seq<char>
    decreases s.len(),
{
    if s.len() > 0 && is_space(s[0]) {
        trim_spec(s.drop_first())
    } else if s.len() > 0 && is_space(s.last()) {
        trim_spec(s.drop_last())
    } else {
        s
    }
}

/// The slice without leading and trailing whitespace.
pub fn trim_of<'a>(s: &'a str) -> (r: &'a str)
    ensures
        r@ == trim_spec(s@),
{
    let n: usize = s.unicode_len();
    let mut start: usize = 0;
    let mut end: usize = n;
    proof {
        assert(s@.subrange(0, n as int) =~= s@);
    }
    while start < end && is_ws_char(s.get_char(start))
        invariant
            n == s@.len(),
            start <= end <= n,
            trim_spec(s@) == trim_spec(s@.subrange(start as int, end as int)),
        decreases end - start,
    {
        start = start + 1;
        proof {
            let prev = s@.subrange(start - 1, end as int);
            assert(is_space(prev[0]));
            assert(prev.drop_first() =~= s@.subrange(start as int, end as int));
        }
    }
    while start < end && is_ws_char(s.get_char(end - 1))
        invariant
            n == s@.len(),
            start <= end <= n,
            trim_spec(s@) == trim_spec(s@.subrange(start as int, end as int)),
            start < end ==> !is_space(s@[start as int]),
        decreases end - start,
    {
        end = end - 1;
        proof {
            let prev = s@.subrange(start as int, end + 1);
            assert(!is_space(prev[0]));
            assert(is_space(prev.last()));
            assert(prev.drop_last() =~= s@.subrange(start as int, end as int));
        }
    }
    proof {
        let w = s@.subrange(start as int, end as int);
        if w.len() > 0 {
            assert(w[0] == s@[start as int]);
            assert(w.last() == s@[end - 1]);
            assert(!is_space(w[0]));
            assert(!is_space(w.last()));
        }
        assert(trim_spec(w) == w);
    }
    s.substring_char(start, end)
}

// ---------------------------------------------------------------------------
// Duration parsing
// ---------------------------------------------------------------------------

/// Spec: ten to the `k`-th power.
pub open spec fn pow10(k: nat) -> nat
    decreases k,
{
    if k == 0 {
        1nat
    } else {
        10 * pow10((k - 1) as nat)
    }
}

/// A digit string's value stays below ten to the power of its length.
pub proof fn lemma_dec_val_bound(s: Seq<char>)
    requires
        all_digits(s),
    ensures
        0 <= dec_val(s) < pow10(s.len()),
    decreases s.len(),
{
    if s.len() > 0 {
        assert(all_digits(s.drop_last())) by {
            assert(forall|i: int| 0 <= i < s.len() - 1 ==> s.drop_last()[i] == s[i]);
        }
        lemma_dec_val_bound(s.drop_last());
        assert(is_digit(s[s.len() - 1]));
    }
}

/// Powers of ten multiply by adding exponents.
pub proof fn lemma_pow10_add(a: nat, b: nat)
    ensures
        pow10(a) * pow10(b) == pow10(a + b),
    decreases a,
{
    if a == 0 {
        assert(pow10(0nat) == 1);
        assert(1 * pow10(b) == pow10(b)) by (nonlinear_arith);
    } else {
        lemma_pow10_add((a - 1) as nat, b);
        assert(pow10(a) == 10 * pow10((a - 1) as nat));
        assert(pow10(a + b) == 10 * pow10((a + b - 1) as nat));
        assert((10 * pow10((a - 1) as nat)) * pow10(b) == 10 * (pow10((a - 1) as nat) * pow10(b)))
            by (nonlinear_arith);
    }
}

/// Powers of ten grow with the exponent.
pub proof fn lemma_pow10_mono(a: nat, b: nat)
    requires
        a <= b,
    ensures
        pow10(a) <= pow10(b),
    decreases b,
{
    if a < b {
        lemma_pow10_mono(a, (b - 1) as nat);
        assert(pow10(b) == 10 * pow10((b - 1) as nat));
    }
}

/// Spec: the value in microseconds of a decimal duration written as digits
/// with an optional fraction, `None` when malformed or too large.
pub open spec fn duration_micros_spec(s: Seq<char>) -> Option<u64> {
    if s.len() == 0 {
        None
    } else {
        let dot = find_first(s, '.');
        if dot == -1 {
            if all_digits(s) && dec_val(s) * 1000000 <= u64::MAX {
                Some((dec_val(s) * 1000000) as u64)
            } else {
                None
            }
        } else {
            let whole = s.subrange(0, dot);
            let frac = s.subrange(dot + 1, s.len() as int);
            if whole.len() + frac.len() > 0 && all_digits(whole) && all_digits(frac) {
                let f6len = if frac.len() <= 6 {
                    frac.len() as int
                } else {
                    6
                };
                let fv = dec_val(frac.subrange(0, f6len)) * pow10((6 - f6len) as nat);
                let total = dec_val(whole) * 1000000 + fv;
                if total <= u64::MAX {
                    Some(total as u64)
                } else {
                    None
                }
            } else {
                None
            }
        }
    }
}

/// The power of ten for a fraction shorter than six digits.
fn pow10_small(k: u64) -> (r: u64)
    requires
        k <= 6,
    ensures
        r as nat == pow10(k as nat),
{
    proof {
        reveal_with_fuel(pow10, 7);
    }
    if k == 0 {
        1
    } else if k == 1 {
        10
    } else if k == 2 {
        100
    } else if k == 3 {
        1000
    } else if k == 4 {
        10000
    } else if k == 5 {
        100000
    } else {
        1000000
    }
}

/// Parses a probed duration, `digits` with an optional `.fraction`, into
/// whole microseconds; the fraction is read to microsecond precision.
pub fn parse_duration_micros(s: &str) -> (r: Option<u64>)
    ensures
        r == duration_micros_spec(s@),
{
    let n: usize = s.unicode_len();
    if n == 0 {
        return None;
    }
    match find_first_char(s, '.') {
        None => {
            match parse_u64(s) {
                Some(v) => {
                    if v > u64::MAX / 1000000 {
                        proof {
                            assert(v * 1000000 > u64::MAX) by (nonlinear_arith)
                                requires
                                    v > u64::MAX / 1000000,
                                    (u64::MAX / 1000000) * 1000000 + u64::MAX % 1000000
                                        == u64::MAX as int,
                            ;
                        }
                        None
                    } else {
                        proof {
                            assert(v * 1000000 <= (u64::MAX / 1000000) * 1000000)
                                by (nonlinear_arith)
                                requires
                                    v <= u64::MAX / 1000000,
                            ;
                        }
                        Some(v * 1000000)
                    }
                },
                None => None,
            }
        },
        Some(dot) => {
            proof {
                lemma_find_first(s@, '.');
            }
            let whole = s.substring_char(0, dot);
            let frac = s.substring_char(dot + 1, n);
            let wl: usize = whole.unicode_len();
            let fl: usize = frac.unicode_len();
            if wl + fl == 0 {
                return None;
            }
            if !crate::strings::digits_in_range(whole, 0, wl) {
                return None;
            }
            if !crate::strings::digits_in_range(frac, 0, fl) {
                return None;
            }
            let f6len: usize = if fl <= 6 {
                fl
            } else {
                6
            };
            let f6 = frac.substring_char(0, f6len);
            proof {
                assert(all_digits(f6@)) by {
                    assert(forall|j: int| 0 <= j < f6@.len() ==> f6@[j] == frac@[j]);
                }
                lemma_dec_val_bound(f6@);
                lemma_pow10_mono(f6len as nat, 6);
                lemma_pow10_mono(0, (6 - f6len) as nat);
                assert(pow10(0nat) == 1);
                assert(pow10(6) == 1000000) by {
                    reveal_with_fuel(pow10, 7);
                }
            }
            let fv: u64 = if f6len == 0 {
                proof {
                    assert(f6@ =~= Seq::<char>::empty());
                }
                0
            } else {
                match parse_u64(f6) {
                    Some(v) => v,
                    None => {
                        proof {
                            assert(false);
                        }
                        0
                    },
                }
            };
            let scale = pow10_small((6 - f6len) as u64);
            proof {
                lemma_pow10_add(f6len as nat, (6 - f6len) as nat);
                assert(fv * scale < pow10(f6len as nat) * pow10((6 - f6len) as nat))
                    by (nonlinear_arith)
                    requires
                        fv < pow10(f6len as nat),
                        scale == pow10((6 - f6len) as nat),
                        scale >= 1,
                ;
            }
            let scaled: u64 = fv * scale;
            let wv: u64 = if wl == 0 {
                proof {
                    assert(whole@ =~= Seq::<char>::empty());
                }
                0
            } else {
                match parse_u64(whole) {
                    Some(v) => v,
                    None => {
                        proof {
                            let ghost total = dec_val(whole@) * 1000000 + (fv * scale);
                            assert(dec_val(whole@) > u64::MAX);
                            assert(dec_val(whole@) * 1000000 >= dec_val(whole@))
                                by (nonlinear_arith)
                                requires
                                    dec_val(whole@) >= 0,
                            ;
                        }
                        return None;
                    },
                }
            };
            if wv > (u64::MAX - scaled) / 1000000 {
                proof {
                    assert(wv * 1000000 + scaled > u64::MAX) by (nonlinear_arith)
                        requires
                            wv > (u64::MAX - scaled) / 1000000,
                            ((u64::MAX - scaled) / 1000000) * 1000000 + (u64::MAX - scaled)
                                % 1000000 == u64::MAX - scaled,
                    ;
                }
                return None;
            }
            proof {
                assert(wv * 1000000 <= ((u64::MAX - scaled) / 1000000) * 1000000)
                    by (nonlinear_arith)
                    requires
                        wv <= (u64::MAX - scaled) / 1000000,
                ;
            }
            Some(wv * 1000000 + scaled)
        },
    }
}

// ---------------------------------------------------------------------------
// The progress stream
// ---------------------------------------------------------------------------

/// One uniform progress update.
#[derive(Clone, Copy, Debug, PartialEq, Eq, Structural)]
pub enum ProgressUpdate {
    /// Progress with a known total: a percentage in 0..=100 and the
    /// estimated remaining time.
    Percent { percent: u8, eta_micros: u64 },
    /// Raw elapsed stream time, when the total is unknown.
    Elapsed { micros: u64 },
    /// The stream's terminator line was seen.
    Ended,
}

/// The emission state of one progress stream.
#[derive(Clone, Copy, Debug, PartialEq, Eq, Structural)]
pub struct ProgressParser {
    pub duration_micros: Option<u64>,
    pub last_percent: Option<u8>,
    pub last_elapsed_micros: Option<u64>,
}

/// Spec: the percentage of a known duration, capped at one hundred.
pub open spec fn percent_spec(elapsed: u64, duration: u64) -> int {
    let raw: int = (elapsed as int * 100) / (duration as int);
    if raw > 100 {
        100
    } else {
        raw
    }
}

/// Spec: the remaining time, never below zero.
pub open spec fn eta_spec(elapsed: u64, duration: u64) -> u64 {
    if elapsed <= duration {
        (duration - elapsed) as u64
    } else {
        0
    }
}

/// Spec: what one line of the progress stream does to the parser and what
/// it emits. The terminator emits `Ended`; an elapsed-time line emits a
/// percentage only when it moved by at least one, or, without a known
/// duration, the elapsed time when a second has passed; everything else is
/// ignored.
pub open spec fn feed_line_spec(p: ProgressParser, line: Seq<char>) -> (
    ProgressParser,
    Option<ProgressUpdate>,
) {
    let prefix = "out_time_ms="@;
    if line == "progress=end"@ {
        (p, Some(ProgressUpdate::Ended))
    } else if !(prefix.len() <= line.len() && line.subrange(0, prefix.len() as int) == prefix) {
        (p, None)
    } else {
        let rest = trim_spec(line.subrange(prefix.len() as int, line.len() as int));
        if !(rest.len() > 0 && all_digits(rest) && dec_val(rest) <= u64::MAX) {
            (p, None)
        } else {
            let elapsed = dec_val(rest) as u64;
            match p.duration_micros {
                Some(d) => if d == 0 {
                    (p, None)
                } else {
                    let pct = percent_spec(elapsed, d) as u8;
                    if p.last_percent is None || p.last_percent->0 != pct {
                        (
                            ProgressParser { last_percent: Some(pct), ..p },
                            Some(
                                ProgressUpdate::Percent {
                                    percent: pct,
                                    eta_micros: eta_spec(elapsed, d),
                                },
                            ),
                        )
                    } else {
                        (p, None)
                    }
                },
                None => {
                    let far = match p.last_elapsed_micros {
                        Some(last) => elapsed >= last + 1000000 || last >= elapsed + 1000000,
                        None => true,
                    };
                    if far {
                        (
                            ProgressParser { last_elapsed_micros: Some(elapsed), ..p },
                            Some(ProgressUpdate::Elapsed { micros: elapsed }),
                        )
                    } else {
                        (p, None)
                    }
                },
            }
        }
    }
}

impl ProgressParser {
    /// A fresh stream with the given known total duration, before any
    /// emission.
    pub fn new(duration_micros: Option<u64>) -> (r: ProgressParser)
        ensures
            r.duration_micros == duration_micros,
            r.last_percent is None,
            r.last_elapsed_micros is None,
    {
        ProgressParser { duration_micros, last_percent: None, last_elapsed_micros: None }
    }

    /// Feeds one line of the progress stream; returns the update to emit,
    /// if any.
    pub fn feed_line(&mut self, line: &str) -> (r: Option<ProgressUpdate>)
        ensures
            *final(self) == feed_line_spec(*old(self), line@).0,
            r == feed_line_spec(*old(self), line@).1,
    {
        if str_eq(line, "progress=end") {
            return Some(ProgressUpdate::Ended);
        }
        if !starts_with(line, "out_time_ms=") {
            return None;
        }
        let plen: usize = "out_time_ms=".unicode_len();
        let n: usize = line.unicode_len();
        let rest = trim_of(line.substring_char(plen, n));
        let elapsed: u64 = match parse_u64(rest) {
            Some(v) => v,
            None => {
                return None;
            },
        };
        match self.duration_micros {
            Some(d) => {
                if d == 0 {
                    return None;
                }
                let wide: u128 = (elapsed as u128) * 100 / (d as u128);
                let pct: u8 = if wide >= 100 {
                    100
                } else {
                    wide as u8
                };
                proof {
                    assert((elapsed as u128) * 100 == (elapsed * 100) as u128);
                    assert(pct as int == percent_spec(elapsed, d));
                }
                let emit = match self.last_percent {
                    Some(last) => last != pct,
                    None => true,
                };
                if emit {
                    self.last_percent = Some(pct);
                    let eta = if elapsed <= d {
                        d - elapsed
                    } else {
                        0
                    };
                    Some(ProgressUpdate::Percent { percent: pct, eta_micros: eta })
                } else {
                    None
                }
            },
            None => {
                let far = match self.last_elapsed_micros {
                    Some(last) => elapsed >= 1000000 && last <= elapsed - 1000000 || last
                        >= 1000000 && elapsed <= last - 1000000,
                    None => true,
                };
                if far {
                    self.last_elapsed_micros = Some(elapsed);
                    Some(ProgressUpdate::Elapsed { micros: elapsed })
                } else {
                    None
                }
            },
        }
    }
}

} // verus!
