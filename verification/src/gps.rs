//! GPS fix record and the parsing of its numeric fields. The positioning
//! module reports each quantity as a decimal ASCII string; the parser
//! turns one into a scaled integer, exactly as the grammar and the scale
//! dictate, and rejects anything else.

use vstd::prelude::*;

verus! {

/// One GPS fix. Coordinates are in millionths of a degree; altitude and
/// speed carry two decimals (centimeters and centimeters per second).
#[derive(Debug, Clone, PartialEq, Eq)]
pub struct GpsData {
    pub latitude: i64,
    pub longitude: i64,
    pub altitude: i64,
    pub speed: i64,
    /// UTC timestamp as the module reported it.
    pub timestamp: String,
}

/// Whether a byte is an ASCII decimal digit.
pub open spec fn is_ascii_digit(b: u8) -> bool {
    48 <= b <= 57
}

/// Whether every byte is an ASCII decimal digit.
pub open spec fn all_ascii_digits(s: Seq<u8>) -> bool {
    forall|i: int| 0 <= i < s.len() ==> is_ascii_digit(#[trigger] s[i])
}

/// The number a digit string stands for, most significant digit first.
pub open spec fn digits_val(s: Seq<u8>) -> int
    decreases s.len(),
{
    if s.len() == 0 {
        0
    } else {
        digits_val(s.drop_last()) * 10 + (s.last() - 48)
    }
}

/// Ten to the `n`.
pub open spec fn pow10(n: nat) -> int
    decreases n,
{
    if n == 0 {
        1
    } else {
        10 * pow10((n - 1) as nat)
    }
}

/// The position of the first decimal point, if any.
pub open spec fn dot_position(t: Seq<u8>) -> Option<int>
    decreases t.len(),
{
    if t.len() == 0 {
        None
    } else if t[0] == 46 {
        Some(0)
    } else {
        match dot_position(t.drop_first()) {
            Some(k) => Some(k + 1),
            None => None,
        }
    }
}

/// The scaled value of a sign, an integer digit string, and a fraction
/// digit string: the magnitude is the integer part times ten to the
/// scale, plus the fraction padded, or truncated, to `scale` digits.
pub open spec fn scaled_value(neg: bool, intd: Seq<u8>, fracd: Seq<u8>, scale: nat) -> int {
    let frac = if fracd.len() >= scale {
        digits_val(fracd.take(scale as int))
    } else {
        digits_val(fracd) * pow10((scale - fracd.len()) as nat)
    };
    let mag = digits_val(intd) * pow10(scale) + frac;
    if neg {
        -mag
    } else {
        mag
    }
}

/// What a decimal ASCII string stands for at the given scale: an optional
/// leading minus, one to eighteen integer digits, and optionally a point
/// followed by at least one fraction digit. Anything else stands for
/// nothing.
pub open spec fn spec_parse_scaled(s: Seq<u8>, scale: nat) -> Option<int> {
    let neg = s.len() > 0 && s[0] == 45;
    let t = if neg {
        s.drop_first()
    } else {
        s
    };
    match dot_position(t) {
        Some(k) => {
            let intd = t.take(k);
            let fracd = t.skip(k + 1);
            if 0 < intd.len() <= 18 && fracd.len() > 0 && all_ascii_digits(intd)
                && all_ascii_digits(fracd) {
                Some(scaled_value(neg, intd, fracd, scale))
            } else {
                None
            }
        },
        None => {
            if 0 < t.len() <= 18 && all_ascii_digits(t) {
                Some(scaled_value(neg, t, Seq::empty(), scale))
            } else {
                None
            }
        },
    }
}

/// A digit string stands for a nonnegative number.
pub proof fn lemma_digits_val_nonneg(s: Seq<u8>)
    requires
        all_ascii_digits(s),
    ensures
        0 <= digits_val(s),
    decreases s.len(),
{
    if s.len() > 0 {
        assert(all_ascii_digits(s.drop_last()));
        lemma_digits_val_nonneg(s.drop_last());
    }
}

/// Ten to anything is positive.
pub proof fn lemma_pow10_pos(n: nat)
    ensures
        pow10(n) >= 1,
    decreases n,
{
    if n > 0 {
        lemma_pow10_pos((n - 1) as nat);
    }
}

/// Ten to a smaller exponent is no larger.
proof fn lemma_pow10_mono(a: nat, b: nat)
    requires
        a <= b,
    ensures
        pow10(a) <= pow10(b),
    decreases b,
{
    if a < b {
        lemma_pow10_mono(a, (b - 1) as nat);
        lemma_pow10_pos((b - 1) as nat);
    }
}

/// Ten to the ninth, spelled out.
proof fn lemma_pow10_9()
    ensures
        pow10(9) == 1000000000,
{
    assert(pow10(0) == 1);
    assert(pow10(1) == 10);
    assert(pow10(2) == 100);
    assert(pow10(3) == 1000);
    assert(pow10(4) == 10000);
    assert(pow10(5) == 100000);
    assert(pow10(6) == 1000000);
    assert(pow10(7) == 10000000);
    assert(pow10(8) == 100000000);
}

/// Ten to the eighteenth, spelled out.
proof fn lemma_pow10_18()
    ensures
        pow10(18) == 1000000000000000000,
{
    lemma_pow10_9();
    assert(pow10(10) == 10000000000);
    assert(pow10(11) == 100000000000);
    assert(pow10(12) == 1000000000000);
    assert(pow10(13) == 10000000000000);
    assert(pow10(14) == 100000000000000);
    assert(pow10(15) == 1000000000000000);
    assert(pow10(16) == 10000000000000000);
    assert(pow10(17) == 100000000000000000);
}

/// A digit string's value stays under ten to its length.
proof fn lemma_digits_val_bound(s: Seq<u8>)
    requires
        all_ascii_digits(s),
    ensures
        digits_val(s) < pow10(s.len()),
    decreases s.len(),
{
    if s.len() > 0 {
        assert(all_ascii_digits(s.drop_last()));
        lemma_digits_val_bound(s.drop_last());
        lemma_pow10_pos((s.len() - 1) as nat);
        assert(pow10(s.len()) == 10 * pow10((s.len() - 1) as nat));
    }
}

/// Appending a digit multiplies by ten and adds the digit.
proof fn lemma_digits_val_push(s: Seq<u8>, b: u8)
    ensures
        digits_val(s.push(b)) == digits_val(s) * 10 + (b - 48),
{
    assert(s.push(b).drop_last() =~= s);
    assert(s.push(b).last() == b);
}

/// The first decimal point lies inside the string, on a point byte.
proof fn lemma_dot_position_range(t: Seq<u8>)
    ensures
        dot_position(t) matches Some(k) ==> 0 <= k < t.len() && t[k] == 46,
    decreases t.len(),
{
    if t.len() > 0 && t[0] != 46 {
        lemma_dot_position_range(t.drop_first());
        match dot_position(t.drop_first()) {
            Some(k) => {
                assert(t.drop_first()[k] == t[k + 1]);
            }
            None => {}
        }
    }
}

/// The first decimal point cannot lie inside a run of digits.
proof fn lemma_dot_after_digits(t: Seq<u8>, j: int)
    requires
        0 <= j <= t.len(),
        all_ascii_digits(t.take(j)),
    ensures
        dot_position(t) matches Some(k) ==> k >= j,
    decreases j,
{
    lemma_dot_position_range(t);
    if j > 0 && t.len() > 0 {
        assert(t.take(j)[0] == t[0]);
        assert(is_ascii_digit(t[0]));
        let rest = t.drop_first();
        assert(all_ascii_digits(rest.take(j - 1))) by {
            assert(forall|i: int|
                0 <= i < j - 1 ==> #[trigger] rest.take(j - 1)[i] == t.take(j)[i + 1]);
        }
        lemma_dot_after_digits(rest, j - 1);
        match dot_position(rest) {
            Some(k) => {
                assert(dot_position(t) == Some(k + 1));
            }
            None => {
                assert(dot_position(t) is None);
            }
        }
    }
}

/// A decimal point right after a run of digits is the first one.
proof fn lemma_dot_at(t: Seq<u8>, k: int)
    requires
        0 <= k < t.len(),
        t[k] == 46,
        all_ascii_digits(t.take(k)),
    ensures
        dot_position(t) == Some(k),
    decreases k,
{
    if k > 0 {
        assert(t.take(k)[0] == t[0]);
        assert(is_ascii_digit(t[0]));
        let rest = t.drop_first();
        assert(rest[k - 1] == t[k]);
        assert(all_ascii_digits(rest.take(k - 1))) by {
            assert(forall|i: int|
                0 <= i < k - 1 ==> #[trigger] rest.take(k - 1)[i] == t.take(k)[i + 1]);
        }
        lemma_dot_at(rest, k - 1);
    }
}

/// A pure digit string holds no decimal point.
proof fn lemma_dot_none(t: Seq<u8>)
    requires
        all_ascii_digits(t),
    ensures
        dot_position(t) is None,
    decreases t.len(),
{
    if t.len() > 0 {
        assert(is_ascii_digit(t[0]));
        assert(all_ascii_digits(t.drop_first()));
        lemma_dot_none(t.drop_first());
    }
}

/// Ten to the `n`, executably, for the scales a field uses.
fn pow10_u64(n: usize) -> (r: u64)
    requires
        n <= 9,
    ensures
        r == pow10(n as nat),
        1 <= r <= 1000000000,
{
    proof {
        lemma_pow10_9();
        lemma_pow10_mono(n as nat, 9);
        lemma_pow10_pos(n as nat);
    }
    let mut r: u64 = 1;
    let mut i: usize = 0;
    while i < n
        invariant
            i <= n <= 9,
            r == pow10(i as nat),
            r <= 1000000000,
        decreases n - i,
    {
        proof {
            lemma_pow10_9();
            lemma_pow10_mono((i + 1) as nat, 9);
            lemma_pow10_pos(i as nat);
            assert(pow10((i + 1) as nat) == 10 * pow10(i as nat));
        }
        r = r * 10;
        i += 1;
    }
    r
}

/// Parses a decimal ASCII string into a scaled integer. The grammar is an
/// optional minus, one to eighteen integer digits, and an optional point
/// with at least one fraction digit; the value is the string's number
/// times ten to the `scale`, fraction digits beyond the scale ignored. A
/// malformed string, or a value beyond the 64-bit signed range, parses to
/// nothing.
pub fn parse_scaled_decimal(s: &[u8], scale: usize) -> (r: Option<i64>)
    requires
        scale <= 9,
    ensures
        r matches Some(v) ==> spec_parse_scaled(s@, scale as nat) == Some(v as int),
        r is None ==> match spec_parse_scaled(s@, scale as nat) {
            Some(v) => v > i64::MAX || v < -i64::MAX,
            Option::None => true,
        },
{
    let n = s.len();
    let neg = n > 0 && s[0] == 45;
    let start: usize = if neg {
        1
    } else {
        0
    };
    let ghost t = if neg {
        s@.drop_first()
    } else {
        s@
    };
    proof {
        assert(t.len() == n - start);
        assert(forall|k: int| 0 <= k < t.len() ==> #[trigger] t[k] == s@[k + start]);
    }

    // Integer digits.
    let mut i: usize = start;
    let mut mag: u64 = 0;
    proof {
        lemma_pow10_18();
    }
    while i < n && s[i] >= 48 && s[i] <= 57 && i - start < 18
        invariant
            start <= i <= n,
            n == s@.len(),
            i - start <= 18,
            t == (if neg {
                s@.drop_first()
            } else {
                s@
            }),
            t.len() == n - start,
            forall|k: int| 0 <= k < t.len() ==> #[trigger] t[k] == s@[k + start],
            mag == digits_val(t.take(i - start)),
            all_ascii_digits(t.take(i - start)),
            mag < pow10((i - start) as nat),
            pow10(18) == 1000000000000000000,
        decreases n - i,
    {
        proof {
            assert(t.take(i - start).push(t[i - start]) =~= t.take(i + 1 - start));
            lemma_digits_val_push(t.take(i - start), t[i - start]);
            assert(t[i - start] == s@[i as int]);
            lemma_pow10_mono((i - start) as nat, 18);
            assert(pow10((i + 1 - start) as nat) == 10 * pow10((i - start) as nat));
            lemma_pow10_mono((i + 1 - start) as nat, 18);
        }
        mag = mag * 10 + ((s[i] - 48) as u64);
        i += 1;
    }
    let int_len = i - start;
    let ghost intd = t.take(int_len as int);
    proof {
        lemma_digits_val_nonneg(intd);
        lemma_pow10_mono(int_len as nat, 18);
    }
    if int_len == 0 {
        // No integer digit: malformed whether or not a point follows.
        proof {
            if t.len() > 0 {
                assert(t[0] == s@[start as int]);
                assert(!is_ascii_digit(t[0]));
                lemma_dot_position_range(t);
                match dot_position(t) {
                    Some(k) => {
                        if k > 0 {
                            assert(t.take(k)[0] == t[0]);
                        }
                    }
                    Option::None => {}
                }
            }
        }
        return None;
    }
    if i < n && s[i] >= 48 && s[i] <= 57 {
        // A nineteenth integer digit: the integer part is too long for
        // the grammar, wherever the point sits.
        proof {
            assert(int_len == 18);
            assert(t[int_len as int] == s@[i as int]);
            assert(is_ascii_digit(t[int_len as int]));
            assert(all_ascii_digits(t.take(int_len + 1))) by {
                assert(forall|p: int|
                    0 <= p < int_len ==> #[trigger] t.take(int_len + 1)[p] == t.take(
                        int_len as int,
                    )[p]);
                assert(t.take(int_len + 1)[int_len as int] == t[int_len as int]);
            }
            lemma_dot_after_digits(t, int_len + 1);
            lemma_dot_position_range(t);
            match dot_position(t) {
                Some(k) => {
                    assert(k >= int_len + 1);
                    assert(t.take(k).len() == k);
                }
                Option::None => {
                    assert(t.len() >= int_len + 1);
                }
            }
        }
        return None;
    }

    // Optional fraction.
    if i < n && s[i] == 46 {
        let dot = i;
        proof {
            assert(t[(dot - start) as int] == 46);
            lemma_dot_at(t, (dot - start) as int);
        }
        let ghost fracd = t.skip(int_len + 1);
        proof {
            assert(fracd.len() == n - dot - 1);
            assert(forall|k: int|
                0 <= k < fracd.len() ==> #[trigger] fracd[k] == s@[k + dot + 1]);
            lemma_pow10_9();
        }
        let mut fracc: u64 = 0;
        let mut frac_seen: usize = 0;
        let mut j = dot + 1;
        while j < n && s[j] >= 48 && s[j] <= 57
            invariant
                dot + 1 <= j <= n,
                n == s@.len(),
                start <= dot < n,
                dot - start == int_len,
                frac_seen == j - dot - 1,
                scale <= 9,
                fracd == t.skip(int_len + 1),
                fracd.len() == n - dot - 1,
                forall|k: int| 0 <= k < fracd.len() ==> #[trigger] fracd[k] == s@[k + dot + 1],
                all_ascii_digits(fracd.take(frac_seen as int)),
                frac_seen <= scale ==> fracc == digits_val(fracd.take(frac_seen as int)),
                frac_seen > scale ==> fracc == digits_val(fracd.take(scale as int)),
                fracc < pow10(9),
                pow10(9) == 1000000000,
            decreases n - j,
        {
            proof {
                assert(fracd.take(frac_seen as int).push(fracd[frac_seen as int]) =~= fracd.take(
                    frac_seen + 1,
                ));
                lemma_digits_val_push(fracd.take(frac_seen as int), fracd[frac_seen as int]);
                assert(fracd[frac_seen as int] == s@[j as int]);
                if frac_seen < scale {
                    assert(all_ascii_digits(fracd.take(frac_seen + 1)));
                    lemma_digits_val_bound(fracd.take(frac_seen + 1));
                    lemma_pow10_mono((frac_seen + 1) as nat, 9);
                }
            }
            if frac_seen < scale {
                fracc = fracc * 10 + ((s[j] - 48) as u64);
            }
            frac_seen += 1;
            j += 1;
        }
        if frac_seen == 0 {
            // A point with no fraction digit.
            proof {
                if fracd.len() > 0 {
                    assert(fracd[0] == s@[(dot + 1) as int]);
                    if all_ascii_digits(fracd) {
                        assert(is_ascii_digit(fracd[0]));
                    }
                }
            }
            return None;
        }
        if j != n {
            // A non-digit inside the fraction.
            proof {
                if all_ascii_digits(fracd) {
                    assert(is_ascii_digit(fracd[(j - dot - 1) as int]));
                    assert(fracd[(j - dot - 1) as int] == s@[j as int]);
                }
            }
            return None;
        }
        proof {
            assert(fracd.take(fracd.len() as int) =~= fracd);
            assert(fracd.len() == frac_seen);
            if frac_seen <= scale {
                assert(fracd.take(frac_seen as int) =~= fracd);
            }
        }
        // Pad a short fraction up to the scale.
        let fscaled: u64 = if frac_seen < scale {
            proof {
                lemma_pow10_pos((scale - frac_seen) as nat);
                lemma_pow10_mono((scale - frac_seen) as nat, 9);
                lemma_digits_val_nonneg(fracd);
                assert(fracc * pow10((scale - frac_seen) as nat) < pow10(9) * pow10(9)) by (
                nonlinear_arith)
                    requires
                        0 <= fracc < pow10(9),
                        1 <= pow10((scale - frac_seen) as nat) <= pow10(9),
                ;
            }
            fracc * pow10_u64(scale - frac_seen)
        } else {
            fracc
        };
        let p10 = pow10_u64(scale);
        proof {
            assert((mag as u128) * (p10 as u128) + (fscaled as u128)
                < 0x10000000000000000000000000000000) by (nonlinear_arith)
                requires
                    0 <= mag < 1000000000000000000,
                    1 <= p10 <= 1000000000,
                    0 <= fscaled <= 1000000000000000000,
            ;
        }
        let value: u128 = (mag as u128) * (p10 as u128) + (fscaled as u128);
        proof {
            let sv = scaled_value(neg, intd, fracd, scale as nat);
            assert(value as int == digits_val(intd) * pow10(scale as nat) + fscaled) by (
            nonlinear_arith)
                requires
                    value == (mag as u128) * (p10 as u128) + (fscaled as u128),
                    mag == digits_val(intd),
                    p10 == pow10(scale as nat),
                    0 <= mag,
                    0 <= fscaled,
                    1 <= p10,
            ;
            assert(fscaled as int == (if fracd.len() >= scale as nat {
                digits_val(fracd.take(scale as int))
            } else {
                digits_val(fracd) * pow10((scale - fracd.len()) as nat)
            }));
            assert(sv == if neg {
                -(value as int)
            } else {
                value as int
            });
        }
        finish_signed(value, neg, Ghost(s@), Ghost(scale as nat))
    } else {
        if i != n {
            // Something other than a digit or a point after the integer
            // part.
            proof {
                lemma_dot_after_digits(t, int_len as int);
                lemma_dot_position_range(t);
                let rel = (i - start) as int;
                assert(t[rel] == s@[i as int]);
                match dot_position(t) {
                    Some(k) => {
                        assert(k >= int_len);
                        assert(t[rel] != 46);
                        assert(k > int_len);
                        if all_ascii_digits(t.take(k)) {
                            assert(t.take(k)[rel] == t[rel]);
                            assert(is_ascii_digit(t[rel]));
                        }
                    }
                    Option::None => {
                        if all_ascii_digits(t) {
                            assert(is_ascii_digit(t[rel]));
                        }
                    }
                }
            }
            return None;
        }
        proof {
            assert(intd =~= t);
            lemma_dot_none(t);
        }
        let p10 = pow10_u64(scale);
        proof {
            assert((mag as u128) * (p10 as u128) < 0x10000000000000000000000000000000) by (
            nonlinear_arith)
                requires
                    0 <= mag < 1000000000000000000,
                    1 <= p10 <= 1000000000,
            ;
        }
        let value: u128 = (mag as u128) * (p10 as u128);
        proof {
            assert(value as int == digits_val(intd) * pow10(scale as nat)) by (nonlinear_arith)
                requires
                    value == (mag as u128) * (p10 as u128),
                    mag == digits_val(intd),
                    p10 == pow10(scale as nat),
                    0 <= mag,
                    1 <= p10,
            ;
            assert(digits_val(Seq::<u8>::empty()) == 0);
            assert(scaled_value(neg, intd, Seq::empty(), scale as nat) == if neg {
                -(value as int)
            } else {
                value as int
            });
        }
        finish_signed(value, neg, Ghost(s@), Ghost(scale as nat))
    }
}

/// Applies the sign and the 64-bit range check to a parsed magnitude.
fn finish_signed(value: u128, neg: bool, s: Ghost<Seq<u8>>, scale: Ghost<nat>) -> (r: Option<i64>)
    requires
        spec_parse_scaled(s@, scale@) == Some(
            if neg {
                -(value as int)
            } else {
                value as int
            },
        ),
    ensures
        r matches Some(v) ==> spec_parse_scaled(s@, scale@) == Some(v as int),
        r is None ==> match spec_parse_scaled(s@, scale@) {
            Some(v) => v > i64::MAX || v < -i64::MAX,
            Option::None => true,
        },
{
    if value > (i64::MAX as u128) {
        return None;
    }
    if neg {
        Some(-(value as i64))
    } else {
        Some(value as i64)
    }
}


/// The comma-joined image of a field list: the fields in order, a comma
/// between neighbours.
pub open spec fn spec_join_commas(fields: Seq<Seq<u8>>) -> Seq<u8>
    decreases fields.len(),
{
    if fields.len() == 0 {
        Seq::empty()
    } else if fields.len() == 1 {
        fields[0]
    } else {
        spec_join_commas(fields.drop_last()) + seq![44u8] + fields.last()
    }
}

/// Splits a response line on commas: the returned fields, joined with
/// commas, give the line back, and no field holds a comma. This is the
/// grammar of the positioning module's report, whose comma-separated
/// numeric fields `parse_gps_fields` then reads.
pub fn split_on_commas(s: &[u8]) -> (r: Vec<Vec<u8>>)
    ensures
        r@.len() >= 1,
        spec_join_commas(r@.map_values(|v: Vec<u8>| v@)) == s@,
        forall|i: int| 0 <= i < r@.len() ==> !(#[trigger] r@[i])@.contains(44u8),
{
    let mut done: Vec<Vec<u8>> = Vec::new();
    let mut cur: Vec<u8> = Vec::new();
    let mut i: usize = 0;
    while i < s.len()
        invariant
            i <= s@.len(),
            spec_join_commas(done@.map_values(|v: Vec<u8>| v@).push(cur@)) == s@.take(i as int),
            forall|k: int| 0 <= k < done@.len() ==> !(#[trigger] done@[k])@.contains(44u8),
            !cur@.contains(44u8),
        decreases s@.len() - i,
    {
        let ghost fields = done@.map_values(|v: Vec<u8>| v@);
        let b = s[i];
        if b == 44 {
            proof {
                lemma_join_push(fields, cur@, Seq::empty());
                assert(done@.push(cur).map_values(|v: Vec<u8>| v@) =~= fields.push(cur@));
                assert(spec_join_commas(fields.push(cur@).push(Seq::empty())) =~= s@.take(
                    i + 1,
                ));
            }
            done.push(cur);
            cur = Vec::new();
        } else {
            proof {
                lemma_join_last_push(fields, cur@, b);
                assert(spec_join_commas(fields.push(cur@.push(b))) =~= s@.take(i + 1));
            }
            cur.push(b);
        }
        i += 1;
    }
    proof {
        assert(s@.take(s@.len() as int) =~= s@);
        assert(done@.push(cur).map_values(|v: Vec<u8>| v@) =~= done@.map_values(
            |v: Vec<u8>| v@,
        ).push(cur@));
    }
    done.push(cur);
    done
}

/// Joining after starting a fresh field appends a comma.
proof fn lemma_join_push(fields: Seq<Seq<u8>>, cur: Seq<u8>, fresh: Seq<u8>)
    ensures
        spec_join_commas(fields.push(cur).push(fresh)) == spec_join_commas(fields.push(cur))
            + seq![44u8] + fresh,
{
    assert(fields.push(cur).push(fresh).drop_last() =~= fields.push(cur));
    assert(fields.push(cur).push(fresh).last() == fresh);
}

/// Joining after extending the last field appends its byte.
proof fn lemma_join_last_push(fields: Seq<Seq<u8>>, cur: Seq<u8>, b: u8)
    ensures
        spec_join_commas(fields.push(cur.push(b))) == spec_join_commas(fields.push(cur)) + seq![
            b,
        ],
{
    assert(fields.push(cur.push(b)).drop_last() =~= fields);
    assert(fields.push(cur).drop_last() =~= fields);
    if fields.len() == 0 {
        assert(spec_join_commas(fields.push(cur.push(b))) == cur.push(b));
        assert(cur.push(b) =~= cur + seq![b]);
    } else {
        assert(spec_join_commas(fields.push(cur.push(b))) == spec_join_commas(fields) + seq![
            44u8,
        ] + cur.push(b));
        assert(spec_join_commas(fields) + seq![44u8] + cur.push(b) =~= (spec_join_commas(fields)
            + seq![44u8] + cur) + seq![b]);
    }
}

/// Whether a field's decimal string stands for a value a 64-bit signed
/// integer can hold at the given scale.
pub open spec fn spec_field_fits(s: Seq<u8>, scale: nat) -> bool {
    match spec_parse_scaled(s, scale) {
        Some(v) => -i64::MAX <= v <= i64::MAX,
        Option::None => false,
    }
}

/// Assembles a GPS fix from its reported fields: the timestamp as given,
/// the coordinates parsed at six decimals, altitude and speed at two. Any
/// field that does not parse, or does not fit, loses the whole fix.
pub fn parse_gps_fields(
    timestamp: String,
    latitude: &[u8],
    longitude: &[u8],
    altitude: &[u8],
    speed: &[u8],
) -> (r: Option<GpsData>)
    ensures
        r matches Some(g) ==> {
            &&& g.timestamp == timestamp
            &&& spec_parse_scaled(latitude@, 6) == Some(g.latitude as int)
            &&& spec_parse_scaled(longitude@, 6) == Some(g.longitude as int)
            &&& spec_parse_scaled(altitude@, 2) == Some(g.altitude as int)
            &&& spec_parse_scaled(speed@, 2) == Some(g.speed as int)
        },
        r is None ==> !(spec_field_fits(latitude@, 6) && spec_field_fits(longitude@, 6)
            && spec_field_fits(altitude@, 2) && spec_field_fits(speed@, 2)),
{
    let lat = parse_scaled_decimal(latitude, 6);
    let lon = parse_scaled_decimal(longitude, 6);
    let alt = parse_scaled_decimal(altitude, 2);
    let spd = parse_scaled_decimal(speed, 2);
    match (lat, lon, alt, spd) {
        (Some(latitude), Some(longitude), Some(altitude), Some(speed)) => Some(
            GpsData { latitude, longitude, altitude, speed, timestamp },
        ),
        _ => None,
    }
}

} // verus!
