//! PCM16 sample handling: little-endian byte framing, the linear
//! interpolation resampler, output-channel replication, and the device list
//! handed to the frontend.
use vstd::prelude::*;

verus! {

/// The realtime translation service expects and produces mono PCM16 at this
/// sample rate.
pub const TARGET_SAMPLE_RATE: u32 = 24000;

// ---------------------------------------------------------------------------
// Little-endian PCM16 framing
// ---------------------------------------------------------------------------

/// The sample whose little-endian two's-complement bytes are `lo`, `hi`.
pub open spec fn le_i16(lo: u8, hi: u8) -> i16 {
    let v = lo as int + 256 * (hi as int);
    (if v >= 32768 {
        v - 65536
    } else {
        v
    }) as i16
}

/// A sample read as the unsigned 16-bit number with the same bits.
pub open spec fn unsigned_bits(x: i16) -> int {
    if x < 0 {
        x + 65536
    } else {
        x as int
    }
}

/// Low (first) byte of a sample in little-endian order.
pub open spec fn low_byte(x: i16) -> u8 {
    (unsigned_bits(x) % 256) as u8
}

/// High (second) byte of a sample in little-endian order.
pub open spec fn high_byte(x: i16) -> u8 {
    (unsigned_bits(x) / 256) as u8
}

/// Samples read from consecutive byte pairs; a trailing odd byte is ignored.
pub open spec fn pcm16_decode(bytes: Seq<u8>) -> Seq<i16> {
    Seq::new(bytes.len() / 2, |i: int| le_i16(bytes[2 * i], bytes[2 * i + 1]))
}

/// Little-endian bytes of the samples, two per sample.
pub open spec fn pcm16_encode(samples: Seq<i16>) -> Seq<u8> {
    Seq::new(
        2 * samples.len(),
        |j: int|
            if j % 2 == 0 {
                low_byte(samples[j / 2])
            } else {
                high_byte(samples[j / 2])
            },
    )
}

fn sample_from_le(lo: u8, hi: u8) -> (x: i16)
    ensures
        x == le_i16(lo, hi),
{
    let v: i32 = lo as i32 + 256 * (hi as i32);
    if v >= 32768 {
        (v - 65536) as i16
    } else {
        v as i16
    }
}

/// Reads little-endian PCM16 samples from consecutive byte pairs; a trailing
/// odd byte is dropped.
pub fn pcm16_le_bytes_to_i16(bytes: &[u8]) -> (samples: Vec<i16>)
    ensures
        samples@ == pcm16_decode(bytes@),
{
    let blen = bytes.len();
    let n = blen / 2;
    let mut samples: Vec<i16> = Vec::new();
    let mut i: usize = 0;
    while i < n
        invariant
            blen == bytes@.len(),
            n == bytes@.len() / 2,
            i <= n,
            samples@ =~= pcm16_decode(bytes@).take(i as int),
        decreases n - i,
    {
        assert(2 * i + 1 < bytes@.len()) by {
            vstd::arithmetic::div_mod::lemma_fundamental_div_mod(bytes@.len() as int, 2);
        }
        assert(2 * i < bytes@.len());
        let j: usize = 2 * i;
        let x = sample_from_le(bytes[j], bytes[j + 1]);
        samples.push(x);
        i = i + 1;
    }
    samples
}

/// Writes the samples as little-endian PCM16 bytes, two per sample.
pub fn pcm16_to_le_bytes(samples: &[i16]) -> (bytes: Vec<u8>)
    requires
        2 * samples@.len() <= usize::MAX,
    ensures
        bytes@ == pcm16_encode(samples@),
{
    let mut bytes: Vec<u8> = Vec::new();
    let mut i: usize = 0;
    while i < samples.len()
        invariant
            i <= samples@.len(),
            bytes@ =~= pcm16_encode(samples@).take(2 * i),
        decreases samples@.len() - i,
    {
        let x = samples[i];
        let u: i32 = if x < 0 {
            x as i32 + 65536
        } else {
            x as i32
        };
        bytes.push((u % 256) as u8);
        bytes.push((u / 256) as u8);
        i = i + 1;
        assert(bytes@ =~= pcm16_encode(samples@).take(2 * i)) by {
            assert forall|j: int| 0 <= j < 2 * i implies #[trigger] bytes@[j] == pcm16_encode(
                samples@,
            )[j] by {
                if j >= 2 * (i - 1) {
                    assert(j / 2 == i - 1);
                }
            }
        }
    }
    bytes
}

/// Reading back the bytes written for any samples gives those samples.
pub proof fn law_pcm16_round_trip(samples: Seq<i16>)
    ensures
        pcm16_decode(pcm16_encode(samples)) == samples,
{
    let bytes = pcm16_encode(samples);
    assert forall|i: int| 0 <= i < samples.len() implies #[trigger] pcm16_decode(bytes)[i]
        == samples[i] by {
        let x = samples[i];
        assert((2 * i) / 2 == i);
        assert((2 * i + 1) / 2 == i);
        assert((2 * i) % 2 == 0);
        assert((2 * i + 1) % 2 == 1);
        let u = unsigned_bits(x);
        assert(u == 256 * (u / 256) + u % 256);
    }
    assert(pcm16_decode(bytes) =~= samples);
}

// ---------------------------------------------------------------------------
// Linear-interpolation resampler
// ---------------------------------------------------------------------------

/// Number of output samples: `len * to / from`, rounded to the nearest
/// integer (halves up).
pub open spec fn resampled_len(len: nat, from: nat, to: nat) -> nat {
    (2 * len * to + from) / (2 * from)
}

/// `n / d` rounded to the nearest integer, halves away from zero.
pub open spec fn round_div(n: int, d: int) -> int {
    if n >= 0 {
        (2 * n + d) / (2 * d)
    } else {
        -((2 * (-n) + d) / (2 * d))
    }
}

/// The sample at `k`, or `default` when `k` is past the end.
pub open spec fn sample_or(s: Seq<i16>, k: int, default: int) -> int {
    if 0 <= k < s.len() {
        s[k] as int
    } else {
        default
    }
}

/// Output sample `i`: its source position is `i * from / to`; the value is
/// the straight line between the source sample at the integer part and the
/// one after it (the last sample is held), rounded to the nearest integer.
pub open spec fn interpolated_sample(s: Seq<i16>, from: nat, to: nat, i: int) -> int {
    let pos = i * from;
    let idx = pos / (to as int);
    let rem = pos % (to as int);
    let a = sample_or(s, idx, 0);
    let b = sample_or(s, idx + 1, a);
    round_div(a * to + (b - a) * rem, to as int)
}

/// What the resampler produces: the input itself when the rates agree or
/// there is nothing to resample, else `resampled_len` interpolated samples.
pub open spec fn resample_spec(s: Seq<i16>, from: nat, to: nat) -> Seq<i16> {
    if from == to || s.len() == 0 {
        s
    } else {
        Seq::new(
            resampled_len(s.len(), from, to),
            |i: int| interpolated_sample(s, from, to, i) as i16,
        )
    }
}

/// The resampler can run: the rates agree, the input is empty, or the
/// source rate is positive and the output length fits in memory indices.
pub open spec fn resample_accepts(len: nat, from: nat, to: nat) -> bool {
    from == to || len == 0 || (from > 0 && resampled_len(len, from, to) <= usize::MAX)
}

proof fn lemma_floor_between(x: int, m: int, k: int, h: int)
    requires
        m > 0,
        k * m <= x,
        x < (h + 1) * m,
    ensures
        k <= x / m <= h,
{
    vstd::arithmetic::div_mod::lemma_fundamental_div_mod(x, m);
    let q = x / m;
    let r = x % m;
    assert(k <= q) by (nonlinear_arith)
        requires
            x == m * q + r,
            0 <= r < m,
            k * m <= x,
            m > 0,
    ;
    assert(q <= h) by (nonlinear_arith)
        requires
            x == m * q + r,
            0 <= r < m,
            x < (h + 1) * m,
            m > 0,
    ;
}

proof fn lemma_round_div_between(n: int, d: int, lo: int, hi: int)
    requires
        d > 0,
        lo * d <= n <= hi * d,
    ensures
        lo <= round_div(n, d) <= hi,
{
    if n >= 0 {
        assert(lo * (2 * d) <= 2 * n + d) by (nonlinear_arith)
            requires
                lo * d <= n,
                d > 0,
        ;
        assert(2 * n + d < (hi + 1) * (2 * d)) by (nonlinear_arith)
            requires
                n <= hi * d,
                d > 0,
        ;
        lemma_floor_between(2 * n + d, 2 * d, lo, hi);
    } else {
        assert((-hi) * (2 * d) <= 2 * (-n) + d) by (nonlinear_arith)
            requires
                n <= hi * d,
                d > 0,
        ;
        assert(2 * (-n) + d < (-lo + 1) * (2 * d)) by (nonlinear_arith)
            requires
                lo * d <= n,
                d > 0,
        ;
        lemma_floor_between(2 * (-n) + d, 2 * d, -hi, -lo);
    }
}

/// An interpolated value lies between the two samples it interpolates.
proof fn lemma_interpolation_between(a: int, b: int, rem: int, d: int)
    requires
        d > 0,
        0 <= rem < d,
    ensures
        a <= b ==> a <= round_div(a * d + (b - a) * rem, d) <= b,
        b <= a ==> b <= round_div(a * d + (b - a) * rem, d) <= a,
{
    let n = a * d + (b - a) * rem;
    if a <= b {
        assert(a * d <= n <= b * d) by (nonlinear_arith)
            requires
                n == a * d + (b - a) * rem,
                0 <= rem < d,
                a <= b,
        ;
        lemma_round_div_between(n, d, a, b);
    } else {
        assert(b * d <= n <= a * d) by (nonlinear_arith)
            requires
                n == a * d + (b - a) * rem,
                0 <= rem < d,
                b <= a,
        ;
        lemma_round_div_between(n, d, b, a);
    }
}

/// Every output sample of the resampler lies between two input samples, so
/// the output never leaves the range of the input.
pub proof fn law_resampled_sample_between_inputs(s: Seq<i16>, from: nat, to: nat, i: int)
    requires
        to > 0,
        i >= 0,
        s.len() > 0,
    ensures
        ({
            let idx = (i * from) / (to as int);
            let a = sample_or(s, idx, 0);
            let b = sample_or(s, idx + 1, a);
            &&& a <= b ==> a <= interpolated_sample(s, from, to, i) <= b
            &&& b <= a ==> b <= interpolated_sample(s, from, to, i) <= a
        }),
{
    let pos = i * from;
    let rem = pos % (to as int);
    let idx = pos / (to as int);
    let a = sample_or(s, idx, 0);
    let b = sample_or(s, idx + 1, a);
    lemma_interpolation_between(a, b, rem, to as int);
}

/// Every output sample lies within the range of the input samples: the
/// resampler neither clips nor brings in values of its own.
pub proof fn law_resample_within_input_range(s: Seq<i16>, from: nat, to: nat, lo: int, hi: int, i: int)
    requires
        resample_accepts(s.len(), from, to),
        forall|k: int| 0 <= k < s.len() ==> lo <= #[trigger] s[k] <= hi,
        0 <= i < resample_spec(s, from, to).len(),
    ensures
        lo <= resample_spec(s, from, to)[i] <= hi,
{
    if from != to && s.len() > 0 {
        let len = s.len();
        let out_len = resampled_len(len, from, to);
        vstd::arithmetic::div_mod::lemma_fundamental_div_mod(
            (2 * len * to + from) as int,
            (2 * from) as int,
        );
        assert(out_len * (2 * from) <= 2 * len * to + from);
        assert(i * from < len * to) by (nonlinear_arith)
            requires
                0 <= i < out_len,
                out_len * (2 * from) <= 2 * len * to + from,
                from > 0,
        ;
        assert(to > 0) by (nonlinear_arith)
            requires
                i * from < len * to,
                i >= 0,
                from > 0,
        ;
        let pos = i * from;
        let idx = pos / (to as int);
        vstd::arithmetic::div_mod::lemma_fundamental_div_mod(pos, to as int);
        assert(idx < len) by (nonlinear_arith)
            requires
                pos == to * idx + pos % (to as int),
                0 <= pos % (to as int),
                pos < len * to,
                to > 0,
        ;
        assert(idx >= 0) by (nonlinear_arith)
            requires
                pos == to * idx + pos % (to as int),
                pos % (to as int) < to,
                pos >= 0,
                to > 0,
        ;
        let a = sample_or(s, idx, 0);
        let b = sample_or(s, idx + 1, a);
        assert(lo <= a <= hi);
        assert(lo <= b <= hi);
        lemma_interpolation_between(a, b, pos % (to as int), to as int);
        let v = interpolated_sample(s, from, to, i);
        assert(i16::MIN <= v <= i16::MAX);
    }
}

proof fn lemma_source_index_in_range(s: Seq<i16>, from: nat, to: nat, i: int)
    requires
        from > 0,
        s.len() > 0,
        0 <= i < resampled_len(s.len(), from, to),
    ensures
        to > 0,
        0 <= (i * from) / (to as int) < s.len(),
        0 <= (i * from) % (to as int) < to,
{
    let len = s.len();
    let out_len = resampled_len(len, from, to);
    vstd::arithmetic::div_mod::lemma_fundamental_div_mod(
        (2 * len * to + from) as int,
        (2 * from) as int,
    );
    assert(out_len * (2 * from) <= 2 * len * to + from);
    assert(i * from < len * to) by (nonlinear_arith)
        requires
            0 <= i < out_len,
            out_len * (2 * from) <= 2 * len * to + from,
            from > 0,
    ;
    assert(to > 0) by (nonlinear_arith)
        requires
            i * from < len * to,
            i >= 0,
            from > 0,
    ;
    let pos = i * from;
    let idx = pos / (to as int);
    vstd::arithmetic::div_mod::lemma_fundamental_div_mod(pos, to as int);
    assert(idx < len) by (nonlinear_arith)
        requires
            pos == to * idx + pos % (to as int),
            0 <= pos % (to as int),
            pos < len * to,
            to > 0,
    ;
    assert(idx >= 0) by (nonlinear_arith)
        requires
            pos == to * idx + pos % (to as int),
            pos % (to as int) < to,
            pos >= 0,
            to > 0,
    ;
}

proof fn lemma_round_div_nearest(n: int, d: int)
    requires
        d > 0,
    ensures
        -d <= 2 * (round_div(n, d) * d - n) <= d,
        2 * (round_div(n, d) * d - n) == d ==> n > 0,
        2 * (round_div(n, d) * d - n) == -d ==> n < 0,
{
    if n >= 0 {
        let x = 2 * n + d;
        let m = 2 * d;
        vstd::arithmetic::div_mod::lemma_fundamental_div_mod(x, m);
        let q = x / m;
        let r = x % m;
        assert(2 * (q * d - n) == d - r) by (nonlinear_arith)
            requires
                x == m * q + r,
                x == 2 * n + d,
                m == 2 * d,
        ;
        assert(n == 0 ==> r == d) by {
            if n == 0 {
                vstd::arithmetic::div_mod::lemma_small_mod(d as nat, m as nat);
            }
        }
    } else {
        let x = 2 * (-n) + d;
        let m = 2 * d;
        vstd::arithmetic::div_mod::lemma_fundamental_div_mod(x, m);
        let q = x / m;
        let r = x % m;
        assert(2 * ((-q) * d - n) == r - d) by (nonlinear_arith)
            requires
                x == m * q + r,
                x == 2 * (-n) + d,
                m == 2 * d,
        ;
    }
}

/// Each output sample is the value of the straight line between the two
/// source samples around its source position `i * from / to` (the last
/// sample held), rounded to the nearest integer, halves away from zero:
/// with `k` and `r` the integer part and remainder of that position (in
/// units of `1/to`), `a = s[k]`, `b = s[k + 1]` (or `a` past the end), and
/// `n = a * to + (b - a) * r` the exact value times `to`, the output times
/// `to` is within `to / 2` of `n`, a tie going away from zero.
pub proof fn law_resample_rounds_linear_interpolation(s: Seq<i16>, from: nat, to: nat, i: int)
    requires
        from > 0,
        from != to,
        s.len() > 0,
        0 <= i < resample_spec(s, from, to).len(),
    ensures
        ({
            let k = (i * from) / (to as int);
            let r = (i * from) % (to as int);
            let a = s[k] as int;
            let b = if k + 1 < s.len() {
                s[k + 1] as int
            } else {
                a
            };
            let n = a * to + (b - a) * r;
            let e = resample_spec(s, from, to)[i] * to - n;
            &&& 0 <= k < s.len()
            &&& -(to as int) <= 2 * e <= to
            &&& 2 * e == to ==> n > 0
            &&& 2 * e == -(to as int) ==> n < 0
        }),
{
    lemma_source_index_in_range(s, from, to, i);
    let k = (i * from) / (to as int);
    let r = (i * from) % (to as int);
    let a = s[k] as int;
    let b = if k + 1 < s.len() {
        s[k + 1] as int
    } else {
        a
    };
    lemma_interpolation_between(a, b, r, to as int);
    lemma_round_div_nearest(a * to + (b - a) * r, to as int);
    let v = interpolated_sample(s, from, to, i);
    assert(i16::MIN <= v <= i16::MAX);
    assert(resample_spec(s, from, to)[i] == v);
}

/// The output has `len * to / from` samples, rounded to the nearest integer
/// with halves rounded up.
pub proof fn law_resample_length(s: Seq<i16>, from: nat, to: nat)
    requires
        from > 0,
        from != to,
        s.len() > 0,
    ensures
        ({
            let n = resample_spec(s, from, to).len();
            n * (2 * from) <= 2 * s.len() * to + from < (n + 1) * (2 * from)
        }),
{
    let x = (2 * s.len() * to + from) as int;
    let m = (2 * from) as int;
    vstd::arithmetic::div_mod::lemma_fundamental_div_mod(x, m);
    let n = resample_spec(s, from, to).len();
    assert(n == x / m);
    assert(n * (2 * from) <= x < (n + 1) * (2 * from)) by (nonlinear_arith)
        requires
            x == m * (x / m) + x % m,
            0 <= x % m < m,
            n == x / m,
            m == 2 * from,
    ;
}

/// Resampling between equal rates hands the input back unchanged.
pub proof fn law_resample_same_rate_is_identity(s: Seq<i16>, rate: nat)
    ensures
        resample_spec(s, rate, rate) == s,
{
}

/// Resamples mono PCM16 from `from_rate` to `to_rate` by linear
/// interpolation.
pub fn resample_linear_i16(input: &[i16], from_rate: u32, to_rate: u32) -> (output: Vec<i16>)
    requires
        resample_accepts(input@.len(), from_rate as nat, to_rate as nat),
    ensures
        output@ == resample_spec(input@, from_rate as nat, to_rate as nat),
{
    if from_rate == to_rate || input.len() == 0 {
        return vstd::slice::slice_to_vec(input);
    }
    let ghost s = input@;
    let len: u128 = input.len() as u128;
    let from: u128 = from_rate as u128;
    let to: u128 = to_rate as u128;
    assert((2 * len) * to <= 0x10_0000_0000_0000_0000_0000_0000) by (nonlinear_arith)
        requires
            len < 0x1_0000_0000_0000_0000,
            to < 0x1_0000_0000,
    ;
    let out_len: u128 = (2 * len * to + from) / (2 * from);
    proof {
        let x = (2 * len * to + from) as int;
        let d = (2 * from) as int;
        vstd::arithmetic::div_mod::lemma_fundamental_div_mod(x, d);
        assert(out_len * (2 * from) <= 2 * len * to + from) by (nonlinear_arith)
            requires
                x == d * (x / d) + x % d,
                x % d >= 0,
                out_len == x / d,
                d == 2 * from,
                x == 2 * len * to + from,
        ;
    }
    assert(out_len > 0 ==> to > 0) by (nonlinear_arith)
        requires
            out_len * (2 * from) <= 2 * len * to + from,
            from > 0,
    ;
    let mut output: Vec<i16> = Vec::new();
    let mut i: u128 = 0;
    while i < out_len
        invariant
            s == input@,
            len == s.len(),
            from == from_rate,
            to == to_rate,
            from > 0,
            len > 0,
            out_len == resampled_len(s.len(), from as nat, to as nat),
            out_len * (2 * from) <= 2 * len * to + from,
            out_len > 0 ==> to > 0,
            len < 0x1_0000_0000_0000_0000,
            to < 0x1_0000_0000,
            from < 0x1_0000_0000,
            i <= out_len,
            output@.len() == i,
            forall|k: int|
                0 <= k < i ==> #[trigger] output@[k] == interpolated_sample(
                    s,
                    from as nat,
                    to as nat,
                    k,
                ) as i16,
        decreases out_len - i,
    {
        assert(i * from < 0x10_0000_0000_0000_0000_0000_0000) by (nonlinear_arith)
            requires
                i < out_len,
                out_len * (2 * from) <= 2 * len * to + from,
                len < 0x1_0000_0000_0000_0000,
                to < 0x1_0000_0000,
                from < 0x1_0000_0000,
                from > 0,
        ;
        let pos: u128 = i * from;
        assert(to > 0);
        let idx: u128 = pos / to;
        assert(idx <= pos) by {
            vstd::arithmetic::div_mod::lemma_div_is_ordered_by_denominator(pos as int, 1, to as int);
        }
        let rem: u128 = pos % to;
        let a: i128 = if idx < len {
            input[idx as usize] as i128
        } else {
            0
        };
        let b: i128 = if idx + 1 < len {
            input[(idx + 1) as usize] as i128
        } else {
            a
        };
        let d: i128 = to as i128;
        let r: i128 = rem as i128;
        assert(-0x1_0000_0000_0000 < a * d < 0x1_0000_0000_0000) by (nonlinear_arith)
            requires
                -32768 <= a <= 32767,
                0 < d < 0x1_0000_0000,
        ;
        assert(-0x1_0000_0000_0000 < (b - a) * r < 0x1_0000_0000_0000) by (nonlinear_arith)
            requires
                -32768 <= a <= 32767,
                -32768 <= b <= 32767,
                0 < d < 0x1_0000_0000,
                0 <= r < d,
        ;
        assert(-0x1_0000_0000_0000 < a * d + (b - a) * r < 0x1_0000_0000_0000) by (nonlinear_arith)
            requires
                -32768 <= a <= 32767,
                -32768 <= b <= 32767,
                0 < d < 0x1_0000_0000,
                0 <= r < d,
        ;
        let n: i128 = a * d + (b - a) * r;
        let v: i128 = if n >= 0 {
            (2 * n + d) / (2 * d)
        } else {
            -((2 * (-n) + d) / (2 * d))
        };
        proof {
            lemma_interpolation_between(a as int, b as int, r as int, d as int);
            assert(v == interpolated_sample(s, from as nat, to as nat, i as int));
        }
        output.push(v as i16);
        i = i + 1;
    }
    assert(output@ =~= resample_spec(s, from_rate as nat, to_rate as nat));
    output
}

// ---------------------------------------------------------------------------
// Playback
// ---------------------------------------------------------------------------

/// Each sample repeated once per output channel (interleaved frames).
pub open spec fn replicate_channels(s: Seq<i16>, channels: nat) -> Seq<i16> {
    Seq::new(s.len() * channels, |j: int| s[j / (channels as int)])
}

/// What is queued for playback for one chunk of translated mono PCM16:
/// resampled from the service rate to the device rate, then replicated
/// across the device's channels.
pub open spec fn playback_spec(pcm16_mono: Seq<i16>, device_rate: nat, channels: nat) -> Seq<
    i16,
> {
    replicate_channels(resample_spec(pcm16_mono, TARGET_SAMPLE_RATE as nat, device_rate), channels)
}

/// Number of samples the resampler produces for `len` input samples.
pub open spec fn resampled_output_len(len: nat, from: nat, to: nat) -> nat {
    if from == to || len == 0 {
        len
    } else {
        resampled_len(len, from, to)
    }
}

/// The playback queue can take the frames of one chunk: the resampler can
/// run and the interleaved frames fit in memory indices.
pub open spec fn playback_accepts(len: nat, device_rate: nat, channels: nat) -> bool {
    &&& resample_accepts(len, TARGET_SAMPLE_RATE as nat, device_rate)
    &&& resampled_output_len(len, TARGET_SAMPLE_RATE as nat, device_rate) * channels <= usize::MAX
}

/// Whether `playback_frames` can take a chunk of `len` samples for a device
/// with this rate and channel count.
pub fn playback_fits(len: usize, device_rate: u32, channels: usize) -> (b: bool)
    ensures
        b == playback_accepts(len as nat, device_rate as nat, channels as nat),
{
    let l: u128 = len as u128;
    let to: u128 = device_rate as u128;
    let out_len: u128 = if device_rate == TARGET_SAMPLE_RATE || len == 0 {
        l
    } else {
        assert((2 * l) * to <= 0x10_0000_0000_0000_0000_0000_0000) by (nonlinear_arith)
            requires
                l < 0x1_0000_0000_0000_0000,
                to < 0x1_0000_0000,
        ;
        (2 * l * to + 24000) / 48000
    };
    if out_len > usize::MAX as u128 {
        return false;
    }
    let c: u128 = channels as u128;
    assert(out_len * c < 0x1_0000_0000_0000_0000_0000_0000_0000_0000) by (nonlinear_arith)
        requires
            out_len < 0x1_0000_0000_0000_0000,
            c < 0x1_0000_0000_0000_0000,
    ;
    out_len * c <= usize::MAX as u128
}

/// The interleaved samples to queue on an output device for one chunk of
/// mono PCM16 at `TARGET_SAMPLE_RATE`.
pub fn playback_frames(pcm16_mono: &[i16], device_rate: u32, channels: usize) -> (frames: Vec<
    i16,
>)
    requires
        playback_accepts(pcm16_mono@.len(), device_rate as nat, channels as nat),
    ensures
        frames@ == playback_spec(pcm16_mono@, device_rate as nat, channels as nat),
{
    let resampled = resample_linear_i16(pcm16_mono, TARGET_SAMPLE_RATE, device_rate);
    let ghost r = resampled@;
    let mut frames: Vec<i16> = Vec::new();
    let mut k: usize = 0;
    while k < resampled.len()
        invariant
            r == resampled@,
            r.len() * channels <= usize::MAX,
            k <= r.len(),
            frames@.len() == k * channels,
            forall|j: int|
                0 <= j < k * channels ==> #[trigger] frames@[j] == r[j / (channels as int)],
        decreases r.len() - k,
    {
        let sample = resampled[k];
        let mut c: usize = 0;
        assert((k + 1) * channels <= r.len() * channels) by (nonlinear_arith)
            requires
                k < r.len(),
        ;
        while c < channels
            invariant
                r == resampled@,
                sample == r[k as int],
                k < r.len(),
                (k + 1) * channels <= usize::MAX,
                c <= channels,
                frames@.len() == k * channels + c,
                forall|j: int|
                    0 <= j < k * channels + c ==> #[trigger] frames@[j] == r[j / (
                    channels as int)],
            decreases channels - c,
        {
            proof {
                let j = k * channels + c;
                vstd::arithmetic::div_mod::lemma_fundamental_div_mod_converse(
                    j as int,
                    channels as int,
                    k as int,
                    c as int,
                );
            }
            frames.push(sample);
            c = c + 1;
        }
        assert(k * channels + channels == (k + 1) * channels) by (nonlinear_arith);
        k = k + 1;
    }
    assert(frames@ =~= playback_spec(pcm16_mono@, device_rate as nat, channels as nat));
    frames
}

/// Every channel of each queued frame carries the resampled sample of that
/// frame: the queue holds `channels` frames' worth per resampled sample, and
/// channel `ch` of frame `k` is resampled sample `k`.
pub proof fn law_playback_every_channel_carries_the_sample(
    pcm16_mono: Seq<i16>,
    device_rate: nat,
    channels: nat,
    k: int,
    ch: int,
)
    requires
        0 <= k < resample_spec(pcm16_mono, TARGET_SAMPLE_RATE as nat, device_rate).len(),
        0 <= ch < channels,
    ensures
        playback_spec(pcm16_mono, device_rate, channels).len() == resample_spec(
            pcm16_mono,
            TARGET_SAMPLE_RATE as nat,
            device_rate,
        ).len() * channels,
        k * channels + ch < playback_spec(pcm16_mono, device_rate, channels).len(),
        playback_spec(pcm16_mono, device_rate, channels)[k * channels + ch] == resample_spec(
            pcm16_mono,
            TARGET_SAMPLE_RATE as nat,
            device_rate,
        )[k],
{
    let rlen = resample_spec(pcm16_mono, TARGET_SAMPLE_RATE as nat, device_rate).len();
    assert(k * channels + ch < rlen * channels) by (nonlinear_arith)
        requires
            0 <= k < rlen,
            0 <= ch < channels,
    ;
    vstd::arithmetic::div_mod::lemma_fundamental_div_mod_converse(
        k * channels + ch,
        channels as int,
        k,
        ch,
    );
}

// ---------------------------------------------------------------------------
// Stream formats
// ---------------------------------------------------------------------------

/// The sample format a device stream offers by default.
pub enum SampleFormat {
    I8,
    I16,
    I32,
    I64,
    U8,
    U16,
    U32,
    U64,
    F32,
    F64,
    /// A format of another kind, by its name.
    Other(String),
}

/// Which way a stream carries audio.
#[derive(Clone, Copy, PartialEq, Eq, Debug)]
pub enum StreamDirection {
    Input,
    Output,
}

/// The name of a format in messages.
pub open spec fn sample_format_name(f: SampleFormat) -> Seq<char> {
    match f {
        SampleFormat::I8 => "I8"@,
        SampleFormat::I16 => "I16"@,
        SampleFormat::I32 => "I32"@,
        SampleFormat::I64 => "I64"@,
        SampleFormat::U8 => "U8"@,
        SampleFormat::U16 => "U16"@,
        SampleFormat::U32 => "U32"@,
        SampleFormat::U64 => "U64"@,
        SampleFormat::F32 => "F32"@,
        SampleFormat::F64 => "F64"@,
        SampleFormat::Other(name) => name@,
    }
}

/// The streams carry 32-bit float samples; any other default format of a
/// device is refused, naming the direction and the format.
pub fn check_sample_format(format: SampleFormat, direction: StreamDirection) -> (r: Result<(), String>)
    ensures
        format is F32 ==> r is Ok,
        !(format is F32) ==> (r matches Err(m) && m@ == (match direction {
            StreamDirection::Input => "unsupported input sample format: "@,
            StreamDirection::Output => "unsupported output sample format: "@,
        }) + sample_format_name(format)),
{
    let name: String = match format {
        SampleFormat::F32 => return Ok(()),
        SampleFormat::I8 => "I8".to_owned(),
        SampleFormat::I16 => "I16".to_owned(),
        SampleFormat::I32 => "I32".to_owned(),
        SampleFormat::I64 => "I64".to_owned(),
        SampleFormat::U8 => "U8".to_owned(),
        SampleFormat::U16 => "U16".to_owned(),
        SampleFormat::U32 => "U32".to_owned(),
        SampleFormat::U64 => "U64".to_owned(),
        SampleFormat::F64 => "F64".to_owned(),
        SampleFormat::Other(n) => n,
    };
    let mut m = match direction {
        StreamDirection::Input => "unsupported input sample format: ".to_owned(),
        StreamDirection::Output => "unsupported output sample format: ".to_owned(),
    };
    m.append(name.as_str());
    Err(m)
}

// ---------------------------------------------------------------------------
// Devices
// ---------------------------------------------------------------------------

/// One audio device as shown to the frontend. The device name doubles as its
/// id, since the audio backend has no stable id across platforms.
pub struct AudioDeviceInfo {
    pub id: String,
    pub name: String,
    pub is_default: bool,
}

/// The entry describing device `name`.
pub open spec fn describes(info: AudioDeviceInfo, name: Seq<char>, default_name: Option<String>) -> bool {
    &&& info.id@ == name
    &&& info.name@ == name
    &&& info.is_default == (default_name matches Some(d) && d@ == name)
}

/// Describes the devices whose names could be read, in enumeration order,
/// marking the one whose name equals the backend's default device name.
pub fn describe_devices(names: Vec<String>, default_name: Option<String>) -> (infos: Vec<
    AudioDeviceInfo,
>)
    ensures
        infos@.len() == names@.len(),
        forall|i: int|
            0 <= i < names@.len() ==> describes(#[trigger] infos@[i], names@[i]@, default_name),
{
    let mut infos: Vec<AudioDeviceInfo> = Vec::new();
    let mut i: usize = 0;
    while i < names.len()
        invariant
            i <= names@.len(),
            infos@.len() == i,
            forall|k: int|
                0 <= k < i ==> describes(#[trigger] infos@[k], names@[k]@, default_name),
        decreases names@.len() - i,
    {
        let name = names[i].clone();
        let is_default = match &default_name {
            Some(d) => *d == name,
            None => false,
        };
        infos.push(AudioDeviceInfo { id: name.clone(), name, is_default });
        i = i + 1;
    }
    infos
}

/// The first position whose device name could be read and equals `id`.
pub open spec fn first_device_named(names: Seq<Option<String>>, id: Seq<char>, i: int) -> bool {
    &&& 0 <= i < names.len()
    &&& names[i] matches Some(n) && n@ == id
    &&& forall|j: int| 0 <= j < i ==> !(#[trigger] names[j] matches Some(n) && n@ == id)
}

fn find_device(names: &Vec<Option<String>>, id: &str, word: &str) -> (r: Result<
    usize,
    String,
>)
    ensures
        r matches Ok(i) ==> first_device_named(names@, id@, i as int),
        r matches Err(msg) ==> {
            &&& forall|j: int|
                0 <= j < names@.len() ==> !(#[trigger] names@[j] matches Some(n) && n@ == id@)
            &&& msg@ == word@ + " device not found: "@ + id@
        },
{
    let wanted = id.to_owned();
    let mut i: usize = 0;
    while i < names.len()
        invariant
            wanted@ == id@,
            i <= names@.len(),
            forall|j: int|
                0 <= j < i ==> !(#[trigger] names@[j] matches Some(n) && n@ == id@),
        decreases names@.len() - i,
    {
        match &names[i] {
            Some(n) => {
                if *n == wanted {
                    return Ok(i);
                }
            },
            None => {},
        }
        i = i + 1;
    }
    let mut msg = word.to_owned();
    msg.append(" device not found: ");
    msg.append(id);
    Err(msg)
}

/// Finds the input device with the name handed out as its id; `names` are
/// the names of the enumerated input devices, `None` where a name could not
/// be read. Returns the position of the first match.
pub fn find_input_device(names: &Vec<Option<String>>, id: &str) -> (r: Result<usize, String>)
    ensures
        r matches Ok(i) ==> first_device_named(names@, id@, i as int),
        r matches Err(msg) ==> {
            &&& forall|j: int|
                0 <= j < names@.len() ==> !(#[trigger] names@[j] matches Some(n) && n@ == id@)
            &&& msg@ == "input device not found: "@ + id@
        },
{
    proof {
        reveal_strlit("input");
        reveal_strlit(" device not found: ");
        reveal_strlit("input device not found: ");
        assert("input"@ + " device not found: "@ =~= "input device not found: "@);
    }
    find_device(names, id, "input")
}

/// Finds the output device with the name handed out as its id, as
/// `find_input_device` does for input devices.
pub fn find_output_device(names: &Vec<Option<String>>, id: &str) -> (r: Result<usize, String>)
    ensures
        r matches Ok(i) ==> first_device_named(names@, id@, i as int),
        r matches Err(msg) ==> {
            &&& forall|j: int|
                0 <= j < names@.len() ==> !(#[trigger] names@[j] matches Some(n) && n@ == id@)
            &&& msg@ == "output device not found: "@ + id@
        },
{
    proof {
        reveal_strlit("output");
        reveal_strlit(" device not found: ");
        reveal_strlit("output device not found: ");
        assert("output"@ + " device not found: "@ =~= "output device not found: "@);
    }
    find_device(names, id, "output")
}

} // verus!
