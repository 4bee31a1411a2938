//! The textual level format: a metadata section and an object section
//! separated by three semicolons; metadata as `key:value` pairs separated
//! by semicolons, objects as colon-separated `y:x:rotation:type_id`
//! records. The text is ASCII and is carried here as bytes.

use vstd::prelude::*;
use vstd::string::{StrSliceExecFns, StringSliceAdditionalSpecFns};
use crate::objects::{ObjectStruct, ObjectModel, TriggerProps};

verus! {

/// Splitting on a separator byte, as `str::split` does: every separator
/// ends a piece, and both an empty input and adjacent separators yield
/// empty pieces.
pub open spec fn spec_split(s: Seq<u8>, sep: u8) -> Seq<Seq<u8>>
    decreases s.len(),
{
    if s.len() == 0 {
        seq![Seq::<u8>::empty()]
    } else if s[0] == sep {
        seq![Seq::<u8>::empty()] + spec_split(s.subrange(1, s.len() as int), sep)
    } else {
        prepend_first(seq![s[0]], spec_split(s.subrange(1, s.len() as int), sep))
    }
}

/// The first piece of a split, extended on the left.
pub open spec fn prepend_first(c: Seq<u8>, r: Seq<Seq<u8>>) -> Seq<Seq<u8>> {
    r.update(0, c + r[0])
}

/// A split is never empty.
pub proof fn lemma_split_nonempty(s: Seq<u8>, sep: u8)
    ensures
        spec_split(s, sep).len() >= 1,
    decreases s.len(),
{
    if s.len() > 0 {
        lemma_split_nonempty(s.subrange(1, s.len() as int), sep);
    }
}

/// Closing a piece at a separator: the finished piece moves into the
/// parts done so far.
proof fn lemma_prepend_first_close(parts: Seq<Seq<u8>>, cur: Seq<u8>, r: Seq<Seq<u8>>)
    requires
        r.len() >= 1,
    ensures
        parts + prepend_first(cur, seq![Seq::<u8>::empty()] + r)
            == (parts + seq![cur]) + prepend_first(Seq::<u8>::empty(), r),
{
    assert(cur + (seq![Seq::<u8>::empty()] + r)[0] =~= cur);
    assert(Seq::<u8>::empty() + r[0] =~= r[0]);
    assert(prepend_first(Seq::<u8>::empty(), r) =~~= r);
    assert(parts + prepend_first(cur, seq![Seq::<u8>::empty()] + r)
        =~~= (parts + seq![cur]) + prepend_first(Seq::<u8>::empty(), r));
}

/// Extending the open piece by one byte.
proof fn lemma_prepend_first_extend(cur: Seq<u8>, c: u8, r: Seq<Seq<u8>>)
    requires
        r.len() >= 1,
    ensures
        prepend_first(cur, prepend_first(seq![c], r)) == prepend_first(cur.push(c), r),
{
    assert(cur + (seq![c] + r[0]) =~= cur.push(c) + r[0]);
    assert(prepend_first(cur, prepend_first(seq![c], r)) =~~= prepend_first(cur.push(c), r));
}

/// Splits a byte string on a separator byte.
pub fn split_bytes(s: &Vec<u8>, sep: u8) -> (r: Vec<Vec<u8>>)
    ensures
        r.deep_view() == spec_split(s@, sep),
{
    let mut parts: Vec<Vec<u8>> = Vec::new();
    let mut cur: Vec<u8> = Vec::new();
    let mut i: usize = 0;
    proof {
        assert(s@.subrange(0, s@.len() as int) =~= s@);
        lemma_split_nonempty(s@, sep);
        assert(Seq::<u8>::empty() + spec_split(s@, sep)[0] =~= spec_split(s@, sep)[0]);
        assert(prepend_first(Seq::<u8>::empty(), spec_split(s@, sep)) =~~= spec_split(s@, sep));
        assert(parts.deep_view() + prepend_first(cur@, spec_split(s@, sep)) =~~= spec_split(s@, sep));
    }
    while i < s.len()
        invariant
            0 <= i <= s@.len(),
            cur.deep_view() == cur@,
            spec_split(s@, sep) == parts.deep_view()
                + prepend_first(cur@, spec_split(s@.subrange(i as int, s@.len() as int), sep)),
        decreases s@.len() - i,
    {
        let ghost rest = s@.subrange(i as int, s@.len() as int);
        let ghost rest1 = s@.subrange(i + 1, s@.len() as int);
        let ghost parts0 = parts.deep_view();
        let ghost cur0 = cur@;
        proof {
            assert(rest.len() > 0);
            assert(rest[0] == s@[i as int]);
            assert(rest.subrange(1, rest.len() as int) =~= rest1);
            lemma_split_nonempty(rest1, sep);
        }
        let c = s[i];
        if c == sep {
            proof {
                lemma_prepend_first_close(parts0, cur0, spec_split(rest1, sep));
            }
            parts.push(cur);
            cur = Vec::new();
            proof {
                assert(parts.deep_view() =~~= parts0 + seq![cur0]);
            }
        } else {
            proof {
                lemma_prepend_first_extend(cur0, c, spec_split(rest1, sep));
            }
            cur.push(c);
        }
        i += 1;
    }
    let ghost parts0 = parts.deep_view();
    let ghost cur0 = cur@;
    proof {
        assert(s@.subrange(i as int, s@.len() as int) =~= Seq::<u8>::empty());
        assert(cur0 + spec_split(Seq::<u8>::empty(), sep)[0] =~= cur0);
        assert(prepend_first(cur0, spec_split(Seq::<u8>::empty(), sep)) =~~= seq![cur0]);
    }
    parts.push(cur);
    proof {
        assert(parts.deep_view() =~~= parts0 + seq![cur0]);
    }
    parts
}

/// Whether the string starts with a run of `n` separator bytes.
pub open spec fn spec_starts_run(s: Seq<u8>, sep: u8, n: int) -> bool {
    s.len() >= n && forall|k: int| 0 <= k < n ==> s[k] == sep
}

/// Splitting on a run of `n` equal separator bytes, as `str::split` with
/// a multi-character pattern does: leftmost matches first, without
/// overlap.
pub open spec fn spec_split_run(s: Seq<u8>, sep: u8, n: int) -> Seq<Seq<u8>>
    decreases s.len(),
{
    if s.len() == 0 {
        seq![Seq::<u8>::empty()]
    } else if n >= 1 && spec_starts_run(s, sep, n) {
        seq![Seq::<u8>::empty()] + spec_split_run(s.subrange(n, s.len() as int), sep, n)
    } else {
        prepend_first(seq![s[0]], spec_split_run(s.subrange(1, s.len() as int), sep, n))
    }
}

/// A run split is never empty.
pub proof fn lemma_split_run_nonempty(s: Seq<u8>, sep: u8, n: int)
    ensures
        spec_split_run(s, sep, n).len() >= 1,
    decreases s.len(),
{
    if s.len() > 0 {
        if n >= 1 && spec_starts_run(s, sep, n) {
            lemma_split_run_nonempty(s.subrange(n, s.len() as int), sep, n);
        } else {
            lemma_split_run_nonempty(s.subrange(1, s.len() as int), sep, n);
        }
    }
}

/// Whether a run of `n` separators stands at position `i`.
fn run_at(s: &Vec<u8>, i: usize, sep: u8, n: usize) -> (r: bool)
    requires
        i <= s@.len(),
    ensures
        r == spec_starts_run(s@.subrange(i as int, s@.len() as int), sep, n as int),
{
    let ghost rest = s@.subrange(i as int, s@.len() as int);
    let slen = s.len();
    if slen - i < n {
        return false;
    }
    let mut k: usize = 0;
    while k < n
        invariant
            0 <= k <= n,
            i + n <= slen,
            slen == s@.len(),
            rest == s@.subrange(i as int, s@.len() as int),
            forall|j: int| 0 <= j < k ==> #[trigger] s@[i + j] == sep,
        decreases n - k,
    {
        if s[i + k] != sep {
            proof {
                assert(rest[k as int] == s@[i + k]);
                assert(!spec_starts_run(rest, sep, n as int));
            }
            return false;
        }
        k += 1;
    }
    proof {
        assert forall|j: int| 0 <= j < n implies rest[j] == sep by {
            assert(rest[j] == s@[i + j]);
        }
    }
    true
}

/// Splits a byte string on a run of `n` separator bytes.
pub fn split_run_bytes(s: &Vec<u8>, sep: u8, n: usize) -> (r: Vec<Vec<u8>>)
    requires
        n >= 1,
    ensures
        r.deep_view() == spec_split_run(s@, sep, n as int),
{
    let mut parts: Vec<Vec<u8>> = Vec::new();
    let mut cur: Vec<u8> = Vec::new();
    let mut i: usize = 0;
    proof {
        assert(s@.subrange(0, s@.len() as int) =~= s@);
        lemma_split_run_nonempty(s@, sep, n as int);
        assert(Seq::<u8>::empty() + spec_split_run(s@, sep, n as int)[0]
            =~= spec_split_run(s@, sep, n as int)[0]);
        assert(prepend_first(Seq::<u8>::empty(), spec_split_run(s@, sep, n as int))
            =~~= spec_split_run(s@, sep, n as int));
        assert(parts.deep_view() + prepend_first(cur@, spec_split_run(s@, sep, n as int))
            =~~= spec_split_run(s@, sep, n as int));
    }
    while i < s.len()
        invariant
            0 <= i <= s@.len(),
            n >= 1,
            spec_split_run(s@, sep, n as int) == parts.deep_view()
                + prepend_first(cur@, spec_split_run(s@.subrange(i as int, s@.len() as int), sep, n as int)),
        decreases s@.len() - i,
    {
        let ghost rest = s@.subrange(i as int, s@.len() as int);
        let ghost parts0 = parts.deep_view();
        let ghost cur0 = cur@;
        proof {
            assert(rest.len() > 0);
            assert(rest[0] == s@[i as int]);
        }
        if run_at(s, i, sep, n) {
            let ghost restn = s@.subrange(i + n, s@.len() as int);
            proof {
                assert(rest.subrange(n as int, rest.len() as int) =~= restn);
                lemma_split_run_nonempty(restn, sep, n as int);
                lemma_prepend_first_close(parts0, cur0, spec_split_run(restn, sep, n as int));
            }
            parts.push(cur);
            cur = Vec::new();
            proof {
                assert(parts.deep_view() =~~= parts0 + seq![cur0]);
            }
            i += n;
        } else {
            let ghost rest1 = s@.subrange(i + 1, s@.len() as int);
            proof {
                assert(rest.subrange(1, rest.len() as int) =~= rest1);
                lemma_split_run_nonempty(rest1, sep, n as int);
                lemma_prepend_first_extend(cur0, s@[i as int], spec_split_run(rest1, sep, n as int));
            }
            let c = s[i];
            cur.push(c);
            i += 1;
        }
    }
    let ghost parts0 = parts.deep_view();
    let ghost cur0 = cur@;
    proof {
        assert(s@.subrange(i as int, s@.len() as int) =~= Seq::<u8>::empty());
        assert(cur0 + spec_split_run(Seq::<u8>::empty(), sep, n as int)[0] =~= cur0);
        assert(prepend_first(cur0, spec_split_run(Seq::<u8>::empty(), sep, n as int)) =~~= seq![cur0]);
    }
    parts.push(cur);
    proof {
        assert(parts.deep_view() =~~= parts0 + seq![cur0]);
    }
    parts
}

/// The value of a decimal digit string, most significant digit first.
pub open spec fn spec_digits_val(s: Seq<u8>) -> int
    decreases s.len(),
{
    if s.len() == 0 {
        0
    } else {
        spec_digits_val(s.take(s.len() - 1)) * 10 + (s[s.len() - 1] - 48)
    }
}

/// Whether every byte is an ASCII decimal digit.
pub open spec fn spec_all_digits(s: Seq<u8>) -> bool {
    forall|k: int| 0 <= k < s.len() ==> 48 <= #[trigger] s[k] <= 57
}

/// What parsing an unsigned decimal with the given maximum yields: an
/// optional leading plus sign, then at least one digit, and a value in
/// range; anything else is rejected.
pub open spec fn spec_parse_unsigned(s: Seq<u8>, max: int) -> Option<int> {
    let body = if s.len() >= 1 && s[0] == 43 {
        s.subrange(1, s.len() as int)
    } else {
        s
    };
    if body.len() >= 1 && spec_all_digits(body) && spec_digits_val(body) <= max {
        Some(spec_digits_val(body))
    } else {
        None
    }
}

/// What parsing a signed decimal with the given bounds yields: a minus
/// sign turns the digit value negative, otherwise the unsigned rule
/// applies.
pub open spec fn spec_parse_signed(s: Seq<u8>, min: int, max: int) -> Option<int> {
    if s.len() >= 1 && s[0] == 45 {
        let body = s.subrange(1, s.len() as int);
        if body.len() >= 1 && spec_all_digits(body) && -spec_digits_val(body) >= min {
            Some(-spec_digits_val(body))
        } else {
            None
        }
    } else {
        spec_parse_unsigned(s, max)
    }
}

/// The value of an all-digit string is nonnegative and only grows as the
/// string extends to the right.
proof fn lemma_digits_val_mono(s: Seq<u8>, k: int)
    requires
        spec_all_digits(s),
        0 <= k <= s.len(),
    ensures
        0 <= spec_digits_val(s.take(k)) <= spec_digits_val(s),
    decreases s.len() - k,
{
    if k == s.len() {
        assert(s.take(k) =~= s);
        lemma_digits_val_nonneg(s);
    } else {
        lemma_digits_val_mono(s, k + 1);
        assert(s.take(k + 1).take(k) =~= s.take(k));
        assert(s.take(k + 1)[k] == s[k]);
        lemma_digits_val_nonneg(s.take(k));
    }
}

/// The value of an all-digit string is nonnegative.
proof fn lemma_digits_val_nonneg(s: Seq<u8>)
    requires
        spec_all_digits(s),
    ensures
        spec_digits_val(s) >= 0,
    decreases s.len(),
{
    if s.len() > 0 {
        assert(spec_all_digits(s.take(s.len() - 1)));
        lemma_digits_val_nonneg(s.take(s.len() - 1));
    }
}

/// Parses the digit body starting at `start`, bounded by `max`.
fn parse_digits(s: &Vec<u8>, start: usize, max: u64) -> (r: Option<u64>)
    requires
        start <= s@.len(),
        max <= 0xFFFF_FFFF,
    ensures
        ({
            let body = s@.subrange(start as int, s@.len() as int);
            match r {
                Some(x) => body.len() >= 1 && spec_all_digits(body)
                    && spec_digits_val(body) == x as int && x as int <= max as int,
                None => !(body.len() >= 1 && spec_all_digits(body)
                    && spec_digits_val(body) <= max as int),
            }
        }),
{
    let ghost body = s@.subrange(start as int, s@.len() as int);
    if start == s.len() {
        return None;
    }
    let mut acc: u64 = 0;
    let mut i: usize = start;
    while i < s.len()
        invariant
            start <= i <= s@.len(),
            start < s@.len(),
            max <= 0xFFFF_FFFF,
            body == s@.subrange(start as int, s@.len() as int),
            spec_all_digits(body.take(i - start)),
            acc as int == spec_digits_val(body.take(i - start)),
            acc <= max,
        decreases s@.len() - i,
    {
        let d = s[i];
        proof {
            assert(body[i - start] == s@[i as int]);
            assert(body.take(i - start + 1).take(i - start) =~= body.take(i - start));
            assert(body.take(i - start + 1)[i - start] == s@[i as int]);
        }
        if d < 48 || d > 57 {
            proof {
                assert(!spec_all_digits(body));
            }
            return None;
        }
        acc = acc * 10 + (d - 48) as u64;
        proof {
            assert(spec_all_digits(body.take(i - start + 1)));
        }
        if acc > max {
            proof {
                if spec_all_digits(body) {
                    lemma_digits_val_mono(body, i - start + 1);
                }
            }
            return None;
        }
        i += 1;
    }
    proof {
        assert(body.take(i - start) =~= body);
    }
    Some(acc)
}

/// Parses an unsigned decimal as the standard library does: an optional
/// plus sign, then digits, rejecting empty bodies and values above
/// `max`.
pub fn parse_unsigned_bytes(v: &Vec<u8>, max: u64) -> (r: Option<u64>)
    requires
        max <= 0xFFFF_FFFF,
    ensures
        match r {
            Some(x) => spec_parse_unsigned(v@, max as int) == Some(x as int) && x <= max,
            None => spec_parse_unsigned(v@, max as int) is None,
        },
{
    let start: usize = if v.len() >= 1 && v[0] == 43 { 1 } else { 0 };
    proof {
        if v@.len() >= 1 && v@[0] == 43 {
            assert(v@.subrange(1, v@.len() as int) =~= v@.subrange(start as int, v@.len() as int));
        } else {
            assert(v@ =~= v@.subrange(start as int, v@.len() as int));
        }
    }
    parse_digits(v, start, max)
}

/// Parses a signed decimal as the standard library does: an optional
/// sign, then digits, rejecting empty bodies and out-of-range values.
pub fn parse_signed_bytes(v: &Vec<u8>, min: i64, max: i64) -> (r: Option<i64>)
    requires
        -0x1_0000_0000 < min <= 0,
        0 <= max <= 0xFFFF_FFFF,
    ensures
        match r {
            Some(x) => spec_parse_signed(v@, min as int, max as int) == Some(x as int)
                && min <= x <= max,
            None => spec_parse_signed(v@, min as int, max as int) is None,
        },
{
    if v.len() >= 1 && v[0] == 45 {
        match parse_digits(v, 1, (-min) as u64) {
            Some(m) => Some(-(m as i64)),
            None => None,
        }
    } else {
        match parse_unsigned_bytes(v, max as u64) {
            Some(x) => Some(x as i64),
            None => None,
        }
    }
}

/// The decimal digits of a nonnegative number, most significant first.
pub open spec fn spec_dec_bytes(n: int) -> Seq<u8>
    decreases n,
{
    if n <= 9 {
        seq![(48 + (if n < 0 { 0int } else { n })) as u8]
    } else {
        spec_dec_bytes(n / 10).push((48 + n % 10) as u8)
    }
}

/// A signed decimal rendering: a minus sign before the digits of the
/// magnitude.
pub open spec fn spec_signed_dec_bytes(n: int) -> Seq<u8> {
    if n < 0 {
        seq![45u8] + spec_dec_bytes(-n)
    } else {
        spec_dec_bytes(n)
    }
}

/// Appends the decimal digits of an unsigned number.
fn push_dec_u64(out: &mut Vec<u8>, n: u64)
    ensures
        final(out)@ == old(out)@ + spec_dec_bytes(n as int),
    decreases n,
{
    let ghost out0 = out@;
    if n <= 9 {
        out.push(48 + n as u8);
        proof {
            assert(out@ =~= out0 + spec_dec_bytes(n as int));
        }
    } else {
        push_dec_u64(out, n / 10);
        out.push(48 + (n % 10) as u8);
        proof {
            assert(out@ =~= out0 + spec_dec_bytes(n as int));
        }
    }
}

/// A decimal rendering always holds at least one digit.
proof fn lemma_dec_bytes_len(n: int)
    ensures
        spec_dec_bytes(n).len() >= 1,
    decreases n,
{
    if n > 9 {
        lemma_dec_bytes_len(n / 10);
    }
}

/// Appends a signed decimal rendering.
fn push_dec_i64(out: &mut Vec<u8>, n: i64)
    requires
        n > i64::MIN,
    ensures
        final(out)@ == old(out)@ + spec_signed_dec_bytes(n as int),
{
    let ghost out0 = out@;
    if n < 0 {
        out.push(45);
        push_dec_u64(out, (-n) as u64);
        proof {
            assert(out@ =~= out0 + spec_signed_dec_bytes(n as int));
        }
    } else {
        push_dec_u64(out, n as u64);
    }
}

/// Appends the bytes of a literal text piece.
fn push_text(out: &mut Vec<u8>, s: &str)
    ensures
        final(out)@ == old(out)@ + s.spec_bytes(),
{
    let mut v = s.as_bytes_vec();
    out.append(&mut v);
}

/// One object's record in the level text: `y:x:rotation:type_id`, with
/// the record separator appended.
pub open spec fn spec_object_record(o: ObjectModel) -> Seq<u8> {
    spec_signed_dec_bytes(o.y) + ":".spec_bytes() + spec_signed_dec_bytes(o.x) + ":".spec_bytes()
        + spec_signed_dec_bytes(o.rotation) + ":".spec_bytes() + spec_dec_bytes(o.id)
        + ";".spec_bytes()
}

/// The concatenated records of the whole store, in order.
pub open spec fn spec_records(objs: Seq<ObjectModel>) -> Seq<u8>
    decreases objs.len(),
{
    if objs.len() == 0 {
        Seq::<u8>::empty()
    } else {
        spec_object_record(objs[0]) + spec_records(objs.subrange(1, objs.len() as int))
    }
}

/// Extending the store by one object appends its record.
proof fn lemma_records_snoc(objs: Seq<ObjectModel>, o: ObjectModel)
    ensures
        spec_records(objs.push(o)) == spec_records(objs) + spec_object_record(o),
    decreases objs.len(),
{
    let s = objs.push(o);
    if objs.len() == 0 {
        assert(s[0] == o);
        assert(s.subrange(1, s.len() as int) =~= Seq::<ObjectModel>::empty());
        assert(spec_records(Seq::<ObjectModel>::empty()) =~= Seq::<u8>::empty());
        assert(spec_records(objs.push(o)) =~= spec_records(objs) + spec_object_record(o));
    } else {
        assert(s[0] == objs[0]);
        assert(s.subrange(1, s.len() as int) =~= objs.subrange(1, objs.len() as int).push(o));
        lemma_records_snoc(objs.subrange(1, objs.len() as int), o);
        assert(spec_records(objs.push(o)) =~= spec_records(objs) + spec_object_record(o));
    }
}

/// The whole level text before the final byte is dropped: the fixed
/// metadata with the song and the two configurable colors filled in, the
/// section separator, and every object's record.
pub open spec fn spec_level_text_full(song: int, bg_red: int, bg_green: int, bg_blue: int, ground_red: int, ground_green: int, ground_blue: int, objs: Seq<ObjectModel>) -> Seq<u8> {
    "version:BETA;name:hi;desc:testing level loading;song:".spec_bytes() + spec_dec_bytes(song)
        + ";c1001:".spec_bytes() + spec_dec_bytes(bg_red) + ",".spec_bytes()
        + spec_dec_bytes(bg_green) + ",".spec_bytes() + spec_dec_bytes(bg_blue)
        + ";c1002:".spec_bytes() + spec_dec_bytes(ground_red) + ",".spec_bytes()
        + spec_dec_bytes(ground_green) + ",".spec_bytes() + spec_dec_bytes(ground_blue)
        + ";c1004:255,255,255;bg:1;grnd:1;;;".spec_bytes() + spec_records(objs)
}

/// The level text as written out: the full text with its final byte
/// dropped — the last record's separator, or, with no objects, the last
/// byte of the section separator.
pub open spec fn spec_level_text(song: int, bg_red: int, bg_green: int, bg_blue: int, ground_red: int, ground_green: int, ground_blue: int, objs: Seq<ObjectModel>) -> Seq<u8> {
    let full = spec_level_text_full(song, bg_red, bg_green, bg_blue, ground_red, ground_green, ground_blue, objs);
    full.subrange(0, full.len() - 1)
}

/// Serializes a level: the fixed metadata around the song and colors,
/// then every placed object as a `y:x:rotation:type_id` record, with the
/// final separator byte dropped as the level files carry it.
pub fn get_level_text(current_song: u8, bg_red: u8, bg_green: u8, bg_blue: u8, ground_red: u8, ground_green: u8, ground_blue: u8, object_grid: &Vec<ObjectStruct>) -> (r: Vec<u8>)
    ensures
        r@ == spec_level_text(
            current_song as int, bg_red as int, bg_green as int, bg_blue as int,
            ground_red as int, ground_green as int, ground_blue as int,
            object_grid.deep_view(),
        ),
{
    let ghost objs = object_grid.deep_view();
    let mut out: Vec<u8> = Vec::new();
    push_text(&mut out, "version:BETA;name:hi;desc:testing level loading;song:");
    push_dec_u64(&mut out, current_song as u64);
    push_text(&mut out, ";c1001:");
    push_dec_u64(&mut out, bg_red as u64);
    push_text(&mut out, ",");
    push_dec_u64(&mut out, bg_green as u64);
    push_text(&mut out, ",");
    push_dec_u64(&mut out, bg_blue as u64);
    push_text(&mut out, ";c1002:");
    push_dec_u64(&mut out, ground_red as u64);
    push_text(&mut out, ",");
    push_dec_u64(&mut out, ground_green as u64);
    push_text(&mut out, ",");
    push_dec_u64(&mut out, ground_blue as u64);
    push_text(&mut out, ";c1004:255,255,255;bg:1;grnd:1;;;");
    let ghost head = out@;
    proof {
        assert(out@ =~= head + spec_records(objs.take(0)));
    }
    let mut i: usize = 0;
    while i < object_grid.len()
        invariant
            0 <= i <= object_grid@.len(),
            objs == object_grid.deep_view(),
            out@ == head + spec_records(objs.take(i as int)),
        decreases object_grid@.len() - i,
    {
        let ghost out0 = out@;
        let object = &object_grid[i];
        push_dec_i64(&mut out, object.y as i64);
        push_text(&mut out, ":");
        push_dec_i64(&mut out, object.x as i64);
        push_text(&mut out, ":");
        push_dec_i64(&mut out, object.rotation as i64);
        push_text(&mut out, ":");
        push_dec_u64(&mut out, object.id as u64);
        push_text(&mut out, ";");
        proof {
            assert(objs[i as int] == object_grid@[i as int]@);
            assert(out@ =~= out0 + spec_object_record(objs[i as int]));
            lemma_records_snoc(objs.take(i as int), objs[i as int]);
            assert(objs.take(i + 1) =~= objs.take(i as int).push(objs[i as int]));
            assert(out@ =~= head + spec_records(objs.take(i + 1)));
        }
        i += 1;
    }
    proof {
        assert(objs.take(objs.len() as int) =~= objs);
        lemma_dec_bytes_len(current_song as int);
    }
    out.pop();
    proof {
        assert(out@ =~= spec_level_text(
            current_song as int, bg_red as int, bg_green as int, bg_blue as int,
            ground_red as int, ground_green as int, ground_blue as int, objs,
        ));
    }
    out
}

/// Why a level text or a level download response was rejected.
#[derive(Clone, Copy, Debug, PartialEq, Eq, Structural)]
pub enum LevelError {
    /// No section separator: the text has no object section.
    MissingSections,
    /// A metadata pair has no value, or a color list is too short.
    MalformedMetadata,
    /// The text declares the retired first format version.
    OldVersion,
    /// The text declares a version this format does not know.
    UnknownVersion,
    /// A numeric field does not parse in its required range.
    BadNumber,
    /// An object record has fewer than three fields.
    MalformedObject,
    /// A level download response misses one of its sections or fields.
    MalformedResponse,
}

/// The metadata a level text can set: the background and ground colors
/// and the song, each only when its key is present.
#[derive(Clone, Copy, Debug)]
pub struct MetaOut {
    pub background: Option<(u8, u8, u8)>,
    pub ground: Option<(i32, i32, i32)>,
    pub song: Option<u8>,
}

/// Mathematical view of `MetaOut`.
pub struct MetaModel {
    pub background: Option<(int, int, int)>,
    pub ground: Option<(int, int, int)>,
    pub song: Option<int>,
}

impl View for MetaOut {
    type V = MetaModel;

    open spec fn view(&self) -> MetaModel {
        MetaModel {
            background: match self.background {
                Some((r, g, b)) => Some((r as int, g as int, b as int)),
                None => None,
            },
            ground: match self.ground {
                Some((r, g, b)) => Some((r as int, g as int, b as int)),
                None => None,
            },
            song: match self.song {
                Some(v) => Some(v as int),
                None => None,
            },
        }
    }
}

/// A deserialized level: its objects and the metadata it set.
#[derive(Debug)]
pub struct ParsedLevel {
    pub objects: Vec<ObjectStruct>,
    pub background: Option<(u8, u8, u8)>,
    pub ground: Option<(i32, i32, i32)>,
    pub song: Option<u8>,
}

/// Mathematical view of `ParsedLevel`.
pub struct LevelModel {
    pub objects: Seq<ObjectModel>,
    pub background: Option<(int, int, int)>,
    pub ground: Option<(int, int, int)>,
    pub song: Option<int>,
}

impl View for ParsedLevel {
    type V = LevelModel;

    open spec fn view(&self) -> LevelModel {
        LevelModel {
            objects: self.objects.deep_view(),
            background: match self.background {
                Some((r, g, b)) => Some((r as int, g as int, b as int)),
                None => None,
            },
            ground: match self.ground {
                Some((r, g, b)) => Some((r as int, g as int, b as int)),
                None => None,
            },
            song: match self.song {
                Some(v) => Some(v as int),
                None => None,
            },
        }
    }
}

/// Whether a byte string equals a literal text piece.
fn bytes_is(v: &Vec<u8>, s: &str) -> (r: bool)
    ensures
        r == (v@ == s.spec_bytes()),
{
    let b = s.as_bytes();
    if v.len() != b.len() {
        return false;
    }
    let mut i: usize = 0;
    while i < v.len()
        invariant
            0 <= i <= v@.len(),
            v@.len() == b@.len(),
            b@ == s.spec_bytes(),
            forall|j: int| 0 <= j < i ==> v@[j] == b@[j],
        decreases v@.len() - i,
    {
        if v[i] != b[i] {
            return false;
        }
        i += 1;
    }
    proof {
        assert(v@ =~= s.spec_bytes());
    }
    true
}

/// The effect of one metadata pair on the metadata read so far: the
/// version is checked, the two color keys and the song key set their
/// fields, unknown keys are ignored, and a pair without a value, a short
/// color list or a bad number is rejected.
pub open spec fn spec_meta_pair(m: MetaModel, pair: Seq<u8>, parse_song: bool) -> Result<MetaModel, LevelError> {
    let kv = spec_split(pair, 58);
    if kv.len() < 2 {
        Err(LevelError::MalformedMetadata)
    } else {
        let key = kv[0];
        let value = kv[1];
        if key == "version".spec_bytes() {
            if value == "BETA".spec_bytes() {
                Ok(m)
            } else if value == "ALPHA".spec_bytes() {
                Err(LevelError::OldVersion)
            } else {
                Err(LevelError::UnknownVersion)
            }
        } else if key == "c1001".spec_bytes() {
            let cols = spec_split(value, 44);
            if cols.len() < 3 {
                Err(LevelError::MalformedMetadata)
            } else {
                match (spec_parse_unsigned(cols[0], 255), spec_parse_unsigned(cols[1], 255), spec_parse_unsigned(cols[2], 255)) {
                    (Some(r), Some(g), Some(b)) => Ok(MetaModel { background: Some((r, g, b)), ..m }),
                    _ => Err(LevelError::BadNumber),
                }
            }
        } else if key == "c1002".spec_bytes() {
            let cols = spec_split(value, 44);
            if cols.len() < 3 {
                Err(LevelError::MalformedMetadata)
            } else {
                match (spec_parse_signed(cols[0], -0x8000_0000, 0x7fff_ffff), spec_parse_signed(cols[1], -0x8000_0000, 0x7fff_ffff), spec_parse_signed(cols[2], -0x8000_0000, 0x7fff_ffff)) {
                    (Some(r), Some(g), Some(b)) => Ok(MetaModel { ground: Some((r, g, b)), ..m }),
                    _ => Err(LevelError::BadNumber),
                }
            }
        } else if key == "song".spec_bytes() {
            if parse_song {
                match spec_parse_unsigned(value, 255) {
                    Some(v) => Ok(MetaModel { song: Some(v), ..m }),
                    None => Err(LevelError::BadNumber),
                }
            } else {
                Ok(m)
            }
        } else {
            Ok(m)
        }
    }
}

/// Folds the metadata pairs from position `i` on, stopping at the first
/// rejection.
pub open spec fn spec_meta_from(m: MetaModel, pairs: Seq<Seq<u8>>, i: int, parse_song: bool) -> Result<MetaModel, LevelError>
    decreases pairs.len() - i,
{
    if i < 0 || i >= pairs.len() {
        Ok(m)
    } else {
        match spec_meta_pair(m, pairs[i], parse_song) {
            Err(e) => Err(e),
            Ok(m1) => spec_meta_from(m1, pairs, i + 1, parse_song),
        }
    }
}

/// What one object record means: three colon-separated fields are the
/// legacy `y:x:type_id` form with rotation zero, four or more are
/// `y:x:rotation:type_id` (extra fields are ignored); a color trigger
/// gets the editor's stock parameters, since the format does not carry
/// them.
pub open spec fn spec_record_to_object(rec: Seq<u8>) -> Result<ObjectModel, LevelError> {
    let fields = spec_split(rec, 58);
    if fields.len() >= 4 {
        match (spec_parse_signed(fields[0], -0x8000_0000, 0x7fff_ffff), spec_parse_signed(fields[1], -0x8000_0000, 0x7fff_ffff), spec_parse_signed(fields[2], -0x8000, 0x7fff), spec_parse_unsigned(fields[3], 0xffff_ffff)) {
            (Some(y), Some(x), Some(rot), Some(id)) => Ok(ObjectModel {
                y: y,
                x: x,
                rotation: rot,
                no_touch: false,
                hide: false,
                id: id,
                selected: false,
                properties: if id == 23 {
                    Some(TriggerProps { red: 50, green: 50, blue: 50, kind: 1 })
                } else {
                    None
                },
            }),
            _ => Err(LevelError::BadNumber),
        }
    } else if fields.len() == 3 {
        match (spec_parse_signed(fields[0], -0x8000_0000, 0x7fff_ffff), spec_parse_signed(fields[1], -0x8000_0000, 0x7fff_ffff), spec_parse_unsigned(fields[2], 0xffff_ffff)) {
            (Some(y), Some(x), Some(id)) => Ok(ObjectModel {
                y: y,
                x: x,
                rotation: 0,
                no_touch: false,
                hide: false,
                id: id,
                selected: false,
                properties: if id == 23 {
                    Some(TriggerProps { red: 50, green: 50, blue: 50, kind: 1 })
                } else {
                    None
                },
            }),
            _ => Err(LevelError::BadNumber),
        }
    } else {
        Err(LevelError::MalformedObject)
    }
}

/// Folds the object records from position `i` on, stopping at the first
/// rejection.
pub open spec fn spec_objects_from(acc: Seq<ObjectModel>, recs: Seq<Seq<u8>>, i: int) -> Result<Seq<ObjectModel>, LevelError>
    decreases recs.len() - i,
{
    if i < 0 || i >= recs.len() {
        Ok(acc)
    } else {
        match spec_record_to_object(recs[i]) {
            Err(e) => Err(e),
            Ok(o) => spec_objects_from(acc.push(o), recs, i + 1),
        }
    }
}

/// The metadata before any pair applied.
pub open spec fn spec_meta_init() -> MetaModel {
    MetaModel { background: None, ground: None, song: None }
}

/// Whether the song key is read, given the caller's song-selection
/// state.
pub open spec fn spec_song_wanted(song_selected: bool, load_song: bool, song_if_song_not_selected: bool) -> bool {
    if song_if_song_not_selected {
        !song_selected && load_song
    } else {
        load_song
    }
}

/// What deserializing a level text yields: the text splits at the first
/// three-semicolon run into metadata and objects, the metadata pairs
/// apply in order, and every record becomes one object.
pub open spec fn spec_parse_level(s: Seq<u8>, parse_song: bool) -> Result<LevelModel, LevelError> {
    let segs = spec_split_run(s, 59, 3);
    if segs.len() < 2 {
        Err(LevelError::MissingSections)
    } else {
        match spec_meta_from(spec_meta_init(), spec_split(segs[0], 59), 0, parse_song) {
            Err(e) => Err(e),
            Ok(meta) => match spec_objects_from(Seq::<ObjectModel>::empty(), spec_split(segs[1], 59), 0) {
                Err(e) => Err(e),
                Ok(objs) => Ok(LevelModel {
                    objects: objs,
                    background: meta.background,
                    ground: meta.ground,
                    song: meta.song,
                }),
            },
        }
    }
}

/// Applies one metadata pair on the machine state.
fn meta_pair_step(m: MetaOut, pair: &Vec<u8>, parse_song: bool) -> (r: Result<MetaOut, LevelError>)
    ensures
        match r {
            Ok(m1) => spec_meta_pair(m@, pair@, parse_song) == Ok::<MetaModel, LevelError>(m1@),
            Err(e) => spec_meta_pair(m@, pair@, parse_song) == Err::<MetaModel, LevelError>(e),
        },
{
    let kv = split_bytes(pair, 58);
    let ghost kvm = spec_split(pair@, 58);
    if kv.len() < 2 {
        return Err(LevelError::MalformedMetadata);
    }
    let key = &kv[0];
    let value = &kv[1];
    proof {
        assert(key@ =~= kvm[0]);
        assert(value@ =~= kvm[1]);
    }
    if bytes_is(key, "version") {
        if bytes_is(value, "BETA") {
            Ok(m)
        } else if bytes_is(value, "ALPHA") {
            Err(LevelError::OldVersion)
        } else {
            Err(LevelError::UnknownVersion)
        }
    } else if bytes_is(key, "c1001") {
        let cols = split_bytes(value, 44);
        let ghost colsm = spec_split(value@, 44);
        if cols.len() < 3 {
            return Err(LevelError::MalformedMetadata);
        }
        proof {
            assert(cols@[0]@ =~= colsm[0]);
            assert(cols@[1]@ =~= colsm[1]);
            assert(cols@[2]@ =~= colsm[2]);
        }
        let r = parse_unsigned_bytes(&cols[0], 255);
        let g = parse_unsigned_bytes(&cols[1], 255);
        let b = parse_unsigned_bytes(&cols[2], 255);
        match (r, g, b) {
            (Some(r), Some(g), Some(b)) => Ok(MetaOut {
                background: Some((r as u8, g as u8, b as u8)),
                ..m
            }),
            _ => Err(LevelError::BadNumber),
        }
    } else if bytes_is(key, "c1002") {
        let cols = split_bytes(value, 44);
        let ghost colsm = spec_split(value@, 44);
        if cols.len() < 3 {
            return Err(LevelError::MalformedMetadata);
        }
        proof {
            assert(cols@[0]@ =~= colsm[0]);
            assert(cols@[1]@ =~= colsm[1]);
            assert(cols@[2]@ =~= colsm[2]);
        }
        let r = parse_signed_bytes(&cols[0], -0x8000_0000, 0x7fff_ffff);
        let g = parse_signed_bytes(&cols[1], -0x8000_0000, 0x7fff_ffff);
        let b = parse_signed_bytes(&cols[2], -0x8000_0000, 0x7fff_ffff);
        match (r, g, b) {
            (Some(r), Some(g), Some(b)) => Ok(MetaOut {
                ground: Some((r as i32, g as i32, b as i32)),
                ..m
            }),
            _ => Err(LevelError::BadNumber),
        }
    } else if bytes_is(key, "song") {
        if parse_song {
            match parse_unsigned_bytes(value, 255) {
                Some(v) => Ok(MetaOut { song: Some(v as u8), ..m }),
                None => Err(LevelError::BadNumber),
            }
        } else {
            Ok(m)
        }
    } else {
        Ok(m)
    }
}

/// Reads one object record on the machine state.
fn record_step(rec: &Vec<u8>) -> (r: Result<ObjectStruct, LevelError>)
    ensures
        match r {
            Ok(o) => spec_record_to_object(rec@) == Ok::<ObjectModel, LevelError>(o@),
            Err(e) => spec_record_to_object(rec@) == Err::<ObjectModel, LevelError>(e),
        },
{
    let fields = split_bytes(rec, 58);
    let ghost fm = spec_split(rec@, 58);
    if fields.len() >= 4 {
        proof {
            assert(fields@[0]@ =~= fm[0]);
            assert(fields@[1]@ =~= fm[1]);
            assert(fields@[2]@ =~= fm[2]);
            assert(fields@[3]@ =~= fm[3]);
        }
        let y = parse_signed_bytes(&fields[0], -0x8000_0000, 0x7fff_ffff);
        let x = parse_signed_bytes(&fields[1], -0x8000_0000, 0x7fff_ffff);
        let rot = parse_signed_bytes(&fields[2], -0x8000, 0x7fff);
        let id = parse_unsigned_bytes(&fields[3], 0xffff_ffff);
        match (y, x, rot, id) {
            (Some(y), Some(x), Some(rot), Some(id)) => Ok(ObjectStruct {
                y: y as i32,
                x: x as i32,
                rotation: rot as i16,
                no_touch: false,
                hide: false,
                id: id as u32,
                selected: false,
                properties: if id == 23 {
                    Some(TriggerProps { red: 50, green: 50, blue: 50, kind: 1 })
                } else {
                    None
                },
            }),
            _ => Err(LevelError::BadNumber),
        }
    } else if fields.len() == 3 {
        proof {
            assert(fields@[0]@ =~= fm[0]);
            assert(fields@[1]@ =~= fm[1]);
            assert(fields@[2]@ =~= fm[2]);
        }
        let y = parse_signed_bytes(&fields[0], -0x8000_0000, 0x7fff_ffff);
        let x = parse_signed_bytes(&fields[1], -0x8000_0000, 0x7fff_ffff);
        let id = parse_unsigned_bytes(&fields[2], 0xffff_ffff);
        match (y, x, id) {
            (Some(y), Some(x), Some(id)) => Ok(ObjectStruct {
                y: y as i32,
                x: x as i32,
                rotation: 0,
                no_touch: false,
                hide: false,
                id: id as u32,
                selected: false,
                properties: if id == 23 {
                    Some(TriggerProps { red: 50, green: 50, blue: 50, kind: 1 })
                } else {
                    None
                },
            }),
            _ => Err(LevelError::BadNumber),
        }
    } else {
        Err(LevelError::MalformedObject)
    }
}

/// Deserializes a level text: the metadata section sets the colors and,
/// depending on the song-selection state, the song; the object section
/// becomes the object store. The first rejected pair, record or number
/// reports an error instead, and nothing is partially applied.
pub fn load_level(level_string: &Vec<u8>, song_selected: bool, load_song: bool, song_if_song_not_selected: bool) -> (r: Result<ParsedLevel, LevelError>)
    ensures
        ({
            let parse_song = spec_song_wanted(song_selected, load_song, song_if_song_not_selected);
            match r {
                Ok(pl) => spec_parse_level(level_string@, parse_song) == Ok::<LevelModel, LevelError>(pl@),
                Err(e) => spec_parse_level(level_string@, parse_song) == Err::<LevelModel, LevelError>(e),
            }
        }),
{
    let parse_song = if song_if_song_not_selected {
        !song_selected && load_song
    } else {
        load_song
    };
    let segs = split_run_bytes(level_string, 59, 3);
    if segs.len() < 2 {
        return Err(LevelError::MissingSections);
    }
    let ghost segsm = spec_split_run(level_string@, 59, 3);
    proof {
        assert(segs@[0]@ =~= segsm[0]);
        assert(segs@[1]@ =~= segsm[1]);
    }
    let pairs = split_bytes(&segs[0], 59);
    let ghost pairsm = spec_split(segsm[0], 59);
    let mut m = MetaOut { background: None, ground: None, song: None };
    let mut i: usize = 0;
    while i < pairs.len()
        invariant
            0 <= i <= pairs@.len(),
            pairsm == pairs.deep_view(),
            segsm == spec_split_run(level_string@, 59, 3),
            segsm.len() >= 2,
            pairsm == spec_split(segsm[0], 59),
            parse_song == spec_song_wanted(song_selected, load_song, song_if_song_not_selected),
            spec_meta_from(spec_meta_init(), pairsm, 0, parse_song)
                == spec_meta_from(m@, pairsm, i as int, parse_song),
        decreases pairs@.len() - i,
    {
        proof {
            assert(pairs@[i as int]@ =~= pairsm[i as int]);
        }
        match meta_pair_step(m, &pairs[i], parse_song) {
            Ok(m1) => {
                m = m1;
            },
            Err(e) => {
                proof {
                    assert(spec_meta_pair(m@, pairsm[i as int], parse_song)
                        == Err::<MetaModel, LevelError>(e));
                    assert(spec_meta_from(m@, pairsm, i as int, parse_song)
                        == Err::<MetaModel, LevelError>(e));
                    assert(spec_meta_from(spec_meta_init(), pairsm, 0, parse_song)
                        == Err::<MetaModel, LevelError>(e));
                    assert(spec_parse_level(level_string@, parse_song)
                        == Err::<LevelModel, LevelError>(e));
                }
                return Err(e);
            },
        }
        i += 1;
    }
    let meta = m;
    let records = split_bytes(&segs[1], 59);
    let ghost recsm = spec_split(segsm[1], 59);
    let mut objects: Vec<ObjectStruct> = Vec::new();
    let mut j: usize = 0;
    proof {
        assert(objects.deep_view() =~= Seq::<ObjectModel>::empty());
    }
    while j < records.len()
        invariant
            0 <= j <= records@.len(),
            recsm == records.deep_view(),
            segsm == spec_split_run(level_string@, 59, 3),
            segsm.len() >= 2,
            recsm == spec_split(segsm[1], 59),
            parse_song == spec_song_wanted(song_selected, load_song, song_if_song_not_selected),
            spec_meta_from(spec_meta_init(), spec_split(segsm[0], 59), 0, parse_song)
                == Ok::<MetaModel, LevelError>(meta@),
            spec_objects_from(Seq::<ObjectModel>::empty(), recsm, 0)
                == spec_objects_from(objects.deep_view(), recsm, j as int),
        decreases records@.len() - j,
    {
        let ghost objs0 = objects.deep_view();
        proof {
            assert(records@[j as int]@ =~= recsm[j as int]);
        }
        match record_step(&records[j]) {
            Ok(o) => {
                objects.push(o);
                proof {
                    assert(objects.deep_view() =~~= objs0.push(o@));
                }
            },
            Err(e) => {
                proof {
                    assert(spec_record_to_object(recsm[j as int])
                        == Err::<ObjectModel, LevelError>(e));
                    assert(spec_objects_from(objects.deep_view(), recsm, j as int)
                        == Err::<Seq<ObjectModel>, LevelError>(e));
                    assert(spec_objects_from(Seq::<ObjectModel>::empty(), recsm, 0)
                        == Err::<Seq<ObjectModel>, LevelError>(e));
                    assert(spec_parse_level(level_string@, parse_song)
                        == Err::<LevelModel, LevelError>(e));
                }
                return Err(e);
            },
        }
        j += 1;
    }
    Ok(ParsedLevel {
        objects: objects,
        background: meta.background,
        ground: meta.ground,
        song: meta.song,
    })
}

/// A downloaded online level: its listing fields and its level text.
#[derive(Debug)]
pub struct OnlineLevel {
    pub name: Vec<u8>,
    pub desc: Vec<u8>,
    pub diff: u8,
    pub rated: bool,
    pub creator: Vec<u8>,
    pub data: Vec<u8>,
}

/// Mathematical view of `OnlineLevel`.
pub struct OnlineModel {
    pub name: Seq<u8>,
    pub desc: Seq<u8>,
    pub diff: int,
    pub rated: bool,
    pub creator: Seq<u8>,
    pub data: Seq<u8>,
}

impl View for OnlineLevel {
    type V = OnlineModel;

    open spec fn view(&self) -> OnlineModel {
        OnlineModel {
            name: self.name@,
            desc: self.desc@,
            diff: self.diff as int,
            rated: self.rated,
            creator: self.creator@,
            data: self.data@,
        }
    }
}

/// What a level download response means: a five-semicolon run separates
/// the listing from the level data; the listing holds name, description,
/// difficulty, a rated flag that is zero for unrated, and the creator.
pub open spec fn spec_parse_download(s: Seq<u8>) -> Result<OnlineModel, LevelError> {
    let parts = spec_split_run(s, 59, 5);
    if parts.len() < 2 {
        Err(LevelError::MalformedResponse)
    } else {
        let nd = spec_split(parts[0], 59);
        if nd.len() < 5 {
            Err(LevelError::MalformedResponse)
        } else {
            match spec_parse_unsigned(nd[2], 255) {
                None => Err(LevelError::BadNumber),
                Some(d) => Ok(OnlineModel {
                    name: nd[0],
                    desc: nd[1],
                    diff: d,
                    rated: nd[3] != "0".spec_bytes(),
                    creator: nd[4],
                    data: parts[1],
                }),
            }
        }
    }
}

/// Reads a level download response into its fields, rejecting a response
/// that misses a section, a listing field, or a readable difficulty.
pub fn parse_level_download_response(level_download_result: &Vec<u8>) -> (r: Result<OnlineLevel, LevelError>)
    ensures
        match r {
            Ok(ol) => spec_parse_download(level_download_result@) == Ok::<OnlineModel, LevelError>(ol@),
            Err(e) => spec_parse_download(level_download_result@) == Err::<OnlineModel, LevelError>(e),
        },
{
    let mut parts = split_run_bytes(level_download_result, 59, 5);
    let ghost partsm = spec_split_run(level_download_result@, 59, 5);
    if parts.len() < 2 {
        return Err(LevelError::MalformedResponse);
    }
    let listing = parts.remove(0);
    let data = parts.remove(0);
    proof {
        assert(listing@ =~= partsm[0]);
        assert(data@ =~= partsm[1]);
    }
    let mut nd = split_bytes(&listing, 59);
    let ghost ndm = spec_split(partsm[0], 59);
    if nd.len() < 5 {
        return Err(LevelError::MalformedResponse);
    }
    let name = nd.remove(0);
    let desc = nd.remove(0);
    let diff_text = nd.remove(0);
    let rated_text = nd.remove(0);
    let creator = nd.remove(0);
    proof {
        assert(name@ =~= ndm[0]);
        assert(desc@ =~= ndm[1]);
        assert(diff_text@ =~= ndm[2]);
        assert(rated_text@ =~= ndm[3]);
        assert(creator@ =~= ndm[4]);
    }
    match parse_unsigned_bytes(&diff_text, 255) {
        None => Err(LevelError::BadNumber),
        Some(d) => {
            let rated = !bytes_is(&rated_text, "0");
            Ok(OnlineLevel {
                name: name,
                desc: desc,
                diff: d as u8,
                rated: rated,
                creator: creator,
                data: data,
            })
        },
    }
}

} // verus!
