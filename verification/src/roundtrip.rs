//! The codec round-trip law: encoding a command whose optional fields are
//! all present and decoding the result reproduces every field value.
//!
//! The decoder is a tolerant leftmost-marker scan, so the law rests on the
//! encoding containing each `"key":` marker exactly once in scanning
//! order; the helper lemmas here locate every quote of an encoding and
//! rule out earlier marker matches.

use vstd::prelude::*;

use crate::codec::{
    spec_decode, spec_extract_bool, spec_extract_number, spec_extract_string, spec_marker,
    CommandView,
};
use crate::encode::{char_of_digit, spec_bool_text, spec_dec, spec_encode};
use crate::text::{
    first_match_at, is_digit, is_ws, lemma_digit_run, lemma_find_at_first_match, match_at,
    spec_digit_run, spec_digits_val, spec_first_digit, spec_skip_ws, spec_starts_with,
};

verus! {

/// Decimal digit text is never empty and holds digits only.
pub proof fn lemma_dec_digits(n: nat)
    ensures
        spec_dec(n).len() >= 1,
        forall|i: int| 0 <= i < spec_dec(n).len() ==> is_digit(#[trigger] spec_dec(n)[i]),
    decreases n,
{
    if n < 10 {
    } else {
        lemma_dec_digits(n / 10);
        let s = spec_dec(n);
        assert forall|i: int| 0 <= i < s.len() implies is_digit(#[trigger] s[i]) by {
            if i < spec_dec(n / 10).len() {
                assert(s[i] == spec_dec(n / 10)[i]);
            }
        }
    }
}

/// Reading decimal digit text back as a number recovers the number.
pub proof fn lemma_dec_val(n: nat)
    ensures
        spec_digits_val(spec_dec(n)) == n,
    decreases n,
{
    if n < 10 {
        let s = spec_dec(n);
        assert(s.drop_last() =~= Seq::<char>::empty());
    } else {
        lemma_dec_val(n / 10);
        let s = spec_dec(n);
        assert(s.drop_last() =~= spec_dec(n / 10));
        assert(s.last() == char_of_digit(n % 10));
        assert(n / 10 * 10 + n % 10 == n) by (nonlinear_arith);
    }
}

/// A digit run is pinned down by its leading digits and the first
/// non-digit after them.
pub proof fn lemma_digit_run_exact(s: Seq<char>, rl: int)
    requires
        0 <= rl <= s.len(),
        forall|j: int| 0 <= j < rl ==> is_digit(#[trigger] s[j]),
        rl < s.len() ==> !is_digit(s[rl]),
    ensures
        spec_digit_run(s) == rl,
{
    lemma_digit_run(s);
    let r = spec_digit_run(s);
    if r < rl {
        assert(is_digit(s[r]));
    }
    if rl < r {
        assert(is_digit(s[rl]));
    }
}

/// A marker whose leftmost occurrence is followed by a quote, quote-free
/// text, and a closing quote extracts exactly that text.
pub proof fn lemma_extract_string_value(e: Seq<char>, key: Seq<char>, site: int, v: Seq<char>)
    requires
        first_match_at(e, spec_marker(key), site),
        site + spec_marker(key).len() + 1 + v.len() + 1 <= e.len(),
        e[site + spec_marker(key).len()] == '"',
        forall|i: int|
            0 <= i < v.len() ==> e[site + spec_marker(key).len() + 1 + i] == v[i] && v[i] != '"',
        e[site + spec_marker(key).len() + 1 + v.len()] == '"',
    ensures
        spec_extract_string(e, key) == Some(v),
{
    reveal_strlit("\"");
    let m = spec_marker(key);
    lemma_find_at_first_match(e, m, site);
    let p = site + m.len();
    let rest = e.subrange(p, e.len() as int);
    assert(rest[0] == '"');
    assert(rest.subrange(0, 1) =~= ("\"")@);
    assert(first_match_at(rest, ("\"")@, 0));
    lemma_find_at_first_match(rest, ("\"")@, 0);
    let after = rest.subrange(1, rest.len() as int);
    assert(forall|i: int| 0 <= i < after.len() ==> after[i] == e[p + 1 + i]);
    assert(after[v.len() as int] == '"');
    assert(after.subrange(v.len() as int, v.len() as int + 1) =~= ("\"")@);
    assert(match_at(after, ("\"")@, v.len() as int));
    assert forall|j: int| 0 <= j < v.len() implies !match_at(after, ("\"")@, j) by {
        if match_at(after, ("\"")@, j) {
            assert(after.subrange(j, j + 1)[0] == '"');
            assert(after[j] == '"');
            assert(after[j] == v[j]);
        }
    }
    assert(first_match_at(after, ("\"")@, v.len() as int));
    lemma_find_at_first_match(after, ("\"")@, v.len() as int);
    assert(after.subrange(0, v.len() as int) =~= v);
}

/// A marker whose leftmost occurrence is followed directly by the decimal
/// digits of `n` and a non-digit extracts exactly `n`.
pub proof fn lemma_extract_number_value(e: Seq<char>, key: Seq<char>, site: int, n: nat)
    requires
        first_match_at(e, spec_marker(key), site),
        n <= u32::MAX,
        site + spec_marker(key).len() + spec_dec(n).len() < e.len(),
        forall|i: int|
            0 <= i < spec_dec(n).len() ==> e[site + spec_marker(key).len() + i] == spec_dec(n)[i],
        !is_digit(e[site + spec_marker(key).len() + spec_dec(n).len()]),
    ensures
        spec_extract_number(e, key) == Some(n as u32),
{
    let m = spec_marker(key);
    lemma_find_at_first_match(e, m, site);
    let p = site + m.len();
    let rest = e.subrange(p, e.len() as int);
    lemma_dec_digits(n);
    assert(rest[0] == spec_dec(n)[0]);
    assert(is_digit(rest[0]));
    assert(spec_first_digit(rest) == Some(0int));
    let dl = spec_dec(n).len() as int;
    let tail = rest.subrange(0, rest.len() as int);
    assert(tail =~= rest);
    assert(forall|j: int| 0 <= j < dl ==> rest[j] == spec_dec(n)[j]);
    assert(!is_digit(rest[dl]));
    lemma_digit_run_exact(rest, dl);
    assert(rest.subrange(0, dl) =~= spec_dec(n));
    lemma_dec_val(n);
}

/// A marker whose leftmost occurrence is followed directly by the literal
/// text of `b` extracts exactly `b`.
pub proof fn lemma_extract_bool_value(e: Seq<char>, key: Seq<char>, site: int, b: bool)
    requires
        first_match_at(e, spec_marker(key), site),
        site + spec_marker(key).len() + spec_bool_text(b).len() <= e.len(),
        forall|i: int|
            0 <= i < spec_bool_text(b).len() ==> e[site + spec_marker(key).len() + i]
                == spec_bool_text(b)[i],
    ensures
        spec_extract_bool(e, key) == Some(b),
{
    reveal_strlit("true");
    reveal_strlit("false");
    let m = spec_marker(key);
    lemma_find_at_first_match(e, m, site);
    let p = site + m.len();
    let rest = e.subrange(p, e.len() as int);
    assert(rest[0] == spec_bool_text(b)[0]);
    assert(!is_ws(rest[0]));
    assert(spec_skip_ws(rest) == 0);
    let t = rest.subrange(0, rest.len() as int);
    assert(t =~= rest);
    if b {
        assert(rest.subrange(0, 4) =~= ("true")@);
        assert(spec_starts_with(rest, ("true")@));
    } else {
        assert(rest.subrange(0, 5) =~= ("false")@);
        assert(spec_starts_with(rest, ("false")@));
        if spec_starts_with(rest, ("true")@) {
            assert(rest.subrange(0, 4)[0] == 't');
            assert(rest[0] == 't');
        }
    }
}

/// Text that contains no double quote.
pub open spec fn quote_free(s: Seq<char>) -> bool {
    forall|i: int| 0 <= i < s.len() ==> s[i] != '"'
}

/// The command view with every optional field present.
pub open spec fn full_view(
    from: Seq<char>,
    to: Seq<char>,
    command: Seq<char>,
    led_id: u8,
    duration: u64,
    emergency: bool,
    security: Seq<char>,
) -> CommandView {
    CommandView {
        from,
        to,
        command,
        led_id: Some(led_id),
        duration: Some(duration),
        emergency: Some(emergency),
        security: Some(security),
    }
}

/// Start of the `","to":"` segment.
pub open spec fn off1(from: Seq<char>) -> int {
    9 + from.len() as int
}

/// Start of the `","command":"` segment.
pub open spec fn off2(from: Seq<char>, to: Seq<char>) -> int {
    off1(from) + 8 + to.len() as int
}

/// Position of the quote closing the command value.
pub open spec fn off3(from: Seq<char>, to: Seq<char>, command: Seq<char>) -> int {
    off2(from, to) + 13 + command.len() as int
}

/// Start of the `,"led_id":` segment.
pub open spec fn off4(from: Seq<char>, to: Seq<char>, command: Seq<char>) -> int {
    off3(from, to, command) + 1
}

/// Start of the `,"duration":` segment.
pub open spec fn off5(from: Seq<char>, to: Seq<char>, command: Seq<char>, led_id: u8) -> int {
    off4(from, to, command) + 10 + spec_dec(led_id as nat).len() as int
}

/// Start of the `,"emergency":` segment.
pub open spec fn off6(
    from: Seq<char>,
    to: Seq<char>,
    command: Seq<char>,
    led_id: u8,
    duration: u64,
) -> int {
    off5(from, to, command, led_id) + 12 + spec_dec(duration as nat).len() as int
}

/// Start of the `,"security":"` segment.
pub open spec fn off7(
    from: Seq<char>,
    to: Seq<char>,
    command: Seq<char>,
    led_id: u8,
    duration: u64,
    emergency: bool,
) -> int {
    off6(from, to, command, led_id, duration) + 13 + spec_bool_text(emergency).len() as int
}

/// Position of the quote closing the security value.
pub open spec fn off8(
    from: Seq<char>,
    to: Seq<char>,
    command: Seq<char>,
    led_id: u8,
    duration: u64,
    emergency: bool,
    security: Seq<char>,
) -> int {
    off7(from, to, command, led_id, duration, emergency) + 13 + security.len() as int
}

/// Character-level layout of a full encoding: every literal character at
/// its place, every value character at its place.
pub open spec fn enc_layout(
    from: Seq<char>,
    to: Seq<char>,
    command: Seq<char>,
    led_id: u8,
    duration: u64,
    emergency: bool,
    security: Seq<char>,
    e: Seq<char>,
) -> bool {
    let o1 = off1(from);
    let o2 = off2(from, to);
    let o3 = off3(from, to, command);
    let o4 = off4(from, to, command);
    let o5 = off5(from, to, command, led_id);
    let o6 = off6(from, to, command, led_id, duration);
    let o7 = off7(from, to, command, led_id, duration, emergency);
    let o8 = off8(from, to, command, led_id, duration, emergency, security);
    &&& e.len() == o8 + 2
    &&& e[0] == '{'
    &&& e[1] == '"'
    &&& e[2] == 'f'
    &&& e[3] == 'r'
    &&& e[4] == 'o'
    &&& e[5] == 'm'
    &&& e[6] == '"'
    &&& e[7] == ':'
    &&& e[8] == '"'
    &&& (forall|i: int| 9 <= i < o1 ==> #[trigger] e[i] == from[i - 9])
    &&& e[o1] == '"'
    &&& e[o1 + 1] == ','
    &&& e[o1 + 2] == '"'
    &&& e[o1 + 3] == 't'
    &&& e[o1 + 4] == 'o'
    &&& e[o1 + 5] == '"'
    &&& e[o1 + 6] == ':'
    &&& e[o1 + 7] == '"'
    &&& (forall|i: int| o1 + 8 <= i < o2 ==> #[trigger] e[i] == to[i - (o1 + 8)])
    &&& e[o2] == '"'
    &&& e[o2 + 1] == ','
    &&& e[o2 + 2] == '"'
    &&& e[o2 + 3] == 'c'
    &&& e[o2 + 4] == 'o'
    &&& e[o2 + 5] == 'm'
    &&& e[o2 + 6] == 'm'
    &&& e[o2 + 7] == 'a'
    &&& e[o2 + 8] == 'n'
    &&& e[o2 + 9] == 'd'
    &&& e[o2 + 10] == '"'
    &&& e[o2 + 11] == ':'
    &&& e[o2 + 12] == '"'
    &&& (forall|i: int| o2 + 13 <= i < o3 ==> #[trigger] e[i] == command[i - (o2 + 13)])
    &&& e[o3] == '"'
    &&& e[o4] == ','
    &&& e[o4 + 1] == '"'
    &&& e[o4 + 2] == 'l'
    &&& e[o4 + 3] == 'e'
    &&& e[o4 + 4] == 'd'
    &&& e[o4 + 5] == '_'
    &&& e[o4 + 6] == 'i'
    &&& e[o4 + 7] == 'd'
    &&& e[o4 + 8] == '"'
    &&& e[o4 + 9] == ':'
    &&& (forall|i: int|
        o4 + 10 <= i < o5 ==> #[trigger] e[i] == spec_dec(led_id as nat)[i - (o4 + 10)])
    &&& e[o5] == ','
    &&& e[o5 + 1] == '"'
    &&& e[o5 + 2] == 'd'
    &&& e[o5 + 3] == 'u'
    &&& e[o5 + 4] == 'r'
    &&& e[o5 + 5] == 'a'
    &&& e[o5 + 6] == 't'
    &&& e[o5 + 7] == 'i'
    &&& e[o5 + 8] == 'o'
    &&& e[o5 + 9] == 'n'
    &&& e[o5 + 10] == '"'
    &&& e[o5 + 11] == ':'
    &&& (forall|i: int|
        o5 + 12 <= i < o6 ==> #[trigger] e[i] == spec_dec(duration as nat)[i - (o5 + 12)])
    &&& e[o6] == ','
    &&& e[o6 + 1] == '"'
    &&& e[o6 + 2] == 'e'
    &&& e[o6 + 3] == 'm'
    &&& e[o6 + 4] == 'e'
    &&& e[o6 + 5] == 'r'
    &&& e[o6 + 6] == 'g'
    &&& e[o6 + 7] == 'e'
    &&& e[o6 + 8] == 'n'
    &&& e[o6 + 9] == 'c'
    &&& e[o6 + 10] == 'y'
    &&& e[o6 + 11] == '"'
    &&& e[o6 + 12] == ':'
    &&& (forall|i: int|
        o6 + 13 <= i < o7 ==> #[trigger] e[i] == spec_bool_text(emergency)[i - (o6 + 13)])
    &&& e[o7] == ','
    &&& e[o7 + 1] == '"'
    &&& e[o7 + 2] == 's'
    &&& e[o7 + 3] == 'e'
    &&& e[o7 + 4] == 'c'
    &&& e[o7 + 5] == 'u'
    &&& e[o7 + 6] == 'r'
    &&& e[o7 + 7] == 'i'
    &&& e[o7 + 8] == 't'
    &&& e[o7 + 9] == 'y'
    &&& e[o7 + 10] == '"'
    &&& e[o7 + 11] == ':'
    &&& e[o7 + 12] == '"'
    &&& (forall|i: int| o7 + 13 <= i < o8 ==> #[trigger] e[i] == security[i - (o7 + 13)])
    &&& e[o8] == '"'
    &&& e[o8 + 1] == '}'
}

/// The encoding of a full command has exactly the layout above.
pub proof fn lemma_enc_layout(
    from: Seq<char>,
    to: Seq<char>,
    command: Seq<char>,
    led_id: u8,
    duration: u64,
    emergency: bool,
    security: Seq<char>,
)
    ensures
        enc_layout(
            from,
            to,
            command,
            led_id,
            duration,
            emergency,
            security,
            spec_encode(full_view(from, to, command, led_id, duration, emergency, security)),
        ),
{
    reveal_strlit("{\"from\":\"");
    reveal_strlit("\",\"to\":\"");
    reveal_strlit("\",\"command\":\"");
    reveal_strlit("\"");
    reveal_strlit(",\"led_id\":");
    reveal_strlit(",\"duration\":");
    reveal_strlit(",\"emergency\":");
    reveal_strlit(",\"security\":\"");
    reveal_strlit("}");
    reveal_strlit("true");
    reveal_strlit("false");
    let e = spec_encode(full_view(from, to, command, led_id, duration, emergency, security));
    assert(("{\"from\":\"")@.len() == 9);
    assert(("\",\"to\":\"")@.len() == 8);
    assert(("\",\"command\":\"")@.len() == 13);
    assert(("\"")@.len() == 1);
    assert((",\"led_id\":")@.len() == 10);
    assert((",\"duration\":")@.len() == 12);
    assert((",\"emergency\":")@.len() == 13);
    assert((",\"security\":\"")@.len() == 13);
    assert(("}")@.len() == 1);
}

/// The places a quote can stand in a full encoding: a key's opening or
/// closing quote, or a value's opening or closing quote.
pub open spec fn is_quote_site(
    from: Seq<char>,
    to: Seq<char>,
    command: Seq<char>,
    led_id: u8,
    duration: u64,
    emergency: bool,
    security: Seq<char>,
    i: int,
) -> bool {
    let o1 = off1(from);
    let o2 = off2(from, to);
    let o3 = off3(from, to, command);
    let o4 = off4(from, to, command);
    let o5 = off5(from, to, command, led_id);
    let o6 = off6(from, to, command, led_id, duration);
    let o7 = off7(from, to, command, led_id, duration, emergency);
    let o8 = off8(from, to, command, led_id, duration, emergency, security);
    ||| i == 1
    ||| i == 6
    ||| i == 8
    ||| i == o1
    ||| i == o1 + 2
    ||| i == o1 + 5
    ||| i == o1 + 7
    ||| i == o2
    ||| i == o2 + 2
    ||| i == o2 + 10
    ||| i == o2 + 12
    ||| i == o3
    ||| i == o4 + 1
    ||| i == o4 + 8
    ||| i == o5 + 1
    ||| i == o5 + 10
    ||| i == o6 + 1
    ||| i == o6 + 11
    ||| i == o7 + 1
    ||| i == o7 + 10
    ||| i == o7 + 12
    ||| i == o8
}

/// In a full encoding of quote-free values, every quote stands at one of
/// the listed sites.
pub proof fn lemma_enc_quotes(
    from: Seq<char>,
    to: Seq<char>,
    command: Seq<char>,
    led_id: u8,
    duration: u64,
    emergency: bool,
    security: Seq<char>,
    e: Seq<char>,
)
    requires
        enc_layout(from, to, command, led_id, duration, emergency, security, e),
        quote_free(from),
        quote_free(to),
        quote_free(command),
        quote_free(security),
    ensures
        forall|i: int|
            0 <= i < e.len() && e[i] == '"' ==> is_quote_site(
                from,
                to,
                command,
                led_id,
                duration,
                emergency,
                security,
                i,
            ),
{
    reveal_strlit("true");
    reveal_strlit("false");
    lemma_dec_digits(led_id as nat);
    lemma_dec_digits(duration as nat);
    let o1 = off1(from);
    let o2 = off2(from, to);
    let o3 = off3(from, to, command);
    let o4 = off4(from, to, command);
    let o5 = off5(from, to, command, led_id);
    let o6 = off6(from, to, command, led_id, duration);
    let o7 = off7(from, to, command, led_id, duration, emergency);
    let o8 = off8(from, to, command, led_id, duration, emergency, security);
    assert forall|i: int| 0 <= i < e.len() && e[i] == '"' implies is_quote_site(
        from,
        to,
        command,
        led_id,
        duration,
        emergency,
        security,
        i,
    ) by {
        if 9 <= i < o1 {
            assert(e[i] == from[i - 9]);
        } else if o1 + 8 <= i < o2 {
            assert(e[i] == to[i - (o1 + 8)]);
        } else if o2 + 13 <= i < o3 {
            assert(e[i] == command[i - (o2 + 13)]);
        } else if o4 + 10 <= i < o5 {
            assert(e[i] == spec_dec(led_id as nat)[i - (o4 + 10)]);
            assert(is_digit(e[i]));
        } else if o5 + 12 <= i < o6 {
            assert(e[i] == spec_dec(duration as nat)[i - (o5 + 12)]);
            assert(is_digit(e[i]));
        } else if o6 + 13 <= i < o7 {
            assert(e[i] == spec_bool_text(emergency)[i - (o6 + 13)]);
        } else if o7 + 13 <= i < o8 {
            assert(e[i] == security[i - (o7 + 13)]);
        }
    }
}

/// No marker can match at a value-opening quote: the marker's closing
/// quote would land inside the quote-free value, on the value's closing
/// quote with no colon after it, or on a key character.
pub proof fn lemma_no_marker_at_value_open(e: Seq<char>, key: Seq<char>, q: int, vlen: int)
    requires
        key.len() >= 1,
        forall|i: int| 0 <= i < key.len() ==> key[i] != '"',
        0 <= q,
        0 <= vlen,
        q + vlen + 2 < e.len(),
        forall|i: int| q + 1 <= i < q + 1 + vlen ==> e[i] != '"',
        e[q + vlen + 1] == '"',
        e[q + vlen + 2] != ':',
    ensures
        !match_at(e, spec_marker(key), q),
{
    reveal_strlit("\"");
    reveal_strlit("\":");
    let m = spec_marker(key);
    let k = key.len() as int;
    assert(m.len() == k + 3);
    if match_at(e, m, q) {
        let sub = e.subrange(q, q + m.len() as int);
        assert(sub == m);
        if vlen + 1 <= k {
            assert(e[q + vlen + 1] == sub[vlen + 1]);
            assert(m[vlen + 1] == key[vlen]);
        } else if vlen + 1 == k + 1 {
            assert(e[q + k + 2] == sub[k + 2]);
            assert(m[k + 2] == ':');
        } else {
            assert(e[q + k + 1] == sub[k + 1]);
            assert(m[k + 1] == '"');
        }
    }
}

/// The `"from":` marker first matches at its key site.
pub proof fn lemma_site_from(
    from: Seq<char>,
    to: Seq<char>,
    command: Seq<char>,
    led_id: u8,
    duration: u64,
    emergency: bool,
    security: Seq<char>,
    e: Seq<char>,
)
    requires
        enc_layout(from, to, command, led_id, duration, emergency, security, e),
        quote_free(from),
        quote_free(to),
        quote_free(command),
        quote_free(security),
    ensures
        first_match_at(e, spec_marker(("from")@), 1),
{
    reveal_strlit("\"");
    reveal_strlit("\":");
    reveal_strlit("from");
    let m = spec_marker(("from")@);
    assert(m.len() == 7);
    assert(e.subrange(1, 8) =~= m);
    assert forall|j: int| 0 <= j < 1 implies !match_at(e, m, j) by {
        if match_at(e, m, j) {
            assert(e.subrange(j, j + m.len() as int)[0] == e[j]);
        }
    }
}

/// The `"to":` marker first matches at its key site.
pub proof fn lemma_site_to(
    from: Seq<char>,
    to: Seq<char>,
    command: Seq<char>,
    led_id: u8,
    duration: u64,
    emergency: bool,
    security: Seq<char>,
    e: Seq<char>,
)
    requires
        enc_layout(from, to, command, led_id, duration, emergency, security, e),
        quote_free(from),
        quote_free(to),
        quote_free(command),
        quote_free(security),
    ensures
        first_match_at(e, spec_marker(("to")@), off1(from) + 2),
{
    reveal_strlit("\"");
    reveal_strlit("\":");
    reveal_strlit("to");
    lemma_enc_quotes(from, to, command, led_id, duration, emergency, security, e);
    let o1 = off1(from);
    let m = spec_marker(("to")@);
    assert(m.len() == 5);
    assert(e.subrange(o1 + 2, o1 + 7) =~= m);
    assert forall|j: int| 0 <= j < o1 + 2 implies !match_at(e, m, j) by {
        if match_at(e, m, j) {
            assert(e.subrange(j, j + m.len() as int)[0] == e[j]);
            assert(e[j] == '"');
            assert(e.subrange(j, j + m.len() as int)[1] == e[j + 1]);
            if j == 8 {
                lemma_no_marker_at_value_open(e, ("to")@, 8, from.len() as int);
            }
        }
    }
}

/// The `"command":` marker first matches at its key site.
pub proof fn lemma_site_command(
    from: Seq<char>,
    to: Seq<char>,
    command: Seq<char>,
    led_id: u8,
    duration: u64,
    emergency: bool,
    security: Seq<char>,
    e: Seq<char>,
)
    requires
        enc_layout(from, to, command, led_id, duration, emergency, security, e),
        quote_free(from),
        quote_free(to),
        quote_free(command),
        quote_free(security),
    ensures
        first_match_at(e, spec_marker(("command")@), off2(from, to) + 2),
{
    reveal_strlit("\"");
    reveal_strlit("\":");
    reveal_strlit("command");
    lemma_enc_quotes(from, to, command, led_id, duration, emergency, security, e);
    let o1 = off1(from);
    let o2 = off2(from, to);
    let m = spec_marker(("command")@);
    assert(m.len() == 10);
    assert(e.subrange(o2 + 2, o2 + 12) =~= m);
    assert forall|j: int| 0 <= j < o2 + 2 implies !match_at(e, m, j) by {
        if match_at(e, m, j) {
            assert(e.subrange(j, j + m.len() as int)[0] == e[j]);
            assert(e[j] == '"');
            assert(e.subrange(j, j + m.len() as int)[1] == e[j + 1]);
            if j == 8 {
                lemma_no_marker_at_value_open(e, ("command")@, 8, from.len() as int);
            }
            if j == o1 + 7 {
                lemma_no_marker_at_value_open(e, ("command")@, o1 + 7, to.len() as int);
            }
        }
    }
}

/// The `"led_id":` marker first matches at its key site.
#[verifier::rlimit(100)]
pub proof fn lemma_site_led_id(
    from: Seq<char>,
    to: Seq<char>,
    command: Seq<char>,
    led_id: u8,
    duration: u64,
    emergency: bool,
    security: Seq<char>,
    e: Seq<char>,
)
    requires
        enc_layout(from, to, command, led_id, duration, emergency, security, e),
        quote_free(from),
        quote_free(to),
        quote_free(command),
        quote_free(security),
    ensures
        first_match_at(e, spec_marker(("led_id")@), off4(from, to, command) + 1),
{
    reveal_strlit("\"");
    reveal_strlit("\":");
    reveal_strlit("led_id");
    lemma_enc_quotes(from, to, command, led_id, duration, emergency, security, e);
    let o1 = off1(from);
    let o2 = off2(from, to);
    let o4 = off4(from, to, command);
    let m = spec_marker(("led_id")@);
    assert(m.len() == 9);
    assert(e.subrange(o4 + 1, o4 + 10) =~= m);
    assert forall|j: int| 0 <= j < o4 + 1 implies !match_at(e, m, j) by {
        if match_at(e, m, j) {
            assert(e.subrange(j, j + m.len() as int)[0] == e[j]);
            assert(e[j] == '"');
            assert(e.subrange(j, j + m.len() as int)[1] == e[j + 1]);
            if j == 8 {
                lemma_no_marker_at_value_open(e, ("led_id")@, 8, from.len() as int);
            }
            if j == o1 + 7 {
                lemma_no_marker_at_value_open(e, ("led_id")@, o1 + 7, to.len() as int);
            }
            if j == o2 + 12 {
                lemma_no_marker_at_value_open(e, ("led_id")@, o2 + 12, command.len() as int);
            }
        }
    }
}

/// The `"duration":` marker first matches at its key site.
#[verifier::rlimit(100)]
pub proof fn lemma_site_duration(
    from: Seq<char>,
    to: Seq<char>,
    command: Seq<char>,
    led_id: u8,
    duration: u64,
    emergency: bool,
    security: Seq<char>,
    e: Seq<char>,
)
    requires
        enc_layout(from, to, command, led_id, duration, emergency, security, e),
        quote_free(from),
        quote_free(to),
        quote_free(command),
        quote_free(security),
    ensures
        first_match_at(e, spec_marker(("duration")@), off5(from, to, command, led_id) + 1),
{
    reveal_strlit("\"");
    reveal_strlit("\":");
    reveal_strlit("duration");
    lemma_enc_quotes(from, to, command, led_id, duration, emergency, security, e);
    let o1 = off1(from);
    let o2 = off2(from, to);
    let o5 = off5(from, to, command, led_id);
    let m = spec_marker(("duration")@);
    assert(m.len() == 11);
    assert(e.subrange(o5 + 1, o5 + 12) =~= m);
    assert forall|j: int| 0 <= j < o5 + 1 implies !match_at(e, m, j) by {
        if match_at(e, m, j) {
            assert(e.subrange(j, j + m.len() as int)[0] == e[j]);
            assert(e[j] == '"');
            assert(e.subrange(j, j + m.len() as int)[1] == e[j + 1]);
            if j == 8 {
                lemma_no_marker_at_value_open(e, ("duration")@, 8, from.len() as int);
            }
            if j == o1 + 7 {
                lemma_no_marker_at_value_open(e, ("duration")@, o1 + 7, to.len() as int);
            }
            if j == o2 + 12 {
                lemma_no_marker_at_value_open(e, ("duration")@, o2 + 12, command.len() as int);
            }
        }
    }
}

/// The `"emergency":` marker first matches at its key site.
#[verifier::rlimit(100)]
pub proof fn lemma_site_emergency(
    from: Seq<char>,
    to: Seq<char>,
    command: Seq<char>,
    led_id: u8,
    duration: u64,
    emergency: bool,
    security: Seq<char>,
    e: Seq<char>,
)
    requires
        enc_layout(from, to, command, led_id, duration, emergency, security, e),
        quote_free(from),
        quote_free(to),
        quote_free(command),
        quote_free(security),
    ensures
        first_match_at(
            e,
            spec_marker(("emergency")@),
            off6(from, to, command, led_id, duration) + 1,
        ),
{
    reveal_strlit("\"");
    reveal_strlit("\":");
    reveal_strlit("emergency");
    lemma_enc_quotes(from, to, command, led_id, duration, emergency, security, e);
    let o1 = off1(from);
    let o2 = off2(from, to);
    let o6 = off6(from, to, command, led_id, duration);
    let m = spec_marker(("emergency")@);
    assert(m.len() == 12);
    assert(e.subrange(o6 + 1, o6 + 13) =~= m);
    assert forall|j: int| 0 <= j < o6 + 1 implies !match_at(e, m, j) by {
        if match_at(e, m, j) {
            assert(e.subrange(j, j + m.len() as int)[0] == e[j]);
            assert(e[j] == '"');
            assert(e.subrange(j, j + m.len() as int)[1] == e[j + 1]);
            if j == 8 {
                lemma_no_marker_at_value_open(e, ("emergency")@, 8, from.len() as int);
            }
            if j == o1 + 7 {
                lemma_no_marker_at_value_open(e, ("emergency")@, o1 + 7, to.len() as int);
            }
            if j == o2 + 12 {
                lemma_no_marker_at_value_open(e, ("emergency")@, o2 + 12, command.len() as int);
            }
        }
    }
}

/// The `"security":` marker first matches at its key site.
#[verifier::rlimit(100)]
pub proof fn lemma_site_security(
    from: Seq<char>,
    to: Seq<char>,
    command: Seq<char>,
    led_id: u8,
    duration: u64,
    emergency: bool,
    security: Seq<char>,
    e: Seq<char>,
)
    requires
        enc_layout(from, to, command, led_id, duration, emergency, security, e),
        quote_free(from),
        quote_free(to),
        quote_free(command),
        quote_free(security),
    ensures
        first_match_at(
            e,
            spec_marker(("security")@),
            off7(from, to, command, led_id, duration, emergency) + 1,
        ),
{
    reveal_strlit("\"");
    reveal_strlit("\":");
    reveal_strlit("security");
    lemma_enc_quotes(from, to, command, led_id, duration, emergency, security, e);
    let o1 = off1(from);
    let o2 = off2(from, to);
    let o7 = off7(from, to, command, led_id, duration, emergency);
    let m = spec_marker(("security")@);
    assert(m.len() == 11);
    assert(e.subrange(o7 + 1, o7 + 12) =~= m);
    assert forall|j: int| 0 <= j < o7 + 1 implies !match_at(e, m, j) by {
        if match_at(e, m, j) {
            assert(e.subrange(j, j + m.len() as int)[0] == e[j]);
            assert(e[j] == '"');
            assert(e.subrange(j, j + m.len() as int)[1] == e[j + 1]);
            if j == 8 {
                lemma_no_marker_at_value_open(e, ("security")@, 8, from.len() as int);
            }
            if j == o1 + 7 {
                lemma_no_marker_at_value_open(e, ("security")@, o1 + 7, to.len() as int);
            }
            if j == o2 + 12 {
                lemma_no_marker_at_value_open(e, ("security")@, o2 + 12, command.len() as int);
            }
        }
    }
}

/// In a full encoding, each of the four string keys extracts its value.
#[verifier::rlimit(100)]
pub proof fn lemma_enc_extract_strings(
    from: Seq<char>,
    to: Seq<char>,
    command: Seq<char>,
    led_id: u8,
    duration: u64,
    emergency: bool,
    security: Seq<char>,
    e: Seq<char>,
)
    requires
        enc_layout(from, to, command, led_id, duration, emergency, security, e),
        quote_free(from),
        quote_free(to),
        quote_free(command),
        quote_free(security),
    ensures
        spec_extract_string(e, ("from")@) == Some(from),
        spec_extract_string(e, ("to")@) == Some(to),
        spec_extract_string(e, ("command")@) == Some(command),
        spec_extract_string(e, ("security")@) == Some(security),
{
    reveal_strlit("\"");
    reveal_strlit("\":");
    reveal_strlit("from");
    reveal_strlit("to");
    reveal_strlit("command");
    reveal_strlit("security");
    let o1 = off1(from);
    let o2 = off2(from, to);
    let o7 = off7(from, to, command, led_id, duration, emergency);
    lemma_site_from(from, to, command, led_id, duration, emergency, security, e);
    lemma_extract_string_value(e, ("from")@, 1, from);
    lemma_site_to(from, to, command, led_id, duration, emergency, security, e);
    lemma_extract_string_value(e, ("to")@, o1 + 2, to);
    lemma_site_command(from, to, command, led_id, duration, emergency, security, e);
    lemma_extract_string_value(e, ("command")@, o2 + 2, command);
    lemma_site_security(from, to, command, led_id, duration, emergency, security, e);
    lemma_extract_string_value(e, ("security")@, o7 + 1, security);
}

/// In a full encoding, the two number keys and the boolean key extract
/// their values.
#[verifier::rlimit(100)]
pub proof fn lemma_enc_extract_options(
    from: Seq<char>,
    to: Seq<char>,
    command: Seq<char>,
    led_id: u8,
    duration: u64,
    emergency: bool,
    security: Seq<char>,
    e: Seq<char>,
)
    requires
        enc_layout(from, to, command, led_id, duration, emergency, security, e),
        quote_free(from),
        quote_free(to),
        quote_free(command),
        quote_free(security),
        duration <= u32::MAX,
    ensures
        spec_extract_number(e, ("led_id")@) == Some(led_id as u32),
        spec_extract_number(e, ("duration")@) == Some(duration as u32),
        spec_extract_bool(e, ("emergency")@) == Some(emergency),
{
    reveal_strlit("\"");
    reveal_strlit("\":");
    reveal_strlit("led_id");
    reveal_strlit("duration");
    reveal_strlit("emergency");
    let o4 = off4(from, to, command);
    let o5 = off5(from, to, command, led_id);
    let o6 = off6(from, to, command, led_id, duration);
    lemma_dec_digits(led_id as nat);
    lemma_dec_digits(duration as nat);
    lemma_site_led_id(from, to, command, led_id, duration, emergency, security, e);
    lemma_extract_number_value(e, ("led_id")@, o4 + 1, led_id as nat);
    lemma_site_duration(from, to, command, led_id, duration, emergency, security, e);
    lemma_extract_number_value(e, ("duration")@, o5 + 1, duration as nat);
    lemma_site_emergency(from, to, command, led_id, duration, emergency, security, e);
    lemma_extract_bool_value(e, ("emergency")@, o6 + 1, emergency);
}

/// A text with the layout of a full encoding decodes to exactly that
/// command.
proof fn lemma_decode_of_layout(
    from: Seq<char>,
    to: Seq<char>,
    command: Seq<char>,
    led_id: u8,
    duration: u64,
    emergency: bool,
    security: Seq<char>,
    e: Seq<char>,
)
    requires
        enc_layout(from, to, command, led_id, duration, emergency, security, e),
        quote_free(from),
        quote_free(to),
        quote_free(command),
        quote_free(security),
        duration <= u32::MAX,
    ensures
        spec_decode(e) == Some(full_view(from, to, command, led_id, duration, emergency, security)),
{
    lemma_enc_extract_strings(from, to, command, led_id, duration, emergency, security, e);
    lemma_enc_extract_options(from, to, command, led_id, duration, emergency, security, e);
    assert((led_id as u32 % 256) as u8 == led_id);
    assert((duration as u32) as u64 == duration);
    assert(spec_decode(e) matches Some(d) && d =~= full_view(
        from,
        to,
        command,
        led_id,
        duration,
        emergency,
        security,
    ));
}

/// The round-trip law of the codec: encoding a command whose optional
/// fields are all present and decoding the result reproduces every field
/// value. The string fields must be free of double quotes — a quote
/// inside a value can defeat the tolerant marker scan — and the duration
/// must fit the decoder's 32-bit number range.
pub proof fn lemma_encode_decode_roundtrip(
    from: Seq<char>,
    to: Seq<char>,
    command: Seq<char>,
    led_id: u8,
    duration: u64,
    emergency: bool,
    security: Seq<char>,
)
    requires
        quote_free(from),
        quote_free(to),
        quote_free(command),
        quote_free(security),
        duration <= u32::MAX,
    ensures
        ({
            let c = full_view(from, to, command, led_id, duration, emergency, security);
            spec_decode(spec_encode(c)) == Some(c)
        }),
{
    let c = full_view(from, to, command, led_id, duration, emergency, security);
    lemma_enc_layout(from, to, command, led_id, duration, emergency, security);
    lemma_decode_of_layout(
        from,
        to,
        command,
        led_id,
        duration,
        emergency,
        security,
        spec_encode(c),
    );
}

} // verus!
