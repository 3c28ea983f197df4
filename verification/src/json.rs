//! JSON values, their mathematical model, and a verified serializer/parser.
//!
//! The remote-control wire format carries one JSON object between fixed
//! escape markers.  This module defines the library's own JSON data type,
//! a compact serializer that matches the wire format, and a parser for
//! incoming reply bodies.
use vstd::prelude::*;
use vstd::string::StringExecFns;
use vstd::string::StrSliceExecFns;

verus! {

/// Mathematical model of a JSON document.
#[verifier::ext_equal]
pub enum SpecJson {
    Null,
    Bool(bool),
    Int(i64),
    Num(Seq<char>),
    Str(Seq<char>),
    Arr(Seq<SpecJson>),
    Obj(Seq<(Seq<char>, SpecJson)>),
}

/// A JSON-like value: the payload carried by a command envelope.
#[derive(Debug, PartialEq)]
pub enum JsonValue {
    Null,
    Bool(bool),
    Int(i64),
    /// A non-integer numeric literal, kept as its exact source text.
    Num(String),
    Str(String),
    Arr(Vec<JsonValue>),
    Obj(Vec<(String, JsonValue)>),
}

pub open spec fn jv_view(v: JsonValue) -> SpecJson
    decreases v,
{
    match v {
        JsonValue::Null => SpecJson::Null,
        JsonValue::Bool(b) => SpecJson::Bool(b),
        JsonValue::Int(i) => SpecJson::Int(i),
        JsonValue::Num(s) => SpecJson::Num(s@),
        JsonValue::Str(s) => SpecJson::Str(s@),
        JsonValue::Arr(a) => SpecJson::Arr(jv_views(a@)),
        JsonValue::Obj(o) => SpecJson::Obj(jv_entry_views(o@)),
    }
}

pub open spec fn jv_views(s: Seq<JsonValue>) -> Seq<SpecJson>
    decreases s,
{
    if s.len() == 0 {
        Seq::empty()
    } else {
        seq![jv_view(s[0])] + jv_views(s.drop_first())
    }
}

pub open spec fn jv_entry_views(s: Seq<(String, JsonValue)>) -> Seq<(Seq<char>, SpecJson)>
    decreases s,
{
    if s.len() == 0 {
        Seq::empty()
    } else {
        seq![(s[0].0@, jv_view(s[0].1))] + jv_entry_views(s.drop_first())
    }
}

impl View for JsonValue {
    type V = SpecJson;

    open spec fn view(&self) -> SpecJson {
        jv_view(*self)
    }
}

pub broadcast proof fn lemma_jv_views_index(s: Seq<JsonValue>)
    ensures
        (#[trigger] jv_views(s)).len() == s.len(),
        forall|i: int| 0 <= i < s.len() ==> jv_views(s)[i] == jv_view(s[i]),
    decreases s,
{
    if s.len() > 0 {
        lemma_jv_views_index(s.drop_first());
        assert forall|i: int| 0 <= i < s.len() implies jv_views(s)[i] == jv_view(s[i]) by {
            if i > 0 {
                assert(s.drop_first()[i - 1] == s[i]);
            }
        }
    }
}

pub broadcast proof fn lemma_jv_entry_views_index(s: Seq<(String, JsonValue)>)
    ensures
        (#[trigger] jv_entry_views(s)).len() == s.len(),
        forall|i: int|
            0 <= i < s.len() ==> jv_entry_views(s)[i] == (s[i].0@, jv_view(s[i].1)),
    decreases s,
{
    if s.len() > 0 {
        lemma_jv_entry_views_index(s.drop_first());
        assert forall|i: int|
            0 <= i < s.len() implies jv_entry_views(s)[i] == (s[i].0@, jv_view(s[i].1)) by {
            if i > 0 {
                assert(s.drop_first()[i - 1] == s[i]);
            }
        }
    }
}

// ---------------------------------------------------------------------------
// Serialization: the compact form the wire format uses.
// ---------------------------------------------------------------------------
/// The decimal digit character for `d` (`0 <= d <= 9`).
pub open spec fn spec_digit(d: int) -> char {
    ((48 + d) as u32) as char
}

/// The lowercase hex digit character for `d` (`0 <= d <= 15`).
pub open spec fn spec_hex_digit(d: int) -> char {
    if d < 10 {
        ((48 + d) as u32) as char
    } else {
        ((87 + d) as u32) as char
    }
}

/// Decimal digits of `n` (`n >= 0`), most significant first, no leading zeros.
pub open spec fn spec_digits(n: int) -> Seq<char>
    recommends
        n >= 0,
    decreases n,
{
    if n < 10 {
        seq![spec_digit(n)]
    } else {
        spec_digits(n / 10).push(spec_digit(n % 10))
    }
}

/// The serialization of an integer value.
pub open spec fn spec_ser_i64(i: i64) -> Seq<char> {
    if i >= 0 {
        spec_digits(i as int)
    } else {
        seq!['-'] + spec_digits(-(i as int))
    }
}

/// How one character of a string value appears inside a JSON string literal.
pub open spec fn spec_escape_char(c: char) -> Seq<char> {
    if c == '"' {
        seq!['\\', '"']
    } else if c == '\\' {
        seq!['\\', '\\']
    } else if c == '\u{8}' {
        seq!['\\', 'b']
    } else if c == '\u{9}' {
        seq!['\\', 't']
    } else if c == '\u{A}' {
        seq!['\\', 'n']
    } else if c == '\u{C}' {
        seq!['\\', 'f']
    } else if c == '\u{D}' {
        seq!['\\', 'r']
    } else if (c as u32) < 32 {
        seq!['\\', 'u', '0', '0', spec_hex_digit(c as u32 as int / 16), spec_hex_digit(
            c as u32 as int % 16,
        )]
    } else {
        seq![c]
    }
}

/// The escaped form of the first `i` characters of `s`.
pub open spec fn spec_escape_prefix(s: Seq<char>, i: int) -> Seq<char>
    recommends
        i <= s.len(),
    decreases i,
{
    if i <= 0 {
        Seq::empty()
    } else {
        spec_escape_prefix(s, i - 1) + spec_escape_char(s[i - 1])
    }
}

/// A JSON string literal: quote, escaped characters, quote.
pub open spec fn spec_ser_string(s: Seq<char>) -> Seq<char> {
    seq!['"'] + spec_escape_prefix(s, s.len() as int) + seq!['"']
}

/// The serialization of a JSON value, with no interior whitespace.
pub open spec fn spec_ser(v: SpecJson) -> Seq<char>
    decreases v, 0int,
{
    match v {
        SpecJson::Null => seq!['n', 'u', 'l', 'l'],
        SpecJson::Bool(b) => if b {
            seq!['t', 'r', 'u', 'e']
        } else {
            seq!['f', 'a', 'l', 's', 'e']
        },
        SpecJson::Int(i) => spec_ser_i64(i),
        SpecJson::Num(s) => s,
        SpecJson::Str(s) => spec_ser_string(s),
        SpecJson::Arr(a) => seq!['['] + spec_ser_items_full(a) + seq![']'],
        SpecJson::Obj(o) => seq!['{'] + spec_ser_entries_full(o) + seq!['}'],
    }
}

/// The comma-joined serialization of all elements of `a`.
pub open spec fn spec_ser_items_full(a: Seq<SpecJson>) -> Seq<char>
    decreases a,
{
    if a.len() == 0 {
        Seq::empty()
    } else if a.len() == 1 {
        spec_ser(a[0])
    } else {
        spec_ser_items_full(a.drop_last()) + seq![','] + spec_ser(a[a.len() - 1])
    }
}

/// The comma-joined serialization of the first `i` elements of `a`.
pub open spec fn spec_ser_items(a: Seq<SpecJson>, i: int) -> Seq<char>
    recommends
        0 <= i <= a.len(),
{
    spec_ser_items_full(a.take(i))
}

/// The serialization of one object member: key, colon, value.
pub open spec fn spec_ser_entry(e: (Seq<char>, SpecJson)) -> Seq<char>
    decreases e,
{
    spec_ser_string(e.0) + seq![':'] + spec_ser(e.1)
}

/// The comma-joined serialization of all members of `o`.
pub open spec fn spec_ser_entries_full(o: Seq<(Seq<char>, SpecJson)>) -> Seq<char>
    decreases o,
{
    if o.len() == 0 {
        Seq::empty()
    } else if o.len() == 1 {
        spec_ser_entry(o[0])
    } else {
        spec_ser_entries_full(o.drop_last()) + seq![','] + spec_ser_entry(o[o.len() - 1])
    }
}

/// The comma-joined serialization of the first `i` members of `o`.
pub open spec fn spec_ser_entries(o: Seq<(Seq<char>, SpecJson)>, i: int) -> Seq<char>
    recommends
        0 <= i <= o.len(),
{
    spec_ser_entries_full(o.take(i))
}

pub proof fn lemma_ser_items_step(a: Seq<SpecJson>, i: int)
    requires
        0 <= i < a.len(),
    ensures
        spec_ser_items(a, i + 1) == if i == 0 {
            spec_ser(a[0])
        } else {
            spec_ser_items(a, i) + seq![','] + spec_ser(a[i])
        },
{
    assert(a.take(i + 1).drop_last() =~= a.take(i));
    assert(a.take(i + 1)[i] == a[i]);
}

pub proof fn lemma_ser_entries_step(o: Seq<(Seq<char>, SpecJson)>, i: int)
    requires
        0 <= i < o.len(),
    ensures
        spec_ser_entries(o, i + 1) == if i == 0 {
            spec_ser_entry(o[0])
        } else {
            spec_ser_entries(o, i) + seq![','] + spec_ser_entry(o[i])
        },
{
    assert(o.take(i + 1).drop_last() =~= o.take(i));
    assert(o.take(i + 1)[i] == o[i]);
}

// ---------------------------------------------------------------------------
// Executable serializer.
// ---------------------------------------------------------------------------
/// Relies on `String::push`: appends exactly the given character.
#[verifier::external_body]
fn push_char(out: &mut String, c: char)
    ensures
        final(out)@ == old(out)@.push(c),
{
    out.push(c);
}

/// The decimal digit character for `d`.
fn digit_char(d: u8) -> (c: char)
    requires
        d <= 9,
    ensures
        c == spec_digit(d as int),
{
    (48 + d) as char
}

/// The lowercase hex digit character for `d`.
pub fn hex_digit_char(d: u8) -> (c: char)
    requires
        d <= 15,
    ensures
        c == spec_hex_digit(d as int),
{
    if d < 10 {
        (48 + d) as char
    } else {
        (87 + d) as char
    }
}

fn ser_digits(n: u64, out: &mut String)
    ensures
        final(out)@ == old(out)@ + spec_digits(n as int),
    decreases n,
{
    if n >= 10 {
        ser_digits(n / 10, out);
    }
    push_char(out, digit_char((n % 10) as u8));
    assert(final(out)@ == old(out)@ + spec_digits(n as int));
}

fn ser_i64(i: i64, out: &mut String)
    ensures
        final(out)@ == old(out)@ + spec_ser_i64(i),
{
    if i >= 0 {
        ser_digits(i as u64, out);
    } else {
        push_char(out, '-');
        let m: u64 = if i == i64::MIN {
            9223372036854775808u64
        } else {
            (-i) as u64
        };
        assert(m as int == -(i as int));
        ser_digits(m, out);
        assert(final(out)@ == old(out)@ + spec_ser_i64(i));
    }
}

/// Appends the escaped form of one string-value character.
fn ser_escape_char(c: char, out: &mut String)
    ensures
        final(out)@ == old(out)@ + spec_escape_char(c),
{
    if c == '"' {
        push_char(out, '\\');
        push_char(out, '"');
    } else if c == '\\' {
        push_char(out, '\\');
        push_char(out, '\\');
    } else if c == '\u{8}' {
        push_char(out, '\\');
        push_char(out, 'b');
    } else if c == '\u{9}' {
        push_char(out, '\\');
        push_char(out, 't');
    } else if c == '\u{A}' {
        push_char(out, '\\');
        push_char(out, 'n');
    } else if c == '\u{C}' {
        push_char(out, '\\');
        push_char(out, 'f');
    } else if c == '\u{D}' {
        push_char(out, '\\');
        push_char(out, 'r');
    } else if (c as u32) < 32 {
        let v = c as u32;
        push_char(out, '\\');
        push_char(out, 'u');
        push_char(out, '0');
        push_char(out, '0');
        push_char(out, hex_digit_char((v / 16) as u8));
        push_char(out, hex_digit_char((v % 16) as u8));
    } else {
        push_char(out, c);
    }
    assert(final(out)@ =~= old(out)@ + spec_escape_char(c));
}

/// Appends a quoted, escaped JSON string literal for `s`.
#[verifier::loop_isolation(false)]
fn ser_string(s: &str, out: &mut String)
    ensures
        final(out)@ == old(out)@ + spec_ser_string(s@),
{
    push_char(out, '"');
    let n = s.unicode_len();
    let mut i: usize = 0;
    while i < n
        invariant
            n == s@.len(),
            i <= n,
            out@ == old(out)@.push('"') + spec_escape_prefix(s@, i as int),
        decreases n - i,
    {
        let c = s.get_char(i);
        ser_escape_char(c, out);
        i = i + 1;
    }
    push_char(out, '"');
    assert(final(out)@ =~= old(out)@ + spec_ser_string(s@));
}

/// Appends the compact serialization of `v`.
#[verifier::loop_isolation(false)]
fn ser_value(v: &JsonValue, out: &mut String)
    ensures
        final(out)@ == old(out)@ + spec_ser(v@),
    decreases v,
{
    broadcast use lemma_jv_views_index, lemma_jv_entry_views_index;

    match v {
        JsonValue::Null => {
            out.append("null");
            proof {
                reveal_strlit("null");
                assert(final(out)@ =~= old(out)@ + spec_ser(v@));
            }
        },
        JsonValue::Bool(b) => {
            if *b {
                out.append("true");
                proof {
                    reveal_strlit("true");
                    assert(final(out)@ =~= old(out)@ + spec_ser(v@));
                }
            } else {
                out.append("false");
                proof {
                    reveal_strlit("false");
                    assert(final(out)@ =~= old(out)@ + spec_ser(v@));
                }
            }
        },
        JsonValue::Int(i) => {
            ser_i64(*i, out);
        },
        JsonValue::Num(s) => {
            out.append(s.as_str());
        },
        JsonValue::Str(s) => {
            ser_string(s.as_str(), out);
        },
        JsonValue::Arr(a) => {
            push_char(out, '[');
            let ghost va = jv_views(a@);
            let n = a.len();
            let mut i: usize = 0;
            while i < n
                invariant
                    n == a@.len(),
                    va == jv_views(a@),
                    va.len() == n,
                    forall|k: int| 0 <= k < n ==> va[k] == jv_view(a@[k]),
                    i <= n,
                    out@ == old(out)@.push('[') + spec_ser_items(va, i as int),
                decreases n - i,
            {
                if i > 0 {
                    push_char(out, ',');
                }
                proof {
                    assert(decreases_to!(*v => v->Arr_0));
                    assert(v->Arr_0 == *a);
                    assert(decreases_to!(*a => a@));
                    assert(decreases_to!(a@ => a@[i as int]));
                }
                ser_value(&a[i], out);
                proof {
                    lemma_ser_items_step(va, i as int);
                }
                i = i + 1;
                assert(out@ =~= old(out)@.push('[') + spec_ser_items(va, i as int));
            }
            proof {
                assert(va.take(n as int) =~= va);
            }
            push_char(out, ']');
            assert(final(out)@ =~= old(out)@ + spec_ser(v@));
        },
        JsonValue::Obj(o) => {
            push_char(out, '{');
            let ghost vo = jv_entry_views(o@);
            let n = o.len();
            let mut i: usize = 0;
            while i < n
                invariant
                    n == o@.len(),
                    vo == jv_entry_views(o@),
                    vo.len() == n,
                    forall|k: int| 0 <= k < n ==> vo[k] == (o@[k].0@, jv_view(o@[k].1)),
                    i <= n,
                    out@ == old(out)@.push('{') + spec_ser_entries(vo, i as int),
                decreases n - i,
            {
                if i > 0 {
                    push_char(out, ',');
                }
                ser_string(o[i].0.as_str(), out);
                push_char(out, ':');
                proof {
                    assert(decreases_to!(*v => v->Obj_0));
                    assert(v->Obj_0 == *o);
                    assert(decreases_to!(*o => o@));
                    assert(decreases_to!(o@ => o@[i as int]));
                    assert(decreases_to!(o@[i as int] => o@[i as int].1));
                }
                ser_value(&o[i].1, out);
                proof {
                    lemma_ser_entries_step(vo, i as int);
                }
                i = i + 1;
                assert(out@ =~= old(out)@.push('{') + spec_ser_entries(vo, i as int));
            }
            proof {
                assert(vo.take(n as int) =~= vo);
            }
            push_char(out, '}');
            assert(final(out)@ =~= old(out)@ + spec_ser(v@));
        },
    }
}

impl JsonValue {
    /// The compact JSON text of this value, exactly as it goes on the wire.
    pub fn to_text(&self) -> (out: String)
        ensures
            out@ == spec_ser(self@),
    {
        let mut out = String::new();
        ser_value(self, &mut out);
        out
    }
}


// ---------------------------------------------------------------------------
// Parsing: mathematical definition.
// ---------------------------------------------------------------------------
pub open spec fn is_ws(c: char) -> bool {
    c == ' ' || c == '\t' || c == '\n' || c == '\r'
}

pub open spec fn is_digit(c: char) -> bool {
    48 <= c as u32 <= 57
}

/// Characters that may continue a numeric literal.
pub open spec fn is_num_char(c: char) -> bool {
    is_digit(c) || c == '-' || c == '+' || c == '.' || c == 'e' || c == 'E'
}

/// First index at or after `i` holding a non-whitespace character.
pub open spec fn spec_skip_ws(s: Seq<char>, i: int) -> int
    decreases s.len() - i,
{
    if 0 <= i < s.len() && is_ws(s[i]) {
        spec_skip_ws(s, i + 1)
    } else {
        i
    }
}

/// First index at or after `i` holding a character that cannot continue a number.
pub open spec fn spec_num_end(s: Seq<char>, i: int) -> int
    decreases s.len() - i,
{
    if 0 <= i < s.len() && is_num_char(s[i]) {
        spec_num_end(s, i + 1)
    } else {
        i
    }
}

pub proof fn lemma_num_end(s: Seq<char>, i: int)
    requires
        0 <= i <= s.len(),
    ensures
        i <= spec_num_end(s, i) <= s.len(),
        forall|k: int| i <= k < spec_num_end(s, i) ==> is_num_char(s[k]),
        spec_num_end(s, i) == s.len() || !is_num_char(s[spec_num_end(s, i)]),
    decreases s.len() - i,
{
    if i < s.len() && is_num_char(s[i]) {
        lemma_num_end(s, i + 1);
    }
}

pub open spec fn spec_all_digits(t: Seq<char>) -> bool {
    forall|k: int| 0 <= k < t.len() ==> is_digit(t[k])
}

/// Whether `t` is an optionally signed run of decimal digits.
pub open spec fn spec_is_int_lit(t: Seq<char>) -> bool {
    if t.len() == 0 {
        false
    } else if t[0] == '-' {
        t.len() >= 2 && spec_all_digits(t.drop_first())
    } else {
        spec_all_digits(t)
    }
}

/// The value of a run of decimal digits, most significant first.
pub open spec fn spec_digits_val(t: Seq<char>) -> int
    decreases t.len(),
{
    if t.len() == 0 {
        0
    } else {
        spec_digits_val(t.drop_last()) * 10 + (t[t.len() - 1] as u32 - 48)
    }
}

/// The value of an optionally signed run of decimal digits.
pub open spec fn spec_int_val(t: Seq<char>) -> int
    recommends
        spec_is_int_lit(t),
{
    if t.len() > 0 && t[0] == '-' {
        -spec_digits_val(t.drop_first())
    } else {
        spec_digits_val(t)
    }
}

/// The value of one hex digit character, or -1.
pub open spec fn spec_hex_val(c: char) -> int {
    if is_digit(c) {
        c as u32 - 48
    } else if 97 <= c as u32 <= 102 {
        c as u32 - 87
    } else if 65 <= c as u32 <= 70 {
        c as u32 - 55
    } else {
        -1
    }
}

/// The value of the four hex digits `s[i..i+4]`, or -1.
pub open spec fn spec_hex4(s: Seq<char>, i: int) -> int {
    if 0 <= i && i + 4 <= s.len() && spec_hex_val(s[i]) >= 0 && spec_hex_val(s[i + 1]) >= 0
        && spec_hex_val(s[i + 2]) >= 0 && spec_hex_val(s[i + 3]) >= 0 {
        spec_hex_val(s[i]) * 4096 + spec_hex_val(s[i + 1]) * 256 + spec_hex_val(s[i + 2]) * 16
            + spec_hex_val(s[i + 3])
    } else {
        -1
    }
}

/// Parses one escape sequence; `i` points just past the backslash.
/// Yields the denoted character and the index after the sequence.
pub open spec fn spec_parse_escape(s: Seq<char>, i: int) -> Option<(char, int)> {
    if i < 0 || i >= s.len() {
        None
    } else {
        let c = s[i];
        if c == '"' {
            Some(('"', i + 1))
        } else if c == '\\' {
            Some(('\\', i + 1))
        } else if c == '/' {
            Some(('/', i + 1))
        } else if c == 'b' {
            Some(('\u{8}', i + 1))
        } else if c == 'f' {
            Some(('\u{C}', i + 1))
        } else if c == 'n' {
            Some(('\u{A}', i + 1))
        } else if c == 'r' {
            Some(('\u{D}', i + 1))
        } else if c == 't' {
            Some(('\u{9}', i + 1))
        } else if c == 'u' {
            let v = spec_hex4(s, i + 1);
            if v < 0 {
                None
            } else if 0xD800 <= v <= 0xDBFF {
                if i + 7 <= s.len() && s[i + 5] == '\\' && s[i + 6] == 'u' {
                    let w = spec_hex4(s, i + 7);
                    if 0xDC00 <= w <= 0xDFFF {
                        Some((((0x10000 + (v - 0xD800) * 1024 + (w - 0xDC00)) as u32) as char, i + 11))
                    } else {
                        None
                    }
                } else {
                    None
                }
            } else if 0xDC00 <= v <= 0xDFFF {
                None
            } else {
                Some(((v as u32) as char, i + 5))
            }
        } else {
            None
        }
    }
}

/// Parses the interior of a string literal; `i` points past the opening
/// quote, `acc` holds the characters read so far.
pub open spec fn spec_parse_string_body(s: Seq<char>, i: int, acc: Seq<char>) -> Option<
    (Seq<char>, int),
>
    decreases s.len() - i, 0int,
{
    if i < 0 || i >= s.len() {
        None
    } else {
        let c = s[i];
        if c == '"' {
            Some((acc, i + 1))
        } else if c == '\\' {
            match spec_parse_escape(s, i + 1) {
                None => None,
                Some((e, j)) => if i + 1 < j <= s.len() {
                    spec_parse_string_body(s, j, acc.push(e))
                } else {
                    None
                },
            }
        } else if (c as u32) < 32 {
            None
        } else {
            spec_parse_string_body(s, i + 1, acc.push(c))
        }
    }
}

pub open spec fn spec_lit_at(s: Seq<char>, i: int, lit: Seq<char>) -> bool {
    0 <= i && i + lit.len() <= s.len() && s.subrange(i, i + lit.len()) == lit
}

/// Parses one JSON value starting exactly at `i`.
pub open spec fn spec_parse_value(s: Seq<char>, i: int) -> Option<(SpecJson, int)>
    decreases s.len() - i, 0int,
{
    if i < 0 || i >= s.len() {
        None
    } else {
        let c = s[i];
        if c == 'n' {
            if spec_lit_at(s, i, seq!['n', 'u', 'l', 'l']) {
                Some((SpecJson::Null, i + 4))
            } else {
                None
            }
        } else if c == 't' {
            if spec_lit_at(s, i, seq!['t', 'r', 'u', 'e']) {
                Some((SpecJson::Bool(true), i + 4))
            } else {
                None
            }
        } else if c == 'f' {
            if spec_lit_at(s, i, seq!['f', 'a', 'l', 's', 'e']) {
                Some((SpecJson::Bool(false), i + 5))
            } else {
                None
            }
        } else if c == '"' {
            match spec_parse_string_body(s, i + 1, Seq::empty()) {
                None => None,
                Some((t, j)) => Some((SpecJson::Str(t), j)),
            }
        } else if c == '-' || is_digit(c) {
            let e = spec_num_end(s, i);
            let t = s.subrange(i, e);
            if spec_is_int_lit(t) && -0x8000000000000000 <= spec_int_val(t) < 0x8000000000000000 {
                Some((SpecJson::Int(spec_int_val(t) as i64), e))
            } else {
                Some((SpecJson::Num(t), e))
            }
        } else if c == '[' {
            let j = spec_skip_ws(s, i + 1);
            if j < s.len() && s[j] == ']' {
                Some((SpecJson::Arr(Seq::empty()), j + 1))
            } else if i < j <= s.len() {
                match spec_parse_items(s, j, Seq::empty()) {
                    None => None,
                    Some((a, k)) => Some((SpecJson::Arr(a), k)),
                }
            } else {
                None
            }
        } else if c == '{' {
            let j = spec_skip_ws(s, i + 1);
            if j < s.len() && s[j] == '}' {
                Some((SpecJson::Obj(Seq::empty()), j + 1))
            } else if i < j <= s.len() {
                match spec_parse_members(s, j, Seq::empty()) {
                    None => None,
                    Some((o, k)) => Some((SpecJson::Obj(o), k)),
                }
            } else {
                None
            }
        } else {
            None
        }
    }
}

/// Parses the elements of an array from the start of an element
/// (whitespace already skipped) up to the closing bracket.
pub open spec fn spec_parse_items(s: Seq<char>, i: int, acc: Seq<SpecJson>) -> Option<
    (Seq<SpecJson>, int),
>
    decreases s.len() - i, 1int,
{
    if i < 0 || i > s.len() {
        None
    } else {
        match spec_parse_value(s, i) {
            None => None,
            Some((v, j)) => {
                let k = spec_skip_ws(s, j);
                if k < s.len() && s[k] == ',' {
                    let m = spec_skip_ws(s, k + 1);
                    if i < m <= s.len() {
                        spec_parse_items(s, m, acc.push(v))
                    } else {
                        None
                    }
                } else if k < s.len() && s[k] == ']' {
                    Some((acc.push(v), k + 1))
                } else {
                    None
                }
            },
        }
    }
}

/// Parses the members of an object from the start of a key
/// (whitespace already skipped) up to the closing brace.
pub open spec fn spec_parse_members(
    s: Seq<char>,
    i: int,
    acc: Seq<(Seq<char>, SpecJson)>,
) -> Option<(Seq<(Seq<char>, SpecJson)>, int)>
    decreases s.len() - i, 1int,
{
    if i < 0 || i >= s.len() {
        None
    } else if s[i] != '"' {
        None
    } else {
        match spec_parse_string_body(s, i + 1, Seq::empty()) {
            None => None,
            Some((key, j)) => {
                let k = spec_skip_ws(s, j);
                if k < s.len() && s[k] == ':' {
                    let m = spec_skip_ws(s, k + 1);
                    if i < m <= s.len() {
                        match spec_parse_value(s, m) {
                            None => None,
                            Some((v, p)) => {
                                let q = spec_skip_ws(s, p);
                                if q < s.len() && s[q] == ',' {
                                    let r = spec_skip_ws(s, q + 1);
                                    if i < r <= s.len() {
                                        spec_parse_members(s, r, acc.push((key, v)))
                                    } else {
                                        None
                                    }
                                } else if q < s.len() && s[q] == '}' {
                                    Some((acc.push((key, v)), q + 1))
                                } else {
                                    None
                                }
                            },
                        }
                    } else {
                        None
                    }
                } else {
                    None
                }
            },
        }
    }
}

/// Parses a whole document: one value, possibly surrounded by whitespace.
pub open spec fn spec_parse_doc(s: Seq<char>) -> Option<SpecJson> {
    match spec_parse_value(s, spec_skip_ws(s, 0)) {
        None => None,
        Some((v, j)) => if spec_skip_ws(s, j) == s.len() {
            Some(v)
        } else {
            None
        },
    }
}


// ---------------------------------------------------------------------------
// Executable parser.
// ---------------------------------------------------------------------------
/// Magnitude of the most negative 64-bit integer.
pub const I64_MIN_MAG: u64 = 9223372036854775808;

/// Relies on `char::from_u32`: `Some` exactly for Unicode scalar values,
/// and the returned character has the given code point.
#[verifier::external_body]
fn char_from_u32(v: u32) -> (r: Option<char>)
    ensures
        r matches Some(c) ==> c as u32 == v,
        r is Some <==> (v < 0xD800 || (0xE000 <= v && v < 0x110000)),
{
    char::from_u32(v)
}

fn is_ws_char(c: char) -> (b: bool)
    ensures
        b == is_ws(c),
{
    c == ' ' || c == '\t' || c == '\n' || c == '\r'
}

fn is_num_char_exec(c: char) -> (b: bool)
    ensures
        b == is_num_char(c),
{
    let u = c as u32;
    (48 <= u && u <= 57) || c == '-' || c == '+' || c == '.' || c == 'e' || c == 'E'
}

fn skip_ws(s: &Vec<char>, i: usize) -> (j: usize)
    requires
        i <= s@.len(),
    ensures
        j == spec_skip_ws(s@, i as int),
        i <= j <= s@.len(),
    decreases s@.len() - i,
{
    let mut j = i;
    while j < s.len() && is_ws_char(s[j])
        invariant
            i <= j <= s@.len(),
            spec_skip_ws(s@, i as int) == spec_skip_ws(s@, j as int),
        decreases s@.len() - j,
    {
        j = j + 1;
    }
    j
}

fn hex_val(c: char) -> (r: Option<u8>)
    ensures
        r matches Some(v) ==> spec_hex_val(c) == v as int,
        r is None ==> spec_hex_val(c) == -1,
{
    let u = c as u32;
    if 48 <= u && u <= 57 {
        Some((u - 48) as u8)
    } else if 97 <= u && u <= 102 {
        Some((u - 87) as u8)
    } else if 65 <= u && u <= 70 {
        Some((u - 55) as u8)
    } else {
        None
    }
}

fn hex4_at(s: &Vec<char>, i: usize) -> (r: Option<u32>)
    requires
        i <= s@.len(),
    ensures
        r matches Some(v) ==> spec_hex4(s@, i as int) == v as int && v < 0x10000,
        r is None ==> spec_hex4(s@, i as int) == -1,
{
    if s.len() - i < 4 {
        return None;
    }
    let a = hex_val(s[i]);
    let b = hex_val(s[i + 1]);
    let c = hex_val(s[i + 2]);
    let d = hex_val(s[i + 3]);
    match (a, b, c, d) {
        (Some(a), Some(b), Some(c), Some(d)) => Some(
            (a as u32) * 4096 + (b as u32) * 256 + (c as u32) * 16 + (d as u32),
        ),
        _ => None,
    }
}

/// Parses one escape sequence; `i` points just past the backslash.
fn parse_escape(s: &Vec<char>, i: usize) -> (r: Result<(char, usize), ()>)
    requires
        i <= s@.len(),
    ensures
        r matches Ok(p) ==> spec_parse_escape(s@, i as int) == Some((p.0, p.1 as int)) && i < p.1
            <= s@.len(),
        r is Err ==> spec_parse_escape(s@, i as int) is None,
{
    if i >= s.len() {
        return Err(());
    }
    let c = s[i];
    if c == '"' {
        Ok(('"', i + 1))
    } else if c == '\\' {
        Ok(('\\', i + 1))
    } else if c == '/' {
        Ok(('/', i + 1))
    } else if c == 'b' {
        Ok(('\u{8}', i + 1))
    } else if c == 'f' {
        Ok(('\u{C}', i + 1))
    } else if c == 'n' {
        Ok(('\u{A}', i + 1))
    } else if c == 'r' {
        Ok(('\u{D}', i + 1))
    } else if c == 't' {
        Ok(('\u{9}', i + 1))
    } else if c == 'u' {
        match hex4_at(s, i + 1) {
            None => Err(()),
            Some(v) => {
                if 0xD800 <= v && v <= 0xDBFF {
                    if s.len() >= 7 && i <= s.len() - 7 && s[i + 5] == '\\' && s[i + 6]
                        == 'u' {
                        match hex4_at(s, i + 7) {
                            None => Err(()),
                            Some(w) => {
                                if 0xDC00 <= w && w <= 0xDFFF {
                                    let code: u32 = 0x10000 + (v - 0xD800) * 1024 + (w - 0xDC00);
                                    match char_from_u32(code) {
                                        Some(ch) => {
                                            proof {
                                                vstd::utf8::char_u32_cast(ch, code);
                                            }
                                            Ok((ch, i + 11))
                                        },
                                        None => {
                                            proof {
                                                assert(false);
                                            }
                                            Err(())
                                        },
                                    }
                                } else {
                                    Err(())
                                }
                            },
                        }
                    } else {
                        Err(())
                    }
                } else if 0xDC00 <= v && v <= 0xDFFF {
                    Err(())
                } else {
                    match char_from_u32(v) {
                        Some(ch) => {
                            proof {
                                vstd::utf8::char_u32_cast(ch, v);
                            }
                            Ok((ch, i + 5))
                        },
                        None => {
                            proof {
                                assert(false);
                            }
                            Err(())
                        },
                    }
                }
            },
        }
    } else {
        Err(())
    }
}

/// Parses the interior of a string literal; `i0` points past the opening quote.
#[verifier::loop_isolation(false)]
fn parse_string_body(s: &Vec<char>, i0: usize) -> (r: Result<(String, usize), ()>)
    requires
        i0 <= s@.len(),
    ensures
        r matches Ok(p) ==> spec_parse_string_body(s@, i0 as int, Seq::empty()) == Some(
            (p.0@, p.1 as int),
        ) && i0 < p.1 <= s@.len(),
        r is Err ==> spec_parse_string_body(s@, i0 as int, Seq::empty()) is None,
{
    let mut acc = String::new();
    let mut i = i0;
    loop
        invariant
            i0 <= i <= s@.len(),
            spec_parse_string_body(s@, i0 as int, Seq::empty()) == spec_parse_string_body(
                s@,
                i as int,
                acc@,
            ),
        decreases s@.len() - i,
    {
        if i >= s.len() {
            return Err(());
        }
        let c = s[i];
        if c == '"' {
            return Ok((acc, i + 1));
        } else if c == '\\' {
            match parse_escape(s, i + 1) {
                Err(()) => {
                    return Err(());
                },
                Ok((e, j)) => {
                    push_char(&mut acc, e);
                    i = j;
                },
            }
        } else if (c as u32) < 32 {
            return Err(());
        } else {
            push_char(&mut acc, c);
            i = i + 1;
        }
    }
}

pub proof fn lemma_digits_val_nonneg(t: Seq<char>)
    requires
        spec_all_digits(t),
    ensures
        spec_digits_val(t) >= 0,
    decreases t.len(),
{
    if t.len() > 0 {
        lemma_digits_val_nonneg(t.drop_last());
    }
}

pub proof fn lemma_digits_val_step(t: Seq<char>, k: int)
    requires
        0 <= k < t.len(),
    ensures
        spec_digits_val(t.take(k + 1)) == spec_digits_val(t.take(k)) * 10 + (t[k] as u32 - 48),
{
    assert(t.take(k + 1).drop_last() =~= t.take(k));
    assert(t.take(k + 1)[k] == t[k]);
}

pub proof fn lemma_digits_val_mono(t: Seq<char>, k: int)
    requires
        spec_all_digits(t),
        0 <= k <= t.len(),
    ensures
        spec_digits_val(t) >= spec_digits_val(t.take(k)),
    decreases t.len() - k,
{
    if k < t.len() {
        lemma_digits_val_step(t, k);
        assert(spec_all_digits(t.take(k)));
        lemma_digits_val_nonneg(t.take(k));
        assert(spec_digits_val(t.take(k + 1)) >= spec_digits_val(t.take(k)));
        lemma_digits_val_mono(t, k + 1);
    } else {
        assert(t.take(k) =~= t);
    }
}

pub proof fn lemma_mul10_cmp(m: int, d: int, l: int)
    requires
        0 <= d <= 9,
        0 <= m,
        d <= l,
    ensures
        (m > (l - d) / 10) <==> (m * 10 + d > l),
    {
    let q = (l - d) / 10;
    let r = (l - d) % 10;
    vstd::arithmetic::div_mod::lemma_fundamental_div_mod(l - d, 10);
    vstd::arithmetic::div_mod::lemma_mod_bound(l - d, 10);
    assert((l - d) == 10 * q + r && 0 <= r < 10);
    assert((m > q) <==> (m * 10 + d > l)) by (nonlinear_arith)
        requires
            (l - d) == 10 * q + r,
            0 <= r < 10,
            0 <= d <= 9,
            0 <= m;
}

/// Parses a numeric literal beginning at `i`.
#[verifier::loop_isolation(false)]
#[verifier::rlimit(60)]
fn parse_number(s: &Vec<char>, i: usize) -> (r: (JsonValue, usize))
    requires
        i < s@.len(),
        s@[i as int] == '-' || is_digit(s@[i as int]),
    ensures
        spec_parse_value(s@, i as int) == Some((r.0@, r.1 as int)),
        i < r.1 <= s@.len(),
{
    let n = s.len();
    let mut e = i;
    while e < n && is_num_char_exec(s[e])
        invariant
            i <= e <= n,
            spec_num_end(s@, i as int) == spec_num_end(s@, e as int),
            forall|k: int| i <= k < e ==> is_num_char(s@[k]),
        decreases n - e,
    {
        e = e + 1;
    }
    assert(e == spec_num_end(s@, i as int));
    assert(e > i) by {
        assert(is_num_char(s@[i as int]));
    }
    let ghost t = s@.subrange(i as int, e as int);
    let neg = s[i] == '-';
    let d0: usize = if neg { i + 1 } else { i };
    let ghost digs = s@.subrange(d0 as int, e as int);
    proof {
        if neg {
            assert(digs =~= t.drop_first());
        } else {
            assert(digs =~= t);
        }
    }
    let mut all_dig = d0 < e;
    let mut over = false;
    let mut m: u64 = 0;
    let mut k = d0;
    while k < e
        invariant
            d0 <= k <= e,
            all_dig <==> (d0 < e && forall|j: int| d0 <= j < k ==> is_digit(s@[j])),
            all_dig && !over ==> m as int == spec_digits_val(digs.take(k - d0)) && m
                <= I64_MIN_MAG,
            all_dig && over ==> spec_digits_val(digs.take(k - d0)) > I64_MIN_MAG
                && spec_all_digits(digs.take(k - d0)),
        decreases e - k,
    {
        let c = s[k];
        let u = c as u32;
        if !(48 <= u && u <= 57) {
            all_dig = false;
        } else if all_dig && !over {
            let d = (u - 48) as u64;
            proof {
                lemma_digits_val_step(digs, k - d0);
                lemma_mul10_cmp(m as int, d as int, I64_MIN_MAG as int);
            }
            if m > (I64_MIN_MAG - d) / 10 {
                over = true;
            } else {
                m = m * 10 + d;
            }
        } else if all_dig && over {
            proof {
                lemma_digits_val_step(digs, k - d0);
                assert(spec_all_digits(digs.take(k - d0)));
                lemma_digits_val_nonneg(digs.take(k - d0));
            }
        }
        k = k + 1;
    }
    proof {
        assert(digs.take(e - d0) =~= digs);
    }
    let ghost int_ok = spec_is_int_lit(t) && -0x8000000000000000 <= spec_int_val(t)
        < 0x8000000000000000;
    if all_dig && !over && (neg || m < I64_MIN_MAG) {
        let v: i64 = if !neg {
            assert(m < I64_MIN_MAG);
            m as i64
        } else if m == I64_MIN_MAG {
            i64::MIN
        } else {
            -(m as i64)
        };
        proof {
            assert(spec_is_int_lit(t));
            assert(spec_int_val(t) == v as int);
            assert(int_ok);
        }
        (JsonValue::Int(v), e)
    } else {
        proof {
            if all_dig {
                if over {
                    lemma_digits_val_mono(digs, 0);
                    assert(spec_digits_val(digs) > I64_MIN_MAG);
                    assert(!int_ok);
                } else {
                    assert(!neg && m == I64_MIN_MAG);
                    assert(!int_ok);
                }
            } else {
                if d0 < e {
                    let j = choose|j: int| d0 <= j < e && !is_digit(s@[j]);
                    assert(digs[j - d0] == s@[j]);
                    assert(!spec_all_digits(digs));
                }
                assert(!spec_is_int_lit(t));
                assert(!int_ok);
            }
        }
        let mut raw = String::new();
        let mut p = i;
        while p < e
            invariant
                i <= p <= e,
                raw@ == s@.subrange(i as int, p as int),
            decreases e - p,
        {
            push_char(&mut raw, s[p]);
            assert(raw@ =~= s@.subrange(i as int, p as int + 1));
            p = p + 1;
        }
        assert(raw@ == t);
        (JsonValue::Num(raw), e)
    }
}



pub proof fn lemma_jv_views_push(u: Seq<JsonValue>, x: JsonValue)
    ensures
        jv_views(u.push(x)) == jv_views(u).push(jv_view(x)),
{
    lemma_jv_views_index(u.push(x));
    lemma_jv_views_index(u);
    assert(jv_views(u.push(x)) =~= jv_views(u).push(jv_view(x)));
}

pub proof fn lemma_jv_entry_views_push(u: Seq<(String, JsonValue)>, x: (String, JsonValue))
    ensures
        jv_entry_views(u.push(x)) == jv_entry_views(u).push((x.0@, jv_view(x.1))),
{
    lemma_jv_entry_views_index(u.push(x));
    lemma_jv_entry_views_index(u);
    assert(jv_entry_views(u.push(x)) =~= jv_entry_views(u).push((x.0@, jv_view(x.1))));
}

/// Whether the four characters at `i` are exactly `c0 c1 c2 c3`.
fn lit4(s: &Vec<char>, i: usize, c0: char, c1: char, c2: char, c3: char) -> (b: bool)
    requires
        i < s@.len(),
    ensures
        b == spec_lit_at(s@, i as int, seq![c0, c1, c2, c3]),
{
    if s.len() - i < 4 {
        return false;
    }
    let b = s[i] == c0 && s[i + 1] == c1 && s[i + 2] == c2 && s[i + 3] == c3;
    proof {
        let sub = s@.subrange(i as int, i as int + 4);
        assert(sub[0] == s@[i as int] && sub[1] == s@[i as int + 1] && sub[2] == s@[i as int + 2]
            && sub[3] == s@[i as int + 3]);
        if b {
            assert(sub =~= seq![c0, c1, c2, c3]);
        }
    }
    b
}

/// Whether the five characters at `i` are exactly `c0 c1 c2 c3 c4`.
fn lit5(s: &Vec<char>, i: usize, c0: char, c1: char, c2: char, c3: char, c4: char) -> (b: bool)
    requires
        i < s@.len(),
    ensures
        b == spec_lit_at(s@, i as int, seq![c0, c1, c2, c3, c4]),
{
    if s.len() - i < 5 {
        return false;
    }
    let b = s[i] == c0 && s[i + 1] == c1 && s[i + 2] == c2 && s[i + 3] == c3 && s[i + 4] == c4;
    proof {
        let sub = s@.subrange(i as int, i as int + 5);
        assert(sub[0] == s@[i as int] && sub[1] == s@[i as int + 1] && sub[2] == s@[i as int + 2]
            && sub[3] == s@[i as int + 3] && sub[4] == s@[i as int + 4]);
        if b {
            assert(sub =~= seq![c0, c1, c2, c3, c4]);
        }
    }
    b
}

/// Parses one JSON value starting exactly at `i`; mirrors `spec_parse_value`.
fn parse_value(s: &Vec<char>, i: usize) -> (r: Result<(JsonValue, usize), ()>)
    requires
        i <= s@.len(),
    ensures
        r matches Ok(p) ==> spec_parse_value(s@, i as int) == Some((p.0@, p.1 as int)) && i < p.1
            <= s@.len(),
        r is Err ==> spec_parse_value(s@, i as int) is None,
    decreases s@.len() - i, 0int,
{
    if i >= s.len() {
        return Err(());
    }
    let c = s[i];
    if c == 'n' {
        if lit4(s, i, 'n', 'u', 'l', 'l') {
            Ok((JsonValue::Null, i + 4))
        } else {
            Err(())
        }
    } else if c == 't' {
        if lit4(s, i, 't', 'r', 'u', 'e') {
            Ok((JsonValue::Bool(true), i + 4))
        } else {
            Err(())
        }
    } else if c == 'f' {
        if lit5(s, i, 'f', 'a', 'l', 's', 'e') {
            Ok((JsonValue::Bool(false), i + 5))
        } else {
            Err(())
        }
    } else if c == '"' {
        match parse_string_body(s, i + 1) {
            Ok((t, j)) => Ok((JsonValue::Str(t), j)),
            Err(()) => Err(()),
        }
    } else if c == '-' || (48 <= c as u32 && c as u32 <= 57) {
        let (v, e) = parse_number(s, i);
        Ok((v, e))
    } else if c == '[' {
        let j = skip_ws(s, i + 1);
        if j < s.len() && s[j] == ']' {
            let empty_arr: Vec<JsonValue> = Vec::new();
            proof {
                lemma_jv_views_index(empty_arr@);
                assert(jv_views(empty_arr@) =~= Seq::<SpecJson>::empty());
            }
            Ok((JsonValue::Arr(empty_arr), j + 1))
        } else {
            match parse_items(s, j) {
                Ok((arr, k)) => Ok((JsonValue::Arr(arr), k)),
                Err(()) => Err(()),
            }
        }
    } else if c == '{' {
        let j = skip_ws(s, i + 1);
        if j < s.len() && s[j] == '}' {
            let empty_obj: Vec<(String, JsonValue)> = Vec::new();
            proof {
                lemma_jv_entry_views_index(empty_obj@);
                assert(jv_entry_views(empty_obj@) =~= Seq::<(Seq<char>, SpecJson)>::empty());
            }
            Ok((JsonValue::Obj(empty_obj), j + 1))
        } else {
            match parse_members(s, j) {
                Ok((obj, k)) => Ok((JsonValue::Obj(obj), k)),
                Err(()) => Err(()),
            }
        }
    } else {
        Err(())
    }
}

/// Parses array elements up to the closing bracket; mirrors `spec_parse_items`.
#[verifier::loop_isolation(false)]
fn parse_items(s: &Vec<char>, i0: usize) -> (r: Result<(Vec<JsonValue>, usize), ()>)
    requires
        i0 <= s@.len(),
    ensures
        r matches Ok(p) ==> spec_parse_items(s@, i0 as int, Seq::empty()) == Some(
            (jv_views(p.0@), p.1 as int),
        ) && i0 < p.1 <= s@.len(),
        r is Err ==> spec_parse_items(s@, i0 as int, Seq::empty()) is None,
    decreases s@.len() - i0, 1int,
{
    let mut acc: Vec<JsonValue> = Vec::new();
    proof {
        lemma_jv_views_index(acc@);
        assert(jv_views(acc@) =~= Seq::<SpecJson>::empty());
    }
    let mut i = i0;
    loop
        invariant
            i0 <= i <= s@.len(),
            spec_parse_items(s@, i0 as int, Seq::empty()) == spec_parse_items(
                s@,
                i as int,
                jv_views(acc@),
            ),
        decreases s@.len() - i,
    {
        match parse_value(s, i) {
            Err(()) => {
                return Err(());
            },
            Ok((v, j)) => {
                let k = skip_ws(s, j);
                if k < s.len() && s[k] == ',' {
                    let m = skip_ws(s, k + 1);
                    proof {
                        lemma_jv_views_push(acc@, v);
                    }
                    acc.push(v);
                    i = m;
                } else if k < s.len() && s[k] == ']' {
                    proof {
                        lemma_jv_views_push(acc@, v);
                    }
                    acc.push(v);
                    return Ok((acc, k + 1));
                } else {
                    return Err(());
                }
            },
        }
    }
}

/// Parses object members up to the closing brace; mirrors `spec_parse_members`.
#[verifier::loop_isolation(false)]
fn parse_members(s: &Vec<char>, i0: usize) -> (r: Result<(Vec<(String, JsonValue)>, usize), ()>)
    requires
        i0 <= s@.len(),
    ensures
        r matches Ok(p) ==> spec_parse_members(s@, i0 as int, Seq::empty()) == Some(
            (jv_entry_views(p.0@), p.1 as int),
        ) && i0 < p.1 <= s@.len(),
        r is Err ==> spec_parse_members(s@, i0 as int, Seq::empty()) is None,
    decreases s@.len() - i0, 1int,
{
    let mut acc: Vec<(String, JsonValue)> = Vec::new();
    proof {
        lemma_jv_entry_views_index(acc@);
        assert(jv_entry_views(acc@) =~= Seq::<(Seq<char>, SpecJson)>::empty());
    }
    let mut i = i0;
    loop
        invariant
            i0 <= i <= s@.len(),
            spec_parse_members(s@, i0 as int, Seq::empty()) == spec_parse_members(
                s@,
                i as int,
                jv_entry_views(acc@),
            ),
        decreases s@.len() - i,
    {
        if i >= s.len() {
            return Err(());
        }
        if s[i] != '"' {
            return Err(());
        }
        match parse_string_body(s, i + 1) {
            Err(()) => {
                return Err(());
            },
            Ok((key, j)) => {
                let k = skip_ws(s, j);
                if k < s.len() && s[k] == ':' {
                    let m = skip_ws(s, k + 1);
                    match parse_value(s, m) {
                        Err(()) => {
                            return Err(());
                        },
                        Ok((v, p)) => {
                            let q = skip_ws(s, p);
                            if q < s.len() && s[q] == ',' {
                                let rx = skip_ws(s, q + 1);
                                proof {
                                    lemma_jv_entry_views_push(acc@, (key, v));
                                }
                                acc.push((key, v));
                                i = rx;
                            } else if q < s.len() && s[q] == '}' {
                                proof {
                                    lemma_jv_entry_views_push(acc@, (key, v));
                                }
                                acc.push((key, v));
                                return Ok((acc, q + 1));
                            } else {
                                return Err(());
                            }
                        },
                    }
                } else {
                    return Err(());
                }
            },
        }
    }
}

/// The characters of a string slice, as a vector.
pub fn str_chars(s: &str) -> (v: Vec<char>)
    ensures
        v@ == s@,
{
    let n = s.unicode_len();
    let mut v: Vec<char> = Vec::new();
    let mut i: usize = 0;
    while i < n
        invariant
            i <= n,
            n == s@.len(),
            v@ == s@.take(i as int),
        decreases n - i,
    {
        v.push(s.get_char(i));
        proof {
            assert(v@ =~= s@.take(i as int + 1));
        }
        i = i + 1;
    }
    proof {
        assert(s@.take(n as int) =~= s@);
    }
    v
}

impl JsonValue {
    /// Parses a complete JSON document; mirrors `spec_parse_doc`.
    pub fn from_text(s: &str) -> (r: Option<JsonValue>)
        ensures
            r matches Some(v) ==> spec_parse_doc(s@) == Some(v@),
            r is None ==> spec_parse_doc(s@) is None,
    {
        let chars = str_chars(s);
        JsonValue::parse_document(&chars)
    }

    /// Parses a complete JSON document given as characters.
    pub fn parse_document(chars: &Vec<char>) -> (r: Option<JsonValue>)
        ensures
            r matches Some(v) ==> spec_parse_doc(chars@) == Some(v@),
            r is None ==> spec_parse_doc(chars@) is None,
    {
        let i = skip_ws(chars, 0);
        match parse_value(chars, i) {
            Err(()) => None,
            Ok((v, j)) => {
                let k = skip_ws(chars, j);
                if k == chars.len() {
                    Some(v)
                } else {
                    None
                }
            },
        }
    }
}




// ---------------------------------------------------------------------------
// Round trip: parsing a serialized value yields the value back.
// ---------------------------------------------------------------------------
/// Values whose serialization the parser is guaranteed to invert.  Only the
/// raw numeric literals carry conditions: their text must look like a number
/// and must not denote a machine integer (those are `Int`).
pub open spec fn wf_json(v: SpecJson) -> bool
    decreases v,
{
    match v {
        SpecJson::Num(t) => t.len() > 0 && (t[0] == '-' || is_digit(t[0])) && (forall|k: int|
            0 <= k < t.len() ==> is_num_char(t[k])) && !(spec_is_int_lit(t)
            && -0x8000000000000000 <= spec_int_val(t) < 0x8000000000000000),
        SpecJson::Arr(a) => wf_json_seq(a),
        SpecJson::Obj(o) => wf_json_entries(o),
        _ => true,
    }
}

pub open spec fn wf_json_seq(a: Seq<SpecJson>) -> bool
    decreases a,
{
    if a.len() == 0 {
        true
    } else {
        wf_json(a[0]) && wf_json_seq(a.drop_first())
    }
}

pub open spec fn wf_json_entries(o: Seq<(Seq<char>, SpecJson)>) -> bool
    decreases o,
{
    if o.len() == 0 {
        true
    } else {
        wf_json(o[0].1) && wf_json_entries(o.drop_first())
    }
}

pub proof fn lemma_wf_json_seq_index(a: Seq<SpecJson>)
    requires
        wf_json_seq(a),
    ensures
        forall|i: int| 0 <= i < a.len() ==> wf_json(a[i]),
    decreases a,
{
    if a.len() > 0 {
        lemma_wf_json_seq_index(a.drop_first());
        assert forall|i: int| 0 <= i < a.len() implies wf_json(a[i]) by {
            if i > 0 {
                assert(a.drop_first()[i - 1] == a[i]);
            }
        }
    }
}

pub proof fn lemma_wf_json_entries_index(o: Seq<(Seq<char>, SpecJson)>)
    requires
        wf_json_entries(o),
    ensures
        forall|i: int| 0 <= i < o.len() ==> wf_json(o[i].1),
    decreases o,
{
    if o.len() > 0 {
        lemma_wf_json_entries_index(o.drop_first());
        assert forall|i: int| 0 <= i < o.len() implies wf_json(o[i].1) by {
            if i > 0 {
                assert(o.drop_first()[i - 1] == o[i]);
            }
        }
    }
}

/// The escaped string contents, consumed from the left.
pub open spec fn esc_left(t: Seq<char>) -> Seq<char>
    decreases t,
{
    if t.len() == 0 {
        Seq::empty()
    } else {
        spec_escape_char(t[0]) + esc_left(t.drop_first())
    }
}

proof fn lemma_esc_left_concat(x: Seq<char>, y: Seq<char>)
    ensures
        esc_left(x + y) == esc_left(x) + esc_left(y),
    decreases x,
{
    if x.len() == 0 {
        assert(x + y =~= y);
        assert(esc_left(x) + esc_left(y) =~= esc_left(y));
    } else {
        assert((x + y).drop_first() =~= x.drop_first() + y);
        lemma_esc_left_concat(x.drop_first(), y);
        assert((x + y)[0] == x[0]);
        assert(esc_left(x + y) =~= esc_left(x) + esc_left(y));
    }
}

pub proof fn lemma_esc_prefix_is_left(t: Seq<char>, k: int)
    requires
        0 <= k <= t.len(),
    ensures
        spec_escape_prefix(t, k) == esc_left(t.take(k)),
    decreases k,
{
    if k > 0 {
        lemma_esc_prefix_is_left(t, k - 1);
        assert(t.take(k) =~= t.take(k - 1) + seq![t[k - 1]]);
        lemma_esc_left_concat(t.take(k - 1), seq![t[k - 1]]);
        assert(seq![t[k - 1]].drop_first() =~= Seq::<char>::empty());
        assert(esc_left(Seq::<char>::empty()) == Seq::<char>::empty());
        assert(esc_left(seq![t[k - 1]]) == spec_escape_char(t[k - 1]) + Seq::<char>::empty());
        assert(spec_escape_char(t[k - 1]) + Seq::<char>::empty() =~= spec_escape_char(t[k - 1]));
    }
}

/// The serialization of array elements, consumed from the left.
pub open spec fn ser_items_left(a: Seq<SpecJson>) -> Seq<char>
    decreases a,
{
    if a.len() == 0 {
        Seq::empty()
    } else if a.len() == 1 {
        spec_ser(a[0])
    } else {
        spec_ser(a[0]) + seq![','] + ser_items_left(a.drop_first())
    }
}

/// The serialization of object members, consumed from the left.
pub open spec fn ser_entries_left(o: Seq<(Seq<char>, SpecJson)>) -> Seq<char>
    decreases o,
{
    if o.len() == 0 {
        Seq::empty()
    } else if o.len() == 1 {
        spec_ser_entry(o[0])
    } else {
        spec_ser_entry(o[0]) + seq![','] + ser_entries_left(o.drop_first())
    }
}

proof fn lemma_items_left_push(a: Seq<SpecJson>, v: SpecJson)
    ensures
        ser_items_left(a.push(v)) == if a.len() == 0 {
            spec_ser(v)
        } else {
            ser_items_left(a) + seq![','] + spec_ser(v)
        },
    decreases a,
{
    if a.len() == 0 {
        assert(a.push(v)[0] == v);
    } else {
        assert(a.push(v).drop_first() =~= a.drop_first().push(v));
        lemma_items_left_push(a.drop_first(), v);
        assert(a.push(v)[0] == a[0]);
        if a.len() == 1 {
            assert(ser_items_left(a.push(v)) =~= ser_items_left(a) + seq![','] + spec_ser(v));
        } else {
            assert(ser_items_left(a.push(v)) =~= ser_items_left(a) + seq![','] + spec_ser(v));
        }
    }
}

pub proof fn lemma_items_full_is_left(a: Seq<SpecJson>)
    ensures
        spec_ser_items_full(a) == ser_items_left(a),
    decreases a,
{
    if a.len() > 1 {
        lemma_items_full_is_left(a.drop_last());
        lemma_items_left_push(a.drop_last(), a[a.len() - 1]);
        assert(a.drop_last().push(a[a.len() - 1]) =~= a);
    }
}

proof fn lemma_entries_left_push(o: Seq<(Seq<char>, SpecJson)>, e: (Seq<char>, SpecJson))
    ensures
        ser_entries_left(o.push(e)) == if o.len() == 0 {
            spec_ser_entry(e)
        } else {
            ser_entries_left(o) + seq![','] + spec_ser_entry(e)
        },
    decreases o,
{
    if o.len() == 0 {
        assert(o.push(e)[0] == e);
    } else {
        assert(o.push(e).drop_first() =~= o.drop_first().push(e));
        lemma_entries_left_push(o.drop_first(), e);
        assert(o.push(e)[0] == o[0]);
        assert(ser_entries_left(o.push(e)) =~= ser_entries_left(o) + seq![','] + spec_ser_entry(e));
    }
}

pub proof fn lemma_entries_full_is_left(o: Seq<(Seq<char>, SpecJson)>)
    ensures
        spec_ser_entries_full(o) == ser_entries_left(o),
    decreases o,
{
    if o.len() > 1 {
        lemma_entries_full_is_left(o.drop_last());
        lemma_entries_left_push(o.drop_last(), o[o.len() - 1]);
        assert(o.drop_last().push(o[o.len() - 1]) =~= o);
    }
}

pub proof fn lemma_digits_props(n: int)
    requires
        n >= 0,
    ensures
        spec_digits(n).len() >= 1,
        spec_all_digits(spec_digits(n)),
    decreases n,
{
    if n >= 10 {
        lemma_digits_props(n / 10);
        assert forall|k: int| 0 <= k < spec_digits(n).len() implies is_digit(
            spec_digits(n)[k],
        ) by {
            if k < spec_digits(n).len() - 1 {
                assert(spec_digits(n)[k] == spec_digits(n / 10)[k]);
            }
        }
    }
}

pub proof fn lemma_digits_val_digits(n: int)
    requires
        n >= 0,
    ensures
        spec_digits_val(spec_digits(n)) == n,
    decreases n,
{
    if n < 10 {
        assert(spec_digits(n).drop_last() =~= Seq::<char>::empty());
        assert(spec_digits_val(Seq::<char>::empty()) == 0);
        assert(spec_digits(n)[0] == spec_digit(n));
        assert(spec_digit(n) as u32 == 48 + n);
    } else {
        lemma_digits_val_digits(n / 10);
        assert(spec_digits(n).drop_last() =~= spec_digits(n / 10));
        assert(spec_digits(n)[spec_digits(n).len() - 1] == spec_digit(n % 10));
        assert(spec_digit(n % 10) as u32 == 48 + n % 10);
        assert(spec_digits_val(spec_digits(n)) == spec_digits_val(spec_digits(n / 10)) * 10 + n
            % 10);
    }
}

/// The first character of a serialized value: never whitespace, never a
/// closing bracket, and matches the parser's dispatch.
pub proof fn lemma_ser_starts(v: SpecJson)
    requires
        wf_json(v),
    ensures
        spec_ser(v).len() > 0,
        !is_ws(spec_ser(v)[0]),
        spec_ser(v)[0] != ']',
        spec_ser(v)[0] != '}',
{
    match v {
        SpecJson::Int(i) => {
            if i >= 0 {
                lemma_digits_props(i as int);
                assert(is_digit(spec_ser(v)[0]));
            } else {
                lemma_digits_props(-(i as int));
            }
        },
        _ => {},
    }
}

pub proof fn lemma_num_end_exact(s: Seq<char>, i: int, j: int)
    requires
        0 <= i <= j <= s.len(),
        forall|k: int| i <= k < j ==> is_num_char(s[k]),
        j == s.len() || !is_num_char(s[j]),
    ensures
        spec_num_end(s, i) == j,
    decreases j - i,
{
    if i < j {
        lemma_num_end_exact(s, i + 1, j);
    }
}



/// Index form of a subrange equality.
proof fn lemma_subrange_index(s: Seq<char>, i: int, t: Seq<char>)
    requires
        0 <= i,
        i + t.len() <= s.len(),
        s.subrange(i, i + t.len()) == t,
    ensures
        forall|m: int| 0 <= m < t.len() ==> s[i + m] == t[m],
{
    assert forall|m: int| 0 <= m < t.len() implies s[i + m] == t[m] by {
        assert(s.subrange(i, i + t.len() as int)[m] == s[i + m]);
    }
}

/// Parsing a string-literal body over the escaped text of `t` followed by a
/// closing quote yields the accumulator extended by `t`.
proof fn lemma_parse_str_body_ser(s: Seq<char>, i: int, t: Seq<char>, acc: Seq<char>)
    requires
        0 <= i,
        i + esc_left(t).len() + 1 <= s.len(),
        s.subrange(i, i + esc_left(t).len()) == esc_left(t),
        s[i + esc_left(t).len()] == '"',
    ensures
        spec_parse_string_body(s, i, acc) == Some((acc + t, i + esc_left(t).len() + 1)),
    decreases t.len(),
{
    let el = esc_left(t);
    if t.len() == 0 {
        assert(s[i] == '"');
        assert(acc + t =~= acc);
    } else {
        let c = t[0];
        let ec = spec_escape_char(c);
        let rest = t.drop_first();
        let elr = esc_left(rest);
        assert(el == ec + elr);
        lemma_subrange_index(s, i, el);
        assert(forall|m: int| 0 <= m < ec.len() ==> el[m] == ec[m]);
        assert(forall|m: int| 0 <= m < ec.len() ==> s[i + m] == ec[m]);
        let i2 = i + ec.len();
        assert(s.subrange(i2, i2 + elr.len()) =~= elr) by {
            assert forall|m: int| 0 <= m < elr.len() implies s.subrange(
                i2,
                i2 + elr.len() as int,
            )[m] == elr[m] by {
                assert(el[ec.len() + m] == elr[m]);
                assert(s[i + (ec.len() + m)] == el[ec.len() + m]);
            }
        }
        assert(s[i2 + elr.len()] == '"') by {
            assert(i2 + elr.len() == i + el.len());
        }
        lemma_parse_str_body_ser(s, i2, rest, acc.push(c));
        assert(acc.push(c) + rest =~= acc + t);
        if c == '"' || c == '\\' {
            assert(s[i + 0] == ec[0] && s[i + 1] == ec[1]);
            assert(spec_parse_escape(s, i + 1) == Some((c, i + 2)));
        } else if c == '\u{8}' || c == '\u{9}' || c == '\u{A}' || c == '\u{C}' || c == '\u{D}' {
            assert(s[i + 0] == ec[0] && s[i + 1] == ec[1]);
            assert(spec_parse_escape(s, i + 1) == Some((c, i + 2)));
        } else if (c as u32) < 32 {
            assert(s[i + 0] == ec[0] && s[i + 1] == ec[1] && s[i + 2] == ec[2] && s[i + 3]
                == ec[3] && s[i + 4] == ec[4] && s[i + 5] == ec[5]);
            assert(s[i] == '\\' && s[i + 1] == 'u' && s[i + 2] == '0' && s[i + 3] == '0');
            let h1 = spec_hex_digit(c as u32 as int / 16);
            let h2 = spec_hex_digit(c as u32 as int % 16);
            assert(ec[4] == h1 && ec[5] == h2);
            assert(s[i + 4] == h1 && s[i + 5] == h2);
            assert(spec_hex_val(h1) == c as u32 as int / 16);
            assert(spec_hex_val(h2) == c as u32 as int % 16);
            assert(spec_hex4(s, i + 2) == c as u32 as int);
            vstd::utf8::char_u32_cast(c, c as u32);
            assert(spec_parse_escape(s, i + 1) == Some((c, i + 6)));
        } else {
            assert(s[i + 0] == ec[0]);
            assert(s[i] == c);
            assert(c != '"' && c != '\\' && (c as u32) >= 32);
        }
    }
}

/// Parsing array elements over the serialized tail `a.skip(k)` followed by a
/// closing bracket yields the accumulator extended by that tail.
proof fn lemma_parse_items_ser(s: Seq<char>, i: int, a: Seq<SpecJson>, k: int, acc: Seq<SpecJson>)
    requires
        wf_json_seq(a),
        0 <= k < a.len(),
        0 <= i,
        i + ser_items_left(a.skip(k)).len() + 1 <= s.len(),
        s.subrange(i, i + ser_items_left(a.skip(k)).len()) == ser_items_left(a.skip(k)),
        s[i + ser_items_left(a.skip(k)).len()] == ']',
    ensures
        spec_parse_items(s, i, acc) == Some(
            (acc + a.skip(k), i + ser_items_left(a.skip(k)).len() + 1),
        ),
    decreases a, a.len() - k,
{
    lemma_wf_json_seq_index(a);
    let rest = a.skip(k);
    let il = ser_items_left(rest);
    assert(rest[0] == a[k]);
    let s0 = spec_ser(a[k]);
    let j = i + s0.len();
    lemma_subrange_index(s, i, il);
    if rest.len() == 1 {
        assert(il == s0);
        assert(s.subrange(i, j) =~= s0) by {
            assert forall|m: int| 0 <= m < s0.len() implies s.subrange(i, j)[m] == s0[m] by {
                assert(s[i + m] == il[m]);
            }
        }
        assert(s[j] == ']') by {
            assert(j == i + il.len());
        }
        lemma_parse_value_ser(s, i, a[k]);
        assert(spec_skip_ws(s, j) == j);
        assert(acc.push(a[k]) =~= acc + rest);
    } else {
        let rest2 = rest.drop_first();
        assert(rest2 =~= a.skip(k + 1));
        let il2 = ser_items_left(rest2);
        assert(il == s0 + seq![','] + il2);
        assert(s.subrange(i, j) =~= s0) by {
            assert forall|m: int| 0 <= m < s0.len() implies s.subrange(i, j)[m] == s0[m] by {
                assert(il[m] == s0[m]);
                assert(s[i + m] == il[m]);
            }
        }
        assert(il[s0.len() as int] == ',');
        assert(s[i + s0.len()] == il[s0.len() as int]);
        assert(s[j] == ',');
        lemma_parse_value_ser(s, i, a[k]);
        assert(spec_skip_ws(s, j) == j);
        assert(rest2.len() > 0);
        let s1 = spec_ser(rest2[0]);
        assert(il2[0] == s1[0] && s1.len() > 0) by {
            lemma_ser_starts(rest2[0]);
            if rest2.len() > 1 {
                assert(il2 == s1 + seq![','] + ser_items_left(rest2.drop_first()));
            }
        }
        assert(il[s0.len() as int + 1] == il2[0]);
        assert(s[i + (s0.len() + 1)] == il[s0.len() as int + 1]);
        assert(s[j + 1] == il2[0]);
        lemma_ser_starts(rest2[0]);
        assert(!is_ws(s[j + 1]));
        assert(spec_skip_ws(s, j + 1) == j + 1);
        assert(s.subrange(j + 1, j + 1 + il2.len()) =~= il2) by {
            assert forall|m: int| 0 <= m < il2.len() implies s.subrange(
                j + 1,
                j + 1 + il2.len() as int,
            )[m] == il2[m] by {
                assert(il[s0.len() as int + 1 + m] == il2[m]);
                assert(s[i + (s0.len() as int + 1 + m)] == il[s0.len() as int + 1 + m]);
            }
        }
        assert(il[il.len() - 1] == il2[il2.len() - 1]);
        assert(s[j + 1 + il2.len()] == ']') by {
            assert(j + 1 + il2.len() == i + il.len());
        }
        lemma_parse_items_ser(s, j + 1, a, k + 1, acc.push(a[k]));
        assert(acc.push(a[k]) + a.skip(k + 1) =~= acc + rest);
        assert(j + 1 + il2.len() == i + il.len());
    }
}

/// Parsing object members over the serialized tail `o.skip(k)` followed by a
/// closing brace yields the accumulator extended by that tail.
proof fn lemma_parse_members_ser(
    s: Seq<char>,
    i: int,
    o: Seq<(Seq<char>, SpecJson)>,
    k: int,
    acc: Seq<(Seq<char>, SpecJson)>,
)
    requires
        wf_json_entries(o),
        0 <= k < o.len(),
        0 <= i,
        i + ser_entries_left(o.skip(k)).len() + 1 <= s.len(),
        s.subrange(i, i + ser_entries_left(o.skip(k)).len()) == ser_entries_left(o.skip(k)),
        s[i + ser_entries_left(o.skip(k)).len()] == '}',
    ensures
        spec_parse_members(s, i, acc) == Some(
            (acc + o.skip(k), i + ser_entries_left(o.skip(k)).len() + 1),
        ),
    decreases o, o.len() - k,
{
    lemma_wf_json_entries_index(o);
    let rest = o.skip(k);
    let el = ser_entries_left(rest);
    assert(rest[0] == o[k]);
    let key = o[k].0;
    let v = o[k].1;
    let e0 = spec_ser_entry(o[k]);
    assert(e0 == spec_ser_string(key) + seq![':'] + spec_ser(v));
    let ks = spec_ser_string(key);
    let vs = spec_ser(v);
    lemma_subrange_index(s, i, el);
    assert(forall|m: int| 0 <= m < e0.len() ==> el[m] == e0[m]) by {
        if rest.len() > 1 {
            assert(el == e0 + seq![','] + ser_entries_left(rest.drop_first()));
        }
    }
    // The key string literal.
    lemma_esc_prefix_is_left(key, key.len() as int);
    assert(key.take(key.len() as int) =~= key);
    let ek = esc_left(key);
    assert(ks == seq!['"'] + ek + seq!['"']);
    assert(e0[0] == ks[0] && ks[0] == '"');
    assert(el[0] == e0[0]);
    assert(s[i + 0] == el[0]);
    assert(s[i] == '"');
    assert(s.subrange(i + 1, i + 1 + ek.len() as int) =~= ek) by {
        assert forall|m: int| 0 <= m < ek.len() implies s[i + 1 + m] == ek[m] by {
            assert(ks[1 + m] == ek[m]);
            assert(e0[1 + m] == ks[1 + m]);
            assert(el[1 + m] == e0[1 + m]);
            assert(s[i + (1 + m)] == el[1 + m]);
        }
    }
    assert(s[i + 1 + ek.len() as int] == '"') by {
        assert(ks[1 + ek.len() as int] == '"');
        assert(e0[1 + ek.len() as int] == ks[1 + ek.len() as int]);
        assert(el[1 + ek.len() as int] == e0[1 + ek.len() as int]);
        assert(s[i + (1 + ek.len() as int)] == el[1 + ek.len() as int]);
    }
    lemma_parse_str_body_ser(s, i + 1, key, Seq::empty());
    assert(Seq::empty() + key =~= key);
    let jk = i + ks.len();
    assert(spec_parse_string_body(s, i + 1, Seq::empty()) == Some((key, jk)));
    // The colon, then the value.
    assert(s[jk] == ':') by {
        assert(e0[ks.len() as int] == ':');
        assert(el[ks.len() as int] == e0[ks.len() as int]);
        assert(s[i + ks.len()] == el[ks.len() as int]);
    }
    assert(spec_skip_ws(s, jk) == jk);
    let m = jk + 1;
    lemma_ser_starts(v);
    assert(s[m] == vs[0]) by {
        assert(e0[ks.len() as int + 1] == vs[0]);
        assert(el[ks.len() as int + 1] == e0[ks.len() as int + 1]);
        assert(s[i + (ks.len() as int + 1)] == el[ks.len() as int + 1]);
    }
    assert(spec_skip_ws(s, m) == m);
    assert(s.subrange(m, m + vs.len()) =~= vs) by {
        assert forall|q2: int| 0 <= q2 < vs.len() implies s.subrange(m, m + vs.len() as int)[q2]
            == vs[q2] by {
            assert(e0[ks.len() as int + 1 + q2] == vs[q2]);
            assert(el[ks.len() as int + 1 + q2] == e0[ks.len() as int + 1 + q2]);
            assert(s[i + (ks.len() as int + 1 + q2)] == el[ks.len() as int + 1 + q2]);
        }
    }
    let p = m + vs.len();
    assert(p == i + e0.len());
    if rest.len() == 1 {
        assert(s[p] == '}') by {
            assert(p == i + el.len());
        }
        lemma_parse_value_ser(s, m, v);
        assert(spec_skip_ws(s, p) == p);
        assert(acc.push(o[k]) =~= acc + rest);
    } else {
        let rest2 = rest.drop_first();
        assert(rest2 =~= o.skip(k + 1));
        let el2 = ser_entries_left(rest2);
        assert(el == e0 + seq![','] + el2);
        assert(s[p] == ',') by {
            assert(el[e0.len() as int] == ',');
            assert(s[i + e0.len()] == el[e0.len() as int]);
        }
        lemma_parse_value_ser(s, m, v);
        assert(spec_skip_ws(s, p) == p);
        assert(rest2.len() > 0);
        let ks2 = spec_ser_string(rest2[0].0);
        assert(el2[0] == '"') by {
            assert(spec_ser_entry(rest2[0]) == ks2 + seq![':'] + spec_ser(rest2[0].1));
            if rest2.len() > 1 {
                assert(el2 == spec_ser_entry(rest2[0]) + seq![','] + ser_entries_left(
                    rest2.drop_first(),
                ));
            }
        }
        assert(s[p + 1] == el2[0]) by {
            assert(el[e0.len() as int + 1] == el2[0]);
            assert(s[i + (e0.len() as int + 1)] == el[e0.len() as int + 1]);
        }
        assert(!is_ws('"'));
        assert(spec_skip_ws(s, p + 1) == p + 1);
        assert(s.subrange(p + 1, p + 1 + el2.len()) =~= el2) by {
            assert forall|q2: int| 0 <= q2 < el2.len() implies s.subrange(
                p + 1,
                p + 1 + el2.len() as int,
            )[q2] == el2[q2] by {
                assert(el[e0.len() as int + 1 + q2] == el2[q2]);
                assert(s[i + (e0.len() as int + 1 + q2)] == el[e0.len() as int + 1 + q2]);
            }
        }
        assert(s[p + 1 + el2.len()] == '}') by {
            assert(p + 1 + el2.len() == i + el.len());
        }
        lemma_parse_members_ser(s, p + 1, o, k + 1, acc.push(o[k]));
        assert(acc.push(o[k]) + o.skip(k + 1) =~= acc + rest);
        assert(p + 1 + el2.len() == i + el.len());
    }
}

/// Parsing the serialization of a well-formed value, in any surrounding
/// context that does not extend a trailing number, yields the value back.
#[verifier::rlimit(80)]
pub proof fn lemma_parse_value_ser(s: Seq<char>, i: int, v: SpecJson)
    requires
        wf_json(v),
        0 <= i,
        i + spec_ser(v).len() <= s.len(),
        s.subrange(i, i + spec_ser(v).len()) == spec_ser(v),
        i + spec_ser(v).len() == s.len() || !is_num_char(s[i + spec_ser(v).len()]),
    ensures
        spec_parse_value(s, i) == Some((v, i + spec_ser(v).len())),
    decreases v, 1int,
{
    let sv = spec_ser(v);
    let l = sv.len() as int;
    lemma_subrange_index(s, i, sv);
    assert(s[i + 0] == sv[0]) by {
        lemma_ser_starts(v);
    }
    lemma_ser_starts(v);
    match v {
        SpecJson::Null => {
            assert(s[i] == 'n');
            assert(spec_lit_at(s, i, seq!['n', 'u', 'l', 'l']));
        },
        SpecJson::Bool(b) => {
            if b {
                assert(s[i] == 't');
                assert(spec_lit_at(s, i, seq!['t', 'r', 'u', 'e']));
            } else {
                assert(s[i] == 'f');
                assert(spec_lit_at(s, i, seq!['f', 'a', 'l', 's', 'e']));
            }
        },
        SpecJson::Int(x) => {
            if x >= 0 {
                lemma_digits_props(x as int);
                lemma_digits_val_digits(x as int);
                assert(is_digit(s[i]));
                assert forall|m: int| i <= m < i + l implies is_num_char(s[m]) by {
                    assert(s[i + (m - i)] == sv[m - i]);
                    assert(is_digit(sv[m - i]));
                }
                lemma_num_end_exact(s, i, i + l);
                assert(s.subrange(i, i + l) == sv);
                assert(spec_is_int_lit(sv));
                assert(spec_int_val(sv) == x as int);
            } else {
                lemma_digits_props(-(x as int));
                lemma_digits_val_digits(-(x as int));
                assert(s[i] == '-');
                assert forall|m: int| i <= m < i + l implies is_num_char(s[m]) by {
                    assert(s[i + (m - i)] == sv[m - i]);
                    if m > i {
                        assert(sv[m - i] == spec_digits(-(x as int))[m - i - 1]);
                        assert(is_digit(sv[m - i]));
                    }
                }
                lemma_num_end_exact(s, i, i + l);
                assert(sv.drop_first() =~= spec_digits(-(x as int)));
                assert(spec_is_int_lit(sv));
                assert(spec_int_val(sv) == x as int);
            }
        },
        SpecJson::Num(t) => {
            assert(s[i] == t[0]);
            assert forall|m: int| i <= m < i + l implies is_num_char(s[m]) by {
                assert(s[i + (m - i)] == sv[m - i]);
                assert(is_num_char(t[m - i]));
            }
            lemma_num_end_exact(s, i, i + l);
            assert(s.subrange(i, i + l) == t);
        },
        SpecJson::Str(t) => {
            assert(s[i] == '"');
            lemma_esc_prefix_is_left(t, t.len() as int);
            assert(t.take(t.len() as int) =~= t);
            let et = esc_left(t);
            assert(sv == seq!['"'] + et + seq!['"']);
            assert(s.subrange(i + 1, i + 1 + et.len()) =~= et) by {
                assert forall|m: int| 0 <= m < et.len() implies s.subrange(
                    i + 1,
                    i + 1 + et.len() as int,
                )[m] == et[m] by {
                    assert(sv[1 + m] == et[m]);
                    assert(s[i + (1 + m)] == sv[1 + m]);
                }
            }
            assert(s[i + 1 + et.len()] == '"') by {
                assert(sv[l - 1] == '"');
                assert(s[i + (l - 1)] == sv[l - 1]);
            }
            lemma_parse_str_body_ser(s, i + 1, t, Seq::empty());
            assert(Seq::empty() + t =~= t);
        },
        SpecJson::Arr(a) => {
            lemma_items_full_is_left(a);
            let il = ser_items_left(a);
            assert(sv == seq!['['] + il + seq![']']);
            assert(s[i] == '[');
            if a.len() == 0 {
                assert(a =~= Seq::<SpecJson>::empty());
                assert(il == Seq::<char>::empty());
                assert(l == 2);
                assert(s[i + 1] == ']') by {
                    assert(sv[1] == ']');
                }
                assert(spec_skip_ws(s, i + 1) == i + 1);
                assert(spec_parse_value(s, i) == Some((SpecJson::Arr(Seq::<SpecJson>::empty()), i
                    + 2)));
                assert(v == SpecJson::Arr(Seq::<SpecJson>::empty()));
            } else {
                lemma_wf_json_seq_index(a);
                lemma_ser_starts(a[0]);
                assert(il[0] == spec_ser(a[0])[0]) by {
                    if a.len() > 1 {
                        assert(il == spec_ser(a[0]) + seq![','] + ser_items_left(a.drop_first()));
                    }
                }
                assert(s[i + 1] == il[0]) by {
                    assert(sv[1] == il[0]);
                }
                assert(!is_ws(s[i + 1]) && s[i + 1] != ']');
                assert(spec_skip_ws(s, i + 1) == i + 1);
                assert(a.skip(0) =~= a);
                assert(s.subrange(i + 1, i + 1 + il.len()) =~= il) by {
                    assert forall|m: int| 0 <= m < il.len() implies s.subrange(
                        i + 1,
                        i + 1 + il.len() as int,
                    )[m] == il[m] by {
                        assert(sv[1 + m] == il[m]);
                        assert(s[i + (1 + m)] == sv[1 + m]);
                    }
                }
                assert(s[i + 1 + il.len()] == ']') by {
                    assert(sv[l - 1] == ']');
                    assert(s[i + (l - 1)] == sv[l - 1]);
                }
                lemma_parse_items_ser(s, i + 1, a, 0, Seq::empty());
                assert(Seq::empty() + a =~= a);
            }
        },
        SpecJson::Obj(o) => {
            lemma_entries_full_is_left(o);
            let el = ser_entries_left(o);
            assert(sv == seq!['{'] + el + seq!['}']);
            assert(s[i] == '{');
            if o.len() == 0 {
                assert(o =~= Seq::<(Seq<char>, SpecJson)>::empty());
                assert(el == Seq::<char>::empty());
                assert(l == 2);
                assert(s[i + 1] == '}') by {
                    assert(sv[1] == '}');
                }
                assert(spec_skip_ws(s, i + 1) == i + 1);
                assert(spec_parse_value(s, i) == Some((SpecJson::Obj(
                    Seq::<(Seq<char>, SpecJson)>::empty(),
                ), i + 2)));
                assert(v == SpecJson::Obj(Seq::<(Seq<char>, SpecJson)>::empty()));
            } else {
                assert(el[0] == '"') by {
                    assert(spec_ser_entry(o[0]) == spec_ser_string(o[0].0) + seq![':'] + spec_ser(
                        o[0].1,
                    ));
                    if o.len() > 1 {
                        assert(el == spec_ser_entry(o[0]) + seq![','] + ser_entries_left(
                            o.drop_first(),
                        ));
                    }
                }
                assert(s[i + 1] == '"') by {
                    assert(sv[1] == el[0]);
                }
                assert(spec_skip_ws(s, i + 1) == i + 1);
                assert(o.skip(0) =~= o);
                assert(s.subrange(i + 1, i + 1 + el.len()) =~= el) by {
                    assert forall|m: int| 0 <= m < el.len() implies s.subrange(
                        i + 1,
                        i + 1 + el.len() as int,
                    )[m] == el[m] by {
                        assert(sv[1 + m] == el[m]);
                        assert(s[i + (1 + m)] == sv[1 + m]);
                    }
                }
                assert(s[i + 1 + el.len()] == '}') by {
                    assert(sv[l - 1] == '}');
                    assert(s[i + (l - 1)] == sv[l - 1]);
                }
                lemma_parse_members_ser(s, i + 1, o, 0, Seq::empty());
                assert(Seq::empty() + o =~= o);
            }
        },
    }
}

/// Round trip at the document level: parsing the serialization of a
/// well-formed value yields exactly that value.
pub proof fn lemma_parse_ser_doc(v: SpecJson)
    requires
        wf_json(v),
    ensures
        spec_parse_doc(spec_ser(v)) == Some(v),
{
    let s = spec_ser(v);
    lemma_ser_starts(v);
    assert(spec_skip_ws(s, 0) == 0);
    assert(s.subrange(0, s.len() as int) =~= s);
    lemma_parse_value_ser(s, 0, v);
    assert(spec_skip_ws(s, s.len() as int) == s.len() as int);
}



/// The decimal text of an unsigned integer.
pub fn u64_to_string(n: u64) -> (r: String)
    ensures
        r@ == spec_digits(n as int),
{
    let mut out = String::new();
    ser_digits(n, &mut out);
    out
}

/// The decimal text of a signed integer.
pub fn i64_to_string(i: i64) -> (r: String)
    ensures
        r@ == spec_ser_i64(i),
{
    let mut out = String::new();
    ser_i64(i, &mut out);
    out
}

/// Appends one character to a string.
pub fn string_push_char(out: &mut String, c: char)
    ensures
        final(out)@ == old(out)@.push(c),
{
    push_char(out, c);
}


impl Clone for JsonValue {
    /// A deep copy with the same abstract value.
    fn clone(&self) -> (res: Self)
        ensures
            res@ == self@,
        decreases self,
    {
        match self {
            JsonValue::Null => JsonValue::Null,
            JsonValue::Bool(b) => JsonValue::Bool(*b),
            JsonValue::Int(i) => JsonValue::Int(*i),
            JsonValue::Num(s) => JsonValue::Num(s.clone()),
            JsonValue::Str(s) => JsonValue::Str(s.clone()),
            JsonValue::Arr(a) => {
                let mut out: Vec<JsonValue> = Vec::new();
                let n = a.len();
                let mut i: usize = 0;
                proof {
                    lemma_jv_views_index(out@);
                }
                while i < n
                    invariant
                        n == a@.len(),
                        i <= n,
                        *self == JsonValue::Arr(*a),
                        jv_views(out@) =~= jv_views(a@).take(i as int),
                    decreases n - i,
                {
                    proof {
                        assert(decreases_to!(*self => self->Arr_0));
                        assert(self->Arr_0 == *a);
                        assert(decreases_to!(*a => a@));
                        assert(decreases_to!(a@ => a@[i as int]));
                    }
                    let c = a[i].clone();
                    proof {
                        lemma_jv_views_push(out@, c);
                        lemma_jv_views_index(a@);
                    }
                    out.push(c);
                    i = i + 1;
                    assert(jv_views(out@) =~= jv_views(a@).take(i as int));
                }
                proof {
                    lemma_jv_views_index(a@);
                    assert(jv_views(a@).take(n as int) =~= jv_views(a@));
                }
                JsonValue::Arr(out)
            },
            JsonValue::Obj(o) => {
                let mut out: Vec<(String, JsonValue)> = Vec::new();
                let n = o.len();
                let mut i: usize = 0;
                proof {
                    lemma_jv_entry_views_index(out@);
                }
                while i < n
                    invariant
                        n == o@.len(),
                        i <= n,
                        *self == JsonValue::Obj(*o),
                        jv_entry_views(out@) =~= jv_entry_views(o@).take(i as int),
                    decreases n - i,
                {
                    proof {
                        assert(decreases_to!(*self => self->Obj_0));
                        assert(self->Obj_0 == *o);
                        assert(decreases_to!(*o => o@));
                        assert(decreases_to!(o@ => o@[i as int]));
                        assert(decreases_to!(o@[i as int] => o@[i as int].1));
                    }
                    let k = o[i].0.clone();
                    let c = o[i].1.clone();
                    proof {
                        lemma_jv_entry_views_push(out@, (k, c));
                        lemma_jv_entry_views_index(o@);
                    }
                    out.push((k, c));
                    i = i + 1;
                    assert(jv_entry_views(out@) =~= jv_entry_views(o@).take(i as int));
                }
                proof {
                    lemma_jv_entry_views_index(o@);
                    assert(jv_entry_views(o@).take(n as int) =~= jv_entry_views(o@));
                }
                JsonValue::Obj(out)
            },
        }
    }
}


pub proof fn lemma_wf_json_seq_all(a: Seq<SpecJson>)
    requires
        forall|i: int| 0 <= i < a.len() ==> wf_json(#[trigger] a[i]),
    ensures
        wf_json_seq(a),
    decreases a,
{
    if a.len() > 0 {
        assert(forall|i: int|
            0 <= i < a.drop_first().len() ==> wf_json(#[trigger] a.drop_first()[i]));
        lemma_wf_json_seq_all(a.drop_first());
    }
}

pub proof fn lemma_wf_json_entries_push(o: Seq<(Seq<char>, SpecJson)>, e: (Seq<char>, SpecJson))
    requires
        wf_json_entries(o),
        wf_json(e.1),
    ensures
        wf_json_entries(o.push(e)),
    decreases o,
{
    if o.len() == 0 {
        assert(o.push(e)[0] == e);
        assert(o.push(e).drop_first() =~= Seq::<(Seq<char>, SpecJson)>::empty());
        assert(wf_json_entries(Seq::<(Seq<char>, SpecJson)>::empty()));
        assert(wf_json_entries(o.push(e)));
    } else {
        assert(wf_json(o[0].1) && wf_json_entries(o.drop_first()));
        assert(o.push(e)[0] == o[0]);
        assert(o.push(e).drop_first() =~= o.drop_first().push(e));
        lemma_wf_json_entries_push(o.drop_first(), e);
        assert(wf_json_entries(o.push(e)));
    }
}


// ---------------------------------------------------------------------------
// Serialized text never carries control characters.
// ---------------------------------------------------------------------------
/// No character below the first printable code point.
pub open spec fn spec_no_controls(s: Seq<char>) -> bool {
    forall|i: int| 0 <= i < s.len() ==> (#[trigger] s[i]) as u32 >= 0x20
}

proof fn lemma_no_controls_concat(a: Seq<char>, b: Seq<char>)
    requires
        spec_no_controls(a),
        spec_no_controls(b),
    ensures
        spec_no_controls(a + b),
{
    assert forall|i: int| 0 <= i < (a + b).len() implies ((a + b)[i]) as u32 >= 0x20 by {
        if i < a.len() {
            assert((a + b)[i] == a[i]);
        } else {
            assert((a + b)[i] == b[i - a.len()]);
        }
    }
}

proof fn lemma_digits_no_controls(n: int)
    requires
        n >= 0,
    ensures
        spec_no_controls(spec_digits(n)),
{
    lemma_digits_props(n);
    assert forall|i: int| 0 <= i < spec_digits(n).len() implies (spec_digits(n)[i]) as u32
        >= 0x20 by {
        assert(is_digit(spec_digits(n)[i]));
    }
}

proof fn lemma_escape_char_no_controls(c: char)
    ensures
        spec_no_controls(spec_escape_char(c)),
{
    let e = spec_escape_char(c);
    assert forall|i: int| 0 <= i < e.len() implies (e[i]) as u32 >= 0x20 by {
        if !(c == '"' || c == '\\' || c == '\u{8}' || c == '\u{9}' || c == '\u{A}' || c == '\u{C}'
            || c == '\u{D}') && (c as u32) < 32 {
            assert(spec_hex_digit(c as u32 as int / 16) as u32 >= 0x20);
            assert(spec_hex_digit(c as u32 as int % 16) as u32 >= 0x20);
        }
    }
}

proof fn lemma_escape_prefix_no_controls(s: Seq<char>, i: int)
    requires
        0 <= i <= s.len(),
    ensures
        spec_no_controls(spec_escape_prefix(s, i)),
    decreases i,
{
    if i > 0 {
        lemma_escape_prefix_no_controls(s, i - 1);
        lemma_escape_char_no_controls(s[i - 1]);
        lemma_no_controls_concat(spec_escape_prefix(s, i - 1), spec_escape_char(s[i - 1]));
    }
}

proof fn lemma_ser_string_no_controls(s: Seq<char>)
    ensures
        spec_no_controls(spec_ser_string(s)),
{
    lemma_escape_prefix_no_controls(s, s.len() as int);
    lemma_no_controls_concat(seq!['"'], spec_escape_prefix(s, s.len() as int));
    lemma_no_controls_concat(seq!['"'] + spec_escape_prefix(s, s.len() as int), seq!['"']);
}

/// The compact serialization of a well-formed value contains no control
/// characters: every string character below the space code point is
/// escaped, and every other token is printable.
pub proof fn lemma_ser_no_controls(v: SpecJson)
    requires
        wf_json(v),
    ensures
        spec_no_controls(spec_ser(v)),
    decreases v, 1int,
{
    match v {
        SpecJson::Null => {},
        SpecJson::Bool(b) => {},
        SpecJson::Int(i) => {
            if i >= 0 {
                lemma_digits_no_controls(i as int);
            } else {
                lemma_digits_no_controls(-(i as int));
                lemma_no_controls_concat(seq!['-'], spec_digits(-(i as int)));
            }
        },
        SpecJson::Num(t) => {
            assert forall|i: int| 0 <= i < t.len() implies (t[i]) as u32 >= 0x20 by {
                assert(is_num_char(t[i]));
            }
        },
        SpecJson::Str(t) => {
            lemma_ser_string_no_controls(t);
        },
        SpecJson::Arr(a) => {
            lemma_items_full_no_controls(a);
            lemma_no_controls_concat(seq!['['], spec_ser_items_full(a));
            lemma_no_controls_concat(seq!['['] + spec_ser_items_full(a), seq![']']);
        },
        SpecJson::Obj(o) => {
            lemma_entries_full_no_controls(o);
            lemma_no_controls_concat(seq!['{'], spec_ser_entries_full(o));
            lemma_no_controls_concat(seq!['{'] + spec_ser_entries_full(o), seq!['}']);
        },
    }
}

proof fn lemma_items_full_no_controls(a: Seq<SpecJson>)
    requires
        wf_json_seq(a),
    ensures
        spec_no_controls(spec_ser_items_full(a)),
    decreases a, 2int,
{
    lemma_wf_json_seq_index(a);
    if a.len() == 1 {
        lemma_ser_no_controls(a[0]);
    } else if a.len() > 1 {
        assert(wf_json_seq(a.drop_last())) by {
            assert(forall|i: int|
                0 <= i < a.drop_last().len() ==> wf_json(#[trigger] a.drop_last()[i]));
            lemma_wf_json_seq_all(a.drop_last());
        }
        lemma_items_full_no_controls(a.drop_last());
        lemma_ser_no_controls(a[a.len() - 1]);
        lemma_no_controls_concat(spec_ser_items_full(a.drop_last()), seq![',']);
        lemma_no_controls_concat(
            spec_ser_items_full(a.drop_last()) + seq![','],
            spec_ser(a[a.len() - 1]),
        );
    }
}

proof fn lemma_entry_no_controls(e: (Seq<char>, SpecJson))
    requires
        wf_json(e.1),
    ensures
        spec_no_controls(spec_ser_entry(e)),
    decreases e, 2int,
{
    lemma_ser_string_no_controls(e.0);
    lemma_ser_no_controls(e.1);
    lemma_no_controls_concat(spec_ser_string(e.0), seq![':']);
    lemma_no_controls_concat(spec_ser_string(e.0) + seq![':'], spec_ser(e.1));
}

proof fn lemma_entries_full_no_controls(o: Seq<(Seq<char>, SpecJson)>)
    requires
        wf_json_entries(o),
    ensures
        spec_no_controls(spec_ser_entries_full(o)),
    decreases o, 3int,
{
    lemma_wf_json_entries_index(o);
    if o.len() == 1 {
        lemma_entry_no_controls(o[0]);
    } else if o.len() > 1 {
        assert(wf_json_entries(o.drop_last())) by {
            lemma_wf_json_entries_all(o.drop_last());
        }
        lemma_entries_full_no_controls(o.drop_last());
        lemma_entry_no_controls(o[o.len() - 1]);
        lemma_no_controls_concat(spec_ser_entries_full(o.drop_last()), seq![',']);
        lemma_no_controls_concat(
            spec_ser_entries_full(o.drop_last()) + seq![','],
            spec_ser_entry(o[o.len() - 1]),
        );
    }
}

pub proof fn lemma_wf_json_entries_all(o: Seq<(Seq<char>, SpecJson)>)
    requires
        forall|i: int| 0 <= i < o.len() ==> wf_json((#[trigger] o[i]).1),
    ensures
        wf_json_entries(o),
    decreases o,
{
    if o.len() > 0 {
        assert(forall|i: int|
            0 <= i < o.drop_first().len() ==> wf_json((#[trigger] o.drop_first()[i]).1));
        lemma_wf_json_entries_all(o.drop_first());
    }
}

// ---------------------------------------------------------------------------
// UTF-8 encoding facts the framing layer needs.
// ---------------------------------------------------------------------------
/// UTF-8 encoding distributes over concatenation.
pub proof fn lemma_encode_utf8_concat(a: Seq<char>, b: Seq<char>)
    ensures
        vstd::utf8::encode_utf8(a + b) == vstd::utf8::encode_utf8(a) + vstd::utf8::encode_utf8(
            b,
        ),
    decreases a.len(),
{
    if a.len() == 0 {
        assert(a + b =~= b);
        assert(vstd::utf8::encode_utf8(a) =~= Seq::<u8>::empty());
        assert(vstd::utf8::encode_utf8(a) + vstd::utf8::encode_utf8(b) =~= vstd::utf8::encode_utf8(
            b,
        ));
    } else {
        assert((a + b)[0] == a[0]);
        assert((a + b).drop_first() =~= a.drop_first() + b);
        lemma_encode_utf8_concat(a.drop_first(), b);
        assert(vstd::utf8::encode_utf8(a + b) =~= vstd::utf8::encode_utf8(a)
            + vstd::utf8::encode_utf8(b));
    }
}

/// Text without control characters encodes without the escape byte: the
/// single-byte encodings are the characters themselves, and every byte of
/// a multi-byte encoding has its high bit set.
pub proof fn lemma_no_esc_byte(s: Seq<char>)
    requires
        spec_no_controls(s),
    ensures
        forall|i: int|
            0 <= i < vstd::utf8::encode_utf8(s).len() ==> #[trigger] vstd::utf8::encode_utf8(
                s,
            )[i] != 0x1b,
    decreases s.len(),
{
    if s.len() > 0 {
        let c = s[0];
        let v = c as u32;
        assert(v >= 0x20);
        let head = vstd::utf8::encode_scalar(v);
        assert(forall|i: int| 0 <= i < head.len() ==> #[trigger] head[i] != 0x1b) by {
            if v <= 0x7f {
                assert((v & 0x7f) == v && v as u8 != 0x1b) by (bit_vector)
                    requires
                        0x20 <= v <= 0x7f,
                ;
            } else {
                assert((0xC0 | ((v >> 6) & 0x1F) as u8) >= 0x80) by (bit_vector);
                assert((0xE0 | ((v >> 12) & 0x0F) as u8) >= 0x80) by (bit_vector);
                assert((0xF0 | ((v >> 18) & 0x7) as u8) >= 0x80) by (bit_vector);
                assert((0x80 | (v & 0x3F) as u8) >= 0x80) by (bit_vector);
                assert((0x80 | ((v >> 6) & 0x3F) as u8) >= 0x80) by (bit_vector);
                assert((0x80 | ((v >> 12) & 0x3F) as u8) >= 0x80) by (bit_vector);
            }
        }
        assert(forall|i: int| 0 <= i < s.drop_first().len() ==> (#[trigger] s.drop_first()[i])
            as u32 >= 0x20);
        lemma_no_esc_byte(s.drop_first());
        assert forall|i: int|
            0 <= i < vstd::utf8::encode_utf8(s).len() implies #[trigger] vstd::utf8::encode_utf8(
            s,
        )[i] != 0x1b by {
            if i < head.len() {
                assert(vstd::utf8::encode_utf8(s)[i] == head[i]);
            } else {
                assert(vstd::utf8::encode_utf8(s)[i] == vstd::utf8::encode_utf8(s.drop_first())[
                    i - head.len()]);
            }
        }
    }
}


} // verus!
