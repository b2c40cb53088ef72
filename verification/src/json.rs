//! The library's model of a JSON value, together with a verified compact
//! printer and the small parsing helpers the block pipeline needs.  Object
//! members keep document order; numbers are modelled as unsigned integers,
//! the only numbers the block schema reads.

use vstd::prelude::*;

verus! {

/// A JSON value as the normalizer and decoder see it.
pub enum JsonValue {
    Null,
    Bool(bool),
    Num(u64),
    Str(String),
    Arr(Vec<JsonValue>),
    Obj(Vec<(String, JsonValue)>),
}

/// The character a hexadecimal digit prints as, lower case.
pub open spec fn hex_digit(n: u32) -> char
    recommends
        n < 16,
{
    if n < 10 {
        ((48 + n) as u8) as char
    } else {
        ((87 + n) as u8) as char
    }
}

/// How one character appears inside a printed JSON string literal: quote and
/// backslash escaped, the named control characters short-escaped, all other
/// control characters as a four-digit escape, everything else as itself.
pub open spec fn escape_char(c: char) -> Seq<char> {
    if c == '"' {
        seq!['\\', '"']
    } else if c == '\\' {
        seq!['\\', '\\']
    } else if c == '\u{8}' {
        seq!['\\', 'b']
    } else if c == '\t' {
        seq!['\\', 't']
    } else if c == '\n' {
        seq!['\\', 'n']
    } else if c == '\u{c}' {
        seq!['\\', 'f']
    } else if c == '\r' {
        seq!['\\', 'r']
    } else if (c as u32) < 32 {
        seq!['\\', 'u', '0', '0', hex_digit((c as u32) >> 4), hex_digit((c as u32) & 15)]
    } else {
        seq![c]
    }
}

/// A character sequence with every character escaped for a string literal.
pub open spec fn escaped_text(s: Seq<char>) -> Seq<char>
    decreases s.len(),
{
    if s.len() == 0 {
        Seq::empty()
    } else {
        escape_char(s[0]) + escaped_text(s.drop_first())
    }
}

/// A JSON string literal: the escaped characters between double quotes.
pub open spec fn str_text(s: Seq<char>) -> Seq<char> {
    seq!['"'] + escaped_text(s) + seq!['"']
}

/// An unsigned integer in decimal, without leading zeroes.
pub open spec fn num_text(n: u64) -> Seq<char>
    decreases n,
{
    if n < 10 {
        seq![((48 + n) as u8) as char]
    } else {
        num_text(n / 10) + seq![((48 + (n % 10)) as u8) as char]
    }
}

/// The compact (no whitespace) rendering of a JSON value.
pub open spec fn json_text(v: JsonValue) -> Seq<char>
    decreases v,
{
    match v {
        JsonValue::Null => "null"@,
        JsonValue::Bool(b) => if b {
            "true"@
        } else {
            "false"@
        },
        JsonValue::Num(n) => num_text(n),
        JsonValue::Str(s) => str_text(s@),
        JsonValue::Arr(vs) => seq!['['] + arr_text(vs@) + seq![']'],
        JsonValue::Obj(fs) => seq!['{'] + obj_text(fs@) + seq!['}'],
    }
}

/// The comma-separated renderings of an array's elements.
pub open spec fn arr_text(vs: Seq<JsonValue>) -> Seq<char>
    decreases vs,
{
    if vs.len() == 0 {
        Seq::empty()
    } else if vs.len() == 1 {
        json_text(vs[0])
    } else {
        json_text(vs[0]) + seq![','] + arr_text(vs.drop_first())
    }
}

/// The comma-separated renderings of an object's members, in document order.
pub open spec fn obj_text(fs: Seq<(String, JsonValue)>) -> Seq<char>
    decreases fs,
{
    if fs.len() == 0 {
        Seq::empty()
    } else if fs.len() == 1 {
        str_text(fs[0].0@) + seq![':'] + json_text(fs[0].1)
    } else {
        str_text(fs[0].0@) + seq![':'] + json_text(fs[0].1) + seq![','] + obj_text(fs.drop_first())
    }
}

/// Relies on String::push: appends exactly one character.
#[verifier::external_body]
fn push_char(s: &mut String, c: char)
    ensures
        final(s)@ == old(s)@.push(c),
{
    s.push(c);
}

proof fn lemma_escaped_push(s: Seq<char>, c: char)
    ensures
        escaped_text(s.push(c)) =~= escaped_text(s) + escape_char(c),
    decreases s.len(),
{
    if s.len() == 0 {
        assert(s.push(c).drop_first() =~= Seq::<char>::empty());
        assert(s.push(c)[0] == c);
        assert(escaped_text(Seq::<char>::empty()) =~= Seq::<char>::empty());
        assert(escaped_text(s.push(c)) =~= escape_char(c) + escaped_text(s.push(c).drop_first()));
        assert(escaped_text(s.push(c)) =~= escaped_text(s) + escape_char(c));
    } else {
        assert(s.push(c).drop_first() =~= s.drop_first().push(c));
        assert(s.push(c)[0] == s[0]);
        lemma_escaped_push(s.drop_first(), c);
        assert(escaped_text(s.push(c)) =~= escape_char(s[0]) + escaped_text(
            s.drop_first().push(c),
        ));
        assert(escaped_text(s) =~= escape_char(s[0]) + escaped_text(s.drop_first()));
        assert(escaped_text(s.push(c)) =~= escaped_text(s) + escape_char(c));
    }
}

fn push_escaped(out: &mut String, s: &str)
    ensures
        final(out)@ == old(out)@ + escaped_text(s@),
{
    let ghost base = out@;
    let n: usize = s.unicode_len();
    let mut i: usize = 0;
    while i < n
        invariant
            n == s@.len(),
            i <= n,
            out@ == base + escaped_text(s@.take(i as int)),
        decreases n - i,
    {
        let c: char = s.get_char(i);
        let u: u32 = c as u32;
        if c == '"' {
            push_char(out, '\\');
            push_char(out, '"');
        } else if c == '\\' {
            push_char(out, '\\');
            push_char(out, '\\');
        } else if c == '\u{8}' {
            push_char(out, '\\');
            push_char(out, 'b');
        } else if c == '\t' {
            push_char(out, '\\');
            push_char(out, 't');
        } else if c == '\n' {
            push_char(out, '\\');
            push_char(out, 'n');
        } else if c == '\u{c}' {
            push_char(out, '\\');
            push_char(out, 'f');
        } else if c == '\r' {
            push_char(out, '\\');
            push_char(out, 'r');
        } else if u < 32 {
            push_char(out, '\\');
            push_char(out, 'u');
            push_char(out, '0');
            push_char(out, '0');
            proof {
                assert((u >> 4) < 16 && (u & 15) < 16) by (bit_vector)
                    requires
                        u < 32,
                ;
            }
            let hi: u32 = u >> 4;
            let lo: u32 = u & 15;
            push_char(out, if hi < 10 {
                ((48 + hi) as u8) as char
            } else {
                ((87 + hi) as u8) as char
            });
            push_char(out, if lo < 10 {
                ((48 + lo) as u8) as char
            } else {
                ((87 + lo) as u8) as char
            });
        } else {
            push_char(out, c);
        }
        proof {
            lemma_escaped_push(s@.take(i as int), s@[i as int]);
            assert(s@.take(i as int).push(s@[i as int]) =~= s@.take(i as int + 1));
            assert(out@ =~= base + escaped_text(s@.take(i as int + 1)));
        }
        i = i + 1;
    }
    proof {
        assert(s@.take(n as int) =~= s@);
    }
}

fn push_u64(out: &mut String, n: u64)
    ensures
        final(out)@ == old(out)@ + num_text(n),
    decreases n,
{
    if n < 10 {
        push_char(out, (48 + n as u8) as char);
        proof {
            assert(old(out)@.push((48 + n as u8) as char) =~= old(out)@ + num_text(n));
        }
    } else {
        push_u64(out, n / 10);
        push_char(out, (48 + (n % 10) as u8) as char);
        proof {
            assert(old(out)@ + num_text(n / 10) + num_text(n % 10) =~= old(out)@ + num_text(n));
            assert((old(out)@ + num_text(n / 10)).push((48 + (n % 10) as u8) as char) =~= old(
                out,
            )@ + num_text(n));
        }
    }
}

/// Renders a JSON value in its compact form, the shape in which a nested
/// `args` or `info` value, or an object in an event's data, is kept as an
/// opaque string.
pub fn json_to_string(v: &JsonValue) -> (r: String)
    ensures
        r@ == json_text(*v),
{
    let mut out = String::new();
    push_json(&mut out, v);
    out
}

fn push_json(out: &mut String, v: &JsonValue)
    ensures
        final(out)@ == old(out)@ + json_text(*v),
    decreases *v,
{
    let ghost base = out@;
    match v {
        JsonValue::Null => {
            out.append("null");
        },
        JsonValue::Bool(b) => {
            if *b {
                out.append("true");
            } else {
                out.append("false");
            }
        },
        JsonValue::Num(n) => {
            push_u64(out, *n);
        },
        JsonValue::Str(s) => {
            push_char(out, '"');
            push_escaped(out, s.as_str());
            push_char(out, '"');
            proof {
                assert(out@ =~= base + str_text(s@));
            }
        },
        JsonValue::Arr(vs) => {
            push_char(out, '[');
            push_arr(out, vs.as_slice());
            push_char(out, ']');
            proof {
                assert(out@ =~= base + json_text(*v));
            }
        },
        JsonValue::Obj(fs) => {
            push_char(out, '{');
            push_obj(out, fs.as_slice());
            push_char(out, '}');
            proof {
                assert(out@ =~= base + json_text(*v));
            }
        },
    }
}

fn push_arr(out: &mut String, items: &[JsonValue])
    ensures
        final(out)@ == old(out)@ + arr_text(items@),
    decreases items@,
{
    if items.len() == 0 {
        proof {
            assert(out@ =~= old(out)@ + arr_text(items@));
        }
    } else {
        push_json(out, vstd::slice::slice_index_get(items, 0));
        if items.len() > 1 {
            push_char(out, ',');
            let rest: &[JsonValue] = vstd::slice::slice_subrange(items, 1, items.len());
            proof {
                assert(rest@ =~= items@.drop_first());
            }
            push_arr(out, rest);
            proof {
                assert(out@ =~= old(out)@ + arr_text(items@));
            }
        } else {
            proof {
                assert(out@ =~= old(out)@ + arr_text(items@));
            }
        }
    }
}

fn push_obj(out: &mut String, fields: &[(String, JsonValue)])
    ensures
        final(out)@ == old(out)@ + obj_text(fields@),
    decreases fields@,
{
    if fields.len() == 0 {
        proof {
            assert(out@ =~= old(out)@ + obj_text(fields@));
        }
    } else {
        let field: &(String, JsonValue) = vstd::slice::slice_index_get(fields, 0);
        push_char(out, '"');
        push_escaped(out, field.0.as_str());
        push_char(out, '"');
        push_char(out, ':');
        push_json(out, &field.1);
        if fields.len() > 1 {
            push_char(out, ',');
            let rest: &[(String, JsonValue)] = vstd::slice::slice_subrange(
                fields,
                1,
                fields.len(),
            );
            proof {
                assert(rest@ =~= fields@.drop_first());
            }
            push_obj(out, rest);
            proof {
                assert(out@ =~= old(out)@ + obj_text(fields@));
            }
        } else {
            proof {
                assert(out@ =~= old(out)@ + obj_text(fields@));
            }
        }
    }
}

/// True of a decimal digit character.
pub open spec fn is_dec_digit(c: char) -> bool {
    48 <= (c as u32) && (c as u32) <= 57
}

/// True when every character of the sequence is a decimal digit.
pub open spec fn all_dec_digits(s: Seq<char>) -> bool {
    forall|i: int| 0 <= i < s.len() ==> is_dec_digit(#[trigger] s[i])
}

/// The value of a sequence of decimal digit characters.
pub open spec fn digits_val(s: Seq<char>) -> int
    decreases s.len(),
{
    if s.len() == 0 {
        0
    } else {
        digits_val(s.drop_last()) * 10 + (s.last() as u32 - 48)
    }
}

proof fn lemma_digits_val_nonneg(s: Seq<char>)
    requires
        all_dec_digits(s),
    ensures
        digits_val(s) >= 0,
    decreases s.len(),
{
    if s.len() > 0 {
        assert(all_dec_digits(s.drop_last())) by {
            assert(forall|i: int|
                0 <= i < s.drop_last().len() ==> #[trigger] s.drop_last()[i] == s[i]);
        }
        lemma_digits_val_nonneg(s.drop_last());
    }
}

proof fn lemma_digits_prefix_le(s: Seq<char>, k: int)
    requires
        all_dec_digits(s),
        0 <= k <= s.len(),
    ensures
        digits_val(s.take(k)) <= digits_val(s),
    decreases s.len() - k,
{
    if k < s.len() {
        assert(s.take(k + 1).drop_last() =~= s.take(k));
        assert(s.take(k + 1).last() == s[k]);
        assert(all_dec_digits(s.take(k))) by {
            assert(forall|i: int| 0 <= i < k ==> #[trigger] s.take(k)[i] == s[i]);
        }
        lemma_digits_val_nonneg(s.take(k));
        assert(digits_val(s.take(k)) <= digits_val(s.take(k + 1)));
        lemma_digits_prefix_le(s, k + 1);
    } else {
        assert(s.take(k) =~= s);
    }
}

/// Parses a string-encoded unsigned integer, as the head endpoint and the
/// backfill start height give them: decimal digits only, rejected when
/// empty, when any character is not a digit, or when the value does not fit.
pub fn parse_u64(s: &str) -> (r: Option<u64>)
    ensures
        (r is Some) == (s@.len() > 0 && all_dec_digits(s@) && digits_val(s@) <= u64::MAX),
        r matches Some(n) ==> n == digits_val(s@),
{
    let n_chars: usize = s.unicode_len();
    if n_chars == 0 {
        return Option::None;
    }
    let mut acc: u64 = 0;
    let mut i: usize = 0;
    while i < n_chars
        invariant
            n_chars == s@.len(),
            0 < n_chars,
            i <= n_chars,
            all_dec_digits(s@.take(i as int)),
            acc == digits_val(s@.take(i as int)),
        decreases n_chars - i,
    {
        let c: char = s.get_char(i);
        let u: u32 = c as u32;
        if u < 48 || u > 57 {
            proof {
                assert(!is_dec_digit(s@[i as int]));
            }
            return Option::None;
        }
        let d: u64 = (u - 48) as u64;
        proof {
            assert(s@.take(i as int + 1).drop_last() =~= s@.take(i as int));
            assert(s@.take(i as int + 1).last() == s@[i as int]);
            assert(all_dec_digits(s@.take(i as int + 1))) by {
                assert(forall|j: int|
                    0 <= j < i as int + 1 ==> #[trigger] s@.take(i as int + 1)[j] == s@[j]);
            }
        }
        if acc > 1844674407370955161u64 || (acc == 1844674407370955161u64 && d > 5) {
            proof {
                assert(digits_val(s@.take(i as int + 1)) > u64::MAX);
                if all_dec_digits(s@) {
                    lemma_digits_prefix_le(s@, i as int + 1);
                }
            }
            return Option::None;
        }
        acc = acc * 10 + d;
        i = i + 1;
    }
    proof {
        assert(s@.take(n_chars as int) =~= s@);
    }
    Option::Some(acc)
}

/// The first member of an object carrying the given key, if any.
pub open spec fn spec_obj_get(fields: Seq<(String, JsonValue)>, key: Seq<char>) -> Option<
    JsonValue,
>
    decreases fields.len(),
{
    if fields.len() == 0 {
        Option::None
    } else if fields[0].0@ == key {
        Option::Some(fields[0].1)
    } else {
        spec_obj_get(fields.drop_first(), key)
    }
}

/// Looks a key up in an object's members.
pub fn obj_get<'a>(fields: &'a Vec<(String, JsonValue)>, key: &String) -> (r: Option<
    &'a JsonValue,
>)
    ensures
        (r is Some) == (spec_obj_get(fields@, key@) is Some),
        r matches Some(v) ==> spec_obj_get(fields@, key@) == Option::Some(*v),
{
    let mut i: usize = 0;
    proof {
        assert(fields@.skip(0) =~= fields@);
    }
    while i < fields.len()
        invariant
            i <= fields@.len(),
            spec_obj_get(fields@, key@) == spec_obj_get(fields@.skip(i as int), key@),
        decreases fields@.len() - i,
    {
        proof {
            assert(fields@.skip(i as int).drop_first() =~= fields@.skip(i as int + 1));
            assert(fields@.skip(i as int)[0] == fields@[i as int]);
        }
        if fields[i].0 == *key {
            return Option::Some(&fields[i].1);
        }
        i = i + 1;
    }
    proof {
        assert(fields@.skip(fields@.len() as int).len() == 0);
    }
    Option::None
}

} // verus!
