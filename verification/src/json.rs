//! The boundary to the JSON library, and the crate's own JSON string framing.
//!
//! Parsing arbitrary JSON text is delegated to `serde_json`; each call the
//! logic makes goes through one trusted wrapper here, whose contract names
//! the call's result. Everything built on top of these wrappers — reading a
//! typed field out of an object, escaping a string into a JSON literal — is
//! verified.

use vstd::prelude::*;

verus! {

#[verifier::external_type_specification]
#[verifier::external_body]
pub struct ExJsonValue(serde_json::Value);

/// The JSON tree that `serde_json::from_str` reads out of a text, `None`
/// where the call fails: malformed text, or JSON nested beyond the parser's
/// depth limit.
pub uninterp spec fn parsed_json(s: Seq<char>) -> Option<serde_json::Value>;

/// The member of a JSON object under a key, as `serde_json::Value::get`
/// returns it: `None` for a missing key or a non-object.
pub uninterp spec fn obj_field(v: serde_json::Value, key: Seq<char>) -> Option<
    serde_json::Value,
>;

/// The unsigned integer a JSON value holds, as `serde_json::Value::as_u64`
/// returns it: `None` for anything but an integral number in range.
pub uninterp spec fn as_u64_of(v: serde_json::Value) -> Option<u64>;

/// The text a JSON string value holds, as `serde_json::Value::as_str`
/// returns it: `None` for anything but a string.
pub uninterp spec fn str_of(v: serde_json::Value) -> Option<Seq<char>>;

/// Whether a JSON value is the null value, as `serde_json::Value::is_null`
/// returns it.
pub uninterp spec fn is_null_of(v: serde_json::Value) -> bool;

/// Relies on `serde_json::from_str::<Value>`: the parse is a function of the
/// text alone.
#[verifier::external_body]
pub(crate) fn json_parse(text: &str) -> (r: Option<serde_json::Value>)
    ensures
        r == parsed_json(text@),
{
    serde_json::from_str(text).ok()
}

/// Relies on `serde_json::Value::get` with a string index: looks the key up
/// in an object, `None` for a missing key or a non-object.
#[verifier::external_body]
pub(crate) fn json_get<'a>(v: &'a serde_json::Value, key: &str) -> (r: Option<
    &'a serde_json::Value,
>)
    ensures
        match r {
            Option::Some(f) => obj_field(*v, key@) == Option::Some(*f),
            Option::None => obj_field(*v, key@) is None,
        },
{
    v.get(key)
}

/// Relies on `serde_json::Value::as_u64`.
#[verifier::external_body]
pub(crate) fn json_as_u64(v: &serde_json::Value) -> (r: Option<u64>)
    ensures
        r == as_u64_of(*v),
{
    v.as_u64()
}

/// Relies on `serde_json::Value::as_str`; the borrowed text is copied out.
#[verifier::external_body]
pub(crate) fn json_as_str(v: &serde_json::Value) -> (r: Option<String>)
    ensures
        r.deep_view() == str_of(*v),
{
    match v.as_str() {
        Some(s) => Some(s.to_owned()),
        None => None,
    }
}

/// Relies on `serde_json::Value::is_null`.
#[verifier::external_body]
pub(crate) fn json_is_null(v: &serde_json::Value) -> (r: bool)
    ensures
        r == is_null_of(*v),
{
    v.is_null()
}

/// Relies on `<serde_json::Value as Clone>::clone`: the copy is the same
/// value.
#[verifier::external_body]
pub(crate) fn json_clone(v: &serde_json::Value) -> (r: serde_json::Value)
    ensures
        r == *v,
{
    v.clone()
}

/// Relies on `String::push`: appends the one character.
pub assume_specification [ String::push ](s: &mut String, c: char)
    ensures
        final(s)@ == old(s)@.push(c),
;

/// What reading one typed field out of a JSON object can come to: the key is
/// absent, the key is there but holds the wrong kind of value, or the typed
/// value is there.
pub enum FieldRead<A> {
    Absent,
    Wrong,
    Present(A),
}

/// The unsigned-integer field of an object, required to be a number.
pub open spec fn spec_field_u64(v: serde_json::Value, key: Seq<char>) -> FieldRead<u64> {
    match obj_field(v, key) {
        Option::None => FieldRead::Absent,
        Option::Some(f) => match as_u64_of(f) {
            Option::Some(n) => FieldRead::Present(n),
            Option::None => FieldRead::Wrong,
        },
    }
}

/// The optional unsigned-integer field of an object: an absent key and a
/// null value both read as `None`.
pub open spec fn spec_field_opt_u64(v: serde_json::Value, key: Seq<char>) -> FieldRead<
    Option<u64>,
> {
    match obj_field(v, key) {
        Option::None => FieldRead::Present(Option::None),
        Option::Some(f) => if is_null_of(f) {
            FieldRead::Present(Option::None)
        } else {
            match as_u64_of(f) {
                Option::Some(n) => FieldRead::Present(Option::Some(n)),
                Option::None => FieldRead::Wrong,
            }
        },
    }
}

/// The string field of an object, required to be a string.
pub open spec fn spec_field_str(v: serde_json::Value, key: Seq<char>) -> FieldRead<Seq<char>> {
    match obj_field(v, key) {
        Option::None => FieldRead::Absent,
        Option::Some(f) => match str_of(f) {
            Option::Some(s) => FieldRead::Present(s),
            Option::None => FieldRead::Wrong,
        },
    }
}

/// The optional string field of an object: an absent key and a null value
/// both read as `None`.
pub open spec fn spec_field_opt_str(v: serde_json::Value, key: Seq<char>) -> FieldRead<
    Option<Seq<char>>,
> {
    match obj_field(v, key) {
        Option::None => FieldRead::Present(Option::None),
        Option::Some(f) => if is_null_of(f) {
            FieldRead::Present(Option::None)
        } else {
            match str_of(f) {
                Option::Some(s) => FieldRead::Present(Option::Some(s)),
                Option::None => FieldRead::Wrong,
            }
        },
    }
}

pub(crate) fn field_u64(v: &serde_json::Value, key: &str) -> (r: FieldRead<u64>)
    ensures
        r == spec_field_u64(*v, key@),
{
    match json_get(v, key) {
        Option::None => FieldRead::Absent,
        Option::Some(f) => match json_as_u64(f) {
            Option::Some(n) => FieldRead::Present(n),
            Option::None => FieldRead::Wrong,
        },
    }
}

pub(crate) fn field_opt_u64(v: &serde_json::Value, key: &str) -> (r: FieldRead<Option<u64>>)
    ensures
        r == spec_field_opt_u64(*v, key@),
{
    match json_get(v, key) {
        Option::None => FieldRead::Present(Option::None),
        Option::Some(f) => if json_is_null(f) {
            FieldRead::Present(Option::None)
        } else {
            match json_as_u64(f) {
                Option::Some(n) => FieldRead::Present(Option::Some(n)),
                Option::None => FieldRead::Wrong,
            }
        },
    }
}

pub(crate) fn field_str(v: &serde_json::Value, key: &str) -> (r: FieldRead<String>)
    ensures
        match r {
            FieldRead::Present(s) => spec_field_str(*v, key@) == FieldRead::Present(s@),
            FieldRead::Absent => spec_field_str(*v, key@) is Absent,
            FieldRead::Wrong => spec_field_str(*v, key@) is Wrong,
        },
{
    match json_get(v, key) {
        Option::None => FieldRead::Absent,
        Option::Some(f) => match json_as_str(f) {
            Option::Some(s) => FieldRead::Present(s),
            Option::None => FieldRead::Wrong,
        },
    }
}

pub(crate) fn field_opt_str(v: &serde_json::Value, key: &str) -> (r: FieldRead<Option<String>>)
    ensures
        match r {
            FieldRead::Present(s) => spec_field_opt_str(*v, key@) == FieldRead::Present(
                s.deep_view(),
            ),
            FieldRead::Absent => spec_field_opt_str(*v, key@) is Absent,
            FieldRead::Wrong => spec_field_opt_str(*v, key@) is Wrong,
        },
{
    match json_get(v, key) {
        Option::None => FieldRead::Present(Option::None),
        Option::Some(f) => if json_is_null(f) {
            FieldRead::Present(Option::None)
        } else {
            match json_as_str(f) {
                Option::Some(s) => FieldRead::Present(Option::Some(s)),
                Option::None => FieldRead::Wrong,
            }
        },
    }
}

/// One hexadecimal digit, lower case.
pub open spec fn hex_digit(n: u32) -> char {
    if n == 0 {
        '0'
    } else if n == 1 {
        '1'
    } else if n == 2 {
        '2'
    } else if n == 3 {
        '3'
    } else if n == 4 {
        '4'
    } else if n == 5 {
        '5'
    } else if n == 6 {
        '6'
    } else if n == 7 {
        '7'
    } else if n == 8 {
        '8'
    } else if n == 9 {
        '9'
    } else if n == 10 {
        'a'
    } else if n == 11 {
        'b'
    } else if n == 12 {
        'c'
    } else if n == 13 {
        'd'
    } else if n == 14 {
        'e'
    } else {
        'f'
    }
}

/// How one character reads inside a JSON string literal: quote and backslash
/// are escaped, the common control characters get their short escapes, any
/// other control character its four-digit escape, and everything else stands
/// as itself.
pub open spec fn esc_char(c: char) -> Seq<char> {
    if c == '"' {
        seq!['\\', '"']
    } else if c == '\\' {
        seq!['\\', '\\']
    } else if c == '\n' {
        seq!['\\', 'n']
    } else if c == '\r' {
        seq!['\\', 'r']
    } else if c == '\t' {
        seq!['\\', 't']
    } else if (c as u32) < 32 {
        seq!['\\', 'u', '0', '0', hex_digit((c as u32) / 16), hex_digit((c as u32) % 16)]
    } else {
        seq![c]
    }
}

/// A whole text escaped for use inside a JSON string literal.
pub open spec fn json_escaped(s: Seq<char>) -> Seq<char>
    decreases s.len(),
{
    if s.len() == 0 {
        Seq::empty()
    } else {
        esc_char(s[0]) + json_escaped(s.drop_first())
    }
}

proof fn lemma_json_escaped_snoc(s: Seq<char>, c: char)
    ensures
        json_escaped(s.push(c)) == json_escaped(s) + esc_char(c),
    decreases s.len(),
{
    if s.len() == 0 {
        assert(s.push(c).drop_first() =~= Seq::<char>::empty());
        assert(s.push(c)[0] == c);
        assert(json_escaped(Seq::<char>::empty()) =~= Seq::<char>::empty());
        assert(json_escaped(s.push(c)) == esc_char(c) + json_escaped(s.push(c).drop_first()));
        assert(esc_char(c) + Seq::<char>::empty() =~= esc_char(c));
        assert(json_escaped(s) =~= Seq::<char>::empty());
        assert(json_escaped(s) + esc_char(c) =~= esc_char(c));
    } else {
        assert(s.push(c).drop_first() =~= s.drop_first().push(c));
        lemma_json_escaped_snoc(s.drop_first(), c);
        assert(s.push(c)[0] == s[0]);
        assert(json_escaped(s.push(c)) == esc_char(s[0]) + (json_escaped(s.drop_first())
            + esc_char(c)));
        assert(esc_char(s[0]) + (json_escaped(s.drop_first()) + esc_char(c)) =~= (esc_char(s[0])
            + json_escaped(s.drop_first())) + esc_char(c));
    }
}

fn hex_digit_exec(n: u32) -> (r: char)
    requires
        n < 16,
    ensures
        r == hex_digit(n),
{
    if n == 0 {
        '0'
    } else if n == 1 {
        '1'
    } else if n == 2 {
        '2'
    } else if n == 3 {
        '3'
    } else if n == 4 {
        '4'
    } else if n == 5 {
        '5'
    } else if n == 6 {
        '6'
    } else if n == 7 {
        '7'
    } else if n == 8 {
        '8'
    } else if n == 9 {
        '9'
    } else if n == 10 {
        'a'
    } else if n == 11 {
        'b'
    } else if n == 12 {
        'c'
    } else if n == 13 {
        'd'
    } else if n == 14 {
        'e'
    } else {
        'f'
    }
}

/// Appends `s` to `out`, escaped for the inside of a JSON string literal.
pub fn append_json_escaped(out: &mut String, s: &str)
    ensures
        final(out)@ == old(out)@ + json_escaped(s@),
{
    let n = s.unicode_len();
    let mut i: usize = 0;
    while i < n
        invariant
            n == s@.len(),
            i <= n,
            out@ == old(out)@ + json_escaped(s@.take(i as int)),
        decreases n - i,
    {
        let c = s.get_char(i);
        proof {
            assert(s@.take(i + 1 as int) =~= s@.take(i as int).push(c));
            lemma_json_escaped_snoc(s@.take(i as int), c);
        }
        let ghost before = out@;
        if c == '"' {
            out.push('\\');
            out.push('"');
            assert(out@ =~= before + esc_char(c));
        } else if c == '\\' {
            out.push('\\');
            out.push('\\');
            assert(out@ =~= before + esc_char(c));
        } else if c == '\n' {
            out.push('\\');
            out.push('n');
            assert(out@ =~= before + esc_char(c));
        } else if c == '\r' {
            out.push('\\');
            out.push('r');
            assert(out@ =~= before + esc_char(c));
        } else if c == '\t' {
            out.push('\\');
            out.push('t');
            assert(out@ =~= before + esc_char(c));
        } else if (c as u32) < 32 {
            let code = c as u32;
            out.push('\\');
            out.push('u');
            out.push('0');
            out.push('0');
            out.push(hex_digit_exec(code / 16));
            out.push(hex_digit_exec(code % 16));
            assert(out@ =~= before + esc_char(c));
        } else {
            out.push(c);
            assert(out@ =~= before + esc_char(c));
        }
        i = i + 1;
        assert(out@ =~= old(out)@ + json_escaped(s@.take(i as int)));
    }
    assert(s@.take(n as int) =~= s@);
}

} // verus!
