//! The JSON value model this library works on, together with its
//! mathematical view and a verified encoder to wire bytes.
//!
//! Numbers are modelled as integers: `UintNum` carries any non-negative
//! number and `IntNum` a negative one, so every `u64` request id and every
//! `i64` error code is representable. Objects keep their members in order
//! as a list of key/value pairs.

use vstd::prelude::*;

verus! {

/// A JSON value, as built and read by this library.
#[derive(Debug, PartialEq, Eq)]
pub enum JsonValue {
    Null,
    Bool(bool),
    UintNum(u64),
    IntNum(i64),
    Str(String),
    Arr(Vec<JsonValue>),
    Obj(Vec<(String, JsonValue)>),
}

/// The mathematical view of a JSON value: strings become sequences of
/// characters and both number shapes collapse into one unbounded integer.
pub enum JsonData {
    Null,
    Bool(bool),
    Num(int),
    Str(Seq<char>),
    Arr(Seq<JsonData>),
    Obj(Seq<(Seq<char>, JsonData)>),
}

/// The view of an executable JSON value.
pub open spec fn jdata(v: JsonValue) -> JsonData
    decreases v,
{
    match v {
        JsonValue::Null => JsonData::Null,
        JsonValue::Bool(b) => JsonData::Bool(b),
        JsonValue::UintNum(u) => JsonData::Num(u as int),
        JsonValue::IntNum(i) => JsonData::Num(i as int),
        JsonValue::Str(s) => JsonData::Str(s@),
        JsonValue::Arr(a) => JsonData::Arr(jdata_seq(a@)),
        JsonValue::Obj(o) => JsonData::Obj(jdata_members(o@)),
    }
}

/// The view of a sequence of JSON values, element by element.
pub open spec fn jdata_seq(a: Seq<JsonValue>) -> Seq<JsonData>
    decreases a,
{
    if a.len() == 0 {
        Seq::empty()
    } else {
        seq![jdata(a[0])] + jdata_seq(a.drop_first())
    }
}

/// The view of a sequence of object members, member by member.
pub open spec fn jdata_members(o: Seq<(String, JsonValue)>) -> Seq<(Seq<char>, JsonData)>
    decreases o,
{
    if o.len() == 0 {
        Seq::empty()
    } else {
        seq![(o[0].0@, jdata(o[0].1))] + jdata_members(o.drop_first())
    }
}

pub proof fn lemma_jdata_seq(a: Seq<JsonValue>)
    ensures
        jdata_seq(a).len() == a.len(),
        forall|i: int| 0 <= i < a.len() ==> jdata_seq(a)[i] == jdata(a[i]),
    decreases a,
{
    if a.len() > 0 {
        lemma_jdata_seq(a.drop_first());
    }
}

pub proof fn lemma_jdata_members(o: Seq<(String, JsonValue)>)
    ensures
        jdata_members(o).len() == o.len(),
        forall|i: int| 0 <= i < o.len() ==> jdata_members(o)[i] == (o[i].0@, jdata(o[i].1)),
    decreases o,
{
    if o.len() > 0 {
        lemma_jdata_members(o.drop_first());
    }
}

/// The first member of `members` whose key is `key`, if any.
pub open spec fn lookup(members: Seq<(Seq<char>, JsonData)>, key: Seq<char>) -> Option<JsonData>
    decreases members,
{
    if members.len() == 0 {
        Option::None
    } else if members[0].0 == key {
        Option::Some(members[0].1)
    } else {
        lookup(members.drop_first(), key)
    }
}

/// The decimal digits of a non-negative integer, most significant first.
pub open spec fn dec_digits(n: nat) -> Seq<u8>
    decreases n,
{
    if n < 10 {
        seq![(48 + n) as u8]
    } else {
        dec_digits(n / 10) + seq![(48 + n % 10) as u8]
    }
}

/// The byte encoding of an integer: a minus sign and then the digits of
/// its magnitude.
pub open spec fn encoded_num(n: int) -> Seq<u8> {
    if n < 0 {
        seq![45u8] + dec_digits((-n) as nat)
    } else {
        dec_digits(n as nat)
    }
}

/// The lower-case hex digit with value `d`.
pub open spec fn hex_digit(d: int) -> u8 {
    if d < 10 {
        (48 + d) as u8
    } else {
        (87 + d) as u8
    }
}

/// Four hex digits for a value below `0x10000`.
pub open spec fn hex4(n: int) -> Seq<u8> {
    seq![
        hex_digit(n / 4096 % 16),
        hex_digit(n / 256 % 16),
        hex_digit(n / 16 % 16),
        hex_digit(n % 16),
    ]
}

/// A `\u` escape for the character with code `n`; code points beyond the
/// basic plane become a surrogate pair, as JSON requires.
pub open spec fn u_escape(n: int) -> Seq<u8> {
    if n < 0x10000 {
        seq![92u8, 117u8] + hex4(n)
    } else {
        seq![92u8, 117u8] + hex4(0xD800 + (n - 0x10000) / 1024) + seq![92u8, 117u8] + hex4(
            0xDC00 + (n - 0x10000) % 1024,
        )
    }
}

/// The bytes a single character contributes to an encoded string: printable
/// ASCII stands for itself, quote and backslash get a backslash, and
/// everything else is written as a `\u` escape.
pub open spec fn escaped_char(c: char) -> Seq<u8> {
    if c == '"' {
        seq![92u8, 34u8]
    } else if c == '\\' {
        seq![92u8, 92u8]
    } else if (c as u32) < 0x20 || (c as u32) > 0x7e {
        u_escape(c as int)
    } else {
        seq![c as u8]
    }
}

/// The bytes of an encoded string body, character by character.
pub open spec fn escaped_str(s: Seq<char>) -> Seq<u8>
    decreases s,
{
    if s.len() == 0 {
        Seq::empty()
    } else {
        escaped_char(s[0]) + escaped_str(s.drop_first())
    }
}

/// The canonical byte encoding of a JSON value: no whitespace, object
/// members in stored order, strings escaped by `escaped_str`.
pub open spec fn encoded(d: JsonData) -> Seq<u8>
    decreases d,
{
    match d {
        JsonData::Null => seq![110u8, 117u8, 108u8, 108u8],
        JsonData::Bool(b) => if b {
            seq![116u8, 114u8, 117u8, 101u8]
        } else {
            seq![102u8, 97u8, 108u8, 115u8, 101u8]
        },
        JsonData::Num(n) => encoded_num(n),
        JsonData::Str(s) => seq![34u8] + escaped_str(s) + seq![34u8],
        JsonData::Arr(a) => seq![91u8] + encoded_items(a) + seq![93u8],
        JsonData::Obj(o) => seq![123u8] + encoded_members(o) + seq![125u8],
    }
}

/// The body of an encoded array: items separated by commas.
pub open spec fn encoded_items(items: Seq<JsonData>) -> Seq<u8>
    decreases items,
{
    if items.len() == 0 {
        Seq::empty()
    } else {
        encoded(items[0]) + encoded_more_items(items.drop_first())
    }
}

/// The body of an encoded array after its first item: a comma before
/// every item.
pub open spec fn encoded_more_items(items: Seq<JsonData>) -> Seq<u8>
    decreases items,
{
    if items.len() == 0 {
        Seq::empty()
    } else {
        seq![44u8] + encoded(items[0]) + encoded_more_items(items.drop_first())
    }
}

/// One encoded object member: the quoted key, a colon, the value.
pub open spec fn encoded_member(m: (Seq<char>, JsonData)) -> Seq<u8>
    decreases m,
{
    seq![34u8] + escaped_str(m.0) + seq![34u8, 58u8] + encoded(m.1)
}

/// The body of an encoded object: members separated by commas.
pub open spec fn encoded_members(members: Seq<(Seq<char>, JsonData)>) -> Seq<u8>
    decreases members,
{
    if members.len() == 0 {
        Seq::empty()
    } else {
        encoded_member(members[0]) + encoded_more_members(members.drop_first())
    }
}

/// The body of an encoded object after its first member.
pub open spec fn encoded_more_members(members: Seq<(Seq<char>, JsonData)>) -> Seq<u8>
    decreases members,
{
    if members.len() == 0 {
        Seq::empty()
    } else {
        seq![44u8] + encoded_member(members[0]) + encoded_more_members(members.drop_first())
    }
}

pub proof fn lemma_escaped_str_push(s: Seq<char>, c: char)
    ensures
        escaped_str(s.push(c)) == escaped_str(s) + escaped_char(c),
    decreases s,
{
    if s.len() == 0 {
        reveal_with_fuel(escaped_str, 2);
        assert(s.push(c)[0] == c);
        assert(s.push(c).drop_first() =~= Seq::<char>::empty());
        assert(escaped_str(s.push(c)) =~= escaped_char(c));
        assert(escaped_str(s) + escaped_char(c) =~= escaped_char(c));
    } else {
        assert(s.push(c).drop_first() =~= s.drop_first().push(c));
        lemma_escaped_str_push(s.drop_first(), c);
        assert(escaped_str(s.push(c)) =~= escaped_str(s) + escaped_char(c));
    }
}

pub proof fn lemma_encoded_more_items_push(items: Seq<JsonData>, x: JsonData)
    ensures
        encoded_more_items(items.push(x)) == encoded_more_items(items) + seq![44u8] + encoded(x),
    decreases items,
{
    if items.len() == 0 {
        reveal_with_fuel(encoded_more_items, 2);
        assert(items.push(x).drop_first() =~= Seq::<JsonData>::empty());
        assert(encoded_more_items(items.push(x)) =~= encoded_more_items(items) + seq![44u8]
            + encoded(x));
    } else {
        assert(items.push(x).drop_first() =~= items.drop_first().push(x));
        lemma_encoded_more_items_push(items.drop_first(), x);
        assert(encoded_more_items(items.push(x)) =~= encoded_more_items(items) + seq![44u8]
            + encoded(x));
    }
}

pub proof fn lemma_encoded_items_push(items: Seq<JsonData>, x: JsonData)
    ensures
        items.len() == 0 ==> encoded_items(items.push(x)) == encoded(x),
        items.len() > 0 ==> encoded_items(items.push(x)) == encoded_items(items) + seq![44u8]
            + encoded(x),
{
    if items.len() == 0 {
        reveal_with_fuel(encoded_more_items, 2);
        assert(items.push(x).drop_first() =~= Seq::<JsonData>::empty());
        assert(encoded_items(items.push(x)) =~= encoded(x));
    } else {
        assert(items.push(x).drop_first() =~= items.drop_first().push(x));
        lemma_encoded_more_items_push(items.drop_first(), x);
        assert(encoded_items(items.push(x)) =~= encoded_items(items) + seq![44u8] + encoded(x));
    }
}

pub proof fn lemma_encoded_more_members_push(
    members: Seq<(Seq<char>, JsonData)>,
    m: (Seq<char>, JsonData),
)
    ensures
        encoded_more_members(members.push(m)) == encoded_more_members(members) + seq![44u8]
            + encoded_member(m),
    decreases members,
{
    if members.len() == 0 {
        reveal_with_fuel(encoded_more_members, 2);
        assert(members.push(m).drop_first() =~= Seq::<(Seq<char>, JsonData)>::empty());
        assert(encoded_more_members(members.push(m)) =~= encoded_more_members(members)
            + seq![44u8] + encoded_member(m));
    } else {
        assert(members.push(m).drop_first() =~= members.drop_first().push(m));
        lemma_encoded_more_members_push(members.drop_first(), m);
        assert(encoded_more_members(members.push(m)) =~= encoded_more_members(members)
            + seq![44u8] + encoded_member(m));
    }
}

pub proof fn lemma_encoded_members_push(
    members: Seq<(Seq<char>, JsonData)>,
    m: (Seq<char>, JsonData),
)
    ensures
        members.len() == 0 ==> encoded_members(members.push(m)) == encoded_member(m),
        members.len() > 0 ==> encoded_members(members.push(m)) == encoded_members(members)
            + seq![44u8] + encoded_member(m),
{
    if members.len() == 0 {
        reveal_with_fuel(encoded_more_members, 2);
        assert(members.push(m).drop_first() =~= Seq::<(Seq<char>, JsonData)>::empty());
        assert(encoded_members(members.push(m)) =~= encoded_member(m));
    } else {
        assert(members.push(m).drop_first() =~= members.drop_first().push(m));
        lemma_encoded_more_members_push(members.drop_first(), m);
        assert(encoded_members(members.push(m)) =~= encoded_members(members) + seq![44u8]
            + encoded_member(m));
    }
}

/// Writes the decimal digits of `n`.
fn write_u64(n: u64, out: &mut Vec<u8>)
    ensures
        final(out)@ == old(out)@ + dec_digits(n as nat),
    decreases n,
{
    if n < 10 {
        out.push(48 + (n as u8));
        assert(out@ =~= old(out)@ + dec_digits(n as nat));
    } else {
        write_u64(n / 10, out);
        out.push(48 + ((n % 10) as u8));
        assert(out@ =~= old(out)@ + dec_digits(n as nat));
    }
}

/// Writes the decimal encoding of `i`, sign included.
fn write_i64(i: i64, out: &mut Vec<u8>)
    ensures
        final(out)@ == old(out)@ + encoded_num(i as int),
{
    if i >= 0 {
        write_u64(i as u64, out);
    } else {
        out.push(45u8);
        let magnitude: u64 = ((-(i + 1)) as u64) + 1;
        assert(magnitude as int == -(i as int));
        write_u64(magnitude, out);
        assert(out@ =~= old(out)@ + encoded_num(i as int));
    }
}

/// Writes four hex digits for `n`, which must fit in them.
fn write_hex4(n: u32, out: &mut Vec<u8>)
    requires
        n < 0x10000,
    ensures
        final(out)@ == old(out)@ + hex4(n as int),
{
    let d0: u32 = n / 4096 % 16;
    let d1: u32 = n / 256 % 16;
    let d2: u32 = n / 16 % 16;
    let d3: u32 = n % 16;
    out.push(if d0 < 10 { 48 + (d0 as u8) } else { 87 + (d0 as u8) });
    out.push(if d1 < 10 { 48 + (d1 as u8) } else { 87 + (d1 as u8) });
    out.push(if d2 < 10 { 48 + (d2 as u8) } else { 87 + (d2 as u8) });
    out.push(if d3 < 10 { 48 + (d3 as u8) } else { 87 + (d3 as u8) });
    assert(out@ =~= old(out)@ + hex4(n as int));
}

/// Writes the escape of one string character.
fn write_escaped_char(c: char, out: &mut Vec<u8>)
    ensures
        final(out)@ == old(out)@ + escaped_char(c),
{
    let code: u32 = c as u32;
    if c == '"' {
        out.push(92u8);
        out.push(34u8);
        assert(out@ =~= old(out)@ + escaped_char(c));
    } else if c == '\\' {
        out.push(92u8);
        out.push(92u8);
        assert(out@ =~= old(out)@ + escaped_char(c));
    } else if code < 0x20 || code > 0x7e {
        if code < 0x10000 {
            out.push(92u8);
            out.push(117u8);
            write_hex4(code, out);
            assert(out@ =~= old(out)@ + escaped_char(c));
        } else {
            let rest: u32 = code - 0x10000;
            out.push(92u8);
            out.push(117u8);
            write_hex4(0xD800 + rest / 1024, out);
            out.push(92u8);
            out.push(117u8);
            write_hex4(0xDC00 + rest % 1024, out);
            assert(out@ =~= old(out)@ + escaped_char(c));
        }
    } else {
        out.push(#[verifier::truncate] (code as u8));
        assert(out@ =~= old(out)@ + escaped_char(c));
    }
}

/// Writes the escaped body of a string.
fn write_escaped(s: &str, out: &mut Vec<u8>)
    ensures
        final(out)@ == old(out)@ + escaped_str(s@),
{
    broadcast use vstd::string::next_postcondition;
    broadcast use vstd::string::axiom_spec_iter;

    let mut rest = s.chars();
    let ghost mut done: Seq<char> = Seq::empty();
    loop
        invariant
            done + vstd::std_specs::iter::IteratorSpec::remaining(&rest) == s@,
            out@ == old(out)@ + escaped_str(done),
            vstd::std_specs::iter::IteratorSpec::decrease(&rest) is Some,
        ensures
            done == s@,
        decreases vstd::std_specs::iter::IteratorSpec::decrease(&rest)->0,
    {
        match rest.next() {
            Option::Some(c) => {
                proof {
                    lemma_escaped_str_push(done, c);
                }
                write_escaped_char(c, out);
                proof {
                    done = done.push(c);
                    assert(done + vstd::std_specs::iter::IteratorSpec::remaining(&rest) =~= s@);
                }
            },
            Option::None => {
                proof {
                    assert(done =~= s@);
                }
                break ;
            },
        }
    }
}

/// Writes the canonical encoding of `v`.
pub fn write_json(v: &JsonValue, out: &mut Vec<u8>)
    ensures
        final(out)@ == old(out)@ + encoded(jdata(*v)),
    decreases *v,
{
    match v {
        JsonValue::Null => {
            out.push(110u8);
            out.push(117u8);
            out.push(108u8);
            out.push(108u8);
            assert(out@ =~= old(out)@ + encoded(jdata(*v)));
        },
        JsonValue::Bool(b) => {
            if *b {
                out.push(116u8);
                out.push(114u8);
                out.push(117u8);
                out.push(101u8);
            } else {
                out.push(102u8);
                out.push(97u8);
                out.push(108u8);
                out.push(115u8);
                out.push(101u8);
            }
            assert(out@ =~= old(out)@ + encoded(jdata(*v)));
        },
        JsonValue::UintNum(u) => {
            write_u64(*u, out);
        },
        JsonValue::IntNum(i) => {
            write_i64(*i, out);
        },
        JsonValue::Str(s) => {
            out.push(34u8);
            write_escaped(s.as_str(), out);
            out.push(34u8);
            assert(out@ =~= old(out)@ + encoded(jdata(*v)));
        },
        JsonValue::Arr(a) => {
            out.push(91u8);
            let n = a.len();
            let mut i: usize = 0;
            while i < n
                invariant
                    n == a@.len(),
                    i <= n,
                    *v == JsonValue::Arr(*a),
                    out@ == old(out)@ + seq![91u8] + encoded_items(jdata_seq(a@.subrange(0, i as int))),
                decreases n - i,
            {
                proof {
                    assert(decreases_to!(*v => v->Arr_0));
                    assert(decreases_to!(v->Arr_0 => v->Arr_0@));
                    assert(decreases_to!(v->Arr_0@ => v->Arr_0@[i as int]));
                    assert(decreases_to!(*v => a@[i as int]));
                }
                if i > 0 {
                    out.push(44u8);
                }
                write_json(&a[i], out);
                proof {
                    let prefix = a@.subrange(0, i as int);
                    assert(a@.subrange(0, i as int + 1) =~= prefix.push(a@[i as int]));
                    lemma_jdata_seq(prefix);
                    lemma_jdata_seq(prefix.push(a@[i as int]));
                    lemma_jdata_seq_push(prefix, a@[i as int]);
                    lemma_encoded_items_push(jdata_seq(prefix), jdata(a@[i as int]));
                    assert(out@ =~= old(out)@ + seq![91u8] + encoded_items(
                        jdata_seq(a@.subrange(0, i as int + 1)),
                    ));
                }
                i = i + 1;
            }
            out.push(93u8);
            proof {
                assert(a@.subrange(0, n as int) =~= a@);
                assert(out@ =~= old(out)@ + encoded(jdata(*v)));
            }
        },
        JsonValue::Obj(o) => {
            out.push(123u8);
            let n = o.len();
            let mut i: usize = 0;
            while i < n
                invariant
                    n == o@.len(),
                    i <= n,
                    *v == JsonValue::Obj(*o),
                    out@ == old(out)@ + seq![123u8] + encoded_members(
                        jdata_members(o@.subrange(0, i as int)),
                    ),
                decreases n - i,
            {
                proof {
                    assert(decreases_to!(*v => v->Obj_0));
                    assert(decreases_to!(v->Obj_0 => v->Obj_0@));
                    assert(decreases_to!(v->Obj_0@ => v->Obj_0@[i as int]));
                    assert(decreases_to!(*v => o@[i as int].1));
                }
                if i > 0 {
                    out.push(44u8);
                }
                out.push(34u8);
                write_escaped(o[i].0.as_str(), out);
                out.push(34u8);
                out.push(58u8);
                write_json(&o[i].1, out);
                proof {
                    let prefix = o@.subrange(0, i as int);
                    let m = o@[i as int];
                    assert(o@.subrange(0, i as int + 1) =~= prefix.push(m));
                    lemma_jdata_members_push(prefix, m);
                    lemma_encoded_members_push(jdata_members(prefix), (m.0@, jdata(m.1)));
                    assert(out@ =~= old(out)@ + seq![123u8] + encoded_members(
                        jdata_members(o@.subrange(0, i as int + 1)),
                    ));
                }
                i = i + 1;
            }
            out.push(125u8);
            proof {
                assert(o@.subrange(0, n as int) =~= o@);
                assert(out@ =~= old(out)@ + encoded(jdata(*v)));
            }
        },
    }
}

pub proof fn lemma_jdata_seq_push(a: Seq<JsonValue>, x: JsonValue)
    ensures
        jdata_seq(a.push(x)) == jdata_seq(a).push(jdata(x)),
    decreases a,
{
    if a.len() == 0 {
        reveal_with_fuel(jdata_seq, 2);
        assert(a.push(x).drop_first() =~= Seq::<JsonValue>::empty());
        assert(jdata_seq(a.push(x)) =~= jdata_seq(a).push(jdata(x)));
    } else {
        assert(a.push(x).drop_first() =~= a.drop_first().push(x));
        lemma_jdata_seq_push(a.drop_first(), x);
        assert(jdata_seq(a.push(x)) =~= jdata_seq(a).push(jdata(x)));
    }
}

pub proof fn lemma_jdata_members_push(o: Seq<(String, JsonValue)>, m: (String, JsonValue))
    ensures
        jdata_members(o.push(m)) == jdata_members(o).push((m.0@, jdata(m.1))),
    decreases o,
{
    if o.len() == 0 {
        reveal_with_fuel(jdata_members, 2);
        assert(o.push(m).drop_first() =~= Seq::<(String, JsonValue)>::empty());
        assert(jdata_members(o.push(m)) =~= jdata_members(o).push((m.0@, jdata(m.1))));
    } else {
        assert(o.push(m).drop_first() =~= o.drop_first().push(m));
        lemma_jdata_members_push(o.drop_first(), m);
        assert(jdata_members(o.push(m)) =~= jdata_members(o).push((m.0@, jdata(m.1))));
    }
}

/// The canonical encoding of `v` as a fresh byte buffer.
pub fn json_to_bytes(v: &JsonValue) -> (r: Vec<u8>)
    ensures
        r@ == encoded(jdata(*v)),
{
    let mut out: Vec<u8> = Vec::new();
    write_json(v, &mut out);
    out
}

/// Looks a key up among an object's members; the first match wins.
pub fn get_member<'a>(members: &'a Vec<(String, JsonValue)>, key: &String) -> (r: Option<
    &'a JsonValue,
>)
    ensures
        match r {
            Option::Some(found) => lookup(jdata_members(members@), key@) == Option::Some(
                jdata(*found),
            ),
            Option::None => lookup(jdata_members(members@), key@) is None,
        },
{
    let n = members.len();
    proof {
        assert(members@.subrange(0, n as int) =~= members@);
    }
    let mut i: usize = 0;
    while i < n
        invariant
            n == members@.len(),
            i <= n,
            lookup(jdata_members(members@), key@) == lookup(
                jdata_members(members@.subrange(i as int, n as int)),
                key@,
            ),
            forall|j: int| 0 <= j < i ==> members@[j].0@ != key@,
        decreases n - i,
    {
        if members[i].0.eq(key) {
            proof {
                lemma_jdata_members(members@.subrange(i as int, n as int));
            }
            return Option::Some(&members[i].1);
        }
        proof {
            let tail = members@.subrange(i as int, n as int);
            assert(tail.drop_first() =~= members@.subrange(i as int + 1, n as int));
            lemma_jdata_members(tail);
            lemma_jdata_members_drop(tail);
        }
        i = i + 1;
    }
    Option::None
}

pub proof fn lemma_jdata_members_drop(o: Seq<(String, JsonValue)>)
    requires
        o.len() > 0,
    ensures
        jdata_members(o).drop_first() == jdata_members(o.drop_first()),
{
    assert(jdata_members(o).drop_first() =~= jdata_members(o.drop_first()));
}

} // verus!
