//! Rendering JSON documents to bytes: a canonical, stable-field-order,
//! pretty-printed form with two-space indentation.

use vstd::prelude::*;

use crate::json::{
    json_list_size, json_members_size, json_size, lemma_json_list_size_elem,
    lemma_json_members_size_elem, JsonMember, JsonValue,
};
use crate::text::{dec_digits, hex_lower, push_decimal};
use vstd::string::StrSliceExecFns;

verus! {

/// How one byte of a string is escaped inside a JSON string literal: quote
/// and backslash get a backslash escape, control bytes a `\u00xx` escape,
/// and every other byte stands for itself.
pub open spec fn escape_one(x: u8) -> Seq<u8> {
    if x == 0x22 {
        seq![0x5cu8, 0x22u8]
    } else if x == 0x5c {
        seq![0x5cu8, 0x5cu8]
    } else if x < 0x20 {
        seq![0x5cu8, 0x75u8, 0x30u8, 0x30u8, hex_lower(x / 16), hex_lower((x % 16) as u8)]
    } else {
        seq![x]
    }
}

/// The escaped form of a whole byte sequence.
pub open spec fn escape_bytes(s: Seq<u8>) -> Seq<u8>
    decreases s.len(),
{
    if s.len() == 0 {
        Seq::empty()
    } else {
        escape_one(s[0]) + escape_bytes(s.subrange(1, s.len() as int))
    }
}

/// Escaping distributes over appending one byte.
pub proof fn lemma_escape_snoc(s: Seq<u8>, x: u8)
    ensures
        escape_bytes(s.push(x)) == escape_bytes(s) + escape_one(x),
    decreases s.len(),
{
    if s.len() == 0 {
        assert(s.push(x).subrange(1, 1) =~= Seq::<u8>::empty());
        assert(s.push(x)[0] == x);
        assert(escape_bytes(s.push(x)) == escape_one(x) + escape_bytes(
            s.push(x).subrange(1, 1),
        ));
        assert(escape_bytes(s.push(x)) =~= escape_bytes(s) + escape_one(x));
    } else {
        let tail = s.subrange(1, s.len() as int);
        lemma_escape_snoc(tail, x);
        assert(s.push(x).subrange(1, s.len() as int + 1) =~= tail.push(x));
        assert(escape_bytes(s.push(x)) =~= escape_bytes(s) + escape_one(x));
    }
}

/// The bytes of a JSON string literal for the given characters: a quoted,
/// escaped UTF-8 encoding.
pub open spec fn json_string_lit(s: Seq<char>) -> Seq<u8> {
    seq![0x22u8] + escape_bytes(vstd::utf8::encode_utf8(s)) + seq![0x22u8]
}

/// The rendered bytes of a JSON value at the given indentation prefix.
///
/// Empty arrays and objects render inline; non-empty ones render one element
/// per line, each line indented two spaces past `pad`, with the closing
/// bracket back on the `pad` level.
pub open spec fn json_bytes(v: JsonValue, pad: Seq<u8>) -> Seq<u8>
    decreases v,
{
    match v {
        JsonValue::Null => seq![0x6eu8, 0x75u8, 0x6cu8, 0x6cu8],
        JsonValue::Bool(b) => if b {
            seq![0x74u8, 0x72u8, 0x75u8, 0x65u8]
        } else {
            seq![0x66u8, 0x61u8, 0x6cu8, 0x73u8, 0x65u8]
        },
        JsonValue::UInt(n) => dec_digits(n as nat),
        JsonValue::Str(s) => json_string_lit(s@),
        JsonValue::Arr(a) => if a@.len() == 0 {
            seq![0x5bu8, 0x5du8]
        } else {
            seq![0x5bu8, 0x0au8] + json_items(a@, pad + seq![0x20u8, 0x20u8]) + seq![0x0au8] + pad
                + seq![0x5du8]
        },
        JsonValue::Obj(ms) => if ms@.len() == 0 {
            seq![0x7bu8, 0x7du8]
        } else {
            seq![0x7bu8, 0x0au8] + json_members(ms@, pad + seq![0x20u8, 0x20u8]) + seq![0x0au8]
                + pad + seq![0x7du8]
        },
    }
}

/// The rendered lines of an array's elements, separated by comma-newline,
/// each line opening with `pad`.
pub open spec fn json_items(s: Seq<JsonValue>, pad: Seq<u8>) -> Seq<u8>
    decreases s,
{
    if s.len() == 0 {
        Seq::empty()
    } else if s.len() == 1 {
        pad + json_bytes(s[0], pad)
    } else {
        pad + json_bytes(s[0], pad) + seq![0x2cu8, 0x0au8] + json_items(
            s.subrange(1, s.len() as int),
            pad,
        )
    }
}

/// The rendered lines of an object's members, separated by comma-newline,
/// each line opening with `pad`, the key quoted and followed by colon-space.
pub open spec fn json_members(s: Seq<JsonMember>, pad: Seq<u8>) -> Seq<u8>
    decreases s,
{
    if s.len() == 0 {
        Seq::empty()
    } else if s.len() == 1 {
        pad + json_string_lit(s[0].key@) + seq![0x3au8, 0x20u8] + json_bytes(s[0].value, pad)
    } else {
        pad + json_string_lit(s[0].key@) + seq![0x3au8, 0x20u8] + json_bytes(s[0].value, pad)
            + seq![0x2cu8, 0x0au8] + json_members(s.subrange(1, s.len() as int), pad)
    }
}

/// Rendering an array's element lines distributes over appending an
/// element.
pub proof fn lemma_json_items_snoc(s: Seq<JsonValue>, pad: Seq<u8>)
    requires
        s.len() >= 1,
    ensures
        json_items(s, pad) == json_items(s.drop_last(), pad) + (if s.len() == 1 {
            pad + json_bytes(s.last(), pad)
        } else {
            seq![0x2cu8, 0x0au8] + pad + json_bytes(s.last(), pad)
        }),
    decreases s.len(),
{
    if s.len() == 1 {
        assert(json_items(s.drop_last(), pad) =~= Seq::<u8>::empty());
        assert(json_items(s, pad) =~= json_items(s.drop_last(), pad) + (pad + json_bytes(
            s.last(),
            pad,
        )));
    } else {
        let tail = s.subrange(1, s.len() as int);
        lemma_json_items_snoc(tail, pad);
        assert(s.drop_last().subrange(1, s.drop_last().len() as int) =~= tail.drop_last());
        assert(tail.last() == s.last());
        if s.len() == 2 {
            assert(json_items(s, pad) =~= json_items(s.drop_last(), pad) + (seq![0x2cu8, 0x0au8]
                + pad + json_bytes(s.last(), pad)));
        } else {
            assert(json_items(s, pad) =~= json_items(s.drop_last(), pad) + (seq![0x2cu8, 0x0au8]
                + pad + json_bytes(s.last(), pad)));
        }
    }
}

/// Rendering an object's member lines distributes over appending a member.
pub proof fn lemma_json_members_snoc(s: Seq<JsonMember>, pad: Seq<u8>)
    requires
        s.len() >= 1,
    ensures
        json_members(s, pad) == json_members(s.drop_last(), pad) + (if s.len() == 1 {
            pad + json_string_lit(s.last().key@) + seq![0x3au8, 0x20u8] + json_bytes(
                s.last().value,
                pad,
            )
        } else {
            seq![0x2cu8, 0x0au8] + pad + json_string_lit(s.last().key@) + seq![0x3au8, 0x20u8]
                + json_bytes(s.last().value, pad)
        }),
    decreases s.len(),
{
    if s.len() == 1 {
        assert(json_members(s.drop_last(), pad) =~= Seq::<u8>::empty());
        assert(json_members(s, pad) =~= json_members(s.drop_last(), pad) + (pad + json_string_lit(
            s.last().key@,
        ) + seq![0x3au8, 0x20u8] + json_bytes(s.last().value, pad)));
    } else {
        let tail = s.subrange(1, s.len() as int);
        lemma_json_members_snoc(tail, pad);
        assert(s.drop_last().subrange(1, s.drop_last().len() as int) =~= tail.drop_last());
        assert(tail.last() == s.last());
        assert(json_members(s, pad) =~= json_members(s.drop_last(), pad) + (seq![0x2cu8, 0x0au8]
            + pad + json_string_lit(s.last().key@) + seq![0x3au8, 0x20u8] + json_bytes(
            s.last().value,
            pad,
        )));
    }
}

/// Append the JSON string literal for `s`.
fn push_json_string(out: &mut Vec<u8>, s: &String)
    ensures
        final(out)@ == old(out)@ + json_string_lit(s@),
{
    out.push(0x22);
    let bs: Vec<u8> = s.as_str().as_bytes_vec();
    assert(bs@ == vstd::utf8::encode_utf8(s@));
    let mut i: usize = 0;
    while i < bs.len()
        invariant
            i <= bs@.len(),
            out@ == old(out)@ + seq![0x22u8] + escape_bytes(bs@.take(i as int)),
        decreases bs@.len() - i,
    {
        let x: u8 = bs[i];
        if x == 0x22 {
            out.push(0x5c);
            out.push(0x22);
        } else if x == 0x5c {
            out.push(0x5c);
            out.push(0x5c);
        } else if x < 0x20 {
            out.push(0x5c);
            out.push(0x75);
            out.push(0x30);
            out.push(0x30);
            let hi: u8 = x / 16;
            let lo: u8 = x % 16;
            out.push(if hi < 10 {
                0x30 + hi
            } else {
                0x57 + hi
            });
            out.push(if lo < 10 {
                0x30 + lo
            } else {
                0x57 + lo
            });
        } else {
            out.push(x);
        }
        proof {
            lemma_escape_snoc(bs@.take(i as int), bs@[i as int]);
            assert(bs@.take(i as int).push(bs@[i as int]) =~= bs@.take(i + 1));
            assert(out@ =~= old(out)@ + seq![0x22u8] + escape_bytes(bs@.take(i + 1)));
        }
        i = i + 1;
    }
    assert(bs@.take(bs@.len() as int) =~= bs@);
    out.push(0x22);
    assert(out@ =~= old(out)@ + json_string_lit(s@));
}

/// Append the rendered bytes of `v` at indentation prefix `pad`.
fn render_into(v: &JsonValue, pad: &Vec<u8>, out: &mut Vec<u8>)
    ensures
        final(out)@ == old(out)@ + json_bytes(*v, pad@),
    decreases json_size(*v),
{
    match v {
        JsonValue::Null => {
            out.push(0x6e);
            out.push(0x75);
            out.push(0x6c);
            out.push(0x6c);
            assert(out@ =~= old(out)@ + json_bytes(*v, pad@));
        },
        JsonValue::Bool(b) => {
            if *b {
                out.push(0x74);
                out.push(0x72);
                out.push(0x75);
                out.push(0x65);
            } else {
                out.push(0x66);
                out.push(0x61);
                out.push(0x6c);
                out.push(0x73);
                out.push(0x65);
            }
            assert(out@ =~= old(out)@ + json_bytes(*v, pad@));
        },
        JsonValue::UInt(n) => {
            push_decimal(out, *n);
        },
        JsonValue::Str(s) => {
            push_json_string(out, s);
        },
        JsonValue::Arr(a) => {
            if a.len() == 0 {
                out.push(0x5b);
                out.push(0x5d);
                assert(out@ =~= old(out)@ + json_bytes(*v, pad@));
            } else {
                out.push(0x5b);
                out.push(0x0a);
                let mut inner: Vec<u8> = pad.clone();
                inner.push(0x20);
                inner.push(0x20);
                assert(inner@ =~= pad@ + seq![0x20u8, 0x20u8]);
                let mut i: usize = 0;
                while i < a.len()
                    invariant
                        i <= a@.len(),
                        a@.len() >= 1,
                        inner@ == pad@ + seq![0x20u8, 0x20u8],
                        json_size(*v) == 1 + json_list_size(a@),
                        out@ == old(out)@ + seq![0x5bu8, 0x0au8] + json_items(
                            a@.take(i as int),
                            inner@,
                        ),
                    decreases a@.len() - i,
                {
                    if i > 0 {
                        out.push(0x2c);
                        out.push(0x0a);
                    }
                    out.extend_from_slice(inner.as_slice());
                    proof {
                        lemma_json_list_size_elem(a@, i as int);
                    }
                    render_into(&a[i], &inner, out);
                    proof {
                        lemma_json_items_snoc(a@.take(i + 1), inner@);
                        assert(a@.take(i + 1).drop_last() =~= a@.take(i as int));
                        assert(a@.take(i + 1).last() == a@[i as int]);
                        assert(out@ =~= old(out)@ + seq![0x5bu8, 0x0au8] + json_items(
                            a@.take(i + 1),
                            inner@,
                        ));
                    }
                    i = i + 1;
                }
                assert(a@.take(a@.len() as int) =~= a@);
                out.push(0x0a);
                out.extend_from_slice(pad.as_slice());
                out.push(0x5d);
                assert(out@ =~= old(out)@ + json_bytes(*v, pad@));
            }
        },
        JsonValue::Obj(ms) => {
            if ms.len() == 0 {
                out.push(0x7b);
                out.push(0x7d);
                assert(out@ =~= old(out)@ + json_bytes(*v, pad@));
            } else {
                out.push(0x7b);
                out.push(0x0a);
                let mut inner: Vec<u8> = pad.clone();
                inner.push(0x20);
                inner.push(0x20);
                assert(inner@ =~= pad@ + seq![0x20u8, 0x20u8]);
                let mut i: usize = 0;
                while i < ms.len()
                    invariant
                        i <= ms@.len(),
                        ms@.len() >= 1,
                        inner@ == pad@ + seq![0x20u8, 0x20u8],
                        json_size(*v) == 1 + json_members_size(ms@),
                        out@ == old(out)@ + seq![0x7bu8, 0x0au8] + json_members(
                            ms@.take(i as int),
                            inner@,
                        ),
                    decreases ms@.len() - i,
                {
                    if i > 0 {
                        out.push(0x2c);
                        out.push(0x0a);
                    }
                    out.extend_from_slice(inner.as_slice());
                    push_json_string(out, &ms[i].key);
                    out.push(0x3a);
                    out.push(0x20);
                    proof {
                        lemma_json_members_size_elem(ms@, i as int);
                    }
                    render_into(&ms[i].value, &inner, out);
                    proof {
                        lemma_json_members_snoc(ms@.take(i + 1), inner@);
                        assert(ms@.take(i + 1).drop_last() =~= ms@.take(i as int));
                        assert(ms@.take(i + 1).last() == ms@[i as int]);
                        assert(out@ =~= old(out)@ + seq![0x7bu8, 0x0au8] + json_members(
                            ms@.take(i + 1),
                            inner@,
                        ));
                    }
                    i = i + 1;
                }
                assert(ms@.take(ms@.len() as int) =~= ms@);
                out.push(0x0a);
                out.extend_from_slice(pad.as_slice());
                out.push(0x7d);
                assert(out@ =~= old(out)@ + json_bytes(*v, pad@));
            }
        },
    }
}

/// Render a JSON value as a pretty-printed document, as bytes.
pub fn render_json(v: &JsonValue) -> (r: Vec<u8>)
    ensures
        r@ == json_bytes(*v, Seq::<u8>::empty()),
{
    let pad: Vec<u8> = Vec::new();
    let mut out: Vec<u8> = Vec::new();
    render_into(v, &pad, &mut out);
    out
}

} // verus!
