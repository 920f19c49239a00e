//! The JSON value model that the wire codec works on, together with the
//! verified renderer. Numbers are kept as integers: the event stream's number
//! fields are timestamps, sequence numbers and counts. A numeric literal with
//! a fraction or exponent is carried as its raw text so that a frame holding
//! one still decodes.

use crate::text::{chars_to_string, dec_int_chars, spec_dec_int, str_to_chars};
use vstd::prelude::*;
use vstd::string::StrSliceExecFns;

verus! {

/// A JSON value.
pub enum Json {
    Null,
    Bool(bool),
    Int(i64),
    /// a number literal that is not a plain integer, kept as written
    NumText(String),
    Str(String),
    Arr(Vec<Json>),
    Obj(Vec<(String, Json)>),
}

/// The mathematical model of a JSON value.
pub enum JsonV {
    Null,
    Bool(bool),
    Int(int),
    NumText(Seq<char>),
    Str(Seq<char>),
    Arr(Seq<JsonV>),
    Obj(Seq<(Seq<char>, JsonV)>),
}

/// The model of a JSON value.
pub open spec fn spec_json_view(j: Json) -> JsonV
    decreases j,
{
    match j {
        Json::Null => JsonV::Null,
        Json::Bool(b) => JsonV::Bool(b),
        Json::Int(n) => JsonV::Int(n as int),
        Json::NumText(s) => JsonV::NumText(s@),
        Json::Str(s) => JsonV::Str(s@),
        Json::Arr(els) => JsonV::Arr(spec_jsons_view(els@)),
        Json::Obj(fs) => JsonV::Obj(spec_fields_view(fs@)),
    }
}

/// The model of an array's element vector.
pub open spec fn spec_jsons_view(s: Seq<Json>) -> Seq<JsonV>
    decreases s,
{
    if s.len() == 0 {
        Seq::empty()
    } else {
        seq![spec_json_view(s[0])] + spec_jsons_view(s.drop_first())
    }
}

/// The model of an object's field vector.
pub open spec fn spec_fields_view(s: Seq<(String, Json)>) -> Seq<(Seq<char>, JsonV)>
    decreases s,
{
    if s.len() == 0 {
        Seq::empty()
    } else {
        seq![(s[0].0@, spec_json_view(s[0].1))] + spec_fields_view(s.drop_first())
    }
}

impl View for Json {
    type V = JsonV;

    open spec fn view(&self) -> JsonV {
        spec_json_view(*self)
    }
}

/// `spec_jsons_view` is the element-wise model.
pub proof fn lemma_jsons_view_index(s: Seq<Json>)
    ensures
        spec_jsons_view(s).len() == s.len(),
        forall|i: int| 0 <= i < s.len() ==> spec_jsons_view(s)[i] == spec_json_view(#[trigger] s[i]),
    decreases s.len(),
{
    if s.len() > 0 {
        lemma_jsons_view_index(s.drop_first());
        assert(forall|i: int| 0 < i < s.len() ==> s.drop_first()[i - 1] == #[trigger] s[i]);
    }
}

/// `spec_fields_view` is the field-wise model.
pub proof fn lemma_fields_view_index(s: Seq<(String, Json)>)
    ensures
        spec_fields_view(s).len() == s.len(),
        forall|i: int|
            0 <= i < s.len() ==> spec_fields_view(s)[i] == ((#[trigger] s[i]).0@, spec_json_view(
                s[i].1,
            )),
    decreases s.len(),
{
    if s.len() > 0 {
        lemma_fields_view_index(s.drop_first());
        assert(forall|i: int| 0 < i < s.len() ==> s.drop_first()[i - 1] == #[trigger] s[i]);
    }
}

/// First binding of key `k` in an object's field list.
pub open spec fn spec_obj_get(fields: Seq<(Seq<char>, JsonV)>, k: Seq<char>) -> Option<JsonV>
    decreases fields.len(),
{
    if fields.len() == 0 {
        None
    } else if fields[0].0 == k {
        Some(fields[0].1)
    } else {
        spec_obj_get(fields.drop_first(), k)
    }
}

/// Character-for-character string equality.
pub fn str_eq(a: &str, b: &str) -> (r: bool)
    ensures
        r == (a@ == b@),
{
    let an = a.unicode_len();
    let bn = b.unicode_len();
    if an != bn {
        return false;
    }
    let mut i: usize = 0;
    while i < an
        invariant
            i <= an,
            an == a@.len(),
            an == b@.len(),
            forall|m: int| 0 <= m < i ==> a@[m] == b@[m],
        decreases an - i,
    {
        if a.get_char(i) != b.get_char(i) {
            return false;
        }
        i = i + 1;
    }
    proof {
        assert(a@ =~= b@);
    }
    true
}

/// Look a key up in an object's field list; the first binding wins.
pub fn obj_get<'a>(fields: &'a Vec<(String, Json)>, k: &str) -> (r: Option<&'a Json>)
    ensures
        match r {
            Some(j) => spec_obj_get(spec_fields_view(fields@), k@) == Some(j@),
            None => spec_obj_get(spec_fields_view(fields@), k@) is None,
        },
{
    let ghost fv = spec_fields_view(fields@);
    proof {
        lemma_fields_view_index(fields@);
        assert(fv.skip(0) =~= fv);
    }
    let mut i: usize = 0;
    while i < fields.len()
        invariant
            i <= fields.len(),
            fv == spec_fields_view(fields@),
            fv.len() == fields@.len(),
            forall|m: int|
                0 <= m < fields@.len() ==> fv[m] == ((#[trigger] fields@[m]).0@, spec_json_view(
                    fields@[m].1,
                )),
            spec_obj_get(fv, k@) == spec_obj_get(fv.skip(i as int), k@),
        decreases fields.len() - i,
    {
        proof {
            assert(fv.skip(i as int)[0] == fv[i as int]);
            assert(fv.skip(i as int).drop_first() =~= fv.skip(i + 1 as int));
        }
        if str_eq(fields[i].0.as_str(), k) {
            return Some(&fields[i].1);
        }
        i = i + 1;
    }
    proof {
        assert(fv.skip(fields@.len() as int) =~= Seq::<(Seq<char>, JsonV)>::empty());
    }
    None
}

/// The hexadecimal digit character for `d`.
pub open spec fn spec_hex_char(d: int) -> char {
    if d < 10 {
        (48 + d) as char
    } else {
        (87 + d) as char
    }
}

/// How one character is written inside a JSON string literal.
pub open spec fn spec_escape_char(c: char) -> Seq<char> {
    if c == '"' {
        seq!['\\', '"']
    } else if c == '\\' {
        seq!['\\', '\\']
    } else if c == '\n' {
        seq!['\\', 'n']
    } else if c == '\r' {
        seq!['\\', 'r']
    } else if c == '\t' {
        seq!['\\', 't']
    } else if (c as int) < 32 {
        seq!['\\', 'u', '0', '0', spec_hex_char(c as int / 16), spec_hex_char(c as int % 16)]
    } else {
        seq![c]
    }
}

/// The body of a JSON string literal for the text `s`.
pub open spec fn spec_escape(s: Seq<char>) -> Seq<char>
    decreases s.len(),
{
    if s.len() == 0 {
        Seq::empty()
    } else {
        spec_escape(s.drop_last()) + spec_escape_char(s.last())
    }
}

/// The canonical text form of a JSON value.
pub open spec fn spec_render(v: JsonV) -> Seq<char>
    decreases v,
{
    match v {
        JsonV::Null => seq!['n', 'u', 'l', 'l'],
        JsonV::Bool(b) => if b {
            seq!['t', 'r', 'u', 'e']
        } else {
            seq!['f', 'a', 'l', 's', 'e']
        },
        JsonV::Int(n) => spec_dec_int(n),
        JsonV::NumText(s) => s,
        JsonV::Str(s) => seq!['"'] + spec_escape(s) + seq!['"'],
        JsonV::Arr(els) => seq!['['] + spec_render_elems(els) + seq![']'],
        JsonV::Obj(fs) => seq!['{'] + spec_render_fields(fs) + seq!['}'],
    }
}

/// The comma-separated elements of a rendered array.
pub open spec fn spec_render_elems(els: Seq<JsonV>) -> Seq<char>
    decreases els,
{
    if els.len() == 0 {
        Seq::empty()
    } else if els.len() == 1 {
        spec_render(els[0])
    } else {
        spec_render(els[0]) + seq![','] + spec_render_elems(els.drop_first())
    }
}

/// The comma-separated members of a rendered object.
pub open spec fn spec_render_fields(fs: Seq<(Seq<char>, JsonV)>) -> Seq<char>
    decreases fs,
{
    if fs.len() == 0 {
        Seq::empty()
    } else {
        let m = seq!['"'] + spec_escape(fs[0].0) + seq!['"', ':'] + spec_render(fs[0].1);
        if fs.len() == 1 {
            m
        } else {
            m + seq![','] + spec_render_fields(fs.drop_first())
        }
    }
}

fn render_escaped(s: &str, out: &mut Vec<char>)
    ensures
        final(out)@ == old(out)@ + spec_escape(s@),
{
    let n = s.unicode_len();
    let mut i: usize = 0;
    proof {
        assert(s@.take(0) =~= Seq::<char>::empty());
        assert(old(out)@ + Seq::<char>::empty() =~= old(out)@);
    }
    while i < n
        invariant
            i <= n,
            n == s@.len(),
            out@ =~= old(out)@ + spec_escape(s@.take(i as int)),
        decreases n - i,
    {
        let c = s.get_char(i);
        if c == '"' {
            out.push('\\');
            out.push('"');
        } else if c == '\\' {
            out.push('\\');
            out.push('\\');
        } else if c == '\n' {
            out.push('\\');
            out.push('n');
        } else if c == '\r' {
            out.push('\\');
            out.push('r');
        } else if c == '\t' {
            out.push('\\');
            out.push('t');
        } else if (c as u32) < 32 {
            out.push('\\');
            out.push('u');
            out.push('0');
            out.push('0');
            let hi: u8 = (c as u32 / 16) as u8;
            let lo: u8 = (c as u32 % 16) as u8;
            let hc: char = if hi < 10 {
                (48 + hi) as char
            } else {
                (87 + hi) as char
            };
            let lc: char = if lo < 10 {
                (48 + lo) as char
            } else {
                (87 + lo) as char
            };
            assert(hc == spec_hex_char(c as int / 16));
            assert(lc == spec_hex_char(c as int % 16));
            out.push(hc);
            out.push(lc);
        } else {
            out.push(c);
        }
        i = i + 1;
        proof {
            assert(s@.take(i as int).drop_last() =~= s@.take(i - 1));
            assert(s@.take(i as int).last() == s@[i - 1]);
            assert(out@ =~= old(out)@ + spec_escape(s@.take(i as int)));
        }
    }
    proof {
        assert(s@.take(n as int) =~= s@);
    }
}

/// Append the text form of `j` to `out`.
pub fn render_json(j: &Json, out: &mut Vec<char>)
    ensures
        final(out)@ == old(out)@ + spec_render(j@),
    decreases *j,
{
    match j {
        Json::Null => {
            out.push('n');
            out.push('u');
            out.push('l');
            out.push('l');
            assert(out@ =~= old(out)@ + spec_render(j@));
        },
        Json::Bool(b) => {
            if *b {
                out.push('t');
                out.push('r');
                out.push('u');
                out.push('e');
            } else {
                out.push('f');
                out.push('a');
                out.push('l');
                out.push('s');
                out.push('e');
            }
            assert(out@ =~= old(out)@ + spec_render(j@));
        },
        Json::Int(n) => {
            dec_int_chars(*n, out);
        },
        Json::NumText(s) => {
            let cs = str_to_chars(s.as_str());
            let mut k: usize = 0;
            while k < cs.len()
                invariant
                    k <= cs.len(),
                    cs@ == s@,
                    out@ =~= old(out)@ + s@.take(k as int),
                decreases cs.len() - k,
            {
                let c = cs[k];
                out.push(c);
                k = k + 1;
                assert(out@ =~= old(out)@ + s@.take(k as int));
            }
            proof {
                assert(s@.take(s@.len() as int) =~= s@);
            }
        },
        Json::Str(s) => {
            out.push('"');
            render_escaped(s.as_str(), out);
            out.push('"');
            assert(out@ =~= old(out)@ + spec_render(j@));
        },
        Json::Arr(els) => {
            out.push('[');
            render_elems_from(els, 0, out);
            out.push(']');
            proof {
                assert(spec_jsons_view(els@).skip(0) =~= spec_jsons_view(els@));
                assert(out@ =~= old(out)@ + spec_render(j@));
            }
        },
        Json::Obj(fs) => {
            out.push('{');
            render_fields_from(fs, 0, out);
            out.push('}');
            proof {
                assert(spec_fields_view(fs@).skip(0) =~= spec_fields_view(fs@));
                assert(out@ =~= old(out)@ + spec_render(j@));
            }
        },
    }
}

fn render_elems_from(els: &Vec<Json>, i: usize, out: &mut Vec<char>)
    requires
        i <= els.len(),
    ensures
        final(out)@ == old(out)@ + spec_render_elems(spec_jsons_view(els@).skip(i as int)),
    decreases els@, els@.len() - i,
{
    proof {
        lemma_jsons_view_index(els@);
    }
    let ghost ev = spec_jsons_view(els@);
    if i == els.len() {
        proof {
            assert(ev.skip(i as int) =~= Seq::<JsonV>::empty());
            assert(out@ =~= old(out)@ + spec_render_elems(ev.skip(i as int)));
        }
    } else {
        proof {
            assert(ev.skip(i as int)[0] == ev[i as int]);
            assert(ev.skip(i as int).drop_first() =~= ev.skip(i + 1 as int));
        }
        render_json(&els[i], out);
        if i + 1 < els.len() {
            out.push(',');
            render_elems_from(els, i + 1, out);
            proof {
                assert(ev.skip(i as int).len() > 1);
                assert(out@ =~= old(out)@ + spec_render_elems(ev.skip(i as int)));
            }
        } else {
            proof {
                assert(ev.skip(i as int).len() == 1);
                assert(out@ =~= old(out)@ + spec_render_elems(ev.skip(i as int)));
            }
        }
    }
}

fn render_fields_from(fs: &Vec<(String, Json)>, i: usize, out: &mut Vec<char>)
    requires
        i <= fs.len(),
    ensures
        final(out)@ == old(out)@ + spec_render_fields(spec_fields_view(fs@).skip(i as int)),
    decreases fs@, fs@.len() - i,
{
    proof {
        lemma_fields_view_index(fs@);
    }
    let ghost fv = spec_fields_view(fs@);
    if i == fs.len() {
        proof {
            assert(fv.skip(i as int) =~= Seq::<(Seq<char>, JsonV)>::empty());
            assert(out@ =~= old(out)@ + spec_render_fields(fv.skip(i as int)));
        }
    } else {
        proof {
            assert(fv.skip(i as int)[0] == fv[i as int]);
            assert(fv.skip(i as int).drop_first() =~= fv.skip(i + 1 as int));
        }
        out.push('"');
        render_escaped(fs[i].0.as_str(), out);
        out.push('"');
        out.push(':');
        render_json(&fs[i].1, out);
        if i + 1 < fs.len() {
            out.push(',');
            render_fields_from(fs, i + 1, out);
            proof {
                assert(fv.skip(i as int).len() > 1);
                assert(out@ =~= old(out)@ + spec_render_fields(fv.skip(i as int)));
            }
        } else {
            proof {
                assert(fv.skip(i as int).len() == 1);
                assert(out@ =~= old(out)@ + spec_render_fields(fv.skip(i as int)));
            }
        }
    }
}

/// The text form of `j`.
pub fn render_json_string(j: &Json) -> (r: String)
    ensures
        r@ == spec_render(j@),
{
    let mut out: Vec<char> = Vec::new();
    render_json(j, &mut out);
    chars_to_string(&out)
}

} // verus!
