//! Deterministic text rendering for error messages.
//!
//! Error values must render to user-visible text that is a pure function of
//! the value — same inputs, same text, never an address or any other
//! per-process artefact. The spec functions here define that text exactly;
//! the executable functions are proved to produce it: decimal numerals,
//! bracketed comma-separated lists, and the shape lists the
//! dimension-mismatch error carries.

use vstd::prelude::*;
use vstd::string::{StringExecFns, StringSliceAdditionalSpecFns};

verus! {

/// The decimal digit character sequence (one character) for `d < 10`.
pub open spec fn spec_digit(d: nat) -> Seq<char> {
    if d == 0 {
        "0"@
    } else if d == 1 {
        "1"@
    } else if d == 2 {
        "2"@
    } else if d == 3 {
        "3"@
    } else if d == 4 {
        "4"@
    } else if d == 5 {
        "5"@
    } else if d == 6 {
        "6"@
    } else if d == 7 {
        "7"@
    } else if d == 8 {
        "8"@
    } else {
        "9"@
    }
}

/// The decimal numeral of `n`, most significant digit first.
pub open spec fn spec_dec(n: nat) -> Seq<char>
    decreases n,
{
    if n < 10 {
        spec_digit(n)
    } else {
        spec_dec(n / 10) + spec_digit(n % 10)
    }
}

/// One decimal digit as a string slice.
fn digit_str(d: u64) -> (r: &'static str)
    requires
        d < 10,
    ensures
        r@ == spec_digit(d as nat),
{
    if d == 0 {
        "0"
    } else if d == 1 {
        "1"
    } else if d == 2 {
        "2"
    } else if d == 3 {
        "3"
    } else if d == 4 {
        "4"
    } else if d == 5 {
        "5"
    } else if d == 6 {
        "6"
    } else if d == 7 {
        "7"
    } else if d == 8 {
        "8"
    } else {
        "9"
    }
}

/// Renders `n` as its decimal numeral.
pub fn dec_u64(n: u64) -> (r: String)
    ensures
        r@ == spec_dec(n as nat),
    decreases n,
{
    if n < 10 {
        String::from_str(digit_str(n))
    } else {
        let mut s = dec_u64(n / 10);
        s.append(digit_str(n % 10));
        s
    }
}

/// Renders `n` as its decimal numeral.
pub fn dec_usize(n: usize) -> (r: String)
    ensures
        r@ == spec_dec(n as nat),
{
    dec_u64(n as u64)
}

/// The pieces joined by the separator, in order.
pub open spec fn spec_join(items: Seq<Seq<char>>, sep: Seq<char>) -> Seq<char>
    decreases items.len(),
{
    if items.len() == 0 {
        Seq::empty()
    } else if items.len() == 1 {
        items[0]
    } else {
        spec_join(items.drop_last(), sep) + sep + items.last()
    }
}

/// Joins the strings with the separator.
pub fn join_strings(items: &Vec<String>, sep: &str) -> (r: String)
    ensures
        r@ == spec_join(items.deep_view(), sep@),
{
    let ghost dv = items.deep_view();
    let mut r = String::new();
    let mut i: usize = 0;
    while i < items.len()
        invariant
            i <= items@.len(),
            dv == items.deep_view(),
            dv.len() == items@.len(),
            r@ == spec_join(dv.take(i as int), sep@),
        decreases items@.len() - i,
    {
        if i > 0 {
            r.append(sep);
        }
        r.append(items[i].as_str());
        proof {
            assert(dv[i as int] == items@[i as int]@);
            assert(dv.take((i + 1) as int).drop_last() =~= dv.take(i as int));
            assert(dv.take((i + 1) as int).last() == dv[i as int]);
            if i == 0 {
                assert(r@ =~= dv[0]);
            }
        }
        i = i + 1;
    }
    proof {
        assert(dv.take(items@.len() as int) =~= dv);
    }
    r
}

/// The numerals of the extents of one shape.
pub open spec fn spec_dec_list(s: Seq<usize>) -> Seq<Seq<char>> {
    s.map_values(|d: usize| spec_dec(d as nat))
}

/// The renderings of the dimensions of one model-declared shape.
pub open spec fn spec_model_dim_list(s: Seq<Option<u32>>) -> Seq<Seq<char>> {
    s.map_values(|d: Option<u32>| spec_render_model_dim(d))
}

/// The renderings of the shapes of an inference-input shape list.
pub open spec fn spec_dims_list(s: Seq<Seq<usize>>) -> Seq<Seq<char>> {
    s.map_values(|sh: Seq<usize>| spec_render_dims(sh))
}

/// The renderings of the shapes of a model-input shape list.
pub open spec fn spec_model_dims_list(s: Seq<Seq<Option<u32>>>) -> Seq<Seq<char>> {
    s.map_values(|sh: Seq<Option<u32>>| spec_render_model_dims(sh))
}

/// The numerals of a byte sequence.
pub open spec fn spec_byte_list(s: Seq<u8>) -> Seq<Seq<char>> {
    s.map_values(|b: u8| spec_dec(b as nat))
}

/// The rendering of one shape: its extents as decimal numerals, comma
/// separated, in brackets.
pub open spec fn spec_render_dims(s: Seq<usize>) -> Seq<char> {
    "["@ + spec_join(spec_dec_list(s), ", "@) + "]"@
}

/// Renders one shape.
pub fn render_dims(v: &Vec<usize>) -> (r: String)
    ensures
        r@ == spec_render_dims(v@),
{
    let mut parts: Vec<String> = Vec::new();
    let mut i: usize = 0;
    while i < v.len()
        invariant
            i <= v@.len(),
            parts@.len() == i,
            forall|j: int| 0 <= j < i ==> #[trigger] parts@[j]@ == spec_dec(v@[j] as nat),
        decreases v@.len() - i,
    {
        parts.push(dec_usize(v[i]));
        i = i + 1;
    }
    proof {
        assert(parts.deep_view() =~= spec_dec_list(v@));
    }
    let mut r = String::from_str("[");
    let joined = join_strings(&parts, ", ");
    r.append(joined.as_str());
    r.append("]");
    r
}

/// The rendering of one model-declared dimension: a fixed extent renders as
/// `Some(`extent`)`, a dynamic dimension as `None`.
pub open spec fn spec_render_model_dim(d: Option<u32>) -> Seq<char> {
    match d {
        Option::None => "None"@,
        Option::Some(x) => "Some("@ + spec_dec(x as nat) + ")"@,
    }
}

/// Renders one model-declared dimension.
fn render_model_dim(d: &Option<u32>) -> (r: String)
    ensures
        r@ == spec_render_model_dim(*d),
{
    match d {
        Option::None => String::from_str("None"),
        Option::Some(x) => {
            let mut s = String::from_str("Some(");
            let numeral = dec_u64(*x as u64);
            s.append(numeral.as_str());
            s.append(")");
            s
        },
    }
}

/// The rendering of one model-declared shape.
pub open spec fn spec_render_model_dims(s: Seq<Option<u32>>) -> Seq<char> {
    "["@ + spec_join(spec_model_dim_list(s), ", "@) + "]"@
}

/// Renders one model-declared shape.
pub fn render_model_dims(v: &Vec<Option<u32>>) -> (r: String)
    ensures
        r@ == spec_render_model_dims(v@),
{
    let mut parts: Vec<String> = Vec::new();
    let mut i: usize = 0;
    while i < v.len()
        invariant
            i <= v@.len(),
            parts@.len() == i,
            forall|j: int| 0 <= j < i ==> #[trigger] parts@[j]@ == spec_render_model_dim(v@[j]),
        decreases v@.len() - i,
    {
        parts.push(render_model_dim(&v[i]));
        i = i + 1;
    }
    proof {
        assert(parts.deep_view() =~= spec_model_dim_list(v@));
    }
    let mut r = String::from_str("[");
    let joined = join_strings(&parts, ", ");
    r.append(joined.as_str());
    r.append("]");
    r
}

/// The rendering of an inference-input shape list.
pub open spec fn spec_render_shapes(s: Seq<Seq<usize>>) -> Seq<char> {
    "["@ + spec_join(spec_dims_list(s), ", "@) + "]"@
}

/// Renders an inference-input shape list.
pub fn render_shapes(v: &Vec<Vec<usize>>) -> (r: String)
    ensures
        r@ == spec_render_shapes(v.deep_view()),
{
    let ghost dv = v.deep_view();
    let mut parts: Vec<String> = Vec::new();
    let mut i: usize = 0;
    while i < v.len()
        invariant
            i <= v@.len(),
            dv == v.deep_view(),
            dv.len() == v@.len(),
            parts@.len() == i,
            forall|j: int| 0 <= j < i ==> #[trigger] parts@[j]@ == spec_render_dims(dv[j]),
        decreases v@.len() - i,
    {
        proof {
            assert(dv[i as int] =~= v@[i as int]@);
        }
        parts.push(render_dims(&v[i]));
        i = i + 1;
    }
    proof {
        assert(parts.deep_view() =~= spec_dims_list(dv));
    }
    let mut r = String::from_str("[");
    let joined = join_strings(&parts, ", ");
    r.append(joined.as_str());
    r.append("]");
    r
}

/// The rendering of a model-input shape list.
pub open spec fn spec_render_model_shapes(s: Seq<Seq<Option<u32>>>) -> Seq<char> {
    "["@ + spec_join(spec_model_dims_list(s), ", "@) + "]"@
}

/// Renders a model-input shape list.
pub fn render_model_shapes(v: &Vec<Vec<Option<u32>>>) -> (r: String)
    ensures
        r@ == spec_render_model_shapes(v.deep_view()),
{
    let ghost dv = v.deep_view();
    let mut parts: Vec<String> = Vec::new();
    let mut i: usize = 0;
    while i < v.len()
        invariant
            i <= v@.len(),
            dv == v.deep_view(),
            dv.len() == v@.len(),
            parts@.len() == i,
            forall|j: int| 0 <= j < i ==> #[trigger] parts@[j]@ == spec_render_model_dims(dv[j]),
        decreases v@.len() - i,
    {
        proof {
            assert(dv[i as int] =~= v@[i as int]@);
        }
        parts.push(render_model_dims(&v[i]));
        i = i + 1;
    }
    proof {
        assert(parts.deep_view() =~= spec_model_dims_list(dv));
    }
    let mut r = String::from_str("[");
    let joined = join_strings(&parts, ", ");
    r.append(joined.as_str());
    r.append("]");
    r
}

/// The rendering of raw bytes that could not be decoded: their values as
/// decimal numerals, comma separated, in brackets.
pub open spec fn spec_render_bytes(s: Seq<u8>) -> Seq<char> {
    "["@ + spec_join(spec_byte_list(s), ", "@) + "]"@
}

/// Renders raw bytes.
pub fn render_bytes(v: &Vec<u8>) -> (r: String)
    ensures
        r@ == spec_render_bytes(v@),
{
    let mut parts: Vec<String> = Vec::new();
    let mut i: usize = 0;
    while i < v.len()
        invariant
            i <= v@.len(),
            parts@.len() == i,
            forall|j: int| 0 <= j < i ==> #[trigger] parts@[j]@ == spec_dec(v@[j] as nat),
        decreases v@.len() - i,
    {
        parts.push(dec_u64(v[i] as u64));
        i = i + 1;
    }
    proof {
        assert(parts.deep_view() =~= spec_byte_list(v@));
    }
    let mut r = String::from_str("[");
    let joined = join_strings(&parts, ", ");
    r.append(joined.as_str());
    r.append("]");
    r
}

} // verus!
