//! A mathematical model of JSON documents, and the decoding and encoding
//! rules of the wire format stated over it.
//!
//! [`JsonTree`] abstracts a parsed document: numbers are carried as their
//! decimal token text, objects as ordered key/value sequences.  [`spec_decode`]
//! is the full meaning of the wire format: it says, for every possible tree,
//! exactly which command value decoding yields, or that decoding fails.
//! [`spec_encode`] is the reverse direction.  The executable code in the
//! sibling modules is proved to follow these functions.

use vstd::prelude::*;

use crate::commands::{
    CliGenerateImageCommandV, CliInputCommandV, ExtractFrameCommandV, ImageFormat, ImageLayerV,
    LayerV, SolidLayerV,
};

verus! {

/// The shape of a parsed JSON document.
pub enum JsonTree {
    Null,
    Bool(bool),
    /// A number, as its decimal token text.
    Num(Seq<char>),
    Str(Seq<char>),
    Arr(Seq<JsonTree>),
    /// An object, as its key/value entry sequence; a lookup takes the
    /// first entry carrying the key.
    Obj(Seq<(Seq<char>, JsonTree)>),
}

/// The value of `key` in an object's entry sequence: the first entry that
/// carries the key, or `None` when no entry does.
pub open spec fn obj_lookup(es: Seq<(Seq<char>, JsonTree)>, key: Seq<char>) -> Option<JsonTree>
    decreases es.len(),
{
    if es.len() == 0 {
        None
    } else if es[0].0 == key {
        Some(es[0].1)
    } else {
        obj_lookup(es.drop_first(), key)
    }
}

// ---------------------------------------------------------------------------
// Decimal number tokens
// ---------------------------------------------------------------------------

pub open spec fn is_digit(c: char) -> bool {
    '0' <= c && c <= '9'
}

pub open spec fn digit_val(c: char) -> nat {
    (c as nat - '0' as nat) as nat
}

pub open spec fn all_digits(s: Seq<char>) -> bool {
    forall|i: int| 0 <= i < s.len() ==> is_digit(#[trigger] s[i])
}

/// The numeric value of a digit string, most significant digit first.
pub open spec fn digits_val(s: Seq<char>) -> nat
    decreases s.len(),
{
    if s.len() == 0 {
        0
    } else {
        digits_val(s.drop_last()) * 10 + digit_val(s.last())
    }
}

/// The unsigned integer a number token denotes: defined exactly when the
/// token is one or more bare decimal digits — no sign, fraction or exponent —
/// and its value fits in a `u64`.
pub open spec fn token_u64(s: Seq<char>) -> Option<u64> {
    if s.len() > 0 && all_digits(s) && digits_val(s) <= u64::MAX {
        Some(digits_val(s) as u64)
    } else {
        None
    }
}

pub open spec fn token_u32(s: Seq<char>) -> Option<u32> {
    match token_u64(s) {
        Some(n) => if n <= u32::MAX {
            Some(n as u32)
        } else {
            None
        },
        None => None,
    }
}

pub open spec fn token_u8(s: Seq<char>) -> Option<u8> {
    match token_u64(s) {
        Some(n) => if n <= u8::MAX {
            Some(n as u8)
        } else {
            None
        },
        None => None,
    }
}

/// The decimal digit character of `d`, for `d < 10`.
pub open spec fn digit_char(d: nat) -> char {
    if d == 0 {
        '0'
    } else if d == 1 {
        '1'
    } else if d == 2 {
        '2'
    } else if d == 3 {
        '3'
    } else if d == 4 {
        '4'
    } else if d == 5 {
        '5'
    } else if d == 6 {
        '6'
    } else if d == 7 {
        '7'
    } else if d == 8 {
        '8'
    } else {
        '9'
    }
}

/// The canonical decimal token of `n`: digits only, no leading zero except
/// for `n == 0` itself.
pub open spec fn dec_token(n: nat) -> Seq<char>
    decreases n,
{
    if n < 10 {
        seq![digit_char(n)]
    } else {
        dec_token(n / 10).push(digit_char(n % 10))
    }
}

// ---------------------------------------------------------------------------
// Field lookups by expected shape
// ---------------------------------------------------------------------------

pub open spec fn lookup_str(es: Seq<(Seq<char>, JsonTree)>, key: Seq<char>) -> Option<Seq<char>> {
    match obj_lookup(es, key) {
        Some(JsonTree::Str(s)) => Some(s),
        _ => None,
    }
}

pub open spec fn lookup_num(es: Seq<(Seq<char>, JsonTree)>, key: Seq<char>) -> Option<Seq<char>> {
    match obj_lookup(es, key) {
        Some(JsonTree::Num(t)) => Some(t),
        _ => None,
    }
}

pub open spec fn lookup_u32(es: Seq<(Seq<char>, JsonTree)>, key: Seq<char>) -> Option<u32> {
    match lookup_num(es, key) {
        Some(t) => token_u32(t),
        None => None,
    }
}

pub open spec fn lookup_arr(es: Seq<(Seq<char>, JsonTree)>, key: Seq<char>) -> Option<
    Seq<JsonTree>,
> {
    match obj_lookup(es, key) {
        Some(JsonTree::Arr(xs)) => Some(xs),
        _ => None,
    }
}

// ---------------------------------------------------------------------------
// Decoding: the meaning of the wire format
// ---------------------------------------------------------------------------

/// An image-layer params object: `src` a string, the four coordinates
/// unsigned integers that fit in `u32`; extra fields are ignored.
pub open spec fn decode_image(es: Seq<(Seq<char>, JsonTree)>) -> Option<ImageLayerV> {
    match (
        lookup_str(es, "src"@),
        lookup_u32(es, "x"@),
        lookup_u32(es, "y"@),
        lookup_u32(es, "width"@),
        lookup_u32(es, "height"@),
    ) {
        (Some(src), Some(x), Some(y), Some(width), Some(height)) => Some(
            ImageLayerV { src, x, y, width, height },
        ),
        _ => None,
    }
}

/// One fill component: a number token denoting an integer in `0 ..= 255`.
pub open spec fn elem_u8(j: JsonTree) -> Option<u8> {
    match j {
        JsonTree::Num(t) => token_u8(t),
        _ => None,
    }
}

/// A fill array's components: every element must be a number token denoting
/// an integer in `0 ..= 255`.
pub open spec fn decode_fill(xs: Seq<JsonTree>) -> Option<Seq<u8>>
    decreases xs.len(),
{
    if xs.len() == 0 {
        Some(Seq::empty())
    } else {
        match (elem_u8(xs[0]), decode_fill(xs.drop_first())) {
            (Some(b), Some(rest)) => Some(seq![b] + rest),
            _ => None,
        }
    }
}

/// A solid-layer params object: `fill` an array of exactly four 8-bit
/// components, the coordinates as for an image layer.
pub open spec fn decode_solid(es: Seq<(Seq<char>, JsonTree)>) -> Option<SolidLayerV> {
    match (
        lookup_arr(es, "fill"@),
        lookup_u32(es, "x"@),
        lookup_u32(es, "y"@),
        lookup_u32(es, "width"@),
        lookup_u32(es, "height"@),
    ) {
        (Some(xs), Some(x), Some(y), Some(width), Some(height)) => if xs.len() == 4 {
            match decode_fill(xs) {
                Some(fill) => Some(SolidLayerV { fill, x, y, width, height }),
                None => None,
            }
        } else {
            None
        },
        _ => None,
    }
}

/// One layer: an object with a `type` tag naming one of the three layer
/// variants and a `params` object decoded per that variant.
pub open spec fn decode_layer(j: JsonTree) -> Option<LayerV> {
    match j {
        JsonTree::Obj(es) => match (obj_lookup(es, "type"@), obj_lookup(es, "params"@)) {
            (Some(JsonTree::Str(tag)), Some(JsonTree::Obj(pes))) => if tag == "PngImage"@ {
                match decode_image(pes) {
                    Some(il) => Some(LayerV::PngImage(il)),
                    None => None,
                }
            } else if tag == "JpgImage"@ {
                match decode_image(pes) {
                    Some(il) => Some(LayerV::JpgImage(il)),
                    None => None,
                }
            } else if tag == "Solid"@ {
                match decode_solid(pes) {
                    Some(sl) => Some(LayerV::Solid(sl)),
                    None => None,
                }
            } else {
                None
            },
            _ => None,
        },
        _ => None,
    }
}

/// A layer sequence decodes element by element, in order; one bad element
/// fails the whole sequence.
pub open spec fn decode_layers(xs: Seq<JsonTree>) -> Option<Seq<LayerV>>
    decreases xs.len(),
{
    if xs.len() == 0 {
        Some(Seq::empty())
    } else {
        match (decode_layer(xs[0]), decode_layers(xs.drop_first())) {
            (Some(l), Some(rest)) => Some(seq![l] + rest),
            _ => None,
        }
    }
}

/// The two bare-string values of `output_format`.
pub open spec fn decode_format(s: Seq<char>) -> Option<ImageFormat> {
    if s == "Png"@ {
        Some(ImageFormat::Png)
    } else if s == "Jpeg"@ {
        Some(ImageFormat::Jpeg)
    } else {
        None
    }
}

/// A `Compose` params object.
pub open spec fn decode_compose(es: Seq<(Seq<char>, JsonTree)>) -> Option<
    CliGenerateImageCommandV,
> {
    match (
        lookup_u32(es, "width"@),
        lookup_u32(es, "height"@),
        lookup_arr(es, "layers"@),
        lookup_str(es, "output_format"@),
        lookup_str(es, "output"@),
    ) {
        (Some(width), Some(height), Some(xs), Some(f), Some(output)) => match (
            decode_layers(xs),
            decode_format(f),
        ) {
            (Some(layers), Some(output_format)) => Some(
                CliGenerateImageCommandV { width, height, layers, output_format, output },
            ),
            _ => None,
        },
        _ => None,
    }
}

/// An `ExtractFrame` params object: two strings and a numeric timestamp,
/// whose token text is kept verbatim.
pub open spec fn decode_extract(es: Seq<(Seq<char>, JsonTree)>) -> Option<ExtractFrameCommandV> {
    match (lookup_str(es, "input"@), lookup_str(es, "output"@), lookup_num(es, "time"@)) {
        (Some(input), Some(output), Some(time)) => Some(
            ExtractFrameCommandV { input, output, time },
        ),
        _ => None,
    }
}

/// The meaning of a whole document: an object whose `type` string names one
/// of the two commands and whose `params` object decodes per that command.
/// Every other tree fails.
pub open spec fn spec_decode(j: JsonTree) -> Option<CliInputCommandV> {
    match j {
        JsonTree::Obj(es) => match (obj_lookup(es, "type"@), obj_lookup(es, "params"@)) {
            (Some(JsonTree::Str(tag)), Some(JsonTree::Obj(pes))) => if tag == "ExtractFrame"@ {
                match decode_extract(pes) {
                    Some(e) => Some(CliInputCommandV::ExtractFrame(e)),
                    None => None,
                }
            } else if tag == "Compose"@ {
                match decode_compose(pes) {
                    Some(g) => Some(CliInputCommandV::Compose(g)),
                    None => None,
                }
            } else {
                None
            },
            _ => None,
        },
        _ => None,
    }
}

// ---------------------------------------------------------------------------
// Lemmas about the decoding functions
// ---------------------------------------------------------------------------

/// The canonical token of `n` is a nonempty digit string that denotes `n`.
pub proof fn lemma_dec_token(n: nat)
    ensures
        dec_token(n).len() > 0,
        all_digits(dec_token(n)),
        digits_val(dec_token(n)) == n,
    decreases n,
{
    if n < 10 {
        reveal_with_fuel(digits_val, 2);
        let s = dec_token(n);
        assert(s =~= seq![digit_char(n)]);
        assert(s.drop_last() =~= Seq::empty());
        assert(digits_val(s) == digit_val(digit_char(n)));
    } else {
        lemma_dec_token(n / 10);
        let s = dec_token(n);
        let d = digit_char(n % 10);
        assert(s == dec_token(n / 10).push(d));
        assert(s.drop_last() =~= dec_token(n / 10));
        assert(s.last() == d);
        assert(digits_val(s) == digits_val(dec_token(n / 10)) * 10 + digit_val(d));
        assert(n / 10 * 10 + n % 10 == n) by (nonlinear_arith);
        assert forall|i: int| 0 <= i < s.len() implies is_digit(#[trigger] s[i]) by {
            if i < s.len() - 1 {
                assert(s[i] == dec_token(n / 10)[i]);
            }
        }
    }
}

/// Round trip of the canonical token through the token readers.
pub proof fn lemma_token_roundtrip(n: nat)
    requires
        n <= u64::MAX,
    ensures
        token_u64(dec_token(n)) == Some(n as u64),
        n <= u32::MAX ==> token_u32(dec_token(n)) == Some(n as u32),
        n <= u8::MAX ==> token_u8(dec_token(n)) == Some(n as u8),
{
    lemma_dec_token(n);
}

/// Looking a key up ignores a prefix of entries that all carry other keys.
pub proof fn lemma_obj_lookup_skip(es: Seq<(Seq<char>, JsonTree)>, key: Seq<char>, i: int)
    requires
        0 <= i <= es.len(),
        forall|j: int| 0 <= j < i ==> (#[trigger] es[j]).0 != key,
    ensures
        obj_lookup(es, key) == obj_lookup(es.skip(i), key),
    decreases i,
{
    if i > 0 {
        assert(es[0].0 != key);
        assert(es.drop_first() =~= es.skip(1));
        assert forall|j: int| 0 <= j < i - 1 implies (#[trigger] es.drop_first()[j]).0 != key by {
            assert(es.drop_first()[j] == es[j + 1]);
        }
        lemma_obj_lookup_skip(es.drop_first(), key, i - 1);
        assert(es.drop_first().skip(i - 1) =~= es.skip(i));
    } else {
        assert(es.skip(0) =~= es);
    }
}

/// A fill array decodes exactly when every element does, and then component
/// by component, in order.
pub proof fn lemma_decode_fill_pointwise(xs: Seq<JsonTree>)
    ensures
        decode_fill(xs) is Some <==> (forall|i: int|
            0 <= i < xs.len() ==> elem_u8(#[trigger] xs[i]) is Some),
        decode_fill(xs) is Some ==> decode_fill(xs)->Some_0.len() == xs.len(),
        decode_fill(xs) is Some ==> forall|i: int|
            0 <= i < xs.len() ==> decode_fill(xs)->Some_0[i] == elem_u8(#[trigger] xs[i])->Some_0,
    decreases xs.len(),
{
    if xs.len() > 0 {
        lemma_decode_fill_pointwise(xs.drop_first());
        assert forall|i: int| 1 <= i < xs.len() implies xs.drop_first()[i - 1] == #[trigger] xs[i]
        by {}
        if decode_fill(xs) is Some {
            let rest = decode_fill(xs.drop_first())->Some_0;
            assert(decode_fill(xs)->Some_0 == seq![elem_u8(xs[0])->Some_0] + rest);
        }
    }
}

/// A layer sequence decodes exactly when every element does, and then layer
/// by layer, in order.
pub proof fn lemma_decode_layers_pointwise(xs: Seq<JsonTree>)
    ensures
        decode_layers(xs) is Some <==> (forall|i: int|
            0 <= i < xs.len() ==> decode_layer(#[trigger] xs[i]) is Some),
        decode_layers(xs) is Some ==> decode_layers(xs)->Some_0.len() == xs.len(),
        decode_layers(xs) is Some ==> forall|i: int|
            0 <= i < xs.len() ==> decode_layers(xs)->Some_0[i] == decode_layer(
                #[trigger] xs[i],
            )->Some_0,
    decreases xs.len(),
{
    if xs.len() > 0 {
        lemma_decode_layers_pointwise(xs.drop_first());
        assert forall|i: int| 1 <= i < xs.len() implies xs.drop_first()[i - 1] == #[trigger] xs[i]
        by {}
        if decode_layers(xs) is Some {
            let rest = decode_layers(xs.drop_first())->Some_0;
            assert(decode_layers(xs)->Some_0 == seq![decode_layer(xs[0])->Some_0] + rest);
        }
    }
}

// ---------------------------------------------------------------------------
// Encoding: command values back to trees
// ---------------------------------------------------------------------------

pub open spec fn encode_image(il: ImageLayerV) -> Seq<(Seq<char>, JsonTree)> {
    seq![
        ("src"@, JsonTree::Str(il.src)),
        ("x"@, JsonTree::Num(dec_token(il.x as nat))),
        ("y"@, JsonTree::Num(dec_token(il.y as nat))),
        ("width"@, JsonTree::Num(dec_token(il.width as nat))),
        ("height"@, JsonTree::Num(dec_token(il.height as nat))),
    ]
}

pub open spec fn encode_fill(fill: Seq<u8>) -> Seq<JsonTree> {
    fill.map_values(|b: u8| JsonTree::Num(dec_token(b as nat)))
}

pub open spec fn encode_solid(sl: SolidLayerV) -> Seq<(Seq<char>, JsonTree)> {
    seq![
        ("fill"@, JsonTree::Arr(encode_fill(sl.fill))),
        ("x"@, JsonTree::Num(dec_token(sl.x as nat))),
        ("y"@, JsonTree::Num(dec_token(sl.y as nat))),
        ("width"@, JsonTree::Num(dec_token(sl.width as nat))),
        ("height"@, JsonTree::Num(dec_token(sl.height as nat))),
    ]
}

pub open spec fn encode_layer(l: LayerV) -> JsonTree {
    match l {
        LayerV::PngImage(il) => JsonTree::Obj(
            seq![
                ("type"@, JsonTree::Str("PngImage"@)),
                ("params"@, JsonTree::Obj(encode_image(il))),
            ],
        ),
        LayerV::JpgImage(il) => JsonTree::Obj(
            seq![
                ("type"@, JsonTree::Str("JpgImage"@)),
                ("params"@, JsonTree::Obj(encode_image(il))),
            ],
        ),
        LayerV::Solid(sl) => JsonTree::Obj(
            seq![
                ("type"@, JsonTree::Str("Solid"@)),
                ("params"@, JsonTree::Obj(encode_solid(sl))),
            ],
        ),
    }
}

pub open spec fn format_tag(f: ImageFormat) -> Seq<char> {
    match f {
        ImageFormat::Png => "Png"@,
        ImageFormat::Jpeg => "Jpeg"@,
    }
}

pub open spec fn encode_compose(g: CliGenerateImageCommandV) -> Seq<(Seq<char>, JsonTree)> {
    seq![
        ("width"@, JsonTree::Num(dec_token(g.width as nat))),
        ("height"@, JsonTree::Num(dec_token(g.height as nat))),
        ("layers"@, JsonTree::Arr(g.layers.map_values(|l: LayerV| encode_layer(l)))),
        ("output_format"@, JsonTree::Str(format_tag(g.output_format))),
        ("output"@, JsonTree::Str(g.output)),
    ]
}

pub open spec fn encode_extract(e: ExtractFrameCommandV) -> Seq<(Seq<char>, JsonTree)> {
    seq![
        ("input"@, JsonTree::Str(e.input)),
        ("output"@, JsonTree::Str(e.output)),
        ("time"@, JsonTree::Num(e.time)),
    ]
}

/// The tree a command value serializes to, in the same tagged-union
/// convention the decoder reads.
pub open spec fn spec_encode(c: CliInputCommandV) -> JsonTree {
    match c {
        CliInputCommandV::ExtractFrame(e) => JsonTree::Obj(
            seq![
                ("type"@, JsonTree::Str("ExtractFrame"@)),
                ("params"@, JsonTree::Obj(encode_extract(e))),
            ],
        ),
        CliInputCommandV::Compose(g) => JsonTree::Obj(
            seq![
                ("type"@, JsonTree::Str("Compose"@)),
                ("params"@, JsonTree::Obj(encode_compose(g))),
            ],
        ),
    }
}

} // verus!
