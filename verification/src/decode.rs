//! The executable decoder: from a document text, or an already-parsed JSON
//! value, to a typed command.
//!
//! Each function's contract says that it returns exactly what the spec-level
//! decoding functions of [`crate::jsontree`] give on the model of its input:
//! `Ok` with the decoded command where the model decodes, an error otherwise.

use vstd::prelude::*;

use crate::commands::{
    CliGenerateImageCommand, CliInputCommand, DecodeError, ExtractFrameCommand, ImageFormat,
    ImageLayer, JsonNumber, Layer, SolidLayer,
};
use crate::jsontree::{
    decode_compose, decode_extract, decode_fill, decode_image, decode_layer, decode_layers,
    decode_solid, elem_u8, lemma_decode_fill_pointwise, lemma_decode_layers_pointwise,
    lemma_obj_lookup_skip, lookup_arr, lookup_num, lookup_str, lookup_u32, obj_lookup,
    spec_decode, JsonTree,
};
use crate::jsonval::{
    arr_elems, error_text, jmodel, num_token, num_u64, obj_entries, parse_json, parsed, str_value,
};

verus! {

/// The tree entries that a vector of decoded key/value pairs stands for.
pub open spec fn entries_model(es: Seq<(String, serde_json::Value)>) -> Seq<
    (Seq<char>, JsonTree),
> {
    es.map_values(|p: (String, serde_json::Value)| (p.0@, jmodel(p.1)))
}

/// The trees that a vector of array elements stands for.
pub open spec fn vals_model(xs: Seq<serde_json::Value>) -> Seq<JsonTree> {
    xs.map_values(|x: serde_json::Value| jmodel(x))
}

fn schema_error(msg: &str) -> (e: DecodeError)
    ensures
        e.message@ == msg@,
{
    DecodeError { message: msg.to_owned() }
}

/// The first entry carrying `key`, as [`obj_lookup`] reads the model.
fn find_key<'a>(entries: &'a Vec<(String, serde_json::Value)>, key: &String) -> (r: Option<
    &'a serde_json::Value,
>)
    ensures
        (match obj_lookup(entries_model(entries@), key@) {
            Some(t) => r is Some && jmodel(*r->Some_0) == t,
            None => r is None,
        }),
{
    let ghost m = entries_model(entries@);
    let mut i: usize = 0;
    while i < entries.len()
        invariant
            0 <= i <= entries.len(),
            m == entries_model(entries@),
            forall|j: int| 0 <= j < i ==> (#[trigger] m[j]).0 != key@,
        decreases entries.len() - i,
    {
        let p = &entries[i];
        if p.0 == *key {
            proof {
                lemma_obj_lookup_skip(m, key@, i as int);
                assert(m.skip(i as int)[0] == m[i as int]);
            }
            return Some(&p.1);
        }
        i += 1;
    }
    proof {
        lemma_obj_lookup_skip(m, key@, entries.len() as int);
        assert(m.skip(entries.len() as int) =~= Seq::empty());
    }
    None
}

/// A required string field, per [`lookup_str`].
fn get_str(entries: &Vec<(String, serde_json::Value)>, key: &String) -> (r: Option<String>)
    ensures
        (match lookup_str(entries_model(entries@), key@) {
            Some(s) => r is Some && r->Some_0@ == s,
            None => r is None,
        }),
{
    match find_key(entries, key) {
        Some(v) => str_value(v),
        None => None,
    }
}

/// A required number field, kept as its token text, per [`lookup_num`].
fn get_num(entries: &Vec<(String, serde_json::Value)>, key: &String) -> (r: Option<String>)
    ensures
        (match lookup_num(entries_model(entries@), key@) {
            Some(t) => r is Some && r->Some_0@ == t,
            None => r is None,
        }),
{
    match find_key(entries, key) {
        Some(v) => num_token(v),
        None => None,
    }
}

/// A required unsigned 32-bit field, per [`lookup_u32`].
fn get_u32(entries: &Vec<(String, serde_json::Value)>, key: &String) -> (r: Option<u32>)
    ensures
        r == lookup_u32(entries_model(entries@), key@),
{
    match find_key(entries, key) {
        Some(v) => match num_u64(v) {
            Some(n) => if n <= u32::MAX as u64 {
                Some(n as u32)
            } else {
                None
            },
            None => None,
        },
        None => None,
    }
}

/// A required array field, per [`lookup_arr`].
fn get_arr(entries: &Vec<(String, serde_json::Value)>, key: &String) -> (r: Option<
    Vec<serde_json::Value>,
>)
    ensures
        (match lookup_arr(entries_model(entries@), key@) {
            Some(xs) => r is Some && vals_model(r->Some_0@) == xs,
            None => r is None,
        }),
{
    match find_key(entries, key) {
        Some(v) => arr_elems(v),
        None => None,
    }
}

/// A required object field, as its entry vector.
fn get_obj(entries: &Vec<(String, serde_json::Value)>, key: &String) -> (r: Option<
    Vec<(String, serde_json::Value)>,
>)
    ensures
        (match obj_lookup(entries_model(entries@), key@) {
            Some(JsonTree::Obj(es)) => r is Some && entries_model(r->Some_0@) == es,
            _ => r is None,
        }),
{
    match find_key(entries, key) {
        Some(v) => obj_entries(v),
        None => None,
    }
}

/// An image-layer params object, per [`decode_image`].
fn decode_image_entries(entries: &Vec<(String, serde_json::Value)>) -> (r: Result<
    ImageLayer,
    DecodeError,
>)
    ensures
        (match decode_image(entries_model(entries@)) {
            Some(il) => r is Ok && r->Ok_0@ == il,
            None => r is Err,
        }),
{
    let src = match get_str(entries, &("src".to_owned())) {
        Some(s) => s,
        None => return Err(schema_error("image layer: missing or malformed src")),
    };
    let x = match get_u32(entries, &("x".to_owned())) {
        Some(n) => n,
        None => return Err(schema_error("image layer: missing or malformed x")),
    };
    let y = match get_u32(entries, &("y".to_owned())) {
        Some(n) => n,
        None => return Err(schema_error("image layer: missing or malformed y")),
    };
    let width = match get_u32(entries, &("width".to_owned())) {
        Some(n) => n,
        None => return Err(schema_error("image layer: missing or malformed width")),
    };
    let height = match get_u32(entries, &("height".to_owned())) {
        Some(n) => n,
        None => return Err(schema_error("image layer: missing or malformed height")),
    };
    Ok(ImageLayer { src, x, y, width, height })
}

/// A solid-layer params object, per [`decode_solid`].
fn decode_solid_entries(entries: &Vec<(String, serde_json::Value)>) -> (r: Result<
    SolidLayer,
    DecodeError,
>)
    ensures
        (match decode_solid(entries_model(entries@)) {
            Some(sl) => r is Ok && r->Ok_0@ == sl,
            None => r is Err,
        }),
{
    let xs = match get_arr(entries, &("fill".to_owned())) {
        Some(xs) => xs,
        None => return Err(schema_error("solid layer: missing or malformed fill")),
    };
    let ghost xsm = vals_model(xs@);
    proof {
        lemma_decode_fill_pointwise(xsm);
    }
    if xs.len() != 4 {
        return Err(schema_error("solid layer: fill must hold exactly 4 components"));
    }
    proof {
        assert(xsm[0] == jmodel(xs@[0]));
        assert(xsm[1] == jmodel(xs@[1]));
        assert(xsm[2] == jmodel(xs@[2]));
        assert(xsm[3] == jmodel(xs@[3]));
    }
    let c0 = match fill_component(&xs[0]) {
        Some(b) => b,
        None => return Err(schema_error("solid layer: fill component out of range")),
    };
    let c1 = match fill_component(&xs[1]) {
        Some(b) => b,
        None => return Err(schema_error("solid layer: fill component out of range")),
    };
    let c2 = match fill_component(&xs[2]) {
        Some(b) => b,
        None => return Err(schema_error("solid layer: fill component out of range")),
    };
    let c3 = match fill_component(&xs[3]) {
        Some(b) => b,
        None => return Err(schema_error("solid layer: fill component out of range")),
    };
    let fill: [u8; 4] = [c0, c1, c2, c3];
    proof {
        assert(decode_fill(xsm) is Some);
        assert forall|k: int| 0 <= k < 4 implies fill@[k] == decode_fill(xsm)->Some_0[k] by {
            assert(elem_u8(xsm[k]) is Some);
        }
        assert(fill@ =~= decode_fill(xsm)->Some_0);
    }
    let x = match get_u32(entries, &("x".to_owned())) {
        Some(n) => n,
        None => return Err(schema_error("solid layer: missing or malformed x")),
    };
    let y = match get_u32(entries, &("y".to_owned())) {
        Some(n) => n,
        None => return Err(schema_error("solid layer: missing or malformed y")),
    };
    let width = match get_u32(entries, &("width".to_owned())) {
        Some(n) => n,
        None => return Err(schema_error("solid layer: missing or malformed width")),
    };
    let height = match get_u32(entries, &("height".to_owned())) {
        Some(n) => n,
        None => return Err(schema_error("solid layer: missing or malformed height")),
    };
    Ok(SolidLayer { fill, x, y, width, height })
}

/// One fill component, per [`elem_u8`] on the value's model.
fn fill_component(v: &serde_json::Value) -> (r: Option<u8>)
    ensures
        r == elem_u8(jmodel(*v)),
{
    match num_u64(v) {
        Some(n) => if n <= u8::MAX as u64 {
            Some(n as u8)
        } else {
            None
        },
        None => None,
    }
}

/// One layer value, per [`decode_layer`] on the value's model.
fn decode_layer_value(v: &serde_json::Value) -> (r: Result<Layer, DecodeError>)
    ensures
        (match decode_layer(jmodel(*v)) {
            Some(l) => r is Ok && r->Ok_0@ == l,
            None => r is Err,
        }),
{
    let entries = match obj_entries(v) {
        Some(es) => es,
        None => return Err(schema_error("layer: not an object")),
    };
    let tag = match get_str(&entries, &("type".to_owned())) {
        Some(t) => t,
        None => return Err(schema_error("layer: missing or malformed type tag")),
    };
    let params = match get_obj(&entries, &("params".to_owned())) {
        Some(p) => p,
        None => return Err(schema_error("layer: missing or malformed params")),
    };
    if tag == "PngImage".to_owned() {
        match decode_image_entries(&params) {
            Ok(il) => Ok(Layer::PngImage(il)),
            Err(e) => Err(e),
        }
    } else if tag == "JpgImage".to_owned() {
        match decode_image_entries(&params) {
            Ok(il) => Ok(Layer::JpgImage(il)),
            Err(e) => Err(e),
        }
    } else if tag == "Solid".to_owned() {
        match decode_solid_entries(&params) {
            Ok(sl) => Ok(Layer::Solid(sl)),
            Err(e) => Err(e),
        }
    } else {
        Err(schema_error("layer: unknown type tag"))
    }
}

/// A `Compose` params object, per [`decode_compose`].
#[verifier::loop_isolation(false)]
fn decode_compose_entries(entries: &Vec<(String, serde_json::Value)>) -> (r: Result<
    CliGenerateImageCommand,
    DecodeError,
>)
    ensures
        (match decode_compose(entries_model(entries@)) {
            Some(g) => r is Ok && r->Ok_0@ == g,
            None => r is Err,
        }),
{
    let width = match get_u32(entries, &("width".to_owned())) {
        Some(n) => n,
        None => return Err(schema_error("compose: missing or malformed width")),
    };
    let height = match get_u32(entries, &("height".to_owned())) {
        Some(n) => n,
        None => return Err(schema_error("compose: missing or malformed height")),
    };
    let xs = match get_arr(entries, &("layers".to_owned())) {
        Some(xs) => xs,
        None => return Err(schema_error("compose: missing or malformed layers")),
    };
    let ghost xsm = vals_model(xs@);
    proof {
        lemma_decode_layers_pointwise(xsm);
    }
    let mut layers: Vec<Layer> = Vec::new();
    let mut i: usize = 0;
    while i < xs.len()
        invariant
            0 <= i <= xs.len(),
            xsm == vals_model(xs@),
            layers@.len() == i,
            forall|j: int|
                0 <= j < i ==> decode_layer(#[trigger] xsm[j]) is Some && layers@[j]@
                    == decode_layer(xsm[j])->Some_0,
        decreases xs.len() - i,
    {
        proof {
            assert(xsm[i as int] == jmodel(xs@[i as int]));
        }
        match decode_layer_value(&xs[i]) {
            Ok(l) => layers.push(l),
            Err(e) => {
                proof {
                    lemma_decode_layers_pointwise(xsm);
                    if decode_layers(xsm) is Some {
                        assert(decode_layer(xsm[i as int]) is Some);
                    }
                    assert(decode_layers(xsm) is None);
                }
                return Err(e);
            },
        }
        i += 1;
    }
    proof {
        lemma_decode_layers_pointwise(xsm);
        assert(decode_layers(xsm) is Some);
        assert forall|j: int| 0 <= j < layers@.len() implies layers@.map_values(|l: Layer| l@)[j]
            == decode_layers(xsm)->Some_0[j] by {
            assert(layers@[j]@ == decode_layer(xsm[j])->Some_0);
        }
        assert(layers@.map_values(|l: Layer| l@) =~= decode_layers(xsm)->Some_0);
    }
    let format_text = match get_str(entries, &("output_format".to_owned())) {
        Some(t) => t,
        None => return Err(schema_error("compose: missing or malformed output_format")),
    };
    let output_format = if format_text == "Png".to_owned() {
        ImageFormat::Png
    } else if format_text == "Jpeg".to_owned() {
        ImageFormat::Jpeg
    } else {
        return Err(schema_error("compose: unknown output_format"));
    };
    let output = match get_str(entries, &("output".to_owned())) {
        Some(s) => s,
        None => return Err(schema_error("compose: missing or malformed output")),
    };
    Ok(CliGenerateImageCommand { width, height, layers, output_format, output })
}

/// An `ExtractFrame` params object, per [`decode_extract`].
fn decode_extract_entries(entries: &Vec<(String, serde_json::Value)>) -> (r: Result<
    ExtractFrameCommand,
    DecodeError,
>)
    ensures
        (match decode_extract(entries_model(entries@)) {
            Some(e) => r is Ok && r->Ok_0@ == e,
            None => r is Err,
        }),
{
    let input = match get_str(entries, &("input".to_owned())) {
        Some(s) => s,
        None => return Err(schema_error("extract frame: missing or malformed input")),
    };
    let output = match get_str(entries, &("output".to_owned())) {
        Some(s) => s,
        None => return Err(schema_error("extract frame: missing or malformed output")),
    };
    let time = match get_num(entries, &("time".to_owned())) {
        Some(t) => t,
        None => return Err(schema_error("extract frame: missing or malformed time")),
    };
    Ok(ExtractFrameCommand { input, output, time: JsonNumber { raw: time } })
}

/// A whole parsed document, per [`spec_decode`] on the value's model: the
/// typed command the document stands for, or an error for every tree the
/// wire format does not admit.
pub fn decode_command_value(v: &serde_json::Value) -> (r: Result<CliInputCommand, DecodeError>)
    ensures
        (match spec_decode(jmodel(*v)) {
            Some(c) => r is Ok && r->Ok_0@ == c,
            None => r is Err,
        }),
{
    let entries = match obj_entries(v) {
        Some(es) => es,
        None => return Err(schema_error("command: not an object")),
    };
    let tag = match get_str(&entries, &("type".to_owned())) {
        Some(t) => t,
        None => return Err(schema_error("command: missing or malformed type tag")),
    };
    let params = match get_obj(&entries, &("params".to_owned())) {
        Some(p) => p,
        None => return Err(schema_error("command: missing or malformed params")),
    };
    if tag == "ExtractFrame".to_owned() {
        match decode_extract_entries(&params) {
            Ok(e) => Ok(CliInputCommand::ExtractFrame(e)),
            Err(e) => Err(e),
        }
    } else if tag == "Compose".to_owned() {
        match decode_compose_entries(&params) {
            Ok(g) => Ok(CliInputCommand::Compose(g)),
            Err(e) => Err(e),
        }
    } else {
        Err(schema_error("command: unknown type tag"))
    }
}

/// Decode a single JSON document into a typed command.
///
/// Exactly the texts whose parse yields a tree admitted by [`spec_decode`]
/// succeed, and the returned command is the one that tree stands for; every
/// other text — malformed JSON, an unknown discriminant, a missing field, a
/// wrong field type — yields a [`DecodeError`].
pub fn parse_cli(json: &str) -> (r: Result<CliInputCommand, DecodeError>)
    ensures
        (match parsed(json@) {
            Some(j) => match spec_decode(j) {
                Some(c) => r is Ok && r->Ok_0@ == c,
                None => r is Err,
            },
            None => r is Err,
        }),
{
    match parse_json(json) {
        Ok(v) => decode_command_value(&v),
        Err(e) => Err(DecodeError { message: error_text(&e) }),
    }
}

} // verus!

