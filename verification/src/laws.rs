//! The stated properties of the wire format, proved of the spec-level
//! decoding and encoding functions that the executable code is verified
//! against.

use vstd::prelude::*;

use crate::commands::{
    wf_command, wf_layer, CliGenerateImageCommandV, CliInputCommandV, ExtractFrameCommandV,
    ImageFormat, ImageLayerV, LayerV, SolidLayerV,
};
use crate::jsontree::{
    decode_compose, decode_extract, decode_fill, decode_format, decode_image, decode_layer,
    decode_layers, decode_solid, elem_u8, encode_compose, encode_extract, encode_fill,
    encode_image, encode_layer, encode_solid, format_tag, lemma_decode_fill_pointwise,
    lemma_decode_layers_pointwise, lemma_token_roundtrip, lookup_arr, lookup_num, lookup_str,
    lookup_u32, obj_lookup, spec_decode, spec_encode, JsonTree,
};

verus! {

/// A well-formed `ExtractFrame` document decodes to an `ExtractFrame`
/// command whose fields equal the document's fields exactly.
pub proof fn lemma_extract_frame_fidelity(
    es: Seq<(Seq<char>, JsonTree)>,
    pes: Seq<(Seq<char>, JsonTree)>,
    input: Seq<char>,
    output: Seq<char>,
    time: Seq<char>,
)
    requires
        obj_lookup(es, "type"@) == Some(JsonTree::Str("ExtractFrame"@)),
        obj_lookup(es, "params"@) == Some(JsonTree::Obj(pes)),
        lookup_str(pes, "input"@) == Some(input),
        lookup_str(pes, "output"@) == Some(output),
        lookup_num(pes, "time"@) == Some(time),
    ensures
        spec_decode(JsonTree::Obj(es)) == Some(
            CliInputCommandV::ExtractFrame((ExtractFrameCommandV { input, output, time })),
        ),
{
}

/// A decoded `Compose` command keeps its layers in document order: layer by
/// layer, the command's sequence is the decode of the document's sequence.
pub proof fn lemma_compose_preserves_layer_order(
    pes: Seq<(Seq<char>, JsonTree)>,
    xs: Seq<JsonTree>,
    g: CliGenerateImageCommandV,
)
    requires
        lookup_arr(pes, "layers"@) == Some(xs),
        decode_compose(pes) == Some(g),
    ensures
        g.layers.len() == xs.len(),
        forall|i: int| 0 <= i < xs.len() ==> decode_layer(#[trigger] xs[i]) == Some(g.layers[i]),
{
    lemma_decode_layers_pointwise(xs);
}

/// A document whose top-level `type` string names neither command fails
/// decoding; it is never ignored or defaulted.
pub proof fn lemma_unknown_command_tag_fails(es: Seq<(Seq<char>, JsonTree)>, tag: Seq<char>)
    requires
        obj_lookup(es, "type"@) == Some(JsonTree::Str(tag)),
        tag != "ExtractFrame"@,
        tag != "Compose"@,
    ensures
        spec_decode(JsonTree::Obj(es)) is None,
{
}

/// A `Solid` layer whose params object has no `fill` entry fails decoding.
pub proof fn lemma_solid_without_fill_fails(
    es: Seq<(Seq<char>, JsonTree)>,
    pes: Seq<(Seq<char>, JsonTree)>,
)
    requires
        obj_lookup(es, "type"@) == Some(JsonTree::Str("Solid"@)),
        obj_lookup(es, "params"@) == Some(JsonTree::Obj(pes)),
        obj_lookup(pes, "fill"@) is None,
    ensures
        decode_layer(JsonTree::Obj(es)) is None,
{
    reveal_strlit("Solid");
    reveal_strlit("PngImage");
    reveal_strlit("JpgImage");
    assert("Solid"@.len() == 5 && "PngImage"@.len() == 8 && "JpgImage"@.len() == 8);
    assert("Solid"@ != "PngImage"@ && "Solid"@ != "JpgImage"@);
    assert(lookup_arr(pes, "fill"@) is None);
    assert(decode_solid(pes) is None);
}

/// A `fill` array with fewer or more than four entries fails decoding.
pub proof fn lemma_fill_wrong_arity_fails(pes: Seq<(Seq<char>, JsonTree)>, xs: Seq<JsonTree>)
    requires
        lookup_arr(pes, "fill"@) == Some(xs),
        xs.len() != 4,
    ensures
        decode_solid(pes) is None,
{
}

/// A `fill` array with an entry that is not an integer in `0 ..= 255` fails
/// decoding.
pub proof fn lemma_fill_entry_out_of_range_fails(
    pes: Seq<(Seq<char>, JsonTree)>,
    xs: Seq<JsonTree>,
    i: int,
)
    requires
        lookup_arr(pes, "fill"@) == Some(xs),
        0 <= i < xs.len(),
        elem_u8(xs[i]) is None,
    ensures
        decode_solid(pes) is None,
{
    lemma_decode_fill_pointwise(xs);
    if decode_fill(xs) is Some {
        assert(elem_u8(xs[i]) is Some);
    }
}

/// A layer that decodes at all is well formed: a decoded solid carries
/// exactly four fill components.
proof fn lemma_decoded_layer_wf(j: JsonTree)
    ensures
        decode_layer(j) is Some ==> wf_layer(decode_layer(j)->Some_0),
{
    if decode_layer(j) is Some {
        match decode_layer(j)->Some_0 {
            LayerV::Solid(sl) => {
                let pes = obj_lookup(j->Obj_0, "params"@)->Some_0->Obj_0;
                let xs = lookup_arr(pes, "fill"@)->Some_0;
                lemma_decode_fill_pointwise(xs);
                assert(sl.fill.len() == 4);
            },
            _ => {},
        }
    }
}

/// Every value the decoder yields is well formed, so the encode/decode round
/// trip below applies to every decoded command.
pub proof fn lemma_decoded_command_wf(j: JsonTree)
    ensures
        spec_decode(j) is Some ==> wf_command(spec_decode(j)->Some_0),
{
    if spec_decode(j) is Some {
        match spec_decode(j)->Some_0 {
            CliInputCommandV::Compose(g) => {
                let pes = obj_lookup(j->Obj_0, "params"@)->Some_0->Obj_0;
                let xs = lookup_arr(pes, "layers"@)->Some_0;
                lemma_decode_layers_pointwise(xs);
                assert forall|i: int| 0 <= i < g.layers.len() implies wf_layer(
                    #[trigger] g.layers[i],
                ) by {
                    assert(g.layers[i] == decode_layer(xs[i])->Some_0);
                    lemma_decoded_layer_wf(xs[i]);
                }
            },
            CliInputCommandV::ExtractFrame(_) => {},
        }
    }
}

// ---------------------------------------------------------------------------
// Round trip: encoding a command and decoding the result gives it back
// ---------------------------------------------------------------------------

/// Encoded fill components decode back to the same components.
proof fn lemma_fill_roundtrip(fill: Seq<u8>)
    ensures
        decode_fill(encode_fill(fill)) == Some(fill),
{
    let en = encode_fill(fill);
    lemma_decode_fill_pointwise(en);
    assert forall|i: int| 0 <= i < en.len() implies elem_u8(#[trigger] en[i]) == Some(fill[i]) by {
        lemma_token_roundtrip(fill[i] as nat);
    }
    assert(decode_fill(en) is Some);
    assert forall|i: int| 0 <= i < fill.len() implies decode_fill(en)->Some_0[i] == fill[i] by {
        assert(elem_u8(en[i]) == Some(fill[i]));
    }
    assert(decode_fill(en)->Some_0 =~= fill);
}

/// An encoded image-layer params object decodes back to the same record.
proof fn lemma_image_roundtrip(il: ImageLayerV)
    ensures
        decode_image(encode_image(il)) == Some(il),
{
    reveal_strlit("src");
    reveal_strlit("x");
    reveal_strlit("y");
    reveal_strlit("width");
    reveal_strlit("height");
    assert("src"@.len() == 3 && "x"@.len() == 1 && "y"@.len() == 1 && "width"@.len() == 5
        && "height"@.len() == 6);
    assert("x"@[0] == 'x' && "y"@[0] == 'y');
    reveal_with_fuel(obj_lookup, 8);
    lemma_token_roundtrip(il.x as nat);
    lemma_token_roundtrip(il.y as nat);
    lemma_token_roundtrip(il.width as nat);
    lemma_token_roundtrip(il.height as nat);
    let es = encode_image(il);
    assert(lookup_str(es, "src"@) == Some(il.src));
    assert(lookup_u32(es, "x"@) == Some(il.x));
    assert(lookup_u32(es, "y"@) == Some(il.y));
    assert(lookup_u32(es, "width"@) == Some(il.width));
    assert(lookup_u32(es, "height"@) == Some(il.height));
    assert(decode_image(encode_image(il)) == Some(il));
}

/// An encoded solid-layer params object decodes back to the same record.
proof fn lemma_solid_roundtrip(sl: SolidLayerV)
    requires
        sl.fill.len() == 4,
    ensures
        decode_solid(encode_solid(sl)) == Some(sl),
{
    reveal_strlit("fill");
    reveal_strlit("x");
    reveal_strlit("y");
    reveal_strlit("width");
    reveal_strlit("height");
    assert("fill"@.len() == 4 && "x"@.len() == 1 && "y"@.len() == 1 && "width"@.len() == 5
        && "height"@.len() == 6);
    assert("x"@[0] == 'x' && "y"@[0] == 'y');
    reveal_with_fuel(obj_lookup, 8);
    lemma_token_roundtrip(sl.x as nat);
    lemma_token_roundtrip(sl.y as nat);
    lemma_token_roundtrip(sl.width as nat);
    lemma_token_roundtrip(sl.height as nat);
    lemma_fill_roundtrip(sl.fill);
    let es = encode_solid(sl);
    assert(lookup_arr(es, "fill"@) == Some(encode_fill(sl.fill)));
    assert(encode_fill(sl.fill).len() == 4);
    assert(lookup_u32(es, "x"@) == Some(sl.x));
    assert(lookup_u32(es, "y"@) == Some(sl.y));
    assert(lookup_u32(es, "width"@) == Some(sl.width));
    assert(lookup_u32(es, "height"@) == Some(sl.height));
    assert(decode_solid(encode_solid(sl)) == Some(sl));
}

/// An encoded layer decodes back to the same layer.
proof fn lemma_layer_roundtrip(l: LayerV)
    requires
        wf_layer(l),
    ensures
        decode_layer(encode_layer(l)) == Some(l),
{
    reveal_strlit("type");
    reveal_strlit("params");
    reveal_strlit("PngImage");
    reveal_strlit("JpgImage");
    reveal_strlit("Solid");
    assert("type"@.len() == 4 && "params"@.len() == 6);
    assert("PngImage"@.len() == 8 && "JpgImage"@.len() == 8 && "Solid"@.len() == 5);
    assert("PngImage"@[0] == 'P' && "JpgImage"@[0] == 'J');
    reveal_with_fuel(obj_lookup, 4);
    let en = encode_layer(l);
    match l {
        LayerV::PngImage(il) => {
            lemma_image_roundtrip(il);
            assert(obj_lookup(en->Obj_0, "type"@) == Some(JsonTree::Str("PngImage"@)));
            assert(obj_lookup(en->Obj_0, "params"@) == Some(JsonTree::Obj(encode_image(il))));
        },
        LayerV::JpgImage(il) => {
            lemma_image_roundtrip(il);
            assert(obj_lookup(en->Obj_0, "type"@) == Some(JsonTree::Str("JpgImage"@)));
            assert("JpgImage"@ != "PngImage"@);
            assert(obj_lookup(en->Obj_0, "params"@) == Some(JsonTree::Obj(encode_image(il))));
        },
        LayerV::Solid(sl) => {
            lemma_solid_roundtrip(sl);
            assert(obj_lookup(en->Obj_0, "type"@) == Some(JsonTree::Str("Solid"@)));
            assert("Solid"@ != "PngImage"@ && "Solid"@ != "JpgImage"@);
            assert(obj_lookup(en->Obj_0, "params"@) == Some(JsonTree::Obj(encode_solid(sl))));
        },
    }
}

/// Encoded layer sequences decode back to the same sequence, in order.
proof fn lemma_layers_roundtrip(ls: Seq<LayerV>)
    requires
        forall|i: int| 0 <= i < ls.len() ==> wf_layer(#[trigger] ls[i]),
    ensures
        decode_layers(ls.map_values(|l: LayerV| encode_layer(l))) == Some(ls),
{
    let en = ls.map_values(|l: LayerV| encode_layer(l));
    lemma_decode_layers_pointwise(en);
    assert forall|i: int| 0 <= i < en.len() implies decode_layer(#[trigger] en[i]) == Some(ls[i]) by {
        lemma_layer_roundtrip(ls[i]);
    }
    assert(decode_layers(en) is Some);
    assert forall|i: int| 0 <= i < ls.len() implies decode_layers(en)->Some_0[i] == ls[i] by {
        assert(decode_layer(en[i]) == Some(ls[i]));
    }
    assert(decode_layers(en)->Some_0 =~= ls);
}

/// The format tag round trip.
proof fn lemma_format_roundtrip(f: ImageFormat)
    ensures
        decode_format(format_tag(f)) == Some(f),
{
    reveal_strlit("Png");
    reveal_strlit("Jpeg");
    assert("Png"@.len() == 3 && "Jpeg"@.len() == 4);
    match f {
        ImageFormat::Png => {
            assert(format_tag(f) == "Png"@);
            assert(decode_format("Png"@) == Some(ImageFormat::Png));
        },
        ImageFormat::Jpeg => {
            assert(format_tag(f) == "Jpeg"@);
            assert("Jpeg"@ != "Png"@);
            assert(decode_format("Jpeg"@) == Some(ImageFormat::Jpeg));
        },
    }
}

/// Round trip of an `ExtractFrame` command through its encoded tree.
proof fn lemma_extract_roundtrip(e: ExtractFrameCommandV)
    ensures
        spec_decode(spec_encode(CliInputCommandV::ExtractFrame(e)))
            == Some(CliInputCommandV::ExtractFrame(e)),
{
    reveal_strlit("type");
    reveal_strlit("params");
    reveal_strlit("ExtractFrame");
    reveal_strlit("Compose");
    assert("type"@.len() == 4 && "params"@.len() == 6);
    assert("ExtractFrame"@.len() == 12 && "Compose"@.len() == 7);
    reveal_strlit("input");
    reveal_strlit("output");
    reveal_strlit("time");
    assert("input"@.len() == 5 && "output"@.len() == 6 && "time"@.len() == 4);
    reveal_with_fuel(obj_lookup, 8);
    let es = encode_extract(e);
    assert(lookup_str(es, "input"@) == Some(e.input));
    assert(lookup_str(es, "output"@) == Some(e.output));
    assert(lookup_num(es, "time"@) == Some(e.time));
    assert(decode_extract(encode_extract(e)) == Some(e));
    let top = spec_encode(CliInputCommandV::ExtractFrame(e));
    assert(obj_lookup(top->Obj_0, "type"@) == Some(JsonTree::Str("ExtractFrame"@)));
    assert(obj_lookup(top->Obj_0, "params"@) == Some(JsonTree::Obj(es)));
}

/// Round trip of a `Compose` command through its encoded tree.
#[verifier::rlimit(50)]
proof fn lemma_compose_roundtrip(g: CliGenerateImageCommandV)
    requires
        forall|i: int| 0 <= i < g.layers.len() ==> wf_layer(#[trigger] g.layers[i]),
    ensures
        spec_decode(spec_encode(CliInputCommandV::Compose(g)))
            == Some(CliInputCommandV::Compose(g)),
{
    reveal_strlit("type");
    reveal_strlit("params");
    reveal_strlit("ExtractFrame");
    reveal_strlit("Compose");
    assert("type"@.len() == 4 && "params"@.len() == 6);
    assert("ExtractFrame"@.len() == 12 && "Compose"@.len() == 7);
    reveal_strlit("width");
    reveal_strlit("height");
    reveal_strlit("layers");
    reveal_strlit("output_format");
    reveal_strlit("output");
    assert("width"@.len() == 5 && "height"@.len() == 6 && "layers"@.len() == 6
        && "output_format"@.len() == 13 && "output"@.len() == 6);
    assert("height"@[0] == 'h' && "layers"@[0] == 'l' && "output"@[0] == 'o');
    reveal_with_fuel(obj_lookup, 8);
    lemma_layers_roundtrip(g.layers);
    lemma_token_roundtrip(g.width as nat);
    lemma_token_roundtrip(g.height as nat);
    lemma_format_roundtrip(g.output_format);
    let es = encode_compose(g);
    assert(lookup_u32(es, "width"@) == Some(g.width));
    assert(lookup_u32(es, "height"@) == Some(g.height));
    assert(lookup_arr(es, "layers"@) == Some(g.layers.map_values(|l: LayerV| encode_layer(l))));
    assert(lookup_str(es, "output_format"@) == Some(format_tag(g.output_format)));
    assert(lookup_str(es, "output"@) == Some(g.output));
    assert(decode_compose(encode_compose(g)) == Some(g));
    let top = spec_encode(CliInputCommandV::Compose(g));
    assert(obj_lookup(top->Obj_0, "type"@) == Some(JsonTree::Str("Compose"@)));
    assert("Compose"@ != "ExtractFrame"@);
    assert(obj_lookup(top->Obj_0, "params"@) == Some(JsonTree::Obj(es)));
}

/// Decoding is idempotent on re-serialization: encoding any well-formed
/// command value and decoding the resulting tree yields the value again,
/// so a decoded value survives an encode/decode cycle unchanged.
pub proof fn lemma_encode_decode_roundtrip(c: CliInputCommandV)
    requires
        wf_command(c),
    ensures
        spec_decode(spec_encode(c)) == Some(c),
{
    match c {
        CliInputCommandV::ExtractFrame(e) => lemma_extract_roundtrip(e),
        CliInputCommandV::Compose(g) => lemma_compose_roundtrip(g),
    }
}

} // verus!
