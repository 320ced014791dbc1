//! The executable encoder: a command value printed as a JSON document text.
//!
//! The text layout is fixed by the spec-level print functions here; the
//! executable code is proved to emit exactly that text.  Strings are escaped
//! as JSON asks: quote and backslash with a backslash, control characters as
//! `\u00XX`; everything else is emitted verbatim.  A number field is printed
//! as its canonical decimal token, a timestamp as the token text it carries.

use vstd::prelude::*;

use crate::commands::{
    CliGenerateImageCommandV, CliInputCommand, CliInputCommandV, ExtractFrameCommandV,
    ImageFormat, ImageLayerV, LayerV, SolidLayerV,
};
use crate::jsontree::{dec_token, digit_char, format_tag};

verus! {

/// The lower-case hexadecimal digit of `d`, for `d < 16`.
pub open spec fn hex_char(d: nat) -> char {
    if d < 10 {
        digit_char(d)
    } else if d == 10 {
        'a'
    } else if d == 11 {
        'b'
    } else if d == 12 {
        'c'
    } else if d == 13 {
        'd'
    } else if d == 14 {
        'e'
    } else {
        'f'
    }
}

/// The escape of one character inside a JSON string literal.
pub open spec fn escape_char(c: char) -> Seq<char> {
    if c == '"' {
        "\\\""@
    } else if c == '\\' {
        "\\\\"@
    } else if (c as nat) < 32 {
        "\\u00"@ + seq![hex_char((c as nat) / 16)] + seq![hex_char((c as nat) % 16)]
    } else {
        seq![c]
    }
}

/// The escape of a whole character sequence.
pub open spec fn escape_str(s: Seq<char>) -> Seq<char>
    decreases s.len(),
{
    if s.len() == 0 {
        Seq::empty()
    } else {
        escape_char(s[0]) + escape_str(s.drop_first())
    }
}

/// A JSON string literal: the escaped characters between quotes.
pub open spec fn print_string(s: Seq<char>) -> Seq<char> {
    "\""@ + escape_str(s) + "\""@
}

pub open spec fn print_image(il: ImageLayerV) -> Seq<char> {
    "{\"src\":"@ + print_string(il.src) + ",\"x\":"@ + dec_token(il.x as nat) + ",\"y\":"@
        + dec_token(il.y as nat) + ",\"width\":"@ + dec_token(il.width as nat) + ",\"height\":"@
        + dec_token(il.height as nat) + "}"@
}

/// The four fill components between brackets, comma separated.
pub open spec fn print_fill(fill: Seq<u8>) -> Seq<char>
    recommends
        fill.len() == 4,
{
    "["@ + dec_token(fill[0] as nat) + ","@ + dec_token(fill[1] as nat) + ","@ + dec_token(
        fill[2] as nat,
    ) + ","@ + dec_token(fill[3] as nat) + "]"@
}

pub open spec fn print_solid(sl: SolidLayerV) -> Seq<char> {
    "{\"fill\":"@ + print_fill(sl.fill) + ",\"x\":"@ + dec_token(sl.x as nat) + ",\"y\":"@
        + dec_token(sl.y as nat) + ",\"width\":"@ + dec_token(sl.width as nat) + ",\"height\":"@
        + dec_token(sl.height as nat) + "}"@
}

pub open spec fn print_layer(l: LayerV) -> Seq<char> {
    match l {
        LayerV::PngImage(il) => "{\"type\":\"PngImage\",\"params\":"@ + print_image(il) + "}"@,
        LayerV::JpgImage(il) => "{\"type\":\"JpgImage\",\"params\":"@ + print_image(il) + "}"@,
        LayerV::Solid(sl) => "{\"type\":\"Solid\",\"params\":"@ + print_solid(sl) + "}"@,
    }
}

/// Every layer from the given position on, each preceded by a comma.
pub open spec fn print_layers_rest(ls: Seq<LayerV>) -> Seq<char>
    decreases ls.len(),
{
    if ls.len() == 0 {
        Seq::empty()
    } else {
        ","@ + print_layer(ls[0]) + print_layers_rest(ls.drop_first())
    }
}

/// The layers array, comma separated between brackets.
pub open spec fn print_layers(ls: Seq<LayerV>) -> Seq<char> {
    if ls.len() == 0 {
        "[]"@
    } else {
        "["@ + print_layer(ls[0]) + print_layers_rest(ls.drop_first()) + "]"@
    }
}

pub open spec fn print_compose(g: CliGenerateImageCommandV) -> Seq<char> {
    "{\"width\":"@ + dec_token(g.width as nat) + ",\"height\":"@ + dec_token(g.height as nat)
        + ",\"layers\":"@ + print_layers(g.layers) + ",\"output_format\":\""@ + format_tag(
        g.output_format,
    ) + "\",\"output\":"@ + print_string(g.output) + "}"@
}

pub open spec fn print_extract(e: ExtractFrameCommandV) -> Seq<char> {
    "{\"input\":"@ + print_string(e.input) + ",\"output\":"@ + print_string(e.output)
        + ",\"time\":"@ + e.time + "}"@
}

/// The document text of a whole command, in the tagged-union convention the
/// decoder reads.
pub open spec fn print_cli(c: CliInputCommandV) -> Seq<char> {
    match c {
        CliInputCommandV::ExtractFrame(e) => "{\"type\":\"ExtractFrame\",\"params\":"@
            + print_extract(e) + "}"@,
        CliInputCommandV::Compose(g) => "{\"type\":\"Compose\",\"params\":"@ + print_compose(g)
            + "}"@,
    }
}

/// Relies on `String::push`: appends the given character to the end of the
/// string.
#[verifier::external_body]
fn push_char(out: &mut String, c: char)
    ensures
        final(out)@ == old(out)@.push(c),
{
    out.push(c);
}

/// The decimal digit character of `d`, executable side.
fn digit_char_exec(d: u32) -> (r: char)
    requires
        d < 10,
    ensures
        r == digit_char(d as nat),
{
    if d == 0 {
        '0'
    } else if d == 1 {
        '1'
    } else if d == 2 {
        '2'
    } else if d == 3 {
        '3'
    } else if d == 4 {
        '4'
    } else if d == 5 {
        '5'
    } else if d == 6 {
        '6'
    } else if d == 7 {
        '7'
    } else if d == 8 {
        '8'
    } else {
        '9'
    }
}

/// The lower-case hexadecimal digit character of `d`, executable side.
fn hex_char_exec(d: u32) -> (r: char)
    requires
        d < 16,
    ensures
        r == hex_char(d as nat),
{
    if d < 10 {
        digit_char_exec(d)
    } else if d == 10 {
        'a'
    } else if d == 11 {
        'b'
    } else if d == 12 {
        'c'
    } else if d == 13 {
        'd'
    } else if d == 14 {
        'e'
    } else {
        'f'
    }
}

/// Appends the canonical decimal token of `n`.
fn append_u32(out: &mut String, n: u32)
    ensures
        final(out)@ == old(out)@ + dec_token(n as nat),
    decreases n,
{
    if n >= 10 {
        append_u32(out, n / 10);
    }
    let d = digit_char_exec(n % 10);
    push_char(out, d);
    proof {
        if n >= 10 {
            assert(dec_token(n as nat) == dec_token(n as nat / 10).push(digit_char(n as nat % 10)));
            assert(out@ =~= old(out)@ + dec_token(n as nat));
        } else {
            assert(dec_token(n as nat) == seq![digit_char(n as nat)]);
            assert(out@ =~= old(out)@ + dec_token(n as nat));
        }
    }
}

/// Appends the escapes of the characters of `s` from position `i` on.
fn append_escaped_from(out: &mut String, s: &str, i: usize)
    requires
        i <= s@.len(),
    ensures
        final(out)@ == old(out)@ + escape_str(s@.skip(i as int)),
    decreases s@.len() - i,
{
    if i == s.unicode_len() {
        proof {
            assert(s@.skip(i as int) =~= Seq::empty());
            assert(out@ =~= old(out)@ + escape_str(s@.skip(i as int)));
        }
        return ;
    }
    let c = s.get_char(i);
    if c == '"' {
        push_char(out, '\\');
        push_char(out, '"');
        proof {
            reveal_strlit("\\\"");
            assert("\\\""@.len() == 2 && "\\\""@[0] == '\\' && "\\\""@[1] == '"');
            assert(old(out)@.push('\\').push('"') =~= old(out)@ + escape_char(c));
        }
    } else if c == '\\' {
        push_char(out, '\\');
        push_char(out, '\\');
        proof {
            reveal_strlit("\\\\");
            assert("\\\\"@.len() == 2 && "\\\\"@[0] == '\\' && "\\\\"@[1] == '\\');
            assert(old(out)@.push('\\').push('\\') =~= old(out)@ + escape_char(c));
        }
    } else if (c as u32) < 32 {
        let code = c as u32;
        push_char(out, '\\');
        push_char(out, 'u');
        push_char(out, '0');
        push_char(out, '0');
        let hi = hex_char_exec(code / 16);
        let lo = hex_char_exec(code % 16);
        push_char(out, hi);
        push_char(out, lo);
        proof {
            reveal_strlit("\\u00");
            assert("\\u00"@.len() == 4 && "\\u00"@[0] == '\\' && "\\u00"@[1] == 'u' && "\\u00"@[2]
                == '0' && "\\u00"@[3] == '0');
            assert(old(out)@.push('\\').push('u').push('0').push('0').push(hi).push(lo) =~= old(
                out,
            )@ + escape_char(c));
        }
    } else {
        push_char(out, c);
        proof {
            assert(old(out)@.push(c) =~= old(out)@ + escape_char(c));
        }
    }
    let ghost mid = out@;
    append_escaped_from(out, s, i + 1);
    proof {
        assert(s@.skip(i as int).drop_first() =~= s@.skip(i as int + 1));
        assert(s@.skip(i as int)[0] == s@[i as int]);
        assert(escape_str(s@.skip(i as int)) == escape_char(s@[i as int]) + escape_str(
            s@.skip(i as int + 1),
        ));
        assert(out@ =~= old(out)@ + escape_str(s@.skip(i as int)));
    }
}

/// Appends a JSON string literal: the escaped text between quotes.
fn append_string(out: &mut String, s: &str)
    ensures
        final(out)@ == old(out)@ + print_string(s@),
{
    push_char(out, '"');
    append_escaped_from(out, s, 0);
    push_char(out, '"');
    proof {
        reveal_strlit("\"");
        assert("\""@.len() == 1 && "\""@[0] == '"');
        assert(s@.skip(0) =~= s@);
        assert(out@ =~= old(out)@ + print_string(s@));
    }
}

fn append_image(out: &mut String, il: &crate::commands::ImageLayer)
    ensures
        final(out)@ == old(out)@ + print_image(il@),
{
    out.append("{\"src\":");
    append_string(out, il.src.as_str());
    out.append(",\"x\":");
    append_u32(out, il.x);
    out.append(",\"y\":");
    append_u32(out, il.y);
    out.append(",\"width\":");
    append_u32(out, il.width);
    out.append(",\"height\":");
    append_u32(out, il.height);
    out.append("}");
    proof {
        assert(out@ =~= old(out)@ + print_image(il@));
    }
}

/// Appends the four fill components between brackets.
fn append_fill(out: &mut String, fill: &[u8; 4])
    ensures
        final(out)@ == old(out)@ + print_fill(fill@),
{
    out.append("[");
    append_u32(out, fill[0] as u32);
    out.append(",");
    append_u32(out, fill[1] as u32);
    out.append(",");
    append_u32(out, fill[2] as u32);
    out.append(",");
    append_u32(out, fill[3] as u32);
    out.append("]");
    proof {
        assert(out@ =~= old(out)@ + print_fill(fill@));
    }
}

fn append_solid(out: &mut String, sl: &crate::commands::SolidLayer)
    ensures
        final(out)@ == old(out)@ + print_solid(sl@),
{
    out.append("{\"fill\":");
    append_fill(out, &sl.fill);
    out.append(",\"x\":");
    append_u32(out, sl.x);
    out.append(",\"y\":");
    append_u32(out, sl.y);
    out.append(",\"width\":");
    append_u32(out, sl.width);
    out.append(",\"height\":");
    append_u32(out, sl.height);
    out.append("}");
    proof {
        assert(out@ =~= old(out)@ + print_solid(sl@));
    }
}

fn append_layer(out: &mut String, l: &crate::commands::Layer)
    ensures
        final(out)@ == old(out)@ + print_layer(l@),
{
    match l {
        crate::commands::Layer::PngImage(il) => {
            out.append("{\"type\":\"PngImage\",\"params\":");
            append_image(out, il);
            out.append("}");
        },
        crate::commands::Layer::JpgImage(il) => {
            out.append("{\"type\":\"JpgImage\",\"params\":");
            append_image(out, il);
            out.append("}");
        },
        crate::commands::Layer::Solid(sl) => {
            out.append("{\"type\":\"Solid\",\"params\":");
            append_solid(out, sl);
            out.append("}");
        },
    }
    proof {
        assert(out@ =~= old(out)@ + print_layer(l@));
    }
}

fn append_layers_rest(out: &mut String, layers: &Vec<crate::commands::Layer>, i: usize)
    requires
        i <= layers@.len(),
    ensures
        final(out)@ == old(out)@ + print_layers_rest(
            layers@.map_values(|l: crate::commands::Layer| l@).skip(i as int),
        ),
    decreases layers@.len() - i,
{
    let ghost lsm = layers@.map_values(|l: crate::commands::Layer| l@);
    if i == layers.len() {
        proof {
            assert(lsm.skip(i as int) =~= Seq::empty());
            assert(out@ =~= old(out)@ + print_layers_rest(lsm.skip(i as int)));
        }
        return ;
    }
    out.append(",");
    append_layer(out, &layers[i]);
    append_layers_rest(out, layers, i + 1);
    proof {
        reveal_strlit(",");
        assert(lsm.skip(i as int).drop_first() =~= lsm.skip(i as int + 1));
        assert(lsm.skip(i as int)[0] == lsm[i as int]);
        assert(lsm[i as int] == layers@[i as int]@);
        assert(print_layers_rest(lsm.skip(i as int)) == ","@ + print_layer(lsm[i as int])
            + print_layers_rest(lsm.skip(i as int + 1)));
        assert(out@ =~= old(out)@ + print_layers_rest(lsm.skip(i as int)));
    }
}

fn append_layers(out: &mut String, layers: &Vec<crate::commands::Layer>)
    ensures
        final(out)@ == old(out)@ + print_layers(layers@.map_values(|l: crate::commands::Layer| l@)),
{
    let ghost lsm = layers@.map_values(|l: crate::commands::Layer| l@);
    if layers.len() == 0 {
        out.append("[]");
        proof {
            reveal_strlit("[]");
            assert(out@ =~= old(out)@ + print_layers(lsm));
        }
        return ;
    }
    out.append("[");
    append_layer(out, &layers[0]);
    append_layers_rest(out, layers, 1);
    out.append("]");
    proof {
        assert(lsm[0] == layers@[0]@);
        assert(out@ =~= old(out)@ + print_layers(lsm));
    }
}

fn append_compose(out: &mut String, g: &crate::commands::CliGenerateImageCommand)
    ensures
        final(out)@ == old(out)@ + print_compose(g@),
{
    out.append("{\"width\":");
    append_u32(out, g.width);
    out.append(",\"height\":");
    append_u32(out, g.height);
    out.append(",\"layers\":");
    append_layers(out, &g.layers);
    match g.output_format {
        ImageFormat::Png => out.append(",\"output_format\":\"Png\",\"output\":"),
        ImageFormat::Jpeg => out.append(",\"output_format\":\"Jpeg\",\"output\":"),
    }
    append_string(out, g.output.as_str());
    out.append("}");
    proof {
        reveal_strlit(",\"output_format\":\"Png\",\"output\":");
        reveal_strlit(",\"output_format\":\"Jpeg\",\"output\":");
        reveal_strlit(",\"output_format\":\"");
        reveal_strlit("Png");
        reveal_strlit("Jpeg");
        reveal_strlit("\",\"output\":");
        assert(out@ =~= old(out)@ + print_compose(g@));
    }
}

fn append_extract(out: &mut String, e: &crate::commands::ExtractFrameCommand)
    ensures
        final(out)@ == old(out)@ + print_extract(e@),
{
    out.append("{\"input\":");
    append_string(out, e.input.as_str());
    out.append(",\"output\":");
    append_string(out, e.output.as_str());
    out.append(",\"time\":");
    out.append(e.time.raw.as_str());
    out.append("}");
    proof {
        assert(out@ =~= old(out)@ + print_extract(e@));
    }
}

/// Print a command value as a single JSON document, in the same tagged-union
/// convention that [`crate::parse_cli`] decodes.
pub fn encode_cli(c: &CliInputCommand) -> (r: String)
    ensures
        r@ == print_cli(c@),
{
    let mut out = String::new();
    match c {
        CliInputCommand::ExtractFrame(e) => {
            out.append("{\"type\":\"ExtractFrame\",\"params\":");
            append_extract(&mut out, e);
            out.append("}");
        },
        CliInputCommand::Compose(g) => {
            out.append("{\"type\":\"Compose\",\"params\":");
            append_compose(&mut out, g);
            out.append("}");
        },
    }
    proof {
        assert(out@ =~= print_cli(c@));
    }
    out
}

} // verus!
