use payloads::{
    parse_cli, CliInputCommand, ImageFormat, JsonNumber, Layer,
};

#[test]
fn extract_frame_example() {
    let c = parse_cli(
        "{\"type\":\"ExtractFrame\",\"params\":{\"input\":\"in.mp4\",\"output\":\"out.png\",\"time\":1.5}}",
    )
    .unwrap();
    match c {
        CliInputCommand::ExtractFrame(e) => {
            assert_eq!(e.input, "in.mp4");
            assert_eq!(e.output, "out.png");
            assert_eq!(e.time, JsonNumber { raw: "1.5".to_string() });
            assert_eq!(e.time.raw.parse::<f64>().unwrap(), 1.5);
        },
        CliInputCommand::Compose(_) => panic!("wrong variant"),
    }
}

#[test]
fn compose_example_with_solid_layer() {
    let c = parse_cli(
        "{\"type\":\"Compose\",\"params\":{\"width\":100,\"height\":50,\"layers\":[{\"type\":\"Solid\",\"params\":{\"fill\":[255,0,0,255],\"x\":0,\"y\":0,\"width\":10,\"height\":10}}],\"output_format\":\"Png\",\"output\":\"o.png\"}}",
    )
    .unwrap();
    match c {
        CliInputCommand::Compose(g) => {
            assert_eq!(g.width, 100);
            assert_eq!(g.height, 50);
            assert_eq!(g.output_format, ImageFormat::Png);
            assert_eq!(g.output, "o.png");
            assert_eq!(g.layers.len(), 1);
            match &g.layers[0] {
                Layer::Solid(s) => {
                    assert_eq!(s.fill, [255, 0, 0, 255]);
                    assert_eq!((s.x, s.y, s.width, s.height), (0, 0, 10, 10));
                },
                _ => panic!("wrong layer variant"),
            }
        },
        CliInputCommand::ExtractFrame(_) => panic!("wrong variant"),
    }
}

#[test]
fn unknown_command_tag_fails() {
    assert!(parse_cli("{\"type\":\"Bogus\",\"params\":{}}").is_err());
}

#[test]
fn malformed_json_fails() {
    assert!(parse_cli("{\"type\": \"ExtractFrame\"").is_err());
    assert!(parse_cli("").is_err());
    assert!(parse_cli("null").is_err());
    assert!(parse_cli("[1,2,3]").is_err());
}

#[test]
fn missing_required_field_fails() {
    // ExtractFrame without time.
    assert!(parse_cli(
        "{\"type\":\"ExtractFrame\",\"params\":{\"input\":\"a\",\"output\":\"b\"}}"
    )
    .is_err());
    // Compose without output.
    assert!(parse_cli(
        "{\"type\":\"Compose\",\"params\":{\"width\":1,\"height\":1,\"layers\":[],\"output_format\":\"Png\"}}"
    )
    .is_err());
    // Top level without params.
    assert!(parse_cli("{\"type\":\"ExtractFrame\"}").is_err());
}

#[test]
fn solid_layer_without_fill_fails() {
    assert!(parse_cli(
        "{\"type\":\"Compose\",\"params\":{\"width\":1,\"height\":1,\"layers\":[{\"type\":\"Solid\",\"params\":{\"x\":0,\"y\":0,\"width\":1,\"height\":1}}],\"output_format\":\"Png\",\"output\":\"o\"}}"
    )
    .is_err());
}

fn compose_with_fill(fill: &str) -> String {
    format!(
        "{{\"type\":\"Compose\",\"params\":{{\"width\":1,\"height\":1,\"layers\":[{{\"type\":\"Solid\",\"params\":{{\"fill\":{},\"x\":0,\"y\":0,\"width\":1,\"height\":1}}}}],\"output_format\":\"Png\",\"output\":\"o\"}}}}",
        fill
    )
}

#[test]
fn fill_wrong_arity_fails() {
    assert!(parse_cli(&compose_with_fill("[1,2,3]")).is_err());
    assert!(parse_cli(&compose_with_fill("[1,2,3,4,5]")).is_err());
    assert!(parse_cli(&compose_with_fill("[]")).is_err());
}

#[test]
fn fill_entry_out_of_range_fails() {
    assert!(parse_cli(&compose_with_fill("[256,0,0,0]")).is_err());
    assert!(parse_cli(&compose_with_fill("[-1,0,0,0]")).is_err());
    assert!(parse_cli(&compose_with_fill("[0,0,0,1.5]")).is_err());
    assert!(parse_cli(&compose_with_fill("[0,0,0,\"a\"]")).is_err());
}

#[test]
fn fill_boundary_values_pass() {
    let c = parse_cli(&compose_with_fill("[0,255,0,255]")).unwrap();
    match c {
        CliInputCommand::Compose(g) => match &g.layers[0] {
            Layer::Solid(s) => assert_eq!(s.fill, [0, 255, 0, 255]),
            _ => panic!("wrong layer variant"),
        },
        _ => panic!("wrong variant"),
    }
}

#[test]
fn unknown_layer_tag_fails() {
    assert!(parse_cli(
        "{\"type\":\"Compose\",\"params\":{\"width\":1,\"height\":1,\"layers\":[{\"type\":\"Gif\",\"params\":{}}],\"output_format\":\"Png\",\"output\":\"o\"}}"
    )
    .is_err());
}

#[test]
fn unknown_output_format_fails() {
    assert!(parse_cli(
        "{\"type\":\"Compose\",\"params\":{\"width\":1,\"height\":1,\"layers\":[],\"output_format\":\"Gif\",\"output\":\"o\"}}"
    )
    .is_err());
}

#[test]
fn wrong_field_type_fails() {
    // width as string
    assert!(parse_cli(
        "{\"type\":\"Compose\",\"params\":{\"width\":\"1\",\"height\":1,\"layers\":[],\"output_format\":\"Png\",\"output\":\"o\"}}"
    )
    .is_err());
    // negative width
    assert!(parse_cli(
        "{\"type\":\"Compose\",\"params\":{\"width\":-1,\"height\":1,\"layers\":[],\"output_format\":\"Png\",\"output\":\"o\"}}"
    )
    .is_err());
    // fractional width is rejected by the unsigned decoding
    assert!(parse_cli(
        "{\"type\":\"Compose\",\"params\":{\"width\":5.0,\"height\":1,\"layers\":[],\"output_format\":\"Png\",\"output\":\"o\"}}"
    )
    .is_err());
    // width above the 32-bit range
    assert!(parse_cli(
        "{\"type\":\"Compose\",\"params\":{\"width\":4294967296,\"height\":1,\"layers\":[],\"output_format\":\"Png\",\"output\":\"o\"}}"
    )
    .is_err());
    // time as string
    assert!(parse_cli(
        "{\"type\":\"ExtractFrame\",\"params\":{\"input\":\"a\",\"output\":\"b\",\"time\":\"1.5\"}}"
    )
    .is_err());
}

#[test]
fn extra_fields_are_ignored() {
    let c = parse_cli(
        "{\"type\":\"ExtractFrame\",\"params\":{\"input\":\"a\",\"output\":\"b\",\"time\":2,\"extra\":[1,{\"x\":null}]},\"more\":true}",
    )
    .unwrap();
    match c {
        CliInputCommand::ExtractFrame(e) => {
            assert_eq!(e.input, "a");
            assert_eq!(e.time.raw, "2");
        },
        _ => panic!("wrong variant"),
    }
}

#[test]
fn empty_layers_permitted() {
    let c = parse_cli(
        "{\"type\":\"Compose\",\"params\":{\"width\":1,\"height\":2,\"layers\":[],\"output_format\":\"Jpeg\",\"output\":\"x.jpg\"}}",
    )
    .unwrap();
    match c {
        CliInputCommand::Compose(g) => {
            assert_eq!(g.layers.len(), 0);
            assert_eq!(g.output_format, ImageFormat::Jpeg);
        },
        _ => panic!("wrong variant"),
    }
}

#[test]
fn layer_order_is_preserved() {
    let c = parse_cli(
        "{\"type\":\"Compose\",\"params\":{\"width\":9,\"height\":9,\"layers\":[{\"type\":\"PngImage\",\"params\":{\"src\":\"a.png\",\"x\":1,\"y\":2,\"width\":3,\"height\":4}},{\"type\":\"JpgImage\",\"params\":{\"src\":\"b.jpg\",\"x\":5,\"y\":6,\"width\":7,\"height\":8}},{\"type\":\"Solid\",\"params\":{\"fill\":[9,8,7,6],\"x\":0,\"y\":0,\"width\":1,\"height\":1}}],\"output_format\":\"Png\",\"output\":\"o\"}}",
    )
    .unwrap();
    match c {
        CliInputCommand::Compose(g) => {
            assert_eq!(g.layers.len(), 3);
            match &g.layers[0] {
                Layer::PngImage(il) => assert_eq!(il.src, "a.png"),
                _ => panic!("layer 0 wrong"),
            }
            match &g.layers[1] {
                Layer::JpgImage(il) => {
                    assert_eq!(il.src, "b.jpg");
                    assert_eq!((il.x, il.y, il.width, il.height), (5, 6, 7, 8));
                },
                _ => panic!("layer 1 wrong"),
            }
            match &g.layers[2] {
                Layer::Solid(s) => assert_eq!(s.fill, [9, 8, 7, 6]),
                _ => panic!("layer 2 wrong"),
            }
        },
        _ => panic!("wrong variant"),
    }
}

#[test]
fn error_payload_holds_its_fields() {
    let p = payloads::ErrorPayload {
        error: "bad document".to_string(),
        backtrace: "frame 1".to_string(),
    };
    assert_eq!(p.error, "bad document");
    assert_eq!(p.backtrace, "frame 1");
}

#[test]
fn decode_error_carries_text() {
    let e = parse_cli("{\"type\":\"Bogus\",\"params\":{}}").unwrap_err();
    assert!(!e.text().is_empty());
}
