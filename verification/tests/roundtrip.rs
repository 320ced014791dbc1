use payloads::{
    encode_cli, parse_cli, CliGenerateImageCommand, CliInputCommand, ExtractFrameCommand,
    ImageFormat, ImageLayer, JsonNumber, Layer, SolidLayer,
};

fn roundtrips(doc: &str) {
    let first = parse_cli(doc).unwrap();
    let encoded = encode_cli(&first);
    let second = parse_cli(&encoded).unwrap();
    assert_eq!(first, second);
}

#[test]
fn extract_frame_roundtrips() {
    roundtrips(
        "{\"type\":\"ExtractFrame\",\"params\":{\"input\":\"in.mp4\",\"output\":\"out.png\",\"time\":1.5}}",
    );
}

#[test]
fn compose_roundtrips() {
    roundtrips(
        "{\"type\":\"Compose\",\"params\":{\"width\":100,\"height\":50,\"layers\":[{\"type\":\"Solid\",\"params\":{\"fill\":[255,0,0,255],\"x\":0,\"y\":0,\"width\":10,\"height\":10}},{\"type\":\"PngImage\",\"params\":{\"src\":\"a.png\",\"x\":1,\"y\":2,\"width\":3,\"height\":4}}],\"output_format\":\"Png\",\"output\":\"o.png\"}}",
    );
}

#[test]
fn fractional_and_integer_times_roundtrip() {
    for t in ["0", "1.5", "0.001", "12.25", "3e2"] {
        let doc = format!(
            "{{\"type\":\"ExtractFrame\",\"params\":{{\"input\":\"i\",\"output\":\"o\",\"time\":{}}}}}",
            t
        );
        roundtrips(&doc);
    }
}

#[test]
fn strings_with_escapes_roundtrip() {
    let cmd = CliInputCommand::ExtractFrame(ExtractFrameCommand {
        input: "a \"quoted\" name\\with\tcontrol\nchars\u{1}".to_string(),
        output: "unicode: \u{e9}\u{4e2d}\u{1f600}".to_string(),
        time: JsonNumber { raw: "2.5".to_string() },
    });
    let encoded = encode_cli(&cmd);
    let decoded = parse_cli(&encoded).unwrap();
    assert_eq!(cmd, decoded);
}

#[test]
fn built_compose_value_roundtrips() {
    let cmd = CliInputCommand::Compose(CliGenerateImageCommand {
        width: 4294967295,
        height: 0,
        layers: vec![
            Layer::JpgImage(ImageLayer {
                src: "img/b.jpg".to_string(),
                x: 7,
                y: 8,
                width: 9,
                height: 10,
            }),
            Layer::Solid(SolidLayer { fill: [0, 1, 254, 255], x: 0, y: 0, width: 1, height: 2 }),
        ],
        output_format: ImageFormat::Jpeg,
        output: "out dir/result.jpg".to_string(),
    });
    let encoded = encode_cli(&cmd);
    let decoded = parse_cli(&encoded).unwrap();
    assert_eq!(cmd, decoded);
}

#[test]
fn encoded_compose_text_is_canonical() {
    let cmd = CliInputCommand::Compose(CliGenerateImageCommand {
        width: 2,
        height: 3,
        layers: vec![
            Layer::Solid(SolidLayer { fill: [1, 2, 3, 4], x: 0, y: 0, width: 1, height: 1 }),
            Layer::PngImage(ImageLayer {
                src: "a.png".to_string(),
                x: 1,
                y: 2,
                width: 3,
                height: 4,
            }),
        ],
        output_format: ImageFormat::Png,
        output: "o.png".to_string(),
    });
    assert_eq!(
        encode_cli(&cmd),
        "{\"type\":\"Compose\",\"params\":{\"width\":2,\"height\":3,\"layers\":[{\"type\":\"Solid\",\"params\":{\"fill\":[1,2,3,4],\"x\":0,\"y\":0,\"width\":1,\"height\":1}},{\"type\":\"PngImage\",\"params\":{\"src\":\"a.png\",\"x\":1,\"y\":2,\"width\":3,\"height\":4}}],\"output_format\":\"Png\",\"output\":\"o.png\"}}"
    );
}

#[test]
fn escapes_are_emitted_as_json_asks() {
    let cmd = CliInputCommand::ExtractFrame(ExtractFrameCommand {
        input: "a\"b\\c\nd".to_string(),
        output: "o".to_string(),
        time: JsonNumber { raw: "0".to_string() },
    });
    let encoded = encode_cli(&cmd);
    assert_eq!(
        encoded,
        "{\"type\":\"ExtractFrame\",\"params\":{\"input\":\"a\\\"b\\\\c\\u000ad\",\"output\":\"o\",\"time\":0}}"
    );
}

#[test]
fn encoded_text_is_canonical() {
    let cmd = CliInputCommand::ExtractFrame(ExtractFrameCommand {
        input: "i".to_string(),
        output: "o".to_string(),
        time: JsonNumber { raw: "1.5".to_string() },
    });
    assert_eq!(
        encode_cli(&cmd),
        "{\"type\":\"ExtractFrame\",\"params\":{\"input\":\"i\",\"output\":\"o\",\"time\":1.5}}"
    );
}
