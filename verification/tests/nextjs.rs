use anilist::nextjs::document::NextJsData;
use anilist::nextjs::error::ParseError;
use anilist::nextjs::export::{NextJsError, deserialize_nextjs};
use anilist::nextjs::records::{hex, parse_records};
use anilist::nextjs::transport::{push_argument, read_script};
use serde_json::Value;
use base64::Engine;
use base64::engine::general_purpose::STANDARD;

fn script(chunk: &str) -> String {
    format!(
        "<script>self.__next_f.push([1,{}]);</script>",
        serde_json::to_string(chunk).unwrap()
    )
}

fn json(text: &str) -> Value {
    serde_json::from_str(text).unwrap()
}

#[test]
fn reassembles_chunks_and_finds_model_data_after_other_records() {
    let html = format!(
        "<script>(self.__next_f = self.__next_f || []).push([0]);</script>{}{}",
        script("1:I[42,[],\"default\"]\n2:[\"$\",\"$L1\",null,{\"ani"),
        script("mes\":[{\"id\":\"123\"}]}]\n")
    );
    let data = NextJsData::parse(&html).unwrap();
    let animes = json(&data.find("/3/animes").unwrap());
    assert_eq!(animes, json(r#"[{"id": "123"}]"#));
    assert_eq!(data.flight[0].tag.as_deref(), Some("I"));
    assert_eq!(data.flight[1].id, Some(2));
}

#[test]
fn reads_detail_shape_and_preserves_escaped_content() {
    let row = r#"[null,["$","$L1",null,{"anime":{"title":"中文 \"quote\" \\ slash\nself.__next_f.push("}}]]"#;
    let data = NextJsData::parse(&script(&format!("a:{row}\n"))).unwrap();
    let anime = json(&data.find("/1/3/anime").unwrap());
    assert_eq!(anime["title"], "中文 \"quote\" \\ slash\nself.__next_f.push(");
}

#[test]
fn parses_next_data_and_json_pointer_escaping() {
    let data = NextJsData::parse(r#"<script id="__NEXT_DATA__" type="application/json">{"props":{"a/b":{"~key":7}},"buildId":"test"}</script>"#).unwrap();
    assert_eq!(data.deserialize::<u32>("/props/a~1b/~0key").unwrap(), 7);
    assert_eq!(json(&data.next_data.unwrap())["buildId"], "test");
}

#[test]
fn reads_multiple_pushes_and_bootstrap_payload_in_one_script() {
    let data = NextJsData::parse(
        r#"<script>
        (self.__next_f=self.__next_f||[]).push([0]);
        self.__next_f.push([2,{"form":true}]);
        self.__next_f.push([1,"1:{\"first\":1}\n"]); self.__next_f.push([1,"2:{\"second\":2}"]);
    </script>"#,
    )
    .unwrap();
    assert_eq!(data.flight.len(), 2);
    assert_eq!(data.deserialize::<u32>("/second").unwrap(), 2);
}

#[test]
fn text_records_use_utf8_byte_lengths_and_can_contain_newlines() {
    let data = NextJsData::parse(&script("a:T7,中文\nb:{\"ok\":true}\n")).unwrap();
    assert_eq!(json(&data.flight[0].value), Value::String("中文\n".to_owned()));
    assert!(data.deserialize::<bool>("/ok").unwrap());
}

#[test]
fn decodes_base64_transport_across_utf8_boundaries() {
    let bytes = "1:{\"title\":\"中文\"}\n".as_bytes();
    let html = [&bytes[..14], &bytes[14..]]
        .into_iter()
        .map(|part| {
            format!(
                "<script>self.__next_f.push([3,{}])</script>",
                serde_json::to_string(&STANDARD.encode(part)).unwrap()
            )
        })
        .collect::<String>();
    assert_eq!(
        NextJsData::parse(&html)
            .unwrap()
            .deserialize::<String>("/title")
            .unwrap(),
        "中文"
    );
}

#[test]
fn retains_hint_tags_and_unindexed_records() {
    let data = NextJsData::parse(&script(
        ":HL[\"/style.css\",\"style\"]\n1:D{\"name\":\"Page\"}\n2:null\n",
    ))
    .unwrap();
    assert_eq!(data.flight[0].id, None);
    assert_eq!(data.flight[0].tag.as_deref(), Some("HL"));
    assert_eq!(data.flight[1].tag.as_deref(), Some("D"));
    assert_eq!(json(&data.flight[2].value), Value::Null);
}

#[test]
fn distinguishes_missing_data_from_bad_target_type() {
    assert!(matches!(
        NextJsData::parse("<html></html>"),
        Err(ParseError::MissingData)
    ));
    let data = NextJsData::parse(&script("1:{\"count\":\"many\"}\n")).unwrap();
    assert!(matches!(
        data.deserialize::<u32>("/missing"),
        Err(ParseError::MissingPath { .. })
    ));
    assert!(matches!(
        data.deserialize::<u32>("/count"),
        Err(ParseError::Json { .. })
    ));
}

#[test]
fn rejects_malformed_records_without_panicking() {
    for row in [
        "broken",
        "xyz:{}\n",
        "1:{bad}\n",
        "1:T8,short",
        "1:T2,中",
        "1:Tffffffffffffffffffffffff,x",
        "1:",
    ] {
        assert!(NextJsData::parse(&script(row)).is_err(), "accepted {row:?}");
    }
}

#[test]
fn rejects_invalid_transport_and_next_data() {
    for html in [
        r#"<script>self.__next_f.push([1,42])</script>"#,
        r#"<script>self.__next_f.push([3,"!"])</script>"#,
        r#"<script>self.__next_f.push([9,"x"])</script>"#,
        r#"<script>self.__next_f.push([1,"1:{}"]</script>"#,
        r#"<script id="__NEXT_DATA__">{bad}</script>"#,
    ] {
        assert!(NextJsData::parse(html).is_err(), "accepted {html}");
    }
}

#[test]
fn ignores_markers_inside_unrelated_scripts_and_metadata() {
    let html = format!(
        r#"<script>const example = 'self.__next_f.push([1,"bad"])';</script>{}"#,
        script("1:D{\"count\":99}\n2:{\"count\":7}\n")
    );
    assert_eq!(
        NextJsData::parse(&html)
            .unwrap()
            .deserialize::<u32>("/count")
            .unwrap(),
        7
    );
}

#[test]
fn text_length_can_start_with_uppercase_hex_and_be_zero() {
    let data = NextJsData::parse(&script("1:TA,01234567892:T0,3:true\n")).unwrap();
    assert_eq!(json(&data.flight[0].value), Value::String("0123456789".to_owned()));
    assert_eq!(json(&data.flight[1].value), Value::String(String::new()));
    assert_eq!(json(&data.flight[2].value), Value::Bool(true));
}

#[test]
fn bootstrap_resets_transport_and_duplicate_ids_preserve_wire_order() {
    let html = format!(
        "{}<script>(self.__next_f=self.__next_f||[]).push([0])</script>{}",
        script("discarded"),
        script("1:D{}\n1:{\"count\":7}\n")
    );
    let data = NextJsData::parse(&html).unwrap();
    assert_eq!(data.flight.len(), 2);
    assert_eq!(data.deserialize::<u32>("/count").unwrap(), 7);
}

#[test]
fn every_chunk_boundary_preserves_the_same_model() {
    let wire = "1:HL[\"/font.woff2\",\"font\"]\n2:{\"name\":\"中文\",\"quoted\":\"a\\\"b\"}\n";
    for split in (0..=wire.len()).filter(|&i| wire.is_char_boundary(i)) {
        let html = script(&wire[..split]) + &script(&wire[split..]);
        let data = NextJsData::parse(&html).unwrap();
        assert_eq!(
            data.deserialize::<String>("/name").unwrap(),
            "中文",
            "split at {split}"
        );
        assert_eq!(data.deserialize::<String>("/quoted").unwrap(), "a\"b");
    }
}

#[test]
fn handles_attribute_case_quotes_entities_and_raw_script_text() {
    let html =
        r#"<SCRIPT data-note='a > b' ID=__NEXT_DAT&#65;__>{"title":"a &amp; b < c"}</SCRIPT>"#;
    assert_eq!(
        NextJsData::parse(html)
            .unwrap()
            .deserialize::<String>("/title")
            .unwrap(),
        "a &amp; b < c"
    );
}

#[test]
fn ignores_script_lookalikes_in_comments_attributes_and_raw_text() {
    let html = r#"
        <!-- <script id="__NEXT_DATA__">bad</script> -->
        <div data-example='<script id="__NEXT_DATA__">bad</script>'></div>
        <textarea><script id="__NEXT_DATA__">bad</script></textarea>
        <style><script id="__NEXT_DATA__">bad</script></style>
        <script src="external.js">self.__next_f.push([1,"bad"])</script>
        <script id="__NEXT_DATA__">{"ok":true}</script>
    "#;
    assert_eq!(
        NextJsData::parse(html).unwrap().next_data.map(|t| json(&t)),
        Some(json(r#"{"ok":true}"#))
    );
}

#[test]
fn preserves_script_data_state_and_does_not_decode_entities() {
    let wire = "1:{\"text\":\"<!-- <script>ignored </script> --> &amp;\"}\n";
    let html = format!(
        "<script>self.__next_f.push([1,{}])</script>",
        serde_json::to_string(wire).unwrap()
    );
    assert_eq!(
        NextJsData::parse(&html)
            .unwrap()
            .deserialize::<String>("/text")
            .unwrap(),
        "<!-- <script>ignored </script> --> &amp;"
    );
}

#[test]
fn parses_a_final_script_without_an_end_tag() {
    let html = r#"<script id="__NEXT_DATA__">{"ok":true}"#;
    assert_eq!(
        NextJsData::parse(html).unwrap().next_data.map(|t| json(&t)),
        Some(json(r#"{"ok":true}"#))
    );
}

#[test]
fn returns_next_data_as_json_for_other_languages() {
    let html = r#"<script id="__NEXT_DATA__">{"props":{"title":"中文"},"buildId":"test"}</script>"#;
    let result = deserialize_nextjs(html.to_owned()).unwrap();
    let result: Value = serde_json::from_str(&result).unwrap();
    assert_eq!(
        result,
        json(r#"{"nextData": {"props": {"title": "中文"}, "buildId": "test"}, "flight": []}"#)
    );
}

#[test]
fn returns_all_flight_records_without_requiring_rust_types() {
    let html = format!(
        "<script>self.__next_f.push([1,{}])</script>",
        serde_json::to_string("1:I[42,[],\"default\"]\na:{\"title\":\"中文\"}\nb:T3,文").unwrap()
    );
    let result: Value = serde_json::from_str(&deserialize_nextjs(html).unwrap()).unwrap();
    assert_eq!(
        result,
        json(
            r#"{
                "nextData": null,
                "flight": [
                    {"id": 1, "tag": "I", "value": [42, [], "default"]},
                    {"id": 10, "tag": null, "value": {"title": "中文"}},
                    {"id": 11, "tag": "T", "value": "文"}
                ]
            }"#
        )
    );
}

fn message_of(error: NextJsError) -> String {
    match error {
        NextJsError::InvalidData { message } => message,
    }
}

#[test]
fn malformed_input_returns_a_descriptive_error() {
    let error = deserialize_nextjs("<html></html>".to_owned()).unwrap_err();
    assert!(message_of(error).contains("hydration data was not found"));
    let error = deserialize_nextjs(r#"<script>self.__next_f.push([1,42])</script>"#.to_owned())
        .unwrap_err();
    assert!(message_of(error).contains("payload must be a string"));
}

#[test]
fn error_messages_name_the_stage() {
    assert_eq!(ParseError::MissingData.message(), "Next.js hydration data was not found");
    let e = ParseError::MissingPath { pointer: "/a".to_owned() };
    assert_eq!(e.message(), "Next.js target data was not found at /a");
    assert_eq!(e.context(), "Next.js target data was not found");
    let e = ParseError::Record { offset: 12, reason: "bad" };
    assert_eq!(e.message(), "invalid Next.js Flight record at byte 12: bad");
    assert_eq!(e.context(), "Next.js Flight record");
}

#[test]
fn push_arguments_and_hex_ids() {
    let script: Vec<char> = "self.__next_f.push( [1,\"a\"])".chars().collect();
    assert_eq!(push_argument(&script, 0), Some(20));
    let long: Vec<char> = "(self.__next_f = self.__next_f || []).push([0])".chars().collect();
    assert_eq!(push_argument(&long, 0), Some(43));
    let other: Vec<char> = "x; self.__next_f.push([1])".chars().collect();
    assert_eq!(push_argument(&other, 0), None);
    let none: Vec<char> = "console.log(1)".chars().collect();
    assert_eq!(push_argument(&none, 0), None);
    assert_eq!(hex(&b"1aF".to_vec(), 0, 3), Some(0x1af));
    assert_eq!(hex(&b"xyz".to_vec(), 0, 3), None);
    let mut bytes = Vec::new();
    let text: Vec<char> = "self.__next_f.push([1,\"1:true\\n\"])".chars().collect();
    assert_eq!(read_script(&text, &mut bytes).unwrap(), true);
    assert_eq!(bytes, b"1:true\n".to_vec());
    let records = parse_records(&bytes).unwrap();
    assert_eq!(records.len(), 1);
    assert_eq!(records[0].id, Some(1));
    assert_eq!(records[0].value, "true");
}

#[test]
fn a_failing_push_keeps_what_the_earlier_pushes_appended() {
    let mut bytes = b"x".to_vec();
    let text: Vec<char> = "self.__next_f.push([1,\"ab\"]); self.__next_f.push([1,\"c\"]"
        .chars()
        .collect();
    assert!(read_script(&text, &mut bytes).is_err());
    assert_eq!(bytes, b"xab".to_vec());
}

#[test]
fn records_of_concatenated_streams_follow_each_other() {
    let a = b"1:{\"a\":1}\n:HL[\"x\"]\n".to_vec();
    let b = b"2:T3,abc3:null".to_vec();
    let ra = parse_records(&a).unwrap();
    let rb = parse_records(&b).unwrap();
    let both = parse_records(&[a.clone(), b.clone()].concat()).unwrap();
    assert_eq!(both.len(), ra.len() + rb.len());
    for (x, y) in both.iter().zip(ra.iter().chain(rb.iter())) {
        assert_eq!((x.id, &x.tag, &x.value), (y.id, &y.tag, &y.value));
    }
}

#[test]
fn typed_array_records_are_refused_where_they_start() {
    let bytes = b"1:{}\n2a:Sxyz\n".to_vec();
    assert!(matches!(
        parse_records(&bytes),
        Err(ParseError::Record { offset: 5, reason: "binary typed-array records are unsupported" })
    ));
}

#[test]
fn control_characters_are_escaped_in_exported_text() {
    let html = format!(
        "<script>self.__next_f.push([1,{}])</script>",
        serde_json::to_string("1:T5,a\u{1}\"\n\\").unwrap()
    );
    let out = deserialize_nextjs(html).unwrap();
    assert!(out.contains(r#""value":"a\u0001\"\n\\""#), "{out}");
}

#[test]
fn a_target_of_the_wrong_type_carries_serde_message() {
    let data = NextJsData::parse(&script("1:{\"count\":\"many\"}\n")).unwrap();
    let error = data.deserialize::<u32>("/count").unwrap_err();
    assert!(error.message().starts_with("Next.js target data: "), "{}", error.message());
    assert!(error.message().contains("invalid type: string \"many\", expected u32"), "{}", error.message());
}
