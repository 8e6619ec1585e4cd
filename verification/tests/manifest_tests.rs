use attestation_mobile::manifest::{build_manifest_definition, device_make, CaptureContext};

fn base_context() -> CaptureContext {
    CaptureContext {
        app_name: String::from("Attestation App"),
        device_model: String::from("Samsung Galaxy S24"),
        os_version: String::from("Android 14"),
        captured_at_iso8601: String::from("2024-05-01T12:34:56Z"),
        trust_level: String::from("hardware-attested"),
        nonce: None,
        latitude_microdeg: None,
        longitude_microdeg: None,
    }
}

fn labels(manifest: &str) -> Vec<String> {
    let v: serde_json::Value = serde_json::from_str(manifest).unwrap();
    v["assertions"]
        .as_array()
        .unwrap()
        .iter()
        .map(|a| a["label"].as_str().unwrap().to_string())
        .collect()
}

#[test]
fn manifest_is_valid_json_with_fixed_assertions() {
    let manifest = build_manifest_definition(&base_context());
    let v: serde_json::Value = serde_json::from_str(&manifest).unwrap();
    assert_eq!(v["title"].as_str().unwrap(), "Attested Photo 2024-05-01T12:34:56Z");
    assert_eq!(v["format"].as_str().unwrap(), "image/jpeg");
    assert_eq!(
        v["claim_generator_info"][0]["name"].as_str().unwrap(),
        "Attestation App"
    );
    assert_eq!(
        labels(&manifest),
        vec![
            "c2pa.actions",
            "stds.schema-org.CreativeWork",
            "stds.exif",
            "attestation.device",
            "attestation.capture_time",
        ]
    );
    let exif = &v["assertions"][2]["data"];
    assert_eq!(exif["exif:Make"].as_str().unwrap(), "Samsung");
    assert_eq!(exif["exif:Model"].as_str().unwrap(), "Samsung Galaxy S24");
    assert_eq!(exif["exif:DateTimeOriginal"].as_str().unwrap(), "2024-05-01T12:34:56Z");
    assert!(exif.get("exif:GPSLatitude").is_none());
    let device = &v["assertions"][3]["data"];
    assert_eq!(device["deviceModel"].as_str().unwrap(), "Samsung Galaxy S24");
    assert_eq!(device["osVersion"].as_str().unwrap(), "Android 14");
    assert_eq!(device["trustLevel"].as_str().unwrap(), "hardware-attested");
    assert_eq!(
        v["assertions"][4]["data"]["timestamp"].as_str().unwrap(),
        "2024-05-01T12:34:56Z"
    );
    let action = &v["assertions"][0]["data"]["actions"][0];
    assert_eq!(action["action"].as_str().unwrap(), "c2pa.created");
    assert_eq!(action["softwareAgent"]["name"].as_str().unwrap(), "Attestation App");
}

#[test]
fn same_context_yields_byte_identical_json() {
    let a = build_manifest_definition(&base_context());
    let b = build_manifest_definition(&base_context());
    assert_eq!(a, b);
}

#[test]
fn nonce_toggles_exactly_the_trust_assertion() {
    let without = build_manifest_definition(&base_context());
    let mut ctx = base_context();
    ctx.nonce = Some(String::from("nonce-123"));
    let with_nonce = build_manifest_definition(&ctx);

    let labels_without = labels(&without);
    let labels_with = labels(&with_nonce);
    assert_eq!(labels_with.len(), 6);
    assert_eq!(labels_without.len(), 5);
    assert_eq!(&labels_with[..5], &labels_without[..]);
    assert_eq!(labels_with[5], "attestation.trust");

    // All other assertions are unchanged, byte for byte once parsed.
    let v_without: serde_json::Value = serde_json::from_str(&without).unwrap();
    let v_with: serde_json::Value = serde_json::from_str(&with_nonce).unwrap();
    for i in 0..5 {
        assert_eq!(v_without["assertions"][i], v_with["assertions"][i]);
    }
    let trust = &v_with["assertions"][5]["data"];
    assert_eq!(trust["trustLevel"].as_str().unwrap(), "hardware-attested");
    assert_eq!(trust["nonce"].as_str().unwrap(), "nonce-123");
    assert_eq!(v_without["title"], v_with["title"]);
}

#[test]
fn coordinates_toggle_exactly_the_gps_fields() {
    let without = build_manifest_definition(&base_context());
    let mut ctx = base_context();
    ctx.latitude_microdeg = Some(39_351_700);
    ctx.longitude_microdeg = Some(-73_985_700);
    let with_gps = build_manifest_definition(&ctx);

    assert_eq!(labels(&without), labels(&with_gps));
    let v_without: serde_json::Value = serde_json::from_str(&without).unwrap();
    let v_with: serde_json::Value = serde_json::from_str(&with_gps).unwrap();
    for i in [0usize, 1, 3, 4] {
        assert_eq!(v_without["assertions"][i], v_with["assertions"][i]);
    }
    let exif = &v_with["assertions"][2]["data"];
    assert_eq!(exif["exif:GPSVersionID"].as_str().unwrap(), "2.2.0.0");
    assert_eq!(exif["exif:GPSLatitude"].as_str().unwrap(), "39,21.102N");
    assert_eq!(exif["exif:GPSLongitude"].as_str().unwrap(), "73,59.142W");
    assert_eq!(exif["exif:GPSTimeStamp"].as_str().unwrap(), "2024-05-01T12:34:56Z");
    // The camera fields are unchanged.
    assert_eq!(exif["exif:Make"], v_without["assertions"][2]["data"]["exif:Make"]);
    assert_eq!(exif["exif:Model"], v_without["assertions"][2]["data"]["exif:Model"]);
}

#[test]
fn one_coordinate_alone_adds_no_gps_fields() {
    let mut ctx = base_context();
    ctx.latitude_microdeg = Some(39_351_700);
    let manifest = build_manifest_definition(&ctx);
    let v: serde_json::Value = serde_json::from_str(&manifest).unwrap();
    assert!(v["assertions"][2]["data"].get("exif:GPSLatitude").is_none());
}

#[test]
fn strings_are_json_escaped() {
    let mut ctx = base_context();
    ctx.app_name = String::from("App \"quoted\" \\ back\nnew\u{1}ctl");
    ctx.device_model = String::from("Model\twith tab");
    let manifest = build_manifest_definition(&ctx);
    let v: serde_json::Value = serde_json::from_str(&manifest).unwrap();
    assert_eq!(
        v["claim_generator_info"][0]["name"].as_str().unwrap(),
        "App \"quoted\" \\ back\nnew\u{1}ctl"
    );
    assert_eq!(v["assertions"][3]["data"]["deviceModel"].as_str().unwrap(), "Model\twith tab");
    assert!(manifest.contains("\\u0001"));
}

#[test]
fn device_make_takes_first_token() {
    assert_eq!(device_make("Samsung Galaxy S24"), "Samsung");
    assert_eq!(device_make("Pixel"), "Pixel");
    assert_eq!(device_make("  Google Pixel 8"), "Google");
    assert_eq!(device_make(""), "");
    assert_eq!(device_make("   "), "   ");
}
