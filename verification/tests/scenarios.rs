use toy_manifest::endpoint::manifest;

#[test]
fn toml_order_is_rendered() {
    let body = "[package]\nname = \"sleigh\"\nkeywords = [\"Christmas 2024\"]\n\n[[package.metadata.orders]]\nitem = \"Teddy Bear\"\nquantity = 5\n";
    let response = manifest(Some("application/toml"), body.to_string());
    assert_eq!(response.status, 200);
    assert_eq!(response.body, "Teddy Bear: 5");
}

#[test]
fn json_without_keywords_is_refused() {
    let body = "{\"package\": {\"name\": \"sleigh\", \"metadata\": {\"orders\": [{\"item\": \"Bike\", \"quantity\": 1}]}}}";
    let response = manifest(Some("application/json"), body.to_string());
    assert_eq!(response.status, 400);
    assert_eq!(response.body, "Magic keyword not provided");
}

#[test]
fn yaml_with_unconvertible_order_is_empty() {
    let body = "package:\n  name: sleigh\n  keywords:\n    - Christmas 2024\n  metadata:\n    orders:\n      - item: Bike\n        quantity: five\n";
    let response = manifest(Some("application/yaml"), body.to_string());
    assert_eq!(response.status, 204);
    assert_eq!(response.body, "");
}

#[test]
fn missing_content_type_is_refused() {
    let response = manifest(None, "[package]\nname = \"sleigh\"\n".to_string());
    assert_eq!(response.status, 400);
    assert_eq!(response.body, "Missing Content Type");
}

#[test]
fn unknown_content_type_is_refused() {
    let response = manifest(Some("application/xml"), "<package/>".to_string());
    assert_eq!(response.status, 415);
    assert_eq!(response.body, "");
}

#[test]
fn toml_without_metadata_is_empty() {
    let body = "[package]\nname = \"sleigh\"\nkeywords = [\"Christmas 2024\"]\n";
    let response = manifest(Some("application/toml"), body.to_string());
    assert_eq!(response.status, 204);
    assert_eq!(response.body, "");
}
