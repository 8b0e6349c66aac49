use toy_manifest::pipeline::{contains_magic_keyword, convert_orders, parse_manifest, render_toys};
use toy_manifest::response::ManifestParseError;
use toy_manifest::schema::{Manifest, ManifestPackage, ManifestPackageMetadata};
use toy_manifest::toy::ValidToy;

fn json(text: &str) -> serde_json::Value {
    serde_json::from_str(text).unwrap()
}

fn yaml(text: &str) -> serde_yaml::Value {
    serde_yaml::from_str(text).unwrap()
}

fn toml_value(text: &str) -> toml::Value {
    toml::from_str(text).unwrap()
}

#[test]
fn json_document_binds_field_by_field() {
    let document = json(
        "{\"package\": {\"name\": \"sleigh\", \"version\": \"1.0.0\", \"keywords\": [\"a\", \"b\"], \"metadata\": {\"orders\": [1, {\"item\": \"Bike\"}], \"other\": true}}}",
    );
    let manifest = Manifest::from_document(&document).unwrap();
    assert_eq!(manifest.package.name, "sleigh");
    assert_eq!(
        manifest.package.keywords,
        Some(vec!["a".to_string(), "b".to_string()])
    );
    let orders = manifest.package.metadata.unwrap().orders.unwrap();
    assert_eq!(orders, vec![json("1"), json("{\"item\": \"Bike\"}")]);
}

#[test]
fn absent_and_null_members_bind_to_none() {
    let manifest = Manifest::from_document(&json("{\"package\": {\"name\": \"sleigh\"}}")).unwrap();
    assert_eq!(manifest.package.keywords, None);
    assert!(manifest.package.metadata.is_none());

    let manifest = Manifest::from_document(&json(
        "{\"package\": {\"name\": \"sleigh\", \"keywords\": null, \"metadata\": null}}",
    ))
    .unwrap();
    assert_eq!(manifest.package.keywords, None);
    assert!(manifest.package.metadata.is_none());

    let manifest = Manifest::from_document(&json(
        "{\"package\": {\"name\": \"sleigh\", \"metadata\": {\"orders\": null}}}",
    ))
    .unwrap();
    assert!(manifest.package.metadata.unwrap().orders.is_none());

    let manifest = Manifest::from_document(&yaml(
        "package:\n  name: sleigh\n  keywords: ~\n  metadata:\n    orders: ~\n",
    ))
    .unwrap();
    assert_eq!(manifest.package.keywords, None);
    assert!(manifest.package.metadata.unwrap().orders.is_none());

    let manifest =
        Manifest::from_document(&toml_value("[package]\nname = \"sleigh\"\n[package.metadata]\n"))
            .unwrap();
    assert_eq!(manifest.package.keywords, None);
    assert!(manifest.package.metadata.unwrap().orders.is_none());
}

#[test]
fn malformed_documents_do_not_bind() {
    let malformed = [
        "{}",
        "[]",
        "\"package\"",
        "{\"package\": \"sleigh\"}",
        "{\"package\": {}}",
        "{\"package\": {\"name\": 5}}",
        "{\"package\": {\"name\": \"sleigh\", \"keywords\": \"Christmas 2024\"}}",
        "{\"package\": {\"name\": \"sleigh\", \"keywords\": [\"a\", 1]}}",
        "{\"package\": {\"name\": \"sleigh\", \"keywords\": {}}}",
        "{\"package\": {\"name\": \"sleigh\", \"metadata\": 5}}",
        "{\"package\": {\"name\": \"sleigh\", \"metadata\": []}}",
        "{\"package\": {\"name\": \"sleigh\", \"metadata\": {\"orders\": {}}}}",
        "{\"package\": {\"name\": \"sleigh\", \"metadata\": {\"orders\": \"Bike\"}}}",
    ];
    for text in malformed {
        let result = Manifest::from_document(&json(text));
        assert!(
            matches!(result, Err(ManifestParseError::InvalidManifest)),
            "{}",
            text
        );
    }
}

#[test]
fn conforming_manifest_can_fail_to_bind() {
    // The Cargo convention takes any value for `metadata`; the schema wants
    // a table.
    let body = "[package]\nname = \"sleigh\"\nkeywords = [\"Christmas 2024\"]\nmetadata = 5\n";
    assert!(body.parse::<cargo_manifest::Manifest>().is_ok());
    assert!(matches!(
        Manifest::from_document(&toml_value(body)),
        Err(ManifestParseError::InvalidManifest)
    ));
    assert_eq!(
        toy_manifest::endpoint::parse_toml(body.to_string()),
        Err(ManifestParseError::InvalidManifest)
    );
}

#[test]
fn toml_orders_may_be_any_value() {
    let loose = toml_value(
        "[package]\nname = \"sleigh\"\n[package.metadata]\norders = [{ item = \"Bike\", quantity = 1 }, 3]\n",
    );
    let manifest = Manifest::from_document(&loose).unwrap();
    let orders = manifest.package.metadata.unwrap().orders.unwrap();
    assert_eq!(orders.len(), 2);
    assert!(orders[0].is_table());
    assert_eq!(orders[1], toml::Value::Integer(3));
    let tables = toml_value(
        "[package]\nname = \"sleigh\"\n[package.metadata]\norders = [{ item = \"Bike\", quantity = 1 }, { other = 3 }]\n",
    );
    let manifest = Manifest::from_document(&tables).unwrap();
    assert_eq!(manifest.package.metadata.unwrap().orders.unwrap().len(), 2);
    let scalars = toml_value(
        "[package]\nname = \"sleigh\"\n[package.metadata]\norders = [3, \"loose\", [], true, 1.5]\n",
    );
    let manifest = Manifest::from_document(&scalars).unwrap();
    assert_eq!(manifest.package.metadata.unwrap().orders.unwrap().len(), 5);
}

#[test]
fn yaml_and_json_orders_may_be_any_value() {
    let manifest = Manifest::from_document(&yaml(
        "package:\n  name: sleigh\n  metadata:\n    orders:\n      - 3\n      - loose\n      - item: Bike\n",
    ))
    .unwrap();
    assert_eq!(manifest.package.metadata.unwrap().orders.unwrap().len(), 3);
    let manifest = Manifest::from_document(&json(
        "{\"package\": {\"name\": \"sleigh\", \"metadata\": {\"orders\": [3, \"loose\", [], true]}}}",
    ))
    .unwrap();
    assert_eq!(manifest.package.metadata.unwrap().orders.unwrap().len(), 4);
}

#[test]
fn magic_keyword_is_looked_for_in_the_list() {
    assert!(!contains_magic_keyword(&None));
    assert!(!contains_magic_keyword(&Some(vec![])));
    assert!(!contains_magic_keyword(&Some(vec![
        "Christmas".to_string(),
        "2024".to_string()
    ])));
    assert!(!contains_magic_keyword(&Some(vec!["christmas 2024".to_string()])));
    assert!(contains_magic_keyword(&Some(vec!["Christmas 2024".to_string()])));
    assert!(contains_magic_keyword(&Some(vec![
        "toys".to_string(),
        "Christmas 2024".to_string()
    ])));
}

fn manifest_of(
    keywords: Option<Vec<String>>,
    orders: Option<Vec<serde_json::Value>>,
) -> Manifest<serde_json::Value> {
    Manifest {
        package: ManifestPackage {
            name: "sleigh".to_string(),
            keywords,
            metadata: Some(ManifestPackageMetadata { orders }),
        },
    }
}

#[test]
fn manifest_without_the_keyword_is_refused_whatever_its_orders() {
    let good = json("{\"item\": \"Bike\", \"quantity\": 1}");
    for keywords in [None, Some(vec![]), Some(vec!["toys".to_string()])] {
        for orders in [None, Some(vec![]), Some(vec![good.clone()])] {
            assert_eq!(
                parse_manifest(manifest_of(keywords.clone(), orders)),
                Err(ManifestParseError::MissingMagicKeyword)
            );
        }
    }
}

#[test]
fn manifest_with_the_keyword_renders_its_orders() {
    let keywords = Some(vec!["Christmas 2024".to_string()]);
    assert_eq!(
        parse_manifest(manifest_of(keywords.clone(), None)),
        Err(ManifestParseError::MissingOrders)
    );
    assert_eq!(
        parse_manifest(manifest_of(keywords.clone(), Some(vec![]))),
        Err(ManifestParseError::MissingOrders)
    );
    assert_eq!(
        parse_manifest(manifest_of(keywords.clone(), Some(vec![json("null"), json("{}")]))),
        Err(ManifestParseError::MissingOrders)
    );
    assert_eq!(
        parse_manifest(Manifest::<serde_json::Value> {
            package: ManifestPackage {
                name: "sleigh".to_string(),
                keywords: keywords.clone(),
                metadata: None,
            },
        }),
        Err(ManifestParseError::MissingOrders)
    );
    let orders = vec![
        json("null"),
        json("{\"item\": \"Bike\", \"quantity\": 1}"),
        json("{\"item\": \"Kite\"}"),
        json("{\"item\": \"Doll\", \"quantity\": 20}"),
    ];
    assert_eq!(
        parse_manifest(manifest_of(keywords, Some(orders))),
        Ok("Bike: 1\nDoll: 20".to_string())
    );
}

#[test]
fn orders_convert_in_their_order() {
    let orders = vec![
        json("{\"item\": \"Bike\", \"quantity\": 1}"),
        json("7"),
        json("{\"item\": \"Doll\", \"quantity\": 2}"),
        json("{\"item\": \"Bike\", \"quantity\": 3}"),
    ];
    let toys = convert_orders(&orders);
    let pairs: Vec<(&str, u32)> = toys.iter().map(|t| (t.item.as_str(), t.quantity)).collect();
    assert_eq!(pairs, vec![("Bike", 1), ("Doll", 2), ("Bike", 3)]);
    assert!(convert_orders::<serde_json::Value>(&vec![]).is_empty());
}

#[test]
fn lines_are_joined_by_single_newlines() {
    let toy = |item: &str, quantity: u32| ValidToy {
        item: item.to_string(),
        quantity,
    };
    assert_eq!(render_toys(&vec![]), "");
    assert_eq!(render_toys(&vec![toy("Bike", 1)]), "Bike: 1");
    assert_eq!(
        render_toys(&vec![toy("Bike", 1), toy("", 0), toy("Doll", 30)]),
        "Bike: 1\n: 0\nDoll: 30"
    );
}

#[test]
fn malformed_yaml_and_toml_documents_do_not_bind() {
    for text in [
        "name: sleigh\n",
        "package: sleigh\n",
        "package:\n  name: [sleigh]\n",
        "package:\n  name: sleigh\n  keywords: Christmas 2024\n",
        "package:\n  name: sleigh\n  keywords:\n    - 2024\n",
        "package:\n  name: sleigh\n  metadata: 5\n",
        "package:\n  name: sleigh\n  metadata:\n    - orders\n",
        "package:\n  name: sleigh\n  metadata:\n    orders:\n      item: Bike\n",
    ] {
        assert!(
            matches!(
                Manifest::from_document(&yaml(text)),
                Err(ManifestParseError::InvalidManifest)
            ),
            "{}",
            text
        );
    }
    for text in [
        "name = \"sleigh\"\n",
        "package = \"sleigh\"\n",
        "[package]\nname = 5\n",
        "[package]\nname = \"sleigh\"\nkeywords = [\"a\", 1]\n",
        "[package]\nname = \"sleigh\"\nmetadata = [1]\n",
        "[package]\nname = \"sleigh\"\n[package.metadata]\norders = \"Bike\"\n",
    ] {
        assert!(
            matches!(
                Manifest::from_document(&toml_value(text)),
                Err(ManifestParseError::InvalidManifest)
            ),
            "{}",
            text
        );
    }
}
