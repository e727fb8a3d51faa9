use policyengine_uk::overlay::{merge_yaml, overlay_json_text, overlay_yaml_text, OverlayError, YamlNode};

const BASE: &str = "fiscal_year: 2025/26\nincome_tax:\n  personal_allowance: 12570.0\n  basic_rate: 0.2\nnational_insurance:\n  main_rate: 0.08\n";

fn yaml(text: &str) -> serde_yaml::Value {
    serde_yaml::from_str(text).unwrap()
}

fn overlaid(base: &str, overlay: &str) -> String {
    match overlay_yaml_text(base, overlay) {
        Ok(s) => s,
        Err(_) => panic!("both documents are valid YAML"),
    }
}

fn get<'a>(v: &'a serde_yaml::Value, path: &[&str]) -> &'a serde_yaml::Value {
    let mut cur = v;
    for k in path {
        cur = &cur[*k];
    }
    cur
}

#[test]
fn overlay_changes_only_the_named_fields() {
    let out = yaml(&overlaid(BASE, "income_tax:\n  personal_allowance: 20000.0\n"));
    assert_eq!(get(&out, &["income_tax", "personal_allowance"]).as_f64(), Some(20000.0));
    assert_eq!(get(&out, &["income_tax", "basic_rate"]).as_f64(), Some(0.2));
    assert_eq!(get(&out, &["national_insurance", "main_rate"]).as_f64(), Some(0.08));
    assert_eq!(get(&out, &["fiscal_year"]).as_str(), Some("2025/26"));
}

#[test]
fn overlay_adds_new_fields() {
    let out = yaml(&overlaid(BASE, "wealth_tax:\n  enabled: true\n  rate: 0.01\n"));
    assert_eq!(get(&out, &["wealth_tax", "enabled"]).as_bool(), Some(true));
    assert_eq!(get(&out, &["wealth_tax", "rate"]).as_f64(), Some(0.01));
    assert_eq!(get(&out, &["income_tax", "personal_allowance"]).as_f64(), Some(12570.0));
}

#[test]
fn overlay_replaces_non_mapping_values_whole() {
    let base = "brackets:\n  - {rate: 0.2, threshold: 0.0}\n  - {rate: 0.4, threshold: 37700.0}\n";
    let out = yaml(&overlaid(base, "brackets:\n  - {rate: 0.25, threshold: 0.0}\n"));
    let brackets = get(&out, &["brackets"]).as_sequence().unwrap();
    assert_eq!(brackets.len(), 1);
    assert_eq!(brackets[0]["rate"].as_f64(), Some(0.25));
    let scalar = yaml(&overlaid(BASE, "income_tax: 5\n"));
    assert_eq!(get(&scalar, &["income_tax"]).as_i64(), Some(5));
}

#[test]
fn overlay_with_itself_changes_nothing() {
    assert_eq!(yaml(&overlaid(BASE, BASE)), yaml(BASE));
}

#[test]
fn empty_overlay_changes_nothing() {
    assert_eq!(yaml(&overlaid(BASE, "{}")), yaml(BASE));
}

#[test]
fn overlay_twice_is_overlay_once() {
    let o = "income_tax:\n  personal_allowance: 20000.0\nnew_field: 3\n";
    let once = overlaid(BASE, o);
    let twice = overlaid(&once, o);
    assert_eq!(yaml(&twice), yaml(&once));
}

#[test]
fn invalid_documents_are_reported() {
    assert!(matches!(overlay_yaml_text("a: [1", "b: 2"), Err(OverlayError::InvalidBase(_))));
    assert!(matches!(overlay_yaml_text(BASE, "a: [1"), Err(OverlayError::InvalidOverlay(_))));
    assert!(matches!(overlay_json_text(BASE, "{not json"), Err(OverlayError::InvalidJson(_))));
}

#[test]
fn json_overlay_behaves_as_yaml_overlay() {
    let out = match overlay_json_text(BASE, "{\"income_tax\": {\"personal_allowance\": 20000.0}}") {
        Ok(s) => yaml(&s),
        Err(_) => panic!("valid JSON overlay"),
    };
    assert_eq!(get(&out, &["income_tax", "personal_allowance"]).as_f64(), Some(20000.0));
    assert_eq!(get(&out, &["income_tax", "basic_rate"]).as_f64(), Some(0.2));
}

#[test]
fn merge_yaml_on_trees() {
    let base = YamlNode::Mapping(vec![
        ("a".to_string(), YamlNode::Leaf(serde_yaml::Value::from(1))),
        (
            "b".to_string(),
            YamlNode::Mapping(vec![("c".to_string(), YamlNode::Leaf(serde_yaml::Value::from(2)))]),
        ),
    ]);
    let overlay = YamlNode::Mapping(vec![
        (
            "b".to_string(),
            YamlNode::Mapping(vec![("d".to_string(), YamlNode::Leaf(serde_yaml::Value::from(3)))]),
        ),
        ("e".to_string(), YamlNode::Leaf(serde_yaml::Value::from(4))),
    ]);
    let merged = merge_yaml(base, &overlay);
    match merged {
        YamlNode::Mapping(es) => {
            let keys: Vec<&str> = es.iter().map(|(k, _)| k.as_str()).collect();
            assert_eq!(keys, vec!["a", "b", "e"]);
            match &es[1].1 {
                YamlNode::Mapping(inner) => {
                    let inner_keys: Vec<&str> = inner.iter().map(|(k, _)| k.as_str()).collect();
                    assert_eq!(inner_keys, vec!["c", "d"]);
                }
                YamlNode::Leaf(_) => panic!("b stays a mapping"),
            }
            match &es[2].1 {
                YamlNode::Leaf(v) => assert_eq!(v.as_i64(), Some(4)),
                YamlNode::Mapping(_) => panic!("e is a leaf"),
            }
        }
        YamlNode::Leaf(_) => panic!("a mapping merged with a mapping is a mapping"),
    }
    let replaced = merge_yaml(
        YamlNode::Leaf(serde_yaml::Value::from(1)),
        &YamlNode::Leaf(serde_yaml::Value::from(9)),
    );
    match replaced {
        YamlNode::Leaf(v) => assert_eq!(v.as_i64(), Some(9)),
        YamlNode::Mapping(_) => panic!("a leaf overlay replaces"),
    }
}

#[test]
fn test_yaml_overlay() {
    let base = "fiscal_year: 2025/26\nincome_tax:\n  personal_allowance: 12570.0\n  pa_taper_threshold: 100000.0\nnational_insurance:\n  main_rate: 0.08\n  additional_rate: 0.02\n";
    let overlay = "income_tax:\n  personal_allowance: 20000.0\n";
    let reformed = yaml(&overlaid(base, overlay));
    let pa = get(&reformed, &["income_tax", "personal_allowance"]).as_f64().unwrap();
    assert!((pa - 20000.0).abs() < 0.01);
    let main_rate = get(&reformed, &["national_insurance", "main_rate"]).as_f64().unwrap();
    assert!((main_rate - 0.08).abs() < 0.001);
}

#[test]
fn keys_equal_as_values_merge_deeply() {
    let base = "0.0:\n  a: 1\n  b: 2\nc: 3\n";
    let out = yaml(&overlaid(base, "-0.0:\n  a: 5\n"));
    let map = out.as_mapping().unwrap();
    assert_eq!(map.len(), 2);
    let (key, inner) = map.iter().next().unwrap();
    assert_eq!(key.as_f64(), Some(0.0));
    assert_eq!(inner["a"].as_i64(), Some(5));
    assert_eq!(inner["b"].as_i64(), Some(2));
    assert_eq!(out["c"].as_i64(), Some(3));
}

#[test]
fn mapping_keys_in_another_order_are_one_key() {
    let base = "? {x: 1, y: 2}\n: {a: 1, b: 2}\n";
    let overlay = "? {y: 2, x: 1}\n: {a: 5}\n";
    let out = yaml(&overlaid(base, overlay));
    let map = out.as_mapping().unwrap();
    assert_eq!(map.len(), 1);
    let (_, inner) = map.iter().next().unwrap();
    assert_eq!(inner["a"].as_i64(), Some(5));
    assert_eq!(inner["b"].as_i64(), Some(2));
}
