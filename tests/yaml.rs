use nmstate::error::ErrorKind;
use nmstate::yaml::{deserialize_yaml_to_spanned_value, SpannedEntry, SpannedValue, YamlPosition};

fn entry<'a>(entries: &'a [SpannedEntry], key: &str) -> &'a SpannedEntry {
    entries.iter().find(|e| e.key == key).unwrap()
}

#[test]
fn test_deserialize_yaml_to_spanned() {
    let yaml_content = r#"---
interfaces:
- name: eth1
  type: ethernet
  state: up
  mtu: 1500
  ipv5:
    dhcp: false
    enabled: true
"#;

    let spanned = deserialize_yaml_to_spanned_value(yaml_content).unwrap();
    println!("test got {:?}", spanned);

    let top = match &spanned {
        SpannedValue::Mapping(pos, entries) => {
            assert_eq!(*pos, YamlPosition::new(1, 0, 11));
            entries
        }
        other => panic!("expected a mapping, got {:?}", other),
    };
    assert_eq!(top.len(), 1);
    let ifaces = entry(top, "interfaces");
    assert_eq!(ifaces.key_pos, YamlPosition::new(1, 0, 10));
    let items = match &ifaces.value {
        SpannedValue::Sequence(pos, items) => {
            assert_eq!(*pos, YamlPosition::new(2, 0, 1));
            items
        }
        other => panic!("expected a sequence, got {:?}", other),
    };
    assert_eq!(items.len(), 1);
    let iface = match &items[0] {
        SpannedValue::Mapping(pos, entries) => {
            assert_eq!(*pos, YamlPosition::new(2, 2, 12));
            entries
        }
        other => panic!("expected a mapping, got {:?}", other),
    };
    let keys: Vec<&str> = iface.iter().map(|e| e.key.as_str()).collect();
    assert_eq!(keys, vec!["name", "type", "state", "mtu", "ipv5"]);
    assert_eq!(
        entry(iface, "name").value,
        SpannedValue::Scalar(YamlPosition::new(2, 8, 12), "eth1".to_string())
    );
    assert_eq!(
        entry(iface, "mtu").value,
        SpannedValue::Scalar(YamlPosition::new(5, 7, 11), "1500".to_string())
    );
    let ipv5 = match &entry(iface, "ipv5").value {
        SpannedValue::Mapping(pos, entries) => {
            assert_eq!(*pos, YamlPosition::new(7, 4, 15));
            entries
        }
        other => panic!("expected a mapping, got {:?}", other),
    };
    assert_eq!(entry(ipv5, "dhcp").key_pos, YamlPosition::new(7, 4, 8));
    assert_eq!(
        entry(ipv5, "dhcp").value,
        SpannedValue::Scalar(YamlPosition::new(7, 10, 15), "false".to_string())
    );
    assert_eq!(
        entry(ipv5, "enabled").value,
        SpannedValue::Scalar(YamlPosition::new(8, 13, 17), "true".to_string())
    );
}

#[test]
fn yaml_empty_and_scalar_documents() {
    assert_eq!(
        deserialize_yaml_to_spanned_value("").unwrap(),
        SpannedValue::Null(YamlPosition::new(0, 0, 0))
    );
    assert_eq!(
        deserialize_yaml_to_spanned_value("# only a comment\n\n").unwrap(),
        SpannedValue::Null(YamlPosition::new(0, 0, 0))
    );
    assert_eq!(
        deserialize_yaml_to_spanned_value("hello").unwrap(),
        SpannedValue::Scalar(YamlPosition::new(0, 0, 5), "hello".to_string())
    );
}

#[test]
fn yaml_sequence_of_scalars_and_empty_value() {
    let v = deserialize_yaml_to_spanned_value("dns:\n  - 8.8.8.8\n  - 1.1.1.1\nroutes:\n").unwrap();
    let entries = match &v {
        SpannedValue::Mapping(_, e) => e,
        other => panic!("expected a mapping, got {:?}", other),
    };
    assert_eq!(
        entry(entries, "dns").value,
        SpannedValue::Sequence(
            YamlPosition::new(1, 2, 3),
            vec![
                SpannedValue::Scalar(YamlPosition::new(1, 4, 11), "8.8.8.8".to_string()),
                SpannedValue::Scalar(YamlPosition::new(2, 4, 11), "1.1.1.1".to_string()),
            ]
        )
    );
    assert_eq!(entry(entries, "routes").value, SpannedValue::Null(YamlPosition::new(3, 0, 6)));
}

#[test]
fn yaml_rejects_bad_indentation_and_duplicates() {
    let e = deserialize_yaml_to_spanned_value("  a: 1\nb: 2\n").unwrap_err();
    assert_eq!(e.kind, ErrorKind::InvalidArgument);
    let e = deserialize_yaml_to_spanned_value("a: 1\na: 2\n").unwrap_err();
    assert_eq!(e.kind, ErrorKind::InvalidArgument);
}
