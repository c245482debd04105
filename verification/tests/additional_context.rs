use kodex::additional_context::{AdditionalContextEntry, AdditionalContextKind, AdditionalContextStore, ContextFragment};
use kodex::additional_context::AdditionalContextKind::{Application, Untrusted};

fn entry(kind: AdditionalContextKind, value: &str) -> AdditionalContextEntry {
    AdditionalContextEntry { kind, value: value.to_string() }
}

fn values(pairs: &[(&str, AdditionalContextKind, &str)]) -> Vec<(String, AdditionalContextEntry)> {
    pairs.iter().map(|(k, kind, v)| (k.to_string(), entry(*kind, v))).collect()
}

fn describe(fs: &[ContextFragment]) -> Vec<(String, String, String)> {
    fs.iter()
        .map(|f| match f {
            ContextFragment::User { key, value } => ("user".to_string(), key.clone(), value.clone()),
            ContextFragment::Developer { key, value } => ("developer".to_string(), key.clone(), value.clone()),
        })
        .collect()
}

#[test]
fn merge_delivers_new_and_changed_values_only() {
    let mut store = AdditionalContextStore::new();
    let first = store.merge(values(&[("a", Untrusted, "1"), ("b", Application, "2")]));
    assert_eq!(
        describe(&first),
        vec![
            ("user".to_string(), "a".to_string(), "1".to_string()),
            ("developer".to_string(), "b".to_string(), "2".to_string())
        ]
    );
    // Same values again: nothing is delivered.
    assert!(store.merge(values(&[("a", Untrusted, "1"), ("b", Application, "2")])).is_empty());
    // A changed value and a changed kind are delivered; a dropped key is forgotten.
    let third = store.merge(values(&[("a", Untrusted, "1"), ("b", Untrusted, "2"), ("c", Application, "3")]));
    assert_eq!(
        describe(&third),
        vec![
            ("user".to_string(), "b".to_string(), "2".to_string()),
            ("developer".to_string(), "c".to_string(), "3".to_string())
        ]
    );
    let fourth = store.merge(values(&[("c", Application, "3")]));
    assert!(fourth.is_empty());
    let fifth = store.merge(values(&[("a", Untrusted, "1")]));
    assert_eq!(describe(&fifth), vec![("user".to_string(), "a".to_string(), "1".to_string())]);
}
