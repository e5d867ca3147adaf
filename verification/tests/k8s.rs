//! The metadata types.
use kubeless::k8s::{
    ClusterResourceScope, FieldsV1, LabelSelector, LabelSelectorRequirement, ListMeta, ManagedFieldsEntry,
    NamespaceResourceScope, ObjectMeta, ObjectReference, OwnerReference, ResourceScope, SubResourceScope, Time,
};
use serde_json::Value;
use std::collections::BTreeMap;

fn scoped<S: ResourceScope>(_scope: S) -> bool {
    true
}

#[test]
fn all_scopes_are_scopes() {
    assert!(scoped(ClusterResourceScope {}));
    assert!(scoped(NamespaceResourceScope {}));
    assert!(scoped(SubResourceScope {}));
}

#[test]
fn default_payload_is_null() {
    assert_eq!(FieldsV1::default().0, Value::Null);
}

#[test]
fn payload_is_cloned() {
    let fields = FieldsV1(Value::Array(vec![Value::Bool(true), Value::String("spec".to_string())]));
    let copy = fields.clone();
    drop(fields);
    assert_eq!(
        copy.0,
        Value::Array(vec![Value::Bool(true), Value::String("spec".to_string())])
    );
}

#[test]
fn times_are_cloned_and_ordered() {
    let early = Time(jiff::Timestamp::from_second(1).expect("in range"));
    let late = Time(jiff::Timestamp::from_second(2).expect("in range"));
    assert_eq!(early.clone(), early);
    assert_ne!(early, late);
    assert!(early < late);
}

#[test]
fn default_object_meta_says_nothing() {
    let meta = ObjectMeta::default();
    assert_eq!(meta.annotations, None);
    assert_eq!(meta.creation_timestamp, None);
    assert_eq!(meta.deletion_grace_period_seconds, None);
    assert_eq!(meta.deletion_timestamp, None);
    assert_eq!(meta.finalizers, None);
    assert_eq!(meta.generate_name, None);
    assert_eq!(meta.generation, None);
    assert_eq!(meta.labels, None);
    assert_eq!(meta.managed_fields, None);
    assert_eq!(meta.name, None);
    assert_eq!(meta.namespace, None);
    assert_eq!(meta.owner_references, None);
    assert_eq!(meta.resource_version, None);
    assert_eq!(meta.self_link, None);
    assert_eq!(meta.uid, None);
}

#[test]
fn object_meta_is_compared_and_cloned_by_its_fields() {
    let meta = ObjectMeta {
        name: Some("a".to_string()),
        labels: Some(BTreeMap::from([("app".to_string(), "web".to_string())])),
        owner_references: Some(vec![OwnerReference::default()]),
        ..ObjectMeta::default()
    };
    assert_eq!(meta.clone(), meta);
    let other = ObjectMeta {
        resource_version: Some("2".to_string()),
        ..meta.clone()
    };
    assert_ne!(other, meta);
}

#[test]
fn default_owner_reference_has_empty_names() {
    let owner = OwnerReference::default();
    assert_eq!(owner.api_version, "");
    assert_eq!(owner.block_owner_deletion, None);
    assert_eq!(owner.controller, None);
    assert_eq!(owner.kind, "");
    assert_eq!(owner.name, "");
    assert_eq!(owner.uid, "");
}

#[test]
fn other_defaults_say_nothing() {
    let list = ListMeta::default();
    assert_eq!(
        (list.continue_, list.remaining_item_count, list.resource_version, list.self_link),
        (None, None, None, None)
    );
    let reference = ObjectReference::default();
    assert_eq!((reference.api_version, reference.field_path, reference.kind), (None, None, None));
    assert_eq!((reference.name, reference.namespace), (None, None));
    assert_eq!((reference.resource_version, reference.uid), (None, None));
    let requirement = LabelSelectorRequirement::default();
    assert_eq!(requirement.key, "");
    assert_eq!(requirement.operator, "");
    assert_eq!(requirement.values, None);
    let selector = LabelSelector::default();
    assert_eq!((selector.match_expressions, selector.match_labels), (None, None));
    let entry = ManagedFieldsEntry::default();
    assert_eq!((entry.api_version, entry.fields_type, entry.fields_v1), (None, None, None));
    assert_eq!((entry.manager, entry.operation), (None, None));
    assert_eq!((entry.subresource, entry.time), (None, None));
}
