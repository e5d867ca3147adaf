//! Object metadata: lightweight types with the field names and the optionality of their
//! Kubernetes namesakes.
//!
//! Objects of any source can carry them: a natural key goes into [`ObjectMeta::name`], and a
//! change token (a content hash, a sequence number) into [`ObjectMeta::resource_version`].
//! They promise nothing about talking to a real apiserver.
use std::collections::BTreeMap;
use vstd::prelude::*;

verus! {

/// `jiff::Timestamp`: an instant, carried through unread.
#[verifier::external_type_specification]
#[verifier::external_body]
pub struct ExTimestamp(jiff::Timestamp);

/// `serde_json::Value`: any JSON value, carried through unread.
#[verifier::external_type_specification]
#[verifier::external_body]
pub struct ExValue(serde_json::Value);

/// The scope of a resource.
pub trait ResourceScope {}

/// Indicates that a resource is cluster-scoped.
pub struct ClusterResourceScope {}

impl ResourceScope for ClusterResourceScope {}

/// Indicates that a resource is namespace-scoped.
pub struct NamespaceResourceScope {}

impl ResourceScope for NamespaceResourceScope {}

/// Indicates that a resource exists only as a subresource of another.
pub struct SubResourceScope {}

impl ResourceScope for SubResourceScope {}

/// An RFC 3339 timestamp.
#[derive(Debug, Eq, PartialEq, PartialOrd)]
pub struct Time(pub jiff::Timestamp);

impl Clone for Time {
    fn clone(&self) -> (time: Self)
        ensures
            time == *self,
    {
        Time(self.0)
    }
}

/// `serde_json::Value::clone`: the copy is the same JSON value.
pub assume_specification[ <serde_json::Value as Clone>::clone ](
    value: &serde_json::Value,
) -> (copy: serde_json::Value)
    ensures
        copy == *value,
;

/// `serde_json::Value::is_null`. Nothing is claimed of its answer here; what is known of the
/// answer on a given value is stated of that value, with [`is_null`].
pub assume_specification[ serde_json::Value::is_null ](value: &serde_json::Value) -> (answer: bool)
;

/// Asked of this value, `serde_json::Value::is_null` says yes.
pub open spec fn is_null(value: serde_json::Value) -> bool {
    forall|answer: bool|
        #[trigger] call_ensures(serde_json::Value::is_null, (&value,), answer) ==> answer
}

/// `serde_json::Value::default`: JSON `null`.
pub assume_specification[ <serde_json::Value as Default>::default ]() -> (value: serde_json::Value)
    ensures
        is_null(value),
;

/// The payload of a field manager.
#[derive(Debug, PartialEq)]
pub struct FieldsV1(pub serde_json::Value);

impl Clone for FieldsV1 {
    fn clone(&self) -> (fields: Self)
        ensures
            fields == *self,
    {
        FieldsV1(self.0.clone())
    }
}

impl Default for FieldsV1 {
    /// JSON `null`.
    fn default() -> (fields: Self)
        ensures
            is_null(fields.0),
    {
        FieldsV1(serde_json::Value::default())
    }
}

/// Which fields a manager last set, and how.
#[derive(Clone, Debug, PartialEq)]
pub struct ManagedFieldsEntry {
    pub api_version: Option<String>,
    pub fields_type: Option<String>,
    pub fields_v1: Option<FieldsV1>,
    pub manager: Option<String>,
    pub operation: Option<String>,
    pub subresource: Option<String>,
    pub time: Option<Time>,
}

impl Default for ManagedFieldsEntry {
    /// An entry that says nothing.
    fn default() -> (meta: Self)
        ensures
            meta.api_version is None,
            meta.fields_type is None,
            meta.fields_v1 is None,
            meta.manager is None,
            meta.operation is None,
            meta.subresource is None,
            meta.time is None,
    {
        ManagedFieldsEntry {
            api_version: None,
            fields_type: None,
            fields_v1: None,
            manager: None,
            operation: None,
            subresource: None,
            time: None,
        }
    }
}

/// What identifies the owner of an object.
#[derive(Clone, Debug, PartialEq)]
pub struct OwnerReference {
    pub api_version: String,
    pub block_owner_deletion: Option<bool>,
    pub controller: Option<bool>,
    pub kind: String,
    pub name: String,
    pub uid: String,
}

impl Default for OwnerReference {
    /// A reference with empty names.
    fn default() -> (meta: Self)
        ensures
            meta.api_version@ == Seq::<char>::empty(),
            meta.block_owner_deletion is None,
            meta.controller is None,
            meta.kind@ == Seq::<char>::empty(),
            meta.name@ == Seq::<char>::empty(),
            meta.uid@ == Seq::<char>::empty(),
    {
        OwnerReference {
            api_version: String::new(),
            block_owner_deletion: None,
            controller: None,
            kind: String::new(),
            name: String::new(),
            uid: String::new(),
        }
    }
}

/// The metadata of an object.
#[derive(Clone, Debug, PartialEq)]
pub struct ObjectMeta {
    pub annotations: Option<BTreeMap<String, String>>,
    pub creation_timestamp: Option<Time>,
    pub deletion_grace_period_seconds: Option<i64>,
    pub deletion_timestamp: Option<Time>,
    pub finalizers: Option<Vec<String>>,
    pub generate_name: Option<String>,
    pub generation: Option<i64>,
    pub labels: Option<BTreeMap<String, String>>,
    pub managed_fields: Option<Vec<ManagedFieldsEntry>>,
    pub name: Option<String>,
    pub namespace: Option<String>,
    pub owner_references: Option<Vec<OwnerReference>>,
    pub resource_version: Option<String>,
    pub self_link: Option<String>,
    pub uid: Option<String>,
}

impl Default for ObjectMeta {
    /// Metadata that says nothing.
    fn default() -> (meta: Self)
        ensures
            meta.annotations is None,
            meta.creation_timestamp is None,
            meta.deletion_grace_period_seconds is None,
            meta.deletion_timestamp is None,
            meta.finalizers is None,
            meta.generate_name is None,
            meta.generation is None,
            meta.labels is None,
            meta.managed_fields is None,
            meta.name is None,
            meta.namespace is None,
            meta.owner_references is None,
            meta.resource_version is None,
            meta.self_link is None,
            meta.uid is None,
    {
        ObjectMeta {
            annotations: None,
            creation_timestamp: None,
            deletion_grace_period_seconds: None,
            deletion_timestamp: None,
            finalizers: None,
            generate_name: None,
            generation: None,
            labels: None,
            managed_fields: None,
            name: None,
            namespace: None,
            owner_references: None,
            resource_version: None,
            self_link: None,
            uid: None,
        }
    }
}

/// The metadata of a list.
#[derive(Clone, Debug, PartialEq)]
pub struct ListMeta {
    pub continue_: Option<String>,
    pub remaining_item_count: Option<i64>,
    pub resource_version: Option<String>,
    pub self_link: Option<String>,
}

impl Default for ListMeta {
    /// Metadata that says nothing.
    fn default() -> (meta: Self)
        ensures
            meta.continue_ is None,
            meta.remaining_item_count is None,
            meta.resource_version is None,
            meta.self_link is None,
    {
        ListMeta {
            continue_: None,
            remaining_item_count: None,
            resource_version: None,
            self_link: None,
        }
    }
}

/// A reference to an object.
#[derive(Clone, Debug, PartialEq)]
pub struct ObjectReference {
    pub api_version: Option<String>,
    pub field_path: Option<String>,
    pub kind: Option<String>,
    pub name: Option<String>,
    pub namespace: Option<String>,
    pub resource_version: Option<String>,
    pub uid: Option<String>,
}

impl Default for ObjectReference {
    /// A reference that names nothing.
    fn default() -> (meta: Self)
        ensures
            meta.api_version is None,
            meta.field_path is None,
            meta.kind is None,
            meta.name is None,
            meta.namespace is None,
            meta.resource_version is None,
            meta.uid is None,
    {
        ObjectReference {
            api_version: None,
            field_path: None,
            kind: None,
            name: None,
            namespace: None,
            resource_version: None,
            uid: None,
        }
    }
}

/// One condition of a label selector.
#[derive(Clone, Debug, PartialEq)]
pub struct LabelSelectorRequirement {
    pub key: String,
    pub operator: String,
    pub values: Option<Vec<String>>,
}

impl Default for LabelSelectorRequirement {
    /// A condition on the empty key.
    fn default() -> (meta: Self)
        ensures
            meta.key@ == Seq::<char>::empty(),
            meta.operator@ == Seq::<char>::empty(),
            meta.values is None,
    {
        LabelSelectorRequirement {
            key: String::new(),
            operator: String::new(),
            values: None,
        }
    }
}

/// What selects objects by their labels.
#[derive(Clone, Debug, PartialEq)]
pub struct LabelSelector {
    pub match_expressions: Option<Vec<LabelSelectorRequirement>>,
    pub match_labels: Option<BTreeMap<String, String>>,
}

impl Default for LabelSelector {
    /// A selector without conditions.
    fn default() -> (meta: Self)
        ensures
            meta.match_expressions is None,
            meta.match_labels is None,
    {
        LabelSelector {
            match_expressions: None,
            match_labels: None,
        }
    }
}

} // verus!
