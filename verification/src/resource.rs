//! The resource descriptor that is propagated to exporters.

use vstd::prelude::*;

verus! {

/// One attribute: a key and its value.
#[derive(Debug, Clone, PartialEq, Eq)]
pub struct KeyValue {
    pub key: String,
    pub value: String,
}

impl KeyValue {
    /// Pairs `key` with `value`.
    pub fn new(key: String, value: String) -> (attribute: KeyValue)
        ensures
            attribute.key == key,
            attribute.value == value,
    {
        KeyValue { key, value }
    }
}

/// The attributes that describe the entity producing telemetry.
#[derive(Debug, Clone, PartialEq, Eq)]
pub struct Resource {
    attributes: Vec<KeyValue>,
}

impl View for Resource {
    type V = Seq<KeyValue>;

    closed spec fn view(&self) -> Seq<KeyValue> {
        self.attributes@
    }
}

impl Resource {
    /// A resource described by `attributes`, kept in the order given.
    pub fn new(attributes: Vec<KeyValue>) -> (resource: Resource)
        ensures
            resource@ == attributes@,
    {
        Resource { attributes }
    }

    /// A resource without attributes.
    pub fn empty() -> (resource: Resource)
        ensures
            resource@ == Seq::<KeyValue>::empty(),
    {
        Resource { attributes: Vec::new() }
    }

    /// The number of attributes.
    pub fn len(&self) -> (n: usize)
        ensures
            n == self@.len(),
    {
        self.attributes.len()
    }

    /// Whether the resource has no attributes.
    pub fn is_empty(&self) -> (empty: bool)
        ensures
            empty == (self@.len() == 0),
    {
        self.attributes.len() == 0
    }

    /// The attribute at `index`, if there is one.
    pub fn get(&self, index: usize) -> (attribute: Option<&KeyValue>)
        ensures
            index < self@.len() ==> attribute == Some(&self@[index as int]),
            index >= self@.len() ==> attribute is None,
    {
        if index < self.attributes.len() {
            Some(&self.attributes[index])
        } else {
            None
        }
    }
}

} // verus!
