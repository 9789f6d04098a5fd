//! Boilerplate synthesis for record-like types.
//!
//! Given the structural description of a named-field record and a list of
//! `name = bool` option pairs, the library validates the options, extracts
//! the field list, decides whether a serialization marker must be added, and
//! assembles the augmented record description: the capabilities to generate
//! (constructor, representation, equality, ordering, hashing, and always
//! duplication), together with a field-visibility policy.
//!
//! The `semantics` module gives the generated capabilities their meaning over
//! model instances and proves the laws they obey: structural equality is an
//! equivalence, the generated ordering is a strict total order that agrees
//! with equality and breaks ties in declaration order, and equal instances
//! hash alike.

pub mod marker;
pub mod options;
pub mod record;
pub mod semantics;
pub mod synth;

pub use crate::marker::has_serde_attribute;
pub use crate::options::{ConfigError, OptValue, OptionsConfig, RawEntry};
pub use crate::record::{
    extract_fields, Annotation, FieldDescriptor, RecordDefinition, ShapeError, TypeShape,
};
pub use crate::semantics::{instance_cmp, instance_eq, instance_hash, FieldValue, Instance};
pub use crate::synth::{dataclass, AugmentedRecord, Capability, DataclassError, FieldVisibility};
