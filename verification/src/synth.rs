//! The code synthesizer and emission: selects the generated capabilities
//! from the validated configuration and assembles the augmented record.

use vstd::prelude::*;

use crate::marker::{has_serde_attribute, spec_has_serde_attribute};
use crate::options::{spec_apply_entries, spec_default_config, ConfigError, OptionsConfig, RawEntry};
use crate::record::{Annotation, FieldDescriptor, RecordDefinition, ShapeError, TypeShape};

verus! {

/// One generated capability of the augmented record. Each stands for an
/// independent generated fragment; the shared field list lives beside them
/// in the record, in declaration order.
#[derive(Clone, Copy, Debug, PartialEq, Eq, Structural)]
pub enum Capability {
    /// Duplication; always present, whatever the configuration says.
    Duplicate,
    /// The constructor: one parameter per field, in declaration order.
    Constructor,
    /// The human-readable rendering: type name, then each field's name and
    /// value, in declaration order.
    Representation,
    /// Structural equality over the fields, in declaration order.
    Equality,
    /// Lexicographic ordering over the fields, in declaration order.
    Ordering,
    /// The combined hash of every field, in declaration order.
    Hashing,
}

/// The visibility of the record's fields in the emitted definition.
#[derive(Clone, Copy, Debug, PartialEq, Eq, Structural)]
pub enum FieldVisibility {
    /// Fields are fully publicly accessible.
    Public,
    /// Fields are exposed only within the defining module; construction
    /// from outside goes through the generated constructor.
    ModuleOnly,
}

/// A fatal generation error.
#[derive(Debug)]
pub enum DataclassError {
    Config(ConfigError),
    Shape(ShapeError),
}

/// The replacement definition handed back to the host: pass-through
/// annotations, the marker instruction, the visibility-adjusted field list,
/// and the generated capabilities.
#[derive(Debug)]
pub struct AugmentedRecord {
    pub name: String,
    pub annotations: Vec<Annotation>,
    /// Whether the conditional serialization marker must be appended to the
    /// annotations.
    pub serde_marker: bool,
    pub visibility: FieldVisibility,
    pub fields: Vec<FieldDescriptor>,
    pub capabilities: Vec<Capability>,
}

/// The capabilities selected by a configuration, in emission order:
/// duplication always, then constructor, representation, equality, ordering
/// and hashing, each iff its flag is set. `match_args`, `kw_only`, `slots`
/// and `weakref_slot` are validated but consulted by no fragment.
pub open spec fn spec_capabilities(cfg: OptionsConfig) -> Seq<Capability> {
    seq![Capability::Duplicate] + (if cfg.init {
        seq![Capability::Constructor]
    } else {
        Seq::<Capability>::empty()
    }) + (if cfg.repr {
        seq![Capability::Representation]
    } else {
        Seq::<Capability>::empty()
    }) + (if cfg.eq {
        seq![Capability::Equality]
    } else {
        Seq::<Capability>::empty()
    }) + (if cfg.order {
        seq![Capability::Ordering]
    } else {
        Seq::<Capability>::empty()
    }) + (if cfg.unsafe_hash {
        seq![Capability::Hashing]
    } else {
        Seq::<Capability>::empty()
    })
}

/// The field visibility selected by a configuration.
pub open spec fn spec_visibility(cfg: OptionsConfig) -> FieldVisibility {
    if cfg.frozen {
        FieldVisibility::ModuleOnly
    } else {
        FieldVisibility::Public
    }
}

/// Selects the generated capabilities, in emission order.
pub fn synthesize(options: &OptionsConfig) -> (caps: Vec<Capability>)
    ensures
        caps@ == spec_capabilities(*options),
{
    let mut caps: Vec<Capability> = Vec::new();
    caps.push(Capability::Duplicate);
    if options.init {
        caps.push(Capability::Constructor);
    }
    if options.repr {
        caps.push(Capability::Representation);
    }
    if options.eq {
        caps.push(Capability::Equality);
    }
    if options.order {
        caps.push(Capability::Ordering);
    }
    if options.unsafe_hash {
        caps.push(Capability::Hashing);
    }
    proof {
        assert(caps@ =~= spec_capabilities(*options));
    }
    caps
}

/// Assembles the augmented record for a named-field definition: name and
/// annotations pass through, the marker instruction is recorded, the field
/// list keeps declaration order under the selected visibility, and the
/// capabilities follow the configuration. Every other shape is rejected.
pub fn implement_dataclass(
    input: RecordDefinition,
    options: &OptionsConfig,
    serde_marker: bool,
) -> (r: Result<AugmentedRecord, ShapeError>)
    ensures
        match input.shape {
            TypeShape::NamedFields(input_fields) => r matches Ok(out) && out.name == input.name
                && out.annotations == input.annotations && out.serde_marker == serde_marker
                && out.visibility == spec_visibility(*options) && out.fields == input_fields
                && out.capabilities@ == spec_capabilities(*options),
            _ => r matches Err(e) && e == ShapeError::UnsupportedKind,
        },
{
    let RecordDefinition { name, annotations, shape } = input;
    let fields = match shape {
        TypeShape::NamedFields(fields) => fields,
        _ => {
            return Err(ShapeError::UnsupportedKind);
        },
    };
    let capabilities = synthesize(options);
    let visibility = if options.frozen {
        FieldVisibility::ModuleOnly
    } else {
        FieldVisibility::Public
    };
    Ok(AugmentedRecord { name, annotations, serde_marker, visibility, fields, capabilities })
}

/// The whole transformation: validates the option list, decides the marker,
/// and emits the augmented record. The first configuration error aborts;
/// with a valid configuration, any shape other than named fields aborts.
pub fn dataclass(entries: &Vec<RawEntry>, input: RecordDefinition) -> (r: Result<
    AugmentedRecord,
    DataclassError,
>)
    ensures
        match spec_apply_entries(spec_default_config(), entries@) {
            Err(e) => r == Err::<AugmentedRecord, DataclassError>(DataclassError::Config(e)),
            Ok(cfg) => match input.shape {
                TypeShape::NamedFields(input_fields) => r matches Ok(out) && out.name == input.name
                    && out.annotations == input.annotations && out.serde_marker
                    == !spec_has_serde_attribute(input.annotations@) && out.visibility
                    == spec_visibility(cfg) && out.fields == input_fields && out.capabilities@
                    == spec_capabilities(cfg),
                _ => r == Err::<AugmentedRecord, DataclassError>(
                    DataclassError::Shape(ShapeError::UnsupportedKind),
                ),
            },
        },
{
    let options = match OptionsConfig::from_entries(entries) {
        Ok(cfg) => cfg,
        Err(e) => {
            return Err(DataclassError::Config(e));
        },
    };
    let serde_marker = !has_serde_attribute(&input.annotations);
    match implement_dataclass(input, &options, serde_marker) {
        Ok(out) => Ok(out),
        Err(e) => Err(DataclassError::Shape(e)),
    }
}

} // verus!
