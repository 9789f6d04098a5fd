//! The option configuration: ten named boolean flags parsed from a raw,
//! unordered list of `name = value` pairs.

use vstd::prelude::*;

verus! {

/// The right-hand side of one `name = value` option pair, as the host hands
/// it over: either a literal boolean, or some other syntactic value.
#[derive(Debug)]
pub enum OptValue {
    /// The value is the literal `true` or `false`.
    BoolLit(bool),
    /// Any other value (a string, a number, a non-literal expression).
    OtherVal,
}

/// One entry of the raw option list.
#[derive(Debug)]
pub enum RawEntry {
    /// A `name = value` pair whose left side is a bare identifier.
    Pair { name: String, value: OptValue },
    /// A `name = value` pair whose left side is not a bare identifier
    /// (a longer path, for example); `name` carries its text.
    NonIdentPair { name: String },
    /// An entry that is not a `name = value` pair at all.
    Unstructured,
}

/// A fatal configuration error; generation is aborted.
#[derive(Debug)]
pub enum ConfigError {
    /// The option name is not one of the ten recognized names.
    UnknownOption(String),
    /// The option value is not a literal boolean, or the left side of the
    /// pair is not a bare identifier; carries the offending name.
    InvalidValue(String),
    /// The option list is not a sequence of `name = value` pairs.
    InvalidSyntax,
}

/// The validated configuration: ten independent boolean flags.
#[derive(Clone, Copy, Debug, PartialEq, Eq, Structural)]
pub struct OptionsConfig {
    pub init: bool,
    pub repr: bool,
    pub eq: bool,
    pub order: bool,
    pub unsafe_hash: bool,
    pub frozen: bool,
    pub match_args: bool,
    pub kw_only: bool,
    pub slots: bool,
    pub weakref_slot: bool,
}

/// The documented defaults: `init`, `repr`, `eq` and `match_args` on, all
/// other flags off.
pub open spec fn spec_default_config() -> OptionsConfig {
    OptionsConfig {
        init: true,
        repr: true,
        eq: true,
        order: false,
        unsafe_hash: false,
        frozen: false,
        match_args: true,
        kw_only: false,
        slots: false,
        weakref_slot: false,
    }
}

/// What one recognized `name = value` assignment does to the configuration,
/// and which error an unrecognized name raises.
pub open spec fn spec_set_option(
    cfg: OptionsConfig,
    name: String,
    value: bool,
) -> Result<OptionsConfig, ConfigError> {
    if name@ == "init"@ {
        Ok(OptionsConfig { init: value, ..cfg })
    } else if name@ == "repr"@ {
        Ok(OptionsConfig { repr: value, ..cfg })
    } else if name@ == "eq"@ {
        Ok(OptionsConfig { eq: value, ..cfg })
    } else if name@ == "order"@ {
        Ok(OptionsConfig { order: value, ..cfg })
    } else if name@ == "unsafe_hash"@ {
        Ok(OptionsConfig { unsafe_hash: value, ..cfg })
    } else if name@ == "frozen"@ {
        Ok(OptionsConfig { frozen: value, ..cfg })
    } else if name@ == "match_args"@ {
        Ok(OptionsConfig { match_args: value, ..cfg })
    } else if name@ == "kw_only"@ {
        Ok(OptionsConfig { kw_only: value, ..cfg })
    } else if name@ == "slots"@ {
        Ok(OptionsConfig { slots: value, ..cfg })
    } else if name@ == "weakref_slot"@ {
        Ok(OptionsConfig { weakref_slot: value, ..cfg })
    } else {
        Err(ConfigError::UnknownOption(name))
    }
}

/// What one raw entry does to the configuration: the value must be a literal
/// boolean and the name a bare identifier before the name is even looked up.
pub open spec fn spec_apply_entry(
    cfg: OptionsConfig,
    entry: RawEntry,
) -> Result<OptionsConfig, ConfigError> {
    match entry {
        RawEntry::Pair { name, value } => match value {
            OptValue::BoolLit(b) => spec_set_option(cfg, name, b),
            OptValue::OtherVal => Err(ConfigError::InvalidValue(name)),
        },
        RawEntry::NonIdentPair { name } => Err(ConfigError::InvalidValue(name)),
        RawEntry::Unstructured => Err(ConfigError::InvalidSyntax),
    }
}

/// The whole option list folded over a starting configuration, first error
/// wins; later entries override earlier ones for the same name.
pub open spec fn spec_apply_entries(
    cfg: OptionsConfig,
    entries: Seq<RawEntry>,
) -> Result<OptionsConfig, ConfigError>
    decreases entries.len(),
{
    if entries.len() == 0 {
        Ok(cfg)
    } else {
        match spec_apply_entry(cfg, entries[0]) {
            Ok(next) => spec_apply_entries(next, entries.skip(1)),
            Err(e) => Err(e),
        }
    }
}

/// String comparison against a literal, stated over the views.
fn str_eq(a: &String, b: &str) -> (r: bool)
    ensures
        r == (a@ == b@),
{
    let owned: String = b.to_owned();
    *a == owned
}

/// One recognized assignment, executably.
fn set_option(cfg: OptionsConfig, name: &String, value: bool) -> (r: Result<
    OptionsConfig,
    ConfigError,
>)
    ensures
        r == spec_set_option(cfg, *name, value),
{
    let mut c = cfg;
    if str_eq(name, "init") {
        c.init = value;
        Ok(c)
    } else if str_eq(name, "repr") {
        c.repr = value;
        Ok(c)
    } else if str_eq(name, "eq") {
        c.eq = value;
        Ok(c)
    } else if str_eq(name, "order") {
        c.order = value;
        Ok(c)
    } else if str_eq(name, "unsafe_hash") {
        c.unsafe_hash = value;
        Ok(c)
    } else if str_eq(name, "frozen") {
        c.frozen = value;
        Ok(c)
    } else if str_eq(name, "match_args") {
        c.match_args = value;
        Ok(c)
    } else if str_eq(name, "kw_only") {
        c.kw_only = value;
        Ok(c)
    } else if str_eq(name, "slots") {
        c.slots = value;
        Ok(c)
    } else if str_eq(name, "weakref_slot") {
        c.weakref_slot = value;
        Ok(c)
    } else {
        Err(ConfigError::UnknownOption(name.clone()))
    }
}

impl OptionsConfig {
    /// The defaults, executably.
    pub fn default_config() -> (c: OptionsConfig)
        ensures
            c == spec_default_config(),
    {
        OptionsConfig {
            init: true,
            repr: true,
            eq: true,
            order: false,
            unsafe_hash: false,
            frozen: false,
            match_args: true,
            kw_only: false,
            slots: false,
            weakref_slot: false,
        }
    }

    /// Builds the configuration from the raw option list: defaults first,
    /// then every entry applied in order, the first invalid entry aborting.
    ///
    /// An empty list yields exactly the defaults.
    pub fn from_entries(entries: &Vec<RawEntry>) -> (r: Result<OptionsConfig, ConfigError>)
        ensures
            r == spec_apply_entries(spec_default_config(), entries@),
            entries@.len() == 0 ==> r == Ok::<OptionsConfig, ConfigError>(spec_default_config()),
    {
        let mut cfg = OptionsConfig::default_config();
        let n = entries.len();
        let mut i: usize = 0;
        proof {
            assert(entries@.skip(0) =~= entries@);
        }
        while i < n
            invariant
                i <= n,
                n == entries@.len(),
                spec_apply_entries(spec_default_config(), entries@) == spec_apply_entries(
                    cfg,
                    entries@.skip(i as int),
                ),
            decreases n - i,
        {
            proof {
                assert(entries@.skip(i as int)[0] == entries@[i as int]);
                assert(entries@.skip(i as int).skip(1) =~= entries@.skip(i as int + 1));
            }
            match &entries[i] {
                RawEntry::Pair { name, value } => match value {
                    OptValue::BoolLit(b) => {
                        match set_option(cfg, name, *b) {
                            Ok(next) => {
                                cfg = next;
                            },
                            Err(e) => {
                                return Err(e);
                            },
                        }
                    },
                    OptValue::OtherVal => {
                        return Err(ConfigError::InvalidValue(name.clone()));
                    },
                },
                RawEntry::NonIdentPair { name } => {
                    return Err(ConfigError::InvalidValue(name.clone()));
                },
                RawEntry::Unstructured => {
                    return Err(ConfigError::InvalidSyntax);
                },
            }
            i += 1;
        }
        Ok(cfg)
    }
}

} // verus!
