//! The marker inspector: scans the record's existing annotations for the
//! serialization marker, to decide whether one must be appended.

use vstd::prelude::*;

use crate::record::Annotation;

verus! {

/// Whether `text`, read under syn's grammar for attribute arguments, is the
/// bare path `ident` and nothing else.
pub uninterp spec fn parses_as_bare_path(text: Seq<char>, ident: Seq<char>) -> bool;

/// Relies on `syn::parse_str::<syn::Meta>` and `syn::Path::is_ident`: the
/// argument text is parsed as attribute arguments, and the result says
/// whether it is exactly the bare path `ident`. The answer is a function of
/// the two strings alone.
#[verifier::external_body]
fn meta_is_bare_path(text: &str, ident: &str) -> (r: bool)
    ensures
        r == parses_as_bare_path(text@, ident@),
{
    match syn::parse_str::<syn::Meta>(text) {
        Ok(syn::Meta::Path(path)) => path.is_ident(ident),
        _ => false,
    }
}

/// Whether some existing annotation already carries the `serde` marker in
/// its arguments.
pub open spec fn spec_has_serde_attribute(attrs: Seq<Annotation>) -> bool {
    exists|i: int|
        0 <= i < attrs.len() && #[trigger] parses_as_bare_path(attrs[i].args@, "serde"@)
}

/// Scans the annotation list for an annotation whose arguments are the bare
/// path `serde`. When none is found, the caller appends the conditional
/// serialization marker.
pub fn has_serde_attribute(attrs: &Vec<Annotation>) -> (r: bool)
    ensures
        r == spec_has_serde_attribute(attrs@),
{
    let n = attrs.len();
    let mut i: usize = 0;
    while i < n
        invariant
            i <= n,
            n == attrs@.len(),
            forall|j: int|
                0 <= j < i ==> !#[trigger] parses_as_bare_path(attrs@[j].args@, "serde"@),
        decreases n - i,
    {
        if meta_is_bare_path(attrs[i].args.as_str(), "serde") {
            return true;
        }
        i += 1;
    }
    false
}

} // verus!
