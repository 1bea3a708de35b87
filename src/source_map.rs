use vstd::prelude::*;

verus! {

/// The source map of the host boundary, `oxc_sourcemap::napi::SourceMap`: the
/// standard interchange shape (version, sources, names, mappings, optional
/// source content and ignore list). The plugin carries such values through and
/// never looks inside them.
#[verifier::external_type_specification]
#[verifier::external_body]
pub struct ExSourceMap(oxc_sourcemap::napi::SourceMap);

} // verus!
