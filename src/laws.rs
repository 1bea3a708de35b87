use vstd::prelude::*;
use crate::plugin::{map_owed, render_chunk_model, transform_model, PluginOptions, ResultModel};

verus! {

/// With source-map emission off, no result carries a map: not that of a
/// module's transform, not that of a chunk's render, nor any other output.
pub proof fn lemma_no_map_without_emission(
    opts: PluginOptions,
    code: Seq<char>,
    id: Seq<char>,
    file_name: Seq<char>,
    module_ids: Seq<Seq<char>>,
)
    requires
        !opts.emit_source_map,
    ensures
        !transform_model(opts, code, id).has_map,
        !render_chunk_model(opts, code, file_name, module_ids).has_map,
        forall|output: Seq<char>| !map_owed(opts.emit_source_map, code, output),
{
}

/// Two transforms of the same text and id by one plugin give the same result:
/// a plugin keeps no state from one call to the next.
pub proof fn lemma_transform_repeatable(
    opts: PluginOptions,
    code: Seq<char>,
    id: Seq<char>,
    first: ResultModel,
    second: ResultModel,
)
    requires
        first == transform_model(opts, code, id),
        second == transform_model(opts, code, id),
    ensures
        first == second,
{
}

/// Two renders of the same chunk by one plugin give the same result.
pub proof fn lemma_render_chunk_repeatable(
    opts: PluginOptions,
    code: Seq<char>,
    file_name: Seq<char>,
    module_ids: Seq<Seq<char>>,
    first: ResultModel,
    second: ResultModel,
)
    requires
        first == render_chunk_model(opts, code, file_name, module_ids),
        second == render_chunk_model(opts, code, file_name, module_ids),
    ensures
        first == second,
{
}

/// Plugins built with different settings do not affect each other: on the same
/// inputs their results have the same code, and they agree entirely when both
/// plugins emit source maps or both do not. What one plugin returns is fixed by
/// its own settings and the call's inputs alone.
pub proof fn lemma_instances_independent(
    a: PluginOptions,
    b: PluginOptions,
    code: Seq<char>,
    id: Seq<char>,
    file_name: Seq<char>,
    module_ids: Seq<Seq<char>>,
)
    ensures
        transform_model(a, code, id).code == transform_model(b, code, id).code,
        render_chunk_model(a, code, file_name, module_ids).code == render_chunk_model(
            b,
            code,
            file_name,
            module_ids,
        ).code,
        a.emit_source_map == b.emit_source_map ==> transform_model(a, code, id)
            == transform_model(b, code, id),
        a.emit_source_map == b.emit_source_map ==> render_chunk_model(
            a,
            code,
            file_name,
            module_ids,
        ) == render_chunk_model(b, code, file_name, module_ids),
{
}

/// Rendering a chunk draws nothing from the order or content of its module ids:
/// the result is the same for any list, so no output of it can show the list
/// reordered or changed.
pub proof fn lemma_render_chunk_ignores_module_ids(
    opts: PluginOptions,
    code: Seq<char>,
    file_name: Seq<char>,
    module_ids: Seq<Seq<char>>,
    other_ids: Seq<Seq<char>>,
)
    ensures
        render_chunk_model(opts, code, file_name, module_ids) == render_chunk_model(
            opts,
            code,
            file_name,
            other_ids,
        ),
{
}

} // verus!
