use vstd::prelude::*;
use oxc_sourcemap::napi::SourceMap;

verus! {

/// The settings a plugin is built with.
pub ghost struct PluginOptions {
    pub emit_source_map: bool,
    pub cjs_default_export: bool,
    pub mark_side_effect_free: bool,
}

/// What a caller sees of a result: its code, and whether a map came with it.
pub ghost struct ResultModel {
    pub code: Seq<char>,
    pub has_map: bool,
}

/// A map comes with a result exactly when emission is on and the code was
/// altered: an unchanged text has nothing to map.
pub open spec fn map_owed(emit_source_map: bool, input: Seq<char>, output: Seq<char>) -> bool {
    emit_source_map && output != input
}

/// The result of transforming one module. No rewrite is performed: the module's
/// text comes back unchanged (an empty result would delete the module from the
/// host's output), and so no map is attached. The other two settings would shape
/// what a real rewrite emits, never the shape of the result.
pub open spec fn transform_model(opts: PluginOptions, code: Seq<char>, id: Seq<char>) -> ResultModel {
    let out = code;
    ResultModel { code: out, has_map: map_owed(opts.emit_source_map, code, out) }
}

/// The result of rendering one chunk, by the same rules as a module's transform:
/// the bundled text comes back unchanged and without a map. The module ids are
/// read only; nothing is built from them while no map is emitted.
pub open spec fn render_chunk_model(
    opts: PluginOptions,
    code: Seq<char>,
    file_name: Seq<char>,
    module_ids: Seq<Seq<char>>,
) -> ResultModel {
    let out = code;
    ResultModel { code: out, has_map: map_owed(opts.emit_source_map, code, out) }
}

/// The text of each module id, in the host's order.
pub open spec fn ids_view(module_ids: Seq<String>) -> Seq<Seq<char>> {
    module_ids.map_values(|s: String| s@)
}

/// A plugin instance: three settings, fixed when it is built.
pub struct FakeJsPlugin {
    sourcemap: bool,
    cjs_default: bool,
    side_effects: bool,
}

impl View for FakeJsPlugin {
    type V = PluginOptions;

    closed spec fn view(&self) -> PluginOptions {
        PluginOptions {
            emit_source_map: self.sourcemap,
            cjs_default_export: self.cjs_default,
            mark_side_effect_free: self.side_effects,
        }
    }
}

/// What both operations hand back: the code, and a source map when one is owed.
pub struct TransformResult {
    pub code: String,
    pub map: Option<SourceMap>,
}

impl View for TransformResult {
    type V = ResultModel;

    open spec fn view(&self) -> ResultModel {
        ResultModel { code: self.code@, has_map: self.map is Some }
    }
}

impl FakeJsPlugin {
    /// Builds a plugin; every combination of settings is valid.
    pub fn new(sourcemap: bool, cjs_default: bool, side_effects: bool) -> (r: Self)
        ensures
            r@ == (PluginOptions {
                emit_source_map: sourcemap,
                cjs_default_export: cjs_default,
                mark_side_effect_free: side_effects,
            }),
    {
        FakeJsPlugin { sourcemap, cjs_default, side_effects }
    }

    /// Transforms the text of the module `id`; it never fails, whatever the text.
    pub fn transform(&self, code: String, id: String) -> (r: TransformResult)
        ensures
            r@ == transform_model(self@, code@, id@),
            r.code@ == code@,
            r.map is None,
    {
        TransformResult { code, map: None }
    }

    /// Renders the chunk `file_name`, bundled from `module_ids` in that order;
    /// it never fails, whatever the text.
    pub fn render_chunk(&self, code: String, file_name: String, module_ids: Vec<String>) -> (r:
        TransformResult)
        ensures
            r@ == render_chunk_model(self@, code@, file_name@, ids_view(module_ids@)),
            r.code@ == code@,
            r.map is None,
    {
        TransformResult { code, map: None }
    }
}

} // verus!
