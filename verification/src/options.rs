//! The options of the transform.
use vstd::prelude::*;

verus! {

/// Which functions are tracked without a directive.
#[derive(Debug, Clone, Copy, PartialEq, Eq, Structural)]
pub enum TransformMode {
    /// None
    Manual,
    /// All components
    All,
    /// All components
    Auto,
}

impl Default for TransformMode {
    fn default() -> (r: TransformMode)
        ensures
            r == TransformMode::All,
    {
        TransformMode::All
    }
}

/// Options that may change.
#[derive(Debug, Clone, Copy, PartialEq, Eq, Structural)]
pub struct PreactSignalsPluginExperimental {
    /// Whether a tracked function tells what it is taken for
    pub add_hook_usage_flag: bool,
}

impl Default for PreactSignalsPluginExperimental {
    fn default() -> (r: PreactSignalsPluginExperimental)
        ensures
            !r.add_hook_usage_flag,
    {
        PreactSignalsPluginExperimental { add_hook_usage_flag: false }
    }
}

/// The module that tracking is imported from, where the options name none.
pub fn default_import_source() -> (r: String)
    ensures
        r@ == "@react-typed-forms/core"@,
{
    "@react-typed-forms/core".to_owned()
}

/// The options of the transform.
#[derive(Debug, PartialEq, Eq)]
pub struct PreactSignalsPluginOptions {
    pub mode: TransformMode,
    pub import_source: String,
    pub experimental: PreactSignalsPluginExperimental,
}

pub struct PreactSignalsPluginOptionsView {
    pub mode: TransformMode,
    pub import_source: Seq<char>,
    pub add_hook_usage_flag: bool,
}

impl PreactSignalsPluginOptions {
    pub open spec fn view(&self) -> PreactSignalsPluginOptionsView {
        PreactSignalsPluginOptionsView {
            mode: self.mode,
            import_source: self.import_source@,
            add_hook_usage_flag: self.experimental.add_hook_usage_flag,
        }
    }
}

pub open spec fn default_options() -> PreactSignalsPluginOptionsView {
    PreactSignalsPluginOptionsView {
        mode: TransformMode::All,
        import_source: "@react-typed-forms/core"@,
        add_hook_usage_flag: false,
    }
}

impl Default for PreactSignalsPluginOptions {
    fn default() -> (r: PreactSignalsPluginOptions)
        ensures
            r@ == default_options(),
    {
        PreactSignalsPluginOptions {
            mode: TransformMode::default(),
            import_source: default_import_source(),
            experimental: PreactSignalsPluginExperimental::default(),
        }
    }
}

} // verus!
