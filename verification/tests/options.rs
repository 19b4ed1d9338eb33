use signals_transform::options::default_import_source;
use signals_transform::{
    PreactSignalsPluginExperimental, PreactSignalsPluginOptions, TransformMode,
};

#[test]
fn default_options_hold_where_none_are_given() {
    assert_eq!(TransformMode::default(), TransformMode::All);
    assert_eq!(
        PreactSignalsPluginExperimental::default(),
        PreactSignalsPluginExperimental {
            add_hook_usage_flag: false
        }
    );
    assert_eq!(default_import_source(), "@react-typed-forms/core");
    assert_eq!(
        PreactSignalsPluginOptions::default(),
        PreactSignalsPluginOptions {
            mode: TransformMode::All,
            import_source: "@react-typed-forms/core".to_string(),
            experimental: PreactSignalsPluginExperimental {
                add_hook_usage_flag: false
            },
        }
    );
}
