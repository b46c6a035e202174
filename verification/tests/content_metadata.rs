use libcnb::error::{lift_hook_result, EngineError, Error, FaultOrigin};
use libcnb::fingerprint::strategy_for_fingerprint;
use libcnb::generic::GenericPlatform;
use libcnb::layer::{
    ExistingLayerStrategy, LayerContentMetadata, LayerResult, LayerResultBuilder, LayerTypes,
};
use libcnb::layer_env::{EnvOperation, ModificationBehavior, Scope};
use libcnb::sbom::{Sbom, SbomFormat};

fn content(launch: bool, build: bool, cache: bool) -> LayerContentMetadata<String> {
    LayerContentMetadata { launch, build, cache, metadata: String::from("abc123") }
}

#[test]
fn stored_document_round_trips() {
    for bits in 0..8 {
        let before = content(bits & 1 != 0, bits & 2 != 0, bits & 4 != 0);
        let expected = before.types();
        let (types, metadata) = before.into_document();
        assert_eq!(types, Some(expected));
        let read_back = LayerContentMetadata::from_document(types, metadata);
        assert_eq!(read_back.types(), expected);
        assert_eq!(read_back.metadata, "abc123");
    }
}

#[test]
fn document_without_flags_has_all_flags_off() {
    let read: LayerContentMetadata<u32> = LayerContentMetadata::from_document(None, 7);
    assert_eq!(read.types(), LayerTypes { launch: false, build: false, cache: false });
    assert_eq!(read.metadata, 7);
}

#[test]
fn from_parts_takes_flags_and_value() {
    let joined = LayerContentMetadata::from_parts(
        LayerTypes { launch: true, build: false, cache: true },
        String::from("v1"),
    );
    assert!(joined.launch);
    assert!(!joined.build);
    assert!(joined.cache);
    assert_eq!(joined.metadata, "v1");
}

#[test]
fn setters_change_one_field_each() {
    let changed = content(false, false, false).launch(true).cache(true).metadata(42u8);
    assert_eq!(changed.types(), LayerTypes { launch: true, build: false, cache: true });
    assert_eq!(changed.metadata, 42);
    let changed = content(true, false, true).build(true).launch(false);
    assert_eq!(changed.types(), LayerTypes { launch: false, build: true, cache: true });
    assert_eq!(changed.metadata, "abc123");
}

#[test]
fn uncached_layers_are_removed_after_the_build() {
    assert!(content(true, true, false).removed_after_build());
    assert!(content(false, false, false).removed_after_build());
    assert!(!content(false, false, true).removed_after_build());
    assert!(!content(true, true, true).removed_after_build());
}

#[test]
fn layer_without_any_flag_is_discarded() {
    assert!(content(false, false, false).is_discarded());
    assert!(!content(true, false, false).is_discarded());
    assert!(!content(false, true, false).is_discarded());
    assert!(!content(false, false, true).is_discarded());
}

#[test]
fn layer_result_builder_keeps_the_order_of_additions() {
    let result: LayerResult<String> = LayerResultBuilder::new(String::from("v1"))
        .sbom(Sbom::from_bytes(SbomFormat::SpdxJson, vec![1]))
        .env(EnvOperation {
            scope: Scope::Build,
            behavior: ModificationBehavior::Override,
            name: String::from("GEM_HOME"),
            value: String::from("/layers/gems"),
        })
        .sbom(Sbom::from_bytes(SbomFormat::CycloneDxJson, vec![2]))
        .env(EnvOperation {
            scope: Scope::Launch,
            behavior: ModificationBehavior::Delete,
            name: String::from("BUNDLE_WITHOUT"),
            value: String::new(),
        })
        .types(LayerTypes { launch: true, build: true, cache: false })
        .build_unwrapped();
    assert_eq!(result.metadata, "v1");
    assert_eq!(result.types, Some(LayerTypes { launch: true, build: true, cache: false }));
    assert_eq!(result.sboms.len(), 2);
    assert_eq!(result.sboms[0].format, SbomFormat::SpdxJson);
    assert_eq!(result.sboms[1].format, SbomFormat::CycloneDxJson);
    assert_eq!(result.env.len(), 2);
    assert_eq!(result.env[0].name, "GEM_HOME");
    assert_eq!(result.env[1].name, "BUNDLE_WITHOUT");
}

#[test]
fn layer_result_builder_starts_empty() {
    let result: Result<LayerResult<u8>, String> = LayerResultBuilder::new(9).build();
    let result = result.unwrap();
    assert_eq!(result.metadata, 9);
    assert!(result.types.is_none());
    assert!(result.sboms.is_empty());
    assert!(result.env.is_empty());
}

#[test]
fn errors_keep_their_origin() {
    let engine: Error<String> = Error::from_engine(EngineError::Io(String::from("disk full")));
    assert_eq!(engine.origin(), FaultOrigin::Engine);
    assert!(matches!(engine, Error::EngineError(EngineError::Io(message)) if message == "disk full"));
    let buildpack: Error<String> = Error::from_buildpack(String::from("exit status 1"));
    assert_eq!(buildpack.origin(), FaultOrigin::Buildpack);
    assert!(matches!(buildpack, Error::BuildpackError(message) if message == "exit status 1"));
}

#[test]
fn hook_results_are_lifted_unchanged() {
    let lifted: Result<u8, Error<String>> = lift_hook_result(Ok(3));
    assert!(matches!(lifted, Ok(3)));
    let lifted: Result<u8, Error<String>> = lift_hook_result(Err(String::from("boom")));
    assert!(matches!(lifted, Err(Error::BuildpackError(message)) if message == "boom"));
}

#[test]
fn fingerprints_decide_the_strategy() {
    let abc = String::from("abc123");
    let def = String::from("def456");
    assert_eq!(strategy_for_fingerprint(&abc, &abc, false), ExistingLayerStrategy::Keep);
    assert_eq!(strategy_for_fingerprint(&abc, &abc, true), ExistingLayerStrategy::Update);
    assert_eq!(strategy_for_fingerprint(&abc, &def, false), ExistingLayerStrategy::Recreate);
    assert_eq!(strategy_for_fingerprint(&abc, &def, true), ExistingLayerStrategy::Recreate);
    assert_eq!(
        strategy_for_fingerprint(&String::new(), &abc, false),
        ExistingLayerStrategy::Recreate
    );
}

#[test]
fn files_are_named_after_format_scope_and_change() {
    assert_eq!(SbomFormat::CycloneDxJson.file_extension(), "cdx.json");
    assert_eq!(SbomFormat::SpdxJson.file_extension(), "spdx.json");
    assert_eq!(SbomFormat::SyftJson.file_extension(), "syft.json");
    assert_eq!(Scope::Build.directory(), "env.build");
    assert_eq!(Scope::Launch.directory(), "env.launch");
    assert_eq!(Scope::All.directory(), "env");
    assert_eq!(ModificationBehavior::Override.suffix(), ".override");
    assert_eq!(ModificationBehavior::Prepend.suffix(), ".prepend");
    assert_eq!(ModificationBehavior::Append.suffix(), ".append");
    assert_eq!(ModificationBehavior::Default.suffix(), ".default");
    assert_eq!(ModificationBehavior::Delete.suffix(), ".delete");
    let change = EnvOperation {
        scope: Scope::All,
        behavior: ModificationBehavior::Prepend,
        name: String::from("PATH"),
        value: String::from("/layers/gems/bin"),
    };
    assert_eq!(change.file_name(), "PATH.prepend");
}

#[test]
fn scopes_apply_to_their_phases() {
    assert!(Scope::Build.applies_to_build());
    assert!(!Scope::Build.applies_to_launch());
    assert!(!Scope::Launch.applies_to_build());
    assert!(Scope::Launch.applies_to_launch());
    assert!(Scope::All.applies_to_build());
    assert!(Scope::All.applies_to_launch());
}

#[test]
fn generic_platform_holds_the_environment() {
    let platform = GenericPlatform::new(vec![(String::from("HOME"), String::from("/root"))]);
    assert_eq!(platform.env.len(), 1);
    assert_eq!(platform.env[0].0, "HOME");
}
