use libcnb::build_phase::{BuildResult, BuildResultBuilder};
use libcnb::error::{EngineError, Error, LaunchSpecFault};
use libcnb::launch::{has_duplicate_type, has_multiple_defaults, Launch, Process};
use libcnb::sbom::{Sbom, SbomFormat};
use libcnb_data::store::Store;

fn process(process_type: &str, default: bool) -> Process {
    Process {
        process_type: String::from(process_type),
        command: vec![String::from("bundle")],
        args: vec![String::from("exec"), String::from("ruby"), String::from("app.rb")],
        default,
        working_directory: None,
    }
}

fn launch(processes: Vec<Process>) -> Launch {
    Launch { labels: Vec::new(), processes, slices: Vec::new() }
}

fn store(key: &str, value: &str) -> Store {
    let mut metadata = toml::value::Table::new();
    metadata.insert(String::from(key), toml::Value::String(String::from(value)));
    Store { metadata }
}

fn built(builder: BuildResultBuilder) -> BuildResult {
    match builder.build::<String>() {
        Ok(result) => result,
        Err(_) => panic!("the build result should have been accepted"),
    }
}

fn fault(builder: BuildResultBuilder) -> LaunchSpecFault {
    match builder.build::<String>() {
        Err(Error::EngineError(EngineError::InvalidLaunchSpec(fault))) => fault,
        _ => panic!("the launch configuration should have been refused"),
    }
}

#[test]
fn builder_without_contributions_yields_an_empty_result() {
    let result = built(BuildResultBuilder::new());
    assert!(result.launch().is_none());
    assert!(result.store().is_none());
    assert!(result.build_sboms().is_empty());
    assert!(result.launch_sboms().is_empty());
}

#[test]
fn unwrapped_build_yields_the_same_result() {
    let result = BuildResultBuilder::new()
        .build_sbom(Sbom::from_bytes(SbomFormat::SyftJson, vec![7]))
        .build_unwrapped();
    assert!(result.launch().is_none());
    assert_eq!(result.build_sboms().len(), 1);
    assert_eq!(result.build_sboms()[0].data, vec![7]);
}

#[test]
fn inventories_are_kept_by_scope_in_call_order() {
    let result = built(
        BuildResultBuilder::new()
            .build_sbom(Sbom::from_bytes(SbomFormat::CycloneDxJson, vec![1]))
            .launch_sbom(Sbom::from_bytes(SbomFormat::SpdxJson, vec![2]))
            .build_sbom(Sbom::from_bytes(SbomFormat::SyftJson, vec![3])),
    );
    assert_eq!(result.build_sboms().len(), 2);
    assert_eq!(result.launch_sboms().len(), 1);
    assert_eq!(result.build_sboms()[0].format, SbomFormat::CycloneDxJson);
    assert_eq!(result.build_sboms()[0].data, vec![1]);
    assert_eq!(result.build_sboms()[1].format, SbomFormat::SyftJson);
    assert_eq!(result.build_sboms()[1].data, vec![3]);
    assert_eq!(result.launch_sboms()[0].format, SbomFormat::SpdxJson);
    assert_eq!(result.launch_sboms()[0].data, vec![2]);
}

#[test]
fn last_store_wins() {
    let result = built(
        BuildResultBuilder::new().store(store("run", "first")).store(store("run", "second")),
    );
    let kept = result.store().as_ref().unwrap();
    assert_eq!(kept.metadata.get("run"), Some(&toml::Value::String(String::from("second"))));
    assert_eq!(kept.metadata.len(), 1);
}

#[test]
fn launch_with_one_default_is_accepted() {
    let result = built(BuildResultBuilder::new().launch(launch(vec![
        process("web", true),
        process("worker", false),
        process("console", false),
    ])));
    let kept = result.launch().as_ref().unwrap();
    assert_eq!(kept.processes.len(), 3);
    assert_eq!(kept.processes[0].process_type, "web");
    assert!(kept.processes[0].default);
    assert_eq!(kept.processes[2].process_type, "console");
}

#[test]
fn launch_without_processes_is_accepted() {
    let result = built(BuildResultBuilder::new().launch(launch(Vec::new())));
    assert!(result.launch().as_ref().unwrap().processes.is_empty());
}

#[test]
fn later_launch_replaces_the_earlier_one() {
    let result = built(
        BuildResultBuilder::new()
            .launch(launch(vec![process("web", true), process("web", true)]))
            .launch(launch(vec![process("worker", false)])),
    );
    let kept = result.launch().as_ref().unwrap();
    assert_eq!(kept.processes.len(), 1);
    assert_eq!(kept.processes[0].process_type, "worker");
}

#[test]
fn two_default_processes_are_refused() {
    let refused = fault(
        BuildResultBuilder::new()
            .launch(launch(vec![process("web", true), process("worker", true)])),
    );
    assert_eq!(refused, LaunchSpecFault::MultipleDefaults);
}

#[test]
fn two_processes_of_one_type_are_refused() {
    let refused = fault(BuildResultBuilder::new().launch(launch(vec![
        process("web", true),
        process("worker", false),
        process("web", false),
    ])));
    assert_eq!(refused, LaunchSpecFault::DuplicateProcessType);
}

#[test]
fn several_defaults_are_reported_before_a_duplicate_type() {
    let refused = fault(
        BuildResultBuilder::new().launch(launch(vec![process("web", true), process("web", true)])),
    );
    assert_eq!(refused, LaunchSpecFault::MultipleDefaults);
}

#[test]
fn launch_fault_names_what_is_wrong() {
    assert_eq!(launch(vec![process("web", true)]).fault(), None);
    assert_eq!(
        launch(vec![process("a", true), process("b", false), process("c", true)]).fault(),
        Some(LaunchSpecFault::MultipleDefaults)
    );
    assert_eq!(
        launch(vec![process("a", false), process("b", false), process("b", false)]).fault(),
        Some(LaunchSpecFault::DuplicateProcessType)
    );
}

#[test]
fn default_and_type_checks_look_at_every_pair() {
    assert!(!has_multiple_defaults(&Vec::new()));
    assert!(!has_multiple_defaults(&vec![process("a", true)]));
    assert!(!has_multiple_defaults(&vec![process("a", false), process("b", true)]));
    assert!(has_multiple_defaults(&vec![
        process("a", true),
        process("b", false),
        process("c", false),
        process("d", true),
    ]));
    assert!(!has_duplicate_type(&Vec::new()));
    assert!(!has_duplicate_type(&vec![process("a", true), process("b", true)]));
    assert!(has_duplicate_type(&vec![
        process("a", false),
        process("b", false),
        process("c", false),
        process("a", false),
    ]));
    assert!(!has_duplicate_type(&vec![process("web", false), process("Web", false)]));
}
