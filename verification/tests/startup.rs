use branchlet::startup::{required_capabilities, Capability};

#[test]
fn capabilities_are_file_system_then_opener() {
    assert_eq!(required_capabilities(), vec![Capability::FileSystem, Capability::Opener]);
}

#[test]
fn capabilities_are_the_same_on_every_call() {
    assert_eq!(required_capabilities(), required_capabilities());
    assert_eq!(required_capabilities().len(), 2);
}
