use sb_harness::error::SbHarnessError;

#[test]
fn each_variant_has_its_own_heading() {
    let cases = [
        (
            SbHarnessError::EngineInitialization(String::from("no engine")),
            "Failed to initialize engine: no engine",
        ),
        (
            SbHarnessError::BinaryLoading(String::from("bad magic")),
            "Failed to create component: bad magic",
        ),
        (
            SbHarnessError::LinkerSetup(String::from("defined twice")),
            "Failed to set up linker: defined twice",
        ),
        (
            SbHarnessError::ProgramInstantiation(String::from("missing import")),
            "Failed to instantiate program: missing import",
        ),
        (
            SbHarnessError::ProcessRefueling(String::from("no fuel")),
            "Failed to refuel process: no fuel",
        ),
        (
            SbHarnessError::ProcessRun(String::from("trap")),
            "Failed to run process: trap",
        ),
    ];
    for (error, text) in cases {
        assert_eq!(error.to_string(), text);
    }
}

#[test]
fn an_empty_description_leaves_the_heading() {
    let error = SbHarnessError::ProcessRun(String::new());
    assert_eq!(error.to_string(), "Failed to run process: ");
}
