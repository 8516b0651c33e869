use rustecal_messaging::configuration::{reported_path, ConfigError, LoadStep};

fn invalid(path: &str) -> LoadStep {
    LoadStep::Failed(ConfigError::InvalidPath(path.to_string()))
}

fn walk(path: Option<&str>, outcomes: &[bool]) -> LoadStep {
    let mut step = LoadStep::start(path);
    for outcome in outcomes {
        step = step.advance(*outcome);
    }
    step
}

#[test]
fn null_pointer_message() {
    assert_eq!(
        ConfigError::NullPointer.message(),
        "Received null pointer from eCAL_Configuration_New"
    );
}

#[test]
fn invalid_path_message_quotes_the_path() {
    let error = ConfigError::InvalidPath("/etc/ecal/missing.yaml".to_string());
    assert_eq!(error.message(), "Invalid file path: /etc/ecal/missing.yaml");
    assert_eq!(ConfigError::InvalidPath(String::new()).message(), "Invalid file path: ");
}

#[test]
fn default_load_starts_with_the_allocation() {
    assert_eq!(LoadStep::start(None), LoadStep::Allocate { from_file: false });
}

#[test]
fn file_load_starts_with_the_probe() {
    assert_eq!(LoadStep::start(Some("ecal.yaml")), LoadStep::ProbePath("ecal.yaml".to_string()));
}

#[test]
fn missing_file_is_an_invalid_path() {
    let step = LoadStep::start(Some("/no/such/file.yaml")).advance(false);
    assert_eq!(step, invalid("/no/such/file.yaml"));
}

#[test]
fn missing_file_never_reaches_the_allocation() {
    let outcomes = [false, true, true, true, true];
    for n in 0..=outcomes.len() {
        let step = walk(Some("/no/such/file.yaml"), &outcomes[..n]);
        assert!(!matches!(step, LoadStep::Allocate { .. }));
        if n > 0 {
            assert_eq!(step, invalid("/no/such/file.yaml"));
        }
    }
}

#[test]
fn found_file_is_encoded_next() {
    let step = LoadStep::start(Some("ecal.yaml")).advance(true);
    assert_eq!(step, LoadStep::EncodePath("ecal.yaml".to_string()));
}

#[test]
fn path_that_cannot_be_encoded_is_invalid() {
    let step = walk(Some("bad\0path"), &[true, false]);
    assert_eq!(step, invalid("bad\0path"));
}

#[test]
fn encoded_path_leads_to_the_allocation() {
    assert_eq!(walk(Some("ecal.yaml"), &[true, true]), LoadStep::Allocate { from_file: true });
}

#[test]
fn missing_object_is_a_null_pointer() {
    let failed = LoadStep::Failed(ConfigError::NullPointer);
    assert_eq!(walk(None, &[false]), failed);
    assert_eq!(walk(Some("ecal.yaml"), &[true, true, false]), failed);
}

#[test]
fn allocated_object_is_initialised_from_its_source() {
    assert_eq!(walk(None, &[true]), LoadStep::InitFromConfig);
    assert_eq!(walk(Some("ecal.yaml"), &[true, true, true]), LoadStep::InitFromFile);
}

#[test]
fn initialised_object_is_ready() {
    assert_eq!(walk(None, &[true, true]), LoadStep::Ready);
    assert_eq!(walk(Some("ecal.yaml"), &[true, true, true, true]), LoadStep::Ready);
}

#[test]
fn initialisers_report_nothing() {
    assert_eq!(LoadStep::InitFromConfig.advance(false), LoadStep::Ready);
    assert_eq!(LoadStep::InitFromFile.advance(false), LoadStep::Ready);
}

#[test]
fn final_steps_stay() {
    assert_eq!(LoadStep::Ready.advance(true), LoadStep::Ready);
    assert_eq!(LoadStep::Ready.advance(false), LoadStep::Ready);
    assert_eq!(invalid("p").advance(true), invalid("p"));
    assert_eq!(invalid("p").advance(false), invalid("p"));
    let failed = LoadStep::Failed(ConfigError::NullPointer);
    assert_eq!(LoadStep::Failed(ConfigError::NullPointer).advance(true), failed);
}

#[test]
fn ready_takes_every_success() {
    for code in 0..16u8 {
        let outcomes = [code & 1 != 0, code & 2 != 0, code & 4 != 0, code & 8 != 0];
        let ready = walk(Some("ecal.yaml"), &outcomes) == LoadStep::Ready;
        assert_eq!(ready, outcomes[0] && outcomes[1] && outcomes[2]);
    }
    for code in 0..4u8 {
        let outcomes = [code & 1 != 0, code & 2 != 0];
        let ready = walk(None, &outcomes) == LoadStep::Ready;
        assert_eq!(ready, outcomes[0]);
    }
}

#[test]
fn no_path_is_reported_without_a_file() {
    assert_eq!(reported_path(None), None);
}

#[test]
fn reported_path_is_the_text_of_the_bytes() {
    assert_eq!(reported_path(Some(b"/etc/ecal/ecal.yaml")), Some("/etc/ecal/ecal.yaml".to_string()));
    assert_eq!(
        reported_path(Some("/home/j\u{fc}rgen/\u{8a2d}\u{5b9a}.yaml".as_bytes())),
        Some("/home/j\u{fc}rgen/\u{8a2d}\u{5b9a}.yaml".to_string())
    );
    assert_eq!(reported_path(Some(b"")), Some(String::new()));
}

#[test]
fn reported_path_matches_the_given_path() {
    for path in ["ecal.yaml", "./conf/\u{e9}cal.yaml", "C:\\eCAL\\ecal.yaml", " "] {
        assert_eq!(reported_path(Some(path.as_bytes())), Some(path.to_string()));
    }
}

#[test]
fn bytes_that_are_not_utf8_are_replaced() {
    assert_eq!(reported_path(Some(b"/tmp/\xff.yaml")), Some("/tmp/\u{fffd}.yaml".to_string()));
    assert_eq!(reported_path(Some(&[0xc3])), Some("\u{fffd}".to_string()));
}
