use ocptv::run::{SchemaVersion, StartedTestRun, TestRun, TestRunEnd, TestRunEndBuilder};
use ocptv::spec;
use ocptv::spec::{
    DutInfo, Error, LogSeverity, Root, RootImpl, SoftwareInfo, TestResult, TestRunArtifactImpl,
    TestStatus, Timestamp,
};

fn ts() -> Timestamp {
    Timestamp { unix_millis: 0, offset_seconds: 0 }
}

fn run_artifact(root: &Root) -> &TestRunArtifactImpl {
    match &root.artifact {
        RootImpl::TestRunArtifact(a) => &a.artifact,
        other => panic!("not a run artifact: {:?}", other),
    }
}

fn seqnos(roots: &[Root]) -> Vec<u64> {
    roots.iter().map(|r| r.seqno).collect()
}

fn started_default() -> StartedTestRun {
    let dut = DutInfo::builder("dut_id").build();
    TestRun::builder("run_name", &dut, "1.0").build().start(ts())
}

fn assert_schema_version(root: &Root) {
    assert_eq!(root.seqno, 0);
    assert_eq!(
        root.artifact,
        RootImpl::SchemaVersion(spec::SchemaVersion { major: 2, minor: 0 })
    );
}

fn assert_default_start(root: &Root) {
    assert_eq!(root.seqno, 1);
    match run_artifact(root) {
        TestRunArtifactImpl::TestRunStart(s) => {
            assert_eq!(s.name, "run_name");
            assert_eq!(s.version, "1.0");
            assert_eq!(s.command_line, "");
            assert!(s.parameters.is_empty());
            assert_eq!(s.dut_info.id, "dut_id");
            assert_eq!(s.dut_info.name, None);
            assert_eq!(s.dut_info.platform_infos, None);
            assert_eq!(s.dut_info.software_infos, None);
            assert_eq!(s.dut_info.hardware_infos, None);
            assert_eq!(s.dut_info.metadata, None);
            assert_eq!(s.metadata, None);
        }
        other => panic!("not a run start: {:?}", other),
    }
}

fn assert_run_pass(root: &Root, seqno: u64) {
    assert_eq!(root.seqno, seqno);
    assert_eq!(
        run_artifact(root),
        &TestRunArtifactImpl::TestRunEnd(spec::TestRunEnd {
            status: TestStatus::Complete,
            result: TestResult::Pass,
        })
    );
}

#[test]
fn test_schema_creation_from_builder() {
    let version = SchemaVersion::new();
    assert_eq!(version.major, spec::SPEC_VERSION.0);
    assert_eq!(version.minor, spec::SPEC_VERSION.1);
}

#[test]
fn test_testrun_start_and_end() {
    let mut run = started_default();
    run.end(TestStatus::Complete, TestResult::Pass, ts());
    let out = run.take_pending();
    assert_eq!(out.len(), 3);
    assert_schema_version(&out[0]);
    assert_default_start(&out[1]);
    assert_run_pass(&out[2], 2);
}

#[test]
fn test_testrun_with_log() {
    let mut run = started_default();
    run.log(LogSeverity::Info, "This is a log message with INFO severity", ts());
    run.end(TestStatus::Complete, TestResult::Pass, ts());
    let out = run.take_pending();
    assert_eq!(out.len(), 4);
    assert_eq!(out[2].seqno, 2);
    assert_eq!(
        run_artifact(&out[2]),
        &TestRunArtifactImpl::Log(spec::Log {
            severity: LogSeverity::Info,
            message: "This is a log message with INFO severity".to_string(),
            source_location: None,
        })
    );
    assert_run_pass(&out[3], 3);
}

#[test]
fn test_testrun_with_log_with_details() {
    let mut run = started_default();
    let log = spec::Log::builder("This is a log message with INFO severity")
        .severity(LogSeverity::Info)
        .source("file", 1)
        .build();
    run.log_with_details(&log, ts());
    run.end(TestStatus::Complete, TestResult::Pass, ts());
    let out = run.take_pending();
    assert_eq!(out.len(), 4);
    assert_eq!(
        run_artifact(&out[2]),
        &TestRunArtifactImpl::Log(spec::Log {
            severity: LogSeverity::Info,
            message: "This is a log message with INFO severity".to_string(),
            source_location: Some(spec::SourceLocation { file: "file".to_string(), line: 1 }),
        })
    );
    assert_run_pass(&out[3], 3);
}

#[test]
fn test_testrun_with_error() {
    let mut run = started_default();
    run.error("symptom", ts());
    run.end(TestStatus::Complete, TestResult::Pass, ts());
    let out = run.take_pending();
    assert_eq!(
        run_artifact(&out[2]),
        &TestRunArtifactImpl::Error(Error {
            symptom: "symptom".to_string(),
            message: None,
            software_infos: None,
            source_location: None,
        })
    );
    assert_run_pass(&out[3], 3);
}

#[test]
fn test_testrun_with_error_with_message() {
    let mut run = started_default();
    run.error_with_msg("symptom", "Error message", ts());
    run.end(TestStatus::Complete, TestResult::Pass, ts());
    let out = run.take_pending();
    assert_eq!(
        run_artifact(&out[2]),
        &TestRunArtifactImpl::Error(Error {
            symptom: "symptom".to_string(),
            message: Some("Error message".to_string()),
            software_infos: None,
            source_location: None,
        })
    );
    assert_run_pass(&out[3], 3);
}

#[test]
fn test_testrun_with_error_with_details() {
    let mut run = started_default();
    let error = Error::builder("symptom")
        .message("Error message")
        .source("file", 1)
        .add_software_info(&SoftwareInfo::builder("id", "name").build())
        .build();
    run.error_with_details(&error, ts());
    run.end(TestStatus::Complete, TestResult::Pass, ts());
    let out = run.take_pending();
    assert_eq!(
        run_artifact(&out[2]),
        &TestRunArtifactImpl::Error(Error {
            symptom: "symptom".to_string(),
            message: Some("Error message".to_string()),
            software_infos: Some(vec![SoftwareInfo {
                id: "id".to_string(),
                name: "name".to_string(),
                version: None,
                revision: None,
                software_type: None,
                computer_system: None,
            }]),
            source_location: Some(spec::SourceLocation { file: "file".to_string(), line: 1 }),
        })
    );
    assert_run_pass(&out[3], 3);
}

#[test]
fn test_testrun_instantiation_with_new() {
    let mut run = TestRun::new("run_name", "dut_id", "1.0").start(ts());
    run.end(TestStatus::Complete, TestResult::Pass, ts());
    let out = run.take_pending();
    assert_eq!(out.len(), 3);
    assert_schema_version(&out[0]);
    assert_default_start(&out[1]);
    assert_run_pass(&out[2], 2);
}

#[test]
fn test_testrun_metadata() {
    let dut = DutInfo::builder("dut_id").build();
    let mut run = TestRun::builder("run_name", &dut, "1.0")
        .add_metadata("key", "value".into())
        .build()
        .start(ts());
    run.end(TestStatus::Complete, TestResult::Pass, ts());
    let out = run.take_pending();
    assert_eq!(out.len(), 3);
    match run_artifact(&out[1]) {
        TestRunArtifactImpl::TestRunStart(s) => {
            let mut expected = serde_json::Map::new();
            expected.insert("key".to_string(), "value".into());
            assert_eq!(s.metadata, Some(expected));
            assert!(s.parameters.is_empty());
            assert_eq!(s.command_line, "");
        }
        other => panic!("not a run start: {:?}", other),
    }
    assert_run_pass(&out[2], 2);
}

#[test]
fn test_testrun_builder() {
    let dut = DutInfo::builder("dut_id").build();
    let mut run = TestRun::builder("run_name", &dut, "1.0")
        .add_metadata("key", "value".into())
        .add_metadata("key2", "value2".into())
        .add_parameter("key", "value".into())
        .command_line("cmd_line")
        .build()
        .start(ts());
    run.end(TestStatus::Complete, TestResult::Pass, ts());
    let out = run.take_pending();
    match run_artifact(&out[1]) {
        TestRunArtifactImpl::TestRunStart(s) => {
            let mut metadata = serde_json::Map::new();
            metadata.insert("key".to_string(), "value".into());
            metadata.insert("key2".to_string(), "value2".into());
            let mut parameters = serde_json::Map::new();
            parameters.insert("key".to_string(), "value".into());
            assert_eq!(s.metadata, Some(metadata));
            assert_eq!(s.parameters, parameters);
            assert_eq!(s.command_line, "cmd_line");
            assert_eq!(s.name, "run_name");
            assert_eq!(s.version, "1.0");
            assert_eq!(s.dut_info.id, "dut_id");
        }
        other => panic!("not a run start: {:?}", other),
    }
    assert_run_pass(&out[2], 2);
}

#[test]
fn run_end_builder_defaults_and_setters() {
    let end = TestRunEndBuilder::new().build();
    assert_eq!(
        end.to_artifact(),
        RootImpl::TestRunArtifact(spec::TestRunArtifact {
            artifact: TestRunArtifactImpl::TestRunEnd(spec::TestRunEnd {
                status: TestStatus::Complete,
                result: TestResult::Pass,
            }),
        })
    );
    let end = TestRunEnd::builder()
        .status(TestStatus::Error)
        .result(TestResult::NotApplicable)
        .build();
    assert_eq!(
        end.to_artifact(),
        RootImpl::TestRunArtifact(spec::TestRunArtifact {
            artifact: TestRunArtifactImpl::TestRunEnd(spec::TestRunEnd {
                status: TestStatus::Error,
                result: TestResult::NotApplicable,
            }),
        })
    );
}

#[test]
fn schema_version_record_and_default_agree() {
    assert_eq!(
        SchemaVersion::new().to_artifact(),
        RootImpl::SchemaVersion(spec::SchemaVersion::default())
    );
}

#[test]
fn three_lines_for_start_then_end() {
    let mut run = TestRun::new("r", "d", "1.0").start(ts());
    run.end(TestStatus::Complete, TestResult::Pass, ts());
    let out = run.take_pending();
    assert_eq!(out.len(), 3);
    assert_eq!(seqnos(&out), vec![0, 1, 2]);
    assert!(matches!(out[0].artifact, RootImpl::SchemaVersion(_)));
    match run_artifact(&out[1]) {
        TestRunArtifactImpl::TestRunStart(s) => {
            assert_eq!(s.name, "r");
            assert_eq!(s.dut_info.id, "d");
        }
        other => panic!("not a run start: {:?}", other),
    }
    assert_eq!(
        run_artifact(&out[2]),
        &TestRunArtifactImpl::TestRunEnd(spec::TestRunEnd {
            status: TestStatus::Complete,
            result: TestResult::Pass,
        })
    );
}

#[test]
fn numbers_have_no_gaps_across_many_emits() {
    let mut run = started_default();
    for i in 0..25 {
        if i % 3 == 0 {
            run.log(LogSeverity::Debug, "tick", ts());
        } else {
            run.error("symptom", ts());
        }
    }
    let mut first = run.take_pending();
    run.end(TestStatus::Complete, TestResult::Fail, ts());
    first.extend(run.take_pending());
    assert_eq!(seqnos(&first), (0..28).collect::<Vec<u64>>());
}

#[test]
fn run_end_is_numbered_after_children() {
    for k in [0u64, 1, 4, 9] {
        let mut run = started_default();
        for _ in 0..k {
            run.log(LogSeverity::Warning, "w", ts());
        }
        run.end(TestStatus::Skip, TestResult::NotApplicable, ts());
        let out = run.take_pending();
        assert_eq!(out.last().unwrap().seqno, k + 2);
    }
}

#[test]
fn take_pending_empties_the_queue() {
    let mut run = started_default();
    assert_eq!(run.take_pending().len(), 2);
    assert!(run.take_pending().is_empty());
    run.log(LogSeverity::Fatal, "boom", ts());
    let out = run.take_pending();
    assert_eq!(out.len(), 1);
    assert_eq!(out[0].seqno, 2);
    assert_eq!(run.room(), u64::MAX - 3);
}

#[test]
fn timestamps_are_kept() {
    let mut run = TestRun::new("r", "d", "1.0").start(Timestamp { unix_millis: 1_000, offset_seconds: 3600 });
    run.end(TestStatus::Complete, TestResult::Pass, Timestamp { unix_millis: 2_500, offset_seconds: 0 });
    let out = run.take_pending();
    assert_eq!(out[0].timestamp, Timestamp { unix_millis: 1_000, offset_seconds: 3600 });
    assert_eq!(out[1].timestamp, Timestamp { unix_millis: 1_000, offset_seconds: 3600 });
    assert_eq!(out[2].timestamp, Timestamp { unix_millis: 2_500, offset_seconds: 0 });
}
