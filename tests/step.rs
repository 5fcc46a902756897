use ocptv::ids::{make_series_id, make_step_id};
use ocptv::run::{StartedTestRun, TestRun};
use ocptv::spec;
use ocptv::spec::{
    DutInfo, Error, HardwareInfo, LogSeverity, Measurement, MeasurementSeriesStart, Root,
    RootImpl, SoftwareInfo, Subcomponent, TestResult, TestStatus, TestStepArtifactImpl, Timestamp,
    Validator, ValidatorType,
};
use ocptv::step::StartedTestStep;

fn ts() -> Timestamp {
    Timestamp { unix_millis: 0, offset_seconds: 0 }
}

fn started() -> (StartedTestRun, StartedTestStep) {
    let dut = DutInfo::builder("dut_id").build();
    let mut run = TestRun::builder("run_name", &dut, "1.0").build().start(ts());
    let step = run.step("first step").start(&mut run, ts());
    (run, step)
}

fn finish(mut run: StartedTestRun, step: StartedTestStep) -> Vec<Root> {
    step.end(&mut run, TestStatus::Complete, ts());
    run.end(TestStatus::Complete, TestResult::Pass, ts());
    run.take_pending()
}

fn step_artifact(root: &Root) -> (&str, &TestStepArtifactImpl) {
    match &root.artifact {
        RootImpl::TestStepArtifact(a) => (a.id.as_str(), &a.artifact),
        other => panic!("not a step artifact: {:?}", other),
    }
}

fn map_of(pairs: &[(&str, &str)]) -> serde_json::Map<String, serde_json::Value> {
    let mut m = serde_json::Map::new();
    for (k, v) in pairs {
        m.insert(k.to_string(), (*v).into());
    }
    m
}

fn assert_frame(out: &[Root]) {
    let n = out.len();
    for (i, r) in out.iter().enumerate() {
        assert_eq!(r.seqno, i as u64);
    }
    assert_eq!(
        step_artifact(&out[2]),
        (
            "step_0",
            &TestStepArtifactImpl::TestStepStart(spec::TestStepStart { name: "first step".to_string() })
        )
    );
    assert_eq!(
        step_artifact(&out[n - 2]),
        ("step_0", &TestStepArtifactImpl::TestStepEnd(spec::TestStepEnd { status: TestStatus::Complete }))
    );
    assert!(matches!(&out[n - 1].artifact, RootImpl::TestRunArtifact(_)));
}

fn empty_series_start(series_id: &str) -> TestStepArtifactImpl {
    TestStepArtifactImpl::MeasurementSeriesStart(MeasurementSeriesStart {
        name: "name".to_string(),
        unit: None,
        series_id: series_id.to_string(),
        validators: None,
        hardware_info: None,
        subcomponent: None,
        metadata: None,
    })
}

fn series_end(series_id: &str, total_count: u64) -> TestStepArtifactImpl {
    TestStepArtifactImpl::MeasurementSeriesEnd(spec::MeasurementSeriesEnd {
        series_id: series_id.to_string(),
        total_count,
    })
}

fn element(index: u64, value: i64, metadata: Option<serde_json::Map<String, serde_json::Value>>) -> TestStepArtifactImpl {
    TestStepArtifactImpl::MeasurementSeriesElement(spec::MeasurementSeriesElement {
        index,
        value: value.into(),
        timestamp: ts(),
        series_id: "series_0".to_string(),
        metadata,
    })
}

#[test]
fn test_testrun_with_step() {
    let (run, step) = started();
    let out = finish(run, step);
    assert_eq!(out.len(), 5);
    assert_frame(&out);
}

#[test]
fn test_testrun_step_log() {
    let (mut run, step) = started();
    step.log(&mut run, LogSeverity::Info, "This is a log message with INFO severity", ts());
    let out = finish(run, step);
    assert_eq!(out.len(), 6);
    assert_frame(&out);
    assert_eq!(
        step_artifact(&out[3]),
        (
            "step_0",
            &TestStepArtifactImpl::Log(spec::Log {
                severity: LogSeverity::Info,
                message: "This is a log message with INFO severity".to_string(),
                source_location: None,
            })
        )
    );
}

#[test]
fn test_testrun_step_log_with_details() {
    let (mut run, step) = started();
    let log = spec::Log::builder("This is a log message with INFO severity")
        .severity(LogSeverity::Info)
        .source("file", 1)
        .build();
    step.log_with_details(&mut run, &log, ts());
    let out = finish(run, step);
    assert_frame(&out);
    assert_eq!(step_artifact(&out[3]), ("step_0", &TestStepArtifactImpl::Log(log)));
}

#[test]
fn test_testrun_step_error() {
    let (mut run, step) = started();
    step.error(&mut run, "symptom", ts());
    let out = finish(run, step);
    assert_frame(&out);
    assert_eq!(
        step_artifact(&out[3]),
        (
            "step_0",
            &TestStepArtifactImpl::Error(Error {
                symptom: "symptom".to_string(),
                message: None,
                software_infos: None,
                source_location: None,
            })
        )
    );
}

#[test]
fn test_testrun_step_error_with_message() {
    let (mut run, step) = started();
    step.error_with_msg(&mut run, "symptom", "Error message", ts());
    let out = finish(run, step);
    assert_frame(&out);
    assert_eq!(
        step_artifact(&out[3]),
        (
            "step_0",
            &TestStepArtifactImpl::Error(Error {
                symptom: "symptom".to_string(),
                message: Some("Error message".to_string()),
                software_infos: None,
                source_location: None,
            })
        )
    );
}

#[test]
fn test_testrun_step_error_with_details() {
    let (mut run, step) = started();
    let error = Error::builder("symptom")
        .message("Error message")
        .source("file", 1)
        .add_software_info(&SoftwareInfo::builder("id", "name").build())
        .build();
    step.error_with_details(&mut run, &error, ts());
    let out = finish(run, step);
    assert_frame(&out);
    assert_eq!(step_artifact(&out[3]), ("step_0", &TestStepArtifactImpl::Error(error)));
}

#[test]
fn test_step_with_measurement() {
    let (mut run, step) = started();
    step.add_measurement(&mut run, "name", 50.into(), ts());
    let out = finish(run, step);
    assert_eq!(out.len(), 6);
    assert_frame(&out);
    assert_eq!(
        step_artifact(&out[3]),
        ("step_0", &TestStepArtifactImpl::Measurement(Measurement::new("name", 50.into())))
    );
}

#[test]
fn test_step_with_measurement_builder() {
    let (mut run, step) = started();
    let measurement = Measurement::builder("name", 50.into())
        .hardware_info(&HardwareInfo::builder("id", "name").build())
        .add_validator(&Validator::builder(ValidatorType::Equal, 30.into()).build())
        .add_metadata("key", "value".into())
        .subcomponent(&Subcomponent::builder("name").build())
        .build();
    step.add_measurement_with_details(&mut run, &measurement, ts());
    let out = finish(run, step);
    assert_frame(&out);
    assert_eq!(
        step_artifact(&out[3]),
        (
            "step_0",
            &TestStepArtifactImpl::Measurement(Measurement {
                name: "name".to_string(),
                value: 50.into(),
                unit: None,
                validators: Some(vec![Validator {
                    name: None,
                    validator_type: ValidatorType::Equal,
                    value: 30.into(),
                    metadata: None,
                }]),
                hardware_info_id: Some("id".to_string()),
                subcomponent: Some(Subcomponent {
                    subcomponent_type: None,
                    name: "name".to_string(),
                    location: None,
                    version: None,
                    revision: None,
                }),
                metadata: Some(map_of(&[("key", "value")])),
            })
        )
    );
}

#[test]
fn test_step_with_measurement_series() {
    let (mut run, mut step) = started();
    let series = step.measurement_series("name").start(&mut run, ts());
    series.end(&mut run, ts());
    let out = finish(run, step);
    assert_eq!(out.len(), 7);
    assert_frame(&out);
    assert_eq!(step_artifact(&out[3]), ("step_0", &empty_series_start("series_0")));
    assert_eq!(step_artifact(&out[4]), ("step_0", &series_end("series_0", 0)));
}

#[test]
fn test_step_with_multiple_measurement_series() {
    let (mut run, mut step) = started();
    let series = step.measurement_series("name").start(&mut run, ts());
    series.end(&mut run, ts());
    let series_2 = step.measurement_series("name").start(&mut run, ts());
    series_2.end(&mut run, ts());
    let out = finish(run, step);
    assert_eq!(out.len(), 9);
    assert_frame(&out);
    assert_eq!(step_artifact(&out[3]), ("step_0", &empty_series_start("series_0")));
    assert_eq!(step_artifact(&out[4]), ("step_0", &series_end("series_0", 0)));
    assert_eq!(step_artifact(&out[5]), ("step_0", &empty_series_start("series_1")));
    assert_eq!(step_artifact(&out[6]), ("step_0", &series_end("series_1", 0)));
}

#[test]
fn test_step_with_measurement_series_with_details() {
    let (mut run, step) = started();
    let series = step
        .measurement_series_with_details(MeasurementSeriesStart::new("name", "series_id"))
        .start(&mut run, ts());
    series.end(&mut run, ts());
    let out = finish(run, step);
    assert_eq!(out.len(), 7);
    assert_frame(&out);
    assert_eq!(step_artifact(&out[3]), ("step_0", &empty_series_start("series_id")));
    assert_eq!(step_artifact(&out[4]), ("step_0", &series_end("series_id", 0)));
}

#[test]
fn test_step_with_measurement_series_with_details_and_start_builder() {
    let (mut run, step) = started();
    let series = step
        .measurement_series_with_details(
            MeasurementSeriesStart::builder("name", "series_id")
                .add_metadata("key", "value".into())
                .add_validator(&Validator::builder(ValidatorType::Equal, 30.into()).build())
                .hardware_info(&HardwareInfo::builder("id", "name").build())
                .subcomponent(&Subcomponent::builder("name").build())
                .build(),
        )
        .start(&mut run, ts());
    series.end(&mut run, ts());
    let out = finish(run, step);
    assert_frame(&out);
    match step_artifact(&out[3]) {
        ("step_0", TestStepArtifactImpl::MeasurementSeriesStart(s)) => {
            assert_eq!(s.series_id, "series_id");
            assert_eq!(s.name, "name");
            assert_eq!(s.unit, None);
            assert_eq!(s.metadata, Some(map_of(&[("key", "value")])));
            let hw = s.hardware_info.as_ref().unwrap();
            assert_eq!(hw.id, "id");
            assert_eq!(hw.name, "name");
            assert_eq!(hw.serial_no, None);
            assert_eq!(s.subcomponent.as_ref().unwrap().name, "name");
            let validators = s.validators.as_ref().unwrap();
            assert_eq!(validators.len(), 1);
            assert_eq!(validators[0].validator_type, ValidatorType::Equal);
            assert_eq!(validators[0].value, serde_json::Value::from(30));
        }
        other => panic!("not a series start: {:?}", other),
    }
    assert_eq!(step_artifact(&out[4]), ("step_0", &series_end("series_id", 0)));
}

#[test]
fn test_step_with_measurement_series_element() {
    let (mut run, mut step) = started();
    let mut series = step.measurement_series("name").start(&mut run, ts());
    series.add_measurement(&mut run, 60.into(), ts());
    series.end(&mut run, ts());
    let out = finish(run, step);
    assert_eq!(out.len(), 8);
    assert_frame(&out);
    assert_eq!(step_artifact(&out[4]), ("step_0", &element(0, 60, None)));
    assert_eq!(step_artifact(&out[5]), ("step_0", &series_end("series_0", 1)));
}

#[test]
fn test_step_with_measurement_series_element_index_no() {
    let (mut run, mut step) = started();
    let mut series = step.measurement_series("name").start(&mut run, ts());
    series.add_measurement(&mut run, 60.into(), ts());
    series.add_measurement(&mut run, 70.into(), ts());
    series.add_measurement(&mut run, 80.into(), ts());
    series.end(&mut run, ts());
    let out = finish(run, step);
    assert_eq!(out.len(), 10);
    assert_frame(&out);
    assert_eq!(step_artifact(&out[4]), ("step_0", &element(0, 60, None)));
    assert_eq!(step_artifact(&out[5]), ("step_0", &element(1, 70, None)));
    assert_eq!(step_artifact(&out[6]), ("step_0", &element(2, 80, None)));
    assert_eq!(step_artifact(&out[7]), ("step_0", &series_end("series_0", 3)));
}

#[test]
fn test_step_with_measurement_series_element_with_metadata() {
    let (mut run, mut step) = started();
    let mut series = step.measurement_series("name").start(&mut run, ts());
    series.add_measurement_with_metadata(&mut run, 60.into(), vec![("key", "value".into())], ts());
    series.end(&mut run, ts());
    let out = finish(run, step);
    assert_frame(&out);
    assert_eq!(
        step_artifact(&out[4]),
        ("step_0", &element(0, 60, Some(map_of(&[("key", "value")]))))
    );
    assert_eq!(step_artifact(&out[5]), ("step_0", &series_end("series_0", 1)));
}

#[test]
fn test_step_with_measurement_series_element_with_metadata_index_no() {
    let (mut run, mut step) = started();
    let mut series = step.measurement_series("name").start(&mut run, ts());
    series.add_measurement_with_metadata(&mut run, 60.into(), vec![("key", "value".into())], ts());
    series.add_measurement_with_metadata(&mut run, 70.into(), vec![("key2", "value2".into())], ts());
    series.add_measurement_with_metadata(&mut run, 80.into(), vec![("key3", "value3".into())], ts());
    series.end(&mut run, ts());
    let out = finish(run, step);
    assert_eq!(out.len(), 10);
    assert_frame(&out);
    assert_eq!(step_artifact(&out[4]), ("step_0", &element(0, 60, Some(map_of(&[("key", "value")])))));
    assert_eq!(step_artifact(&out[5]), ("step_0", &element(1, 70, Some(map_of(&[("key2", "value2")])))));
    assert_eq!(step_artifact(&out[6]), ("step_0", &element(2, 80, Some(map_of(&[("key3", "value3")])))));
    assert_eq!(step_artifact(&out[7]), ("step_0", &series_end("series_0", 3)));
}

#[test]
fn later_metadata_pair_replaces_earlier_of_same_key() {
    let (mut run, mut step) = started();
    let mut series = step.measurement_series("name").start(&mut run, ts());
    series.add_measurement_with_metadata(
        &mut run,
        1.into(),
        vec![("k", "first".into()), ("other", "x".into()), ("k", "second".into())],
        ts(),
    );
    let out = finish(run, step);
    assert_eq!(
        step_artifact(&out[4]),
        ("step_0", &element(0, 1, Some(map_of(&[("k", "second"), ("other", "x")]))))
    );
}

#[test]
fn step_ids_follow_creation_order_not_start_order() {
    let mut run = TestRun::new("r", "d", "1.0").start(ts());
    let first = run.step("a");
    let second = run.step("b");
    let third = run.step("c");
    let s2 = second.start(&mut run, ts());
    let s0 = first.start(&mut run, ts());
    let s1 = third.start(&mut run, ts());
    s0.end(&mut run, TestStatus::Complete, ts());
    s1.end(&mut run, TestStatus::Complete, ts());
    s2.end(&mut run, TestStatus::Complete, ts());
    let out = run.take_pending();
    let ids: Vec<&str> = out[2..].iter().map(|r| step_artifact(r).0).collect();
    assert_eq!(ids, vec!["step_1", "step_0", "step_2", "step_0", "step_2", "step_1"]);
}

#[test]
fn step_ids_past_nine_use_all_digits() {
    let mut run = TestRun::new("r", "d", "1.0").start(ts());
    let mut last = None;
    for _ in 0..13 {
        last = Some(run.step("s"));
    }
    let s = last.unwrap().start(&mut run, ts());
    s.end(&mut run, TestStatus::Complete, ts());
    let out = run.take_pending();
    assert_eq!(step_artifact(&out[2]).0, "step_12");
    assert_eq!(make_step_id(305), "step_305");
    assert_eq!(make_series_id(0), "series_0");
    assert_eq!(make_series_id(18446744073709551615), "series_18446744073709551615");
}

#[test]
fn series_indices_restart_for_each_series() {
    let (mut run, mut step) = started();
    let mut a = step.measurement_series("a").start(&mut run, ts());
    a.add_measurement(&mut run, 1.into(), ts());
    a.add_measurement(&mut run, 2.into(), ts());
    a.end(&mut run, ts());
    let mut b = step.measurement_series("b").start(&mut run, ts());
    b.add_measurement(&mut run, 3.into(), ts());
    b.end(&mut run, ts());
    let out = finish(run, step);
    let mut seen = Vec::new();
    for r in &out {
        if let RootImpl::TestStepArtifact(a) = &r.artifact {
            match &a.artifact {
                TestStepArtifactImpl::MeasurementSeriesElement(e) => seen.push((e.series_id.clone(), e.index)),
                TestStepArtifactImpl::MeasurementSeriesEnd(e) => seen.push((e.series_id.clone(), 100 + e.total_count)),
                _ => {}
            }
        }
    }
    assert_eq!(
        seen,
        vec![
            ("series_0".to_string(), 0),
            ("series_0".to_string(), 1),
            ("series_0".to_string(), 102),
            ("series_1".to_string(), 0),
            ("series_1".to_string(), 101),
        ]
    );
}

#[test]
fn step_log_scenario_numbers_every_line() {
    let mut run = TestRun::new("r", "d", "1.0").start(ts());
    let step = run.step("s").start(&mut run, ts());
    step.log(&mut run, LogSeverity::Info, "msg", ts());
    step.end(&mut run, TestStatus::Complete, ts());
    run.end(TestStatus::Complete, TestResult::Pass, ts());
    let out = run.take_pending();
    assert_eq!(out.len(), 6);
    let seq: Vec<u64> = out.iter().map(|r| r.seqno).collect();
    assert_eq!(seq, vec![0, 1, 2, 3, 4, 5]);
    assert_eq!(step_artifact(&out[2]).0, "step_0");
    assert_eq!(step_artifact(&out[3]).0, "step_0");
    assert_eq!(step_artifact(&out[4]).0, "step_0");
}

#[test]
fn diagnosis_file_and_extension_records() {
    let (mut run, step) = started();
    step.diagnosis(
        &mut run,
        spec::Diagnosis {
            verdict: "ok".to_string(),
            diagnosis_type: spec::DiagnosisType::Pass,
            message: None,
            hardware_info: None,
            subcomponent: None,
            source_location: None,
        },
        ts(),
    );
    step.file(
        &mut run,
        spec::File {
            name: "log.txt".to_string(),
            uri: "file:///tmp/log.txt".to_string(),
            is_snapshot: false,
            description: None,
            content_type: None,
            metadata: None,
        },
        ts(),
    );
    step.extension(
        &mut run,
        spec::Extension { name: "ext".to_string(), content: spec::ExtensionContentType::Int(7) },
        ts(),
    );
    let out = finish(run, step);
    assert_eq!(out.len(), 8);
    assert_frame(&out);
    assert!(matches!(step_artifact(&out[3]).1, TestStepArtifactImpl::Diagnosis(_)));
    assert!(matches!(step_artifact(&out[4]).1, TestStepArtifactImpl::File(_)));
    assert!(matches!(step_artifact(&out[5]).1, TestStepArtifactImpl::Extension(_)));
}
