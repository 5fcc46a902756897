//! Steps of a run. A step gets its id when it is made; once started it emits
//! step-level records and hands out measurement series.
use vstd::prelude::*;

use crate::ids::{make_series_id, series_id};
use crate::run::StartedTestRun;
use crate::series::MeasurementSeries;
use crate::spec;
use crate::spec::{LogSeverity, Root, RootImpl, TestStatus, TestStepArtifactImpl, Timestamp};

verus! {

/// The record that step `id` emits with `artifact`.
pub open spec fn step_record(id: String, artifact: TestStepArtifactImpl) -> RootImpl {
    RootImpl::TestStepArtifact(spec::TestStepArtifact { id, artifact })
}

/// The step-level part of `r`.
pub open spec fn step_payload(r: RootImpl) -> TestStepArtifactImpl {
    r->TestStepArtifact_0.artifact
}

/// `r` is a step-level record of the step with id `id`.
pub open spec fn is_step_record(r: RootImpl, id: String) -> bool {
    &&& r is TestStepArtifact
    &&& r->TestStepArtifact_0.id == id
}

/// A step of a run, not yet started.
pub struct TestStep {
    id: String,
    name: String,
}

impl TestStep {
    /// The id of the step.
    pub closed spec fn id(&self) -> String {
        self.id
    }

    /// The name of the step.
    pub closed spec fn name(&self) -> String {
        self.name
    }

    /// The step `name` with the id `id`.
    pub(crate) fn new(id: String, name: &str) -> (r: TestStep)
        ensures
            r.id() == id,
            r.name()@ == name@,
    {
        TestStep { id, name: name.to_string() }
    }

    /// Starts the step: emits its start record on `run`.
    pub fn start(self, run: &mut StartedTestRun, now: Timestamp) -> (r: StartedTestStep)
        requires
            old(run).wf(),
            old(run).emitted().len() < u64::MAX,
        ensures
            old(run).appended_one(final(run), now),
            final(run).emitted().last().artifact == step_record(
                self.id(),
                TestStepArtifactImpl::TestStepStart(spec::TestStepStart { name: self.name() }),
            ),
            r.id() == self.id(),
            r.series_created() == 0,
    {
        let start = spec::TestStepStart { name: self.name };
        let step = StartedTestStep { id: self.id, series_seqno: 0 };
        step.emit(run, TestStepArtifactImpl::TestStepStart(start), now);
        step
    }
}

/// A step that has been started.
pub struct StartedTestStep {
    id: String,
    series_seqno: u64,
}

impl StartedTestStep {
    /// The id of the step.
    pub closed spec fn id(&self) -> String {
        self.id
    }

    /// How many series this step has handed out.
    pub closed spec fn series_created(&self) -> nat {
        self.series_seqno as nat
    }

    /// How many more series the step can hand out.
    pub fn series_left(&self) -> (r: u64)
        ensures
            r == u64::MAX - self.series_created(),
    {
        u64::MAX - self.series_seqno
    }

    fn emit(&self, run: &mut StartedTestRun, artifact: TestStepArtifactImpl, now: Timestamp)
        requires
            old(run).wf(),
            old(run).emitted().len() < u64::MAX,
        ensures
            old(run).appended_one(final(run), now),
            final(run).emitted().last().artifact == step_record(self.id(), artifact),
    {
        let record = spec::TestStepArtifact { id: self.id.clone(), artifact };
        run.emit(RootImpl::TestStepArtifact(record), now);
    }

    /// Ends the step with `status`.
    pub fn end(&self, run: &mut StartedTestRun, status: TestStatus, now: Timestamp)
        requires
            old(run).wf(),
            old(run).emitted().len() < u64::MAX,
        ensures
            old(run).appended_one(final(run), now),
            final(run).emitted().last().artifact == step_record(
                self.id(),
                TestStepArtifactImpl::TestStepEnd(spec::TestStepEnd { status }),
            ),
    {
        self.emit(run, TestStepArtifactImpl::TestStepEnd(spec::TestStepEnd { status }), now);
    }

    /// Emits a log record of `severity` with `msg`.
    pub fn log(&self, run: &mut StartedTestRun, severity: LogSeverity, msg: &str, now: Timestamp)
        requires
            old(run).wf(),
            old(run).emitted().len() < u64::MAX,
        ensures
            old(run).appended_one(final(run), now),
            is_step_record(final(run).emitted().last().artifact, self.id()),
            step_payload(final(run).emitted().last().artifact) is Log,
            step_payload(final(run).emitted().last().artifact)->Log_0.severity == severity,
            step_payload(final(run).emitted().last().artifact)->Log_0.message@ == msg@,
            step_payload(final(run).emitted().last().artifact)->Log_0.source_location is None,
    {
        let log = spec::Log { severity, message: msg.to_string(), source_location: None };
        self.emit(run, TestStepArtifactImpl::Log(log), now);
    }

    /// Emits the log record `log`.
    pub fn log_with_details(&self, run: &mut StartedTestRun, log: &spec::Log, now: Timestamp)
        requires
            old(run).wf(),
            old(run).emitted().len() < u64::MAX,
        ensures
            old(run).appended_one(final(run), now),
            final(run).emitted().last().artifact == step_record(
                self.id(),
                TestStepArtifactImpl::Log(*log),
            ),
    {
        self.emit(run, TestStepArtifactImpl::Log(log.clone()), now);
    }

    /// Emits an error record with `symptom` alone.
    pub fn error(&self, run: &mut StartedTestRun, symptom: &str, now: Timestamp)
        requires
            old(run).wf(),
            old(run).emitted().len() < u64::MAX,
        ensures
            old(run).appended_one(final(run), now),
            is_step_record(final(run).emitted().last().artifact, self.id()),
            step_payload(final(run).emitted().last().artifact) is Error,
            step_payload(final(run).emitted().last().artifact)->Error_0.symptom@ == symptom@,
            step_payload(final(run).emitted().last().artifact)->Error_0.message is None,
            step_payload(final(run).emitted().last().artifact)->Error_0.software_infos is None,
            step_payload(final(run).emitted().last().artifact)->Error_0.source_location is None,
    {
        let error = spec::Error {
            symptom: symptom.to_string(),
            message: None,
            software_infos: None,
            source_location: None,
        };
        self.emit(run, TestStepArtifactImpl::Error(error), now);
    }

    /// Emits an error record with `symptom` and the message `msg`.
    pub fn error_with_msg(&self, run: &mut StartedTestRun, symptom: &str, msg: &str, now: Timestamp)
        requires
            old(run).wf(),
            old(run).emitted().len() < u64::MAX,
        ensures
            old(run).appended_one(final(run), now),
            is_step_record(final(run).emitted().last().artifact, self.id()),
            step_payload(final(run).emitted().last().artifact) is Error,
            step_payload(final(run).emitted().last().artifact)->Error_0.symptom@ == symptom@,
            step_payload(final(run).emitted().last().artifact)->Error_0.message is Some,
            step_payload(final(run).emitted().last().artifact)->Error_0.message->0@ == msg@,
            step_payload(final(run).emitted().last().artifact)->Error_0.software_infos is None,
            step_payload(final(run).emitted().last().artifact)->Error_0.source_location is None,
    {
        let error = spec::Error {
            symptom: symptom.to_string(),
            message: Some(msg.to_string()),
            software_infos: None,
            source_location: None,
        };
        self.emit(run, TestStepArtifactImpl::Error(error), now);
    }

    /// Emits the error record `error`.
    pub fn error_with_details(&self, run: &mut StartedTestRun, error: &spec::Error, now: Timestamp)
        requires
            old(run).wf(),
            old(run).emitted().len() < u64::MAX,
        ensures
            old(run).appended_one(final(run), now),
            is_step_record(final(run).emitted().last().artifact, self.id()),
            step_payload(final(run).emitted().last().artifact) is Error,
            step_payload(final(run).emitted().last().artifact)->Error_0.agrees_with(error),
    {
        self.emit(run, TestStepArtifactImpl::Error(error.clone()), now);
    }

    /// Emits a measurement of `value` named `name`, with nothing else set.
    pub fn add_measurement(
        &self,
        run: &mut StartedTestRun,
        name: &str,
        value: serde_json::Value,
        now: Timestamp,
    )
        requires
            old(run).wf(),
            old(run).emitted().len() < u64::MAX,
        ensures
            old(run).appended_one(final(run), now),
            is_step_record(final(run).emitted().last().artifact, self.id()),
            step_payload(final(run).emitted().last().artifact) is Measurement,
            step_payload(final(run).emitted().last().artifact)->Measurement_0.name@ == name@,
            step_payload(final(run).emitted().last().artifact)->Measurement_0.value == value,
            step_payload(final(run).emitted().last().artifact)->Measurement_0.unit is None,
            step_payload(final(run).emitted().last().artifact)->Measurement_0.validators is None,
            step_payload(final(run).emitted().last().artifact)->Measurement_0.hardware_info_id
                is None,
            step_payload(final(run).emitted().last().artifact)->Measurement_0.subcomponent is None,
            step_payload(final(run).emitted().last().artifact)->Measurement_0.metadata is None,
    {
        let measurement = spec::Measurement {
            name: name.to_string(),
            value,
            unit: None,
            validators: None,
            hardware_info_id: None,
            subcomponent: None,
            metadata: None,
        };
        self.emit(run, TestStepArtifactImpl::Measurement(measurement), now);
    }

    /// Emits the measurement `measurement`.
    pub fn add_measurement_with_details(
        &self,
        run: &mut StartedTestRun,
        measurement: &spec::Measurement,
        now: Timestamp,
    )
        requires
            old(run).wf(),
            old(run).emitted().len() < u64::MAX,
        ensures
            old(run).appended_one(final(run), now),
            is_step_record(final(run).emitted().last().artifact, self.id()),
            step_payload(final(run).emitted().last().artifact) is Measurement,
            step_payload(final(run).emitted().last().artifact)->Measurement_0.agrees_with(
                measurement,
            ),
    {
        self.emit(run, TestStepArtifactImpl::Measurement(measurement.clone()), now);
    }

    /// Emits the diagnosis `diagnosis`.
    pub fn diagnosis(&self, run: &mut StartedTestRun, diagnosis: spec::Diagnosis, now: Timestamp)
        requires
            old(run).wf(),
            old(run).emitted().len() < u64::MAX,
        ensures
            old(run).appended_one(final(run), now),
            final(run).emitted().last().artifact == step_record(
                self.id(),
                TestStepArtifactImpl::Diagnosis(diagnosis),
            ),
    {
        self.emit(run, TestStepArtifactImpl::Diagnosis(diagnosis), now);
    }

    /// Emits the file record `file`.
    pub fn file(&self, run: &mut StartedTestRun, file: spec::File, now: Timestamp)
        requires
            old(run).wf(),
            old(run).emitted().len() < u64::MAX,
        ensures
            old(run).appended_one(final(run), now),
            final(run).emitted().last().artifact == step_record(
                self.id(),
                TestStepArtifactImpl::File(file),
            ),
    {
        self.emit(run, TestStepArtifactImpl::File(file), now);
    }

    /// Emits the extension record `extension`.
    pub fn extension(&self, run: &mut StartedTestRun, extension: spec::Extension, now: Timestamp)
        requires
            old(run).wf(),
            old(run).emitted().len() < u64::MAX,
        ensures
            old(run).appended_one(final(run), now),
            final(run).emitted().last().artifact == step_record(
                self.id(),
                TestStepArtifactImpl::Extension(extension),
            ),
    {
        self.emit(run, TestStepArtifactImpl::Extension(extension), now);
    }

    /// A new series named `name` under this step, with the next series id of
    /// this step and nothing else set.
    pub fn measurement_series(&mut self, name: &str) -> (r: MeasurementSeries)
        requires
            old(self).series_created() < u64::MAX,
        ensures
            final(self).id() == old(self).id(),
            final(self).series_created() == old(self).series_created() + 1,
            r.step_id() == old(self).id(),
            r.start_record().series_id@ == series_id(old(self).series_created()),
            r.start_record().name@ == name@,
            r.start_record().unit is None,
            r.start_record().validators is None,
            r.start_record().hardware_info is None,
            r.start_record().subcomponent is None,
            r.start_record().metadata is None,
    {
        let id = make_series_id(self.series_seqno);
        self.series_seqno = self.series_seqno + 1;
        let start = spec::MeasurementSeriesStart {
            name: name.to_string(),
            unit: None,
            series_id: id,
            validators: None,
            hardware_info: None,
            subcomponent: None,
            metadata: None,
        };
        MeasurementSeries::new(self.id.clone(), start)
    }

    /// A new series under this step described by `start`, whose id it keeps.
    pub fn measurement_series_with_details(&self, start: spec::MeasurementSeriesStart) -> (r:
        MeasurementSeries)
        ensures
            r.step_id() == self.id(),
            r.start_record() == start,
    {
        MeasurementSeries::new(self.id.clone(), start)
    }
}

} // verus!
