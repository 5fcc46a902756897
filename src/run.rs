//! The test run: its configuration, its start and end, and the run-level
//! records it emits.
//!
//! Every record goes through the run's [`TestState`], which numbers it and
//! queues it; [`StartedTestRun::take_pending`] hands the queue to whatever
//! writes the stream.
use vstd::prelude::*;

use crate::ids::{make_step_id, step_id};
use crate::json::{entries, insert_entry, no_entries, with_entry};
use crate::spec;
use crate::spec::{
    map_view, DutInfo, LogSeverity, Root, RootImpl, TestResult, TestRunArtifactImpl, TestStatus,
    Timestamp,
};
use crate::state::TestState;
use crate::step::TestStep;

verus! {

/// The status and result that a run ends with.
pub struct TestRunOutcome {
    /// The execution status of the run.
    pub status: TestStatus,
    /// The result of the run.
    pub result: TestResult,
}

/// The record for the schema version, the first record of every run.
pub open spec fn schema_version_root() -> RootImpl {
    RootImpl::SchemaVersion(spec::SchemaVersion { major: spec::SPEC_VERSION.0, minor: spec::SPEC_VERSION.1 })
}

/// `r` opens a run: the schema version or a run start. A run numbers each
/// exactly once, as records 0 and 1.
pub open spec fn opens_run(r: RootImpl) -> bool {
    ||| r is SchemaVersion
    ||| (r is TestRunArtifact && r->TestRunArtifact_0.artifact is TestRunStart)
}

/// `r` is the run-level record that holds `a`.
pub open spec fn run_record(r: RootImpl, a: TestRunArtifactImpl) -> bool {
    r == RootImpl::TestRunArtifact(spec::TestRunArtifact { artifact: a })
}

/// `r` is a run start that agrees with `s`.
pub open spec fn is_run_start_of(r: RootImpl, s: spec::TestRunStart) -> bool {
    &&& r is TestRunArtifact
    &&& r->TestRunArtifact_0.artifact is TestRunStart
    &&& r->TestRunArtifact_0.artifact->TestRunStart_0.agrees_with(&s)
}

/// `r` is a run-level error that agrees with `e`.
pub open spec fn is_run_error_of(r: RootImpl, e: spec::Error) -> bool {
    &&& r is TestRunArtifact
    &&& r->TestRunArtifact_0.artifact is Error
    &&& r->TestRunArtifact_0.artifact->Error_0.agrees_with(&e)
}

/// The main object of a diagnostic: one run of it, not yet started.
pub struct TestRun {
    name: String,
    version: String,
    parameters: serde_json::Map<String, serde_json::Value>,
    dut: DutInfo,
    command_line: String,
    metadata: Option<serde_json::Map<String, serde_json::Value>>,
    state: TestState,
}

impl TestRun {
    /// The start record that this run describes.
    pub closed spec fn start_record(&self) -> spec::TestRunStart {
        spec::TestRunStart {
            name: self.name,
            version: self.version,
            command_line: self.command_line,
            parameters: self.parameters,
            dut_info: self.dut,
            metadata: self.metadata,
        }
    }

    /// Nothing has been numbered yet.
    pub closed spec fn wf(&self) -> bool {
        &&& self.state.wf()
        &&& self.state@.len() == 0
        &&& self.state.pending().len() == 0
    }

    /// A builder for a run of `name` at `version` on `dut`.
    pub fn builder(name: &str, dut: &DutInfo, version: &str) -> (r: TestRunBuilder)
        ensures
            r.start_record().name@ == name@,
            r.start_record().version@ == version@,
            r.start_record().command_line@ == Seq::<char>::empty(),
            entries(r.start_record().parameters) == no_entries(),
            r.start_record().dut_info.agrees_with(dut),
            r.start_record().metadata is None,
    {
        TestRunBuilder::new(name, dut, version)
    }

    /// A run of `name` at `version` on the device with id `dut_id`, with
    /// everything else left at its default.
    pub fn new(name: &str, dut_id: &str, version: &str) -> (r: TestRun)
        ensures
            r.wf(),
            r.start_record().name@ == name@,
            r.start_record().version@ == version@,
            r.start_record().command_line@ == Seq::<char>::empty(),
            entries(r.start_record().parameters) == no_entries(),
            r.start_record().dut_info.id@ == dut_id@,
            r.start_record().dut_info.name is None,
            r.start_record().dut_info.platform_infos is None,
            r.start_record().dut_info.software_infos is None,
            r.start_record().dut_info.hardware_infos is None,
            r.start_record().dut_info.metadata is None,
            r.start_record().metadata is None,
    {
        let dut = DutInfo::new(dut_id);
        TestRunBuilder::new(name, &dut, version).build()
    }

    /// Starts the run at `now`: numbers the schema version as record 0 and
    /// the run start as record 1.
    pub fn start(self, now: Timestamp) -> (r: StartedTestRun)
        requires
            self.wf(),
        ensures
            r.wf(),
            r.steps_created() == 0,
            r.emitted().len() == 2,
            r.emitted()[0] == (Root { artifact: schema_version_root(), timestamp: now, seqno: 0 }),
            is_run_start_of(r.emitted()[1].artifact, self.start_record()),
            r.emitted()[1].timestamp == now,
            r.emitted()[1].seqno == 1,
            r.pending() == r.emitted(),
    {
        let mut run = self;
        let version = SchemaVersion::new();
        run.state.emit(version.to_artifact(), now);

        let mut builder = TestRunStart::builder(
            &run.name,
            &run.version,
            &run.command_line,
            &run.parameters,
            &run.dut,
        );
        match &run.metadata {
            Some(m) => {
                builder = builder.metadata(m);
            },
            None => {},
        }
        let start = builder.build();
        run.state.emit(start.to_artifact(), now);
        StartedTestRun::new(run)
    }
}

/// Builder for a [`TestRun`].
pub struct TestRunBuilder {
    name: String,
    dut: DutInfo,
    version: String,
    parameters: serde_json::Map<String, serde_json::Value>,
    command_line: String,
    metadata: Option<serde_json::Map<String, serde_json::Value>>,
}

impl TestRunBuilder {
    /// The start record that the run built from here describes.
    pub closed spec fn start_record(&self) -> spec::TestRunStart {
        spec::TestRunStart {
            name: self.name,
            version: self.version,
            command_line: self.command_line,
            parameters: self.parameters,
            dut_info: self.dut,
            metadata: self.metadata,
        }
    }

    /// A builder for a run of `name` at `version` on `dut`, with no
    /// parameters, no metadata and an empty command line.
    pub fn new(name: &str, dut: &DutInfo, version: &str) -> (r: TestRunBuilder)
        ensures
            r.start_record().name@ == name@,
            r.start_record().version@ == version@,
            r.start_record().command_line@ == Seq::<char>::empty(),
            entries(r.start_record().parameters) == no_entries(),
            r.start_record().dut_info.agrees_with(dut),
            r.start_record().metadata is None,
    {
        TestRunBuilder {
            name: name.to_string(),
            dut: dut.clone(),
            version: version.to_string(),
            parameters: serde_json::Map::new(),
            command_line: String::new(),
            metadata: None,
        }
    }

    /// Adds the parameter `key` with `value`, replacing one of that key.
    pub fn add_parameter(self, key: &str, value: serde_json::Value) -> (r: TestRunBuilder)
        ensures
            entries(r.start_record().parameters) == entries(self.start_record().parameters).insert(
                key@,
                value,
            ),
            r.start_record() == (spec::TestRunStart {
                parameters: r.start_record().parameters,
                ..self.start_record()
            }),
    {
        let mut b = self;
        b.parameters.insert(key.to_string(), value);
        b
    }

    /// Sets the command line that started the diagnostic.
    pub fn command_line(self, cmd: &str) -> (r: TestRunBuilder)
        ensures
            r.start_record().command_line@ == cmd@,
            r.start_record() == (spec::TestRunStart {
                command_line: r.start_record().command_line,
                ..self.start_record()
            }),
    {
        let mut b = self;
        b.command_line = cmd.to_string();
        b
    }

    /// Adds the metadata entry `key` with `value`, replacing one of that key.
    pub fn add_metadata(self, key: &str, value: serde_json::Value) -> (r: TestRunBuilder)
        ensures
            map_view(r.start_record().metadata) == with_entry(self.start_record().metadata, key@, value),
            r.start_record() == (spec::TestRunStart {
                metadata: r.start_record().metadata,
                ..self.start_record()
            }),
    {
        let mut b = self;
        let old_metadata = b.metadata;
        b.metadata = Some(insert_entry(old_metadata, key, value));
        b
    }

    /// The run, with a state that has numbered nothing yet.
    pub fn build(self) -> (r: TestRun)
        ensures
            r.wf(),
            r.start_record() == self.start_record(),
    {
        TestRun {
            name: self.name,
            dut: self.dut,
            version: self.version,
            parameters: self.parameters,
            command_line: self.command_line,
            metadata: self.metadata,
            state: TestState::new(),
        }
    }
}

/// A run that has been started: it hands out steps and emits run-level
/// records.
pub struct StartedTestRun {
    run: TestRun,
    step_seqno: u64,
}

impl StartedTestRun {
    /// Every record of the run numbered so far, in order.
    pub closed spec fn emitted(&self) -> Seq<Root> {
        self.run.state@
    }

    /// The records that wait to be written, oldest first.
    pub closed spec fn pending(&self) -> Seq<Root> {
        self.run.state.pending()
    }

    /// How many steps this run has handed out.
    pub closed spec fn steps_created(&self) -> nat {
        self.step_seqno as nat
    }

    /// `after` is this run with one more record, stamped `now` and queued,
    /// and no other change.
    pub open spec fn appended_one(&self, after: &StartedTestRun, now: Timestamp) -> bool {
        &&& after.wf()
        &&& after.steps_created() == self.steps_created()
        &&& after.emitted().len() == self.emitted().len() + 1
        &&& after.emitted().drop_last() == self.emitted()
        &&& after.emitted().last().timestamp == now
        &&& after.emitted().last().seqno == self.emitted().len()
        &&& after.pending() == self.pending().push(after.emitted().last())
    }

    /// The number of records emitted after the run start.
    pub open spec fn children(&self) -> nat {
        (self.emitted().len() - 2) as nat
    }

    /// The state is consistent, and the run's first two records are the
    /// schema version and the run start.
    pub closed spec fn wf(&self) -> bool {
        &&& self.run.state.wf()
        &&& self.run.state@.len() >= 2
        &&& self.run.state@[0].artifact == schema_version_root()
        &&& self.run.state@[1].artifact is TestRunArtifact
        &&& self.run.state@[1].artifact->TestRunArtifact_0.artifact is TestRunStart
        &&& forall|i: int|
            2 <= i < self.run.state@.len() ==> !opens_run(#[trigger] self.run.state@[i].artifact)
    }

    fn new(run: TestRun) -> (r: StartedTestRun)
        requires
            run.state.wf(),
            run.state@.len() == 2,
            run.state@[0].artifact == schema_version_root(),
            run.state@[1].artifact is TestRunArtifact,
            run.state@[1].artifact->TestRunArtifact_0.artifact is TestRunStart,
        ensures
            r.wf(),
            r.run == run,
            r.steps_created() == 0,
    {
        StartedTestRun { run, step_seqno: 0 }
    }

    /// How many more records the run can number.
    pub fn room(&self) -> (r: u64)
        requires
            self.wf(),
        ensures
            r == u64::MAX - self.emitted().len(),
    {
        self.run.state.room()
    }

    /// How many more steps the run can hand out.
    pub fn steps_left(&self) -> (r: u64)
        ensures
            r == u64::MAX - self.steps_created(),
    {
        u64::MAX - self.step_seqno
    }

    /// Numbers `artifact` as the run's next record and queues it; the sole
    /// path from the run and its steps and series to the stream. Only the run
    /// itself numbers the records that open it.
    pub(crate) fn emit(&mut self, artifact: RootImpl, now: Timestamp)
        requires
            old(self).wf(),
            old(self).emitted().len() < u64::MAX,
            !opens_run(artifact),
        ensures
            final(self).wf(),
            final(self).steps_created() == old(self).steps_created(),
            final(self).emitted() == old(self).emitted().push(
                (Root { artifact, timestamp: now, seqno: old(self).emitted().len() as u64 }),
            ),
            final(self).pending() == old(self).pending().push(
                (Root { artifact, timestamp: now, seqno: old(self).emitted().len() as u64 }),
            ),
            old(self).appended_one(final(self), now),
    {
        self.run.state.emit(artifact, now);
        assert(self.emitted().drop_last() =~= old(self).emitted());
    }

    /// Hands over the records that wait to be written, oldest first.
    pub fn take_pending(&mut self) -> (r: Vec<Root>)
        requires
            old(self).wf(),
        ensures
            final(self).wf(),
            final(self).emitted() == old(self).emitted(),
            final(self).steps_created() == old(self).steps_created(),
            r@ == old(self).pending(),
            final(self).pending() == Seq::<Root>::empty(),
    {
        self.run.state.take_pending()
    }

    /// Ends the run with `status` and `result`.
    pub fn end(&mut self, status: TestStatus, result: TestResult, now: Timestamp)
        requires
            old(self).wf(),
            old(self).emitted().len() < u64::MAX,
        ensures
            old(self).appended_one(final(self), now),
            final(self).wf(),
            final(self).steps_created() == old(self).steps_created(),
            final(self).emitted() == old(self).emitted().push(
                (Root {
                    artifact: RootImpl::TestRunArtifact(
                        spec::TestRunArtifact {
                            artifact: TestRunArtifactImpl::TestRunEnd(
                                spec::TestRunEnd { status, result },
                            ),
                        },
                    ),
                    timestamp: now,
                    seqno: old(self).emitted().len() as u64,
                }),
            ),
            final(self).emitted().last().seqno == old(self).children() + 2,
            final(self).pending().len() == old(self).pending().len() + 1,
            final(self).pending().last() == final(self).emitted().last(),
    {
        let end = TestRunEnd::builder().status(status).result(result).build();
        self.emit(end.to_artifact(), now);
    }

    /// Emits a log record of `severity` with `msg`.
    pub fn log(&mut self, severity: LogSeverity, msg: &str, now: Timestamp)
        requires
            old(self).wf(),
            old(self).emitted().len() < u64::MAX,
        ensures
            old(self).appended_one(final(self), now),
            final(self).wf(),
            final(self).steps_created() == old(self).steps_created(),
            final(self).emitted().len() == old(self).emitted().len() + 1,
            final(self).emitted().drop_last() == old(self).emitted(),
            final(self).emitted().last().timestamp == now,
            final(self).emitted().last().seqno == old(self).emitted().len(),
            final(self).emitted().last().artifact is TestRunArtifact,
            final(self).emitted().last().artifact->TestRunArtifact_0.artifact is Log,
            final(self).emitted().last().artifact->TestRunArtifact_0.artifact->Log_0.severity
                == severity,
            final(self).emitted().last().artifact->TestRunArtifact_0.artifact->Log_0.message@
                == msg@,
            final(self).emitted().last().artifact->TestRunArtifact_0.artifact->Log_0.source_location
                is None,
            final(self).pending() == old(self).pending().push(final(self).emitted().last()),
    {
        let log = spec::Log { severity, message: msg.to_string(), source_location: None };
        self.emit_run_artifact(TestRunArtifactImpl::Log(log), now);
    }

    /// Emits the log record `log`.
    pub fn log_with_details(&mut self, log: &spec::Log, now: Timestamp)
        requires
            old(self).wf(),
            old(self).emitted().len() < u64::MAX,
        ensures
            old(self).appended_one(final(self), now),
            final(self).wf(),
            final(self).steps_created() == old(self).steps_created(),
            final(self).emitted() == old(self).emitted().push(
                (Root {
                    artifact: RootImpl::TestRunArtifact(
                        spec::TestRunArtifact { artifact: TestRunArtifactImpl::Log(*log) },
                    ),
                    timestamp: now,
                    seqno: old(self).emitted().len() as u64,
                }),
            ),
            final(self).pending() == old(self).pending().push(final(self).emitted().last()),
    {
        self.emit_run_artifact(TestRunArtifactImpl::Log(log.clone()), now);
    }

    /// Emits an error record with `symptom` alone.
    pub fn error(&mut self, symptom: &str, now: Timestamp)
        requires
            old(self).wf(),
            old(self).emitted().len() < u64::MAX,
        ensures
            old(self).appended_one(final(self), now),
            final(self).wf(),
            final(self).steps_created() == old(self).steps_created(),
            final(self).emitted().drop_last() == old(self).emitted(),
            final(self).emitted().last().timestamp == now,
            final(self).emitted().last().seqno == old(self).emitted().len(),
            final(self).emitted().last().artifact is TestRunArtifact,
            final(self).emitted().last().artifact->TestRunArtifact_0.artifact is Error,
            final(self).emitted().last().artifact->TestRunArtifact_0.artifact->Error_0.symptom@
                == symptom@,
            final(self).emitted().last().artifact->TestRunArtifact_0.artifact->Error_0.message
                is None,
            final(self).emitted().last().artifact->TestRunArtifact_0.artifact->Error_0.software_infos
                is None,
            final(self).emitted().last().artifact->TestRunArtifact_0.artifact->Error_0.source_location
                is None,
            final(self).pending() == old(self).pending().push(final(self).emitted().last()),
    {
        let error = spec::Error {
            symptom: symptom.to_string(),
            message: None,
            software_infos: None,
            source_location: None,
        };
        self.emit_run_artifact(TestRunArtifactImpl::Error(error), now);
    }

    /// Emits an error record with `symptom` and the message `msg`.
    pub fn error_with_msg(&mut self, symptom: &str, msg: &str, now: Timestamp)
        requires
            old(self).wf(),
            old(self).emitted().len() < u64::MAX,
        ensures
            old(self).appended_one(final(self), now),
            final(self).wf(),
            final(self).steps_created() == old(self).steps_created(),
            final(self).emitted().drop_last() == old(self).emitted(),
            final(self).emitted().last().timestamp == now,
            final(self).emitted().last().seqno == old(self).emitted().len(),
            final(self).emitted().last().artifact is TestRunArtifact,
            final(self).emitted().last().artifact->TestRunArtifact_0.artifact is Error,
            final(self).emitted().last().artifact->TestRunArtifact_0.artifact->Error_0.symptom@
                == symptom@,
            final(self).emitted().last().artifact->TestRunArtifact_0.artifact->Error_0.message
                is Some,
            final(self).emitted().last().artifact->TestRunArtifact_0.artifact->Error_0.message->0@
                == msg@,
            final(self).emitted().last().artifact->TestRunArtifact_0.artifact->Error_0.software_infos
                is None,
            final(self).emitted().last().artifact->TestRunArtifact_0.artifact->Error_0.source_location
                is None,
            final(self).pending() == old(self).pending().push(final(self).emitted().last()),
    {
        let error = spec::Error {
            symptom: symptom.to_string(),
            message: Some(msg.to_string()),
            software_infos: None,
            source_location: None,
        };
        self.emit_run_artifact(TestRunArtifactImpl::Error(error), now);
    }

    /// Emits the error record `error`.
    pub fn error_with_details(&mut self, error: &spec::Error, now: Timestamp)
        requires
            old(self).wf(),
            old(self).emitted().len() < u64::MAX,
        ensures
            old(self).appended_one(final(self), now),
            final(self).wf(),
            final(self).steps_created() == old(self).steps_created(),
            final(self).emitted().drop_last() == old(self).emitted(),
            final(self).emitted().last().timestamp == now,
            final(self).emitted().last().seqno == old(self).emitted().len(),
            is_run_error_of(final(self).emitted().last().artifact, *error),
            final(self).pending() == old(self).pending().push(final(self).emitted().last()),
    {
        self.emit_run_artifact(TestRunArtifactImpl::Error(error.clone()), now);
    }

    fn emit_run_artifact(&mut self, artifact: TestRunArtifactImpl, now: Timestamp)
        requires
            old(self).wf(),
            !(artifact is TestRunStart),
            old(self).emitted().len() < u64::MAX,
        ensures
            old(self).appended_one(final(self), now),
            final(self).wf(),
            final(self).steps_created() == old(self).steps_created(),
            final(self).emitted() == old(self).emitted().push(
                (Root {
                    artifact: RootImpl::TestRunArtifact(spec::TestRunArtifact { artifact }),
                    timestamp: now,
                    seqno: old(self).emitted().len() as u64,
                }),
            ),
            final(self).pending() == old(self).pending().push(final(self).emitted().last()),
    {
        self.emit(RootImpl::TestRunArtifact(spec::TestRunArtifact { artifact }), now);
    }

    /// A new step named `name`, with the next step id of this run. Ids go by
    /// the order in which steps are made, whatever the order they start in.
    pub fn step(&mut self, name: &str) -> (r: TestStep)
        requires
            old(self).wf(),
            old(self).steps_created() < u64::MAX,
        ensures
            final(self).wf(),
            final(self).emitted() == old(self).emitted(),
            final(self).pending() == old(self).pending(),
            final(self).steps_created() == old(self).steps_created() + 1,
            r.id()@ == step_id(old(self).steps_created()),
            r.name()@ == name@,
    {
        let step_id = make_step_id(self.step_seqno);
        self.step_seqno = self.step_seqno + 1;
        TestStep::new(step_id, name)
    }
}

/// Whatever was emitted on a run and in whatever order, its records carry the
/// sequence numbers `0, 1, 2, ...`: none is skipped and none repeats.
pub proof fn lemma_run_numbers_without_gaps(run: &StartedTestRun)
    requires
        run.wf(),
    ensures
        forall|i: int| 0 <= i < run.emitted().len() ==> (#[trigger] run.emitted()[i]).seqno == i,
{
    run.run.state.lemma_numbers_without_gaps();
}

/// The schema version is always record 0 of a run, and the run start record 1
/// right after it; no later record of the run is either of them.
pub proof fn lemma_schema_version_first(run: &StartedTestRun)
    requires
        run.wf(),
    ensures
        run.emitted().len() >= 2,
        run.emitted()[0].artifact == schema_version_root(),
        run.emitted()[0].seqno == 0,
        run.emitted()[1].artifact is TestRunArtifact,
        run.emitted()[1].artifact->TestRunArtifact_0.artifact is TestRunStart,
        run.emitted()[1].seqno == 1,
        forall|i: int|
            1 <= i < run.emitted().len() ==> !(#[trigger] run.emitted()[i].artifact is SchemaVersion),
        forall|i: int|
            2 <= i < run.emitted().len() ==> !opens_run(#[trigger] run.emitted()[i].artifact),
{
    run.run.state.lemma_numbers_without_gaps();
}

/// The record that ends a run is numbered two more than the records emitted
/// between the run start and it: after the schema version and the run start.
pub proof fn lemma_end_follows_children(run: &StartedTestRun)
    requires
        run.wf(),
    ensures
        run.emitted().len() == run.children() + 2,
{
}

/// The start record of a run, before it is numbered.
pub struct TestRunStart {
    name: String,
    version: String,
    command_line: String,
    parameters: serde_json::Map<String, serde_json::Value>,
    metadata: Option<serde_json::Map<String, serde_json::Value>>,
    dut_info: DutInfo,
}

impl TestRunStart {
    /// The wire record this start becomes.
    pub closed spec fn record(&self) -> spec::TestRunStart {
        spec::TestRunStart {
            name: self.name,
            version: self.version,
            command_line: self.command_line,
            parameters: self.parameters,
            dut_info: self.dut_info,
            metadata: self.metadata,
        }
    }

    /// A builder for the start of a run with the given fields and no metadata.
    pub fn builder(
        name: &str,
        version: &str,
        command_line: &str,
        parameters: &serde_json::Map<String, serde_json::Value>,
        dut_info: &DutInfo,
    ) -> (r: TestRunStartBuilder)
        ensures
            r.record().name@ == name@,
            r.record().version@ == version@,
            r.record().command_line@ == command_line@,
            r.record().parameters == *parameters,
            r.record().dut_info.agrees_with(dut_info),
            r.record().metadata is None,
    {
        TestRunStartBuilder::new(name, version, command_line, parameters, dut_info)
    }

    /// The record, ready to be numbered.
    pub fn to_artifact(&self) -> (r: RootImpl)
        ensures
            is_run_start_of(r, self.record()),
    {
        RootImpl::TestRunArtifact(
            spec::TestRunArtifact {
                artifact: TestRunArtifactImpl::TestRunStart(
                    spec::TestRunStart {
                        name: self.name.clone(),
                        version: self.version.clone(),
                        command_line: self.command_line.clone(),
                        parameters: self.parameters.clone(),
                        metadata: self.metadata.clone(),
                        dut_info: self.dut_info.clone(),
                    },
                ),
            },
        )
    }
}

/// Builder for a [`TestRunStart`].
pub struct TestRunStartBuilder {
    name: String,
    version: String,
    command_line: String,
    parameters: serde_json::Map<String, serde_json::Value>,
    metadata: Option<serde_json::Map<String, serde_json::Value>>,
    dut_info: DutInfo,
}

impl TestRunStartBuilder {
    /// The wire record that the start built from here becomes.
    pub closed spec fn record(&self) -> spec::TestRunStart {
        spec::TestRunStart {
            name: self.name,
            version: self.version,
            command_line: self.command_line,
            parameters: self.parameters,
            dut_info: self.dut_info,
            metadata: self.metadata,
        }
    }

    /// A builder with the given fields and no metadata.
    pub fn new(
        name: &str,
        version: &str,
        command_line: &str,
        parameters: &serde_json::Map<String, serde_json::Value>,
        dut_info: &DutInfo,
    ) -> (r: TestRunStartBuilder)
        ensures
            r.record().name@ == name@,
            r.record().version@ == version@,
            r.record().command_line@ == command_line@,
            r.record().parameters == *parameters,
            r.record().dut_info.agrees_with(dut_info),
            r.record().metadata is None,
    {
        TestRunStartBuilder {
            name: name.to_string(),
            version: version.to_string(),
            command_line: command_line.to_string(),
            parameters: parameters.clone(),
            metadata: None,
            dut_info: dut_info.clone(),
        }
    }

    /// Adds the metadata entry `key` with `value`, replacing one of that key.
    pub fn add_metadata(self, key: &str, value: serde_json::Value) -> (r: TestRunStartBuilder)
        ensures
            map_view(r.record().metadata) == with_entry(self.record().metadata, key@, value),
            r.record() == (spec::TestRunStart { metadata: r.record().metadata, ..self.record() }),
    {
        let mut b = self;
        let old_metadata = b.metadata;
        b.metadata = Some(insert_entry(old_metadata, key, value));
        b
    }

    /// Sets the whole metadata map at once.
    pub fn metadata(self, metadata: &serde_json::Map<String, serde_json::Value>) -> (r:
        TestRunStartBuilder)
        ensures
            r.record() == (spec::TestRunStart { metadata: Some(*metadata), ..self.record() }),
    {
        let mut b = self;
        b.metadata = Some(metadata.clone());
        b
    }

    /// The start record.
    pub fn build(self) -> (r: TestRunStart)
        ensures
            r.record() == self.record(),
    {
        TestRunStart {
            name: self.name,
            version: self.version,
            command_line: self.command_line,
            parameters: self.parameters,
            metadata: self.metadata,
            dut_info: self.dut_info,
        }
    }
}

/// The end record of a run, before it is numbered.
pub struct TestRunEnd {
    status: TestStatus,
    result: TestResult,
}

impl TestRunEnd {
    /// The wire record this end becomes.
    pub closed spec fn record(&self) -> spec::TestRunEnd {
        spec::TestRunEnd { status: self.status, result: self.result }
    }

    /// A builder that starts from status complete and result pass.
    pub fn builder() -> (r: TestRunEndBuilder)
        ensures
            r.record() == (spec::TestRunEnd {
                status: TestStatus::Complete,
                result: TestResult::Pass,
            }),
    {
        TestRunEndBuilder::new()
    }

    /// The record, ready to be numbered.
    pub fn to_artifact(&self) -> (r: RootImpl)
        ensures
            run_record(r, TestRunArtifactImpl::TestRunEnd(self.record())),
    {
        RootImpl::TestRunArtifact(
            spec::TestRunArtifact {
                artifact: TestRunArtifactImpl::TestRunEnd(
                    spec::TestRunEnd { status: self.status, result: self.result },
                ),
            },
        )
    }
}

/// Builder for a [`TestRunEnd`].
#[derive(Debug)]
pub struct TestRunEndBuilder {
    status: TestStatus,
    result: TestResult,
}

impl TestRunEndBuilder {
    /// The wire record that the end built from here becomes.
    pub closed spec fn record(&self) -> spec::TestRunEnd {
        spec::TestRunEnd { status: self.status, result: self.result }
    }

    /// A builder that starts from status complete and result pass.
    pub fn new() -> (r: TestRunEndBuilder)
        ensures
            r.record() == (spec::TestRunEnd {
                status: TestStatus::Complete,
                result: TestResult::Pass,
            }),
    {
        TestRunEndBuilder { status: TestStatus::Complete, result: TestResult::Pass }
    }

    /// Sets the status.
    pub fn status(self, value: TestStatus) -> (r: TestRunEndBuilder)
        ensures
            r.record() == (spec::TestRunEnd { status: value, ..self.record() }),
    {
        TestRunEndBuilder { status: value, result: self.result }
    }

    /// Sets the result.
    pub fn result(self, value: TestResult) -> (r: TestRunEndBuilder)
        ensures
            r.record() == (spec::TestRunEnd { result: value, ..self.record() }),
    {
        TestRunEndBuilder { status: self.status, result: value }
    }

    /// The end record.
    pub fn build(self) -> (r: TestRunEnd)
        ensures
            r.record() == self.record(),
    {
        TestRunEnd { status: self.status, result: self.result }
    }
}

/// The schema version record, before it is numbered.
pub struct SchemaVersion {
    pub major: i8,
    pub minor: i8,
}

impl SchemaVersion {
    /// The version this library writes.
    pub fn new() -> (r: SchemaVersion)
        ensures
            r.major == spec::SPEC_VERSION.0,
            r.minor == spec::SPEC_VERSION.1,
    {
        SchemaVersion { major: spec::SPEC_VERSION.0, minor: spec::SPEC_VERSION.1 }
    }

    /// The record, ready to be numbered.
    pub fn to_artifact(&self) -> (r: RootImpl)
        ensures
            r == RootImpl::SchemaVersion(spec::SchemaVersion { major: self.major, minor: self.minor }),
    {
        RootImpl::SchemaVersion(spec::SchemaVersion { major: self.major, minor: self.minor })
    }
}

} // verus!
