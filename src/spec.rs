//! The wire model: one type for each record of the output schema, the
//! envelope that carries a record into the stream, and the closed sets of
//! values that some of its fields take.
use vstd::prelude::*;

use crate::json::entries;

verus! {

/// The version of the output schema that the stream follows: (major, minor).
pub const SPEC_VERSION: (i8, i8) = (2, 0);

/// The check that a validator applies to a measured value.
#[derive(Clone, Copy, Debug, PartialEq, Eq, Structural)]
#[non_exhaustive]
pub enum ValidatorType {
    Equal,
    NotEqual,
    LessThan,
    LessThenOrEqual,
    GreaterThen,
    GreaterThenOrEqual,
    RegexMatch,
    RegexNoMatch,
    InSet,
    NotInSet,
}

/// The kind of a physical subcomponent of a hardware element.
#[derive(Clone, Copy, Debug, PartialEq, Eq, Structural)]
pub enum SubcomponentType {
    Unspecified,
    Asic,
    AsicSubsystem,
    Bus,
    Function,
    Connector,
}

/// The content of an extension record.
#[derive(Clone, Debug, PartialEq)]
pub enum ExtensionContentType {
    Int(i64),
    Bool(bool),
    Str(String),
}

/// Outcome of a diagnosis operation.
#[derive(Clone, Copy, Debug, PartialEq, Eq, Structural)]
pub enum DiagnosisType {
    Pass,
    Fail,
    Unknown,
}

/// The final execution status of a run or a step.
#[derive(Clone, Copy, Debug, PartialEq, Eq, Structural)]
#[non_exhaustive]
pub enum TestStatus {
    Complete,
    Error,
    Skip,
}

/// The final outcome of a run.
#[derive(Clone, Copy, Debug, PartialEq, Eq, Structural)]
#[non_exhaustive]
pub enum TestResult {
    Pass,
    Fail,
    NotApplicable,
}

/// How severe a log record is.
#[derive(Clone, Copy, Debug, PartialEq, Eq, Structural)]
#[non_exhaustive]
pub enum LogSeverity {
    Debug,
    Info,
    Warning,
    Error,
    Fatal,
}

/// The kind of a software component of the device under test.
#[derive(Clone, Copy, Debug, PartialEq, Eq, Structural)]
pub enum SoftwareType {
    Unspecified,
    Firmware,
    System,
    Application,
}

/// A point in time as the stream renders it: milliseconds since the Unix
/// epoch, and the offset from UTC of the zone it is shown in.
#[derive(Clone, Copy, Debug, PartialEq, Eq, Structural)]
pub struct Timestamp {
    pub unix_millis: i64,
    pub offset_seconds: i32,
}

/// The items of an optional list, in order.
pub open spec fn list_view<T>(v: Option<Vec<T>>) -> Option<Seq<T>> {
    match v {
        Some(items) => Some(items@),
        None => None,
    }
}

/// The entries of an optional JSON map.
pub open spec fn map_view(m: Option<serde_json::Map<String, serde_json::Value>>) -> Option<
    Map<Seq<char>, serde_json::Value>,
> {
    match m {
        Some(inner) => Some(entries(inner)),
        None => None,
    }
}

/// The version of the schema, the first record of every stream.
#[derive(Clone, Copy, Debug, PartialEq, Eq, Structural)]
pub struct SchemaVersion {
    pub major: i8,
    pub minor: i8,
}

impl Default for SchemaVersion {
    fn default() -> (r: SchemaVersion)
        ensures
            r.major == SPEC_VERSION.0,
            r.minor == SPEC_VERSION.1,
    {
        SchemaVersion { major: SPEC_VERSION.0, minor: SPEC_VERSION.1 }
    }
}

/// Where in the diagnostic's source a record was produced.
#[derive(Debug, PartialEq)]
pub struct SourceLocation {
    pub file: String,
    pub line: i32,
}

impl Clone for SourceLocation {
    fn clone(&self) -> (r: Self)
        ensures
            r == *self,
    {
        SourceLocation { file: self.file.clone(), line: self.line }
    }
}

/// A platform attribute of the device under test.
#[derive(Debug, PartialEq)]
pub struct PlatformInfo {
    pub info: String,
}

impl Clone for PlatformInfo {
    fn clone(&self) -> (r: Self)
        ensures
            r == *self,
    {
        PlatformInfo { info: self.info.clone() }
    }
}

/// A software component of the device under test.
#[derive(Debug, PartialEq)]
pub struct SoftwareInfo {
    pub id: String,
    pub name: String,
    pub version: Option<String>,
    pub revision: Option<String>,
    pub software_type: Option<SoftwareType>,
    pub computer_system: Option<String>,
}

impl Clone for SoftwareInfo {
    fn clone(&self) -> (r: Self)
        ensures
            r == *self,
    {
        SoftwareInfo {
            id: self.id.clone(),
            name: self.name.clone(),
            version: self.version.clone(),
            revision: self.revision.clone(),
            software_type: self.software_type,
            computer_system: self.computer_system.clone(),
        }
    }
}

/// A hardware component of the device under test.
#[derive(Debug, PartialEq)]
pub struct HardwareInfo {
    pub id: String,
    pub name: String,
    pub version: Option<String>,
    pub revision: Option<String>,
    pub location: Option<String>,
    pub serial_no: Option<String>,
    pub part_no: Option<String>,
    pub manufacturer: Option<String>,
    pub manufacturer_part_no: Option<String>,
    pub odata_id: Option<String>,
    pub computer_system: Option<String>,
    pub manager: Option<String>,
}

impl Clone for HardwareInfo {
    fn clone(&self) -> (r: Self)
        ensures
            r == *self,
    {
        HardwareInfo {
            id: self.id.clone(),
            name: self.name.clone(),
            version: self.version.clone(),
            revision: self.revision.clone(),
            location: self.location.clone(),
            serial_no: self.serial_no.clone(),
            part_no: self.part_no.clone(),
            manufacturer: self.manufacturer.clone(),
            manufacturer_part_no: self.manufacturer_part_no.clone(),
            odata_id: self.odata_id.clone(),
            computer_system: self.computer_system.clone(),
            manager: self.manager.clone(),
        }
    }
}

/// A physical subcomponent of a hardware element.
#[derive(Debug, PartialEq)]
pub struct Subcomponent {
    pub subcomponent_type: Option<SubcomponentType>,
    pub name: String,
    pub location: Option<String>,
    pub version: Option<String>,
    pub revision: Option<String>,
}

impl Clone for Subcomponent {
    fn clone(&self) -> (r: Self)
        ensures
            r == *self,
    {
        Subcomponent {
            subcomponent_type: self.subcomponent_type,
            name: self.name.clone(),
            location: self.location.clone(),
            version: self.version.clone(),
            revision: self.revision.clone(),
        }
    }
}

/// The check that a diagnostic applied to a measurement.
#[derive(Debug, PartialEq)]
pub struct Validator {
    pub name: Option<String>,
    pub validator_type: ValidatorType,
    pub value: serde_json::Value,
    pub metadata: Option<serde_json::Map<String, serde_json::Value>>,
}

impl Clone for Validator {
    fn clone(&self) -> (r: Self)
        ensures
            r == *self,
    {
        Validator {
            name: self.name.clone(),
            validator_type: self.validator_type,
            value: self.value.clone(),
            metadata: self.metadata.clone(),
        }
    }
}

/// Copies an optional list item by item.
fn clone_list<T: Clone>(v: &Option<Vec<T>>) -> (r: Option<Vec<T>>)
    ensures
        r is Some <==> v is Some,
        r is Some ==> r->0.len() == v->0.len() && forall|i: int|
            0 <= i < v->0.len() ==> cloned::<T>(#[trigger] v->0[i], r->0[i]),
{
    match v {
        Some(items) => Some(items.clone()),
        None => None,
    }
}

/// Everything that describes the device under test.
#[derive(Debug, PartialEq)]
pub struct DutInfo {
    pub id: String,
    pub name: Option<String>,
    pub platform_infos: Option<Vec<PlatformInfo>>,
    pub software_infos: Option<Vec<SoftwareInfo>>,
    pub hardware_infos: Option<Vec<HardwareInfo>>,
    pub metadata: Option<serde_json::Map<String, serde_json::Value>>,
}

impl DutInfo {
    /// Field by field the same description, lists compared by their items.
    pub open spec fn agrees_with(&self, o: &DutInfo) -> bool {
        &&& self.id@ == o.id@
        &&& self.name == o.name
        &&& list_view(self.platform_infos) == list_view(o.platform_infos)
        &&& list_view(self.software_infos) == list_view(o.software_infos)
        &&& list_view(self.hardware_infos) == list_view(o.hardware_infos)
        &&& self.metadata == o.metadata
    }
}

impl Clone for DutInfo {
    fn clone(&self) -> (r: Self)
        ensures
            r.agrees_with(self),
    {
        let platform_infos = clone_list(&self.platform_infos);
        let software_infos = clone_list(&self.software_infos);
        let hardware_infos = clone_list(&self.hardware_infos);
        proof {
            if self.platform_infos is Some {
                assert(platform_infos->0@ =~= self.platform_infos->0@);
            }
            if self.software_infos is Some {
                assert(software_infos->0@ =~= self.software_infos->0@);
            }
            if self.hardware_infos is Some {
                assert(hardware_infos->0@ =~= self.hardware_infos->0@);
            }
        }
        DutInfo {
            id: self.id.clone(),
            name: self.name.clone(),
            platform_infos,
            software_infos,
            hardware_infos,
            metadata: self.metadata.clone(),
        }
    }
}

/// An error met by the diagnostic, in the device or in itself.
#[derive(Debug, PartialEq)]
pub struct Error {
    pub symptom: String,
    pub message: Option<String>,
    pub software_infos: Option<Vec<SoftwareInfo>>,
    pub source_location: Option<SourceLocation>,
}

impl Error {
    /// Field by field the same error, lists compared by their items.
    pub open spec fn agrees_with(&self, o: &Error) -> bool {
        &&& self.symptom == o.symptom
        &&& self.message == o.message
        &&& list_view(self.software_infos) == list_view(o.software_infos)
        &&& self.source_location == o.source_location
    }
}

impl Clone for Error {
    fn clone(&self) -> (r: Self)
        ensures
            r.agrees_with(self),
    {
        let software_infos = clone_list(&self.software_infos);
        proof {
            if self.software_infos is Some {
                assert(software_infos->0@ =~= self.software_infos->0@);
            }
        }
        Error {
            symptom: self.symptom.clone(),
            message: self.message.clone(),
            software_infos,
            source_location: self.source_location.clone(),
        }
    }
}

/// A log record.
#[derive(Debug, PartialEq)]
pub struct Log {
    pub severity: LogSeverity,
    pub message: String,
    pub source_location: Option<SourceLocation>,
}

impl Clone for Log {
    fn clone(&self) -> (r: Self)
        ensures
            r == *self,
    {
        Log {
            severity: self.severity,
            message: self.message.clone(),
            source_location: self.source_location.clone(),
        }
    }
}

/// The start of a run.
#[derive(Debug, PartialEq)]
pub struct TestRunStart {
    pub name: String,
    pub version: String,
    pub command_line: String,
    pub parameters: serde_json::Map<String, serde_json::Value>,
    pub dut_info: DutInfo,
    pub metadata: Option<serde_json::Map<String, serde_json::Value>>,
}

impl TestRunStart {
    /// Field by field the same start record, the devices compared with
    /// [`DutInfo::agrees_with`].
    pub open spec fn agrees_with(&self, o: &TestRunStart) -> bool {
        &&& self.name@ == o.name@
        &&& self.version@ == o.version@
        &&& self.command_line@ == o.command_line@
        &&& self.parameters == o.parameters
        &&& self.dut_info.agrees_with(&o.dut_info)
        &&& self.metadata == o.metadata
    }
}

/// The end of a run.
#[derive(Clone, Copy, Debug, PartialEq, Eq, Structural)]
pub struct TestRunEnd {
    pub status: TestStatus,
    pub result: TestResult,
}

/// The start of a step.
#[derive(Debug, PartialEq)]
pub struct TestStepStart {
    pub name: String,
}

/// The end of a step.
#[derive(Clone, Copy, Debug, PartialEq, Eq, Structural)]
pub struct TestStepEnd {
    pub status: TestStatus,
}

/// One measurement taken of the device.
#[derive(Debug, PartialEq)]
pub struct Measurement {
    pub name: String,
    pub value: serde_json::Value,
    pub unit: Option<String>,
    pub validators: Option<Vec<Validator>>,
    pub hardware_info_id: Option<String>,
    pub subcomponent: Option<Subcomponent>,
    pub metadata: Option<serde_json::Map<String, serde_json::Value>>,
}

impl Measurement {
    /// Field by field the same measurement, lists compared by their items.
    pub open spec fn agrees_with(&self, o: &Measurement) -> bool {
        &&& self.name == o.name
        &&& self.value == o.value
        &&& self.unit == o.unit
        &&& list_view(self.validators) == list_view(o.validators)
        &&& self.hardware_info_id == o.hardware_info_id
        &&& self.subcomponent == o.subcomponent
        &&& self.metadata == o.metadata
    }
}

impl Clone for Measurement {
    fn clone(&self) -> (r: Self)
        ensures
            r.agrees_with(self),
    {
        let validators = clone_list(&self.validators);
        proof {
            if self.validators is Some {
                assert(validators->0@ =~= self.validators->0@);
            }
        }
        Measurement {
            name: self.name.clone(),
            value: self.value.clone(),
            unit: self.unit.clone(),
            validators,
            hardware_info_id: self.hardware_info_id.clone(),
            subcomponent: self.subcomponent.clone(),
            metadata: self.metadata.clone(),
        }
    }
}

/// The start of a series of measurements.
#[derive(Debug, PartialEq)]
pub struct MeasurementSeriesStart {
    pub name: String,
    pub unit: Option<String>,
    pub series_id: String,
    pub validators: Option<Vec<Validator>>,
    pub hardware_info: Option<HardwareInfo>,
    pub subcomponent: Option<Subcomponent>,
    pub metadata: Option<serde_json::Map<String, serde_json::Value>>,
}

/// The end of a series, with the number of elements it holds.
#[derive(Debug, PartialEq)]
pub struct MeasurementSeriesEnd {
    pub series_id: String,
    pub total_count: u64,
}

/// One element of a series.
#[derive(Debug, PartialEq)]
pub struct MeasurementSeriesElement {
    pub index: u64,
    pub value: serde_json::Value,
    pub timestamp: Timestamp,
    pub series_id: String,
    pub metadata: Option<serde_json::Map<String, serde_json::Value>>,
}

/// The verdict of the diagnostic on the device it inspected.
#[derive(Debug, PartialEq)]
pub struct Diagnosis {
    pub verdict: String,
    pub diagnosis_type: DiagnosisType,
    pub message: Option<String>,
    pub hardware_info: Option<HardwareInfo>,
    pub subcomponent: Option<Subcomponent>,
    pub source_location: Option<SourceLocation>,
}

/// A file that running the diagnostic produced.
#[derive(Debug, PartialEq)]
pub struct File {
    pub name: String,
    pub uri: String,
    pub is_snapshot: bool,
    pub description: Option<String>,
    pub content_type: Option<String>,
    pub metadata: Option<serde_json::Map<String, serde_json::Value>>,
}

/// A named record of free-form content.
#[derive(Debug, PartialEq)]
pub struct Extension {
    pub name: String,
    pub content: ExtensionContentType,
}

/// The records that belong to the run as a whole.
#[derive(Debug, PartialEq)]
pub enum TestRunArtifactImpl {
    TestRunStart(TestRunStart),
    TestRunEnd(TestRunEnd),
    Log(Log),
    Error(Error),
}

/// A run-level record.
#[derive(Debug, PartialEq)]
pub struct TestRunArtifact {
    pub artifact: TestRunArtifactImpl,
}

/// The records that belong to one step.
#[derive(Debug, PartialEq)]
pub enum TestStepArtifactImpl {
    TestStepStart(TestStepStart),
    TestStepEnd(TestStepEnd),
    Measurement(Measurement),
    MeasurementSeriesStart(MeasurementSeriesStart),
    MeasurementSeriesEnd(MeasurementSeriesEnd),
    MeasurementSeriesElement(MeasurementSeriesElement),
    Diagnosis(Diagnosis),
    Log(Log),
    Error(Error),
    File(File),
    Extension(Extension),
}

/// A step-level record, with the id of the step it belongs to.
#[derive(Debug, PartialEq)]
pub struct TestStepArtifact {
    pub id: String,
    pub artifact: TestStepArtifactImpl,
}

/// Any record that can stand at the top of a line of the stream.
#[derive(Debug, PartialEq)]
pub enum RootImpl {
    SchemaVersion(SchemaVersion),
    TestRunArtifact(TestRunArtifact),
    TestStepArtifact(TestStepArtifact),
}

/// One line of the stream: a record with its timestamp and sequence number.
#[derive(Debug, PartialEq)]
pub struct Root {
    pub artifact: RootImpl,
    pub timestamp: Timestamp,
    pub seqno: u64,
}

} // verus!
