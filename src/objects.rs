//! Builders for the leaf records: logs, errors, measurements, validators,
//! series starts and the parts of the device under test. Each builder takes
//! the required fields up front; every optional field starts unset, and a log
//! starts at severity info.
use vstd::prelude::*;

use crate::json::{insert_entry, with_entry};
use crate::spec::{
    list_view, map_view, DutInfo, Error, HardwareInfo, Log, LogSeverity, Measurement,
    MeasurementSeriesStart, PlatformInfo, SoftwareInfo, SoftwareType, SourceLocation, Subcomponent,
    SubcomponentType, Validator, ValidatorType,
};

verus! {

/// The items of an optional list, an unset list counting as empty.
pub open spec fn items_or_empty<T>(list: Option<Vec<T>>) -> Seq<T> {
    match list {
        Some(items) => items@,
        None => Seq::empty(),
    }
}

/// Appends `item` to `list`, making the list first when there is none.
fn push_item<T>(list: Option<Vec<T>>, item: T) -> (r: Option<Vec<T>>)
    ensures
        list_view(r) == Some(items_or_empty(list).push(item)),
{
    let mut items = match list {
        Some(items) => items,
        None => Vec::new(),
    };
    items.push(item);
    Some(items)
}

impl PlatformInfo {
    /// A platform attribute.
    pub fn new(info: &str) -> (r: PlatformInfo)
        ensures
            r.info@ == info@,
    {
        PlatformInfo { info: info.to_string() }
    }
}

impl SourceLocation {
    /// The place `line` of `file`.
    pub fn new(file: &str, line: i32) -> (r: SourceLocation)
        ensures
            r.file@ == file@,
            r.line == line,
    {
        SourceLocation { file: file.to_string(), line }
    }
}

// ---------------------------------------------------------------- logs

/// Builder for a [`Log`].
pub struct LogBuilder {
    record: Log,
}

impl Log {
    /// A builder for a log with `message`, of severity info, with no source.
    pub fn builder(message: &str) -> (r: LogBuilder)
        ensures
            r.record().message@ == message@,
            r.record().severity == LogSeverity::Info,
            r.record().source_location is None,
    {
        LogBuilder {
            record: Log {
                severity: LogSeverity::Info,
                message: message.to_string(),
                source_location: None,
            },
        }
    }
}

impl LogBuilder {
    /// The log built so far.
    pub closed spec fn record(&self) -> Log {
        self.record
    }

    /// Sets the severity.
    pub fn severity(self, value: LogSeverity) -> (r: LogBuilder)
        ensures
            r.record() == (Log { severity: value, ..self.record() }),
    {
        let mut b = self;
        b.record.severity = value;
        b
    }

    /// Sets the place in the source that the log comes from.
    pub fn source(self, file: &str, line: i32) -> (r: LogBuilder)
        ensures
            r.record().source_location is Some,
            r.record().source_location->0.file@ == file@,
            r.record().source_location->0.line == line,
            r.record() == (Log { source_location: r.record().source_location, ..self.record() }),
    {
        let mut b = self;
        b.record.source_location = Some(SourceLocation::new(file, line));
        b
    }

    /// The log.
    pub fn build(self) -> (r: Log)
        ensures
            r == self.record(),
    {
        self.record
    }
}

// ---------------------------------------------------------------- errors

/// Builder for an [`Error`].
pub struct ErrorBuilder {
    record: Error,
}

impl Error {
    /// A builder for an error with `symptom` and nothing else set.
    pub fn builder(symptom: &str) -> (r: ErrorBuilder)
        ensures
            r.record().symptom@ == symptom@,
            r.record().message is None,
            r.record().software_infos is None,
            r.record().source_location is None,
    {
        ErrorBuilder {
            record: Error {
                symptom: symptom.to_string(),
                message: None,
                software_infos: None,
                source_location: None,
            },
        }
    }
}

impl ErrorBuilder {
    /// The error built so far.
    pub closed spec fn record(&self) -> Error {
        self.record
    }

    /// Sets the message.
    pub fn message(self, value: &str) -> (r: ErrorBuilder)
        ensures
            r.record().message is Some,
            r.record().message->0@ == value@,
            r.record() == (Error { message: r.record().message, ..self.record() }),
    {
        let mut b = self;
        b.record.message = Some(value.to_string());
        b
    }

    /// Sets the place in the source that the error comes from.
    pub fn source(self, file: &str, line: i32) -> (r: ErrorBuilder)
        ensures
            r.record().source_location is Some,
            r.record().source_location->0.file@ == file@,
            r.record().source_location->0.line == line,
            r.record() == (Error { source_location: r.record().source_location, ..self.record() }),
    {
        let mut b = self;
        b.record.source_location = Some(SourceLocation::new(file, line));
        b
    }

    /// Adds a software component that the error concerns.
    pub fn add_software_info(self, info: &SoftwareInfo) -> (r: ErrorBuilder)
        ensures
            list_view(r.record().software_infos) == Some(
                items_or_empty(self.record().software_infos).push(*info),
            ),
            r.record() == (Error { software_infos: r.record().software_infos, ..self.record() }),
    {
        let mut b = self;
        let infos = b.record.software_infos;
        b.record.software_infos = push_item(infos, info.clone());
        b
    }

    /// The error.
    pub fn build(self) -> (r: Error)
        ensures
            r == self.record(),
    {
        self.record
    }
}

// ---------------------------------------------------------------- device parts

/// Builder for a [`SoftwareInfo`].
pub struct SoftwareInfoBuilder {
    record: SoftwareInfo,
}

impl SoftwareInfo {
    /// A builder for the software component `id` named `name`.
    pub fn builder(id: &str, name: &str) -> (r: SoftwareInfoBuilder)
        ensures
            r.record().id@ == id@,
            r.record().name@ == name@,
            r.record().version is None,
            r.record().revision is None,
            r.record().software_type is None,
            r.record().computer_system is None,
    {
        SoftwareInfoBuilder {
            record: SoftwareInfo {
                id: id.to_string(),
                name: name.to_string(),
                version: None,
                revision: None,
                software_type: None,
                computer_system: None,
            },
        }
    }
}

impl SoftwareInfoBuilder {
    /// The component built so far.
    pub closed spec fn record(&self) -> SoftwareInfo {
        self.record
    }

    /// Sets the version.
    pub fn version(self, value: &str) -> (r: SoftwareInfoBuilder)
        ensures
            r.record().version is Some,
            r.record().version->0@ == value@,
            r.record() == (SoftwareInfo { version: r.record().version, ..self.record() }),
    {
        let mut b = self;
        b.record.version = Some(value.to_string());
        b
    }

    /// Sets the revision.
    pub fn revision(self, value: &str) -> (r: SoftwareInfoBuilder)
        ensures
            r.record().revision is Some,
            r.record().revision->0@ == value@,
            r.record() == (SoftwareInfo { revision: r.record().revision, ..self.record() }),
    {
        let mut b = self;
        b.record.revision = Some(value.to_string());
        b
    }

    /// Sets the kind of software.
    pub fn software_type(self, value: SoftwareType) -> (r: SoftwareInfoBuilder)
        ensures
            r.record() == (SoftwareInfo { software_type: Some(value), ..self.record() }),
    {
        let mut b = self;
        b.record.software_type = Some(value);
        b
    }

    /// Sets the computer system the software runs on.
    pub fn computer_system(self, value: &str) -> (r: SoftwareInfoBuilder)
        ensures
            r.record().computer_system is Some,
            r.record().computer_system->0@ == value@,
            r.record() == (SoftwareInfo {
                computer_system: r.record().computer_system,
                ..self.record()
            }),
    {
        let mut b = self;
        b.record.computer_system = Some(value.to_string());
        b
    }

    /// The component.
    pub fn build(self) -> (r: SoftwareInfo)
        ensures
            r == self.record(),
    {
        self.record
    }
}

/// Builder for a [`HardwareInfo`].
pub struct HardwareInfoBuilder {
    record: HardwareInfo,
}

impl HardwareInfo {
    /// A builder for the hardware component `id` named `name`, with every
    /// other field unset.
    pub fn builder(id: &str, name: &str) -> (r: HardwareInfoBuilder)
        ensures
            r.record().id@ == id@,
            r.record().name@ == name@,
            r.record() == (HardwareInfo {
                id: r.record().id,
                name: r.record().name,
                version: None,
                revision: None,
                location: None,
                serial_no: None,
                part_no: None,
                manufacturer: None,
                manufacturer_part_no: None,
                odata_id: None,
                computer_system: None,
                manager: None,
            }),
    {
        HardwareInfoBuilder {
            record: HardwareInfo {
                id: id.to_string(),
                name: name.to_string(),
                version: None,
                revision: None,
                location: None,
                serial_no: None,
                part_no: None,
                manufacturer: None,
                manufacturer_part_no: None,
                odata_id: None,
                computer_system: None,
                manager: None,
            },
        }
    }
}

impl HardwareInfoBuilder {
    /// The component built so far.
    pub closed spec fn record(&self) -> HardwareInfo {
        self.record
    }

    /// Sets the version.
    pub fn version(self, value: &str) -> (r: HardwareInfoBuilder)
        ensures
            r.record().version is Some,
            r.record().version->0@ == value@,
            r.record() == (HardwareInfo { version: r.record().version, ..self.record() }),
    {
        let mut b = self;
        b.record.version = Some(value.to_string());
        b
    }

    /// Sets the revision.
    pub fn revision(self, value: &str) -> (r: HardwareInfoBuilder)
        ensures
            r.record().revision is Some,
            r.record().revision->0@ == value@,
            r.record() == (HardwareInfo { revision: r.record().revision, ..self.record() }),
    {
        let mut b = self;
        b.record.revision = Some(value.to_string());
        b
    }

    /// Sets the location.
    pub fn location(self, value: &str) -> (r: HardwareInfoBuilder)
        ensures
            r.record().location is Some,
            r.record().location->0@ == value@,
            r.record() == (HardwareInfo { location: r.record().location, ..self.record() }),
    {
        let mut b = self;
        b.record.location = Some(value.to_string());
        b
    }

    /// Sets the serial number.
    pub fn serial_no(self, value: &str) -> (r: HardwareInfoBuilder)
        ensures
            r.record().serial_no is Some,
            r.record().serial_no->0@ == value@,
            r.record() == (HardwareInfo { serial_no: r.record().serial_no, ..self.record() }),
    {
        let mut b = self;
        b.record.serial_no = Some(value.to_string());
        b
    }

    /// Sets the part number.
    pub fn part_no(self, value: &str) -> (r: HardwareInfoBuilder)
        ensures
            r.record().part_no is Some,
            r.record().part_no->0@ == value@,
            r.record() == (HardwareInfo { part_no: r.record().part_no, ..self.record() }),
    {
        let mut b = self;
        b.record.part_no = Some(value.to_string());
        b
    }

    /// Sets the manufacturer.
    pub fn manufacturer(self, value: &str) -> (r: HardwareInfoBuilder)
        ensures
            r.record().manufacturer is Some,
            r.record().manufacturer->0@ == value@,
            r.record() == (HardwareInfo { manufacturer: r.record().manufacturer, ..self.record() }),
    {
        let mut b = self;
        b.record.manufacturer = Some(value.to_string());
        b
    }

    /// Sets the manufacturer's part number.
    pub fn manufacturer_part_no(self, value: &str) -> (r: HardwareInfoBuilder)
        ensures
            r.record().manufacturer_part_no is Some,
            r.record().manufacturer_part_no->0@ == value@,
            r.record() == (HardwareInfo {
                manufacturer_part_no: r.record().manufacturer_part_no,
                ..self.record()
            }),
    {
        let mut b = self;
        b.record.manufacturer_part_no = Some(value.to_string());
        b
    }

    /// Sets the Redfish id of the component.
    pub fn odata_id(self, value: &str) -> (r: HardwareInfoBuilder)
        ensures
            r.record().odata_id is Some,
            r.record().odata_id->0@ == value@,
            r.record() == (HardwareInfo { odata_id: r.record().odata_id, ..self.record() }),
    {
        let mut b = self;
        b.record.odata_id = Some(value.to_string());
        b
    }

    /// Sets the computer system the component belongs to.
    pub fn computer_system(self, value: &str) -> (r: HardwareInfoBuilder)
        ensures
            r.record().computer_system is Some,
            r.record().computer_system->0@ == value@,
            r.record() == (HardwareInfo {
                computer_system: r.record().computer_system,
                ..self.record()
            }),
    {
        let mut b = self;
        b.record.computer_system = Some(value.to_string());
        b
    }

    /// Sets the manager of the component.
    pub fn manager(self, value: &str) -> (r: HardwareInfoBuilder)
        ensures
            r.record().manager is Some,
            r.record().manager->0@ == value@,
            r.record() == (HardwareInfo { manager: r.record().manager, ..self.record() }),
    {
        let mut b = self;
        b.record.manager = Some(value.to_string());
        b
    }

    /// The component.
    pub fn build(self) -> (r: HardwareInfo)
        ensures
            r == self.record(),
    {
        self.record
    }
}

/// Builder for a [`Subcomponent`].
pub struct SubcomponentBuilder {
    record: Subcomponent,
}

impl Subcomponent {
    /// A builder for the subcomponent `name` with every other field unset.
    pub fn builder(name: &str) -> (r: SubcomponentBuilder)
        ensures
            r.record().name@ == name@,
            r.record().subcomponent_type is None,
            r.record().location is None,
            r.record().version is None,
            r.record().revision is None,
    {
        SubcomponentBuilder {
            record: Subcomponent {
                subcomponent_type: None,
                name: name.to_string(),
                location: None,
                version: None,
                revision: None,
            },
        }
    }
}

impl SubcomponentBuilder {
    /// The subcomponent built so far.
    pub closed spec fn record(&self) -> Subcomponent {
        self.record
    }

    /// Sets the kind of subcomponent.
    pub fn subcomponent_type(self, value: SubcomponentType) -> (r: SubcomponentBuilder)
        ensures
            r.record() == (Subcomponent { subcomponent_type: Some(value), ..self.record() }),
    {
        let mut b = self;
        b.record.subcomponent_type = Some(value);
        b
    }

    /// Sets the location.
    pub fn location(self, value: &str) -> (r: SubcomponentBuilder)
        ensures
            r.record().location is Some,
            r.record().location->0@ == value@,
            r.record() == (Subcomponent { location: r.record().location, ..self.record() }),
    {
        let mut b = self;
        b.record.location = Some(value.to_string());
        b
    }

    /// Sets the version.
    pub fn version(self, value: &str) -> (r: SubcomponentBuilder)
        ensures
            r.record().version is Some,
            r.record().version->0@ == value@,
            r.record() == (Subcomponent { version: r.record().version, ..self.record() }),
    {
        let mut b = self;
        b.record.version = Some(value.to_string());
        b
    }

    /// Sets the revision.
    pub fn revision(self, value: &str) -> (r: SubcomponentBuilder)
        ensures
            r.record().revision is Some,
            r.record().revision->0@ == value@,
            r.record() == (Subcomponent { revision: r.record().revision, ..self.record() }),
    {
        let mut b = self;
        b.record.revision = Some(value.to_string());
        b
    }

    /// The subcomponent.
    pub fn build(self) -> (r: Subcomponent)
        ensures
            r == self.record(),
    {
        self.record
    }
}

/// Builder for a [`DutInfo`].
pub struct DutInfoBuilder {
    record: DutInfo,
}

impl DutInfo {
    /// A device known by its id alone.
    pub fn new(id: &str) -> (r: DutInfo)
        ensures
            r.id@ == id@,
            r.name is None,
            r.platform_infos is None,
            r.software_infos is None,
            r.hardware_infos is None,
            r.metadata is None,
    {
        DutInfo {
            id: id.to_string(),
            name: None,
            platform_infos: None,
            software_infos: None,
            hardware_infos: None,
            metadata: None,
        }
    }

    /// A builder for the device `id` with every other field unset.
    pub fn builder(id: &str) -> (r: DutInfoBuilder)
        ensures
            r.record().id@ == id@,
            r.record().name is None,
            r.record().platform_infos is None,
            r.record().software_infos is None,
            r.record().hardware_infos is None,
            r.record().metadata is None,
    {
        DutInfoBuilder { record: DutInfo::new(id) }
    }
}

impl DutInfoBuilder {
    /// The description built so far.
    pub closed spec fn record(&self) -> DutInfo {
        self.record
    }

    /// Sets the name of the device.
    pub fn name(self, value: &str) -> (r: DutInfoBuilder)
        ensures
            r.record().name is Some,
            r.record().name->0@ == value@,
            r.record() == (DutInfo { name: r.record().name, ..self.record() }),
    {
        let mut b = self;
        b.record.name = Some(value.to_string());
        b
    }

    /// Adds a platform attribute.
    pub fn add_platform_info(self, info: &PlatformInfo) -> (r: DutInfoBuilder)
        ensures
            list_view(r.record().platform_infos) == Some(
                items_or_empty(self.record().platform_infos).push(*info),
            ),
            r.record() == (DutInfo { platform_infos: r.record().platform_infos, ..self.record() }),
    {
        let mut b = self;
        let infos = b.record.platform_infos;
        b.record.platform_infos = push_item(infos, info.clone());
        b
    }

    /// Adds a software component.
    pub fn add_software_info(self, info: &SoftwareInfo) -> (r: DutInfoBuilder)
        ensures
            list_view(r.record().software_infos) == Some(
                items_or_empty(self.record().software_infos).push(*info),
            ),
            r.record() == (DutInfo { software_infos: r.record().software_infos, ..self.record() }),
    {
        let mut b = self;
        let infos = b.record.software_infos;
        b.record.software_infos = push_item(infos, info.clone());
        b
    }

    /// Adds a hardware component.
    pub fn add_hardware_info(self, info: &HardwareInfo) -> (r: DutInfoBuilder)
        ensures
            list_view(r.record().hardware_infos) == Some(
                items_or_empty(self.record().hardware_infos).push(*info),
            ),
            r.record() == (DutInfo { hardware_infos: r.record().hardware_infos, ..self.record() }),
    {
        let mut b = self;
        let infos = b.record.hardware_infos;
        b.record.hardware_infos = push_item(infos, info.clone());
        b
    }

    /// Adds the metadata entry `key` with `value`, replacing one of that key.
    pub fn add_metadata(self, key: &str, value: serde_json::Value) -> (r: DutInfoBuilder)
        ensures
            map_view(r.record().metadata) == with_entry(self.record().metadata, key@, value),
            r.record() == (DutInfo { metadata: r.record().metadata, ..self.record() }),
    {
        let mut b = self;
        let metadata = b.record.metadata;
        b.record.metadata = Some(insert_entry(metadata, key, value));
        b
    }

    /// The description.
    pub fn build(self) -> (r: DutInfo)
        ensures
            r == self.record(),
    {
        self.record
    }
}

// ---------------------------------------------------------------- measurements

/// Builder for a [`Validator`].
pub struct ValidatorBuilder {
    record: Validator,
}

impl Validator {
    /// A builder for a validator of kind `validator_type` against `value`, with
    /// no name and no metadata.
    pub fn builder(validator_type: ValidatorType, value: serde_json::Value) -> (r:
        ValidatorBuilder)
        ensures
            r.record() == (Validator { name: None, validator_type, value, metadata: None }),
    {
        ValidatorBuilder { record: Validator { name: None, validator_type, value, metadata: None } }
    }
}

impl ValidatorBuilder {
    /// The validator built so far.
    pub closed spec fn record(&self) -> Validator {
        self.record
    }

    /// Sets the name.
    pub fn name(self, value: &str) -> (r: ValidatorBuilder)
        ensures
            r.record().name is Some,
            r.record().name->0@ == value@,
            r.record() == (Validator { name: r.record().name, ..self.record() }),
    {
        let mut b = self;
        b.record.name = Some(value.to_string());
        b
    }

    /// Adds the metadata entry `key` with `value`, replacing one of that key.
    pub fn add_metadata(self, key: &str, value: serde_json::Value) -> (r: ValidatorBuilder)
        ensures
            map_view(r.record().metadata) == with_entry(self.record().metadata, key@, value),
            r.record() == (Validator { metadata: r.record().metadata, ..self.record() }),
    {
        let mut b = self;
        let metadata = b.record.metadata;
        b.record.metadata = Some(insert_entry(metadata, key, value));
        b
    }

    /// The validator.
    pub fn build(self) -> (r: Validator)
        ensures
            r == self.record(),
    {
        self.record
    }
}

/// Builder for a [`Measurement`].
pub struct MeasurementBuilder {
    record: Measurement,
}

impl Measurement {
    /// A measurement of `value` named `name`, with nothing else set.
    pub fn new(name: &str, value: serde_json::Value) -> (r: Measurement)
        ensures
            r.name@ == name@,
            r == (Measurement {
                name: r.name,
                value,
                unit: None,
                validators: None,
                hardware_info_id: None,
                subcomponent: None,
                metadata: None,
            }),
    {
        Measurement {
            name: name.to_string(),
            value,
            unit: None,
            validators: None,
            hardware_info_id: None,
            subcomponent: None,
            metadata: None,
        }
    }

    /// A builder that starts from [`Measurement::new`].
    pub fn builder(name: &str, value: serde_json::Value) -> (r: MeasurementBuilder)
        ensures
            r.record().name@ == name@,
            r.record() == (Measurement {
                name: r.record().name,
                value,
                unit: None,
                validators: None,
                hardware_info_id: None,
                subcomponent: None,
                metadata: None,
            }),
    {
        MeasurementBuilder { record: Measurement::new(name, value) }
    }
}

impl MeasurementBuilder {
    /// The measurement built so far.
    pub closed spec fn record(&self) -> Measurement {
        self.record
    }

    /// Sets the unit.
    pub fn unit(self, value: &str) -> (r: MeasurementBuilder)
        ensures
            r.record().unit is Some,
            r.record().unit->0@ == value@,
            r.record() == (Measurement { unit: r.record().unit, ..self.record() }),
    {
        let mut b = self;
        b.record.unit = Some(value.to_string());
        b
    }

    /// Adds a validator.
    pub fn add_validator(self, validator: &Validator) -> (r: MeasurementBuilder)
        ensures
            list_view(r.record().validators) == Some(
                items_or_empty(self.record().validators).push(*validator),
            ),
            r.record() == (Measurement { validators: r.record().validators, ..self.record() }),
    {
        let mut b = self;
        let validators = b.record.validators;
        b.record.validators = push_item(validators, validator.clone());
        b
    }

    /// Sets the hardware component measured; the record keeps its id.
    pub fn hardware_info(self, info: &HardwareInfo) -> (r: MeasurementBuilder)
        ensures
            r.record() == (Measurement { hardware_info_id: Some(info.id), ..self.record() }),
    {
        let mut b = self;
        b.record.hardware_info_id = Some(info.id.clone());
        b
    }

    /// Sets the subcomponent measured.
    pub fn subcomponent(self, subcomponent: &Subcomponent) -> (r: MeasurementBuilder)
        ensures
            r.record() == (Measurement { subcomponent: Some(*subcomponent), ..self.record() }),
    {
        let mut b = self;
        b.record.subcomponent = Some(subcomponent.clone());
        b
    }

    /// Adds the metadata entry `key` with `value`, replacing one of that key.
    pub fn add_metadata(self, key: &str, value: serde_json::Value) -> (r: MeasurementBuilder)
        ensures
            map_view(r.record().metadata) == with_entry(self.record().metadata, key@, value),
            r.record() == (Measurement { metadata: r.record().metadata, ..self.record() }),
    {
        let mut b = self;
        let metadata = b.record.metadata;
        b.record.metadata = Some(insert_entry(metadata, key, value));
        b
    }

    /// The measurement.
    pub fn build(self) -> (r: Measurement)
        ensures
            r == self.record(),
    {
        self.record
    }
}

/// Builder for a [`MeasurementSeriesStart`].
pub struct MeasurementSeriesStartBuilder {
    record: MeasurementSeriesStart,
}

impl MeasurementSeriesStart {
    /// The start of the series `series_id` named `name`, with nothing else set.
    pub fn new(name: &str, series_id: &str) -> (r: MeasurementSeriesStart)
        ensures
            r.name@ == name@,
            r.series_id@ == series_id@,
            r == (MeasurementSeriesStart {
                name: r.name,
                unit: None,
                series_id: r.series_id,
                validators: None,
                hardware_info: None,
                subcomponent: None,
                metadata: None,
            }),
    {
        MeasurementSeriesStart {
            name: name.to_string(),
            unit: None,
            series_id: series_id.to_string(),
            validators: None,
            hardware_info: None,
            subcomponent: None,
            metadata: None,
        }
    }

    /// A builder that starts from [`MeasurementSeriesStart::new`].
    pub fn builder(name: &str, series_id: &str) -> (r: MeasurementSeriesStartBuilder)
        ensures
            r.record().name@ == name@,
            r.record().series_id@ == series_id@,
            r.record() == (MeasurementSeriesStart {
                name: r.record().name,
                unit: None,
                series_id: r.record().series_id,
                validators: None,
                hardware_info: None,
                subcomponent: None,
                metadata: None,
            }),
    {
        MeasurementSeriesStartBuilder { record: MeasurementSeriesStart::new(name, series_id) }
    }
}

impl MeasurementSeriesStartBuilder {
    /// The series start built so far.
    pub closed spec fn record(&self) -> MeasurementSeriesStart {
        self.record
    }

    /// Sets the unit.
    pub fn unit(self, value: &str) -> (r: MeasurementSeriesStartBuilder)
        ensures
            r.record().unit is Some,
            r.record().unit->0@ == value@,
            r.record() == (MeasurementSeriesStart { unit: r.record().unit, ..self.record() }),
    {
        let mut b = self;
        b.record.unit = Some(value.to_string());
        b
    }

    /// Adds a validator.
    pub fn add_validator(self, validator: &Validator) -> (r: MeasurementSeriesStartBuilder)
        ensures
            list_view(r.record().validators) == Some(
                items_or_empty(self.record().validators).push(*validator),
            ),
            r.record() == (MeasurementSeriesStart {
                validators: r.record().validators,
                ..self.record()
            }),
    {
        let mut b = self;
        let validators = b.record.validators;
        b.record.validators = push_item(validators, validator.clone());
        b
    }

    /// Sets the hardware component measured.
    pub fn hardware_info(self, info: &HardwareInfo) -> (r: MeasurementSeriesStartBuilder)
        ensures
            r.record() == (MeasurementSeriesStart { hardware_info: Some(*info), ..self.record() }),
    {
        let mut b = self;
        b.record.hardware_info = Some(info.clone());
        b
    }

    /// Sets the subcomponent measured.
    pub fn subcomponent(self, subcomponent: &Subcomponent) -> (r: MeasurementSeriesStartBuilder)
        ensures
            r.record() == (MeasurementSeriesStart {
                subcomponent: Some(*subcomponent),
                ..self.record()
            }),
    {
        let mut b = self;
        b.record.subcomponent = Some(subcomponent.clone());
        b
    }

    /// Adds the metadata entry `key` with `value`, replacing one of that key.
    pub fn add_metadata(self, key: &str, value: serde_json::Value) -> (r:
        MeasurementSeriesStartBuilder)
        ensures
            map_view(r.record().metadata) == with_entry(self.record().metadata, key@, value),
            r.record() == (MeasurementSeriesStart { metadata: r.record().metadata, ..self.record() }),
    {
        let mut b = self;
        let metadata = b.record.metadata;
        b.record.metadata = Some(insert_entry(metadata, key, value));
        b
    }

    /// The series start.
    pub fn build(self) -> (r: MeasurementSeriesStart)
        ensures
            r == self.record(),
    {
        self.record
    }
}

} // verus!
