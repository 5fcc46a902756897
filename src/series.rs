//! Measurement series: a named group of measured values, bounded by a start
//! and an end record, whose elements are numbered from zero.
use vstd::prelude::*;

use crate::json::{entries, insert_entry, no_entries};
use crate::run::StartedTestRun;
use crate::spec;
use crate::spec::{map_view, RootImpl, TestStepArtifactImpl, Timestamp};
use crate::step::{is_step_record, step_payload, step_record};

verus! {

/// The entries of a map made by inserting the pairs of `pairs` in order, a
/// later pair replacing an earlier one of the same key.
pub open spec fn entries_from(pairs: Seq<(&str, serde_json::Value)>) -> Map<
    Seq<char>,
    serde_json::Value,
>
    decreases pairs.len(),
{
    if pairs.len() == 0 {
        no_entries()
    } else {
        entries_from(pairs.drop_last()).insert(pairs.last().0@, pairs.last().1)
    }
}

/// A series of measurements under a step, not yet started.
pub struct MeasurementSeries {
    step_id: String,
    start: spec::MeasurementSeriesStart,
}

impl MeasurementSeries {
    /// The id of the step the series belongs to.
    pub closed spec fn step_id(&self) -> String {
        self.step_id
    }

    /// The start record the series emits.
    pub closed spec fn start_record(&self) -> spec::MeasurementSeriesStart {
        self.start
    }

    pub(crate) fn new(step_id: String, start: spec::MeasurementSeriesStart) -> (r:
        MeasurementSeries)
        ensures
            r.step_id() == step_id,
            r.start_record() == start,
    {
        MeasurementSeries { step_id, start }
    }

    /// Starts the series: emits its start record on `run`. Its elements will
    /// be numbered from zero.
    pub fn start(self, run: &mut StartedTestRun, now: Timestamp) -> (r: StartedMeasurementSeries)
        requires
            old(run).wf(),
            old(run).emitted().len() < u64::MAX,
        ensures
            old(run).appended_one(final(run), now),
            final(run).emitted().last().artifact == step_record(
                self.step_id(),
                TestStepArtifactImpl::MeasurementSeriesStart(self.start_record()),
            ),
            r.step_id() == self.step_id(),
            r.series_id() == self.start_record().series_id,
            r.count() == 0,
    {
        let series_id = self.start.series_id.clone();
        let step_id = self.step_id;
        let record = spec::TestStepArtifact {
            id: step_id.clone(),
            artifact: TestStepArtifactImpl::MeasurementSeriesStart(self.start),
        };
        run.emit(RootImpl::TestStepArtifact(record), now);
        StartedMeasurementSeries { step_id, series_id, seq_no: 0 }
    }
}

/// A series that has been started.
pub struct StartedMeasurementSeries {
    step_id: String,
    series_id: String,
    seq_no: u64,
}

impl StartedMeasurementSeries {
    /// The id of the step the series belongs to.
    pub closed spec fn step_id(&self) -> String {
        self.step_id
    }

    /// The id of the series.
    pub closed spec fn series_id(&self) -> String {
        self.series_id
    }

    /// How many elements the series has emitted; also the index of the next.
    pub closed spec fn count(&self) -> nat {
        self.seq_no as nat
    }

    /// How many more elements the series can number.
    pub fn elements_left(&self) -> (r: u64)
        ensures
            r == u64::MAX - self.count(),
    {
        u64::MAX - self.seq_no
    }

    fn emit(&self, run: &mut StartedTestRun, artifact: TestStepArtifactImpl, now: Timestamp)
        requires
            old(run).wf(),
            old(run).emitted().len() < u64::MAX,
        ensures
            old(run).appended_one(final(run), now),
            final(run).emitted().last().artifact == step_record(self.step_id(), artifact),
    {
        let record = spec::TestStepArtifact { id: self.step_id.clone(), artifact };
        run.emit(RootImpl::TestStepArtifact(record), now);
    }

    /// Emits `value` as the next element, with no metadata.
    pub fn add_measurement(&mut self, run: &mut StartedTestRun, value: serde_json::Value, now: Timestamp)
        requires
            old(run).wf(),
            old(run).emitted().len() < u64::MAX,
            old(self).count() < u64::MAX,
        ensures
            old(run).appended_one(final(run), now),
            final(run).emitted().last().artifact == step_record(
                old(self).step_id(),
                TestStepArtifactImpl::MeasurementSeriesElement(
                    spec::MeasurementSeriesElement {
                        index: old(self).count() as u64,
                        value,
                        timestamp: now,
                        series_id: old(self).series_id(),
                        metadata: None,
                    },
                ),
            ),
            final(self).step_id() == old(self).step_id(),
            final(self).series_id() == old(self).series_id(),
            final(self).count() == old(self).count() + 1,
    {
        self.add_element(run, value, None, now);
    }

    /// Emits `value` as the next element, with the metadata made of the pairs
    /// of `metadata` in order.
    pub fn add_measurement_with_metadata(
        &mut self,
        run: &mut StartedTestRun,
        value: serde_json::Value,
        metadata: Vec<(&str, serde_json::Value)>,
        now: Timestamp,
    )
        requires
            old(run).wf(),
            old(run).emitted().len() < u64::MAX,
            old(self).count() < u64::MAX,
        ensures
            old(run).appended_one(final(run), now),
            is_step_record(final(run).emitted().last().artifact, old(self).step_id()),
            step_payload(final(run).emitted().last().artifact) is MeasurementSeriesElement,
            step_payload(final(run).emitted().last().artifact)->MeasurementSeriesElement_0.index
                == old(self).count(),
            step_payload(final(run).emitted().last().artifact)->MeasurementSeriesElement_0.value
                == value,
            step_payload(final(run).emitted().last().artifact)->MeasurementSeriesElement_0.timestamp
                == now,
            step_payload(final(run).emitted().last().artifact)->MeasurementSeriesElement_0.series_id
                == old(self).series_id(),
            map_view(
                step_payload(final(run).emitted().last().artifact)->MeasurementSeriesElement_0.metadata,
            ) == Some(entries_from(metadata@)),
            final(self).step_id() == old(self).step_id(),
            final(self).series_id() == old(self).series_id(),
            final(self).count() == old(self).count() + 1,
    {
        let mut map = serde_json::Map::new();
        let mut i: usize = 0;
        while i < metadata.len()
            invariant
                0 <= i <= metadata.len(),
                entries(map) == entries_from(metadata@.subrange(0, i as int)),
            decreases metadata.len() - i,
        {
            let (key, v) = &metadata[i];
            let entry_value = v.clone();
            map = insert_entry(Some(map), key, entry_value);
            assert(metadata@.subrange(0, i as int + 1).drop_last() =~= metadata@.subrange(
                0,
                i as int,
            ));
            i = i + 1;
        }
        assert(metadata@.subrange(0, metadata.len() as int) =~= metadata@);
        self.add_element(run, value, Some(map), now);
    }

    fn add_element(
        &mut self,
        run: &mut StartedTestRun,
        value: serde_json::Value,
        metadata: Option<serde_json::Map<String, serde_json::Value>>,
        now: Timestamp,
    )
        requires
            old(run).wf(),
            old(run).emitted().len() < u64::MAX,
            old(self).count() < u64::MAX,
        ensures
            old(run).appended_one(final(run), now),
            final(run).emitted().last().artifact == step_record(
                old(self).step_id(),
                TestStepArtifactImpl::MeasurementSeriesElement(
                    spec::MeasurementSeriesElement {
                        index: old(self).count() as u64,
                        value,
                        timestamp: now,
                        series_id: old(self).series_id(),
                        metadata,
                    },
                ),
            ),
            final(self).step_id() == old(self).step_id(),
            final(self).series_id() == old(self).series_id(),
            final(self).count() == old(self).count() + 1,
    {
        let element = spec::MeasurementSeriesElement {
            index: self.seq_no,
            value,
            timestamp: now,
            series_id: self.series_id.clone(),
            metadata,
        };
        self.emit(run, TestStepArtifactImpl::MeasurementSeriesElement(element), now);
        self.seq_no = self.seq_no + 1;
    }

    /// Ends the series: emits its end record with the number of elements.
    pub fn end(&self, run: &mut StartedTestRun, now: Timestamp)
        requires
            old(run).wf(),
            old(run).emitted().len() < u64::MAX,
        ensures
            old(run).appended_one(final(run), now),
            final(run).emitted().last().artifact == step_record(
                self.step_id(),
                TestStepArtifactImpl::MeasurementSeriesEnd(
                    spec::MeasurementSeriesEnd {
                        series_id: self.series_id(),
                        total_count: self.count() as u64,
                    },
                ),
            ),
    {
        let end = spec::MeasurementSeriesEnd {
            series_id: self.series_id.clone(),
            total_count: self.seq_no,
        };
        self.emit(run, TestStepArtifactImpl::MeasurementSeriesEnd(end), now);
    }
}

} // verus!
