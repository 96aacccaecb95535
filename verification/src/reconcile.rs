//! Reconciling the three probes into one record.
//!
//! The probes are consulted in a fixed order, each only if the record is
//! still incomplete: the container, then the stream header, then the side
//! data of the first frame. Running a probe is the caller's part; deciding
//! which one to run next, and what its output does to the record, is done
//! here.

use vstd::prelude::*;
use crate::container::{container_metadata, parse_mkvinfo};
use crate::error::Error;
use crate::metadata::{HdrMetadata, Metadata};
use crate::sidedata::{parse_ffprobe, side_data_metadata};
use crate::stream::{parse_mediainfo, stream_metadata};

verus! {

/// A probe.
#[derive(Clone, Copy, Debug, PartialEq, Eq, Structural)]
pub enum Source {
    /// The container's own headers.
    Container,
    /// The header of the video stream.
    StreamHeader,
    /// The side data of the first decoded frame.
    FrameSideData,
}

/// What the container probe found, given its output, or that it could not
/// be run.
pub open spec fn container_outcome(output: Option<Seq<u8>>) -> Result<Metadata, Error> {
    match output {
        Some(bytes) => container_metadata(bytes),
        None => Err(Error::ProbeUnavailable),
    }
}

/// What the stream header probe found, given its output, or that it could
/// not be run.
pub open spec fn stream_outcome(output: Option<Seq<u8>>) -> Result<Metadata, Error> {
    match output {
        Some(bytes) => stream_metadata(bytes),
        None => Err(Error::ProbeUnavailable),
    }
}

/// What the side-data probe found, given its output, or that it could not
/// be run.
pub open spec fn side_data_outcome(output: Option<Seq<u8>>) -> Result<
    Option<HdrMetadata>,
    Error,
> {
    match output {
        Some(bytes) => side_data_metadata(bytes),
        None => Err(Error::ProbeUnavailable),
    }
}

/// The record after the container probe: what it found, or nothing if it
/// failed. Its failure is tolerated.
pub open spec fn after_container(found: Result<Metadata, Error>) -> Metadata {
    match found {
        Ok(metadata) => metadata,
        Err(_) => Metadata::empty(),
    }
}

/// The record after the stream header probe found `found`: the basic block
/// is filled only if it was absent, and an HDR block that the probe found
/// replaces the record's as a whole.
pub open spec fn with_stream(record: Metadata, found: Metadata) -> Metadata {
    Metadata {
        basic: if record.basic is None {
            found.basic
        } else {
            record.basic
        },
        hdr: if found.hdr is Some {
            found.hdr
        } else {
            record.hdr
        },
    }
}

/// The record after the side-data probe: an HDR block that it found
/// replaces the record's; its failure is tolerated. The basic block is
/// never touched.
pub open spec fn with_side_data(record: Metadata, found: Result<Option<HdrMetadata>, Error>)
    -> Metadata {
    match found {
        Ok(Some(hdr)) => Metadata { hdr: Some(hdr), ..record },
        _ => record,
    }
}

/// The reconciled record, given what each probe found or how it failed.
///
/// The container probe seeds the record. If the record is then complete,
/// it stands. Else the stream header probe is consulted, and its failure
/// fails the whole. If the HDR block is then present with its coordinates,
/// the record stands. Else the side-data probe is consulted.
pub open spec fn merged(
    container: Result<Metadata, Error>,
    stream: Result<Metadata, Error>,
    side_data: Result<Option<HdrMetadata>, Error>,
) -> Result<Metadata, Error> {
    let first = after_container(container);
    if first.complete() {
        Ok(first)
    } else {
        match stream {
            Err(e) => Err(e),
            Ok(found) => {
                let second = with_stream(first, found);
                if second.hdr_complete() {
                    Ok(second)
                } else {
                    Ok(with_side_data(second, side_data))
                }
            },
        }
    }
}

/// The reconciled record, given the output of each probe, `None` standing
/// for a probe that could not be run.
pub open spec fn reconciled(
    container: Option<Seq<u8>>,
    stream: Option<Seq<u8>>,
    side_data: Option<Seq<u8>>,
) -> Result<Metadata, Error> {
    merged(container_outcome(container), stream_outcome(stream), side_data_outcome(side_data))
}

/// The state of a reconciliation: the record so far, the probe to run
/// next, if any, and the failure of the last probe where that failure was
/// tolerated, so that the caller can report it.
#[derive(Clone, Copy, Debug, PartialEq, Eq)]
pub struct Reconciler {
    pub next: Option<Source>,
    pub record: Metadata,
    pub warning: Option<Error>,
}

/// The failure of an outcome, if it is one.
pub open spec fn failure_of<T>(outcome: Result<T, Error>) -> Option<Error> {
    match outcome {
        Ok(_) => None,
        Err(e) => Some(e),
    }
}

/// The view of an optional byte slice.
pub open spec fn bytes_of(output: Option<&[u8]>) -> Option<Seq<u8>> {
    match output {
        Some(bytes) => Some(bytes@),
        None => None,
    }
}

impl Reconciler {
    /// The state before any probe was run: nothing known, the container
    /// probe next.
    pub open spec fn start() -> Reconciler {
        Reconciler { next: Some(Source::Container), record: Metadata::empty(), warning: None }
    }

    /// The state after the probe that was due gave `output`, or could not
    /// be run: the next state, or the error that ends the reconciliation.
    /// The warning is the failure of this probe, where it failed and the
    /// failure is tolerated. Where no probe was due, nothing changes.
    pub open spec fn fed(self, output: Option<Seq<u8>>) -> Result<Reconciler, Error> {
        match self.next {
            None => Ok(self),
            Some(Source::Container) => {
                let record = after_container(container_outcome(output));
                Ok(
                    Reconciler {
                        next: if record.complete() {
                            None
                        } else {
                            Some(Source::StreamHeader)
                        },
                        record,
                        warning: failure_of(container_outcome(output)),
                    },
                )
            },
            Some(Source::StreamHeader) => match stream_outcome(output) {
                Err(e) => Err(e),
                Ok(found) => {
                    let record = with_stream(self.record, found);
                    Ok(
                        Reconciler {
                            next: if record.hdr_complete() {
                                None
                            } else {
                                Some(Source::FrameSideData)
                            },
                            record,
                            warning: None,
                        },
                    )
                },
            },
            Some(Source::FrameSideData) => Ok(
                Reconciler {
                    next: None,
                    record: with_side_data(self.record, side_data_outcome(output)),
                    warning: failure_of(side_data_outcome(output)),
                },
            ),
        }
    }

    /// Starts a reconciliation.
    pub fn new() -> (state: Reconciler)
        ensures
            state == Reconciler::start(),
    {
        Reconciler { next: Some(Source::Container), record: Metadata::default(), warning: None }
    }

    /// The probe to run next; `None` once the record stands.
    pub fn next_source(&self) -> (source: Option<Source>)
        ensures
            source == self.next,
    {
        self.next
    }

    /// Takes the output of the probe that was due, `None` if it could not
    /// be run, and decides how to go on. A failure that is tolerated is
    /// kept as the state's warning; one that is not ends the reconciliation.
    pub fn feed(self, output: Option<&[u8]>) -> (state: Result<Reconciler, Error>)
        ensures
            state == self.fed(bytes_of(output)),
    {
        match self.next {
            None => Ok(self),
            Some(Source::Container) => {
                let found = match output {
                    Some(bytes) => parse_mkvinfo(bytes),
                    None => Err(Error::ProbeUnavailable),
                };
                let (record, warning) = match found {
                    Ok(metadata) => (metadata, None),
                    Err(e) => (Metadata::default(), Some(e)),
                };
                let next = if record.is_complete() {
                    None
                } else {
                    Some(Source::StreamHeader)
                };
                Ok(Reconciler { next, record, warning })
            },
            Some(Source::StreamHeader) => {
                let found = match output {
                    Some(bytes) => parse_mediainfo(bytes),
                    None => Err(Error::ProbeUnavailable),
                };
                match found {
                    Err(e) => Err(e),
                    Ok(found) => {
                        let record = Metadata {
                            basic: if self.record.basic.is_none() {
                                found.basic
                            } else {
                                self.record.basic
                            },
                            hdr: if found.hdr.is_some() {
                                found.hdr
                            } else {
                                self.record.hdr
                            },
                        };
                        let next = if record.is_hdr_complete() {
                            None
                        } else {
                            Some(Source::FrameSideData)
                        };
                        Ok(Reconciler { next, record, warning: None })
                    },
                }
            },
            Some(Source::FrameSideData) => {
                let found = match output {
                    Some(bytes) => parse_ffprobe(bytes),
                    None => Err(Error::ProbeUnavailable),
                };
                let (record, warning) = match found {
                    Ok(Some(hdr)) => (Metadata { basic: self.record.basic, hdr: Some(hdr) }, None),
                    Ok(None) => (self.record, None),
                    Err(e) => (self.record, Some(e)),
                };
                Ok(Reconciler { next: None, record, warning })
            },
        }
    }

    /// The record so far.
    pub fn into_metadata(self) -> (metadata: Metadata)
        ensures
            metadata == self.record,
    {
        self.record
    }
}

impl Metadata {
    /// Reconciles the outputs of the three probes, `None` standing for a
    /// probe that could not be run. The output of a probe that is not
    /// consulted plays no part.
    pub fn parse(
        container: Option<&[u8]>,
        stream: Option<&[u8]>,
        side_data: Option<&[u8]>,
    ) -> (metadata: Result<Metadata, Error>)
        ensures
            metadata == reconciled(bytes_of(container), bytes_of(stream), bytes_of(side_data)),
    {
        let first = match Reconciler::new().feed(container) {
            Ok(state) => state,
            Err(e) => {
                return Err(e);
            },
        };
        if first.next_source().is_none() {
            return Ok(first.into_metadata());
        }
        let second = match first.feed(stream) {
            Ok(state) => state,
            Err(e) => {
                return Err(e);
            },
        };
        if second.next_source().is_none() {
            return Ok(second.into_metadata());
        }
        match second.feed(side_data) {
            Ok(state) => Ok(state.into_metadata()),
            Err(e) => Err(e),
        }
    }
}

/// A complete record from the container probe stands: no other probe is
/// asked for, and what the others would have found plays no part.
pub proof fn lemma_complete_container_ends_reconciliation(
    output: Seq<u8>,
    found: Metadata,
    stream: Result<Metadata, Error>,
    side_data: Result<Option<HdrMetadata>, Error>,
)
    requires
        container_metadata(output) == Ok::<Metadata, Error>(found),
        found.complete(),
    ensures
        Reconciler::start().fed(Some(output)) == Ok::<Reconciler, Error>(
            Reconciler { next: None, record: found, warning: None },
        ),
        merged(Ok(found), stream, side_data) == Ok::<Metadata, Error>(found),
{
}

/// Where the record is not complete after the container probe, a failure
/// of the stream header probe fails the whole with that failure. This
/// holds in particular where the container probe failed.
pub proof fn lemma_stream_failure_is_fatal(
    container: Result<Metadata, Error>,
    failure: Error,
    side_data: Result<Option<HdrMetadata>, Error>,
)
    requires
        !after_container(container).complete(),
    ensures
        merged(container, Err(failure), side_data) == Err::<Metadata, Error>(failure),
        container is Err ==> merged(container, Err(failure), side_data) is Err,
{
}

/// Where the container probe fails and the stream header probe finds a
/// complete record, that record is the result: the same that stands where
/// the container probe itself finds it.
pub proof fn lemma_stream_stands_in_for_container(
    failure: Error,
    found: Metadata,
    stream: Result<Metadata, Error>,
    side_data: Result<Option<HdrMetadata>, Error>,
)
    requires
        found.complete(),
    ensures
        merged(Err(failure), Ok(found), side_data) == Ok::<Metadata, Error>(found),
        merged(Err(failure), Ok(found), side_data) == merged(Ok(found), stream, side_data),
{
}

/// The side-data probe never changes the basic block, and a run of the
/// whole that succeeds keeps every block that the record already had.
pub proof fn lemma_side_data_keeps_basic(
    record: Metadata,
    found: Result<Option<HdrMetadata>, Error>,
)
    ensures
        with_side_data(record, found).basic == record.basic,
        record.hdr is Some ==> with_side_data(record, found).hdr is Some,
{
}

/// Feeding the reconciler the output of each probe that it asks for gives
/// the reconciled record: it asks for the container probe first, for the
/// stream header probe only while the record is incomplete, and for the
/// side-data probe only while the HDR block is.
pub proof fn lemma_feeding_follows_the_policy(
    container: Option<Seq<u8>>,
    stream: Option<Seq<u8>>,
    side_data: Option<Seq<u8>>,
)
    ensures
        Reconciler::start().fed(container) is Ok,
        ({
            let first = Reconciler::start().fed(container)->Ok_0;
            match first.next {
                None => reconciled(container, stream, side_data) == Ok::<Metadata, Error>(
                    first.record,
                ),
                Some(source) => source == Source::StreamHeader && match first.fed(stream) {
                    Err(e) => reconciled(container, stream, side_data) == Err::<Metadata, Error>(e),
                    Ok(second) => match second.next {
                        None => reconciled(container, stream, side_data) == Ok::<
                            Metadata,
                            Error,
                        >(second.record),
                        Some(last) => last == Source::FrameSideData && second.fed(side_data)
                            is Ok && second.fed(side_data)->Ok_0.next is None && reconciled(
                            container,
                            stream,
                            side_data,
                        ) == Ok::<Metadata, Error>(second.fed(side_data)->Ok_0.record),
                    },
                },
            }
        }),
{
}

/// The whole fails only where the stream header probe is asked and fails,
/// and then with that probe's failure: a failure of the container probe or
/// of the side-data probe never fails the whole.
pub proof fn lemma_only_the_stream_header_probe_is_fatal(
    container: Result<Metadata, Error>,
    stream: Result<Metadata, Error>,
    side_data: Result<Option<HdrMetadata>, Error>,
)
    ensures
        stream is Ok ==> merged(container, stream, side_data) is Ok,
        merged(container, stream, side_data) is Err ==> stream is Err && merged(
            container,
            stream,
            side_data,
        )->Err_0 == stream->Err_0,
{
}

} // verus!
