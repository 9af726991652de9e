//! Endpoints, the query put to the path-lookup service, and the choice of
//! one path among those it returns.

use vstd::prelude::*;
use bytes::Bytes;
use scion_proto::path::{Path, PathParseError};
use crate::error::ProbeError;
use crate::identifier::RegionNetworkId;
use crate::outside::{convert_path, converted_path, text_of};

verus! {

/// One end of the probe: a network and a host in it.
#[derive(Debug, Clone, Copy, PartialEq, Eq)]
pub struct Endpoint {
    pub id: RegionNetworkId,
    pub host: [u8; 4],
}

/// Where the probe comes from and where it goes.
#[derive(Debug, Clone, Copy, PartialEq, Eq)]
pub struct EndpointPair {
    pub source: Endpoint,
    pub destination: Endpoint,
}

impl EndpointPair {
    pub open spec fn well_formed(&self) -> bool {
        self.source.id.well_formed() && self.destination.id.well_formed()
    }
}

/// The one question put to the path-lookup service.
#[derive(Debug, Clone, Copy, PartialEq, Eq)]
pub struct PathQuery {
    pub source: u64,
    pub destination: u64,
    pub refresh: bool,
    pub hidden: bool,
}

/// A path as the path-lookup service describes it: the raw forwarding path
/// and the address of the interface that leads to it.
#[derive(Debug, Clone, PartialEq, Eq)]
pub struct CandidatePath {
    pub raw: Vec<u8>,
    pub next_hop: Option<String>,
}

/// The query for the paths between two endpoints: freshly computed ones,
/// and none of the hidden ones.
pub fn path_query(pair: &EndpointPair) -> (q: PathQuery)
    requires
        pair.well_formed(),
    ensures
        q.source == pair.source.id.packed(),
        q.destination == pair.destination.id.packed(),
        q.refresh,
        !q.hidden,
{
    PathQuery {
        source: pair.source.id.to_u64(),
        destination: pair.destination.id.to_u64(),
        refresh: true,
        hidden: false,
    }
}

/// The candidate at `index`, counted from zero.
pub fn select_path(candidates: &Vec<CandidatePath>, index: usize) -> (r: Result<
    &CandidatePath,
    ProbeError,
>)
    ensures
        index < candidates@.len() ==> (r matches Ok(p) && *p == candidates@[index as int]),
        index >= candidates@.len() ==> (r matches Err(e) && e == (ProbeError::PathIndexOutOfRange {
            requested: index,
            available: candidates@.len() as usize,
        })),
{
    if index < candidates.len() {
        Ok(&candidates[index])
    } else {
        Err(ProbeError::PathIndexOutOfRange { requested: index, available: candidates.len() })
    }
}

/// What becomes of a converted path: kept where the conversion went well,
/// else reported as a conversion error.
pub fn conversion_outcome(converted: Result<Path<Bytes>, PathParseError>) -> (r: Result<
    Path<Bytes>,
    ProbeError,
>)
    ensures
        converted matches Ok(p) ==> r == Ok::<Path<Bytes>, ProbeError>(p),
        converted is Err ==> r == Err::<Path<Bytes>, ProbeError>(ProbeError::PathConversionError),
{
    match converted {
        Ok(p) => Ok(p),
        Err(_) => Err(ProbeError::PathConversionError),
    }
}

/// What a candidate becomes between two endpoints: the path that the
/// conversion makes of it, or a conversion error where it refuses.
pub open spec fn resolved(candidate: CandidatePath, pair: EndpointPair) -> Result<
    Path<Bytes>,
    ProbeError,
> {
    match converted_path(
        candidate.raw@,
        text_of(candidate.next_hop),
        pair.source.id.packed() as u64,
        pair.destination.id.packed() as u64,
    ) {
        Some(path) => Ok(path),
        None => Err(ProbeError::PathConversionError),
    }
}

/// Selects the candidate at `index` and binds it to the endpoints. An index
/// that is out of range is reported before anything is converted.
pub fn resolve_path(candidates: &Vec<CandidatePath>, index: usize, pair: &EndpointPair) -> (r:
    Result<Path<Bytes>, ProbeError>)
    requires
        pair.well_formed(),
    ensures
        index >= candidates@.len() ==> (r matches Err(e) && e == (ProbeError::PathIndexOutOfRange {
            requested: index,
            available: candidates@.len() as usize,
        })),
        index < candidates@.len() ==> r == resolved(candidates@[index as int], *pair),
        index < candidates@.len() && candidates@[index as int].raw@.len() == 0
            && pair.source.id.packed() != pair.destination.id.packed() ==> r is Err,
        index < candidates@.len() && candidates@[index as int].raw@.len() > 0
            && candidates@[index as int].next_hop is None ==> r is Err,
{
    let chosen = match select_path(candidates, index) {
        Ok(p) => p,
        Err(e) => {
            return Err(e);
        },
    };
    let source = pair.source.id.to_u64();
    let destination = pair.destination.id.to_u64();
    conversion_outcome(convert_path(&chosen.raw, &chosen.next_hop, source, destination))
}

} // verus!
