//! Wire-level query shape, its normalization into domain filters, and the
//! response envelopes returned to clients.

use vstd::prelude::*;
use vstd::string::StringExecFns;

verus! {

/// Declares `serde_json::Value` to the verifier so that the explanation
/// envelope can carry the backend's opaque structured payload through
/// unchanged; nothing inside the value is relied on.
#[verifier::external_type_specification]
#[verifier::external_body]
pub struct ExValue(serde_json::Value);

/// A geographic coordinate, held as a pair of fixed-point degree values
/// (millionths of a degree), latitude first.
#[derive(Debug, Clone, Copy, PartialEq, Eq, Structural)]
pub struct Coord {
    pub lat: i64,
    pub lon: i64,
}

impl Coord {
    pub fn new(lat: i64, lon: i64) -> (c: Coord)
        ensures
            c.lat == lat,
            c.lon == lon,
    {
        Coord { lat, lon }
    }
}

/// The untyped query parameters of a geocode request, exactly as they come
/// off the wire: a required free-text query and independently optional
/// filter fields. `lat`/`lon` and `shape`/`shape_scope` are joint fields:
/// each pair is only meaningful when both halves are present.
#[derive(Debug, Clone, PartialEq)]
pub struct InputQuery {
    pub q: String,
    pub lat: Option<i64>,
    pub lon: Option<i64>,
    pub shape: Option<String>,
    pub shape_scope: Option<Vec<String>>,
    pub datasets: Option<Vec<String>>,
    pub zone_types: Option<Vec<String>>,
    pub poi_types: Option<Vec<String>>,
}

impl Default for InputQuery {
    fn default() -> (d: InputQuery)
        ensures
            d.q@ == Seq::<char>::empty(),
            d.lat is None,
            d.lon is None,
            d.shape is None,
            d.shape_scope is None,
            d.datasets is None,
            d.zone_types is None,
            d.poi_types is None,
    {
        InputQuery {
            q: String::new(),
            lat: None,
            lon: None,
            shape: None,
            shape_scope: None,
            datasets: None,
            zone_types: None,
            poi_types: None,
        }
    }
}

/// The normalized, backend-agnostic form of a request's constraints.
/// `coord` and `shape` are present exactly when both halves of the
/// corresponding joint input pair were present; a partial pair collapses
/// silently to absent.
#[derive(Debug, Clone, PartialEq)]
pub struct Filters {
    pub coord: Option<Coord>,
    pub shape: Option<(String, Vec<String>)>,
    pub datasets: Option<Vec<String>>,
    pub zone_types: Option<Vec<String>>,
    pub poi_types: Option<Vec<String>>,
}

/// What normalization yields for a given input: the joint-field collapse
/// applied to the coordinate pair and to the shape pair, every other field
/// passed through unchanged.
pub open spec fn normalize_spec(query: InputQuery) -> Filters {
    Filters {
        coord: match (query.lat, query.lon) {
            (Some(lat), Some(lon)) => Some(Coord { lat, lon }),
            _ => None,
        },
        shape: match (query.shape, query.shape_scope) {
            (Some(shape), Some(shape_scope)) => Some((shape, shape_scope)),
            _ => None,
        },
        datasets: query.datasets,
        zone_types: query.zone_types,
        poi_types: query.poi_types,
    }
}

impl vstd::std_specs::convert::FromSpecImpl<InputQuery> for Filters {
    open spec fn obeys_from_spec() -> bool {
        true
    }

    open spec fn from_spec(query: InputQuery) -> Filters {
        normalize_spec(query)
    }
}

impl From<InputQuery> for Filters {
    /// Normalization itself: total, deterministic, side-effect free.
    fn from(query: InputQuery) -> (filters: Filters)
        ensures
            filters == normalize_spec(query),
    {
        Filters {
            coord: match (query.lat, query.lon) {
                (Some(lat), Some(lon)) => Some(Coord::new(lat, lon)),
                _ => None,
            },
            shape: match (query.shape, query.shape_scope) {
                (Some(shape), Some(shape_scope)) => Some((shape, shape_scope)),
                _ => None,
            },
            datasets: query.datasets,
            zone_types: query.zone_types,
            poi_types: query.poi_types,
        }
    }
}

/// A partial coordinate pair collapses: when exactly one of `lat`/`lon`
/// is present, the normalized filters carry no coordinate.
pub proof fn lemma_partial_coord_collapses(query: InputQuery)
    requires
        (query.lat is Some) != (query.lon is Some),
    ensures
        normalize_spec(query).coord is None,
{
}

/// A full coordinate pair passes through: when both `lat` and `lon` are
/// present, the normalized filters carry exactly that coordinate.
pub proof fn lemma_full_coord_kept(query: InputQuery)
    requires
        query.lat is Some,
        query.lon is Some,
    ensures
        normalize_spec(query).coord == Some((Coord { lat: query.lat->0, lon: query.lon->0 })),
{
}

/// A partial shape pair collapses: when exactly one of `shape`/
/// `shape_scope` is present, the normalized filters carry no shape.
pub proof fn lemma_partial_shape_collapses(query: InputQuery)
    requires
        (query.shape is Some) != (query.shape_scope is Some),
    ensures
        normalize_spec(query).shape is None,
{
}

/// A full shape pair passes through: when both `shape` and `shape_scope`
/// are present, the normalized filters carry exactly that pair.
pub proof fn lemma_full_shape_kept(query: InputQuery)
    requires
        query.shape is Some,
        query.shape_scope is Some,
    ensures
        normalize_spec(query).shape == Some((query.shape->0, query.shape_scope->0)),
{
}

/// Normalization has no hidden state: equal inputs normalize to equal
/// filters, so running it twice on the same value yields the same result.
pub proof fn lemma_normalize_deterministic(a: InputQuery, b: InputQuery)
    requires
        a == b,
    ensures
        normalize_spec(a) == normalize_spec(b),
{
}

/// A list of result documents together with their count; the count is
/// derived from the list at construction and can never drift from it.
#[derive(Debug, Clone, PartialEq)]
pub struct SearchResponseBody<D> {
    pub docs: Vec<D>,
    pub docs_count: usize,
}

impl<D> vstd::std_specs::convert::FromSpecImpl<Vec<D>> for SearchResponseBody<D> {
    open spec fn obeys_from_spec() -> bool {
        true
    }

    open spec fn from_spec(values: Vec<D>) -> SearchResponseBody<D> {
        SearchResponseBody { docs_count: values@.len() as usize, docs: values }
    }
}

impl<D> From<Vec<D>> for SearchResponseBody<D> {
    /// Builds the list envelope; the document order is kept and the count
    /// is the list's length.
    fn from(values: Vec<D>) -> (body: SearchResponseBody<D>)
        ensures
            body.docs == values,
            body.docs_count == values@.len(),
    {
        SearchResponseBody { docs_count: values.len(), docs: values }
    }
}

/// In every list envelope the count equals the length of the document
/// list, for any input sequence including the empty one.
pub proof fn lemma_docs_count_matches<D>(values: Vec<D>)
    requires
        values@.len() <= usize::MAX,
    ensures
        (<SearchResponseBody<D> as vstd::std_specs::convert::FromSpec<Vec<D>>>::from_spec(values)).docs_count
            == (<SearchResponseBody<D> as vstd::std_specs::convert::FromSpec<Vec<D>>>::from_spec(values)).docs@.len(),
{
}

/// A single opaque structured payload explaining a backend decision,
/// passed through to the client unchanged.
#[derive(Debug)]
pub struct ExplainResponseBody {
    pub explanation: serde_json::Value,
}

impl vstd::std_specs::convert::FromSpecImpl<serde_json::Value> for ExplainResponseBody {
    open spec fn obeys_from_spec() -> bool {
        true
    }

    open spec fn from_spec(explanation: serde_json::Value) -> ExplainResponseBody {
        ExplainResponseBody { explanation }
    }
}

impl From<serde_json::Value> for ExplainResponseBody {
    /// Builds the explanation envelope around the payload, unchanged.
    fn from(explanation: serde_json::Value) -> (body: ExplainResponseBody)
        ensures
            body.explanation == explanation,
    {
        ExplainResponseBody { explanation }
    }
}

/// The backend's self-reported condition: a health indicator and the
/// version string it reports.
#[derive(Debug, Clone, PartialEq)]
pub struct StorageStatus {
    pub health: StorageHealth,
    pub version: String,
}

/// Whether the backend answered its health probe.
#[derive(Debug, Clone, Copy, PartialEq, Eq, Structural)]
pub enum StorageHealth {
    Available,
    Unavailable,
}

/// The label under which a health state is reported to clients.
pub open spec fn health_label_spec(health: StorageHealth) -> Seq<char> {
    match health {
        StorageHealth::Available => "available"@,
        StorageHealth::Unavailable => "unavailable"@,
    }
}

impl StorageHealth {
    /// The client-facing text for this health state.
    pub fn label(&self) -> (s: String)
        ensures
            s@ == health_label_spec(*self),
    {
        match self {
            StorageHealth::Available => String::from_str("available"),
            StorageHealth::Unavailable => String::from_str("unavailable"),
        }
    }
}

/// The gateway's own version string, reported in every status envelope.
pub open spec fn gateway_version_spec() -> Seq<char> {
    "1.15.0"@
}

/// The gateway's own version string; never empty.
pub fn gateway_version() -> (v: String)
    ensures
        v@ == gateway_version_spec(),
        v@.len() > 0,
{
    proof {
        reveal_strlit("1.15.0");
    }
    String::from_str("1.15.0")
}

/// The health payload returned by the status endpoint: backend health,
/// backend version, and the gateway's own version — three independent
/// fields.
#[derive(Debug, Clone, PartialEq)]
pub struct StatusResponseBody {
    pub status: String,
    pub elasticsearch_version: String,
    pub bragi_version: String,
}

impl vstd::std_specs::convert::FromSpecImpl<StorageStatus> for StatusResponseBody {
    open spec fn obeys_from_spec() -> bool {
        false
    }

    open spec fn from_spec(status: StorageStatus) -> StatusResponseBody {
        arbitrary()
    }
}

impl From<StorageStatus> for StatusResponseBody {
    /// Builds the status envelope: the health label and backend version
    /// come from the probe result, and the gateway version is always the
    /// gateway's own, non-empty, whatever the backend reported.
    fn from(status: StorageStatus) -> (body: StatusResponseBody)
        ensures
            body.status@ == health_label_spec(status.health),
            body.elasticsearch_version == status.version,
            body.bragi_version@ == gateway_version_spec(),
            body.bragi_version@.len() > 0,
    {
        StatusResponseBody {
            status: status.health.label(),
            elasticsearch_version: status.version,
            bragi_version: gateway_version(),
        }
    }
}

} // verus!
