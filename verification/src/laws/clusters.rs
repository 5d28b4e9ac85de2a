//! What the clusters read as.
use vstd::prelude::*;

use crate::domain::PvSnapshot;
use crate::matter::bridge::LiveAttribute;
use crate::matter::desc_tags::{
    SolarPartsMatcher, COMMON_LOCATION_NAMESPACE, COMMON_LOCATION_TAG_INSIDE,
    POWER_SOURCE_NAMESPACE, POWER_SOURCE_TAG_GRID,
};
use crate::matter::eem::{
    ENERGY_ACCURACY_MWH, ENERGY_MAX_MWH, ENERGY_MIN_MWH, MATTER_EPOCH_SECS,
};
use crate::matter::epm::{
    accuracy_rows, current_min, exported, power_min, rating_fits, AccuracyEntry,
    MEASUREMENT_TYPES,
};
use crate::matter::list::{ConstraintError, ListRead};
use crate::matter::node::{bound, composition, ClusterKind, Handler, DEV_TYPE_REVISION};
use crate::matter::power_source::ORDER;
use crate::matter::temperature::{TEMP_MAX_CENTI_C, TEMP_MIN_CENTI_C};

verus! {

/// What is produced reads as its negative, and what is not known as nothing.
pub proof fn law_production_reads_as_negative_import(v: i64)
    requires
        v != i64::MIN,
    ensures
        exported(Some(v)) matches Some(read) && read + v == 0,
        exported(None) is None,
{
}

/// The power bound leaves a tenth of headroom over the rating, and the current bound
/// is what carries that power at the least voltage, without its fraction.
pub proof fn law_bounds_follow_the_rating(w: i64)
    requires
        w >= 0,
    ensures
        10 * power_min(Some(w)) == -(11 * (w * 1_000)),
        current_min(Some(w)) <= 0,
        ({
            let milliamperes = -current_min(Some(w));
            milliamperes * 185_000 <= w * 1_100_000 < (milliamperes + 1) * 185_000
        }),
        power_min(None) == -30_000_000,
        current_min(None) == -30_000,
{
    let a = w * 1_100 * 1_000;
    assert(a == w * 1_100_000) by (nonlinear_arith)
        requires
            a == w * 1_100 * 1_000,
    ;
    let q = a / 185_000;
    assert(q * 185_000 <= a < (q + 1) * 185_000) by (nonlinear_arith)
        requires
            q == a / 185_000,
            a >= 0,
    ;
}

/// A negative rating has the bounds of its positive, turned round.
pub proof fn law_bounds_are_odd(w: i64)
    requires
        0 < w,
    ensures
        power_min(Some((-w) as i64)) == -power_min(Some(w)),
        current_min(Some((-w) as i64)) == -current_min(Some(w)),
{
    let n = (-w) as i64;
    assert(n * 1_100 == -(w * 1_100));
    assert(n * 1_100 * 1_000 == -(w * 1_100 * 1_000));
}

/// Bounds can be computed exactly where a million and a hundred thousand times the
/// rating is a number of 64 bits.
pub proof fn law_ratings_fit(max_power_w: Option<i64>)
    ensures
        rating_fits(max_power_w) <==> (max_power_w matches Some(w) ==> i64::MIN <= w * 1_100_000
            <= i64::MAX),
{
}

/// The rows of the accuracy: power and current up to zero from their bounds, voltage
/// and frequency around the mains, each measured, over its whole envelope, to one
/// percent.
pub proof fn law_rows_are_the_envelopes(snapshot: PvSnapshot, i: int)
    requires
        0 <= i < accuracy_rows(snapshot).len(),
        rating_fits(snapshot.max_power_w),
    ensures
        accuracy_rows(snapshot).len() == 4,
        ({
            let row = accuracy_rows(snapshot)[i];
            &&& row.measured
            &&& row.range.min == row.min
            &&& row.range.max == row.max
            &&& row.range.percent_max == Some(100u16)
            &&& row.range.fixed_max is None
            &&& i == 0 <==> row.measurement_type is ActivePower
            &&& i == 1 <==> row.measurement_type is Voltage
            &&& i == 2 <==> row.measurement_type is ActiveCurrent
            &&& i == 3 <==> row.measurement_type is Frequency
            &&& row.measurement_type is ActivePower ==> row.min == power_min(snapshot.max_power_w)
                && row.max == 0
            &&& row.measurement_type is ActiveCurrent ==> row.min == current_min(
                snapshot.max_power_w,
            ) && row.max == 0
            &&& row.measurement_type is Voltage ==> row.min == 185_000 && row.max == 275_000
            &&& row.measurement_type is Frequency ==> row.min == 45_000 && row.max == 55_000
        }),
{
    if let Some(w) = snapshot.max_power_w {
        let size: i64 = if w < 0 {
            (-w) as i64
        } else {
            w
        };
        law_bounds_follow_the_rating(size);
        if w < 0 {
            law_bounds_are_odd(size);
        }
        let m = -current_min(Some(size));
        assert(m <= m * 185_000) by (nonlinear_arith)
            requires
                m >= 0,
        ;
    }
}

/// A row is its envelope, whichever that is.
pub proof fn law_rows_keep_their_envelope(entry: AccuracyEntry)
    ensures
        entry.as_row().measurement_type == entry.measurement_type,
        entry.as_row().min == entry.min,
        entry.as_row().max == entry.max,
        entry.as_row().range.min == entry.min,
        entry.as_row().range.max == entry.max,
        entry.as_row().measured,
        entry.as_row().range.percent_max == Some(100u16),
        entry.as_row().range.fixed_max is None,
{
}

/// A read of a list gives all of it, or the one item that is asked for where there is
/// one, or its frame.
pub proof fn law_lists_answer_reads<T>(items: Seq<T>, index: u16)
    ensures
        ListRead::Whole.answer(items) == Some(items),
        ListRead::Empty.answer(items) matches Some(read) && read.len() == 0,
        index < items.len() ==> ((ListRead::Item { index }).answer(items) matches Some(read)
            && read.len() == 1 && read[0] == items[index as int]),
        index >= items.len() ==> (ListRead::Item { index }).answer(items) is None,
{
}

/// An answer is given exactly where there is one, and it is that.
pub proof fn law_answers_are_given<T>(
    read: ListRead,
    items: Seq<T>,
    res: Result<Vec<T>, ConstraintError>,
)
    ensures
        read.answered(items, res) <==> match read.answer(items) {
            Some(answer) => res is Ok && res->Ok_0@ == answer,
            None => res is Err,
        },
{
}

/// The bounds that do not depend on the inverter: of the counter, of the temperature
/// and of the mains.
pub proof fn law_fixed_bounds()
    ensures
        ENERGY_MIN_MWH == 0 && ENERGY_MAX_MWH == 1_000_000_000_000 && ENERGY_ACCURACY_MWH
            == 1_000_000,
        TEMP_MIN_CENTI_C == 0 && TEMP_MAX_CENTI_C == 8_000,
        MEASUREMENT_TYPES == 4,
        MATTER_EPOCH_SECS == 946_684_800,
        POWER_SOURCE_NAMESPACE == 0xF && POWER_SOURCE_TAG_GRID == 0x1,
        COMMON_LOCATION_NAMESPACE == 0x6 && COMMON_LOCATION_TAG_INSIDE == 0x2,
        DEV_TYPE_REVISION == 1 && ORDER == 0,
{
}

/// The parts of an endpoint are listed on it, and on no other.
pub proof fn law_parts_are_listed_on_their_parent(
    matcher: SolarPartsMatcher,
    parent: u16,
    endpoint: u16,
)
    ensures
        matcher.lists(parent, endpoint) <==> parent == matcher.parent && exists|i: int|
            0 <= i < matcher.children@.len() && #[trigger] matcher.children@[i] == endpoint,
{
}

/// Where each attribute stands: the measurements on the sensor, the status on the
/// source, the temperature on its own endpoint.
pub proof fn law_attributes_have_their_place(attribute: LiveAttribute)
    ensures
        ({
            let path = attribute.located();
            let power = attribute is Voltage || attribute is ActiveCurrent || attribute
                is ActivePower || attribute is Frequency;
            &&& path.endpoint == 3 <==> power || attribute is CumulativeEnergyExported
            &&& path.endpoint == 2 <==> attribute is SourceStatus
            &&& path.endpoint == 4 <==> attribute is Temperature
            &&& path.cluster == 0x90 <==> power
            &&& path.cluster == 0x91 <==> attribute is CumulativeEnergyExported
            &&& path.cluster == 0x2F <==> attribute is SourceStatus
            &&& path.cluster == 0x402 <==> attribute is Temperature
            &&& path.attribute == 0x4 <==> attribute is Voltage
            &&& path.attribute == 0x5 <==> attribute is ActiveCurrent
            &&& path.attribute == 0x8 <==> attribute is ActivePower
            &&& path.attribute == 0xE <==> attribute is Frequency
            &&& path.attribute == 0x2 <==> attribute is CumulativeEnergyExported
            &&& path.attribute == 0x0 <==> attribute is SourceStatus || attribute is Temperature
        }),
{
}

/// The clusters by their numbers, with their features and the optional attributes
/// that there is a reading for.
pub proof fn law_clusters_have_their_numbers(kind: ClusterKind, attribute: u32)
    ensures
        kind.cluster_id() == 0x1D <==> kind is Descriptor || kind is TaggedDescriptor,
        kind.cluster_id() == 0x3 <==> kind is Identify,
        kind.cluster_id() == 0x2F <==> kind is PowerSource,
        kind.cluster_id() == 0x9C <==> kind is PowerTopology,
        kind.cluster_id() == 0x90 <==> kind is PowerMeasurement,
        kind.cluster_id() == 0x91 <==> kind is EnergyMeasurement,
        kind.cluster_id() == 0x402 <==> kind is Temperature,
        kind.features() == 0x0 <==> kind is Descriptor || kind is Identify || kind is Temperature,
        kind.features() == 0x1 <==> kind is TaggedDescriptor || kind is PowerSource || kind
            is PowerTopology,
        kind.features() == 0x2 <==> kind is PowerMeasurement,
        kind.features() == 0x6 <==> kind is EnergyMeasurement,
        kind.chosen().contains(attribute) <==> (kind is TaggedDescriptor && attribute == 0x4) || (
        kind is PowerSource && attribute == 0x5) || (kind is PowerMeasurement && (attribute == 0x4
            || attribute == 0x5 || attribute == 0xE)) || (kind is EnergyMeasurement && attribute
            == 0x2),
{
}

/// The endpoints by their numbers, each with its device type and its clusters.
pub proof fn law_endpoints_have_their_clusters(e: int, kind: ClusterKind)
    requires
        0 <= e < composition().len(),
    ensures
        composition().len() == 4,
        ({
            let endpoint = composition()[e];
            let has = endpoint.clusters.contains(kind);
            &&& endpoint.id == e + 1
            &&& endpoint.id == 1 ==> endpoint.device_type == 0x17 && (has <==> kind is Descriptor
                || kind is Identify)
            &&& endpoint.id == 2 ==> endpoint.device_type == 0x11 && (has <==> kind
                is TaggedDescriptor || kind is Identify || kind is PowerSource)
            &&& endpoint.id == 3 ==> endpoint.device_type == 0x510 && (has <==> kind is Descriptor
                || kind is Identify || kind is PowerTopology || kind is PowerMeasurement || kind
                is EnergyMeasurement)
            &&& endpoint.id == 4 ==> endpoint.device_type == 0x302 && (has <==> kind
                is TaggedDescriptor || kind is Identify || kind is Temperature)
        }),
{
    let endpoint = composition()[e];
    let clusters = endpoint.clusters;
    if clusters.contains(kind) {
        let k = choose|k: int| 0 <= k < clusters.len() && clusters[k] == kind;
        assert(0 <= k < clusters.len());
    }
    assert(clusters.contains(clusters[0]) && clusters.contains(clusters[1]));
    if e > 0 {
        assert(clusters.contains(clusters[2]));
    }
    if e == 2 {
        assert(clusters.contains(clusters[3]) && clusters.contains(clusters[4]));
    }
}

/// The handlers by endpoint and cluster: each descriptor has its own, and everything
/// else that an endpoint has is served by the handler of its cluster.
pub proof fn law_handlers_have_their_clusters(endpoint: u16, cluster: u32)
    ensures
        bound(endpoint, cluster) == Some(Handler::SolarDescriptor) <==> endpoint == 1 && cluster
            == 0x1D,
        bound(endpoint, cluster) == Some(Handler::GridDescriptor) <==> endpoint == 2 && cluster
            == 0x1D,
        bound(endpoint, cluster) == Some(Handler::PlainDescriptor) <==> endpoint == 3 && cluster
            == 0x1D,
        bound(endpoint, cluster) == Some(Handler::TemperatureDescriptor) <==> endpoint == 4
            && cluster == 0x1D,
        bound(endpoint, cluster) == Some(Handler::Identify) <==> 1 <= endpoint <= 4 && cluster
            == 0x3,
        bound(endpoint, cluster) == Some(Handler::PowerSource) <==> endpoint == 2 && cluster
            == 0x2F,
        bound(endpoint, cluster) == Some(Handler::PowerTopology) <==> endpoint == 3 && cluster
            == 0x9C,
        bound(endpoint, cluster) == Some(Handler::PowerMeasurement) <==> endpoint == 3 && cluster
            == 0x90,
        bound(endpoint, cluster) == Some(Handler::EnergyMeasurement) <==> endpoint == 3 && cluster
            == 0x91,
        bound(endpoint, cluster) == Some(Handler::Temperature) <==> endpoint == 4 && cluster
            == 0x402,
{
}

} // verus!
