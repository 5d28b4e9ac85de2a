//! How the node, its handlers and its measurements fit together.
use vstd::prelude::*;

use crate::domain::total_rating;
use crate::laws::history::{law_ratings_add_up, rating_sum};
use crate::matter::accuracy::MeasurementType;
use crate::matter::bridge::LiveAttribute;
use crate::matter::epm::{
    current_min, envelopes, exported, power_min, rating_fits, MEASUREMENT_TYPES,
    POWER_HEADROOM_MW_PER_W, VOLTAGE_MIN_MV,
};
use crate::matter::node::{
    bound, composition, ClusterKind, EP_ELECTRICAL_SENSOR, EP_POWER_SOURCE,
    EP_ROOT, EP_SOLAR_POWER, EP_TEMPERATURE,
};

verus! {

/// Every cluster of every endpoint has a handler that is made for it.
pub proof fn law_every_cluster_is_served(e: int, c: int)
    requires
        0 <= e < composition().len(),
        0 <= c < composition()[e].clusters.len(),
    ensures
        bound(composition()[e].id, composition()[e].clusters[c].cluster_id()) matches Some(handler)
            && handler.kind() == composition()[e].clusters[c],
{
}

/// Every handler serves a cluster that an endpoint has.
pub proof fn law_every_handler_has_its_cluster(endpoint: u16, cluster: u32)
    ensures
        bound(endpoint, cluster) matches Some(handler) ==> exists|e: int, c: int|
            #![trigger composition()[e].clusters[c]]
            0 <= e < composition().len() && 0 <= c < composition()[e].clusters.len()
                && composition()[e].id == endpoint && composition()[e].clusters[c]
                == handler.kind() && composition()[e].clusters[c].cluster_id() == cluster,
{
    if let Some(handler) = bound(endpoint, cluster) {
        let e = endpoint - 1;
        let clusters = composition()[e].clusters;
        assert(composition()[e].id == endpoint);
        let c: int = match handler.kind() {
            ClusterKind::Descriptor | ClusterKind::TaggedDescriptor => 0,
            ClusterKind::Identify => 1,
            ClusterKind::PowerSource | ClusterKind::PowerTopology | ClusterKind::Temperature => 2,
            ClusterKind::PowerMeasurement => 3,
            ClusterKind::EnergyMeasurement => 4,
        };
        assert(composition()[e].clusters[c] == handler.kind());
    }
}

/// No endpoint occurs twice, none is the root, and none has a cluster twice.
pub proof fn law_the_composition_is_unambiguous(e: int, f: int, c: int, d: int)
    requires
        0 <= e < composition().len(),
        0 <= f < composition().len(),
        0 <= c < composition()[e].clusters.len(),
        0 <= d < composition()[e].clusters.len(),
    ensures
        composition()[e].id != EP_ROOT,
        e != f ==> composition()[e].id != composition()[f].id,
        c != d ==> composition()[e].clusters[c].cluster_id()
            != composition()[e].clusters[d].cluster_id(),
{
}

/// The parts of the Solar Power endpoint are exactly the other endpoints of the
/// composition.
pub proof fn law_parts_are_the_components(endpoint: u16)
    ensures
        seq![EP_POWER_SOURCE, EP_ELECTRICAL_SENSOR, EP_TEMPERATURE].contains(endpoint)
            <==> endpoint != EP_SOLAR_POWER && exists|e: int|
            0 <= e < composition().len() && #[trigger] composition()[e].id == endpoint,
{
    let parts = seq![EP_POWER_SOURCE, EP_ELECTRICAL_SENSOR, EP_TEMPERATURE];
    assert(parts[0] == EP_POWER_SOURCE);
    assert(parts[1] == EP_ELECTRICAL_SENSOR);
    assert(parts[2] == EP_TEMPERATURE);
    assert(composition()[1].id == EP_POWER_SOURCE);
    assert(composition()[2].id == EP_ELECTRICAL_SENSOR);
    assert(composition()[3].id == EP_TEMPERATURE);
}

/// What is reported stands on the node: the endpoint has the cluster, and its
/// handler is there to be read.
pub proof fn law_reported_attributes_are_served(attribute: LiveAttribute)
    ensures
        bound(attribute.located().endpoint, attribute.located().cluster) is Some,
        bound(attribute.located().endpoint, attribute.located().cluster)->0.kind().cluster_id()
            == attribute.located().cluster,
{
}

/// Two attributes that are reported do not share a path.
pub proof fn law_reported_paths_are_distinct(a: LiveAttribute, b: LiveAttribute)
    requires
        a != b,
    ensures
        a.located() != b.located(),
{
}

/// There is one envelope for each measurement type of the server, each of
/// another type, and none is empty for a rating that is not negative.
pub proof fn law_envelopes_are_complete(max_power_w: Option<i64>)
    requires
        rating_fits(max_power_w),
        max_power_w matches Some(w) ==> w >= 0,
    ensures
        envelopes(max_power_w).len() == MEASUREMENT_TYPES,
        forall|i: int, j: int|
            0 <= i < j < MEASUREMENT_TYPES ==> (#[trigger] envelopes(
                max_power_w,
            )[i]).measurement_type != (#[trigger] envelopes(max_power_w)[j]).measurement_type,
        forall|i: int|
            0 <= i < MEASUREMENT_TYPES ==> (#[trigger] envelopes(max_power_w)[i]).min <= envelopes(
                max_power_w,
            )[i].max,
        forall|i: int|
            0 <= i < MEASUREMENT_TYPES ==> ((#[trigger] envelopes(max_power_w)[i]).measurement_type
                == MeasurementType::ActivePower || envelopes(max_power_w)[i].measurement_type
                == MeasurementType::ActiveCurrent ==> envelopes(max_power_w)[i].max == 0),
{
    lemma_bounds(max_power_w);
}

proof fn lemma_bounds(max_power_w: Option<i64>)
    requires
        rating_fits(max_power_w),
        max_power_w matches Some(w) ==> w >= 0,
    ensures
        i64::MIN <= power_min(max_power_w) <= 0,
        i64::MIN <= current_min(max_power_w) <= 0,
{
    if let Some(w) = max_power_w {
        let a = w * POWER_HEADROOM_MW_PER_W * 1_000;
        assert(0 <= a / VOLTAGE_MIN_MV as int <= a) by (nonlinear_arith)
            requires
                a >= 0,
                VOLTAGE_MIN_MV == 185_000,
        ;
    }
}

proof fn lemma_sum_bound(ratings: Seq<(Seq<char>, u32)>)
    ensures
        rating_sum(ratings) <= ratings.len() * u32::MAX,
    decreases ratings.len(),
{
    if ratings.len() > 0 {
        lemma_sum_bound(ratings.drop_last());
        assert((ratings.len() - 1) * u32::MAX + u32::MAX == ratings.len() * u32::MAX)
            by (nonlinear_arith);
    }
}

/// How many lines an inverter can have before the bounds of its rating might
/// leave 64 bits.
pub const SAFE_LINES: u32 = 1952;

/// The rating of any inverter with so few lines has bounds that can be computed.
pub proof fn law_ratings_of_inverters_fit(ratings: Seq<(Seq<char>, u32)>)
    requires
        ratings.len() <= SAFE_LINES,
    ensures
        rating_fits(Some(total_rating(ratings))),
{
    lemma_sum_bound(ratings);
    assert(ratings.len() * u32::MAX <= SAFE_LINES * u32::MAX) by (nonlinear_arith)
        requires
            ratings.len() <= SAFE_LINES,
    ;
    law_ratings_add_up(ratings);
}

/// Production up to the nameplate rating, and a tenth more, reads as a value
/// inside the ActivePower envelope.
pub proof fn law_rated_production_is_in_the_envelope(w: i64, power_mw: i64)
    requires
        rating_fits(Some(w)),
        0 <= power_mw <= w * POWER_HEADROOM_MW_PER_W,
    ensures
        exported(Some(power_mw)) matches Some(read) && power_min(Some(w)) <= read <= 0,
{
}

/// A current that carries that production at no less than the least voltage
/// reads as a value inside the ActiveCurrent envelope.
pub proof fn law_rated_current_is_in_the_envelope(w: i64, current_ma: i64)
    requires
        rating_fits(Some(w)),
        w >= 0,
        0 <= current_ma,
        current_ma * VOLTAGE_MIN_MV <= w * POWER_HEADROOM_MW_PER_W * 1_000,
    ensures
        exported(Some(current_ma)) matches Some(read) && current_min(Some(w)) <= read <= 0,
{
    let a = w * POWER_HEADROOM_MW_PER_W * 1_000;
    let v = VOLTAGE_MIN_MV as int;
    assert(current_ma <= a / v) by (nonlinear_arith)
        requires
            current_ma * v <= a,
            v == 185_000,
            a >= 0,
            current_ma >= 0,
    ;
}

/// The sign changes at the boundary and back again is no change.
pub proof fn law_export_is_its_own_inverse(production: Option<i64>)
    requires
        production != Some(i64::MIN),
    ensures
        exported(exported(production)) == production,
{
}

} // verus!
