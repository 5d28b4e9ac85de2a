//! The composition of the device: the root node and the Solar Power endpoint
//! with its three components, the clusters of each, and the handler that serves
//! each cluster.
use vstd::prelude::*;

use crate::matter::desc_tags::{
    SemanticTag, SolarPartsMatcher, COMMON_LOCATION_NAMESPACE, COMMON_LOCATION_TAG_INSIDE,
    POWER_SOURCE_NAMESPACE, POWER_SOURCE_TAG_GRID,
};

verus! {

pub const EP_ROOT: u16 = 0;

pub const EP_SOLAR_POWER: u16 = 1;

pub const EP_POWER_SOURCE: u16 = 2;

pub const EP_ELECTRICAL_SENSOR: u16 = 3;

pub const EP_TEMPERATURE: u16 = 4;

pub const DEV_TYPE_SOLAR_POWER: u16 = 0x0017;

pub const DEV_TYPE_POWER_SOURCE: u16 = 0x0011;

pub const DEV_TYPE_ELECTRICAL_SENSOR: u16 = 0x0510;

pub const DEV_TYPE_TEMPERATURE_SENSOR: u16 = 0x0302;

/// The revision of each of these device types.
pub const DEV_TYPE_REVISION: u16 = 1;

pub const CLUSTER_IDENTIFY: u32 = 0x0003;

pub const CLUSTER_DESCRIPTOR: u32 = 0x001D;

pub const CLUSTER_POWER_SOURCE: u32 = 0x002F;

pub const CLUSTER_POWER_MEASUREMENT: u32 = 0x0090;

pub const CLUSTER_ENERGY_MEASUREMENT: u32 = 0x0091;

pub const CLUSTER_POWER_TOPOLOGY: u32 = 0x009C;

pub const CLUSTER_TEMPERATURE: u32 = 0x0402;

/// Descriptor feature: the endpoint has a `TagList`.
pub const FEATURE_TAG_LIST: u32 = 0x1;

/// Power Source feature.
pub const FEATURE_WIRED: u32 = 0x1;

/// Power Topology feature: the sensor measures the whole node.
pub const FEATURE_NODE_TOPOLOGY: u32 = 0x1;

/// Electrical Power Measurement feature.
pub const FEATURE_ALTERNATING_CURRENT: u32 = 0x2;

/// Electrical Energy Measurement features, ExportedEnergy (0x2) and
/// CumulativeEnergy (0x4).
pub const FEATURES_EXPORTED_CUMULATIVE: u32 = 0x6;

pub const ATTR_TAG_LIST: u32 = 0x4;

pub const ATTR_SOURCE_STATUS: u32 = 0x0;

pub const ATTR_WIRED_CURRENT_TYPE: u32 = 0x5;

pub const ATTR_VOLTAGE: u32 = 0x4;

pub const ATTR_ACTIVE_CURRENT: u32 = 0x5;

pub const ATTR_ACTIVE_POWER: u32 = 0x8;

pub const ATTR_FREQUENCY: u32 = 0xE;

pub const ATTR_CUMULATIVE_ENERGY_EXPORTED: u32 = 0x2;

pub const ATTR_MEASURED_VALUE: u32 = 0x0;

pub const EVENT_CUMULATIVE_ENERGY_MEASURED: u32 = 0x0;

/// A cluster as this node configures it.
#[derive(Debug, Clone, Copy, PartialEq, Eq, Structural)]
pub enum ClusterKind {
    Descriptor,
    /// A Descriptor with a `TagList`.
    TaggedDescriptor,
    Identify,
    PowerSource,
    PowerTopology,
    PowerMeasurement,
    EnergyMeasurement,
    Temperature,
}

impl ClusterKind {
    pub open spec fn cluster_id(self) -> u32 {
        match self {
            ClusterKind::Descriptor => CLUSTER_DESCRIPTOR,
            ClusterKind::TaggedDescriptor => CLUSTER_DESCRIPTOR,
            ClusterKind::Identify => CLUSTER_IDENTIFY,
            ClusterKind::PowerSource => CLUSTER_POWER_SOURCE,
            ClusterKind::PowerTopology => CLUSTER_POWER_TOPOLOGY,
            ClusterKind::PowerMeasurement => CLUSTER_POWER_MEASUREMENT,
            ClusterKind::EnergyMeasurement => CLUSTER_ENERGY_MEASUREMENT,
            ClusterKind::Temperature => CLUSTER_TEMPERATURE,
        }
    }

    pub fn id(self) -> (res: u32)
        ensures
            res == self.cluster_id(),
    {
        match self {
            ClusterKind::Descriptor => CLUSTER_DESCRIPTOR,
            ClusterKind::TaggedDescriptor => CLUSTER_DESCRIPTOR,
            ClusterKind::Identify => CLUSTER_IDENTIFY,
            ClusterKind::PowerSource => CLUSTER_POWER_SOURCE,
            ClusterKind::PowerTopology => CLUSTER_POWER_TOPOLOGY,
            ClusterKind::PowerMeasurement => CLUSTER_POWER_MEASUREMENT,
            ClusterKind::EnergyMeasurement => CLUSTER_ENERGY_MEASUREMENT,
            ClusterKind::Temperature => CLUSTER_TEMPERATURE,
        }
    }

    pub open spec fn features(self) -> u32 {
        match self {
            ClusterKind::TaggedDescriptor => FEATURE_TAG_LIST,
            ClusterKind::PowerSource => FEATURE_WIRED,
            ClusterKind::PowerTopology => FEATURE_NODE_TOPOLOGY,
            ClusterKind::PowerMeasurement => FEATURE_ALTERNATING_CURRENT,
            ClusterKind::EnergyMeasurement => FEATURES_EXPORTED_CUMULATIVE,
            _ => 0,
        }
    }

    /// The cluster's `FeatureMap`.
    pub fn feature_map(self) -> (res: u32)
        ensures
            res == self.features(),
    {
        match self {
            ClusterKind::TaggedDescriptor => FEATURE_TAG_LIST,
            ClusterKind::PowerSource => FEATURE_WIRED,
            ClusterKind::PowerTopology => FEATURE_NODE_TOPOLOGY,
            ClusterKind::PowerMeasurement => FEATURE_ALTERNATING_CURRENT,
            ClusterKind::EnergyMeasurement => FEATURES_EXPORTED_CUMULATIVE,
            _ => 0,
        }
    }

    /// The optional attributes that this node serves.
    pub open spec fn chosen(self) -> Set<u32> {
        match self {
            ClusterKind::TaggedDescriptor => set![ATTR_TAG_LIST],
            ClusterKind::PowerSource => set![ATTR_WIRED_CURRENT_TYPE],
            ClusterKind::PowerMeasurement => set![
                ATTR_VOLTAGE,
                ATTR_ACTIVE_CURRENT,
                ATTR_FREQUENCY,
            ],
            ClusterKind::EnergyMeasurement => set![ATTR_CUMULATIVE_ENERGY_EXPORTED],
            _ => Set::empty(),
        }
    }

    /// Whether the cluster serves an attribute: every mandatory one, and of the
    /// optional ones those that there is a reading for.
    pub fn serves(self, attribute: u32, optional: bool) -> (res: bool)
        ensures
            res == (!optional || self.chosen().contains(attribute)),
    {
        if !optional {
            return true;
        }
        match self {
            ClusterKind::TaggedDescriptor => attribute == ATTR_TAG_LIST,
            ClusterKind::PowerSource => attribute == ATTR_WIRED_CURRENT_TYPE,
            ClusterKind::PowerMeasurement => attribute == ATTR_VOLTAGE || attribute
                == ATTR_ACTIVE_CURRENT || attribute == ATTR_FREQUENCY,
            ClusterKind::EnergyMeasurement => attribute == ATTR_CUMULATIVE_ENERGY_EXPORTED,
            _ => false,
        }
    }
}

/// An endpoint of the composition.
#[derive(Debug, Clone, PartialEq, Eq)]
pub struct Endpoint {
    pub id: u16,
    pub device_type: u16,
    pub clusters: Vec<ClusterKind>,
}

pub struct EndpointView {
    pub id: u16,
    pub device_type: u16,
    pub clusters: Seq<ClusterKind>,
}

impl DeepView for Endpoint {
    type V = EndpointView;

    open spec fn deep_view(&self) -> EndpointView {
        EndpointView { id: self.id, device_type: self.device_type, clusters: self.clusters@ }
    }
}

/// The endpoints beside the root, which carries the standard clusters of an
/// Ethernet node.
pub open spec fn composition() -> Seq<EndpointView> {
    seq![
        EndpointView {
            id: EP_SOLAR_POWER,
            device_type: DEV_TYPE_SOLAR_POWER,
            clusters: seq![ClusterKind::Descriptor, ClusterKind::Identify],
        },
        EndpointView {
            id: EP_POWER_SOURCE,
            device_type: DEV_TYPE_POWER_SOURCE,
            clusters: seq![
                ClusterKind::TaggedDescriptor,
                ClusterKind::Identify,
                ClusterKind::PowerSource,
            ],
        },
        EndpointView {
            id: EP_ELECTRICAL_SENSOR,
            device_type: DEV_TYPE_ELECTRICAL_SENSOR,
            clusters: seq![
                ClusterKind::Descriptor,
                ClusterKind::Identify,
                ClusterKind::PowerTopology,
                ClusterKind::PowerMeasurement,
                ClusterKind::EnergyMeasurement,
            ],
        },
        EndpointView {
            id: EP_TEMPERATURE,
            device_type: DEV_TYPE_TEMPERATURE_SENSOR,
            clusters: seq![
                ClusterKind::TaggedDescriptor,
                ClusterKind::Identify,
                ClusterKind::Temperature,
            ],
        },
    ]
}

fn endpoint(id: u16, device_type: u16, clusters: Vec<ClusterKind>) -> (res: Endpoint)
    ensures
        res.deep_view() == (EndpointView { id, device_type, clusters: clusters@ }),
{
    Endpoint { id, device_type, clusters }
}

/// The endpoints of the device beside the root.
pub fn endpoints() -> (res: Vec<Endpoint>)
    ensures
        res.deep_view() == composition(),
{
    let solar_power = endpoint(
        EP_SOLAR_POWER,
        DEV_TYPE_SOLAR_POWER,
        vec![ClusterKind::Descriptor, ClusterKind::Identify],
    );
    let power_source = endpoint(
        EP_POWER_SOURCE,
        DEV_TYPE_POWER_SOURCE,
        vec![ClusterKind::TaggedDescriptor, ClusterKind::Identify, ClusterKind::PowerSource],
    );
    let electrical_sensor = endpoint(
        EP_ELECTRICAL_SENSOR,
        DEV_TYPE_ELECTRICAL_SENSOR,
        vec![
            ClusterKind::Descriptor,
            ClusterKind::Identify,
            ClusterKind::PowerTopology,
            ClusterKind::PowerMeasurement,
            ClusterKind::EnergyMeasurement,
        ],
    );
    let temperature = endpoint(
        EP_TEMPERATURE,
        DEV_TYPE_TEMPERATURE_SENSOR,
        vec![ClusterKind::TaggedDescriptor, ClusterKind::Identify, ClusterKind::Temperature],
    );
    let res: Vec<Endpoint> = vec![solar_power, power_source, electrical_sensor, temperature];
    assert(res.deep_view() == composition());
    res
}

/// What serves a cluster of an endpoint.
#[derive(Debug, Clone, Copy, PartialEq, Eq, Structural)]
pub enum Handler {
    /// Descriptor of the composition parent.
    SolarDescriptor,
    /// Descriptor with the Grid tag.
    GridDescriptor,
    /// Descriptor without parts or tags.
    PlainDescriptor,
    /// Descriptor with the tag of the inverter's temperature.
    TemperatureDescriptor,
    Identify,
    PowerSource,
    PowerTopology,
    PowerMeasurement,
    EnergyMeasurement,
    Temperature,
}

impl Handler {
    /// The kind of cluster that a handler is made for.
    pub open spec fn kind(self) -> ClusterKind {
        match self {
            Handler::SolarDescriptor => ClusterKind::Descriptor,
            Handler::GridDescriptor => ClusterKind::TaggedDescriptor,
            Handler::PlainDescriptor => ClusterKind::Descriptor,
            Handler::TemperatureDescriptor => ClusterKind::TaggedDescriptor,
            Handler::Identify => ClusterKind::Identify,
            Handler::PowerSource => ClusterKind::PowerSource,
            Handler::PowerTopology => ClusterKind::PowerTopology,
            Handler::PowerMeasurement => ClusterKind::PowerMeasurement,
            Handler::EnergyMeasurement => ClusterKind::EnergyMeasurement,
            Handler::Temperature => ClusterKind::Temperature,
        }
    }
}

pub open spec fn descriptor_on(endpoint: u16) -> Option<Handler> {
    if endpoint == EP_SOLAR_POWER {
        Some(Handler::SolarDescriptor)
    } else if endpoint == EP_POWER_SOURCE {
        Some(Handler::GridDescriptor)
    } else if endpoint == EP_ELECTRICAL_SENSOR {
        Some(Handler::PlainDescriptor)
    } else if endpoint == EP_TEMPERATURE {
        Some(Handler::TemperatureDescriptor)
    } else {
        None
    }
}

/// The handler of a cluster on an endpoint; `None` leaves it to the root's.
pub open spec fn bound(endpoint: u16, cluster: u32) -> Option<Handler> {
    if cluster == CLUSTER_DESCRIPTOR {
        descriptor_on(endpoint)
    } else if cluster == CLUSTER_IDENTIFY && EP_SOLAR_POWER <= endpoint <= EP_TEMPERATURE {
        Some(Handler::Identify)
    } else if (endpoint, cluster) == (EP_POWER_SOURCE, CLUSTER_POWER_SOURCE) {
        Some(Handler::PowerSource)
    } else if (endpoint, cluster) == (EP_ELECTRICAL_SENSOR, CLUSTER_POWER_TOPOLOGY) {
        Some(Handler::PowerTopology)
    } else if (endpoint, cluster) == (EP_ELECTRICAL_SENSOR, CLUSTER_POWER_MEASUREMENT) {
        Some(Handler::PowerMeasurement)
    } else if (endpoint, cluster) == (EP_ELECTRICAL_SENSOR, CLUSTER_ENERGY_MEASUREMENT) {
        Some(Handler::EnergyMeasurement)
    } else if (endpoint, cluster) == (EP_TEMPERATURE, CLUSTER_TEMPERATURE) {
        Some(Handler::Temperature)
    } else {
        None
    }
}

/// The handler of a cluster on an endpoint; `None` leaves it to the root's.
pub fn handler_for(endpoint: u16, cluster: u32) -> (res: Option<Handler>)
    ensures
        res == bound(endpoint, cluster),
{
    if cluster == CLUSTER_DESCRIPTOR {
        match endpoint {
            EP_SOLAR_POWER => Some(Handler::SolarDescriptor),
            EP_POWER_SOURCE => Some(Handler::GridDescriptor),
            EP_ELECTRICAL_SENSOR => Some(Handler::PlainDescriptor),
            EP_TEMPERATURE => Some(Handler::TemperatureDescriptor),
            _ => None,
        }
    } else if cluster == CLUSTER_IDENTIFY {
        match endpoint {
            EP_SOLAR_POWER | EP_POWER_SOURCE | EP_ELECTRICAL_SENSOR | EP_TEMPERATURE => Some(
                Handler::Identify,
            ),
            _ => None,
        }
    } else {
        match (endpoint, cluster) {
            (EP_POWER_SOURCE, CLUSTER_POWER_SOURCE) => Some(Handler::PowerSource),
            (EP_ELECTRICAL_SENSOR, CLUSTER_POWER_TOPOLOGY) => Some(Handler::PowerTopology),
            (EP_ELECTRICAL_SENSOR, CLUSTER_POWER_MEASUREMENT) => Some(Handler::PowerMeasurement),
            (EP_ELECTRICAL_SENSOR, CLUSTER_ENERGY_MEASUREMENT) => Some(Handler::EnergyMeasurement),
            (EP_TEMPERATURE, CLUSTER_TEMPERATURE) => Some(Handler::Temperature),
            _ => None,
        }
    }
}

/// The component endpoints of the Solar Power endpoint.
pub fn solar_parts() -> (res: SolarPartsMatcher)
    ensures
        res.parent == EP_SOLAR_POWER,
        res.children@ == seq![EP_POWER_SOURCE, EP_ELECTRICAL_SENSOR, EP_TEMPERATURE],
{
    SolarPartsMatcher {
        parent: EP_SOLAR_POWER,
        children: &[EP_POWER_SOURCE, EP_ELECTRICAL_SENSOR, EP_TEMPERATURE],
    }
}

/// The endpoints that the Power Source powers: all but the root.
pub fn powered_endpoints() -> (res: [u16; 4])
    ensures
        res@ == composition().map_values(|e: EndpointView| e.id),
{
    let res: [u16; 4] = [EP_SOLAR_POWER, EP_POWER_SOURCE, EP_ELECTRICAL_SENSOR, EP_TEMPERATURE];
    assert(res@ == composition().map_values(|e: EndpointView| e.id));
    res
}

/// The tag of the Power Source endpoint.
pub fn grid_tag() -> (res: SemanticTag)
    ensures
        res == (SemanticTag {
            mfg_code: None,
            namespace_id: POWER_SOURCE_NAMESPACE,
            tag: POWER_SOURCE_TAG_GRID,
            label: None,
        }),
{
    SemanticTag {
        mfg_code: None,
        namespace_id: POWER_SOURCE_NAMESPACE,
        tag: POWER_SOURCE_TAG_GRID,
        label: None,
    }
}

/// The tag of the Temperature Sensor endpoint: what it measures is inside the
/// inverter. The label is there for people.
pub fn inverter_temperature_tag() -> (res: SemanticTag)
    ensures
        res == (SemanticTag {
            mfg_code: None,
            namespace_id: COMMON_LOCATION_NAMESPACE,
            tag: COMMON_LOCATION_TAG_INSIDE,
            label: Some("inverter"),
        }),
{
    SemanticTag {
        mfg_code: None,
        namespace_id: COMMON_LOCATION_NAMESPACE,
        tag: COMMON_LOCATION_TAG_INSIDE,
        label: Some("inverter"),
    }
}

} // verus!
