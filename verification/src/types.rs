//! The domain model: pods, templates and GPU offers as plain values.
//!
//! Monetary amounts (prices, percentages) are carried as integral micro-units
//! (millionths of the provider's unit), so that all reconciliation logic works
//! on exactly representable values; the application converts to and from the
//! provider's decimal representation at the transport boundary.

use vstd::prelude::*;
use vstd::string::StringExecFns;
use crate::text::str_eq;
use crate::error::RunpodError;

verus! {

/// The credentials and endpoint used to reach the provider.
#[derive(Debug, Clone, PartialEq, Eq)]
pub struct Config {
    pub apikey: String,
    pub apiurl: String,
}

/// How a pod is being paid for.
#[derive(Debug, Clone, Copy, PartialEq, Eq, Structural)]
pub enum PodType {
    Interruptable,
    Reserved,
    Bid,
    Background,
}

/// The lifecycle state a pod is in (or asked to be in).
#[derive(Debug, Clone, Copy, PartialEq, Eq, Structural)]
pub enum PodStatus {
    Created,
    Running,
    Restarting,
    Exited,
    Paused,
    Dead,
    Terminated,
}

/// Runtime statistics of a live pod.
#[derive(Debug, Clone, PartialEq, Eq)]
pub struct PodRuntime {
    pub uptime_in_seconds: Option<i64>,
}

/// The GPU model installed in a machine.
#[derive(Debug, Clone, PartialEq, Eq)]
pub struct GpuType {
    pub id: String,
    pub memory_in_gb: Option<i64>,
    pub cuda_cores: Option<i64>,
}

/// The software environment of the machine hosting a pod.
#[derive(Debug, Clone, PartialEq, Eq)]
pub struct MachineSystem {
    pub cuda_version: String,
    pub kernel_version: String,
}

/// The machine a pod is scheduled on.
#[derive(Debug, Clone, PartialEq, Eq)]
pub struct PodMachineInfo {
    pub id: String,
    pub gpu_type: Option<GpuType>,
    pub location: String,
    pub machine_system: MachineSystem,
}

/// A certification tag attached to an offer's best-price record.
#[derive(Debug, Clone, Copy, PartialEq, Eq, Structural)]
pub enum Compliance {
    Gdpr,
    IsoIec27001,
    Iso14001,
    PciDss,
    Hitrust,
    Soc1Type2,
    Soc2Type2,
    Soc3Type2,
    Itar,
    FismaHigh,
}

/// One environment variable of a pod template.
#[derive(Debug, Clone, PartialEq, Eq)]
pub struct EnvironmentVariable {
    pub key: String,
    pub value: String,
}

/// A reusable pod template.
#[derive(Debug, Clone, PartialEq, Eq)]
pub struct Template {
    pub docker_args: Option<String>,
    pub env: Option<Vec<EnvironmentVariable>>,
    pub id: Option<String>,
    pub image_name: Option<String>,
    pub start_ssh: Option<bool>,
}

/// The provider's precomputed best-deal record for a GPU type, scoped to one
/// origin (secure or community cloud) when fetched individually.
///
/// `minimum_bid_price`, `uninterruptable_price` and `rental_percentage` are in
/// micro-units (millionths).
#[derive(Debug, Clone, PartialEq, Eq)]
pub struct LowestPrice {
    pub gpu_name: Option<String>,
    pub gpu_type_id: Option<String>,
    pub minimum_bid_price: Option<u64>,
    pub uninterruptable_price: Option<u64>,
    pub min_memory: Option<i64>,
    pub min_vcpu: Option<i64>,
    pub rental_percentage: Option<u64>,
    pub rented_count: Option<i64>,
    pub total_count: Option<i64>,
    pub stock_status: Option<String>,
    pub min_download: Option<i64>,
    pub min_disk: Option<i64>,
    pub min_upload: Option<i64>,
    pub country_code: Option<String>,
    pub support_public_ip: Option<bool>,
    pub compliance: Option<Vec<Compliance>>,
}

/// One rentable GPU configuration. `id` is the stable identity used as the
/// merge key when the secure-cloud and community-cloud catalogs are combined.
///
/// All `*_price` fields are in micro-units (millionths) per GPU-hour.
#[derive(Debug, Clone, PartialEq, Eq)]
pub struct GpuOffer {
    pub id: String,
    pub display_name: String,
    pub manufacturer: Option<String>,
    pub memory_in_gb: Option<i64>,
    pub secure_cloud: Option<bool>,
    pub community_cloud: Option<bool>,
    pub secure_price: Option<u64>,
    pub community_price: Option<u64>,
    pub one_month_price: Option<u64>,
    pub three_month_price: Option<u64>,
    pub six_month_price: Option<u64>,
    pub one_week_price: Option<u64>,
    pub community_spot_price: Option<u64>,
    pub secure_spot_price: Option<u64>,
    pub max_gpu_count: Option<i64>,
    pub max_gpu_count_community_cloud: Option<i64>,
    pub max_gpu_count_secure_cloud: Option<i64>,
    pub min_pod_gpu_count: Option<i64>,
    pub lowest_price: Option<LowestPrice>,
}

/// The GPU-related commands the command-line surface understands.
#[derive(Debug, Clone, Copy, PartialEq, Eq, Structural)]
pub enum GpuCommands {
    List { lowest_price: bool, secure: Option<bool>, vram: Option<i64> },
}

/// The pod type denoted by a wire tag, if the tag is recognized.
pub open spec fn spec_pod_type_from_tag(t: Seq<char>) -> Option<PodType> {
    if t == "INTERRUPTABLE"@ {
        Some(PodType::Interruptable)
    } else if t == "RESERVED"@ {
        Some(PodType::Reserved)
    } else if t == "BID"@ {
        Some(PodType::Bid)
    } else if t == "BACKGROUND"@ {
        Some(PodType::Background)
    } else {
        None
    }
}

/// The pod status denoted by a wire tag, if the tag is recognized.
pub open spec fn spec_pod_status_from_tag(t: Seq<char>) -> Option<PodStatus> {
    if t == "CREATED"@ {
        Some(PodStatus::Created)
    } else if t == "RUNNING"@ {
        Some(PodStatus::Running)
    } else if t == "RESTARTING"@ {
        Some(PodStatus::Restarting)
    } else if t == "EXITED"@ {
        Some(PodStatus::Exited)
    } else if t == "PAUSED"@ {
        Some(PodStatus::Paused)
    } else if t == "DEAD"@ {
        Some(PodStatus::Dead)
    } else if t == "TERMINATED"@ {
        Some(PodStatus::Terminated)
    } else {
        None
    }
}

/// The certification denoted by a wire tag, if the tag is recognized.
pub open spec fn spec_compliance_from_tag(t: Seq<char>) -> Option<Compliance> {
    if t == "GDPR"@ {
        Some(Compliance::Gdpr)
    } else if t == "ISO_IEC_27001"@ {
        Some(Compliance::IsoIec27001)
    } else if t == "ISO_14001"@ {
        Some(Compliance::Iso14001)
    } else if t == "PCI_DSS"@ {
        Some(Compliance::PciDss)
    } else if t == "HITRUST"@ {
        Some(Compliance::Hitrust)
    } else if t == "SOC_1_TYPE_2"@ {
        Some(Compliance::Soc1Type2)
    } else if t == "SOC_2_TYPE_2"@ {
        Some(Compliance::Soc2Type2)
    } else if t == "SOC_3_TYPE_2"@ {
        Some(Compliance::Soc3Type2)
    } else if t == "ITAR"@ {
        Some(Compliance::Itar)
    } else if t == "FISMA_HIGH"@ {
        Some(Compliance::FismaHigh)
    } else {
        None
    }
}

/// The wire tag of a pod status, as the provider spells it.
pub open spec fn spec_pod_status_tag(s: PodStatus) -> Seq<char> {
    match s {
        PodStatus::Created => "CREATED"@,
        PodStatus::Running => "RUNNING"@,
        PodStatus::Restarting => "RESTARTING"@,
        PodStatus::Exited => "EXITED"@,
        PodStatus::Paused => "PAUSED"@,
        PodStatus::Dead => "DEAD"@,
        PodStatus::Terminated => "TERMINATED"@,
    }
}

impl PodType {
    /// Parses a wire tag; an unrecognized tag yields `None` so that the
    /// caller can decide how to handle provider schema drift.
    pub fn from_tag(tag: &str) -> (r: Option<PodType>)
        ensures
            r == spec_pod_type_from_tag(tag@),
    {
        if str_eq(tag, "INTERRUPTABLE") {
            Some(PodType::Interruptable)
        } else if str_eq(tag, "RESERVED") {
            Some(PodType::Reserved)
        } else if str_eq(tag, "BID") {
            Some(PodType::Bid)
        } else if str_eq(tag, "BACKGROUND") {
            Some(PodType::Background)
        } else {
            None
        }
    }
}

impl PodStatus {
    /// Parses a wire tag; an unrecognized tag yields `None` so that the
    /// caller can decide how to handle provider schema drift.
    pub fn from_tag(tag: &str) -> (r: Option<PodStatus>)
        ensures
            r == spec_pod_status_from_tag(tag@),
    {
        if str_eq(tag, "CREATED") {
            Some(PodStatus::Created)
        } else if str_eq(tag, "RUNNING") {
            Some(PodStatus::Running)
        } else if str_eq(tag, "RESTARTING") {
            Some(PodStatus::Restarting)
        } else if str_eq(tag, "EXITED") {
            Some(PodStatus::Exited)
        } else if str_eq(tag, "PAUSED") {
            Some(PodStatus::Paused)
        } else if str_eq(tag, "DEAD") {
            Some(PodStatus::Dead)
        } else if str_eq(tag, "TERMINATED") {
            Some(PodStatus::Terminated)
        } else {
            None
        }
    }

    /// The wire tag of this status.
    pub fn tag(&self) -> (r: &'static str)
        ensures
            r@ == spec_pod_status_tag(*self),
    {
        match self {
            PodStatus::Created => "CREATED",
            PodStatus::Running => "RUNNING",
            PodStatus::Restarting => "RESTARTING",
            PodStatus::Exited => "EXITED",
            PodStatus::Paused => "PAUSED",
            PodStatus::Dead => "DEAD",
            PodStatus::Terminated => "TERMINATED",
        }
    }

    /// Judges the status a pod reports after it was asked to stop: only a
    /// pod that actually exited counts as terminated; any other status is a
    /// server-side failure naming the status that was seen.
    pub fn confirm_stopped(self) -> (r: Result<PodStatus, RunpodError>)
        ensures
            self is Exited ==> r == Ok::<PodStatus, RunpodError>(PodStatus::Terminated),
            !(self is Exited) ==> (r matches Err(RunpodError::ServerError(m)) && m@
                == "Pod did not stop: "@ + spec_pod_status_tag(self)),
    {
        if let PodStatus::Exited = self {
            Ok(PodStatus::Terminated)
        } else {
            let message = "Pod did not stop: ".to_owned().concat(self.tag());
            Err(RunpodError::ServerError(message))
        }
    }
}

impl Compliance {
    /// Parses a wire tag; an unrecognized tag yields `None` so that the
    /// caller can decide how to handle provider schema drift.
    pub fn from_tag(tag: &str) -> (r: Option<Compliance>)
        ensures
            r == spec_compliance_from_tag(tag@),
    {
        if str_eq(tag, "GDPR") {
            Some(Compliance::Gdpr)
        } else if str_eq(tag, "ISO_IEC_27001") {
            Some(Compliance::IsoIec27001)
        } else if str_eq(tag, "ISO_14001") {
            Some(Compliance::Iso14001)
        } else if str_eq(tag, "PCI_DSS") {
            Some(Compliance::PciDss)
        } else if str_eq(tag, "HITRUST") {
            Some(Compliance::Hitrust)
        } else if str_eq(tag, "SOC_1_TYPE_2") {
            Some(Compliance::Soc1Type2)
        } else if str_eq(tag, "SOC_2_TYPE_2") {
            Some(Compliance::Soc2Type2)
        } else if str_eq(tag, "SOC_3_TYPE_2") {
            Some(Compliance::Soc3Type2)
        } else if str_eq(tag, "ITAR") {
            Some(Compliance::Itar)
        } else if str_eq(tag, "FISMA_HIGH") {
            Some(Compliance::FismaHigh)
        } else {
            None
        }
    }
}

} // verus!
