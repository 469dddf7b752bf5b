//! Configuration types and their defaults.

use vstd::prelude::*;

use crate::binary64::{lemma_ratio, Binary64};
use crate::errno::{EAGAIN, EINTR, EIO, ENOENT, ENOSPC, ESTALE};
use crate::error::FsError;
use crate::op::{all_lists_every_op_once, FsOp};
use crate::text::same_text;

pub mod validate;

pub use self::validate::{ConfigIssue, LatencyField, LatencyIssue, Tier};

verus! {

/// Top-level simulator configuration.
#[derive(Clone, Debug)]
pub struct Config {
    /// RNG seed for reproducibility.
    pub seed: u64,
    /// FUSE mount options.
    pub mount: MountConfig,
    /// Virtual filesystem file layout.
    pub files: FilesConfig,
    /// Per-operation policies.
    pub ops: OpTable,
    /// Metrics/telemetry configuration.
    pub metrics: MetricsConfig,
}

/// FUSE mount configuration.
#[derive(Clone, Debug)]
pub struct MountConfig {
    /// Filesystem name reported to the kernel.
    pub fs_name: String,
    /// Filesystem subtype.
    pub subtype: String,
    /// Whether to auto-unmount on process exit.
    pub auto_unmount: bool,
    /// Whether to enable default_permissions checking.
    pub default_permissions: bool,
    /// Mount as read-only.
    pub read_only: bool,
    /// Enable direct I/O (bypass page cache).
    pub direct_io: bool,
}

/// Virtual filesystem layout configuration.
#[derive(Copy, Clone, Debug, PartialEq, Eq, Structural)]
pub struct FilesConfig {
    /// Number of inodes to pre-create.
    pub inode_count: u64,
    /// Default file size in bytes.
    pub file_size_bytes: u64,
    /// Root directory layout strategy.
    pub root_layout: RootLayout,
    /// How writes are handled.
    pub write_mode: WriteMode,
}

/// Root directory layout strategy.
#[derive(Copy, Clone, Debug, PartialEq, Eq, Structural)]
pub enum RootLayout {
    /// All files in a single flat directory.
    Flat,
}

/// Write handling mode.
///
/// Written bytes are accepted, so that a write reports the expected byte
/// count, and then dropped. Reads therefore always return bytes derived from
/// `(ino, offset, seed)`.
#[derive(Copy, Clone, Debug, PartialEq, Eq, Structural)]
pub enum WriteMode {
    /// Discard written data immediately.
    Discard,
}

/// Per-operation policy: concurrency, latency, bandwidth, faults.
#[derive(Debug)]
pub struct OpPolicy {
    /// Maximum concurrent in-flight operations of this type.
    pub concurrency_cap: usize,
    /// Maximum queued operations waiting for a concurrency slot.
    pub queue_cap: usize,
    /// Latency injection profile.
    pub latency: LatencyProfile,
    /// Optional bandwidth throttling.
    pub bandwidth: Option<BandwidthProfile>,
    /// Fault injection rules.
    pub faults: Vec<FaultRule>,
    /// Optional size-keyed alternate profile for reads and writes.
    ///
    /// When an op's requested length exceeds `size_tier.threshold_bytes`, the
    /// engine swaps in the large-tier latency, bandwidth and faults in place
    /// of the base ones. Other operations always use the base policy.
    pub size_tier: Option<SizeTier>,
}

/// Size-keyed alternate profile for reads and writes.
///
/// Both tiers share the concurrency and queue caps of the base policy: there
/// is one limiter per operation kind, and the tier is chosen after admission.
#[derive(Debug)]
pub struct SizeTier {
    /// Requests with a length above this many bytes use the large tier.
    pub threshold_bytes: u64,
    /// Alternate policy applied when the threshold is exceeded.
    pub large: LargeTierPolicy,
}

/// The latency, bandwidth and fault rules that replace those of the base
/// policy when a read or write exceeds the [`SizeTier`] threshold.
#[derive(Debug)]
pub struct LargeTierPolicy {
    /// Latency profile for large ops.
    pub latency: LatencyProfile,
    /// Optional bandwidth throttling for large ops.
    pub bandwidth: Option<BandwidthProfile>,
    /// Fault rules for large ops.
    pub faults: Vec<FaultRule>,
}

/// Latency injection profile.
///
/// The model is: base + lognormal body or Pareto tail, clamped to max.
#[derive(Copy, Clone, Debug, PartialEq, Eq, Structural)]
pub struct LatencyProfile {
    /// Fixed base latency in microseconds.
    pub base_us: u64,
    /// Median of the lognormal component (microseconds).
    pub lognormal_median_us: Binary64,
    /// Sigma (shape) of the lognormal component.
    pub lognormal_sigma: Binary64,
    /// Weight of the Pareto tail component (0 to 1).
    pub pareto_weight: Binary64,
    /// Scale (xm) of the Pareto distribution (microseconds).
    pub pareto_xm_us: Binary64,
    /// Shape (alpha) of the Pareto distribution.
    pub pareto_alpha: Binary64,
    /// Maximum latency clamp in microseconds.
    pub max_us: u64,
}

/// Bandwidth throttling profile.
#[derive(Copy, Clone, Debug, PartialEq, Eq, Structural)]
pub struct BandwidthProfile {
    /// Sustained bandwidth in bytes per second.
    pub bytes_per_sec: Binary64,
    /// Burst allowance in bytes.
    pub burst_bytes: u64,
}

/// A fault injection rule.
#[derive(Copy, Clone, Debug, PartialEq, Eq, Structural)]
pub struct FaultRule {
    /// Which operation this rule targets.
    pub op: FsOp,
    /// The errno to inject.
    pub errno: i32,
    /// Probability of triggering this fault (0 to 1).
    pub rate: Binary64,
}

/// Metrics/telemetry configuration.
#[derive(Clone, Debug)]
pub struct MetricsConfig {
    /// Path to write JSON-lines event log.
    pub jsonl_path: Option<String>,
}

/// The configured policies, at most one for each operation kind.
#[derive(Clone, Debug)]
pub struct OpTable {
    entries: [Option<OpPolicy>; 11],
}

// --- Models ---

/// What a policy prescribes for one size tier.
pub struct TierModel {
    /// Latency injection profile.
    pub latency: LatencyProfile,
    /// Optional bandwidth throttling.
    pub bandwidth: Option<BandwidthProfile>,
    /// Fault injection rules.
    pub faults: Seq<FaultRule>,
}

/// What a policy prescribes.
pub struct PolicyModel {
    /// Maximum concurrent in-flight operations.
    pub concurrency_cap: usize,
    /// Maximum queued operations.
    pub queue_cap: usize,
    /// What holds at or below the size threshold.
    pub base: TierModel,
    /// The size threshold and what holds above it.
    pub large: Option<(u64, TierModel)>,
}

impl View for LargeTierPolicy {
    type V = TierModel;

    open spec fn view(&self) -> TierModel {
        TierModel { latency: self.latency, bandwidth: self.bandwidth, faults: self.faults@ }
    }
}

impl View for OpPolicy {
    type V = PolicyModel;

    open spec fn view(&self) -> PolicyModel {
        PolicyModel {
            concurrency_cap: self.concurrency_cap,
            queue_cap: self.queue_cap,
            base: TierModel {
                latency: self.latency,
                bandwidth: self.bandwidth,
                faults: self.faults@,
            },
            large: match self.size_tier {
                Some(tier) => Some((tier.threshold_bytes, tier.large@)),
                None => None,
            },
        }
    }
}

impl View for OpTable {
    type V = Map<FsOp, PolicyModel>;

    closed spec fn view(&self) -> Map<FsOp, PolicyModel> {
        Map::new(
            |op: FsOp| self.entries@[op.position()] is Some,
            |op: FsOp| self.entries@[op.position()]->0@,
        )
    }
}

impl Clone for LargeTierPolicy {
    fn clone(&self) -> (copy: Self)
        ensures
            copy@ == self@,
    {
        LargeTierPolicy {
            latency: self.latency,
            bandwidth: self.bandwidth,
            faults: copy_rules(&self.faults),
        }
    }
}

impl Clone for SizeTier {
    fn clone(&self) -> (copy: Self)
        ensures
            copy.threshold_bytes == self.threshold_bytes,
            copy.large@ == self.large@,
    {
        SizeTier { threshold_bytes: self.threshold_bytes, large: self.large.clone() }
    }
}

impl Clone for OpPolicy {
    fn clone(&self) -> (copy: Self)
        ensures
            copy@ == self@,
    {
        OpPolicy {
            concurrency_cap: self.concurrency_cap,
            queue_cap: self.queue_cap,
            latency: self.latency,
            bandwidth: self.bandwidth,
            faults: copy_rules(&self.faults),
            size_tier: match &self.size_tier {
                Some(tier) => Some(tier.clone()),
                None => None,
            },
        }
    }
}

/// A copy of a list of fault rules.
fn copy_rules(rules: &Vec<FaultRule>) -> (copy: Vec<FaultRule>)
    ensures
        copy@ == rules@,
{
    let copy = rules.clone();
    assert(copy@ =~= rules@);
    copy
}

impl OpTable {
    /// A table without any policy.
    pub fn new() -> (table: Self)
        ensures
            table@ == Map::<FsOp, PolicyModel>::empty(),
    {
        let table = OpTable {
            entries: [None, None, None, None, None, None, None, None, None, None, None],
        };
        assert(table@ =~= Map::<FsOp, PolicyModel>::empty());
        table
    }

    /// Set the policy of `op`, in place of any that it had.
    pub fn insert(&mut self, op: FsOp, policy: OpPolicy)
        ensures
            final(self)@ == old(self)@.insert(op, policy@),
    {
        self.entries[op.index()] = Some(policy);
        proof {
            assert forall|other: FsOp| other != op implies #[trigger] other.position()
                != op.position() by {
                all_lists_every_op_once(other, op.position());
            }
            assert(self@ =~= old(self)@.insert(op, policy@));
        }
    }

    /// The policy of `op`, if it has one.
    pub fn get(&self, op: FsOp) -> (policy: Option<&OpPolicy>)
        ensures
            match policy {
                Some(found) => self@.contains_key(op) && found@ == self@[op],
                None => !self@.contains_key(op),
            },
    {
        self.entries[op.index()].as_ref()
    }

    /// Whether no operation has a policy.
    pub fn is_empty(&self) -> (empty: bool)
        ensures
            empty == (self@ == Map::<FsOp, PolicyModel>::empty()),
    {
        let mut i: usize = 0;
        while i < self.entries.len()
            invariant
                i <= self.entries@.len(),
                forall|j: int| 0 <= j < i ==> self.entries@[j] is None,
            decreases self.entries@.len() - i,
        {
            if self.entries[i].is_some() {
                assert(self@.contains_key(FsOp::at(i as int)));
                return false;
            }
            i = i + 1;
        }
        assert(self@ =~= Map::<FsOp, PolicyModel>::empty());
        true
    }
}

// --- Defaults ---

/// The seed where none is configured.
pub fn default_seed() -> (seed: u64)
    ensures
        seed == 42,
{
    42
}

/// The filesystem name where none is configured.
pub fn default_fs_name() -> (name: String)
    ensures
        name@ == "fusecraft"@,
{
    "fusecraft".to_string()
}

/// The filesystem subtype where none is configured.
pub fn default_subtype() -> (subtype: String)
    ensures
        subtype@ == "sim"@,
{
    "sim".to_string()
}

/// The switches that are on unless configured otherwise.
pub fn default_true() -> (on: bool)
    ensures
        on,
{
    true
}

/// The number of files where none is configured.
pub fn default_inode_count() -> (count: u64)
    ensures
        count == 1000,
{
    1000
}

/// The file size where none is configured.
pub fn default_file_size_bytes() -> (bytes: u64)
    ensures
        bytes == 65536,
{
    65536
}

/// The concurrency cap where none is configured.
pub fn default_concurrency_cap() -> (cap: usize)
    ensures
        cap == 64,
{
    64
}

/// The lognormal median where none is configured: 100 microseconds.
pub fn default_lognormal_median() -> (median: Binary64)
    ensures
        median.bits == 0x4059_0000_0000_0000,
        median.is_ratio(100, 1),
{
    let value = Binary64::from_bits(0x4059_0000_0000_0000);
    proof {
        vstd::arithmetic::power2::lemma2_to64();
        lemma_ratio(value, 7, 100, 1);
    }
    value
}

/// The lognormal sigma where none is configured: one half.
pub fn default_lognormal_sigma() -> (sigma: Binary64)
    ensures
        sigma.bits == 0x3fe0_0000_0000_0000,
        sigma.is_ratio(1, 2),
{
    let value = Binary64::from_bits(0x3fe0_0000_0000_0000);
    proof {
        vstd::arithmetic::power2::lemma2_to64();
        lemma_ratio(value, 0, 1, 2);
    }
    value
}

/// The Pareto weight where none is configured: zero.
pub fn default_pareto_weight() -> (weight: Binary64)
    ensures
        weight.bits == 0,
        weight.is_ratio(0, 1),
{
    let value = Binary64::from_bits(0);
    assert(value.scaled() == 0);
    value
}

/// The Pareto scale where none is configured: 1000 microseconds.
pub fn default_pareto_xm() -> (xm: Binary64)
    ensures
        xm.bits == 0x408f_4000_0000_0000,
        xm.is_ratio(1000, 1),
{
    let value = Binary64::from_bits(0x408f_4000_0000_0000);
    proof {
        vstd::arithmetic::power2::lemma2_to64();
        lemma_ratio(value, 10, 1000, 1);
    }
    value
}

/// The Pareto shape where none is configured: one and a half.
pub fn default_pareto_alpha() -> (alpha: Binary64)
    ensures
        alpha.bits == 0x3ff8_0000_0000_0000,
        alpha.is_ratio(3, 2),
{
    let value = Binary64::from_bits(0x3ff8_0000_0000_0000);
    proof {
        vstd::arithmetic::power2::lemma2_to64();
        lemma_ratio(value, 1, 3, 2);
    }
    value
}

/// The latency clamp where none is configured.
pub fn default_max_us() -> (max: u64)
    ensures
        max == 1_000_000,
{
    1_000_000
}

impl Default for RootLayout {
    fn default() -> (layout: Self)
        ensures
            layout == RootLayout::Flat,
    {
        RootLayout::Flat
    }
}

impl Default for WriteMode {
    fn default() -> (mode: Self)
        ensures
            mode == WriteMode::Discard,
    {
        WriteMode::Discard
    }
}

impl Default for MountConfig {
    fn default() -> (mount: Self)
        ensures
            mount.fs_name@ == "fusecraft"@,
            mount.subtype@ == "sim"@,
            mount.auto_unmount,
            mount.default_permissions,
            !mount.read_only,
            !mount.direct_io,
    {
        MountConfig {
            fs_name: default_fs_name(),
            subtype: default_subtype(),
            auto_unmount: true,
            default_permissions: true,
            read_only: false,
            direct_io: false,
        }
    }
}

impl Default for FilesConfig {
    fn default() -> (files: Self)
        ensures
            files.inode_count == 1000,
            files.file_size_bytes == 65536,
            files.root_layout == RootLayout::Flat,
            files.write_mode == WriteMode::Discard,
    {
        FilesConfig {
            inode_count: default_inode_count(),
            file_size_bytes: default_file_size_bytes(),
            root_layout: RootLayout::Flat,
            write_mode: WriteMode::Discard,
        }
    }
}

impl LatencyProfile {
    /// The profile where none is configured.
    pub open spec fn standard() -> LatencyProfile {
        LatencyProfile {
            base_us: 0,
            lognormal_median_us: Binary64 { bits: 0x4059_0000_0000_0000 },
            lognormal_sigma: Binary64 { bits: 0x3fe0_0000_0000_0000 },
            pareto_weight: Binary64 { bits: 0 },
            pareto_xm_us: Binary64 { bits: 0x408f_4000_0000_0000 },
            pareto_alpha: Binary64 { bits: 0x3ff8_0000_0000_0000 },
            max_us: 1_000_000,
        }
    }
}

impl Default for LatencyProfile {
    fn default() -> (profile: Self)
        ensures
            profile == LatencyProfile::standard(),
    {
        LatencyProfile {
            base_us: 0,
            lognormal_median_us: default_lognormal_median(),
            lognormal_sigma: default_lognormal_sigma(),
            pareto_weight: default_pareto_weight(),
            pareto_xm_us: default_pareto_xm(),
            pareto_alpha: default_pareto_alpha(),
            max_us: default_max_us(),
        }
    }
}

impl TierModel {
    /// What holds for a tier of which nothing is configured.
    pub open spec fn standard() -> TierModel {
        TierModel { latency: LatencyProfile::standard(), bandwidth: None, faults: Seq::empty() }
    }
}

impl PolicyModel {
    /// What holds for an operation without a configured policy.
    pub open spec fn standard() -> PolicyModel {
        PolicyModel {
            concurrency_cap: 64,
            queue_cap: 0,
            base: TierModel::standard(),
            large: None,
        }
    }
}

impl Default for LargeTierPolicy {
    fn default() -> (policy: Self)
        ensures
            policy@ == TierModel::standard(),
    {
        LargeTierPolicy { latency: LatencyProfile::default(), bandwidth: None, faults: Vec::new() }
    }
}

impl Default for OpPolicy {
    fn default() -> (policy: Self)
        ensures
            policy@ == PolicyModel::standard(),
    {
        OpPolicy {
            concurrency_cap: default_concurrency_cap(),
            queue_cap: 0,
            latency: LatencyProfile::default(),
            bandwidth: None,
            faults: Vec::new(),
            size_tier: None,
        }
    }
}

impl Default for MetricsConfig {
    fn default() -> (metrics: Self)
        ensures
            metrics.jsonl_path is None,
    {
        MetricsConfig { jsonl_path: None }
    }
}

impl Default for OpTable {
    fn default() -> (table: Self)
        ensures
            table@ == Map::<FsOp, PolicyModel>::empty(),
    {
        OpTable::new()
    }
}

impl Default for Config {
    fn default() -> (config: Self)
        ensures
            config.seed == 42,
            config.mount.fs_name@ == "fusecraft"@,
            config.mount.subtype@ == "sim"@,
            config.mount.auto_unmount,
            config.mount.default_permissions,
            !config.mount.read_only,
            !config.mount.direct_io,
            config.files.inode_count == 1000,
            config.files.file_size_bytes == 65536,
            config.files.root_layout == RootLayout::Flat,
            config.files.write_mode == WriteMode::Discard,
            config.ops@ == Map::<FsOp, PolicyModel>::empty(),
            config.metrics.jsonl_path is None,
            config.valid(),
    {
        Config {
            seed: default_seed(),
            mount: MountConfig::default(),
            files: FilesConfig::default(),
            ops: OpTable::new(),
            metrics: MetricsConfig::default(),
        }
    }
}

// --- Errno names ---

/// The errno names that fault rules may give, with their values.
pub open spec fn named_errno(name: Seq<char>) -> Option<i32> {
    if name == "EIO"@ {
        Some(EIO)
    } else if name == "ENOENT"@ {
        Some(ENOENT)
    } else if name == "ESTALE"@ {
        Some(ESTALE)
    } else if name == "ENOSPC"@ {
        Some(ENOSPC)
    } else if name == "EAGAIN"@ {
        Some(EAGAIN)
    } else if name == "EINTR"@ {
        Some(EINTR)
    } else {
        None
    }
}

/// Parse an errno name string into its numeric value.
///
/// Supported: EIO, ENOENT, ESTALE, ENOSPC, EAGAIN, EINTR.
pub fn parse_errno(name: &str) -> (errno: Result<i32, FsError>)
    ensures
        match named_errno(name@) {
            Some(value) => errno == Ok::<i32, FsError>(value),
            None => errno matches Err(FsError::Config(reason)) && reason@ == "unknown errno: "@
                + name@,
        },
{
    if same_text(name, "EIO") {
        Ok(EIO)
    } else if same_text(name, "ENOENT") {
        Ok(ENOENT)
    } else if same_text(name, "ESTALE") {
        Ok(ESTALE)
    } else if same_text(name, "ENOSPC") {
        Ok(ENOSPC)
    } else if same_text(name, "EAGAIN") {
        Ok(EAGAIN)
    } else if same_text(name, "EINTR") {
        Ok(EINTR)
    } else {
        let mut reason = String::new();
        reason.append("unknown errno: ");
        reason.append(name);
        Err(FsError::Config(reason))
    }
}

/// The name by which a fault rule gives `errno`, if it has one.
pub fn errno_name(errno: i32) -> (name: Option<&'static str>)
    ensures
        match name {
            Some(text) => named_errno(text@) == Some(errno),
            None => forall|text: Seq<char>| named_errno(text) != Some(errno),
        },
{
    proof {
        lemma_errno_names_are_distinct();
    }
    if errno == EIO {
        Some("EIO")
    } else if errno == ENOENT {
        Some("ENOENT")
    } else if errno == ESTALE {
        Some("ESTALE")
    } else if errno == ENOSPC {
        Some("ENOSPC")
    } else if errno == EAGAIN {
        Some("EAGAIN")
    } else if errno == EINTR {
        Some("EINTR")
    } else {
        None
    }
}

/// The accepted errno names differ from one another.
proof fn lemma_errno_names_are_distinct()
    ensures
        named_errno("EIO"@) == Some(EIO),
        named_errno("ENOENT"@) == Some(ENOENT),
        named_errno("ESTALE"@) == Some(ESTALE),
        named_errno("ENOSPC"@) == Some(ENOSPC),
        named_errno("EAGAIN"@) == Some(EAGAIN),
        named_errno("EINTR"@) == Some(EINTR),
{
    reveal_strlit("EIO");
    reveal_strlit("ENOENT");
    reveal_strlit("ESTALE");
    reveal_strlit("ENOSPC");
    reveal_strlit("EAGAIN");
    reveal_strlit("EINTR");
    assert("EIO"@.len() == 3);
    assert("ENOENT"@[1] == 'N' && "ENOENT"@[3] == 'E' && "ENOENT"@.len() == 6);
    assert("ESTALE"@[1] == 'S' && "ESTALE"@.len() == 6);
    assert("ENOSPC"@[1] == 'N' && "ENOSPC"@[3] == 'S' && "ENOSPC"@.len() == 6);
    assert("EAGAIN"@[1] == 'A' && "EAGAIN"@.len() == 6);
    assert("EINTR"@[1] == 'I' && "EINTR"@.len() == 5);
}

// --- Laws ---

/// Errno names stand for the numbers of those errors, and no other text is one.
pub proof fn errno_names_stand_for_their_numbers(name: Seq<char>)
    ensures
        named_errno("EIO"@) == Some(5i32),
        named_errno("ENOENT"@) == Some(2i32),
        named_errno("ESTALE"@) == Some(116i32),
        named_errno("ENOSPC"@) == Some(28i32),
        named_errno("EAGAIN"@) == Some(11i32),
        named_errno("EINTR"@) == Some(4i32),
        named_errno(name) is Some <==> name == "EIO"@ || name == "ENOENT"@ || name == "ESTALE"@
            || name == "ENOSPC"@ || name == "EAGAIN"@ || name == "EINTR"@,
{
    lemma_errno_names_are_distinct();
}

/// Without a policy there are 64 slots and no queue, a lognormal latency around
/// 100 microseconds with a sigma of one half and no tail, up to one second, and
/// neither bandwidth limits nor faults nor a size tier.
pub proof fn the_standard_policy_is_mild()
    ensures
        ({
            let policy = PolicyModel::standard();
            let latency = policy.base.latency;
            &&& policy.concurrency_cap == 64
            &&& policy.queue_cap == 0
            &&& policy.large is None
            &&& policy.base.bandwidth is None
            &&& policy.base.faults.len() == 0
            &&& latency.base_us == 0
            &&& latency.max_us == 1_000_000
            &&& latency.lognormal_median_us.is_ratio(100, 1)
            &&& latency.lognormal_sigma.is_ratio(1, 2)
            &&& latency.pareto_weight.is_ratio(0, 1)
            &&& latency.pareto_xm_us.is_ratio(1000, 1)
            &&& latency.pareto_alpha.is_ratio(3, 2)
        }),
{
    let latency = LatencyProfile::standard();
    vstd::arithmetic::power2::lemma2_to64();
    lemma_ratio(latency.lognormal_median_us, 7, 100, 1);
    lemma_ratio(latency.lognormal_sigma, 0, 1, 2);
    lemma_ratio(latency.pareto_xm_us, 10, 1000, 1);
    lemma_ratio(latency.pareto_alpha, 1, 3, 2);
    assert(latency.pareto_weight.scaled() == 0);
}

} // verus!
