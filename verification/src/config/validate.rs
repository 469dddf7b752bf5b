//! Validation of a configuration.
//!
//! A configuration is checked rule by rule; the first rule that it breaks is
//! reported as a [`ConfigIssue`]. Operations are visited in the order of
//! [`FsOp::ALL`].

use vstd::prelude::*;

use crate::binary64::{lemma_ratio, one_scaled, Binary64};
use crate::config::{
    BandwidthProfile, Config, FaultRule, LatencyProfile, OpPolicy, PolicyModel, TierModel,
};
use crate::error::FsError;
use crate::op::{all_lists_every_op_once, FsOp, OP_COUNT};
use crate::text::{decimal, push_decimal};

verus! {

/// Which of a policy's two tiers a value stands in.
#[derive(Copy, Clone, Debug, PartialEq, Eq, Structural)]
pub enum Tier {
    /// The base policy.
    Base,
    /// The large tier of a size-keyed policy.
    Large,
}

/// The fields of a [`LatencyProfile`] that must be finite.
#[derive(Copy, Clone, Debug, PartialEq, Eq, Structural)]
pub enum LatencyField {
    LognormalMedianUs,
    LognormalSigma,
    ParetoWeight,
    ParetoXmUs,
    ParetoAlpha,
}

/// A rule that a latency profile breaks.
#[derive(Copy, Clone, Debug, PartialEq, Eq, Structural)]
pub enum LatencyIssue {
    /// A field is infinite or no number.
    NotFinite { field: LatencyField, value: Binary64 },
    /// The clamp lies below the fixed base.
    MaxBelowBase { max_us: u64, base_us: u64 },
    /// The Pareto weight is no probability.
    ParetoWeightRange { value: Binary64 },
    /// The Pareto shape is not positive though the tail is in use.
    ParetoAlphaNotPositive,
    /// The lognormal median is negative.
    LognormalMedianNegative,
    /// The lognormal sigma is negative.
    LognormalSigmaNegative,
}

/// A rule that a configuration breaks.
#[derive(Copy, Clone, Debug, PartialEq, Eq, Structural)]
pub enum ConfigIssue {
    /// There are no files.
    InodeCountZero,
    /// Files are empty.
    FileSizeZero,
    /// An operation could never be admitted.
    ConcurrencyCapZero { op: FsOp },
    /// A latency profile breaks a rule.
    Latency { op: FsOp, tier: Tier, issue: LatencyIssue },
    /// A fault rate is no probability.
    FaultRate { op: FsOp, tier: Tier, index: usize, rate: Binary64 },
    /// A size tier stands on an operation other than read and write.
    SizeTierOnMetadataOp { op: FsOp },
    /// The size threshold is zero.
    ThresholdZero { op: FsOp },
    /// A bandwidth is infinite or no number.
    BandwidthNotFinite { op: FsOp, tier: Tier, value: Binary64 },
}

// --- What is valid ---

impl FaultRule {
    /// Whether the rate is a probability.
    pub open spec fn valid(self) -> bool {
        self.rate.finite() && !self.rate.below(0) && !self.rate.above(one_scaled())
    }
}

impl BandwidthProfile {
    /// Whether the bandwidth is finite.
    pub open spec fn valid(self) -> bool {
        self.bytes_per_sec.finite()
    }
}

impl LatencyProfile {
    /// Whether the profile keeps every rule.
    pub open spec fn valid(self) -> bool {
        &&& self.lognormal_median_us.finite()
        &&& self.lognormal_sigma.finite()
        &&& self.pareto_weight.finite()
        &&& self.pareto_xm_us.finite()
        &&& self.pareto_alpha.finite()
        &&& self.base_us <= self.max_us
        &&& !self.pareto_weight.below(0)
        &&& !self.pareto_weight.above(one_scaled())
        &&& self.pareto_weight.above(0) ==> self.pareto_alpha.above(0)
        &&& !self.lognormal_median_us.below(0)
        &&& !self.lognormal_sigma.below(0)
    }

    /// The first rule that the profile breaks, if any.
    pub open spec fn issue(self) -> Option<LatencyIssue> {
        if !self.lognormal_median_us.finite() {
            Some(
                LatencyIssue::NotFinite {
                    field: LatencyField::LognormalMedianUs,
                    value: self.lognormal_median_us,
                },
            )
        } else if !self.lognormal_sigma.finite() {
            Some(
                LatencyIssue::NotFinite {
                    field: LatencyField::LognormalSigma,
                    value: self.lognormal_sigma,
                },
            )
        } else if !self.pareto_weight.finite() {
            Some(
                LatencyIssue::NotFinite {
                    field: LatencyField::ParetoWeight,
                    value: self.pareto_weight,
                },
            )
        } else if !self.pareto_xm_us.finite() {
            Some(
                LatencyIssue::NotFinite {
                    field: LatencyField::ParetoXmUs,
                    value: self.pareto_xm_us,
                },
            )
        } else if !self.pareto_alpha.finite() {
            Some(
                LatencyIssue::NotFinite {
                    field: LatencyField::ParetoAlpha,
                    value: self.pareto_alpha,
                },
            )
        } else if self.max_us < self.base_us {
            Some(LatencyIssue::MaxBelowBase { max_us: self.max_us, base_us: self.base_us })
        } else if self.pareto_weight.below(0) || self.pareto_weight.above(one_scaled()) {
            Some(LatencyIssue::ParetoWeightRange { value: self.pareto_weight })
        } else if self.pareto_weight.above(0) && !self.pareto_alpha.above(0) {
            Some(LatencyIssue::ParetoAlphaNotPositive)
        } else if self.lognormal_median_us.below(0) {
            Some(LatencyIssue::LognormalMedianNegative)
        } else if self.lognormal_sigma.below(0) {
            Some(LatencyIssue::LognormalSigmaNegative)
        } else {
            None
        }
    }
}

impl TierModel {
    /// Whether latency, bandwidth and fault rules keep every rule.
    pub open spec fn valid(self) -> bool {
        &&& self.latency.valid()
        &&& self.bandwidth is Some ==> self.bandwidth->0.valid()
        &&& forall|i: int| 0 <= i < self.faults.len() ==> (#[trigger] self.faults[i]).valid()
    }
}

impl PolicyModel {
    /// Whether this is a policy that `op` may have.
    pub open spec fn valid(self, op: FsOp) -> bool {
        &&& self.concurrency_cap > 0
        &&& self.base.valid()
        &&& self.large matches Some((threshold_bytes, tier)) ==> {
            &&& op.moves_data()
            &&& threshold_bytes > 0
            &&& tier.valid()
        }
    }
}

impl Config {
    /// Whether the configuration keeps every rule.
    pub open spec fn valid(self) -> bool {
        &&& self.files.inode_count > 0
        &&& self.files.file_size_bytes > 0
        &&& forall|op: FsOp| #[trigger]
            self.ops@.contains_key(op) ==> self.ops@[op].valid(op)
    }
}

// --- The first issue ---

/// The first of two findings.
pub open spec fn first_of(a: Option<ConfigIssue>, b: Option<ConfigIssue>) -> Option<ConfigIssue> {
    if a is Some {
        a
    } else {
        b
    }
}

/// What is wrong with the latency profile of a tier.
pub open spec fn latency_finding(op: FsOp, tier: Tier, latency: LatencyProfile) -> Option<
    ConfigIssue,
> {
    match latency.issue() {
        Some(issue) => Some(ConfigIssue::Latency { op, tier, issue }),
        None => None,
    }
}

/// What is wrong with the fault rules of a tier, from position `from` on.
pub open spec fn faults_finding(
    op: FsOp,
    tier: Tier,
    faults: Seq<FaultRule>,
    from: int,
) -> Option<ConfigIssue>
    decreases faults.len() - from,
{
    if from >= faults.len() {
        None
    } else if !faults[from].valid() {
        Some(ConfigIssue::FaultRate { op, tier, index: from as usize, rate: faults[from].rate })
    } else {
        faults_finding(op, tier, faults, from + 1)
    }
}

/// What is wrong with the bandwidth of a tier.
pub open spec fn bandwidth_finding(
    op: FsOp,
    tier: Tier,
    bandwidth: Option<BandwidthProfile>,
) -> Option<ConfigIssue> {
    match bandwidth {
        Some(profile) if !profile.valid() => Some(
            ConfigIssue::BandwidthNotFinite { op, tier, value: profile.bytes_per_sec },
        ),
        _ => None,
    }
}

/// What is wrong with the large tier of a policy.
pub open spec fn large_finding(op: FsOp, policy: PolicyModel) -> Option<ConfigIssue> {
    match policy.large {
        None => None,
        Some((threshold_bytes, tier)) => if !op.moves_data() {
            Some(ConfigIssue::SizeTierOnMetadataOp { op })
        } else if threshold_bytes == 0 {
            Some(ConfigIssue::ThresholdZero { op })
        } else {
            first_of(
                latency_finding(op, Tier::Large, tier.latency),
                first_of(
                    faults_finding(op, Tier::Large, tier.faults, 0),
                    bandwidth_finding(op, Tier::Large, tier.bandwidth),
                ),
            )
        },
    }
}

/// What is wrong with the policy of `op`.
pub open spec fn policy_finding(op: FsOp, policy: PolicyModel) -> Option<ConfigIssue> {
    if policy.concurrency_cap == 0 {
        Some(ConfigIssue::ConcurrencyCapZero { op })
    } else {
        first_of(
            latency_finding(op, Tier::Base, policy.base.latency),
            first_of(
                faults_finding(op, Tier::Base, policy.base.faults, 0),
                first_of(
                    large_finding(op, policy),
                    bandwidth_finding(op, Tier::Base, policy.base.bandwidth),
                ),
            ),
        )
    }
}

/// What is wrong with the configured policies, from position `from` of
/// [`FsOp::ALL`] on.
pub open spec fn ops_finding(ops: Map<FsOp, PolicyModel>, from: int) -> Option<ConfigIssue>
    decreases OP_COUNT - from,
{
    if from >= OP_COUNT {
        None
    } else {
        let op = FsOp::at(from);
        first_of(
            if ops.contains_key(op) {
                policy_finding(op, ops[op])
            } else {
                None
            },
            ops_finding(ops, from + 1),
        )
    }
}

impl Config {
    /// The first rule that the configuration breaks, if any.
    pub open spec fn issue(self) -> Option<ConfigIssue> {
        if self.files.inode_count == 0 {
            Some(ConfigIssue::InodeCountZero)
        } else if self.files.file_size_bytes == 0 {
            Some(ConfigIssue::FileSizeZero)
        } else {
            ops_finding(self.ops@, 0)
        }
    }

    /// Check every rule that a configuration must keep.
    ///
    /// Fails with the first rule that is broken, and succeeds exactly on the
    /// valid configurations.
    pub fn validate(&self) -> (checked: Result<(), ConfigIssue>)
        ensures
            match checked {
                Ok(_) => self.valid() && self.issue() is None,
                Err(issue) => !self.valid() && self.issue() == Some(issue),
            },
    {
        proof {
            no_issue_means_valid(*self);
        }
        if self.files.inode_count == 0 {
            return Err(ConfigIssue::InodeCountZero);
        }
        if self.files.file_size_bytes == 0 {
            return Err(ConfigIssue::FileSizeZero);
        }
        let mut i: usize = 0;
        while i < OP_COUNT
            invariant
                i <= OP_COUNT,
                self.files.inode_count > 0,
                self.files.file_size_bytes > 0,
                self.issue() == ops_finding(self.ops@, i as int),
                self.issue() is None <==> self.valid(),
            decreases OP_COUNT - i,
        {
            let op = FsOp::ALL[i];
            if let Some(policy) = self.ops.get(op) {
                if let Err(issue) = validate_op_policy(op, policy) {
                    return Err(issue);
                }
            }
            i = i + 1;
        }
        Ok(())
    }
}

/// Check the rules for the policy of one operation.
fn validate_op_policy(op: FsOp, policy: &OpPolicy) -> (checked: Result<(), ConfigIssue>)
    ensures
        policy_finding(op, policy@) == (match checked {
            Ok(_) => None::<ConfigIssue>,
            Err(issue) => Some(issue),
        }),
{
    if policy.concurrency_cap == 0 {
        return Err(ConfigIssue::ConcurrencyCapZero { op });
    }
    if let Some(issue) = validate_latency(&policy.latency) {
        return Err(ConfigIssue::Latency { op, tier: Tier::Base, issue });
    }
    if let Err(issue) = validate_faults(op, Tier::Base, &policy.faults) {
        return Err(issue);
    }
    if let Some(tier) = &policy.size_tier {
        if !op.is_data() {
            return Err(ConfigIssue::SizeTierOnMetadataOp { op });
        }
        if tier.threshold_bytes == 0 {
            return Err(ConfigIssue::ThresholdZero { op });
        }
        if let Some(issue) = validate_latency(&tier.large.latency) {
            return Err(ConfigIssue::Latency { op, tier: Tier::Large, issue });
        }
        if let Err(issue) = validate_faults(op, Tier::Large, &tier.large.faults) {
            return Err(issue);
        }
        if let Err(issue) = validate_bandwidth(op, Tier::Large, tier.large.bandwidth) {
            return Err(issue);
        }
    }
    validate_bandwidth(op, Tier::Base, policy.bandwidth)
}

/// Check that every fault rate is a probability.
fn validate_faults(op: FsOp, tier: Tier, faults: &Vec<FaultRule>) -> (checked: Result<
    (),
    ConfigIssue,
>)
    ensures
        faults_finding(op, tier, faults@, 0) == (match checked {
            Ok(_) => None::<ConfigIssue>,
            Err(issue) => Some(issue),
        }),
{
    let mut i: usize = 0;
    while i < faults.len()
        invariant
            i <= faults@.len(),
            faults_finding(op, tier, faults@, 0) == faults_finding(op, tier, faults@, i as int),
        decreases faults@.len() - i,
    {
        let rate = faults[i].rate;
        if !rate.is_finite() || rate.lt_zero() || rate.gt_one() {
            return Err(ConfigIssue::FaultRate { op, tier, index: i, rate });
        }
        i = i + 1;
    }
    Ok(())
}

/// Check that a bandwidth is finite.
fn validate_bandwidth(op: FsOp, tier: Tier, bandwidth: Option<BandwidthProfile>) -> (checked:
    Result<(), ConfigIssue>)
    ensures
        bandwidth_finding(op, tier, bandwidth) == (match checked {
            Ok(_) => None::<ConfigIssue>,
            Err(issue) => Some(issue),
        }),
{
    if let Some(profile) = bandwidth {
        if !profile.bytes_per_sec.is_finite() {
            return Err(
                ConfigIssue::BandwidthNotFinite { op, tier, value: profile.bytes_per_sec },
            );
        }
    }
    Ok(())
}

/// The first rule that a latency profile breaks, if any.
fn validate_latency(latency: &LatencyProfile) -> (found: Option<LatencyIssue>)
    ensures
        found == latency.issue(),
{
    // Values that are no numbers are refused up front: the comparisons below
    // would let them pass.
    let fields = [
        (LatencyField::LognormalMedianUs, latency.lognormal_median_us),
        (LatencyField::LognormalSigma, latency.lognormal_sigma),
        (LatencyField::ParetoWeight, latency.pareto_weight),
        (LatencyField::ParetoXmUs, latency.pareto_xm_us),
        (LatencyField::ParetoAlpha, latency.pareto_alpha),
    ];
    let mut i: usize = 0;
    while i < 5
        invariant
            i <= 5,
            fields@ == seq![
                (LatencyField::LognormalMedianUs, latency.lognormal_median_us),
                (LatencyField::LognormalSigma, latency.lognormal_sigma),
                (LatencyField::ParetoWeight, latency.pareto_weight),
                (LatencyField::ParetoXmUs, latency.pareto_xm_us),
                (LatencyField::ParetoAlpha, latency.pareto_alpha),
            ],
            forall|j: int| 0 <= j < i ==> (#[trigger] fields@[j]).1.finite(),
        decreases 5 - i,
    {
        let (field, value) = fields[i];
        proof {
            assert(i > 0 ==> fields@[0].1.finite());
            assert(i > 1 ==> fields@[1].1.finite());
            assert(i > 2 ==> fields@[2].1.finite());
            assert(i > 3 ==> fields@[3].1.finite());
        }
        if !value.is_finite() {
            return Some(LatencyIssue::NotFinite { field, value });
        }
        i = i + 1;
    }
    proof {
        assert(fields@[0].1.finite());
        assert(fields@[1].1.finite());
        assert(fields@[2].1.finite());
        assert(fields@[3].1.finite());
        assert(fields@[4].1.finite());
    }
    if latency.max_us < latency.base_us {
        return Some(
            LatencyIssue::MaxBelowBase { max_us: latency.max_us, base_us: latency.base_us },
        );
    }
    if latency.pareto_weight.lt_zero() || latency.pareto_weight.gt_one() {
        return Some(LatencyIssue::ParetoWeightRange { value: latency.pareto_weight });
    }
    if latency.pareto_weight.gt_zero() && latency.pareto_alpha.le_zero() {
        return Some(LatencyIssue::ParetoAlphaNotPositive);
    }
    if latency.lognormal_median_us.lt_zero() {
        return Some(LatencyIssue::LognormalMedianNegative);
    }
    if latency.lognormal_sigma.lt_zero() {
        return Some(LatencyIssue::LognormalSigmaNegative);
    }
    None
}

// --- Messages ---

impl LatencyField {
    /// The key of the field in a configuration file.
    pub open spec fn name(self) -> Seq<char> {
        match self {
            LatencyField::LognormalMedianUs => "lognormal_median_us"@,
            LatencyField::LognormalSigma => "lognormal_sigma"@,
            LatencyField::ParetoWeight => "pareto_weight"@,
            LatencyField::ParetoXmUs => "pareto_xm_us"@,
            LatencyField::ParetoAlpha => "pareto_alpha"@,
        }
    }

    /// The key of the field in a configuration file.
    pub fn as_str(self) -> (name: &'static str)
        ensures
            name@ == self.name(),
    {
        match self {
            LatencyField::LognormalMedianUs => "lognormal_median_us",
            LatencyField::LognormalSigma => "lognormal_sigma",
            LatencyField::ParetoWeight => "pareto_weight",
            LatencyField::ParetoXmUs => "pareto_xm_us",
            LatencyField::ParetoAlpha => "pareto_alpha",
        }
    }
}

/// The path of a tier of the policy of `op` in a configuration file.
pub open spec fn tier_path(op: FsOp, tier: Tier) -> Seq<char> {
    match tier {
        Tier::Base => "ops."@ + op.name(),
        Tier::Large => "ops."@ + op.name() + ".size_tier.large"@,
    }
}

/// Append the path of a tier of the policy of `op` to `out`.
fn push_tier_path(out: &mut String, op: FsOp, tier: Tier)
    ensures
        final(out)@ == old(out)@ + tier_path(op, tier),
{
    out.append("ops.");
    out.append(op.as_str());
    match tier {
        Tier::Base => {},
        Tier::Large => out.append(".size_tier.large"),
    }
    assert(out@ =~= old(out)@ + tier_path(op, tier));
}

impl LatencyIssue {
    /// The value that is reported with the issue, if it is a `binary64`.
    pub open spec fn offending(self) -> Option<Binary64> {
        match self {
            LatencyIssue::NotFinite { value, .. } => Some(value),
            LatencyIssue::ParetoWeightRange { value } => Some(value),
            _ => None,
        }
    }

    /// What is wrong, after the path of the profile; `shown` is the text of
    /// the offending value.
    pub open spec fn text(self, shown: Seq<char>) -> Seq<char> {
        match self {
            LatencyIssue::NotFinite { field, .. } => "."@ + field.name() + " must be finite, got "@
                + shown,
            LatencyIssue::MaxBelowBase { max_us, base_us } => ".max_us ("@ + decimal(max_us as nat)
                + ") must be >= base_us ("@ + decimal(base_us as nat) + ")"@,
            LatencyIssue::ParetoWeightRange { .. } =>
                ".pareto_weight must be in [0.0, 1.0], got "@ + shown,
            LatencyIssue::ParetoAlphaNotPositive =>
                ".pareto_alpha must be > 0.0 when pareto_weight > 0"@,
            LatencyIssue::LognormalMedianNegative => ".lognormal_median_us must be >= 0.0"@,
            LatencyIssue::LognormalSigmaNegative => ".lognormal_sigma must be >= 0.0"@,
        }
    }

    /// Append what is wrong to `out`; `shown` is the text of the offending value.
    fn push_text(self, out: &mut String, shown: &str)
        ensures
            final(out)@ == old(out)@ + self.text(shown@),
    {
        match self {
            LatencyIssue::NotFinite { field, .. } => {
                out.append(".");
                out.append(field.as_str());
                out.append(" must be finite, got ");
                out.append(shown);
            },
            LatencyIssue::MaxBelowBase { max_us, base_us } => {
                out.append(".max_us (");
                push_decimal(out, max_us);
                out.append(") must be >= base_us (");
                push_decimal(out, base_us);
                out.append(")");
            },
            LatencyIssue::ParetoWeightRange { .. } => {
                out.append(".pareto_weight must be in [0.0, 1.0], got ");
                out.append(shown);
            },
            LatencyIssue::ParetoAlphaNotPositive => {
                out.append(".pareto_alpha must be > 0.0 when pareto_weight > 0");
            },
            LatencyIssue::LognormalMedianNegative => {
                out.append(".lognormal_median_us must be >= 0.0");
            },
            LatencyIssue::LognormalSigmaNegative => {
                out.append(".lognormal_sigma must be >= 0.0");
            },
        }
        assert(out@ =~= old(out)@ + self.text(shown@));
    }
}

impl ConfigIssue {
    /// The value that is reported with the issue, if it is a `binary64`.
    pub open spec fn offending(self) -> Option<Binary64> {
        match self {
            ConfigIssue::Latency { issue, .. } => issue.offending(),
            ConfigIssue::FaultRate { rate, .. } => Some(rate),
            ConfigIssue::BandwidthNotFinite { value, .. } => Some(value),
            _ => None,
        }
    }

    /// The value whose text [`ConfigIssue::message`] shows, if there is one.
    pub fn value(&self) -> (value: Option<Binary64>)
        ensures
            value == self.offending(),
    {
        match *self {
            ConfigIssue::Latency { issue, .. } => match issue {
                LatencyIssue::NotFinite { value, .. } => Some(value),
                LatencyIssue::ParetoWeightRange { value } => Some(value),
                _ => None,
            },
            ConfigIssue::FaultRate { rate, .. } => Some(rate),
            ConfigIssue::BandwidthNotFinite { value, .. } => Some(value),
            _ => None,
        }
    }

    /// The issue as a line of text; `shown` is the text of the offending value.
    pub open spec fn text(self, shown: Seq<char>) -> Seq<char> {
        match self {
            ConfigIssue::InodeCountZero => "files.inode_count must be > 0"@,
            ConfigIssue::FileSizeZero => "files.file_size_bytes must be > 0"@,
            ConfigIssue::ConcurrencyCapZero { op } => tier_path(op, Tier::Base)
                + ".concurrency_cap must be > 0"@,
            ConfigIssue::Latency { op, tier, issue } => tier_path(op, tier) + ".latency"@
                + issue.text(shown),
            ConfigIssue::FaultRate { op, tier, index, .. } => tier_path(op, tier) + ".faults["@
                + decimal(index as nat) + "].rate must be a finite value in [0.0, 1.0], got "@
                + shown,
            ConfigIssue::SizeTierOnMetadataOp { op } => tier_path(op, Tier::Base)
                + ".size_tier is only valid on Read or Write ops, not "@ + op.name(),
            ConfigIssue::ThresholdZero { op } => tier_path(op, Tier::Base)
                + ".size_tier.threshold_bytes must be > 0 (a zero threshold is equivalent to not setting size_tier at all — configure the base policy directly instead)"@,
            ConfigIssue::BandwidthNotFinite { op, tier, .. } => tier_path(op, tier)
                + ".bandwidth.bytes_per_sec must be finite, got "@ + shown,
        }
    }

    /// The issue as a line of text; `shown` is the text of [`ConfigIssue::value`].
    pub fn message(&self, shown: &str) -> (text: String)
        ensures
            text@ == self.text(shown@),
    {
        let mut out = String::new();
        match *self {
            ConfigIssue::InodeCountZero => out.append("files.inode_count must be > 0"),
            ConfigIssue::FileSizeZero => out.append("files.file_size_bytes must be > 0"),
            ConfigIssue::ConcurrencyCapZero { op } => {
                push_tier_path(&mut out, op, Tier::Base);
                out.append(".concurrency_cap must be > 0");
            },
            ConfigIssue::Latency { op, tier, issue } => {
                push_tier_path(&mut out, op, tier);
                out.append(".latency");
                issue.push_text(&mut out, shown);
            },
            ConfigIssue::FaultRate { op, tier, index, .. } => {
                push_tier_path(&mut out, op, tier);
                out.append(".faults[");
                push_decimal(&mut out, index as u64);
                out.append("].rate must be a finite value in [0.0, 1.0], got ");
                out.append(shown);
            },
            ConfigIssue::SizeTierOnMetadataOp { op } => {
                push_tier_path(&mut out, op, Tier::Base);
                out.append(".size_tier is only valid on Read or Write ops, not ");
                out.append(op.as_str());
            },
            ConfigIssue::ThresholdZero { op } => {
                push_tier_path(&mut out, op, Tier::Base);
                out.append(
                    ".size_tier.threshold_bytes must be > 0 (a zero threshold is equivalent to not setting size_tier at all — configure the base policy directly instead)",
                );
            },
            ConfigIssue::BandwidthNotFinite { op, tier, .. } => {
                push_tier_path(&mut out, op, tier);
                out.append(".bandwidth.bytes_per_sec must be finite, got ");
                out.append(shown);
            },
        }
        assert(out@ =~= self.text(shown@));
        out
    }

    /// The issue as an error of the filesystem; `shown` is the text of
    /// [`ConfigIssue::value`].
    pub fn to_error(&self, shown: &str) -> (error: FsError)
        ensures
            error matches FsError::Config(reason) && reason@ == self.text(shown@),
    {
        FsError::Config(self.message(shown))
    }
}

// --- Laws ---

/// A configuration has no issue exactly if it keeps every rule.
pub proof fn no_issue_means_valid(config: Config)
    ensures
        config.issue() is None <==> config.valid(),
{
    lemma_no_ops_finding(config.ops@, 0);
    if config.files.inode_count > 0 && config.files.file_size_bytes > 0 {
        if config.issue() is None {
            let ops = config.ops@;
            assert forall|op: FsOp| #[trigger] ops.contains_key(op) implies ops[op].valid(op) by {
                all_lists_every_op_once(op, 0);
                assert(FsOp::at(op.position()) == op);
            }
        }
    }
}

proof fn lemma_no_ops_finding(ops: Map<FsOp, PolicyModel>, from: int)
    requires
        0 <= from <= OP_COUNT,
    ensures
        ops_finding(ops, from) is None <==> forall|i: int|
            from <= i < OP_COUNT && ops.contains_key(#[trigger] FsOp::at(i)) ==> ops[FsOp::at(
                i,
            )].valid(FsOp::at(i)),
    decreases OP_COUNT - from,
{
    if from < OP_COUNT {
        let op = FsOp::at(from);
        lemma_no_ops_finding(ops, from + 1);
        if ops.contains_key(op) {
            lemma_no_policy_finding(op, ops[op]);
        }
    }
}

proof fn lemma_no_policy_finding(op: FsOp, policy: PolicyModel)
    ensures
        policy_finding(op, policy) is None <==> policy.valid(op),
{
    lemma_no_faults_finding(op, Tier::Base, policy.base.faults, 0);
    lemma_no_latency_issue(policy.base.latency);
    if let Some((threshold_bytes, tier)) = policy.large {
        lemma_no_faults_finding(op, Tier::Large, tier.faults, 0);
        lemma_no_latency_issue(tier.latency);
    }
}

proof fn lemma_no_latency_issue(latency: LatencyProfile)
    ensures
        latency.issue() is None <==> latency.valid(),
{
}

proof fn lemma_no_faults_finding(op: FsOp, tier: Tier, faults: Seq<FaultRule>, from: int)
    requires
        0 <= from,
    ensures
        faults_finding(op, tier, faults, from) is None <==> forall|i: int|
            from <= i < faults.len() ==> (#[trigger] faults[i]).valid(),
    decreases faults.len() - from,
{
    if from < faults.len() {
        lemma_no_faults_finding(op, tier, faults, from + 1);
    }
}

/// An operation without a configured policy gets a valid one.
pub proof fn standard_policy_is_valid(op: FsOp)
    ensures
        PolicyModel::standard().valid(op),
{
    let latency = LatencyProfile::standard();
    vstd::arithmetic::power2::lemma2_to64();
    vstd::arithmetic::power2::lemma_pow2_pos(1074);
    lemma_ratio(latency.lognormal_median_us, 7, 100, 1);
    lemma_ratio(latency.lognormal_sigma, 0, 1, 2);
    assert(latency.pareto_weight.scaled() == 0);
}

/// A configuration is valid exactly if there are files and they are not empty,
/// and every configured policy admits somebody, has rates and weights from zero
/// to one, finite numbers, no clamp below its base, a positive Pareto shape where
/// the tail is in use, and a size tier only on reads and writes, above zero.
pub proof fn validity_is_what_the_rules_say(config: Config)
    ensures
        config.valid() <==> {
            &&& config.files.inode_count != 0
            &&& config.files.file_size_bytes != 0
            &&& forall|op: FsOp| #[trigger]
                config.ops@.contains_key(op) ==> {
                    let policy = config.ops@[op];
                    &&& policy.concurrency_cap != 0
                    &&& tier_keeps_the_rules(policy.base)
                    &&& policy.large is Some ==> {
                        &&& op is Read || op is Write
                        &&& (policy.large->0).0 != 0
                        &&& tier_keeps_the_rules((policy.large->0).1)
                    }
                }
        },
{
    assert forall|op: FsOp| #[trigger] config.ops@.contains_key(op) implies (
    config.ops@[op].valid(op) <==> {
        let policy = config.ops@[op];
        &&& policy.concurrency_cap != 0
        &&& tier_keeps_the_rules(policy.base)
        &&& policy.large is Some ==> {
            &&& op is Read || op is Write
            &&& (policy.large->0).0 != 0
            &&& tier_keeps_the_rules((policy.large->0).1)
        }
    }) by {
        lemma_tier_rules(config.ops@[op].base);
        if let Some((_, tier)) = config.ops@[op].large {
            lemma_tier_rules(tier);
        }
    }
}

/// A finite number from zero to one.
pub open spec fn probability(value: Binary64) -> bool {
    value.finite() && 0 <= value.scaled() <= one_scaled()
}

/// Whether the numbers of a tier keep to the rules.
pub open spec fn tier_keeps_the_rules(tier: TierModel) -> bool {
    let latency = tier.latency;
    &&& probability(latency.pareto_weight)
    &&& latency.lognormal_median_us.finite() && latency.lognormal_median_us.scaled() >= 0
    &&& latency.lognormal_sigma.finite() && latency.lognormal_sigma.scaled() >= 0
    &&& latency.pareto_xm_us.finite()
    &&& latency.pareto_alpha.finite()
    &&& latency.pareto_weight.scaled() > 0 ==> latency.pareto_alpha.scaled() > 0
    &&& latency.base_us <= latency.max_us
    &&& forall|i: int| 0 <= i < tier.faults.len() ==> probability((#[trigger] tier.faults[i]).rate)
    &&& tier.bandwidth is Some ==> tier.bandwidth->0.bytes_per_sec.finite()
}

proof fn lemma_tier_rules(tier: TierModel)
    ensures
        tier.valid() <==> tier_keeps_the_rules(tier),
{
    if tier.valid() {
        assert forall|i: int| 0 <= i < tier.faults.len() implies probability(
            (#[trigger] tier.faults[i]).rate,
        ) by {
            assert(tier.faults[i].valid());
        }
    }
    if tier_keeps_the_rules(tier) {
        assert forall|i: int| 0 <= i < tier.faults.len() implies (
        #[trigger] tier.faults[i]).valid() by {
            assert(probability(tier.faults[i].rate));
        }
    }
}

/// Whether an issue is true of a latency profile.
pub open spec fn latency_issue_is_true(issue: LatencyIssue, latency: LatencyProfile) -> bool {
    match issue {
        LatencyIssue::NotFinite { field, value } => {
            &&& !value.finite()
            &&& value == match field {
                LatencyField::LognormalMedianUs => latency.lognormal_median_us,
                LatencyField::LognormalSigma => latency.lognormal_sigma,
                LatencyField::ParetoWeight => latency.pareto_weight,
                LatencyField::ParetoXmUs => latency.pareto_xm_us,
                LatencyField::ParetoAlpha => latency.pareto_alpha,
            }
        },
        LatencyIssue::MaxBelowBase { max_us, base_us } => max_us == latency.max_us && base_us
            == latency.base_us && max_us < base_us,
        LatencyIssue::ParetoWeightRange { value } => value == latency.pareto_weight && (
        value.scaled() < 0 || value.scaled() > one_scaled()),
        LatencyIssue::ParetoAlphaNotPositive => latency.pareto_weight.scaled() > 0
            && latency.pareto_alpha.scaled() <= 0,
        LatencyIssue::LognormalMedianNegative => latency.lognormal_median_us.scaled() < 0,
        LatencyIssue::LognormalSigmaNegative => latency.lognormal_sigma.scaled() < 0,
    }
}

/// What a policy prescribes in a tier, if it has that tier.
pub open spec fn tier_in(policy: PolicyModel, tier: Tier) -> Option<TierModel> {
    match (tier, policy.large) {
        (Tier::Base, _) => Some(policy.base),
        (Tier::Large, Some((_, large))) => Some(large),
        (Tier::Large, None) => None,
    }
}

/// Whether an issue is true of the policy of an operation.
pub open spec fn issue_is_true_of(issue: ConfigIssue, op: FsOp, policy: PolicyModel) -> bool {
    match issue {
        ConfigIssue::InodeCountZero => false,
        ConfigIssue::FileSizeZero => false,
        ConfigIssue::ConcurrencyCapZero { op: named } => named == op && policy.concurrency_cap == 0,
        ConfigIssue::Latency { op: named, tier, issue: latency } => named == op && (tier_in(
            policy,
            tier,
        ) matches Some(rules) && latency_issue_is_true(latency, rules.latency)),
        ConfigIssue::FaultRate { op: named, tier, index, rate } => named == op && (tier_in(
            policy,
            tier,
        ) matches Some(rules) && index < rules.faults.len() && rate == rules.faults[index as int].rate
            && !probability(rate)),
        ConfigIssue::SizeTierOnMetadataOp { op: named } => named == op && policy.large is Some
            && !(op is Read || op is Write),
        ConfigIssue::ThresholdZero { op: named } => named == op && policy.large is Some && (
        policy.large->0).0 == 0,
        ConfigIssue::BandwidthNotFinite { op: named, tier, value } => named == op && (tier_in(
            policy,
            tier,
        ) matches Some(rules) && rules.bandwidth is Some && value
            == rules.bandwidth->0.bytes_per_sec && !value.finite()),
    }
}

/// What is reported is true: the rule that an issue names is broken, at the place
/// and by the value that it names.
pub proof fn issues_are_true(config: Config)
    requires
        forall|op: FsOp| #[trigger]
            config.ops@.contains_key(op) ==> {
                &&& config.ops@[op].base.faults.len() <= usize::MAX
                &&& config.ops@[op].large is Some ==> (config.ops@[op].large->0).1.faults.len()
                    <= usize::MAX
            },
    ensures
        config.issue() matches Some(issue) ==> {
            ||| issue is InodeCountZero && config.files.inode_count == 0
            ||| issue is FileSizeZero && config.files.file_size_bytes == 0
            ||| exists|op: FsOp| #[trigger]
                config.ops@.contains_key(op) && issue_is_true_of(issue, op, config.ops@[op])
        },
{
    lemma_ops_issue_is_true(config.ops@, 0);
}

proof fn lemma_ops_issue_is_true(ops: Map<FsOp, PolicyModel>, from: int)
    requires
        0 <= from <= OP_COUNT,
        forall|op: FsOp| #[trigger]
            ops.contains_key(op) ==> {
                &&& ops[op].base.faults.len() <= usize::MAX
                &&& ops[op].large is Some ==> (ops[op].large->0).1.faults.len() <= usize::MAX
            },
    ensures
        ops_finding(ops, from) matches Some(issue) ==> exists|op: FsOp| #[trigger]
            ops.contains_key(op) && issue_is_true_of(issue, op, ops[op]),
    decreases OP_COUNT - from,
{
    if from < OP_COUNT {
        lemma_ops_issue_is_true(ops, from + 1);
        let op = FsOp::at(from);
        if ops.contains_key(op) {
            lemma_policy_issue_is_true(op, ops[op]);
        }
    }
}

proof fn lemma_policy_issue_is_true(op: FsOp, policy: PolicyModel)
    requires
        policy.base.faults.len() <= usize::MAX,
        policy.large is Some ==> (policy.large->0).1.faults.len() <= usize::MAX,
    ensures
        policy_finding(op, policy) matches Some(issue) ==> issue_is_true_of(issue, op, policy),
{
    lemma_faults_issue_is_true(op, Tier::Base, policy.base.faults, 0);
    if let Some((_, tier)) = policy.large {
        lemma_faults_issue_is_true(op, Tier::Large, tier.faults, 0);
    }
}

proof fn lemma_faults_issue_is_true(op: FsOp, tier: Tier, faults: Seq<FaultRule>, from: int)
    requires
        0 <= from,
        faults.len() <= usize::MAX,
    ensures
        faults_finding(op, tier, faults, from) matches Some(issue) ==> (issue
            matches ConfigIssue::FaultRate { op: named, tier: place, index, rate } && named == op
            && place == tier && index < faults.len() && rate == faults[index as int].rate
            && !probability(rate)),
    decreases faults.len() - from,
{
    if from < faults.len() {
        lemma_faults_issue_is_true(op, tier, faults, from + 1);
    }
}

/// Issues come in order: those of the files before those of the policies, those
/// of a policy before those of later kinds, and those of a fault rule before
/// those of later rules.
pub proof fn issues_come_in_order(config: Config)
    requires
        forall|op: FsOp| #[trigger]
            config.ops@.contains_key(op) ==> {
                &&& config.ops@[op].base.faults.len() <= usize::MAX
                &&& config.ops@[op].large is Some ==> (config.ops@[op].large->0).1.faults.len()
                    <= usize::MAX
            },
    ensures
        config.files.inode_count == 0 <==> config.issue() == Some(ConfigIssue::InodeCountZero),
        config.files.inode_count != 0 && config.files.file_size_bytes == 0 <==> config.issue()
            == Some(ConfigIssue::FileSizeZero),
        config.issue() matches Some(issue) && !(issue is InodeCountZero) && !(issue is FileSizeZero)
            ==> exists|op: FsOp| #[trigger]
            config.ops@.contains_key(op) && first_in_policy(config.issue()->0, op, config.ops@[op])
                && forall|other: FsOp| #[trigger]
                config.ops@.contains_key(other) && other.position() < op.position()
                    ==> config.ops@[other].valid(other),
{
    lemma_ops_issue_is_true(config.ops@, 0);
    lemma_ops_in_order(config.ops@, 0);
}

/// Whether an issue is true of a policy, and those that are looked for before it
/// are not.
pub open spec fn first_in_policy(issue: ConfigIssue, op: FsOp, policy: PolicyModel) -> bool {
    let base = policy.base;
    let faults_fine = |faults: Seq<FaultRule>, n: int|
        forall|j: int| 0 <= j < n ==> probability((#[trigger] faults[j]).rate);
    &&& issue_is_true_of(issue, op, policy)
    &&& issue is ConcurrencyCapZero || policy.concurrency_cap != 0
    &&& match issue {
        ConfigIssue::ConcurrencyCapZero { .. } => true,
        ConfigIssue::Latency { tier: Tier::Base, .. } => true,
        ConfigIssue::FaultRate { tier: Tier::Base, index, .. } => base.latency.valid()
            && faults_fine(base.faults, index as int),
        _ => base.latency.valid() && faults_fine(base.faults, base.faults.len() as int),
    }
    &&& match issue {
        ConfigIssue::Latency { tier: Tier::Large, .. } => (op is Read || op is Write) && (
        policy.large->0).0 != 0,
        ConfigIssue::FaultRate { tier: Tier::Large, index, .. } => (
        policy.large->0).1.latency.valid() && faults_fine((policy.large->0).1.faults, index as int),
        ConfigIssue::ThresholdZero { .. } => op is Read || op is Write,
        ConfigIssue::BandwidthNotFinite { tier: Tier::Large, .. } => (
        policy.large->0).1.latency.valid() && faults_fine(
            (policy.large->0).1.faults,
            (policy.large->0).1.faults.len() as int,
        ),
        ConfigIssue::BandwidthNotFinite { tier: Tier::Base, .. } => policy.large is Some ==> (
        policy.large->0).1.valid(),
        _ => true,
    }
}

proof fn lemma_ops_in_order(ops: Map<FsOp, PolicyModel>, from: int)
    requires
        0 <= from <= OP_COUNT,
        forall|op: FsOp| #[trigger]
            ops.contains_key(op) ==> {
                &&& ops[op].base.faults.len() <= usize::MAX
                &&& ops[op].large is Some ==> (ops[op].large->0).1.faults.len() <= usize::MAX
            },
    ensures
        ops_finding(ops, from) matches Some(issue) ==> exists|op: FsOp| #[trigger]
            ops.contains_key(op) && op.position() >= from && first_in_policy(issue, op, ops[op])
                && forall|other: FsOp| #[trigger]
                ops.contains_key(other) && from <= other.position() < op.position()
                    ==> ops[other].valid(other),
    decreases OP_COUNT - from,
{
    if from < OP_COUNT && ops_finding(ops, from) is Some {
        let issue = ops_finding(ops, from)->0;
        let here = FsOp::at(from);
        all_lists_every_op_once(here, from);
        lemma_ops_in_order(ops, from + 1);
        if ops.contains_key(here) && policy_finding(here, ops[here]) is Some {
            lemma_policy_in_order(here, ops[here]);
            assert(ops.contains_key(here) && first_in_policy(issue, here, ops[here]));
        } else {
            if ops.contains_key(here) {
                lemma_no_policy_finding(here, ops[here]);
            }
            let op = choose|op: FsOp| #[trigger]
                ops.contains_key(op) && op.position() >= from + 1 && first_in_policy(
                    issue,
                    op,
                    ops[op],
                ) && forall|other: FsOp| #[trigger]
                    ops.contains_key(other) && from + 1 <= other.position() < op.position()
                        ==> ops[other].valid(other);
            assert forall|other: FsOp| #[trigger]
                ops.contains_key(other) && from <= other.position()
                    < op.position() implies ops[other].valid(other) by {
                all_lists_every_op_once(other, from);
            }
            assert(ops.contains_key(op));
        }
    }
}

proof fn lemma_policy_in_order(op: FsOp, policy: PolicyModel)
    requires
        policy.base.faults.len() <= usize::MAX,
        policy.large is Some ==> (policy.large->0).1.faults.len() <= usize::MAX,
    ensures
        policy_finding(op, policy) matches Some(issue) ==> first_in_policy(issue, op, policy),
{
    lemma_policy_issue_is_true(op, policy);
    lemma_faults_in_order(op, Tier::Base, policy.base.faults, 0);
    lemma_no_latency_issue(policy.base.latency);
    lemma_no_faults_finding(op, Tier::Base, policy.base.faults, 0);
    lemma_faults_are_probabilities(policy.base.faults);
    if let Some((_, tier)) = policy.large {
        lemma_faults_in_order(op, Tier::Large, tier.faults, 0);
        lemma_no_latency_issue(tier.latency);
        lemma_no_faults_finding(op, Tier::Large, tier.faults, 0);
        lemma_faults_are_probabilities(tier.faults);
    }
}

proof fn lemma_faults_are_probabilities(faults: Seq<FaultRule>)
    ensures
        (forall|i: int| 0 <= i < faults.len() ==> (#[trigger] faults[i]).valid()) ==> forall|i: int|
            0 <= i < faults.len() ==> probability((#[trigger] faults[i]).rate),
{
    if forall|i: int| 0 <= i < faults.len() ==> (#[trigger] faults[i]).valid() {
        assert forall|i: int| 0 <= i < faults.len() implies probability(
            (#[trigger] faults[i]).rate,
        ) by {
            assert(faults[i].valid());
        }
    }
}

proof fn lemma_faults_in_order(op: FsOp, tier: Tier, faults: Seq<FaultRule>, from: int)
    requires
        0 <= from,
        faults.len() <= usize::MAX,
    ensures
        faults_finding(op, tier, faults, from) matches Some(issue) ==> (issue
            matches ConfigIssue::FaultRate { op: named, tier: place, index, .. } && named == op
            && place == tier && from <= index && forall|j: int|
            from <= j < index ==> probability((#[trigger] faults[j]).rate)),
    decreases faults.len() - from,
{
    if from < faults.len() && faults[from].valid() {
        lemma_faults_in_order(op, tier, faults, from + 1);
        assert(probability(faults[from].rate));
    }
}

/// The message on a fault rule names its place and ends with the offending value,
/// and rules are told apart by their numbers.
pub proof fn fault_messages_name_their_place(
    op: FsOp,
    tier: Tier,
    index: usize,
    other: usize,
    rate: Binary64,
    shown: Seq<char>,
)
    ensures
        ({
            let text = (ConfigIssue::FaultRate { op, tier, index, rate }).text(shown);
            &&& ("ops."@ + op.name()).is_prefix_of(text)
            &&& shown.is_suffix_of(text)
            &&& text == (ConfigIssue::FaultRate { op, tier, index: other, rate }).text(shown)
                ==> index == other
        }),
{
    let path = "ops."@ + op.name();
    let large = if tier is Large {
        ".size_tier.large"@
    } else {
        Seq::empty()
    };
    let front = path + large + ".faults["@;
    let words = "].rate must be a finite value in [0.0, 1.0], got "@;
    let text = (ConfigIssue::FaultRate { op, tier, index, rate }).text(shown);
    let second = (ConfigIssue::FaultRate { op, tier, index: other, rate }).text(shown);
    assert(tier_path(op, tier) =~= path + large);
    assert(text == front + decimal(index as nat) + words + shown);
    assert(second == front + decimal(other as nat) + words + shown);
    lemma_ends(path, large + ".faults["@ + decimal(index as nat) + words, shown, text);
    if text == second {
        assert(front + decimal(index as nat) + (words + shown) =~= text);
        assert(front + decimal(other as nat) + (words + shown) =~= second);
        lemma_same_middle(front, decimal(index as nat), decimal(other as nat), words + shown);
        crate::text::decimals_differ(index as nat, other as nat);
    }
}

/// The message on a bandwidth names its place and ends with the offending value.
pub proof fn bandwidth_messages_name_their_place(
    op: FsOp,
    tier: Tier,
    value: Binary64,
    shown: Seq<char>,
)
    ensures
        ({
            let text = (ConfigIssue::BandwidthNotFinite { op, tier, value }).text(shown);
            &&& ("ops."@ + op.name()).is_prefix_of(text)
            &&& shown.is_suffix_of(text)
        }),
{
    let path = "ops."@ + op.name();
    let large = if tier is Large {
        ".size_tier.large"@
    } else {
        Seq::empty()
    };
    assert(tier_path(op, tier) =~= path + large);
    lemma_ends(
        path,
        large + ".bandwidth.bytes_per_sec must be finite, got "@,
        shown,
        (ConfigIssue::BandwidthNotFinite { op, tier, value }).text(shown),
    );
}

proof fn lemma_ends(front: Seq<char>, middle: Seq<char>, back: Seq<char>, text: Seq<char>)
    requires
        text =~= front + middle + back,
    ensures
        front.is_prefix_of(text),
        back.is_suffix_of(text),
{
    assert(text.subrange(0, front.len() as int) =~= front);
    assert(text.subrange(text.len() - back.len(), text.len() as int) =~= back);
}

proof fn lemma_same_middle(front: Seq<char>, a: Seq<char>, b: Seq<char>, back: Seq<char>)
    requires
        front + a + back =~= front + b + back,
    ensures
        a == b,
{
    let text = front + a + back;
    assert(text == front + b + back);
    assert(a =~= text.subrange(front.len() as int, text.len() - back.len()));
    assert(b =~= text.subrange(front.len() as int, text.len() - back.len()));
}

/// The value that is shown with an issue is the one that breaks the rule.
pub proof fn the_offending_value_is_shown(
    op: FsOp,
    tier: Tier,
    index: usize,
    field: LatencyField,
    value: Binary64,
)
    ensures
        (ConfigIssue::FaultRate { op, tier, index, rate: value }).offending() == Some(value),
        (ConfigIssue::BandwidthNotFinite { op, tier, value }).offending() == Some(value),
        (ConfigIssue::Latency {
            op,
            tier,
            issue: LatencyIssue::NotFinite { field, value },
        }).offending() == Some(value),
        (ConfigIssue::Latency {
            op,
            tier,
            issue: LatencyIssue::ParetoWeightRange { value },
        }).offending() == Some(value),
{
}

} // verus!
