//! Planning the reduction stages.
//!
//! Leaves are handed to provers in groups of at most `capacity`. Each stage
//! turns `n` elements into `n / capacity` (rounded down), and stages are added
//! until what is left fits into one prover.

use vstd::prelude::*;
use crate::error::{rejection, validate, ConfigError};
use crate::hash::HashFunction;

verus! {

/// One reduction stage.
#[derive(Debug, PartialEq, Eq)]
pub struct LayerConfig {
    /// Number of the stage before this one; 0 for the first stage.
    pub prev_layer: usize,
    /// Elements that enter the stage.
    pub prev_layer_size: usize,
    /// Number of this stage, counted from 1.
    pub layer_number: usize,
    /// Elements that leave the stage.
    pub layer_size: usize,
    /// Provers used by all earlier stages together.
    pub prover_base: usize,
    /// One marker (the value 1) per element that leaves the stage.
    pub layer_leaves: Vec<usize>,
}

/// The stages of a plan and its totals.
#[derive(Debug, PartialEq, Eq)]
pub struct PlanSummary {
    /// The number of leaves that was planned for.
    pub witness_count: usize,
    /// The capacity that was planned for.
    pub per_prover: usize,
    /// Provers used by all stages together.
    pub prover_count: usize,
    /// Number of stages.
    pub total_layers: usize,
    /// Elements left after the last stage.
    pub last_layer_size: usize,
    /// The stages, the first one first.
    pub layers: Vec<LayerConfig>,
}

/// What the circuit template is rendered with: every field of the plan, and
/// the identifier of the hash backend.
#[derive(Debug, PartialEq, Eq)]
pub struct Config {
    pub hash_function: String,
    pub witness_count: usize,
    pub per_prover: usize,
    pub prover_count: usize,
    pub total_layers: usize,
    pub last_layer_size: usize,
    pub layers: Vec<LayerConfig>,
}

/// Mathematical content of a `LayerConfig`.
pub struct LayerModel {
    pub prev_layer: int,
    pub prev_layer_size: int,
    pub layer_number: int,
    pub layer_size: int,
    pub prover_base: int,
    pub layer_leaves: Seq<usize>,
}

/// Mathematical content of a `PlanSummary`.
pub struct PlanModel {
    pub witness_count: int,
    pub per_prover: int,
    pub prover_count: int,
    pub total_layers: int,
    pub last_layer_size: int,
    pub layers: Seq<LayerModel>,
}

/// Mathematical content of a `Config`.
pub struct ConfigModel {
    pub hash_function: Seq<char>,
    pub witness_count: int,
    pub per_prover: int,
    pub prover_count: int,
    pub total_layers: int,
    pub last_layer_size: int,
    pub layers: Seq<LayerModel>,
}

impl View for LayerConfig {
    type V = LayerModel;

    open spec fn view(&self) -> LayerModel {
        LayerModel {
            prev_layer: self.prev_layer as int,
            prev_layer_size: self.prev_layer_size as int,
            layer_number: self.layer_number as int,
            layer_size: self.layer_size as int,
            prover_base: self.prover_base as int,
            layer_leaves: self.layer_leaves@,
        }
    }
}

impl View for PlanSummary {
    type V = PlanModel;

    open spec fn view(&self) -> PlanModel {
        PlanModel {
            witness_count: self.witness_count as int,
            per_prover: self.per_prover as int,
            prover_count: self.prover_count as int,
            total_layers: self.total_layers as int,
            last_layer_size: self.last_layer_size as int,
            layers: Seq::new(self.layers@.len(), |k: int| self.layers@[k]@),
        }
    }
}

impl View for Config {
    type V = ConfigModel;

    open spec fn view(&self) -> ConfigModel {
        ConfigModel {
            hash_function: self.hash_function@,
            witness_count: self.witness_count as int,
            per_prover: self.per_prover as int,
            prover_count: self.prover_count as int,
            total_layers: self.total_layers as int,
            last_layer_size: self.last_layer_size as int,
            layers: Seq::new(self.layers@.len(), |k: int| self.layers@[k]@),
        }
    }
}

/// Elements left after `stages` reductions of `leaves` by `capacity`.
pub open spec fn size_after(leaves: int, capacity: int, stages: nat) -> int
    decreases stages,
{
    if stages == 0 {
        leaves
    } else {
        size_after(leaves, capacity, (stages - 1) as nat) / capacity
    }
}

/// Number of reductions until `leaves` elements fit into one prover.
pub open spec fn stage_count(leaves: int, capacity: int) -> nat
    decreases leaves,
{
    if capacity >= 2 && leaves > capacity {
        proof {
            lemma_quotient_smaller(leaves, capacity);
        }
        1 + stage_count(leaves / capacity, capacity)
    } else {
        0
    }
}

/// Provers used by the first `stages` stages: the sum of their output sizes.
pub open spec fn provers_before(leaves: int, capacity: int, stages: nat) -> int
    decreases stages,
{
    if stages == 0 {
        0
    } else {
        provers_before(leaves, capacity, (stages - 1) as nat) + size_after(leaves, capacity, stages)
    }
}

/// The stage at position `k` of the plan (position 0 holds stage 1).
pub open spec fn layer_at(leaves: int, capacity: int, k: nat) -> LayerModel {
    LayerModel {
        prev_layer: k as int,
        prev_layer_size: size_after(leaves, capacity, k),
        layer_number: k as int + 1,
        layer_size: size_after(leaves, capacity, (k + 1) as nat),
        prover_base: provers_before(leaves, capacity, k),
        layer_leaves: Seq::new(
            size_after(leaves, capacity, (k + 1) as nat) as nat,
            |i: int| 1usize,
        ),
    }
}

/// The plan for `leaves` leaves and provers of the given capacity.
pub open spec fn planned(leaves: int, capacity: int) -> PlanModel {
    let stages = stage_count(leaves, capacity);
    PlanModel {
        witness_count: leaves,
        per_prover: capacity,
        prover_count: provers_before(leaves, capacity, stages),
        total_layers: stages as int,
        last_layer_size: size_after(leaves, capacity, stages),
        layers: Seq::new(stages, |k: int| layer_at(leaves, capacity, k as nat)),
    }
}

/// A plan and a backend identifier put together, field by field.
pub open spec fn assembled(plan: PlanModel, backend: Seq<char>) -> ConfigModel {
    ConfigModel {
        hash_function: backend,
        witness_count: plan.witness_count,
        per_prover: plan.per_prover,
        prover_count: plan.prover_count,
        total_layers: plan.total_layers,
        last_layer_size: plan.last_layer_size,
        layers: plan.layers,
    }
}

/// Sum of the output sizes of a sequence of stages.
pub open spec fn total_layer_size(layers: Seq<LayerModel>) -> int
    decreases layers.len(),
{
    if layers.len() == 0 {
        0
    } else {
        total_layer_size(layers.drop_last()) + layers.last().layer_size
    }
}

impl PlanSummary {
    /// Holds of the summaries that `plan` returns, and of no others up to
    /// their content: the inputs are valid and the rest is their plan.
    pub open spec fn well_formed(&self) -> bool {
        &&& self.per_prover >= 2
        &&& self.witness_count >= 1
        &&& self@ == planned(self.witness_count as int, self.per_prover as int)
    }
}

/// What `plan` owes its caller: the error that `rejection` names, or else
/// exactly the plan.
pub open spec fn plan_result(
    witness_count: usize,
    per_prover: usize,
    result: Result<PlanSummary, ConfigError>,
) -> bool {
    match rejection(witness_count, per_prover) {
        Some(e) => result is Err && result->Err_0 == e,
        None => {
            &&& result is Ok
            &&& result->Ok_0@ == planned(witness_count as int, per_prover as int)
            &&& result->Ok_0.well_formed()
        },
    }
}

/// What `build_config` owes its caller: the error that `rejection` names, or
/// else exactly the plan, put together with the backend of the hash function.
pub open spec fn build_config_result(
    leaves: usize,
    prover_capacity: usize,
    hash_function: HashFunction,
    result: Result<Config, ConfigError>,
) -> bool {
    match rejection(leaves, prover_capacity) {
        Some(e) => result is Err && result->Err_0 == e,
        None => result is Ok && result->Ok_0@ == assembled(
            planned(leaves as int, prover_capacity as int),
            hash_function.backend_id_spec(),
        ),
    }
}

/// Dividing by two or more makes a positive number smaller, and by at least
/// half.
pub proof fn lemma_quotient_smaller(n: int, capacity: int)
    requires
        capacity >= 2,
        n >= 1,
    ensures
        0 <= n / capacity < n,
        2 * (n / capacity) <= n,
        n > capacity ==> n / capacity >= 1,
{
    assert(0 <= n / capacity < n && 2 * (n / capacity) <= n && (n > capacity ==> n / capacity
        >= 1)) by (nonlinear_arith)
        requires
            capacity >= 2,
            n >= 1,
    ;
}

/// Reducing once and then `stages` times is reducing `stages + 1` times.
pub proof fn lemma_size_after_shift(leaves: int, capacity: int, stages: nat)
    ensures
        size_after(leaves, capacity, stages + 1) == size_after(leaves / capacity, capacity, stages),
    decreases stages,
{
    assert(size_after(leaves, capacity, stages + 1) == size_after(leaves, capacity, stages)
        / capacity);
    if stages > 0 {
        lemma_size_after_shift(leaves, capacity, (stages - 1) as nat);
        assert(size_after(leaves / capacity, capacity, stages) == size_after(
            leaves / capacity,
            capacity,
            (stages - 1) as nat,
        ) / capacity);
    }
}

/// Every stage before the last reduction still holds more than one prover
/// can take, and at least one element.
pub proof fn lemma_stage_overfull(leaves: int, capacity: int, k: nat)
    requires
        capacity >= 2,
        leaves >= 1,
        k < stage_count(leaves, capacity),
    ensures
        size_after(leaves, capacity, k) > capacity,
        1 <= size_after(leaves, capacity, k + 1) < size_after(leaves, capacity, k),
    decreases k,
{
    lemma_quotient_smaller(leaves, capacity);
    if k > 0 {
        lemma_stage_overfull(leaves / capacity, capacity, (k - 1) as nat);
        lemma_size_after_shift(leaves, capacity, (k - 1) as nat);
    }
    lemma_quotient_smaller(size_after(leaves, capacity, k), capacity);
    assert(size_after(leaves, capacity, k + 1) == size_after(leaves, capacity, k) / capacity);
}

/// Later stages are smaller: the size after `j` reductions is below the size
/// after `i < j` reductions, as long as all `j` are part of the plan.
pub proof fn lemma_size_after_decreases(leaves: int, capacity: int, i: nat, j: nat)
    requires
        capacity >= 2,
        leaves >= 1,
        i < j <= stage_count(leaves, capacity),
    ensures
        size_after(leaves, capacity, j) < size_after(leaves, capacity, i),
    decreases j,
{
    lemma_stage_overfull(leaves, capacity, (j - 1) as nat);
    if i + 1 < j {
        lemma_size_after_decreases(leaves, capacity, i, (j - 1) as nat);
    }
}

/// What is left after the last stage fits into one prover.
pub proof fn lemma_last_layer_fits(leaves: int, capacity: int)
    requires
        capacity >= 2,
        leaves >= 1,
    ensures
        1 <= planned(leaves, capacity).last_layer_size <= capacity,
    decreases leaves,
{
    if leaves > capacity {
        lemma_quotient_smaller(leaves, capacity);
        lemma_last_layer_fits(leaves / capacity, capacity);
        lemma_size_after_shift(leaves, capacity, stage_count(leaves / capacity, capacity));
    }
}

/// The sizes of the stages are strictly decreasing along the plan, and each
/// stage puts out fewer elements than it takes in.
pub proof fn lemma_layer_sizes_strictly_decrease(leaves: int, capacity: int)
    requires
        capacity >= 2,
        leaves >= 1,
    ensures
        forall|i: int, j: int|
            0 <= i < j < planned(leaves, capacity).layers.len() ==> planned(
                leaves,
                capacity,
            ).layers[j].layer_size < planned(leaves, capacity).layers[i].layer_size,
        forall|k: int|
            0 <= k < planned(leaves, capacity).layers.len() ==> planned(
                leaves,
                capacity,
            ).layers[k].layer_size < planned(leaves, capacity).layers[k].prev_layer_size,
{
    let layers = planned(leaves, capacity).layers;
    assert forall|i: int, j: int| 0 <= i < j < layers.len() implies layers[j].layer_size
        < layers[i].layer_size by {
        lemma_size_after_decreases(leaves, capacity, (i + 1) as nat, (j + 1) as nat);
    }
    assert forall|k: int| 0 <= k < layers.len() implies layers[k].layer_size
        < layers[k].prev_layer_size by {
        lemma_stage_overfull(leaves, capacity, k as nat);
    }
}

/// A plan has no stage exactly when the leaves fit into one prover from the
/// start.
pub proof fn lemma_no_layers_iff_fits(leaves: int, capacity: int)
    requires
        capacity >= 2,
        leaves >= 1,
    ensures
        planned(leaves, capacity).total_layers == 0 <==> leaves <= capacity,
        planned(leaves, capacity).layers.len() == planned(leaves, capacity).total_layers,
        leaves <= capacity ==> planned(leaves, capacity).last_layer_size == leaves
            && planned(leaves, capacity).prover_count == 0,
{
}

/// The first `k` stages of a plan put out `provers_before(.., k)` elements
/// in all.
pub proof fn lemma_prefix_total(leaves: int, capacity: int, k: nat)
    ensures
        total_layer_size(Seq::new(k, |i: int| layer_at(leaves, capacity, i as nat)))
            == provers_before(leaves, capacity, k),
    decreases k,
{
    let prefix = Seq::new(k, |i: int| layer_at(leaves, capacity, i as nat));
    if k > 0 {
        let shorter = Seq::new((k - 1) as nat, |i: int| layer_at(leaves, capacity, i as nat));
        lemma_prefix_total(leaves, capacity, (k - 1) as nat);
        assert(prefix.drop_last() =~= shorter);
        assert(prefix.last().layer_size == size_after(leaves, capacity, k));
    }
}

/// The prover count of a plan is the sum of the sizes of its stages.
pub proof fn lemma_prover_count_is_total(leaves: int, capacity: int)
    ensures
        planned(leaves, capacity).prover_count == total_layer_size(
            planned(leaves, capacity).layers,
        ),
{
    lemma_prefix_total(leaves, capacity, stage_count(leaves, capacity));
}

/// What holds of every summary that `plan` returns: the rest fits into one
/// prover, there is no stage exactly when the leaves fit from the start, the
/// prover count is the sum of the stage sizes, and these sizes strictly
/// decrease.
pub proof fn lemma_well_formed_summary(summary: PlanSummary)
    requires
        summary.well_formed(),
    ensures
        1 <= summary.last_layer_size <= summary.per_prover,
        summary.total_layers == summary.layers@.len(),
        summary.total_layers == 0 <==> summary.witness_count <= summary.per_prover,
        summary.prover_count == total_layer_size(summary@.layers),
        forall|i: int, j: int|
            0 <= i < j < summary.layers@.len() ==> summary.layers@[j].layer_size
                < summary.layers@[i].layer_size,
        forall|k: int|
            0 <= k < summary.layers@.len() ==> summary.layers@[k].layer_size
                < summary.layers@[k].prev_layer_size,
{
    let leaves = summary.witness_count as int;
    let capacity = summary.per_prover as int;
    lemma_last_layer_fits(leaves, capacity);
    lemma_no_layers_iff_fits(leaves, capacity);
    lemma_prover_count_is_total(leaves, capacity);
    lemma_layer_sizes_strictly_decrease(leaves, capacity);
    assert(summary@.layers.len() == summary.layers@.len());
    assert forall|i: int, j: int|
        0 <= i < j < summary.layers@.len() implies summary.layers@[j].layer_size
        < summary.layers@[i].layer_size by {
        assert(summary@.layers[i] == summary.layers@[i]@);
        assert(summary@.layers[j] == summary.layers@[j]@);
    }
    assert forall|k: int| 0 <= k < summary.layers@.len() implies summary.layers@[k].layer_size
        < summary.layers@[k].prev_layer_size by {
        assert(summary@.layers[k] == summary.layers@[k]@);
    }
}

/// Planning is a function of its inputs: two results for the same leaf
/// count and capacity are the same error or hold the same plan.
pub proof fn lemma_plan_deterministic(
    witness_count: usize,
    per_prover: usize,
    first: Result<PlanSummary, ConfigError>,
    second: Result<PlanSummary, ConfigError>,
)
    requires
        plan_result(witness_count, per_prover, first),
        plan_result(witness_count, per_prover, second),
    ensures
        first is Ok <==> second is Ok,
        first is Ok ==> first->Ok_0@ == second->Ok_0@,
        first is Err ==> first->Err_0 == second->Err_0,
{
}

/// So is building a configuration: two results for the same leaf count,
/// capacity and hash function are the same error or hold the same content.
pub proof fn lemma_build_config_deterministic(
    leaves: usize,
    prover_capacity: usize,
    hash_function: HashFunction,
    first: Result<Config, ConfigError>,
    second: Result<Config, ConfigError>,
)
    requires
        build_config_result(leaves, prover_capacity, hash_function, first),
        build_config_result(leaves, prover_capacity, hash_function, second),
    ensures
        first is Ok <==> second is Ok,
        first is Ok ==> first->Ok_0@ == second->Ok_0@,
        first is Err ==> first->Err_0 == second->Err_0,
{
}

/// `vec![1; count]`: one marker per element.
fn unit_markers(count: usize) -> (markers: Vec<usize>)
    ensures
        markers@ == Seq::new(count as nat, |i: int| 1usize),
{
    let markers = vec![1usize; count];
    assert(markers@ =~= Seq::new(count as nat, |i: int| 1usize));
    markers
}

/// Plans the reduction stages for `witness_count` leaves and provers that
/// take `per_prover` elements each.
///
/// A capacity below two or an empty set of leaves is rejected; every other
/// input yields the plan.
pub fn plan(witness_count: usize, per_prover: usize) -> (result: Result<PlanSummary, ConfigError>)
    ensures
        plan_result(witness_count, per_prover, result),
{
    match validate(witness_count, per_prover) {
        Err(e) => {
            return Err(e);
        },
        Ok(_) => {},
    }
    let mut layers: Vec<LayerConfig> = Vec::new();
    let mut current_layer_size: usize = witness_count;
    let mut prev_layer: usize = 0;
    let mut provers: usize = 0;
    while current_layer_size > per_prover
        invariant
            per_prover >= 2,
            witness_count >= 1,
            current_layer_size >= 1,
            layers@.len() == prev_layer,
            current_layer_size == size_after(
                witness_count as int,
                per_prover as int,
                prev_layer as nat,
            ),
            provers == provers_before(witness_count as int, per_prover as int, prev_layer as nat),
            provers + current_layer_size <= witness_count,
            prev_layer + current_layer_size <= witness_count,
            stage_count(witness_count as int, per_prover as int) == prev_layer + stage_count(
                current_layer_size as int,
                per_prover as int,
            ),
            forall|k: int|
                0 <= k < prev_layer ==> (#[trigger] layers@[k])@ == layer_at(
                    witness_count as int,
                    per_prover as int,
                    k as nat,
                ),
        decreases current_layer_size,
    {
        proof {
            lemma_quotient_smaller(current_layer_size as int, per_prover as int);
        }
        let layer_size: usize = current_layer_size / per_prover;
        layers.push(
            LayerConfig {
                prev_layer,
                prev_layer_size: current_layer_size,
                layer_number: prev_layer + 1,
                layer_size,
                prover_base: provers,
                layer_leaves: unit_markers(layer_size),
            },
        );
        current_layer_size = layer_size;
        prev_layer = prev_layer + 1;
        provers = provers + layer_size;
    }
    let summary = PlanSummary {
        witness_count,
        per_prover,
        prover_count: provers,
        total_layers: prev_layer,
        last_layer_size: current_layer_size,
        layers,
    };
    assert(summary@.layers =~= planned(witness_count as int, per_prover as int).layers);
    Ok(summary)
}

/// Puts a plan and a backend identifier together, copying every field.
pub fn assemble(plan: PlanSummary, backend: String) -> (config: Config)
    ensures
        config@ == assembled(plan@, backend@),
        config.layers == plan.layers,
{
    let config = Config {
        hash_function: backend,
        witness_count: plan.witness_count,
        per_prover: plan.per_prover,
        prover_count: plan.prover_count,
        total_layers: plan.total_layers,
        last_layer_size: plan.last_layer_size,
        layers: plan.layers,
    };
    assert(config@.layers =~= plan@.layers);
    config
}

/// Plans the reduction stages for `leaves` leaves and provers that take
/// `prover_capacity` elements each, and puts the plan together with the
/// backend identifier of `hash_function`.
///
/// A capacity below two or an empty set of leaves is rejected; every other
/// input yields the configuration.
pub fn build_config(leaves: usize, prover_capacity: usize, hash_function: HashFunction) -> (result:
    Result<Config, ConfigError>)
    ensures
        build_config_result(leaves, prover_capacity, hash_function, result),
{
    match plan(leaves, prover_capacity) {
        Err(e) => Err(e),
        Ok(summary) => Ok(assemble(summary, hash_function.backend_id())),
    }
}

} // verus!
