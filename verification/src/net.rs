//! The decision fallback: a lightweight feed-forward evaluator.
//!
//! When the fast heuristics of a state are inconclusive, the slow path may
//! consult a stateless evaluator loaded once from bundled weight data.
//! The whole computation is integer, pure and side-effect-free: the same
//! features always score the same, so the evaluator can be swapped or
//! stubbed in tests.  The caller selects the highest-scoring action above
//! a confidence floor, or reports no decision.

use vstd::prelude::*;

verus! {

/// Weight magnitudes are bounded by this.
pub const WEIGHT_LIMIT: i64 = 1000;

/// Activations are clamped to this band between layers.
pub const ACTIVATION_LIMIT: i64 = 1_000_000;

/// A layer never has more than this many inputs.
pub const WIDTH_LIMIT: usize = 100;

/// One dense layer: a weight row and a bias per neuron.
#[derive(Clone, Debug)]
pub struct NetLayer {
    pub weights: Vec<Vec<i64>>,
    pub biases: Vec<i64>,
}

/// A stateless feed-forward evaluator.
#[derive(Clone, Debug)]
pub struct NeuralNetwork {
    pub layers: Vec<NetLayer>,
}

/// Dot product of the first `n` entries of `w` and `x`.
pub open spec fn dot_spec(w: Seq<i64>, x: Seq<i64>, n: int) -> int
    decreases n,
{
    if n <= 0 {
        0
    } else {
        dot_spec(w, x, n - 1) + w[n - 1] * x[n - 1]
    }
}

/// The activation: rectify, rescale from milli-weights, clamp.
pub open spec fn activation_spec(v: int) -> i64 {
    if v <= 0 {
        0
    } else if v / 1000 >= ACTIVATION_LIMIT {
        ACTIVATION_LIMIT
    } else {
        (v / 1000) as i64
    }
}

/// The value of neuron `k` of a layer on input `x`.
pub open spec fn neuron_spec(layer: NetLayer, x: Seq<i64>, k: int) -> i64 {
    activation_spec(dot_spec(layer.weights[k]@, x, x.len() as int) + layer.biases[k])
}

/// The output of a layer on input `x`.
pub open spec fn layer_forward_spec(layer: NetLayer, x: Seq<i64>) -> Seq<i64> {
    Seq::new(layer.weights@.len(), |k: int| neuron_spec(layer, x, k))
}

/// The output of the first `n` layers on input `x`.
pub open spec fn net_forward_spec(layers: Seq<NetLayer>, x: Seq<i64>, n: int) -> Seq<i64>
    decreases n,
{
    if n <= 0 {
        x
    } else {
        layer_forward_spec(layers[n - 1], net_forward_spec(layers, x, n - 1))
    }
}

/// Every entry of `x` is a clamped activation.
pub open spec fn activations_bounded(x: Seq<i64>) -> bool {
    forall|i: int| 0 <= i < x.len() ==> 0 <= #[trigger] x[i] <= ACTIVATION_LIMIT
}

/// Features fed to the evaluator stay inside the activation band.
pub open spec fn features_ok(x: Seq<i64>) -> bool {
    x.len() <= WIDTH_LIMIT && forall|i: int|
        0 <= i < x.len() ==> -ACTIVATION_LIMIT <= #[trigger] x[i] <= ACTIVATION_LIMIT
}

impl NetLayer {
    /// Shape and weight bounds of one layer against input width `w_in`.
    pub open spec fn wf(self, w_in: int) -> bool {
        &&& self.weights@.len() == self.biases@.len()
        &&& self.weights@.len() <= WIDTH_LIMIT
        &&& forall|k: int|
            0 <= k < self.weights@.len() ==> (#[trigger] self.weights@[k])@.len() == w_in
        &&& forall|k: int, j: int|
            0 <= k < self.weights@.len() && 0 <= j < w_in ==> -WEIGHT_LIMIT <= (
            #[trigger] self.weights@[k]@[j]) <= WEIGHT_LIMIT
        &&& forall|k: int|
            0 <= k < self.biases@.len() ==> -WEIGHT_LIMIT <= (#[trigger] self.biases@[k])
                <= WEIGHT_LIMIT
    }
}

impl NeuralNetwork {
    /// The layers chain: each consumes exactly what the one before yields.
    pub open spec fn wf(self, w_in: int) -> bool {
        &&& w_in <= WIDTH_LIMIT as int
        &&& forall|i: int|
            0 <= i < self.layers@.len() ==> (#[trigger] self.layers@[i]).wf(
                net_width(self.layers@, w_in, i),
            )
    }

    /// Run the evaluator on a feature vector.
    pub fn forward(&self, features: &Vec<i64>) -> (out: Vec<i64>)
        requires
            self.wf(features@.len() as int),
            features_ok(features@),
        ensures
            out@ == net_forward_spec(self.layers@, features@, self.layers@.len() as int),
    {
        let mut current: Vec<i64> = clone_i64_vec(features);
        let mut li: usize = 0;
        proof {
            assert(net_forward_spec(self.layers@, features@, 0) == features@);
        }
        while li < self.layers.len()
            invariant
                li <= self.layers@.len(),
                self.wf(features@.len() as int),
                features_ok(features@),
                current@ == net_forward_spec(self.layers@, features@, li as int),
                li == 0 ==> current@ == features@,
                li > 0 ==> activations_bounded(current@),
                current@.len() == net_width(self.layers@, features@.len() as int, li as int),
            decreases self.layers@.len() - li,
        {
            let next = layer_forward(&self.layers[li], &current);
            proof {
                assert(net_forward_spec(self.layers@, features@, li + 1) == layer_forward_spec(
                    self.layers@[li as int],
                    net_forward_spec(self.layers@, features@, li as int),
                ));
            }
            current = next;
            li += 1;
        }
        current
    }

    /// Score the actions of a state and pick the best one above the
    /// confidence floor: the first index of a maximal score, or no
    /// decision when no score reaches the floor.
    pub fn evaluate_action(&self, features: &Vec<i64>, confidence_floor: i64) -> (r: Option<
        usize,
    >)
        requires
            self.wf(features@.len() as int),
            features_ok(features@),
        ensures
            ({
                let scores = net_forward_spec(
                    self.layers@,
                    features@,
                    self.layers@.len() as int,
                );
                match r {
                    Some(i) => {
                        &&& 0 <= i < scores.len()
                        &&& scores[i as int] >= confidence_floor
                        &&& forall|j: int| 0 <= j < scores.len() ==> #[trigger] scores[j] <= scores[i as int]
                        &&& forall|j: int| 0 <= j < i ==> #[trigger] scores[j] < scores[i as int]
                    },
                    None => forall|j: int|
                        0 <= j < scores.len() ==> #[trigger] scores[j] < confidence_floor,
                }
            }),
    {
        let scores = self.forward(features);
        let mut best: Option<usize> = None;
        let mut i: usize = 0;
        while i < scores.len()
            invariant
                i <= scores@.len(),
                match best {
                    Some(b) => {
                        &&& 0 <= b < i
                        &&& forall|j: int| 0 <= j < i ==> #[trigger] scores@[j] <= scores@[b as int]
                        &&& forall|j: int| 0 <= j < b ==> #[trigger] scores@[j] < scores@[b as int]
                    },
                    None => i == 0,
                },
            decreases scores@.len() - i,
        {
            best = match best {
                Some(b) => {
                    if scores[i] > scores[b] {
                        Some(i)
                    } else {
                        Some(b)
                    }
                },
                None => Some(i),
            };
            i += 1;
        }
        match best {
            Some(b) => {
                if scores[b] >= confidence_floor {
                    Some(b)
                } else {
                    None
                }
            },
            None => None,
        }
    }
}

/// The width of the value flowing out of the first `n` layers.
pub open spec fn net_width(layers: Seq<NetLayer>, w_in: int, n: int) -> int
    decreases n,
{
    if n <= 0 {
        w_in
    } else {
        layers[n - 1].weights@.len() as int
    }
}

/// Copy a feature vector.
fn clone_i64_vec(v: &Vec<i64>) -> (out: Vec<i64>)
    ensures
        out@ == v@,
{
    let mut out: Vec<i64> = Vec::new();
    let mut i: usize = 0;
    while i < v.len()
        invariant
            i <= v@.len(),
            out@ =~= v@.take(i as int),
        decreases v@.len() - i,
    {
        out.push(v[i]);
        proof {
            assert(out@ =~= v@.take(i + 1));
        }
        i += 1;
    }
    proof {
        assert(out@ =~= v@);
    }
    out
}

/// Partial dot products over bounded entries stay small.
proof fn lemma_dot_bound(w: Seq<i64>, x: Seq<i64>, n: int)
    requires
        0 <= n <= w.len(),
        n <= x.len(),
        forall|j: int| 0 <= j < n ==> -WEIGHT_LIMIT <= #[trigger] w[j] <= WEIGHT_LIMIT,
        forall|j: int| 0 <= j < n ==> -ACTIVATION_LIMIT <= #[trigger] x[j] <= ACTIVATION_LIMIT,
    ensures
        -n * 1_000_000_000 <= dot_spec(w, x, n) <= n * 1_000_000_000,
    decreases n,
{
    if n > 0 {
        lemma_dot_bound(w, x, n - 1);
        assert(-1_000_000_000 <= w[n - 1] * x[n - 1] <= 1_000_000_000) by (nonlinear_arith)
            requires
                -WEIGHT_LIMIT <= w[n - 1] <= WEIGHT_LIMIT,
                -ACTIVATION_LIMIT <= x[n - 1] <= ACTIVATION_LIMIT,
        ;
    }
}

/// Run one layer on a bounded input.
fn layer_forward(layer: &NetLayer, x: &Vec<i64>) -> (out: Vec<i64>)
    requires
        layer.wf(x@.len() as int),
        forall|i: int| 0 <= i < x@.len() ==> -ACTIVATION_LIMIT <= #[trigger] x@[i] <= ACTIVATION_LIMIT,
        x@.len() <= WIDTH_LIMIT,
    ensures
        out@ == layer_forward_spec(*layer, x@),
        activations_bounded(out@),
        out@.len() == layer.weights@.len(),
{
    let mut out: Vec<i64> = Vec::new();
    let mut k: usize = 0;
    while k < layer.weights.len()
        invariant
            k <= layer.weights@.len(),
            layer.wf(x@.len() as int),
            forall|i: int|
                0 <= i < x@.len() ==> -ACTIVATION_LIMIT <= #[trigger] x@[i] <= ACTIVATION_LIMIT,
            x@.len() <= WIDTH_LIMIT,
            out@.len() == k,
            forall|i: int| 0 <= i < k ==> #[trigger] out@[i] == neuron_spec(*layer, x@, i),
            forall|i: int| 0 <= i < k ==> 0 <= #[trigger] out@[i] <= ACTIVATION_LIMIT,
        decreases layer.weights@.len() - k,
    {
        let row = &layer.weights[k];
        let mut acc: i64 = 0;
        let mut j: usize = 0;
        while j < row.len()
            invariant
                j <= row@.len(),
                row@.len() == x@.len(),
                row == layer.weights@[k as int],
                k < layer.weights@.len(),
                layer.wf(x@.len() as int),
                forall|i: int|
                    0 <= i < x@.len() ==> -ACTIVATION_LIMIT <= #[trigger] x@[i]
                        <= ACTIVATION_LIMIT,
                x@.len() <= WIDTH_LIMIT,
                acc == dot_spec(row@, x@, j as int),
                -(j as int) * 1_000_000_000 <= acc <= (j as int) * 1_000_000_000,
            decreases row@.len() - j,
        {
            proof {
                assert(-1_000_000_000 <= row@[j as int] * x@[j as int] <= 1_000_000_000)
                    by (nonlinear_arith)
                    requires
                        -WEIGHT_LIMIT <= row@[j as int] <= WEIGHT_LIMIT,
                        -ACTIVATION_LIMIT <= x@[j as int] <= ACTIVATION_LIMIT,
                ;
            }
            acc = acc + row[j] * x[j];
            j += 1;
        }
        let pre: i64 = acc + layer.biases[k];
        let v: i64 = if pre <= 0 {
            0
        } else {
            let scaled = pre / 1000;
            if scaled >= ACTIVATION_LIMIT {
                ACTIVATION_LIMIT
            } else {
                scaled
            }
        };
        proof {
            assert(v == neuron_spec(*layer, x@, k as int));
        }
        out.push(v);
        k += 1;
    }
    proof {
        assert(out@ =~= layer_forward_spec(*layer, x@));
    }
    out
}

} // verus!
