//! Activation: a clamping non-linearity applied in place after
//! re-quantization. Two policies are supported, selected per layer: plain
//! ReLU (`max(x, 0)`) and ReLU6 (`clamp(x, 0, 6)`).

use vstd::prelude::*;
use crate::requantize::clamp_spec;

verus! {

/// The activation policy applied after a hidden layer.
#[derive(Clone, Copy, Debug, PartialEq, Eq, Structural)]
pub enum Activation {
    /// `max(x, 0)`: negatives become 0, the upper bound is unchanged.
    Relu,
    /// `clamp(x, 0, 6)`.
    Relu6,
}

/// One activated value.
pub open spec fn act_val(a: Activation, x: int) -> int {
    match a {
        Activation::Relu => if x < 0 {
            0
        } else {
            x
        },
        Activation::Relu6 => clamp_spec(x, 0, 6),
    }
}

/// The whole vector, activated elementwise.
pub open spec fn activation_seq(s: Seq<i8>, a: Activation) -> Seq<i8> {
    Seq::new(s.len(), |k: int| act_val(a, s[k] as int) as i8)
}

/// Boundedness: after ReLU no element is negative; after ReLU6 every element
/// lies in `[0, 6]`.
pub proof fn lemma_activation_bounds(s: Seq<i8>, a: Activation)
    ensures
        forall|k: int| 0 <= k < s.len() ==> 0 <= activation_seq(s, a)[k] as int,
        a == Activation::Relu6 ==> forall|k: int|
            0 <= k < s.len() ==> activation_seq(s, a)[k] as int <= 6,
{
}

/// Apply the chosen activation in place.
pub fn apply_activation(data: &mut Vec<i8>, a: Activation)
    ensures
        final(data)@ == activation_seq(old(data)@, a),
{
    let ghost orig = data@;
    let mut k: usize = 0;
    while k < data.len()
        invariant
            k <= orig.len(),
            data@.len() == orig.len(),
            forall|j: int| 0 <= j < k ==> data@[j] == activation_seq(orig, a)[j],
            forall|j: int| k <= j < orig.len() ==> data@[j] == orig[j],
        decreases orig.len() - k,
    {
        let x = data[k];
        let v: i8 = match a {
            Activation::Relu => if x < 0 {
                0
            } else {
                x
            },
            Activation::Relu6 => if x < 0 {
                0
            } else if x > 6 {
                6
            } else {
                x
            },
        };
        data[k] = v;
        k += 1;
    }
    proof {
        assert(data@ =~= activation_seq(orig, a));
    }
}

/// Plain ReLU in place: negatives become 0.
pub fn relu_int8(data: &mut Vec<i8>)
    ensures
        final(data)@ == activation_seq(old(data)@, Activation::Relu),
        forall|k: int| 0 <= k < final(data)@.len() ==> 0 <= #[trigger] final(data)@[k] as int,
{
    apply_activation(data, Activation::Relu);
    proof {
        lemma_activation_bounds(old(data)@, Activation::Relu);
    }
}

/// ReLU6 in place: every element ends in `[0, 6]`.
pub fn relu6_int8(data: &mut Vec<i8>)
    ensures
        final(data)@ == activation_seq(old(data)@, Activation::Relu6),
        forall|k: int| 0 <= k < final(data)@.len() ==> 0 <= #[trigger] final(data)@[k] as int <= 6,
{
    apply_activation(data, Activation::Relu6);
    proof {
        lemma_activation_bounds(old(data)@, Activation::Relu6);
    }
}

} // verus!
