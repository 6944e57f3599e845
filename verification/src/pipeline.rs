//! Pipeline orchestrator: the three-layer fully-connected network
//! (784 -> 256 -> 128 -> 10) evaluated in pure integer arithmetic.
//!
//! A forward pass composes: quantizer -> [scaled matmul -> re-quantizer ->
//! activation] for the first two layers -> scaled matmul for the output
//! layer (no activation) -> argmax. The model (weights and scales) is
//! read-only after construction; inference holds no mutable shared state.

use vstd::prelude::*;
use crate::activation::{Activation, activation_seq, apply_activation};
use crate::classify::{argmax_seq, argmax_int32, lemma_argmax_properties};
use crate::matmul::{WeightMatrix, matmul_seq, int8_matmul_symmetric};
use crate::quantize::{quantize_seq, normalize_and_quantize_input};
use crate::requantize::{RequantMode, requantize_seq, requantize_with_mode};
use crate::weights::{blob_ok, blob_weights, blob_scale, parse_weight_binary};
use crate::InferenceError;

verus! {

/// Pixels in one image (28 x 28 grayscale).
pub const IMAGE_SIZE: usize = 784;

/// Rows of the first fully-connected layer.
pub const FC1_ROWS: usize = 256;

/// Columns of the first fully-connected layer.
pub const FC1_COLS: usize = 784;

/// Rows of the second fully-connected layer.
pub const FC2_ROWS: usize = 128;

/// Columns of the second fully-connected layer.
pub const FC2_COLS: usize = 256;

/// Rows of the output layer: one per digit class.
pub const FC3_ROWS: usize = 10;

/// Columns of the output layer.
pub const FC3_COLS: usize = 128;

/// The configuration choices the pipeline leaves open: the activation policy
/// after each hidden layer, and the clamp bound of the re-quantizer.
#[derive(Clone, Copy, PartialEq, Eq, Structural)]
pub struct PipelineConfig {
    /// Activation applied after the first hidden layer.
    pub fc1_activation: Activation,
    /// Activation applied after the second hidden layer.
    pub fc2_activation: Activation,
    /// Clamp bound used by both re-quantization steps.
    pub requant_mode: RequantMode,
}

impl PipelineConfig {
    /// The reference configuration: plain ReLU after both hidden layers and
    /// the full `[-128, 127]` clamp.
    pub open spec fn reference_config() -> PipelineConfig {
        PipelineConfig {
            fc1_activation: Activation::Relu,
            fc2_activation: Activation::Relu,
            requant_mode: RequantMode::FullRange,
        }
    }

    /// The reference configuration, as a machine value.
    pub fn reference() -> (r: PipelineConfig)
        ensures
            r == PipelineConfig::reference_config(),
    {
        PipelineConfig {
            fc1_activation: Activation::Relu,
            fc2_activation: Activation::Relu,
            requant_mode: RequantMode::FullRange,
        }
    }
}

/// The model and the pipeline around it: three weight matrices, three Q16
/// scale factors, and the configuration. Immutable after construction.
pub struct Inference {
    fc1_weights: WeightMatrix,
    fc2_weights: WeightMatrix,
    fc3_weights: WeightMatrix,
    fc1_scale_q16: i32,
    fc2_scale_q16: i32,
    fc3_scale_q16: i32,
    config: PipelineConfig,
}

impl Inference {
    /// Well-formedness: every matrix holds exactly the entries its fixed
    /// shape asks for.
    pub open spec fn wf(&self) -> bool {
        &&& self.spec_fc1().wf()
        &&& self.spec_fc1().spec_rows() == FC1_ROWS
        &&& self.spec_fc1().spec_cols() == FC1_COLS
        &&& self.spec_fc2().wf()
        &&& self.spec_fc2().spec_rows() == FC2_ROWS
        &&& self.spec_fc2().spec_cols() == FC2_COLS
        &&& self.spec_fc3().wf()
        &&& self.spec_fc3().spec_rows() == FC3_ROWS
        &&& self.spec_fc3().spec_cols() == FC3_COLS
    }

    /// The first layer's weights.
    pub closed spec fn spec_fc1(&self) -> WeightMatrix {
        self.fc1_weights
    }

    /// The second layer's weights.
    pub closed spec fn spec_fc2(&self) -> WeightMatrix {
        self.fc2_weights
    }

    /// The output layer's weights.
    pub closed spec fn spec_fc3(&self) -> WeightMatrix {
        self.fc3_weights
    }

    /// The three Q16 scale factors.
    pub closed spec fn spec_scales(&self) -> (int, int, int) {
        (self.fc1_scale_q16 as int, self.fc2_scale_q16 as int, self.fc3_scale_q16 as int)
    }

    /// The configuration the pipeline runs with.
    pub closed spec fn spec_config(&self) -> PipelineConfig {
        self.config
    }

    /// Build the model from the three layers' weight blobs, with the given
    /// configuration. Fails with `MalformedWeights` exactly when one of the
    /// blobs is shorter than its layer needs.
    pub fn with_config(
        fc1_data: &[u8],
        fc2_data: &[u8],
        fc3_data: &[u8],
        config: PipelineConfig,
    ) -> (r: Result<Inference, InferenceError>)
        ensures
            r is Ok <==> blob_ok(fc1_data@, FC1_ROWS as int, FC1_COLS as int) && blob_ok(
                fc2_data@,
                FC2_ROWS as int,
                FC2_COLS as int,
            ) && blob_ok(fc3_data@, FC3_ROWS as int, FC3_COLS as int),
            r is Err ==> r == Err::<Inference, InferenceError>(InferenceError::MalformedWeights),
            r matches Ok(inf) ==> inf.wf() && inf.spec_fc1().entries() == blob_weights(
                fc1_data@,
                FC1_ROWS as int,
                FC1_COLS as int,
            ) && inf.spec_fc2().entries() == blob_weights(
                fc2_data@,
                FC2_ROWS as int,
                FC2_COLS as int,
            ) && inf.spec_fc3().entries() == blob_weights(
                fc3_data@,
                FC3_ROWS as int,
                FC3_COLS as int,
            ) && inf.spec_scales() == (
                blob_scale(fc1_data@),
                blob_scale(fc2_data@),
                blob_scale(fc3_data@),
            ) && inf.spec_config() == config,
    {
        let fc1 = parse_weight_binary(fc1_data, FC1_ROWS, FC1_COLS);
        let fc2 = parse_weight_binary(fc2_data, FC2_ROWS, FC2_COLS);
        let fc3 = parse_weight_binary(fc3_data, FC3_ROWS, FC3_COLS);
        match (fc1, fc2, fc3) {
            (Ok((fc1_weights, fc1_scale_q16)), Ok((fc2_weights, fc2_scale_q16)), Ok(
                (fc3_weights, fc3_scale_q16),
            )) => Ok(
                Inference {
                    fc1_weights,
                    fc2_weights,
                    fc3_weights,
                    fc1_scale_q16,
                    fc2_scale_q16,
                    fc3_scale_q16,
                    config,
                },
            ),
            _ => Err(InferenceError::MalformedWeights),
        }
    }

    /// Build the model with the reference configuration (plain ReLU, full
    /// clamp range).
    pub fn new(fc1_data: &[u8], fc2_data: &[u8], fc3_data: &[u8]) -> (r: Result<
        Inference,
        InferenceError,
    >)
        ensures
            r is Ok <==> blob_ok(fc1_data@, FC1_ROWS as int, FC1_COLS as int) && blob_ok(
                fc2_data@,
                FC2_ROWS as int,
                FC2_COLS as int,
            ) && blob_ok(fc3_data@, FC3_ROWS as int, FC3_COLS as int),
            r is Err ==> r == Err::<Inference, InferenceError>(InferenceError::MalformedWeights),
            r matches Ok(inf) ==> inf.wf() && inf.spec_fc1().entries() == blob_weights(
                fc1_data@,
                FC1_ROWS as int,
                FC1_COLS as int,
            ) && inf.spec_fc2().entries() == blob_weights(
                fc2_data@,
                FC2_ROWS as int,
                FC2_COLS as int,
            ) && inf.spec_fc3().entries() == blob_weights(
                fc3_data@,
                FC3_ROWS as int,
                FC3_COLS as int,
            ) && inf.spec_scales() == (
                blob_scale(fc1_data@),
                blob_scale(fc2_data@),
                blob_scale(fc3_data@),
            ) && inf.spec_config() == PipelineConfig::reference_config(),
    {
        Inference::with_config(fc1_data, fc2_data, fc3_data, PipelineConfig::reference())
    }
}

/// The quantized input after the quantizer stage.
pub open spec fn spec_stage_input(image: Seq<u8>) -> Seq<i8> {
    quantize_seq(image)
}

/// One hidden layer: scaled matmul, re-quantization, activation.
pub open spec fn spec_hidden_layer(
    w: WeightMatrix,
    x: Seq<i8>,
    scale: int,
    low: int,
    a: Activation,
) -> Seq<i8> {
    activation_seq(
        requantize_seq(matmul_seq(w.entries(), w.spec_rows(), w.spec_cols(), x, scale), low),
        a,
    )
}

/// The output layer's raw scaled accumulators (no activation).
pub open spec fn spec_output_layer(inf: Inference, image: Seq<u8>) -> Seq<i32> {
    let cfg = inf.spec_config();
    let low = cfg.requant_mode.low_spec();
    let q = spec_stage_input(image);
    let a1 = spec_hidden_layer(
        inf.spec_fc1(),
        q,
        inf.spec_scales().0,
        low,
        cfg.fc1_activation,
    );
    let a2 = spec_hidden_layer(
        inf.spec_fc2(),
        a1,
        inf.spec_scales().1,
        low,
        cfg.fc2_activation,
    );
    matmul_seq(
        inf.spec_fc3().entries(),
        inf.spec_fc3().spec_rows(),
        inf.spec_fc3().spec_cols(),
        a2,
        inf.spec_scales().2,
    )
}

/// The label a forward pass predicts: the argmax of the output layer.
pub open spec fn spec_infer(inf: Inference, image: Seq<u8>) -> int {
    argmax_seq(spec_output_layer(inf, image))
}

impl Inference {
    /// One forward pass over a 784-byte image, entirely in integer
    /// arithmetic. Returns the predicted digit.
    pub fn mnist_inference_pure_int8(&self, input_image: &[u8]) -> (r: usize)
        requires
            self.wf(),
            input_image@.len() == IMAGE_SIZE,
        ensures
            r as int == spec_infer(*self, input_image@),
            r < FC3_ROWS,
    {
        let low = self.config.requant_mode;
        let ghost cfg = self.spec_config();

        // Quantizer: unsigned pixels to the symmetric signed 8-bit range.
        let normalized_input = normalize_and_quantize_input(input_image);

        // First hidden layer.
        let fc1_output = int8_matmul_symmetric(
            &self.fc1_weights,
            normalized_input.as_slice(),
            self.fc1_scale_q16,
        );
        let mut fc1_activations = requantize_with_mode(fc1_output.as_slice(), low);
        apply_activation(&mut fc1_activations, self.config.fc1_activation);

        // Second hidden layer.
        let fc2_output = int8_matmul_symmetric(
            &self.fc2_weights,
            fc1_activations.as_slice(),
            self.fc2_scale_q16,
        );
        let mut fc2_activations = requantize_with_mode(fc2_output.as_slice(), low);
        apply_activation(&mut fc2_activations, self.config.fc2_activation);

        // Output layer (no activation), then classification.
        let final_output = int8_matmul_symmetric(
            &self.fc3_weights,
            fc2_activations.as_slice(),
            self.fc3_scale_q16,
        );
        proof {
            assert(final_output@ == spec_output_layer(*self, input_image@));
            lemma_argmax_properties(final_output@);
        }
        argmax_int32(final_output.as_slice())
    }

    /// One forward pass over a caller-supplied image buffer. Fails with
    /// `InvalidImageLength` exactly when the buffer does not hold 784 bytes;
    /// otherwise returns the predicted digit.
    pub fn infer(&self, image: &[u8]) -> (r: Result<usize, InferenceError>)
        requires
            self.wf(),
        ensures
            r is Err <==> image@.len() != IMAGE_SIZE,
            r is Err ==> r == Err::<usize, InferenceError>(InferenceError::InvalidImageLength),
            r matches Ok(label) ==> label as int == spec_infer(*self, image@) && label < FC3_ROWS,
    {
        if image.len() != IMAGE_SIZE {
            return Err(InferenceError::InvalidImageLength);
        }
        Ok(self.mnist_inference_pure_int8(image))
    }
}

/// Determinism: the predicted label is a function of the model and the image
/// bytes alone, so two passes over equal inputs agree (and the model, taken
/// by shared reference, is never changed by a pass).
pub proof fn lemma_infer_deterministic(inf: Inference, image1: Seq<u8>, image2: Seq<u8>)
    requires
        image1 == image2,
    ensures
        spec_infer(inf, image1) == spec_infer(inf, image2),
{
}

} // verus!
