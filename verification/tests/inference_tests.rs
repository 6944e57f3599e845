use mnist_int8::activation::{relu_int8, relu6_int8};
use mnist_int8::classify::argmax_int32;
use mnist_int8::dataset::parse_image_binary;
use mnist_int8::matmul::{WeightMatrix, int8_matmul_symmetric};
use mnist_int8::pipeline::{Inference, PipelineConfig, IMAGE_SIZE, FC1_ROWS, FC1_COLS, FC2_ROWS,
    FC2_COLS, FC3_ROWS, FC3_COLS};
use mnist_int8::quantize::{quantize_pixel, normalize_and_quantize_input};
use mnist_int8::requantize::{RequantMode, int32_to_int8_with_scaling, requantize_with_mode};
use mnist_int8::scale::{q16_from_f32_bits, q16_from_le_bytes};
use mnist_int8::weights::parse_weight_binary;
use mnist_int8::InferenceError;
use mnist_int8::activation::Activation;

fn zero_blob(rows: usize, cols: usize) -> Vec<u8> {
    vec![0u8; 12 + rows * cols]
}

fn zero_model() -> Inference {
    let fc1 = zero_blob(FC1_ROWS, FC1_COLS);
    let fc2 = zero_blob(FC2_ROWS, FC2_COLS);
    let fc3 = zero_blob(FC3_ROWS, FC3_COLS);
    Inference::new(&fc1, &fc2, &fc3).unwrap()
}

#[test]
fn quantize_fixed_points() {
    assert_eq!(quantize_pixel(0), -128);
    assert_eq!(quantize_pixel(255), 127);
    assert_eq!(quantize_pixel(128), 0);
}

#[test]
fn quantize_is_monotonic() {
    for p in 0..255u8 {
        assert!(quantize_pixel(p) <= quantize_pixel(p + 1));
    }
}

#[test]
fn quantize_whole_buffer() {
    let q = normalize_and_quantize_input(&[0, 128, 255]);
    assert_eq!(q, [-128, 0, 127]);
}

#[test]
fn matmul_zero_input_gives_zero_output() {
    let w = WeightMatrix::new(2, 3, vec![1, -2, 3, 127, -128, 5]);
    let out = int8_matmul_symmetric(&w, &[0, 0, 0], 123456);
    assert_eq!(out, [0, 0]);
}

#[test]
fn matmul_known_values() {
    // Unit scale (1.0 in Q16): the outputs are the raw row sums.
    let w = WeightMatrix::new(2, 3, vec![1, 2, 3, 4, 5, 6]);
    let out = int8_matmul_symmetric(&w, &[1, 1, 1], 65536);
    assert_eq!(out, [6, 15]);
    // Half scale: the sums are floored after the shift.
    let out = int8_matmul_symmetric(&w, &[1, 1, 1], 32768);
    assert_eq!(out, [3, 7]);
}

#[test]
fn requantize_small_magnitudes_is_clamp() {
    // max |x| <= 127: shift 0, every element passes through the clamp only.
    let out = int32_to_int8_with_scaling(&[100, -50, 127, -127]);
    assert_eq!(out, [100, -50, 127, -127]);
}

#[test]
fn requantize_all_zero_is_all_zero() {
    let out = int32_to_int8_with_scaling(&[0, 0, 0, 0, 0]);
    assert_eq!(out, [0, 0, 0, 0, 0]);
}

#[test]
fn requantize_shifts_large_magnitudes() {
    // max |x| = 1000 needs shift 3: 1000 >> 3 = 125.
    let out = int32_to_int8_with_scaling(&[1000, -1000, 8]);
    assert_eq!(out, [125, -125, 1]);
}

#[test]
fn requantize_extreme_magnitude() {
    // |i32::MIN| = 2^31 needs shift 25; the flooring shift gives -64.
    let out = int32_to_int8_with_scaling(&[i32::MIN, 1 << 25]);
    assert_eq!(out, [-64, 1]);
}

#[test]
fn requantize_clamp_bound_is_configurable() {
    // 255 >> 1 = 127, and -255 >> 1 floors to -128: only the full-range
    // bound keeps it.
    let full = requantize_with_mode(&[-255, 255], RequantMode::FullRange);
    assert_eq!(full, [-128, 127]);
    let sym = requantize_with_mode(&[-255, 255], RequantMode::SymmetricRange);
    assert_eq!(sym, [-127, 127]);
}

#[test]
fn relu_clears_negatives() {
    let mut v = vec![-5i8, 3, 0, -128, 127];
    relu_int8(&mut v);
    assert_eq!(v, [0, 3, 0, 0, 127]);
    assert!(v.iter().all(|&x| x >= 0));
}

#[test]
fn relu6_clamps_to_zero_six() {
    let mut v = vec![-5i8, 3, 100, 6, 7];
    relu6_int8(&mut v);
    assert_eq!(v, [0, 3, 6, 6, 6]);
    assert!(v.iter().all(|&x| (0..=6).contains(&x)));
}

#[test]
fn argmax_tie_break_takes_last() {
    assert_eq!(argmax_int32(&[5, 5, 3]), 1);
    assert_eq!(argmax_int32(&[]), 0);
    assert_eq!(argmax_int32(&[-3, -1, -1]), 2);
    assert_eq!(argmax_int32(&[9]), 0);
}

#[test]
fn q16_scale_known_values() {
    assert_eq!(q16_from_f32_bits(0x3F80_0000), 65536); // 1.0
    assert_eq!(q16_from_f32_bits(0x3F00_0000), 32768); // 0.5
    assert_eq!(q16_from_f32_bits(0xBFC0_0000), -98304); // -1.5
    assert_eq!(q16_from_f32_bits(0x3DCC_CCCD), 6553); // ~0.1, floored
    assert_eq!(q16_from_f32_bits(0x0000_0000), 0); // 0.0
    assert_eq!(q16_from_f32_bits(0x8000_0000), 0); // -0.0
    assert_eq!(q16_from_f32_bits(0x7F80_0000), i32::MAX); // +inf saturates
    assert_eq!(q16_from_f32_bits(0xFF80_0000), i32::MIN); // -inf saturates
    assert_eq!(q16_from_f32_bits(0x7FC0_0000), 0); // NaN casts to 0
    assert_eq!(q16_from_f32_bits(0x0000_0001), 0); // subnormal truncates
    // The little-endian byte form agrees.
    assert_eq!(q16_from_le_bytes(0x00, 0x00, 0x80, 0x3F), 65536);
}

#[test]
fn parse_weight_binary_reads_scale_and_weights() {
    // 2x2 layer: 8 header bytes, the float 1.0, then weights 1, 255, 128, 7.
    let mut blob = vec![0u8; 16];
    blob[8..12].copy_from_slice(&[0x00, 0x00, 0x80, 0x3F]);
    blob[12] = 1;
    blob[13] = 255;
    blob[14] = 128;
    blob[15] = 7;
    let (m, scale) = parse_weight_binary(&blob, 2, 2).unwrap();
    assert_eq!(m.rows(), 2);
    assert_eq!(m.cols(), 2);
    assert_eq!(scale, 65536);
    let out = int8_matmul_symmetric(&m, &[1, 1], 65536);
    assert_eq!(out, [1 + -1, -128 + 7]);
}

#[test]
fn parse_weight_binary_rejects_short_blob() {
    let blob = vec![0u8; 15];
    match parse_weight_binary(&blob, 2, 2) {
        Err(e) => assert_eq!(e, InferenceError::MalformedWeights),
        Ok(_) => panic!("a short blob must be rejected"),
    }
}

#[test]
fn model_rejects_short_blob() {
    let fc1 = zero_blob(FC1_ROWS, FC1_COLS);
    let fc2 = vec![0u8; 5];
    let fc3 = zero_blob(FC3_ROWS, FC3_COLS);
    match Inference::new(&fc1, &fc2, &fc3) {
        Err(e) => assert_eq!(e, InferenceError::MalformedWeights),
        Ok(_) => panic!("a short blob must be rejected"),
    }
}

#[test]
fn infer_rejects_wrong_image_length() {
    let model = zero_model();
    let short = vec![0u8; 10];
    assert_eq!(model.infer(&short), Err(InferenceError::InvalidImageLength));
    let long = vec![0u8; IMAGE_SIZE + 1];
    assert_eq!(model.infer(&long), Err(InferenceError::InvalidImageLength));
}

#[test]
fn zero_image_quantizes_to_lowest_and_zero_model_predicts_last_class() {
    let image = vec![0u8; IMAGE_SIZE];
    let q = normalize_and_quantize_input(&image);
    assert_eq!(q.len(), IMAGE_SIZE);
    assert!(q.iter().all(|&v| v == -128));

    // All-zero weights: every layer's output is zero, and the ten-way tie
    // goes to the last class.
    let model = zero_model();
    assert_eq!(model.infer(&image).unwrap(), 9);
    assert_eq!(model.mnist_inference_pure_int8(&image), 9);
}

#[test]
fn inference_is_deterministic() {
    // A model with non-trivial weights and scales.
    let mut fc1 = zero_blob(FC1_ROWS, FC1_COLS);
    fc1[8..12].copy_from_slice(&[0x00, 0x00, 0x80, 0x3E]); // 0.25
    for (k, b) in fc1[12..].iter_mut().enumerate() {
        *b = (k % 251) as u8;
    }
    let mut fc2 = zero_blob(FC2_ROWS, FC2_COLS);
    fc2[8..12].copy_from_slice(&[0x00, 0x00, 0x00, 0x3F]); // 0.5
    for (k, b) in fc2[12..].iter_mut().enumerate() {
        *b = (k % 83) as u8;
    }
    let mut fc3 = zero_blob(FC3_ROWS, FC3_COLS);
    fc3[8..12].copy_from_slice(&[0x00, 0x00, 0x80, 0x3F]); // 1.0
    for (k, b) in fc3[12..].iter_mut().enumerate() {
        *b = (k % 17) as u8;
    }
    let model = Inference::new(&fc1, &fc2, &fc3).unwrap();

    let mut image = vec![0u8; IMAGE_SIZE];
    for (k, p) in image.iter_mut().enumerate() {
        *p = (k % 256) as u8;
    }
    let first = model.infer(&image).unwrap();
    let second = model.infer(&image).unwrap();
    assert_eq!(first, second);
    assert!(first < FC3_ROWS);
}

#[test]
fn relu6_configuration_changes_the_pipeline() {
    let cfg = PipelineConfig {
        fc1_activation: Activation::Relu6,
        fc2_activation: Activation::Relu6,
        requant_mode: RequantMode::SymmetricRange,
    };
    let fc1 = zero_blob(FC1_ROWS, FC1_COLS);
    let fc2 = zero_blob(FC2_ROWS, FC2_COLS);
    let fc3 = zero_blob(FC3_ROWS, FC3_COLS);
    let model = Inference::with_config(&fc1, &fc2, &fc3, cfg).unwrap();
    // The zero model is insensitive to the configuration: still all zeros,
    // still the last class.
    let image = vec![7u8; IMAGE_SIZE];
    assert_eq!(model.infer(&image).unwrap(), 9);
}

#[test]
fn parse_image_binary_splits_label_and_pixels() {
    let mut blob = vec![0u8; 9 + 4];
    blob[8] = 7;
    blob[9..].copy_from_slice(&[10, 20, 30, 40]);
    let (pixels, label) = parse_image_binary(&blob);
    assert_eq!(label, 7);
    assert_eq!(pixels, [10, 20, 30, 40]);
}

#[test]
fn evaluate_counts_correct_predictions() {
    let model = zero_model();
    // The zero model predicts 9 for every image.
    let mut right = vec![0u8; 9 + IMAGE_SIZE];
    right[8] = 9;
    let mut wrong = vec![0u8; 9 + IMAGE_SIZE];
    wrong[8] = 3;
    let dataset = vec![right, wrong.clone(), wrong];
    assert_eq!(model.evaluate(&dataset), 1);
}
