//! Test-image handling: each stored image blob carries a 9-byte header
//! (width, height, true label) followed by the 784 pixel bytes. Parsing
//! splits a blob into the pixel buffer and the label; evaluation runs the
//! pipeline over a set of blobs and counts correct predictions.

use vstd::prelude::*;
use crate::pipeline::{Inference, spec_infer, IMAGE_SIZE};

verus! {

/// Bytes before the pixel data: two 32-bit dimensions and the label byte.
pub const IMAGE_HEADER_LEN: usize = 9;

/// Split an image blob into its pixel bytes and its true label (byte 8).
pub fn parse_image_binary(data: &[u8]) -> (r: (Vec<u8>, u8))
    requires
        data@.len() >= IMAGE_HEADER_LEN,
    ensures
        r.0@ == data@.skip(IMAGE_HEADER_LEN as int),
        r.1 == data@[8],
{
    let true_label = data[8];
    let mut image_data: Vec<u8> = Vec::new();
    let mut k: usize = IMAGE_HEADER_LEN;
    while k < data.len()
        invariant
            IMAGE_HEADER_LEN <= k <= data@.len(),
            image_data@ == data@.subrange(IMAGE_HEADER_LEN as int, k as int),
        decreases data@.len() - k,
    {
        image_data.push(data[k]);
        proof {
            assert(image_data@ =~= data@.subrange(IMAGE_HEADER_LEN as int, k as int + 1));
        }
        k += 1;
    }
    proof {
        assert(image_data@ =~= data@.skip(IMAGE_HEADER_LEN as int));
    }
    (image_data, true_label)
}

/// The pipeline predicts the label an image blob carries.
pub open spec fn spec_correct(inf: Inference, blob: Seq<u8>) -> bool {
    spec_infer(inf, blob.skip(IMAGE_HEADER_LEN as int)) == blob[8] as int
}

/// How many blobs of the set the pipeline labels correctly.
pub open spec fn count_correct(inf: Inference, blobs: Seq<Vec<u8>>) -> int
    decreases blobs.len(),
{
    if blobs.len() == 0 {
        0
    } else {
        count_correct(inf, blobs.drop_last()) + if spec_correct(inf, blobs.last()@) {
            1int
        } else {
            0int
        }
    }
}

impl Inference {
    /// Run the pipeline over a set of stored image blobs and return how many
    /// it labels correctly.
    pub fn evaluate(&self, dataset: &Vec<Vec<u8>>) -> (correct: usize)
        requires
            self.wf(),
            forall|k: int|
                0 <= k < dataset@.len() ==> (#[trigger] dataset@[k])@.len() == IMAGE_HEADER_LEN
                    + IMAGE_SIZE,
        ensures
            correct as int == count_correct(*self, dataset@),
            correct <= dataset@.len(),
    {
        let mut correct: usize = 0;
        let mut k: usize = 0;
        while k < dataset.len()
            invariant
                k <= dataset@.len(),
                self.wf(),
                forall|j: int|
                    0 <= j < dataset@.len() ==> (#[trigger] dataset@[j])@.len() == IMAGE_HEADER_LEN
                        + IMAGE_SIZE,
                correct as int == count_correct(*self, dataset@.take(k as int)),
                correct <= k,
            decreases dataset@.len() - k,
        {
            let blob: &Vec<u8> = &dataset[k];
            let (image_data, true_label) = parse_image_binary(blob.as_slice());
            let predicted = self.mnist_inference_pure_int8(image_data.as_slice());
            if predicted == true_label as usize {
                correct += 1;
            }
            proof {
                assert(dataset@.take(k as int + 1).drop_last() =~= dataset@.take(k as int));
                assert(dataset@.take(k as int + 1).last() == dataset@[k as int]);
            }
            k += 1;
        }
        proof {
            assert(dataset@.take(dataset@.len() as int) =~= dataset@);
        }
        correct
    }
}

} // verus!
