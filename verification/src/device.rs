//! Execution-device selection: the worker runs on the accelerator when any
//! reported GPU vendor string names a CUDA-capable card, and falls back to
//! the CPU otherwise.

use vstd::prelude::*;
use crate::text::{contains_seq, contains_lower, lower_seq};

verus! {

/// A vendor string names a CUDA-capable card (matched case-insensitively).
pub open spec fn vendor_marks_accelerator(g: Seq<char>) -> bool {
    contains_seq(lower_seq(g), "nvidia"@) || contains_seq(lower_seq(g), "geforce"@)
        || contains_seq(lower_seq(g), "rtx"@) || contains_seq(lower_seq(g), "gtx"@)
}

/// Some reported GPU qualifies for the accelerator device.
pub open spec fn spec_has_accelerator(gpus: Seq<Seq<char>>) -> bool {
    exists|k: int| 0 <= k < gpus.len() && vendor_marks_accelerator(gpus[k])
}

/// Test the hardware probe's vendor-string list for a CUDA-capable GPU.
pub fn has_accelerator_gpu(gpu_info: &Vec<String>) -> (r: bool)
    ensures
        r == spec_has_accelerator(gpu_info.deep_view()),
{
    let mut k: usize = 0;
    while k < gpu_info.len()
        invariant
            k <= gpu_info@.len(),
            forall|j: int| 0 <= j < k ==> !vendor_marks_accelerator(gpu_info.deep_view()[j]),
        decreases gpu_info@.len() - k,
    {
        let g = gpu_info[k].as_str();
        assert(gpu_info.deep_view()[k as int] == gpu_info@[k as int]@);
        if contains_lower(g, "nvidia") || contains_lower(g, "geforce") || contains_lower(g, "rtx")
            || contains_lower(g, "gtx") {
            return true;
        }
        k += 1;
    }
    false
}

/// The device token handed to the worker for the given hardware report:
/// the accelerator identifier when a capable GPU is present, the CPU
/// fallback otherwise.
pub fn select_device(gpu_info: &Vec<String>) -> (r: String)
    ensures
        spec_has_accelerator(gpu_info.deep_view()) ==> r@ == "cuda"@,
        !spec_has_accelerator(gpu_info.deep_view()) ==> r@ == "cpu"@,
{
    if has_accelerator_gpu(gpu_info) {
        String::from_str("cuda")
    } else {
        String::from_str("cpu")
    }
}

} // verus!
