//! Named operations: recognising them and applying one to a buffer.

use vstd::prelude::*;
use rand::rngs::StdRng;
use crate::buffer::PixelBuffer;
use crate::transform::{all_valid, brightness_applied, noise_applied, random_brightness, random_noise};

verus! {

/// One named step of the pipeline.
#[derive(Clone, Copy, Debug, PartialEq, Eq, Structural)]
pub enum Operation {
    /// "none": leaves the buffer as it is.
    NoOp,
    /// "random-noise": a fresh multiplier for every sample.
    RandomNoise,
    /// "random-brightness": a fresh multiplier for every pixel.
    RandomBrightness,
    /// "stats": reports statistics, leaves the buffer as it is.
    Stats,
}

/// An operation name that is not recognised, by its position in the list.
#[derive(Clone, Copy, Debug, PartialEq, Eq, Structural)]
pub struct UnknownOperation {
    pub index: usize,
}

/// The operation a name stands for, if any.
pub open spec fn operation_named(s: Seq<char>) -> Option<Operation> {
    if s == "none"@ {
        Some(Operation::NoOp)
    } else if s == "random-noise"@ {
        Some(Operation::RandomNoise)
    } else if s == "random-brightness"@ {
        Some(Operation::RandomBrightness)
    } else if s == "stats"@ {
        Some(Operation::Stats)
    } else {
        None
    }
}

/// Whether `s` and `t` hold the same characters.
fn text_equals(s: &str, t: &str) -> (r: bool)
    ensures
        r == (s@ == t@),
{
    let n = s.unicode_len();
    if n != t.unicode_len() {
        return false;
    }
    let mut i: usize = 0;
    while i < n
        invariant
            i <= n == s@.len() == t@.len(),
            forall|j: int| 0 <= j < i ==> s@[j] == t@[j],
        decreases n - i,
    {
        if s.get_char(i) != t.get_char(i) {
            return false;
        }
        i = i + 1;
    }
    assert(s@ =~= t@);
    true
}

/// Recognises one operation name.
pub fn parse_operation(s: &str) -> (r: Option<Operation>)
    ensures
        r == operation_named(s@),
{
    if text_equals(s, "none") {
        Some(Operation::NoOp)
    } else if text_equals(s, "random-noise") {
        Some(Operation::RandomNoise)
    } else if text_equals(s, "random-brightness") {
        Some(Operation::RandomBrightness)
    } else if text_equals(s, "stats") {
        Some(Operation::Stats)
    } else {
        None
    }
}

/// Recognises every name of `names`, in order; fails on the first name that
/// stands for no operation.
pub fn parse_operations(names: &Vec<String>) -> (r: Result<Vec<Operation>, UnknownOperation>)
    ensures
        r.is_ok() <==> forall|i: int| 0 <= i < names@.len() ==> (#[trigger] operation_named(names@[i]@)).is_some(),
        r matches Ok(v) ==> v@.len() == names@.len() && forall|i: int|
            0 <= i < names@.len() ==> operation_named(names@[i]@) == Some(#[trigger] v@[i]),
        r matches Err(e) ==> e.index < names@.len() && operation_named(names@[e.index as int]@).is_none()
            && forall|j: int| 0 <= j < e.index ==> (#[trigger] operation_named(names@[j]@)).is_some(),
{
    let mut out: Vec<Operation> = Vec::new();
    let mut i: usize = 0;
    while i < names.len()
        invariant
            i <= names@.len(),
            out@.len() == i,
            forall|j: int| 0 <= j < i ==> operation_named(names@[j]@) == Some(#[trigger] out@[j]),
        decreases names@.len() - i,
    {
        match parse_operation(names[i].as_str()) {
            Some(op) => out.push(op),
            None => {
                assert forall|j: int| 0 <= j < i implies (#[trigger] operation_named(names@[j]@)).is_some() by {
                    assert(operation_named(names@[j]@) == Some(out@[j]));
                }
                return Err(UnknownOperation { index: i });
            },
        }
        i = i + 1;
    }
    assert forall|j: int| 0 <= j < names@.len() implies (#[trigger] operation_named(names@[j]@)).is_some() by {
        assert(operation_named(names@[j]@) == Some(out@[j]));
    }
    Ok(out)
}

/// Applies `op` to every pixel of `img` and returns the multipliers drawn:
/// none for "none" and "stats", which leave every sample as it was; one per
/// sample for "random-noise"; one per pixel for "random-brightness".
pub fn apply_operation(img: &mut PixelBuffer, op: Operation, rng: &mut StdRng) -> (ms: Vec<u32>)
    requires
        old(img).wf(),
    ensures
        final(img).width_spec() == old(img).width_spec(),
        final(img).height_spec() == old(img).height_spec(),
        final(img).wf(),
        all_valid(ms@),
        (op == Operation::NoOp || op == Operation::Stats) ==> final(img)@ == old(img)@ && ms@.len() == 0,
        op == Operation::RandomNoise ==> noise_applied(old(img)@, final(img)@, ms@),
        op == Operation::RandomBrightness ==> brightness_applied(old(img)@, final(img)@, ms@),
{
    match op {
        Operation::NoOp => Vec::new(),
        Operation::Stats => Vec::new(),
        Operation::RandomNoise => random_noise(img, rng),
        Operation::RandomBrightness => random_brightness(img, rng),
    }
}

} // verus!
