//! Sample pools and the uniform selection policy.
//!
//! The audio buffers themselves are loaded and owned outside the
//! library; the engine only needs to know how many samples each
//! category holds in order to pick one uniformly at random. A pool
//! that is empty at startup is a fatal condition, checked once here
//! before any event is processed.

use vstd::prelude::*;
use vstd::string::StringExecFns;

use crate::events::SoundCategory;

verus! {

/// The glob pattern that selects the .wav files directly inside a
/// sample directory, non-recursively.
pub fn wav_glob_pattern(directory: &str) -> (p: String)
    ensures
        p@ == directory@ + "/*.wav"@,
{
    let mut p = String::from_str(directory);
    p.append("/*.wav");
    p
}

/// Fatal startup condition: the named category's sample directory
/// yielded no samples.
#[derive(Clone, Copy, Debug, PartialEq, Eq, Structural)]
pub struct EmptyPoolError {
    pub category: SoundCategory,
}

/// The sizes of the four sample pools, one per sound category. A value
/// of this type only exists with all four pools non-empty.
#[derive(Debug)]
pub struct SamplePools {
    key_down: usize,
    key_up: usize,
    mouse_down: usize,
    mouse_up: usize,
}

impl SamplePools {
    /// The number of samples in the pool of category `c`.
    pub closed spec fn spec_size(self, c: SoundCategory) -> usize {
        match c {
            SoundCategory::KeyDown => self.key_down,
            SoundCategory::KeyUp => self.key_up,
            SoundCategory::MouseDown => self.mouse_down,
            SoundCategory::MouseUp => self.mouse_up,
        }
    }

    /// Every category has at least one sample to draw from.
    pub open spec fn wf(self) -> bool {
        &&& self.spec_size(SoundCategory::KeyDown) > 0
        &&& self.spec_size(SoundCategory::KeyUp) > 0
        &&& self.spec_size(SoundCategory::MouseDown) > 0
        &&& self.spec_size(SoundCategory::MouseUp) > 0
    }

    /// Validate the four pool sizes found at startup. Fails on the
    /// first empty category, in the order key-down, key-up, mouse-down,
    /// mouse-up, so that an empty key-down directory is reported before
    /// any event can be processed.
    pub fn new(key_down: usize, key_up: usize, mouse_down: usize, mouse_up: usize) -> (r: Result<
        SamplePools,
        EmptyPoolError,
    >)
        ensures
            r is Ok <==> (key_down > 0 && key_up > 0 && mouse_down > 0 && mouse_up > 0),
            r matches Ok(p) ==> {
                &&& p.spec_size(SoundCategory::KeyDown) == key_down
                &&& p.spec_size(SoundCategory::KeyUp) == key_up
                &&& p.spec_size(SoundCategory::MouseDown) == mouse_down
                &&& p.spec_size(SoundCategory::MouseUp) == mouse_up
                &&& p.wf()
            },
            r matches Err(e) ==> e.category == (if key_down == 0 {
                SoundCategory::KeyDown
            } else if key_up == 0 {
                SoundCategory::KeyUp
            } else if mouse_down == 0 {
                SoundCategory::MouseDown
            } else {
                SoundCategory::MouseUp
            }),
    {
        if key_down == 0 {
            Err(EmptyPoolError { category: SoundCategory::KeyDown })
        } else if key_up == 0 {
            Err(EmptyPoolError { category: SoundCategory::KeyUp })
        } else if mouse_down == 0 {
            Err(EmptyPoolError { category: SoundCategory::MouseDown })
        } else if mouse_up == 0 {
            Err(EmptyPoolError { category: SoundCategory::MouseUp })
        } else {
            Ok(SamplePools { key_down, key_up, mouse_down, mouse_up })
        }
    }

    /// The number of samples in the pool of category `c`.
    pub fn size(&self, c: SoundCategory) -> (n: usize)
        ensures
            n == self.spec_size(c),
    {
        match c {
            SoundCategory::KeyDown => self.key_down,
            SoundCategory::KeyUp => self.key_up,
            SoundCategory::MouseDown => self.mouse_down,
            SoundCategory::MouseUp => self.mouse_up,
        }
    }

    /// Draw the index of one sample of category `c`, uniformly at
    /// random over that category's pool, independently on each call.
    pub fn draw(&self, c: SoundCategory) -> (i: usize)
        requires
            self.wf(),
        ensures
            i < self.spec_size(c),
    {
        random_below(self.size(c))
    }
}

/// Relies on rand::Rng::gen_range over the half-open range 0..n: the
/// result is a uniformly distributed integer of that range, so it is
/// strictly below n; the call panics only on an empty range, which the
/// precondition rules out.
#[verifier::external_body]
fn random_below(n: usize) -> (r: usize)
    requires
        n > 0,
    ensures
        r < n,
{
    rand::Rng::gen_range(&mut rand::thread_rng(), 0..n)
}

} // verus!
