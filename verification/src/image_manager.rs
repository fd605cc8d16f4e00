//! The cycle manager: owns the loaded image sequence and a wrapping cursor,
//! selects the next image on each tick, and computes the fixed per-frame
//! interval that paces the presentation loop.

use vstd::arithmetic::div_mod::lemma_add_mod_noop_right;
use vstd::prelude::*;

use crate::codec::{load_image, source_ok, Bitmap, ImageSource};
use crate::error::CycleError;

verus! {

/// Every source in the list exists and decodes.
pub open spec fn all_sources_ok(sources: Seq<ImageSource>) -> bool {
    forall|i: int| 0 <= i < sources.len() ==> source_ok(#[trigger] sources[i])
}

/// `i` is the first position at which loading fails: the source there is
/// missing or undecodable, and every source before it loads cleanly.
pub open spec fn fails_first_at(sources: Seq<ImageSource>, i: int) -> bool {
    &&& 0 <= i < sources.len()
    &&& !source_ok(sources[i])
    &&& forall|j: int| 0 <= j < i ==> source_ok(#[trigger] sources[j])
}

/// The error a failing source is reported as: a missing file before a
/// decodable-or-not question ever arises.
pub open spec fn failure_kind(source: ImageSource) -> CycleError {
    if source is Missing {
        CycleError::NotFound
    } else {
        CycleError::Decode
    }
}

/// The cursor position shown by a tick taken at cursor `c`.
pub open spec fn shown_index(c: nat, len: nat) -> nat
    recommends
        len > 0,
{
    c % len
}

/// The cursor position after a tick taken at cursor `c`: wrapped back into
/// `[0, len)` at the point of increment.
pub open spec fn next_cursor(c: nat, len: nat) -> nat
    recommends
        len > 0,
{
    (c % len + 1) % len
}

/// A manager that manages all images to present: the loaded sequence and
/// the cursor that `tick` advances through it.
pub struct ImageManager {
    images: Vec<Bitmap>,
    index: usize,
}

impl ImageManager {
    /// The owned image sequence, in load order.
    pub closed spec fn images(&self) -> Seq<Bitmap> {
        self.images@
    }

    /// The current cursor position.
    pub closed spec fn cursor(&self) -> nat {
        self.index as nat
    }

    /// A well-formed manager holds a non-empty sequence and a cursor inside it.
    pub open spec fn wf(&self) -> bool {
        &&& self.images().len() > 0
        &&& self.cursor() < self.images().len()
    }

    /// Instantiate the image manager over an already-loaded sequence, with
    /// the cursor at the first image. An empty sequence is rejected here,
    /// rather than accepted only to fail at the first tick.
    pub fn from(images: Vec<Bitmap>) -> (r: Result<ImageManager, CycleError>)
        ensures
            images@.len() == 0 ==> r == Err::<ImageManager, CycleError>(CycleError::EmptySequence),
            images@.len() > 0 ==> (r matches Ok(m) && m.images() == images@ && m.cursor() == 0
                && m.wf()),
    {
        if images.len() == 0 {
            Err(CycleError::EmptySequence)
        } else {
            Ok(ImageManager { images, index: 0 })
        }
    }

    /// Instantiate the image manager from the contents found at each source
    /// path, in input order: each existing file is decoded and resampled to
    /// exactly `size`; the first missing or undecodable source aborts the
    /// load with its error and no partial sequence; an empty list is
    /// rejected outright.
    pub fn load(sources: Vec<ImageSource>, size: (u32, u32)) -> (r: Result<
        ImageManager,
        CycleError,
    >)
        requires
            1 <= size.0,
            1 <= size.1,
        ensures
            r is Ok <==> (sources@.len() > 0 && all_sources_ok(sources@)),
            sources@.len() == 0 ==> r == Err::<ImageManager, CycleError>(
                CycleError::EmptySequence,
            ),
            forall|i: int|
                fails_first_at(sources@, i) ==> r == Err::<ImageManager, CycleError>(
                    failure_kind(sources@[i]),
                ),
            r matches Ok(m) ==> {
                &&& m.wf()
                &&& m.cursor() == 0
                &&& m.images().len() == sources@.len()
                &&& forall|i: int|
                    0 <= i < m.images().len() ==> (#[trigger] m.images()[i]).spec_width() == size.0
                        && m.images()[i].spec_height() == size.1
            },
    {
        if sources.len() == 0 {
            return Err(CycleError::EmptySequence);
        }
        let mut images: Vec<Bitmap> = Vec::new();
        let mut i: usize = 0;
        while i < sources.len()
            invariant
                i <= sources@.len(),
                images@.len() == i,
                1 <= size.0,
                1 <= size.1,
                forall|j: int| 0 <= j < i ==> source_ok(#[trigger] sources@[j]),
                forall|j: int|
                    0 <= j < i ==> (#[trigger] images@[j]).spec_width() == size.0
                        && images@[j].spec_height() == size.1,
            decreases sources@.len() - i,
        {
            match load_image(&sources[i], size.0, size.1) {
                Ok(bitmap) => {
                    images.push(bitmap);
                },
                Err(e) => {
                    proof {
                        assert(fails_first_at(sources@, i as int));
                        assert forall|k: int| fails_first_at(sources@, k) implies k
                            == i as int by {
                            if k < i as int {
                                assert(source_ok(sources@[k]));
                            } else if k > i as int {
                                assert(source_ok(sources@[i as int]));
                            }
                        }
                    }
                    return Err(e);
                },
            }
            i += 1;
        }
        ImageManager::from(images)
    }

    /// The number of images in the sequence.
    pub fn len(&self) -> (r: usize)
        ensures
            r == self.images().len(),
    {
        self.images.len()
    }

    /// The current cursor position, for observation by the embedding program.
    pub fn cursor_position(&self) -> (r: usize)
        ensures
            r as nat == self.cursor(),
    {
        self.index
    }

    /// Tick the image cycle: select the image at the effective cursor
    /// position (`cursor mod length`), hand it back for the display surface
    /// to draw, and advance the cursor by one, wrapped into `[0, length)`.
    /// On an empty sequence this fails with `EmptySequence` instead of
    /// taking a modulo by zero; a well-formed manager never hits that case.
    pub fn tick(&mut self) -> (r: Result<&Bitmap, CycleError>)
        ensures
            final(self).images() == old(self).images(),
            old(self).images().len() == 0 ==> r == Err::<&Bitmap, CycleError>(
                CycleError::EmptySequence,
            ) && final(self).cursor() == old(self).cursor(),
            old(self).images().len() > 0 ==> {
                let len = old(self).images().len();
                &&& r matches Ok(b) && *b == old(self).images()[shown_index(
                    old(self).cursor(),
                    len,
                ) as int]
                &&& final(self).cursor() == next_cursor(old(self).cursor(), len)
                &&& final(self).wf()
            },
    {
        let bound = self.images.len();
        if bound == 0 {
            return Err(CycleError::EmptySequence);
        }
        let effective = self.index % bound;
        self.index = (effective + 1) % bound;
        Ok(&self.images[effective])
    }
}

/// The fixed per-frame interval, in milliseconds, for a target frame rate:
/// `1000 / fps` rounded toward zero. A frame rate of zero is invalid and is
/// rejected before any presentation loop is entered.
pub fn frame_interval_ms(fps: u32) -> (r: Result<u64, CycleError>)
    ensures
        fps == 0 ==> r == Err::<u64, CycleError>(CycleError::InvalidConfig),
        fps > 0 ==> (r matches Ok(ms) && ms == 1000 as int / fps as int),
{
    if fps == 0 {
        Err(CycleError::InvalidConfig)
    } else {
        Ok(1000u64 / (fps as u64))
    }
}

/// The cursor position reached after `n` ticks of a freshly constructed
/// manager over a sequence of length `len`: the cursor starts at zero and
/// each tick advances it as `tick` does.
pub open spec fn cursor_after_ticks(n: nat, len: nat) -> nat
    recommends
        len > 0,
    decreases n,
{
    if n == 0 {
        0
    } else {
        next_cursor(cursor_after_ticks((n - 1) as nat, len), len)
    }
}

/// Law of cycle order: over a non-empty sequence of length `len`, the cursor
/// after `n` ticks of a freshly constructed manager is `n % len`, so the tick
/// taken once `n` ticks have already happened shows the image at position
/// `n % len` — the sequence appears in order, wrapping, with no skips and no
/// repeats out of order.
pub proof fn lemma_cycle_order(n: nat, len: nat)
    requires
        len > 0,
    ensures
        cursor_after_ticks(n, len) == n % len,
        shown_index(cursor_after_ticks(n, len), len) == n % len,
    decreases n,
{
    if n == 0 {
        assert(0nat % len == 0) by {
            vstd::arithmetic::div_mod::lemma_small_mod(0, len);
        }
    } else {
        lemma_cycle_order((n - 1) as nat, len);
        let c = cursor_after_ticks((n - 1) as nat, len);
        assert(c == (n - 1) as nat % len);
        assert(c < len);
        assert(c % len == c) by {
            vstd::arithmetic::div_mod::lemma_small_mod(c, len);
        }
        assert((c + 1) % len == n % len) by {
            lemma_add_mod_noop_right(1, n - 1, len as int);
        }
    }
    let c_n = cursor_after_ticks(n, len);
    assert(c_n % len == c_n) by {
        vstd::arithmetic::div_mod::lemma_small_mod(c_n, len);
    }
}

} // verus!

