//! The decisions of the audio output sink: which device configuration to
//! open, how large its ring buffer is, and when the resampler in front of it
//! must be rebuilt.
use vstd::prelude::*;

verus! {

/// A configuration range that an output device supports.
#[derive(Clone, Copy, Debug, PartialEq, Eq, Structural)]
pub struct SupportedConfig {
    pub channels: u16,
    pub min_sample_rate: u32,
    pub max_sample_rate: u32,
}

/// The configuration chosen for the output stream, and which of the
/// supported ones it came from (`None`: the device listed none).
#[derive(Clone, Copy, Debug, PartialEq, Eq, Structural)]
pub struct StreamChoice {
    pub channels: u16,
    pub sample_rate: u32,
    pub chosen: Option<usize>,
}

/// Whether `a` ranks above `b`: more channels, or as many channels and a
/// higher minimum rate.
pub open spec fn ranks_above(a: SupportedConfig, b: SupportedConfig) -> bool {
    a.channels > b.channels || (a.channels == b.channels && a.min_sample_rate > b.min_sample_rate)
}

/// The configuration chosen from the supported ones: the first that no
/// other ranks above, that is the one with the most channels and, among
/// those, the highest minimum rate. With none supported, two channels at
/// rate 0.
pub open spec fn is_best_choice(configs: Seq<SupportedConfig>, r: StreamChoice) -> bool {
    if configs.len() == 0 {
        r == StreamChoice { channels: 2, sample_rate: 0, chosen: None }
    } else {
        &&& r.chosen is Some
        &&& 0 <= r.chosen->Some_0 < configs.len()
        &&& r.channels == configs[r.chosen->Some_0 as int].channels
        &&& r.sample_rate == configs[r.chosen->Some_0 as int].min_sample_rate
        &&& forall|j: int| 0 <= j < configs.len() ==> !ranks_above(#[trigger] configs[j], configs[r.chosen->Some_0 as int])
        &&& forall|j: int| 0 <= j < r.chosen->Some_0 ==> ranks_above(configs[r.chosen->Some_0 as int], #[trigger] configs[j])
    }
}

/// Picks the output configuration among those a device supports: most
/// channels first, then the highest minimum rate.
pub fn select_output_config(configs: &Vec<SupportedConfig>) -> (r: StreamChoice)
    ensures
        is_best_choice(configs@, r),
{
    if configs.len() == 0 {
        return StreamChoice { channels: 2, sample_rate: 0, chosen: None };
    }
    let mut best: usize = 0;
    let mut i: usize = 1;
    while i < configs.len()
        invariant
            1 <= i <= configs@.len(),
            best < i,
            forall|j: int| 0 <= j < i ==> !ranks_above(#[trigger] configs@[j], configs@[best as int]),
            forall|j: int| 0 <= j < best ==> ranks_above(configs@[best as int], #[trigger] configs@[j]),
        decreases configs@.len() - i,
    {
        let c = configs[i];
        let b = configs[best];
        if c.channels > b.channels || (c.channels == b.channels && c.min_sample_rate > b.min_sample_rate) {
            best = i;
        }
        i = i + 1;
    }
    let b = configs[best];
    StreamChoice { channels: b.channels, sample_rate: b.min_sample_rate, chosen: Some(best) }
}

/// Samples in the ring buffer: about 200 ms of audio at `sample_rate`
/// across `channels`.
pub open spec fn ring_len_spec(sample_rate: u32, channels: u16) -> int {
    ((200 * sample_rate) / 1000) * channels
}

/// The capacity of the ring buffer between decoder and device.
pub fn ring_len(sample_rate: u32, channels: u16) -> (r: u64)
    ensures
        r as int == ring_len_spec(sample_rate, channels),
{
    let per_channel: u64 = (200 * sample_rate as u64) / 1000;
    assert(per_channel * channels <= 0xffff_ffff_ffff_ffff) by (nonlinear_arith)
        requires
            per_channel <= 200 * 0xffff_ffffu64,
            channels <= 0xffff,
    ;
    per_channel * channels as u64
}

/// What a decoded buffer is, as far as the resampler cares: its sample
/// rate, its channel mask and its frame capacity.
#[derive(Clone, Copy, Debug, PartialEq, Eq, Structural)]
pub struct BufferShape {
    pub rate: u32,
    pub channels: u32,
    pub capacity: usize,
}

/// What to do with a decoded buffer.
#[derive(Clone, Copy, Debug, PartialEq, Eq, Structural)]
pub enum WritePlan {
    /// The buffer holds no frames: nothing to write.
    Skip,
    /// Build a resampler for the buffer's shape, then resample and write.
    Rebuild,
    /// Resample with the resampler already built, and write.
    Reuse,
}

/// The resampler that the sink holds, described by the shape it was built for.
pub struct ResamplerSlot {
    built_for: Option<BufferShape>,
}

/// The slot after a buffer of `shape` with frames in it, and whether that
/// buffer rebuilds the resampler.
pub open spec fn slot_step(built_for: Option<BufferShape>, shape: BufferShape) -> (Option<BufferShape>, bool) {
    (Some(shape), built_for != Some(shape))
}

impl ResamplerSlot {
    /// The shape the current resampler was built for; `None` before the first buffer.
    pub closed spec fn built_for(&self) -> Option<BufferShape> {
        self.built_for
    }

    /// A slot with no resampler yet.
    pub fn new() -> (r: Self)
        ensures
            r.built_for() is None,
    {
        ResamplerSlot { built_for: None }
    }

    /// Decides how to write a decoded buffer of `frames` frames and shape
    /// `shape`: empty buffers are skipped; a resampler is rebuilt exactly when
    /// the shape differs from the one it was built for.
    pub fn prepare_write(&mut self, frames: usize, shape: BufferShape) -> (r: WritePlan)
        ensures
            frames == 0 ==> r == WritePlan::Skip && final(self).built_for() == old(self).built_for(),
            frames > 0 ==> final(self).built_for() == Some(shape),
            frames > 0 ==> (r == WritePlan::Rebuild) == slot_step(old(self).built_for(), shape).1,
            frames > 0 ==> (r == WritePlan::Rebuild || r == WritePlan::Reuse),
    {
        if frames == 0 {
            return WritePlan::Skip;
        }
        let rebuild = match self.built_for {
            Some(b) => b != shape,
            None => true,
        };
        self.built_for = Some(shape);
        if rebuild {
            WritePlan::Rebuild
        } else {
            WritePlan::Reuse
        }
    }
}

/// Rebuilds caused by feeding `shapes` in order (each with frames) to a
/// slot built for `start`.
pub open spec fn rebuild_count(start: Option<BufferShape>, shapes: Seq<BufferShape>) -> nat
    decreases shapes.len(),
{
    if shapes.len() == 0 {
        0
    } else {
        let (next, rebuilt) = slot_step(start, shapes[0]);
        (if rebuilt {
            1nat
        } else {
            0nat
        }) + rebuild_count(next, shapes.skip(1))
    }
}

/// Positions where the shape differs from the one before it (the first
/// compared with `start`).
pub open spec fn shape_changes(start: Option<BufferShape>, shapes: Seq<BufferShape>) -> nat {
    Set::new(
        |i: int|
            0 <= i < shapes.len() && (if i == 0 {
                start != Some(shapes[0])
            } else {
                shapes[i - 1] != shapes[i]
            }),
    ).len()
}

/// Changes counted over a prefix of the shapes.
spec fn changes_in(start: Option<BufferShape>, shapes: Seq<BufferShape>, lo: int) -> Set<int> {
    Set::new(
        |i: int|
            lo <= i < shapes.len() && (if i == 0 {
                start != Some(shapes[0])
            } else {
                shapes[i - 1] != shapes[i]
            }),
    )
}

proof fn lemma_rebuilds_from(start: Option<BufferShape>, shapes: Seq<BufferShape>, lo: nat)
    requires
        lo <= shapes.len(),
        lo == 0 || start == Some(shapes[lo - 1]),
    ensures
        changes_in(start, shapes, lo as int).finite(),
        rebuild_count(start, shapes.skip(lo as int)) == changes_in(start, shapes, lo as int).len(),
    decreases shapes.len() - lo,
{
    let s = changes_in(start, shapes, lo as int);
    if lo == shapes.len() {
        assert(s =~= Set::empty());
        assert(shapes.skip(lo as int).len() == 0);
    } else {
        lemma_rebuilds_from(Some(shapes[lo as int]), shapes, lo + 1);
        let rest = changes_in(Some(shapes[lo as int]), shapes, (lo + 1) as int);
        let t = changes_in(start, shapes, (lo + 1) as int);
        assert(t =~= rest);
        let changed = if lo == 0 {
            start != Some(shapes[0])
        } else {
            shapes[lo - 1] != shapes[lo as int]
        };
        assert(shapes.skip(lo as int).skip(1) =~= shapes.skip((lo + 1) as int));
        assert(shapes.skip(lo as int)[0] == shapes[lo as int]);
        if changed {
            assert(s =~= t.insert(lo as int));
            assert(!t.contains(lo as int));
        } else {
            assert(s =~= t);
        }
    }
}

/// A resampler is rebuilt once per change of shape, not once per buffer:
/// over any run of non-empty buffers, the rebuilds number the positions
/// whose shape differs from the one before.
pub proof fn lemma_rebuild_per_change(start: Option<BufferShape>, shapes: Seq<BufferShape>)
    ensures
        rebuild_count(start, shapes) == shape_changes(start, shapes),
{
    lemma_rebuilds_from(start, shapes, 0);
    assert(shapes.skip(0) =~= shapes);
    assert(changes_in(start, shapes, 0) =~= Set::new(
        |i: int|
            0 <= i < shapes.len() && (if i == 0 {
                start != Some(shapes[0])
            } else {
                shapes[i - 1] != shapes[i]
            }),
    ));
}

} // verus!
