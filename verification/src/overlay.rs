use vstd::prelude::*;

use std::collections::HashMap;

use crate::errors::ShellError;
use crate::rat::Frac;

verus! {

broadcast use vstd::std_specs::hash::group_hash_axioms;

/// One patch of texture data; the model keeps the patch's size, the
/// platform layer keeps the pixels.
#[derive(PartialEq, Eq, Structural, Clone, Copy, Debug)]
pub struct ImagePatch {
    pub width: u32,
    pub height: u32,
}

/// A create-or-update of one texture cache entry.
#[derive(PartialEq, Eq, Structural, Clone, Copy, Debug)]
pub struct TextureUpdate {
    pub id: u64,
    pub patch: ImagePatch,
}

/// One UI draw primitive; it samples the texture it names. Later
/// primitives draw over earlier ones, so order matters.
#[derive(PartialEq, Eq, Structural, Clone, Copy, Debug)]
pub struct DrawPrimitive {
    pub texture_id: u64,
}

/// The UI layer's output for one frame: primitives to draw, texture
/// entries to create or update before drawing, entries to release after
/// drawing, and the scale factor the UI was laid out at. Consumed exactly
/// once per frame.
pub struct FrameOutput {
    pub primitives: Vec<DrawPrimitive>,
    pub texture_updates: Vec<TextureUpdate>,
    pub texture_frees: Vec<u64>,
    pub scale_factor: Frac,
}

/// The cache after every update was applied, first to last.
pub open spec fn apply_updates(m: Map<u64, ImagePatch>, s: Seq<TextureUpdate>) -> Map<
    u64,
    ImagePatch,
>
    decreases s.len(),
{
    if s.len() == 0 {
        m
    } else {
        apply_updates(m.insert(s[0].id, s[0].patch), s.drop_first())
    }
}

/// The cache after every freed id was removed, first to last.
pub open spec fn remove_all(m: Map<u64, ImagePatch>, s: Seq<u64>) -> Map<u64, ImagePatch>
    decreases s.len(),
{
    if s.len() == 0 {
        m
    } else {
        remove_all(m.remove(s[0]), s.drop_first())
    }
}

/// Every texture a primitive references is in the cache.
pub open spec fn refs_present(m: Map<u64, ImagePatch>, prims: Seq<DrawPrimitive>) -> bool {
    forall|i: int| 0 <= i < prims.len() ==> m.contains_key(#[trigger] prims[i].texture_id)
}

/// Whether an update list touches the id `k`.
pub open spec fn updates_touch(s: Seq<TextureUpdate>, k: u64) -> bool {
    exists|i: int| 0 <= i < s.len() && #[trigger] s[i].id == k
}

/// Applying one more update at the end inserts its entry last.
pub proof fn lemma_apply_updates_push(
    m: Map<u64, ImagePatch>,
    s: Seq<TextureUpdate>,
    u: TextureUpdate,
)
    ensures
        apply_updates(m, s.push(u)) == apply_updates(m, s).insert(u.id, u.patch),
    decreases s.len(),
{
    reveal_with_fuel(apply_updates, 3);
    if s.len() == 0 {
        assert(s.push(u)[0] == u);
        assert(s.push(u).drop_first() =~= Seq::<TextureUpdate>::empty());
    } else {
        assert(s.push(u)[0] == s[0]);
        assert(s.push(u).drop_first() =~= s.drop_first().push(u));
        lemma_apply_updates_push(m.insert(s[0].id, s[0].patch), s.drop_first(), u);
    }
}

/// Removing one more id at the end removes its entry last.
pub proof fn lemma_remove_all_push(m: Map<u64, ImagePatch>, s: Seq<u64>, k: u64)
    ensures
        remove_all(m, s.push(k)) == remove_all(m, s).remove(k),
    decreases s.len(),
{
    reveal_with_fuel(remove_all, 3);
    if s.len() == 0 {
        assert(s.push(k)[0] == k);
        assert(s.push(k).drop_first() =~= Seq::<u64>::empty());
    } else {
        assert(s.push(k)[0] == s[0]);
        assert(s.push(k).drop_first() =~= s.drop_first().push(k));
        lemma_remove_all_push(m.remove(s[0]), s.drop_first(), k);
    }
}

/// Removing keys never adds one.
pub proof fn lemma_remove_all_no_new(m: Map<u64, ImagePatch>, s: Seq<u64>, k: u64)
    requires
        !m.contains_key(k),
    ensures
        !remove_all(m, s).contains_key(k),
    decreases s.len(),
{
    if s.len() > 0 {
        lemma_remove_all_no_new(m.remove(s[0]), s.drop_first(), k);
    }
}

/// Texture lifecycle law: an id among the frees is absent afterwards, and
/// no later free brings it back.
pub proof fn lemma_remove_all_removes(m: Map<u64, ImagePatch>, s: Seq<u64>, k: u64)
    requires
        s.contains(k),
    ensures
        !remove_all(m, s).contains_key(k),
    decreases s.len(),
{
    if s[0] == k {
        lemma_remove_all_no_new(m.remove(k), s.drop_first(), k);
    } else {
        let i = choose|i: int| 0 <= i < s.len() && s[i] == k;
        assert(s.drop_first()[i - 1] == k);
        lemma_remove_all_removes(m.remove(s[0]), s.drop_first(), k);
    }
}

/// An id not among the frees keeps its entry, value included.
pub proof fn lemma_remove_all_keeps(m: Map<u64, ImagePatch>, s: Seq<u64>, k: u64)
    requires
        !s.contains(k),
    ensures
        remove_all(m, s).contains_key(k) == m.contains_key(k),
        m.contains_key(k) ==> remove_all(m, s)[k] == m[k],
    decreases s.len(),
{
    if s.len() > 0 {
        if s[0] == k {
            assert(s.contains(k));
        }
        if s.drop_first().contains(k) {
            let i = choose|i: int| 0 <= i < s.drop_first().len() && s.drop_first()[i] == k;
            assert(s[i + 1] == k);
            assert(s.contains(k));
        }
        lemma_remove_all_keeps(m.remove(s[0]), s.drop_first(), k);
    }
}

/// The cache holds an id after the updates exactly when it held it before
/// or an update touched it.
pub proof fn lemma_apply_updates_contains(m: Map<u64, ImagePatch>, s: Seq<TextureUpdate>, k: u64)
    ensures
        apply_updates(m, s).contains_key(k) <==> (m.contains_key(k) || updates_touch(s, k)),
    decreases s.len(),
{
    if s.len() == 0 {
        if updates_touch(s, k) {
            let i = choose|i: int| 0 <= i < s.len() && s[i].id == k;
            assert(false);
        }
    } else {
        lemma_apply_updates_contains(m.insert(s[0].id, s[0].patch), s.drop_first(), k);
        if updates_touch(s, k) {
            let i = choose|i: int| 0 <= i < s.len() && s[i].id == k;
            if i > 0 {
                assert(s.drop_first()[i - 1].id == k);
                assert(updates_touch(s.drop_first(), k));
            }
        }
        if updates_touch(s.drop_first(), k) {
            let i = choose|i: int| 0 <= i < s.drop_first().len() && s.drop_first()[i].id == k;
            assert(s[i + 1].id == k);
            assert(updates_touch(s, k));
        }
    }
}

/// Texture cache law: an id updated in a frame and then freed in the same
/// frame is gone from the cache after the frame.
pub proof fn lemma_update_then_free_absent(
    m: Map<u64, ImagePatch>,
    updates: Seq<TextureUpdate>,
    frees: Seq<u64>,
    id: u64,
)
    requires
        frees.contains(id),
    ensures
        !remove_all(apply_updates(m, updates), frees).contains_key(id),
{
    lemma_remove_all_removes(apply_updates(m, updates), frees, id);
}

/// Texture cache law: an id updated in a frame and not freed is in the
/// cache after the frame.
pub proof fn lemma_update_kept(
    m: Map<u64, ImagePatch>,
    updates: Seq<TextureUpdate>,
    frees: Seq<u64>,
    id: u64,
)
    requires
        updates_touch(updates, id),
        !frees.contains(id),
    ensures
        remove_all(apply_updates(m, updates), frees).contains_key(id),
{
    lemma_apply_updates_contains(m, updates, id);
    lemma_remove_all_keeps(apply_updates(m, updates), frees, id);
}

/// The overlay compositor: draws one frame of UI output into a target it
/// does not own, inside a pass that loads the existing contents. It keeps
/// the texture cache across frames and reuses its buffers when the
/// primitive count is unchanged.
pub struct OverlayCompositor {
    pub device_id: u64,
    pub cache: HashMap<u64, ImagePatch>,
    pub buffer_capacity: usize,
}

/// The recorded overlay pass: drawn over the existing frame contents —
/// never cleared — with the primitives' textures in the order given.
#[derive(Debug)]
pub struct OverlayPass {
    pub load_existing: bool,
    pub draw_order: Vec<u64>,
    pub buffers_reallocated: bool,
    pub pixels_per_point: Frac,
}

impl OverlayCompositor {
    /// A fresh compositor for the device the surface was created with; it
    /// is created once, when the backend becomes ready, and reused.
    pub fn new(device_id: u64) -> (c: OverlayCompositor)
        ensures
            c.device_id == device_id,
            c.cache@ == Map::<u64, ImagePatch>::empty(),
            c.buffer_capacity == 0,
    {
        OverlayCompositor { device_id, cache: HashMap::new(), buffer_capacity: 0 }
    }

    /// Whether the cache holds the texture `id`.
    pub fn texture_present(&self, id: u64) -> (r: bool)
        ensures
            r == self.cache@.contains_key(id),
    {
        self.cache.contains_key(&id)
    }

    /// Draws one frame of UI output: applies every texture update, sizes
    /// the primitive buffers to exactly this frame's set, records one
    /// load-existing pass with the primitives in order, and releases the
    /// freed textures. Fails with `TextureCacheMiss` exactly when a
    /// primitive references a texture that the cache, updates applied,
    /// does not hold; the frees are then not applied, since the frame
    /// never reached them. `device_id` is the device the caller's encoder
    /// records against: it must be the device this compositor was created
    /// with — mixing devices is a fatal misuse.
    pub fn compose_frame(&mut self, frame: &FrameOutput, device_id: u64) -> (r: Result<
        OverlayPass,
        ShellError,
    >)
        requires
            device_id == old(self).device_id,
        ensures
            final(self).device_id == old(self).device_id,
            final(self).buffer_capacity == frame.primitives@.len(),
            r is Ok <==> refs_present(
                apply_updates(old(self).cache@, frame.texture_updates@),
                frame.primitives@,
            ),
            r matches Ok(plan) ==> {
                &&& final(self).cache@ == remove_all(
                    apply_updates(old(self).cache@, frame.texture_updates@),
                    frame.texture_frees@,
                )
                &&& plan.load_existing
                &&& plan.draw_order@.len() == frame.primitives@.len()
                &&& (forall|i: int|
                    0 <= i < frame.primitives@.len() ==> plan.draw_order@[i]
                        == #[trigger] frame.primitives@[i].texture_id)
                &&& plan.buffers_reallocated == (old(self).buffer_capacity
                    != frame.primitives@.len())
                &&& plan.pixels_per_point == frame.scale_factor
            },
            r matches Err(e) ==> {
                &&& e == ShellError::TextureCacheMiss
                &&& final(self).cache@ == apply_updates(old(self).cache@, frame.texture_updates@)
            },
    {
        let ghost cache0 = self.cache@;
        // Create or update every texture the frame names, before drawing.
        let mut i: usize = 0;
        while i < frame.texture_updates.len()
            invariant
                i <= frame.texture_updates.len(),
                cache0 == old(self).cache@,
                self.device_id == old(self).device_id,
                self.buffer_capacity == old(self).buffer_capacity,
                self.cache@ == apply_updates(cache0, frame.texture_updates@.take(i as int)),
            decreases frame.texture_updates.len() - i,
        {
            let u = frame.texture_updates[i];
            proof {
                lemma_apply_updates_push(cache0, frame.texture_updates@.take(i as int), u);
                assert(frame.texture_updates@.take(i as int).push(u) =~= frame.texture_updates@
                    .take(i as int + 1));
            }
            self.cache.insert(u.id, u.patch);
            i = i + 1;
        }
        proof {
            assert(frame.texture_updates@.take(frame.texture_updates@.len() as int)
                =~= frame.texture_updates@);
        }
        // Size the vertex/index buffers to exactly this frame's primitives.
        let reallocated: bool = self.buffer_capacity != frame.primitives.len();
        self.buffer_capacity = frame.primitives.len();
        // Record the pass over the existing contents, in order, checking
        // every texture reference against the cache.
        let mut order: Vec<u64> = Vec::new();
        let mut j: usize = 0;
        while j < frame.primitives.len()
            invariant
                j <= frame.primitives.len(),
                cache0 == old(self).cache@,
                self.device_id == old(self).device_id,
                self.buffer_capacity == frame.primitives@.len(),
                self.cache@ == apply_updates(cache0, frame.texture_updates@),
                order@.len() == j,
                forall|k: int|
                    0 <= k < j ==> order@[k] == #[trigger] frame.primitives@[k].texture_id,
                forall|k: int|
                    0 <= k < j ==> self.cache@.contains_key(
                        #[trigger] frame.primitives@[k].texture_id,
                    ),
            decreases frame.primitives.len() - j,
        {
            let p = frame.primitives[j];
            if !self.cache.contains_key(&p.texture_id) {
                proof {
                    assert(frame.primitives@[j as int].texture_id == p.texture_id);
                    assert(!refs_present(
                        apply_updates(old(self).cache@, frame.texture_updates@),
                        frame.primitives@,
                    ));
                }
                return Err(ShellError::TextureCacheMiss);
            }
            order.push(p.texture_id);
            j = j + 1;
        }
        // Release the freed entries; none of them was drawn this frame.
        let ghost cache1 = self.cache@;
        let mut k: usize = 0;
        while k < frame.texture_frees.len()
            invariant
                k <= frame.texture_frees.len(),
                cache0 == old(self).cache@,
                self.device_id == old(self).device_id,
                self.buffer_capacity == frame.primitives@.len(),
                self.cache@ == remove_all(cache1, frame.texture_frees@.take(k as int)),
                order@.len() == frame.primitives@.len(),
                forall|m: int|
                    0 <= m < frame.primitives@.len() ==> order@[m]
                        == #[trigger] frame.primitives@[m].texture_id,
                cache1 == apply_updates(cache0, frame.texture_updates@),
                refs_present(cache1, frame.primitives@),
            decreases frame.texture_frees.len() - k,
        {
            let id = frame.texture_frees[k];
            proof {
                lemma_remove_all_push(cache1, frame.texture_frees@.take(k as int), id);
                assert(frame.texture_frees@.take(k as int).push(id) =~= frame.texture_frees@.take(
                    k as int + 1,
                ));
            }
            self.cache.remove(&id);
            k = k + 1;
        }
        proof {
            assert(frame.texture_frees@.take(frame.texture_frees@.len() as int)
                =~= frame.texture_frees@);
        }
        Ok(
            OverlayPass {
                load_existing: true,
                draw_order: order,
                buffers_reallocated: reallocated,
                pixels_per_point: frame.scale_factor,
            },
        )
    }
}

} // verus!
