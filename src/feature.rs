use vstd::prelude::*;

use crate::memory::{lemma_write_effect, ImageView, MemoryImage};
use crate::patch::{Patch, PatchError, PatchView};

verus! {

/// The two patches write to ranges that do not meet.
pub open spec fn disjoint(p: PatchView, q: PatchView) -> bool {
    p.addr + p.len() <= q.addr || q.addr + q.len() <= p.addr
}

/// No two patches of `ps` write to the same byte.
pub open spec fn pairwise_disjoint(ps: Seq<PatchView>) -> bool {
    forall|i: int, j: int| 0 <= i < ps.len() && 0 <= j < ps.len() && i != j ==> disjoint(#[trigger] ps[i], #[trigger] ps[j])
}

/// `m` after the first `n` patches of `ps` have been applied, in order.
pub open spec fn applied_prefix(ps: Seq<PatchView>, n: int, m: ImageView) -> ImageView
    decreases n,
{
    if n <= 0 {
        m
    } else {
        ps[n - 1].applied(applied_prefix(ps, n - 1, m))
    }
}

/// `m` after the first `n` patches of `ps` have been reverted, in order.
pub open spec fn unapplied_prefix(ps: Seq<PatchView>, n: int, m: ImageView) -> ImageView
    decreases n,
{
    if n <= 0 {
        m
    } else {
        ps[n - 1].unapplied(unapplied_prefix(ps, n - 1, m))
    }
}

/// One step of a cleanup: the patch is reverted where its replacement is resident, and
/// memory is left alone otherwise.
pub open spec fn revert_if_applied(p: PatchView, m: ImageView) -> ImageView {
    if p.can_unapply(m) {
        p.unapplied(m)
    } else {
        m
    }
}

/// `m` after a cleanup has visited the first `n` patches of `ps`.
pub open spec fn cleaned_prefix(ps: Seq<PatchView>, n: int, m: ImageView) -> ImageView
    decreases n,
{
    if n <= 0 {
        m
    } else {
        revert_if_applied(ps[n - 1], cleaned_prefix(ps, n - 1, m))
    }
}

/// The patches of one feature, switched on and off together in a fixed order.
pub struct PatchSet {
    patches: Vec<Patch>,
}

impl View for PatchSet {
    type V = Seq<PatchView>;

    closed spec fn view(&self) -> Seq<PatchView> {
        self.patches@.map_values(|p: Patch| p@)
    }
}

impl PatchSet {
    /// A set of `patches`, kept in the order given.
    pub fn new(patches: Vec<Patch>) -> (r: PatchSet)
        ensures
            r@ == patches@.map_values(|p: Patch| p@),
    {
        PatchSet { patches }
    }

    /// The number of patches.
    pub fn len(&self) -> (r: usize)
        ensures
            r == self@.len(),
    {
        self.patches.len()
    }

    /// The `i`-th patch.
    pub fn get(&self, i: usize) -> (r: &Patch)
        requires
            i < self@.len(),
        ensures
            r@ == self@[i as int],
    {
        &self.patches[i]
    }

    /// Applies every patch in order and stops at the first that fails, reporting its index
    /// and error. Those before it stay applied; the caller decides whether to revert them.
    pub fn apply_all(&self, mem: &mut MemoryImage) -> (r: Result<(), (usize, PatchError)>)
        ensures
            r is Ok ==> (forall|i: int| 0 <= i < self@.len() ==> #[trigger] self@[i].can_apply(applied_prefix(self@, i, old(mem)@))),
            r is Ok ==> final(mem)@ == applied_prefix(self@, self@.len() as int, old(mem)@),
            r matches Err((k, e)) ==> {
                &&& k < self@.len()
                &&& forall|i: int| 0 <= i < k ==> #[trigger] self@[i].can_apply(applied_prefix(self@, i, old(mem)@))
                &&& !self@[k as int].can_apply(applied_prefix(self@, k as int, old(mem)@))
                &&& self@[k as int].refusal(applied_prefix(self@, k as int, old(mem)@), self@[k as int].old, e)
                &&& final(mem)@ == applied_prefix(self@, k as int, old(mem)@)
            },
    {
        let ghost m0 = mem@;
        let mut i: usize = 0;
        while i < self.patches.len()
            invariant
                i <= self@.len(),
                self@.len() == self.patches@.len(),
                m0 == old(mem)@,
                mem@ == applied_prefix(self@, i as int, m0),
                forall|j: int| 0 <= j < i ==> #[trigger] self@[j].can_apply(applied_prefix(self@, j, m0)),
            decreases self@.len() - i,
        {
            assert(self@[i as int] == self.patches@[i as int]@);
            match self.patches[i].apply(mem) {
                Ok(()) => {},
                Err(e) => {
                    return Err((i, e));
                },
            }
            i = i + 1;
        }
        Ok(())
    }

    /// Reverts every patch in order and stops at the first that fails, reporting its index
    /// and error. Those before it stay reverted.
    pub fn unapply_all(&self, mem: &mut MemoryImage) -> (r: Result<(), (usize, PatchError)>)
        ensures
            r is Ok ==> (forall|i: int| 0 <= i < self@.len() ==> #[trigger] self@[i].can_unapply(unapplied_prefix(self@, i, old(mem)@))),
            r is Ok ==> final(mem)@ == unapplied_prefix(self@, self@.len() as int, old(mem)@),
            r matches Err((k, e)) ==> {
                &&& k < self@.len()
                &&& forall|i: int| 0 <= i < k ==> #[trigger] self@[i].can_unapply(unapplied_prefix(self@, i, old(mem)@))
                &&& !self@[k as int].can_unapply(unapplied_prefix(self@, k as int, old(mem)@))
                &&& self@[k as int].refusal(unapplied_prefix(self@, k as int, old(mem)@), self@[k as int].new, e)
                &&& final(mem)@ == unapplied_prefix(self@, k as int, old(mem)@)
            },
    {
        let ghost m0 = mem@;
        let mut i: usize = 0;
        while i < self.patches.len()
            invariant
                i <= self@.len(),
                self@.len() == self.patches@.len(),
                m0 == old(mem)@,
                mem@ == unapplied_prefix(self@, i as int, m0),
                forall|j: int| 0 <= j < i ==> #[trigger] self@[j].can_unapply(unapplied_prefix(self@, j, m0)),
            decreases self@.len() - i,
        {
            assert(self@[i as int] == self.patches@[i as int]@);
            match self.patches[i].unapply(mem) {
                Ok(()) => {},
                Err(e) => {
                    return Err((i, e));
                },
            }
            i = i + 1;
        }
        Ok(())
    }

    /// Tries to revert every patch, whatever its state, and goes on past failures so that
    /// one patch never keeps the others from being restored. Returns one outcome per patch.
    pub fn cleanup(&self, mem: &mut MemoryImage) -> (r: Vec<Result<(), PatchError>>)
        ensures
            r@.len() == self@.len(),
            forall|i: int| 0 <= i < self@.len() ==> (#[trigger] r@[i] is Ok <==> self@[i].can_unapply(cleaned_prefix(self@, i, old(mem)@))),
            forall|i: int| 0 <= i < self@.len() ==> (#[trigger] r@[i] matches Err(e) ==> self@[i].refusal(cleaned_prefix(self@, i, old(mem)@), self@[i].new, e)),
            final(mem)@ == cleaned_prefix(self@, self@.len() as int, old(mem)@),
    {
        let ghost m0 = mem@;
        let mut out: Vec<Result<(), PatchError>> = Vec::new();
        let mut i: usize = 0;
        while i < self.patches.len()
            invariant
                i <= self@.len(),
                self@.len() == self.patches@.len(),
                m0 == old(mem)@,
                out@.len() == i,
                mem@ == cleaned_prefix(self@, i as int, m0),
                forall|j: int| 0 <= j < i ==> (#[trigger] out@[j] is Ok <==> self@[j].can_unapply(cleaned_prefix(self@, j, m0))),
                forall|j: int| 0 <= j < i ==> (#[trigger] out@[j] matches Err(e) ==> self@[j].refusal(cleaned_prefix(self@, j, m0), self@[j].new, e)),
            decreases self@.len() - i,
        {
            assert(self@[i as int] == self.patches@[i as int]@);
            let res = self.patches[i].unapply(mem);
            out.push(res);
            i = i + 1;
        }
        out
    }
}

/// Every patch of `ps` is well formed, lies inside `m`, and is either in place or absent
/// there: `m` holds its expected bytes or its replacement.
pub open spec fn each_applied_or_not(ps: Seq<PatchView>, m: ImageView) -> bool {
    forall|i: int|
        0 <= i < ps.len() ==> {
            &&& (#[trigger] ps[i]).wf()
            &&& m.covers(ps[i].addr, ps[i].len())
            &&& (m.read(ps[i].addr, ps[i].len()) == ps[i].old || m.read(ps[i].addr, ps[i].len())
                == ps[i].new)
        }
}

proof fn lemma_cleaned_prefix(ps: Seq<PatchView>, m: ImageView, n: int)
    requires
        0 <= n <= ps.len(),
        pairwise_disjoint(ps),
        each_applied_or_not(ps, m),
    ensures
        cleaned_prefix(ps, n, m).base == m.base,
        cleaned_prefix(ps, n, m).bytes.len() == m.bytes.len(),
        forall|i: int|
            0 <= i < n ==> #[trigger] cleaned_prefix(ps, n, m).read(ps[i].addr, ps[i].len())
                == ps[i].old,
        forall|i: int|
            n <= i < ps.len() ==> #[trigger] cleaned_prefix(ps, n, m).read(ps[i].addr, ps[i].len())
                == m.read(ps[i].addr, ps[i].len()),
    decreases n,
{
    if n > 0 {
        lemma_cleaned_prefix(ps, m, n - 1);
        let c = cleaned_prefix(ps, n - 1, m);
        let p = ps[n - 1];
        assert(c.read(p.addr, p.len()) == m.read(p.addr, p.len()));
        if p.can_unapply(c) {
            lemma_write_effect(c, p.addr, p.old);
            assert forall|i: int| 0 <= i < ps.len() && i != n - 1 implies #[trigger] c.write(p.addr, p.old).read(ps[i].addr, ps[i].len()) == c.read(ps[i].addr, ps[i].len()) by {
                assert(disjoint(ps[n - 1], ps[i]));
                assert(c.covers(ps[i].addr, ps[i].len()));
            }
        }
    }
}

/// A cleanup leaves every patch reverted: when the patches write to separate ranges and
/// each is either in place or absent beforehand, afterwards each range holds exactly the
/// patch's expected bytes, whichever of them had been applied.
pub proof fn lemma_cleanup_total(ps: Seq<PatchView>, m: ImageView)
    requires
        pairwise_disjoint(ps),
        each_applied_or_not(ps, m),
    ensures
        forall|i: int|
            0 <= i < ps.len() ==> #[trigger] cleaned_prefix(ps, ps.len() as int, m).read(
                ps[i].addr,
                ps[i].len(),
            ) == ps[i].old,
{
    lemma_cleaned_prefix(ps, m, ps.len() as int);
}

/// Where a feature stands in its life.
#[derive(Debug, Clone, Copy, PartialEq, Eq, Structural)]
pub enum FeatureState {
    Uninitialized,
    Initialized,
    PatchesApplied,
    PatchesUnapplied,
    CleanedUp,
}

/// What is asked of a feature.
#[derive(Debug, Clone, Copy, PartialEq, Eq, Structural)]
pub enum FeatureEvent {
    /// Register the feature's menu entries; no patch is applied.
    Init,
    /// Switch the patches on (`true`) or off (`false`).
    Toggle(bool),
    /// Revert everything before the module goes away.
    Cleanup,
}

/// The lifecycle's transitions: `None` where the event is not allowed in that state.
pub open spec fn transition(s: FeatureState, ev: FeatureEvent) -> Option<FeatureState> {
    match (s, ev) {
        (FeatureState::Uninitialized, FeatureEvent::Init) => Some(FeatureState::Initialized),
        (FeatureState::Initialized, FeatureEvent::Toggle(true)) => Some(FeatureState::PatchesApplied),
        (FeatureState::PatchesUnapplied, FeatureEvent::Toggle(true)) => Some(FeatureState::PatchesApplied),
        (FeatureState::PatchesApplied, FeatureEvent::Toggle(false)) => Some(FeatureState::PatchesUnapplied),
        (FeatureState::CleanedUp, _) => None,
        (_, FeatureEvent::Cleanup) => Some(FeatureState::CleanedUp),
        _ => None,
    }
}

/// The state a feature moves to on `ev`, or `None` where the event is out of turn: a
/// second switch-on would apply every patch twice, and nothing follows a cleanup.
pub fn next_state(s: FeatureState, ev: FeatureEvent) -> (r: Option<FeatureState>)
    ensures
        r == transition(s, ev),
{
    match (s, ev) {
        (FeatureState::Uninitialized, FeatureEvent::Init) => Some(FeatureState::Initialized),
        (FeatureState::Initialized, FeatureEvent::Toggle(true)) => Some(FeatureState::PatchesApplied),
        (FeatureState::PatchesUnapplied, FeatureEvent::Toggle(true)) => Some(FeatureState::PatchesApplied),
        (FeatureState::PatchesApplied, FeatureEvent::Toggle(false)) => Some(FeatureState::PatchesUnapplied),
        (FeatureState::CleanedUp, _) => None,
        (_, FeatureEvent::Cleanup) => Some(FeatureState::CleanedUp),
        _ => None,
    }
}

/// Where a module-relative offset lies once the module is loaded at `base`, or `None`
/// where the sum runs past the end of the address space.
pub fn addr(base: usize, relative: usize) -> (r: Option<usize>)
    ensures
        r is Some <==> base as int + relative as int <= usize::MAX as int,
        r matches Some(a) ==> a as int == base as int + relative as int,
{
    base.checked_add(relative)
}

/// A patch at the module-relative offset `relative`, resolved against `base`.
fn patch_at(base: usize, relative: usize, old: Vec<u8>, new: Vec<u8>) -> (r: Option<Patch>)
    requires
        old@.len() == new@.len(),
    ensures
        r is Some <==> base as int + relative as int <= usize::MAX as int,
        r matches Some(p) ==> p@ == (PatchView {
            addr: base as int + relative as int,
            old: old@,
            new: new@,
        }),
{
    match addr(base, relative) {
        None => None,
        Some(a) => match Patch::new(a, old, new) {
            Ok(p) => Some(p),
            Err(_) => None,
        },
    }
}

/// Lets the frame limiter run free: the limiter's `Sleep(1)` becomes `Sleep(0)`, and the
/// jump that keeps it waiting becomes two no-ops. When it is switched off, the limiter's
/// wait time is set to its tick time, or it would wait until the wait time caught up.
pub struct FPSUnlock {
    base: usize,
    patch: PatchSet,
}

/// The module-relative offset of the argument pushed to the limiter's sleep.
pub const FPS_SLEEP_ARG: usize = 0x167f3;

/// The module-relative offset of the jump that loops back into the limiter.
pub const FPS_WAIT_JUMP: usize = 0x16808;

/// The module-relative offset of the limiter's tick time, a 32-bit number.
pub const FPS_TICK_TIME: usize = 0xa6fa0;

/// The module-relative offset of the time the limiter waits for, a 32-bit number.
pub const FPS_WAIT_TIME: usize = 0xa6fa4;

/// The two patches of the frame-rate unlock for a module loaded at `base`.
pub open spec fn fps_unlock_patches(base: int) -> Seq<PatchView> {
    seq![
        PatchView { addr: base + FPS_SLEEP_ARG as int, old: seq![0x01u8], new: seq![0x00u8] },
        PatchView { addr: base + FPS_WAIT_JUMP as int, old: seq![0x72u8, 0xe8u8], new: seq![0x90u8, 0x90u8] },
    ]
}

/// `m` with the four bytes of the limiter's tick time copied over its wait time, where
/// the window holds both; `m` itself otherwise.
pub open spec fn wait_synced(base: int, m: ImageView) -> ImageView {
    let t = base + FPS_TICK_TIME as int;
    let w = base + FPS_WAIT_TIME as int;
    if m.covers(t, 4) && m.covers(w, 4) {
        m.write(w, m.read(t, 4))
    } else {
        m
    }
}

impl FPSUnlock {
    /// The feature for a module loaded at `base`, or `None` where its offsets run past
    /// the end of the address space.
    pub fn new(base: usize) -> (r: Option<FPSUnlock>)
        ensures
            r is Some <==> base as int + FPS_WAIT_JUMP as int <= usize::MAX as int,
            r matches Some(f) ==> f@ == fps_unlock_patches(base as int),
            r matches Some(f) ==> f.module_base() == base as int,
    {
        let sleep_patch = match patch_at(base, FPS_SLEEP_ARG, vec![0x01], vec![0x00]) {
            Some(p) => p,
            None => {
                return None;
            },
        };
        let loop_patch = match patch_at(base, FPS_WAIT_JUMP, vec![0x72, 0xe8], vec![0x90, 0x90]) {
            Some(p) => p,
            None => {
                return None;
            },
        };
        let ghost sp = sleep_patch@;
        let ghost lp = loop_patch@;
        assert(sp.old =~= seq![0x01u8] && sp.new =~= seq![0x00u8]);
        assert(lp.old =~= seq![0x72u8, 0xe8u8] && lp.new =~= seq![0x90u8, 0x90u8]);
        let v = vec![sleep_patch, loop_patch];
        assert(v@.map_values(|p: Patch| p@) =~= seq![sp, lp]);
        let patch = PatchSet::new(v);
        assert(patch@ =~= fps_unlock_patches(base as int));
        Some(FPSUnlock { base, patch })
    }

    /// The base the module was loaded at.
    pub closed spec fn module_base(&self) -> int {
        self.base as int
    }

    /// The base the module was loaded at.
    pub fn base(&self) -> (r: usize)
        ensures
            r as int == self.module_base(),
    {
        self.base
    }

    /// The patches the feature switches.
    pub fn patches(&self) -> (r: &PatchSet)
        ensures
            r@ == self@,
    {
        &self.patch
    }

    /// Copies the limiter's tick time over its wait time, where the window holds both.
    pub fn sync_wait_time(&self, mem: &mut MemoryImage)
        ensures
            final(mem)@ == wait_synced(self.module_base(), old(mem)@),
    {
        mem.base();
        let t = match addr(self.base, FPS_TICK_TIME) {
            Some(t) => t,
            None => {
                return;
            },
        };
        let w = match addr(self.base, FPS_WAIT_TIME) {
            Some(w) => w,
            None => {
                return;
            },
        };
        if mem.covers(w, 4) {
            match mem.read(t, 4) {
                Some(v) => mem.write(w, v.as_slice()),
                None => {},
            }
        }
    }

    /// Switches the unlock off: reverts the patches in order, stopping at the first that
    /// fails, and then resets the wait time whatever came back.
    pub fn switch_off(&self, mem: &mut MemoryImage) -> (r: Result<(), (usize, PatchError)>)
        ensures
            r is Ok ==> (forall|i: int| 0 <= i < self@.len() ==> #[trigger] self@[i].can_unapply(unapplied_prefix(self@, i, old(mem)@))),
            r is Ok ==> final(mem)@ == wait_synced(self.module_base(), unapplied_prefix(self@, self@.len() as int, old(mem)@)),
            r matches Err((k, e)) ==> {
                &&& k < self@.len()
                &&& forall|i: int| 0 <= i < k ==> #[trigger] self@[i].can_unapply(unapplied_prefix(self@, i, old(mem)@))
                &&& !self@[k as int].can_unapply(unapplied_prefix(self@, k as int, old(mem)@))
                &&& self@[k as int].refusal(unapplied_prefix(self@, k as int, old(mem)@), self@[k as int].new, e)
                &&& final(mem)@ == wait_synced(self.module_base(), unapplied_prefix(self@, k as int, old(mem)@))
            },
    {
        let r = self.patch.unapply_all(mem);
        self.sync_wait_time(mem);
        r
    }

    /// Reverts every patch, going on past failures, and then resets the wait time.
    /// Returns one outcome per patch.
    pub fn cleanup(&self, mem: &mut MemoryImage) -> (r: Vec<Result<(), PatchError>>)
        ensures
            r@.len() == self@.len(),
            forall|i: int| 0 <= i < self@.len() ==> (#[trigger] r@[i] is Ok <==> self@[i].can_unapply(cleaned_prefix(self@, i, old(mem)@))),
            forall|i: int| 0 <= i < self@.len() ==> (#[trigger] r@[i] matches Err(e) ==> self@[i].refusal(cleaned_prefix(self@, i, old(mem)@), self@[i].new, e)),
            final(mem)@ == wait_synced(self.module_base(), cleaned_prefix(self@, self@.len() as int, old(mem)@)),
    {
        let r = self.patch.cleanup(mem);
        self.sync_wait_time(mem);
        r
    }
}

impl View for FPSUnlock {
    type V = Seq<PatchView>;

    closed spec fn view(&self) -> Seq<PatchView> {
        self.patch@
    }
}

/// After a cleanup of the frame-rate unlock, from a state where each of its patches is
/// applied or not and the window holds the limiter's times, both patches are reverted and
/// the wait time equals the tick time.
pub proof fn lemma_fps_unlock_cleanup(base: int, m: ImageView)
    requires
        each_applied_or_not(fps_unlock_patches(base), m),
        m.covers(base + FPS_TICK_TIME as int, 4),
        m.covers(base + FPS_WAIT_TIME as int, 4),
    ensures
        ({
            let ps = fps_unlock_patches(base);
            let f = wait_synced(base, cleaned_prefix(ps, 2, m));
            &&& f.read(ps[0].addr, 1) == seq![0x01u8]
            &&& f.read(ps[1].addr, 2) == seq![0x72u8, 0xe8u8]
            &&& f.read(base + FPS_WAIT_TIME as int, 4) == f.read(base + FPS_TICK_TIME as int, 4)
        }),
{
    let ps = fps_unlock_patches(base);
    assert(pairwise_disjoint(ps));
    lemma_cleanup_total(ps, m);
    lemma_cleaned_prefix(ps, m, 2);
    let c = cleaned_prefix(ps, 2, m);
    let t = base + FPS_TICK_TIME as int;
    let w = base + FPS_WAIT_TIME as int;
    assert(c.covers(t, 4) && c.covers(w, 4));
    lemma_write_effect(c, w, c.read(t, 4));
    assert(c.read(ps[0].addr, ps[0].len()) == ps[0].old);
    assert(c.read(ps[1].addr, ps[1].len()) == ps[1].old);
    assert(c.covers(ps[0].addr, ps[0].len()));
    assert(c.covers(ps[1].addr, ps[1].len()));
}

/// Draws a playhead over the unit keyboard, through a hook on its top drawing call.
pub struct Playhead {
    patch: PatchSet,
}

impl Playhead {
    /// The feature around the given hook patch.
    pub fn new(draw_unitkb_top_patch: Patch) -> (r: Playhead)
        ensures
            r@ == seq![draw_unitkb_top_patch@],
    {
        let ghost v = draw_unitkb_top_patch@;
        let ps = vec![draw_unitkb_top_patch];
        assert(ps@.map_values(|p: Patch| p@) =~= seq![v]);
        Playhead { patch: PatchSet::new(ps) }
    }

    /// The patches the feature switches.
    pub fn patches(&self) -> (r: &PatchSet)
        ensures
            r@ == self@,
    {
        &self.patch
    }
}

impl View for Playhead {
    type V = Seq<PatchView>;

    closed spec fn view(&self) -> Seq<PatchView> {
        self.patch@
    }
}

/// Follows the playhead while playing, through a hook on the unit area's clear call.
pub struct Scroll {
    patch: PatchSet,
}

impl Scroll {
    /// The feature around the given hook patch.
    pub fn new(unit_clear_hook_patch: Patch) -> (r: Scroll)
        ensures
            r@ == seq![unit_clear_hook_patch@],
    {
        let ghost v = unit_clear_hook_patch@;
        let ps = vec![unit_clear_hook_patch];
        assert(ps@.map_values(|p: Patch| p@) =~= seq![v]);
        Scroll { patch: PatchSet::new(ps) }
    }

    /// The patches the feature switches.
    pub fn patches(&self) -> (r: &PatchSet)
        ensures
            r@ == self@,
    {
        &self.patch
    }
}

impl View for Scroll {
    type V = Seq<PatchView>;

    closed spec fn view(&self) -> Seq<PatchView> {
        self.patch@
    }
}

/// Replaces the drawing of unit notes with the library's own, through a hook on its call.
pub struct CustomNoteRendering {
    patch: PatchSet,
}

impl CustomNoteRendering {
    /// The feature around the given hook patch.
    pub fn new(draw_unit_notes_patch: Patch) -> (r: CustomNoteRendering)
        ensures
            r@ == seq![draw_unit_notes_patch@],
    {
        let ghost v = draw_unit_notes_patch@;
        let ps = vec![draw_unit_notes_patch];
        assert(ps@.map_values(|p: Patch| p@) =~= seq![v]);
        CustomNoteRendering { patch: PatchSet::new(ps) }
    }

    /// The patches the feature switches.
    pub fn patches(&self) -> (r: &PatchSet)
        ensures
            r@ == self@,
    {
        &self.patch
    }
}

impl View for CustomNoteRendering {
    type V = Seq<PatchView>;

    closed spec fn view(&self) -> Seq<PatchView> {
        self.patch@
    }
}

/// Moves the frame-rate counter so that a third digit fits: one patch widens the number,
/// two move it and its label.
pub struct FPSDisplayFix {
    patch: PatchSet,
}

impl FPSDisplayFix {
    /// The feature from its three patches, applied in this order.
    pub fn new(digit_patch: Patch, number_x_patch: Patch, label_x_patch: Patch) -> (r: FPSDisplayFix)
        ensures
            r@ == seq![digit_patch@, number_x_patch@, label_x_patch@],
    {
        let ghost v = seq![digit_patch@, number_x_patch@, label_x_patch@];
        let ps = vec![digit_patch, number_x_patch, label_x_patch];
        assert(ps@.map_values(|p: Patch| p@) =~= v);
        FPSDisplayFix { patch: PatchSet::new(ps) }
    }

    /// The patches the feature switches.
    pub fn patches(&self) -> (r: &PatchSet)
        ensures
            r@ == self@,
    {
        &self.patch
    }
}

impl View for FPSDisplayFix {
    type V = Seq<PatchView>;

    closed spec fn view(&self) -> Seq<PatchView> {
        self.patch@
    }
}

/// Scales the volume events of a selection by a factor; it patches no code.
pub struct VolumeAdjuster {}

impl VolumeAdjuster {
    /// The feature; it holds no state.
    pub fn new() -> (r: VolumeAdjuster) {
        VolumeAdjuster {  }
    }
}

} // verus!
