//! Per-frame engine context: time, keyboard and graphics-feature state.
//!
//! Time is carried as nanosecond readings of a monotonic clock; the caller
//! reads the clock and hands the readings in, so every computation on them
//! is verified.  The keyboard state is a pair of duplicate-free key lists,
//! the verified counterpart of a pair of hash sets of key codes.

use vstd::prelude::*;

verus! {

/// True when `s` holds no element twice.
pub open spec fn distinct<T>(s: Seq<T>) -> bool {
    forall|i: int, j: int| 0 <= i < j < s.len() ==> s[i] != s[j]
}

/// Nanoseconds elapsed from the reading `from` to the reading `now` of a
/// monotonic clock; zero if the readings are out of order.
pub open spec fn elapsed_nanos(from: u64, now: u64) -> int {
    if now >= from {
        now - from
    } else {
        0
    }
}

/// Clock readings for the running engine, in nanoseconds.
pub struct TimeContext {
    /// Reading taken when the engine started.
    pub init_nanos: u64,
    /// Reading taken at the start of the current frame.
    pub frame_nanos: u64,
    /// Frames begun so far.
    pub ticks: usize,
}

impl TimeContext {
    /// A time context started at the clock reading `now`.
    pub fn new(now: u64) -> (t: TimeContext)
        ensures
            t.init_nanos == now,
            t.frame_nanos == now,
            t.ticks == 0,
    {
        TimeContext { init_nanos: now, frame_nanos: now, ticks: 0 }
    }

    /// The clock reading of the current frame's start.
    pub fn get_time(&self) -> (r: u64)
        ensures
            r == self.frame_nanos,
    {
        self.frame_nanos
    }

    /// Nanoseconds from the current frame's start to the reading `now`.
    pub fn delta(&self, now: u64) -> (r: u64)
        ensures
            r == elapsed_nanos(self.frame_nanos, now),
    {
        if now >= self.frame_nanos {
            now - self.frame_nanos
        } else {
            0
        }
    }

    /// Nanoseconds from engine start to the reading `now`.
    pub fn time_since_start(&self, now: u64) -> (r: u64)
        ensures
            r == elapsed_nanos(self.init_nanos, now),
    {
        if now >= self.init_nanos {
            now - self.init_nanos
        } else {
            0
        }
    }

    /// Frames begun so far.
    pub fn ticks(&self) -> (r: usize)
        ensures
            r == self.ticks,
    {
        self.ticks
    }
}

/// Keys held down and keys released since the last frame, as
/// duplicate-free lists of key codes.
pub struct KeyboardContext {
    pub pressed: Vec<u32>,
    pub just_released: Vec<u32>,
}

/// Whether `v` holds `key`.
fn vec_contains_key(v: &Vec<u32>, key: u32) -> (r: bool)
    ensures
        r == v@.contains(key),
{
    let mut i: usize = 0;
    while i < v.len()
        invariant
            i <= v@.len(),
            forall|j: int| 0 <= j < i ==> v@[j] != key,
        decreases v@.len() - i,
    {
        if v[i] == key {
            return true;
        }
        i = i + 1;
    }
    false
}

/// Add `key` to the duplicate-free list `v` if it is not yet there.
fn insert_key(v: &mut Vec<u32>, key: u32)
    requires
        distinct(old(v)@),
    ensures
        distinct(final(v)@),
        forall|k: u32| #[trigger] final(v)@.contains(k)
            <==> (old(v)@.contains(k) || k == key),
{
    if !vec_contains_key(v, key) {
        v.push(key);
        proof {
            assert forall|k: u32| #[trigger] v@.contains(k)
                implies (old(v)@.contains(k) || k == key) by {
                let i = choose|i: int| 0 <= i < v@.len() && v@[i] == k;
                if i < v@.len() - 1 {
                    assert(old(v)@[i] == k);
                }
            }
            assert forall|k: u32| (old(v)@.contains(k) || k == key)
                implies #[trigger] v@.contains(k) by {
                if old(v)@.contains(k) {
                    let i = choose|i: int| 0 <= i < old(v)@.len() && old(v)@[i] == k;
                    assert(v@[i] == k);
                } else {
                    assert(v@[v@.len() - 1] == key);
                }
            }
        }
    }
}

/// Take `key` out of the duplicate-free list `v` if it is there.
fn remove_key(v: &mut Vec<u32>, key: u32)
    requires
        distinct(old(v)@),
    ensures
        distinct(final(v)@),
        forall|k: u32| #[trigger] final(v)@.contains(k)
            <==> (old(v)@.contains(k) && k != key),
{
    let ghost source = v@;
    let mut kept: Vec<u32> = Vec::new();
    let mut i: usize = 0;
    while i < v.len()
        invariant
            v@ == source,
            distinct(source),
            i <= source.len(),
            distinct(kept@),
            forall|k: u32| #[trigger] kept@.contains(k)
                <==> (source.subrange(0, i as int).contains(k) && k != key),
        decreases source.len() - i,
    {
        let ghost prefix = source.subrange(0, i as int);
        let ghost kept_before = kept@;
        let candidate = v[i];
        if candidate != key {
            proof {
                if prefix.contains(candidate) {
                    let j = choose|j: int| 0 <= j < prefix.len() && prefix[j] == candidate;
                    assert(source[j] == source[i as int]);
                    assert(false);
                }
                if kept_before.contains(candidate) {
                    assert(prefix.contains(candidate));
                }
            }
            kept.push(candidate);
        }
        proof {
            let extended = source.subrange(0, i + 1);
            assert(extended =~= prefix.push(source[i as int]));
            assert forall|k: u32| #[trigger] kept@.contains(k)
                implies (source.subrange(0, i + 1).contains(k) && k != key) by {
                let j = choose|j: int| 0 <= j < kept@.len() && kept@[j] == k;
                if candidate != key && j == kept@.len() - 1 {
                    assert(k == candidate);
                    assert(extended[i as int] == k);
                } else {
                    assert(kept_before[j] == k);
                    assert(kept_before.contains(k));
                    let m = choose|m: int| 0 <= m < prefix.len() && prefix[m] == k;
                    assert(extended[m] == k);
                }
            }
            assert forall|k: u32| source.subrange(0, i + 1).contains(k) && k != key
                implies #[trigger] kept@.contains(k) by {
                let j = choose|j: int|
                    0 <= j < extended.len() && #[trigger] extended[j] == k;
                if j < i {
                    assert(prefix[j] == k);
                    assert(kept_before.contains(k));
                    let m = choose|m: int|
                        0 <= m < kept_before.len() && kept_before[m] == k;
                    assert(kept@[m] == k);
                } else {
                    assert(k == candidate);
                    assert(kept@[kept@.len() - 1] == k);
                }
            }
        }
        i = i + 1;
    }
    proof {
        assert(source.subrange(0, source.len() as int) =~= source);
    }
    *v = kept;
}

impl KeyboardContext {
    /// No key code is listed twice.
    pub open spec fn wf(self) -> bool {
        distinct(self.pressed@) && distinct(self.just_released@)
    }

    /// An empty keyboard state.
    pub fn new() -> (k: KeyboardContext)
        ensures
            k.wf(),
            k.pressed@.len() == 0,
            k.just_released@.len() == 0,
    {
        KeyboardContext { pressed: Vec::new(), just_released: Vec::new() }
    }

    /// Whether `key` is held down.
    pub fn is_key_pressed(&self, key: u32) -> (r: bool)
        ensures
            r == self.pressed@.contains(key),
    {
        vec_contains_key(&self.pressed, key)
    }

    /// Whether `key` was released since the last frame.
    pub fn is_key_just_released(&self, key: u32) -> (r: bool)
        ensures
            r == self.just_released@.contains(key),
    {
        vec_contains_key(&self.just_released, key)
    }

    /// The keys held down.
    pub fn pressed_keys(&self) -> (r: &Vec<u32>)
        ensures
            r@ == self.pressed@,
    {
        &self.pressed
    }

    /// The keys released since the last frame.
    pub fn just_released_keys(&self) -> (r: &Vec<u32>)
        ensures
            r@ == self.just_released@,
    {
        &self.just_released
    }

    /// Whether every key of `keys` is held down.
    pub fn is_keys_pressed(&self, keys: &Vec<u32>) -> (r: bool)
        ensures
            r == (forall|j: int| 0 <= j < keys@.len()
                ==> self.pressed@.contains(#[trigger] keys@[j])),
    {
        let mut i: usize = 0;
        while i < keys.len()
            invariant
                i <= keys@.len(),
                forall|j: int| 0 <= j < i ==> self.pressed@.contains(#[trigger] keys@[j]),
            decreases keys@.len() - i,
        {
            if !self.is_key_pressed(keys[i]) {
                return false;
            }
            i = i + 1;
        }
        true
    }

    /// Record that `key` went down.
    pub fn press_key(&mut self, key: u32)
        requires
            old(self).wf(),
        ensures
            final(self).wf(),
            forall|k: u32| #[trigger] final(self).pressed@.contains(k)
                <==> (old(self).pressed@.contains(k) || k == key),
            final(self).just_released@ == old(self).just_released@,
    {
        insert_key(&mut self.pressed, key);
    }

    /// Record that `key` went up: it leaves the held-down set and joins
    /// the just-released set.
    pub fn mark_released(&mut self, key: u32)
        requires
            old(self).wf(),
        ensures
            final(self).wf(),
            forall|k: u32| #[trigger] final(self).pressed@.contains(k)
                <==> (old(self).pressed@.contains(k) && k != key),
            forall|k: u32| #[trigger] final(self).just_released@.contains(k)
                <==> (old(self).just_released@.contains(k) || k == key),
    {
        remove_key(&mut self.pressed, key);
        insert_key(&mut self.just_released, key);
    }

    /// Take `key` out of the held-down set.  The caller must pass a key;
    /// the argument mirrors an event field that may be absent.
    pub fn release_key(&mut self, key: Option<u32>)
        requires
            old(self).wf(),
            key is Some,
        ensures
            final(self).wf(),
            forall|k: u32| #[trigger] final(self).pressed@.contains(k)
                <==> (old(self).pressed@.contains(k) && k != key->0),
            final(self).just_released@ == old(self).just_released@,
    {
        let k = match key {
            Option::Some(k) => k,
            Option::None => 0,
        };
        remove_key(&mut self.pressed, k);
    }

    /// Forget the keys released since the last frame.
    pub fn clear_just_released(&mut self)
        requires
            old(self).wf(),
        ensures
            final(self).wf(),
            final(self).pressed@ == old(self).pressed@,
            final(self).just_released@.len() == 0,
    {
        self.just_released = Vec::new();
    }
}

/// A graphics feature that can be switched at run time.
#[derive(Clone, Copy, Debug, PartialEq, Eq, Structural)]
pub enum Feature {
    Depth,
}

/// The switchable part of the graphics state: which features are on.
pub struct GraphicsContext {
    pub depth: bool,
}

impl GraphicsContext {
    /// Whether `feature` is on.
    pub open spec fn feature_on(self, feature: Feature) -> bool {
        match feature {
            Feature::Depth => self.depth,
        }
    }

    /// A graphics context with every feature off.
    pub fn new() -> (g: GraphicsContext)
        ensures
            forall|f: Feature| !g.feature_on(f),
    {
        GraphicsContext { depth: false }
    }

    /// Toggle `feature`: off if it was on, on if it was off.
    pub fn turn_feature(&mut self, feature: Feature)
        ensures
            final(self).feature_on(feature) == !old(self).feature_on(feature),
            forall|f: Feature| f != feature
                ==> final(self).feature_on(f) == old(self).feature_on(f),
    {
        match feature {
            Feature::Depth => {
                self.depth = !self.depth;
            },
        }
    }

    /// Whether `feature` is on.
    pub fn is_feature_enabled(&self, feature: Feature) -> (r: bool)
        ensures
            r == self.feature_on(feature),
    {
        match feature {
            Feature::Depth => self.depth,
        }
    }
}

/// Everything the engine carries from frame to frame besides the scene.
pub struct EngineContext {
    pub time: TimeContext,
    pub keyboard: KeyboardContext,
    pub graphics: GraphicsContext,
}

impl EngineContext {
    pub open spec fn wf(self) -> bool {
        self.keyboard.wf()
    }

    /// A fresh context, started at the clock reading `now`.
    pub fn new(now: u64) -> (c: EngineContext)
        ensures
            c.wf(),
            c.time.init_nanos == now,
            c.time.frame_nanos == now,
            c.time.ticks == 0,
            c.keyboard.pressed@.len() == 0,
            c.keyboard.just_released@.len() == 0,
            forall|f: Feature| !c.graphics.feature_on(f),
    {
        EngineContext {
            time: TimeContext::new(now),
            keyboard: KeyboardContext::new(),
            graphics: GraphicsContext::new(),
        }
    }

    /// Advance to the next frame at the clock reading `now`: the frame
    /// time moves forward, the tick count grows by one, and the
    /// just-released keys are forgotten.
    pub fn update(&mut self, now: u64)
        requires
            old(self).wf(),
            old(self).time.ticks < usize::MAX,
        ensures
            final(self).wf(),
            final(self).time.frame_nanos == now,
            final(self).time.init_nanos == old(self).time.init_nanos,
            final(self).time.ticks == old(self).time.ticks + 1,
            final(self).keyboard.pressed@ == old(self).keyboard.pressed@,
            final(self).keyboard.just_released@.len() == 0,
            final(self).graphics == old(self).graphics,
    {
        self.time.frame_nanos = now;
        self.time.ticks = self.time.ticks + 1;
        self.keyboard.clear_just_released();
    }
}

} // verus!
