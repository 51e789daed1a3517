//! The executable simulation: body state, integrator and population.
//!
//! Every quantity is a fixed-point integer (`1.0` is [`crate::model::SCALE`]
//! units). The integrator is proved to follow [`crate::model::step`] exactly;
//! the population hands bodies out by index and drives one lazy step per
//! query from the caller-supplied monotonic timestamp.

use rand::Rng;
use vstd::prelude::*;

use crate::model::{
    body_wf, damped, delta_of_ms, elapsed_ms, grav_gain, sat64, step, Body, DAMP_DEN, DAMP_NUM,
    DELTA_PER_MS, GRAVITY, SCALE, SNAP_THRESHOLD,
};
use crate::MAX_ID;

verus! {

/// A displacement along the three axes, in fixed-point units.
pub struct V3 {
    pub x: i64,
    pub y: i64,
    pub z: i64,
}

/// One simulated body: a flattened 4x4 transform (row-major, the translation
/// cells are 12..14), its vertical velocity, its grounded flag and the
/// timestamp (in milliseconds) of the last query that touched it.
#[derive(Clone, Debug)]
pub struct TransformMatrix {
    pub mat: Vec<i64>,
    pub last_update: u64,
    pub velocity: i64,
    pub grounded: bool,
}

impl View for TransformMatrix {
    type V = Body;

    /// The abstract body state: Y translation, velocity, grounded flag.
    open spec fn view(&self) -> Body {
        Body { y: self.mat@[13] as int, v: self.velocity as int, grounded: self.grounded }
    }
}

impl TransformMatrix {
    /// The transform has all 16 cells and the body state is well formed.
    pub open spec fn wf(&self) -> bool {
        self.mat@.len() == 16 && body_wf(self@)
    }

    /// A fresh body: identity transform, zero velocity, not grounded, with
    /// the last-update timestamp at the clock origin.
    pub fn new() -> (t: TransformMatrix)
        ensures
            t.wf(),
            forall|j: int|
                0 <= j < 16 ==> t.mat@[j] == (if j % 5 == 0 {
                    SCALE
                } else {
                    0i64
                }),
            t.last_update == 0,
            t.velocity == 0,
            !t.grounded,
    {
        let mut mat: Vec<i64> = Vec::new();
        let mut n: usize = 0;
        while n < 16
            invariant
                n <= 16,
                mat@.len() == n,
                forall|j: int|
                    0 <= j < n ==> mat@[j] == (if j % 5 == 0 {
                        SCALE
                    } else {
                        0i64
                    }),
            decreases 16 - n,
        {
            if n % 5 == 0 {
                mat.push(SCALE);
            } else {
                mat.push(0);
            }
            n += 1;
        }
        TransformMatrix { mat, last_update: 0, velocity: 0, grounded: false }
    }

    /// The flattened 16-cell transform, ready to be sent outward.
    pub fn into_v8(&self) -> (r: Vec<i64>)
        requires
            self.wf(),
        ensures
            r@ == self.mat@,
    {
        let mut r: Vec<i64> = Vec::new();
        let mut n: usize = 0;
        while n < self.mat.len()
            invariant
                n <= self.mat@.len(),
                r@ == self.mat@.subrange(0, n as int),
            decreases self.mat@.len() - n,
        {
            r.push(self.mat[n]);
            n += 1;
        }
        proof {
            assert(r@ =~= self.mat@);
        }
        r
    }

    /// The timestamp of the last query that touched this body.
    pub fn get_last_update(&self) -> (r: u64)
        ensures
            r == self.last_update,
    {
        self.last_update
    }

    /// Translate the body by `vec`, saturating at the representable range.
    /// This is the construction-time move; simulation itself only ever moves
    /// the Y cell through [`Self::simulate`].
    pub fn move_by(&mut self, vec: &V3)
        requires
            old(self).wf(),
            !old(self).grounded,
            old(self).mat@[13] + vec.y >= 0,
        ensures
            final(self).wf(),
            final(self).mat@.len() == 16,
            final(self).mat@[12] as int == sat64(old(self).mat@[12] + vec.x),
            final(self).mat@[13] as int == sat64(old(self).mat@[13] + vec.y),
            final(self).mat@[14] as int == sat64(old(self).mat@[14] + vec.z),
            forall|j: int|
                0 <= j < 16 && j != 12 && j != 13 && j != 14 ==> final(self).mat@[j] == old(
                    self,
                ).mat@[j],
            final(self).velocity == old(self).velocity,
            final(self).grounded == old(self).grounded,
            final(self).last_update == old(self).last_update,
    {
        let x: i64 = self.mat[12];
        self.mat[12] = add_sat(x, vec.x);
        let y: i64 = self.mat[13];
        self.mat[13] = add_sat(y, vec.y);
        let z: i64 = self.mat[14];
        self.mat[14] = add_sat(z, vec.z);
    }

    /// One integration step over the elapsed-time fraction `delta` (in
    /// units): exactly [`step`] on the abstract body state, touching no cell
    /// but the Y translation and leaving the timestamp alone.
    pub fn simulate(&mut self, delta: i64)
        requires
            old(self).wf(),
        ensures
            final(self).wf(),
            final(self)@ == step(old(self)@, delta as int),
            final(self).mat@.len() == 16,
            forall|j: int| 0 <= j < 16 && j != 13 ==> final(self).mat@[j] == old(self).mat@[j],
            final(self).last_update == old(self).last_update,
    {
        if self.grounded {
            return;
        }
        let gain: i64 = grav_gain_exec(delta);
        self.velocity = sub_sat(self.velocity, gain);
        let y: i64 = self.mat[13];
        if (y as i128) + (self.velocity as i128) <= 0 {
            self.mat[13] = 0;
            let vb: i64 = damp_exec(self.velocity);
            if vb < SNAP_THRESHOLD {
                self.velocity = 0;
                self.grounded = true;
            } else {
                self.velocity = vb;
            }
        } else {
            let ny: i64 = add_sat(y, self.velocity);
            self.mat[13] = ny;
        }
    }

    /// The query engine on one body: compute the time elapsed since the last
    /// query, record `now_ms` as the new reference point, advance the body by
    /// the corresponding elapsed-time fraction, and return the flattened
    /// transform. The whole read-compute-write path runs against the single
    /// `now_ms` captured by the caller.
    pub fn query_at(&mut self, now_ms: u64) -> (r: Vec<i64>)
        requires
            old(self).wf(),
        ensures
            final(self).wf(),
            final(self)@ == step(
                old(self)@,
                delta_of_ms(elapsed_ms(old(self).last_update as int, now_ms as int)),
            ),
            final(self).last_update == now_ms,
            final(self).mat@.len() == 16,
            forall|j: int| 0 <= j < 16 && j != 13 ==> final(self).mat@[j] == old(self).mat@[j],
            r@ == final(self).mat@,
    {
        let elapsed: u64 = if now_ms >= self.last_update {
            now_ms - self.last_update
        } else {
            0
        };
        self.last_update = now_ms;
        let delta: i64 = delta_from_ms(elapsed);
        self.simulate(delta);
        self.into_v8()
    }
}

/// How one query at `now_ms` against body `index` relates the population
/// after the query to the population before it, and what the query returns:
/// the body is advanced by exactly one [`step`] over the time elapsed since
/// its own last query, its timestamp becomes `now_ms`, no cell but its Y
/// translation moves, and every other body is left untouched.
pub open spec fn query_effect(pre: Sim, post: Sim, index: int, now_ms: int, out: Seq<i64>) -> bool {
    let b0 = pre.objects@[index];
    let b1 = post.objects@[index];
    &&& post.objects@.len() == pre.objects@.len()
    &&& b1@ == step(b0@, delta_of_ms(elapsed_ms(b0.last_update as int, now_ms)))
    &&& b1.last_update == now_ms
    &&& b1.mat@.len() == 16
    &&& forall|j: int| 0 <= j < 16 && j != 13 ==> b1.mat@[j] == b0.mat@[j]
    &&& forall|k: int| 0 <= k < pre.objects@.len() && k != index ==> post.objects@[k] == pre.objects@[k]
    &&& out == b1.mat@
}

/// Queries against one body serialize without lost updates: in whatever
/// order two queries are applied, the later one measures its elapsed time
/// from the timestamp the earlier one wrote — never from the timestamp the
/// earlier one overwrote — so the body's final state is the two steps
/// composed, the second over exactly the interval between the two queries.
pub proof fn lemma_same_body_queries_serialize(
    pre: Sim,
    mid: Sim,
    post: Sim,
    index: int,
    t1: int,
    t2: int,
    out1: Seq<i64>,
    out2: Seq<i64>,
)
    requires
        0 <= index < pre.objects@.len(),
        query_effect(pre, mid, index, t1, out1),
        query_effect(mid, post, index, t2, out2),
    ensures
        post.objects@[index]@ == step(
            step(
                pre.objects@[index]@,
                delta_of_ms(elapsed_ms(pre.objects@[index].last_update as int, t1)),
            ),
            delta_of_ms(elapsed_ms(t1, t2)),
        ),
{
}

/// The population misused: an index past the configured maximum reached it
/// in spite of the caller's boundary check.
#[derive(Clone, Copy, Debug, PartialEq, Eq)]
pub enum SimError {
    IndexOutOfRange,
}

/// The fixed-size population of bodies, indexed `0..=MAX_ID`.
pub struct Sim {
    pub objects: Vec<TransformMatrix>,
}

impl Sim {
    /// The population holds exactly `MAX_ID + 1` well-formed bodies.
    pub open spec fn wf(&self) -> bool {
        &&& self.objects@.len() == MAX_ID + 1
        &&& forall|i: int| 0 <= i < self.objects@.len() ==> (#[trigger] self.objects@[i]).wf()
    }

    /// Build the population at time `now_ms`: each body starts not grounded
    /// with zero velocity, a random X offset in `[-25, 0)`, a random spawn
    /// height in `[0, 25)`, a Z offset spacing the bodies `1.2` apart by
    /// index, and its last-update timestamp set to `now_ms`, so the first
    /// query sees near-zero elapsed time.
    pub fn new(now_ms: u64) -> (s: Sim)
        ensures
            s.wf(),
            forall|i: int|
                0 <= i < s.objects@.len() ==> spawned(#[trigger] s.objects@[i], i, now_ms),
    {
        let mut objects: Vec<TransformMatrix> = Vec::new();
        let mut i: usize = 0;
        while i < (MAX_ID as usize) + 1
            invariant
                i <= MAX_ID + 1,
                objects@.len() == i,
                forall|k: int| 0 <= k < i ==> (#[trigger] objects@[k]).wf(),
                forall|k: int| 0 <= k < i ==> spawned(#[trigger] objects@[k], k, now_ms),
            decreases MAX_ID + 1 - i,
        {
            let mut tm = TransformMatrix::new();
            let x: i64 = random_in(-25 * SCALE, 0);
            let y: i64 = random_in(0, 25 * SCALE);
            let z: i64 = (12 * SCALE / 10) * (i as i64);
            tm.move_by(&(V3 { x, y, z }));
            tm.last_update = now_ms;
            objects.push(tm);
            i += 1;
        }
        Sim { objects }
    }

    /// Query the body at `index`: advance it lazily to `now_ms` and return
    /// its flattened transform. An index past `MAX_ID` is an internal
    /// inconsistency (the boundary check belongs to the caller) and is
    /// reported, not recovered; a valid index always succeeds.
    pub fn get_pos_cache(&mut self, index: u32, now_ms: u64) -> (r: Result<Vec<i64>, SimError>)
        requires
            old(self).wf(),
        ensures
            final(self).wf(),
            (index <= MAX_ID) == (r is Ok),
            index > MAX_ID ==> *final(self) == *old(self) && r == Err::<Vec<i64>, SimError>(
                SimError::IndexOutOfRange,
            ),
            index <= MAX_ID ==> (r matches Ok(v) && query_effect(
                *old(self),
                *final(self),
                index as int,
                now_ms as int,
                v@,
            )),
    {
        if index > MAX_ID {
            return Err(SimError::IndexOutOfRange);
        }
        let i: usize = index as usize;
        let tm = &mut self.objects[i];
        Ok(tm.query_at(now_ms))
    }
}

/// A body as [`Sim::new`] spawns it at index `i` and time `now_ms`: fresh,
/// with the random offsets inside their documented ranges and the Z spacing
/// exactly `1.2 * i`.
pub open spec fn spawned(t: TransformMatrix, i: int, now_ms: u64) -> bool {
    &&& t.velocity == 0
    &&& !t.grounded
    &&& t.last_update == now_ms
    &&& t.mat@.len() == 16
    &&& -25 * SCALE <= t.mat@[12] < 0
    &&& 0 <= t.mat@[13] < 25 * SCALE
    &&& t.mat@[14] == 12 * SCALE / 10 * i
    &&& forall|j: int|
        0 <= j < 16 && j != 12 && j != 13 && j != 14 ==> t.mat@[j] == (if j % 5 == 0 {
            SCALE
        } else {
            0i64
        })
}

/// Relies on `rand::Rng::gen_range` over `thread_rng`: returns a uniformly
/// drawn value in `[lo, hi)`; it panics only on an empty range, which the
/// precondition rules out. Nothing beyond the bounds can be promised of a
/// random draw.
#[verifier::external_body]
fn random_in(lo: i64, hi: i64) -> (r: i64)
    requires
        lo < hi,
    ensures
        lo <= r < hi,
{
    rand::thread_rng().gen_range(lo..hi)
}

/// Saturating `a + b` over `i64`, with an exact contract.
fn add_sat(a: i64, b: i64) -> (r: i64)
    ensures
        r as int == sat64(a + b),
{
    if b >= 0 {
        if a <= i64::MAX - b {
            a + b
        } else {
            i64::MAX
        }
    } else {
        if a >= i64::MIN - b {
            a + b
        } else {
            i64::MIN
        }
    }
}

/// Saturating `a - b` over `i64`, with an exact contract.
fn sub_sat(a: i64, b: i64) -> (r: i64)
    ensures
        r as int == sat64(a - b),
{
    if b <= 0 {
        if a <= i64::MAX + b {
            a - b
        } else {
            i64::MAX
        }
    } else {
        if a >= i64::MIN + b {
            a - b
        } else {
            i64::MIN
        }
    }
}

/// The velocity lost to gravity over `delta` units: exactly
/// [`grav_gain`], computed without overflow through a 128-bit product.
fn grav_gain_exec(delta: i64) -> (r: i64)
    ensures
        r as int == grav_gain(delta as int),
        r >= 0,
{
    if delta <= 0 {
        0
    } else {
        proof {
            assert(GRAVITY * (delta as int) <= 98_100int * 0x7fff_ffff_ffff_ffffint)
                by (nonlinear_arith)
                requires
                    0 < delta <= 0x7fff_ffff_ffff_ffffint,
                    GRAVITY == 98_100,
            ;
        }
        let num: u128 = (GRAVITY as u128) * (delta as u128);
        let q: u128 = num / (SCALE as u128);
        proof {
            assert(num == GRAVITY * delta);
            assert(num <= GRAVITY * (i64::MAX as int)) by (nonlinear_arith)
                requires
                    num == GRAVITY * delta,
                    GRAVITY == 98_100,
                    0 < delta <= i64::MAX,
            ;
            assert(q <= i64::MAX) by (nonlinear_arith)
                requires
                    num <= 98_100int * 0x7fff_ffff_ffff_ffffint,
                    q == num as int / 10_000_000int,
            ;
        }
        q as i64
    }
}

/// The damped rebound velocity for a falling body that hit the ground:
/// exactly [`damped`], computed without overflow through 128-bit math.
fn damp_exec(v: i64) -> (r: i64)
    requires
        v <= 0,
    ensures
        r as int == damped(v as int),
        r >= 0,
{
    let m: u128 = (-(v as i128)) as u128;
    let d: u128 = (m * (DAMP_NUM as u128)) / (DAMP_DEN as u128);
    proof {
        assert(m == -(v as int));
        assert(d <= i64::MAX) by (nonlinear_arith)
            requires
                m <= 9_223_372_036_854_775_808int,
                d == (m as int * 9) / 10,
        ;
        assert(d == ((-(v as int)) * DAMP_NUM) / (DAMP_DEN as int));
    }
    d as i64
}

/// The elapsed-time fraction (in units) for `ms` elapsed milliseconds:
/// exactly [`delta_of_ms`], saturating at the representable range.
fn delta_from_ms(ms: u64) -> (d: i64)
    ensures
        d as int == delta_of_ms(ms as int),
        d >= 0,
{
    proof {
        assert(DELTA_PER_MS * (ms as int) <= 600_000int * 0xffff_ffff_ffff_ffffint)
            by (nonlinear_arith)
            requires
                0 <= ms <= 0xffff_ffff_ffff_ffffint,
                DELTA_PER_MS == 600_000,
        ;
    }
    let num: u128 = (DELTA_PER_MS as u128) * (ms as u128);
    if num > (i64::MAX as u128) {
        i64::MAX
    } else {
        num as i64
    }
}

} // verus!
