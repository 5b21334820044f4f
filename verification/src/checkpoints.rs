//! Incremental discovery of the checkpoint loop, and the corner-cut
//! ("tuned") aim points computed once the loop is known.

use vstd::prelude::*;

use crate::config::CARDINAL_SHIFT;
use crate::config::DIAGONAL_SHIFT;
use crate::config::TUNE_THRESHOLD;
use crate::geometry::Cardinal;
use crate::geometry::Point;
use crate::geometry::classify;

verus! {

/// A checkpoint paired with its corner-cut variant when one is known;
/// `tuned` (when present) is the effective aim point.
#[derive(Clone, Copy, Debug)]
pub struct Target {
    pub original: Point,
    pub tuned: Option<Point>,
}

impl Target {
    /// The point actually aimed at: the tuned variant if known, else the
    /// checkpoint itself.
    pub open spec fn effective(self) -> Point {
        match self.tuned {
            Some(p) => p,
            None => self.original,
        }
    }

    /// Both points of the target are small enough for distance computations.
    pub open spec fn wf(self) -> bool {
        &&& self.original.in_range()
        &&& match self.tuned {
            Some(p) => p.in_range(),
            None => true,
        }
    }

    /// The tuned variant if known, else the checkpoint itself.
    pub fn effective_point(&self) -> (r: Point)
        ensures
            r == self.effective(),
    {
        match self.tuned {
            Some(p) => p,
            None => self.original,
        }
    }
}

/// The mathematical state of a checkpoint map.
pub struct MapModel {
    pub checkpoints: Seq<Point>,
    pub tuned: Seq<Point>,
    pub current: int,
    pub all_mapped: bool,
    pub boost_on: Option<usize>,
}

/// The per-axis shift applied to an aim point for each direction of the
/// turn it sits on: pure axis directions pull by `CARDINAL_SHIFT` along
/// one axis, diagonals by `DIAGONAL_SHIFT` along both, `Neutral` by nothing.
pub open spec fn shift_for(c: Cardinal) -> (int, int) {
    match c {
        Cardinal::Left => (CARDINAL_SHIFT as int, 0),
        Cardinal::Right => (-CARDINAL_SHIFT as int, 0),
        Cardinal::Down => (0, -CARDINAL_SHIFT as int),
        Cardinal::Up => (0, CARDINAL_SHIFT as int),
        Cardinal::UpLeft => (DIAGONAL_SHIFT as int, DIAGONAL_SHIFT as int),
        Cardinal::UpRight => (-DIAGONAL_SHIFT as int, DIAGONAL_SHIFT as int),
        Cardinal::DownLeft => (DIAGONAL_SHIFT as int, -DIAGONAL_SHIFT as int),
        Cardinal::DownRight => (-DIAGONAL_SHIFT as int, -DIAGONAL_SHIFT as int),
        Cardinal::Neutral => (0, 0),
    }
}

/// The checkpoint before index `i`, wrapping to the last one at the front.
pub open spec fn prev_of(cps: Seq<Point>, i: int) -> Point {
    if i == 0 {
        cps[cps.len() - 1]
    } else {
        cps[i - 1]
    }
}

/// The corner-cut aim point for checkpoint `next` entered from `prev`:
/// `next` shifted toward the inside of the turn the pair forms.
pub open spec fn tuned_point(prev: Point, next: Point) -> Point {
    let c = classify(prev, next, TUNE_THRESHOLD as int);
    let (sx, sy) = shift_for(c);
    Point { x: (next.x + sx) as i64, y: (next.y + sy) as i64 }
}

/// The corner-cut aim points of a full loop, one per checkpoint.
pub open spec fn tuned_seq(cps: Seq<Point>) -> Seq<Point> {
    Seq::new(cps.len(), |i: int| tuned_point(prev_of(cps, i), cps[i]))
}

/// Law: the tuned sequence always has one entry per checkpoint.
pub proof fn lemma_tuned_length(cps: Seq<Point>)
    ensures
        tuned_seq(cps).len() == cps.len(),
{
}

/// The index after `cur` in a loop of `len` checkpoints, wrapping to zero.
pub open spec fn next_index(cur: int, len: int) -> int {
    if cur + 1 >= len {
        0
    } else {
        cur + 1
    }
}

/// `next_index` applied `k` times.
pub open spec fn next_index_iter(cur: int, len: int, k: nat) -> int
    decreases k,
{
    if k == 0 {
        cur
    } else {
        next_index(next_index_iter(cur, len, (k - 1) as nat), len)
    }
}

proof fn lemma_next_index_iter_mod(cur: int, len: int, k: nat)
    requires
        0 <= cur < len,
    ensures
        next_index_iter(cur, len, k) == (cur + k) % len,
    decreases k,
{
    if k == 0 {
        vstd::arithmetic::div_mod::lemma_small_mod(cur as nat, len as nat);
    } else {
        lemma_next_index_iter_mod(cur, len, (k - 1) as nat);
        let r = (cur + k - 1) % len;
        vstd::arithmetic::div_mod::lemma_mod_bound(cur + k - 1, len);
        vstd::arithmetic::div_mod::lemma_add_mod_noop_right(1, cur + k - 1, len);
        assert((1 + r) % len == (cur + k) % len);
        if r + 1 >= len {
            assert(r == len - 1);
            vstd::arithmetic::div_mod::lemma_mod_self_0(len);
            assert((1 + r) % len == 0);
        } else {
            vstd::arithmetic::div_mod::lemma_small_mod((r + 1) as nat, len as nat);
        }
    }
}

/// Law: advancing the current index once per checkpoint walks the whole
/// loop and returns to where it started.
pub proof fn lemma_next_index_cycle(cur: int, len: int)
    requires
        0 <= cur < len,
    ensures
        next_index_iter(cur, len, len as nat) == cur,
{
    lemma_next_index_iter_mod(cur, len, len as nat);
    vstd::arithmetic::div_mod::lemma_add_mod_noop_right(cur, len, len);
    vstd::arithmetic::div_mod::lemma_mod_self_0(len);
    vstd::arithmetic::div_mod::lemma_small_mod(cur as nat, len as nat);
}

/// The map after `k` successive advances of its current index.
pub open spec fn next_model_iter(m: MapModel, k: nat) -> MapModel
    decreases k,
{
    if k == 0 {
        m
    } else {
        next_model_iter(m, (k - 1) as nat).next_model()
    }
}

proof fn lemma_next_model_iter_fields(m: MapModel, k: nat)
    requires
        m.checkpoints.len() > 0,
        0 <= m.current < m.checkpoints.len(),
    ensures
        next_model_iter(m, k).checkpoints == m.checkpoints,
        next_model_iter(m, k).current == next_index_iter(
            m.current,
            m.checkpoints.len() as int,
            k,
        ),
        0 <= next_model_iter(m, k).current < m.checkpoints.len(),
    decreases k,
{
    if k > 0 {
        lemma_next_model_iter_fields(m, (k - 1) as nat);
    }
}

/// Law: advancing the map once per checkpoint of the closed loop returns the
/// current index to its original value.
pub proof fn lemma_next_cycles_the_loop(m: MapModel)
    requires
        m.checkpoints.len() > 0,
        0 <= m.current < m.checkpoints.len(),
    ensures
        next_model_iter(m, m.checkpoints.len()).current == m.current,
{
    lemma_next_model_iter_fields(m, m.checkpoints.len());
    lemma_next_index_cycle(m.current, m.checkpoints.len() as int);
}

impl MapModel {
    /// Invariant kept by every map operation: the current index stays inside
    /// the loop (or zero while nothing is learned), every checkpoint is small
    /// enough to tune and measure, and the tuned sequence is exactly the
    /// corner-cut of the loop once the loop is closed — and absent before.
    pub open spec fn wf(self) -> bool {
        &&& if self.checkpoints.len() == 0 {
            self.current == 0
        } else {
            0 <= self.current < self.checkpoints.len()
        }
        &&& forall|i: int|
            0 <= i < self.checkpoints.len() ==> (#[trigger] self.checkpoints[i]).checkpoint_in_range()
        &&& self.all_mapped ==> self.checkpoints.len() > 0 && self.tuned == tuned_seq(
            self.checkpoints,
        )
        &&& !self.all_mapped ==> self.tuned.len() == 0
    }

    /// The map after feeding one observed checkpoint: a repeated sighting
    /// closes the loop and computes the tuned points; a new point is
    /// appended; a closed map never changes again.
    pub open spec fn add_model(self, p: Point) -> MapModel {
        if self.all_mapped {
            self
        } else if self.checkpoints.contains(p) {
            MapModel { all_mapped: true, tuned: tuned_seq(self.checkpoints), ..self }
        } else {
            MapModel { checkpoints: self.checkpoints.push(p), ..self }
        }
    }

    /// The map after advancing to the next checkpoint of the loop.
    pub open spec fn next_model(self) -> MapModel {
        MapModel { current: next_index(self.current, self.checkpoints.len() as int), ..self }
    }

    /// The current checkpoint paired with its tuned variant when tuning has
    /// run; a zero target while nothing has been learned yet.
    pub open spec fn current_target(self) -> Target {
        if self.checkpoints.len() == 0 {
            Target { original: Point { x: 0, y: 0 }, tuned: None }
        } else {
            Target {
                original: self.checkpoints[self.current],
                tuned: if self.current < self.tuned.len() {
                    Some(self.tuned[self.current])
                } else {
                    None
                },
            }
        }
    }

    /// The checkpoint after the current one, cyclically; the origin while
    /// nothing has been learned yet.
    pub open spec fn peek_next(self) -> Point {
        if self.checkpoints.len() == 0 {
            Point { x: 0, y: 0 }
        } else {
            self.checkpoints[next_index(self.current, self.checkpoints.len() as int)]
        }
    }
}

/// The discovered checkpoint loop: insertion order is discovery order, each
/// point unique by value, with the corner-cut aim points once the loop closes.
#[derive(Debug)]
pub struct Checkpoints {
    pub checkpoints: Vec<Point>,
    pub tuned_checkpoints: Vec<Point>,
    pub current_checkpoint: usize,
    pub all_mapped: bool,
    pub boost_on: Option<usize>,
}

impl View for Checkpoints {
    type V = MapModel;

    open spec fn view(&self) -> MapModel {
        MapModel {
            checkpoints: self.checkpoints@,
            tuned: self.tuned_checkpoints@,
            current: self.current_checkpoint as int,
            all_mapped: self.all_mapped,
            boost_on: self.boost_on,
        }
    }
}

impl Checkpoints {
    pub open spec fn wf(self) -> bool {
        self@.wf()
    }

    /// Whether `checkpoint` has already been discovered.
    fn is_checkpoint_mapped(&self, checkpoint: &Point) -> (r: bool)
        ensures
            r == self@.checkpoints.contains(*checkpoint),
    {
        let n = self.checkpoints.len();
        let mut i: usize = 0;
        while i < n
            invariant
                0 <= i <= n,
                n == self@.checkpoints.len(),
                forall|j: int| 0 <= j < i ==> self@.checkpoints[j] != *checkpoint,
            decreases n - i,
        {
            if self.checkpoints[i] == *checkpoint {
                return true;
            }
            i = i + 1;
        }
        false
    }

    /// Computes the corner-cut aim point of every checkpoint of the closed
    /// loop: each checkpoint is shifted by the direction of the turn it
    /// forms with its predecessor.
    fn tune_checkpoints(&mut self)
        requires
            old(self).checkpoints.len() > 0,
            forall|i: int|
                0 <= i < old(self)@.checkpoints.len() ==> (#[trigger] old(
                    self,
                )@.checkpoints[i]).checkpoint_in_range(),
        ensures
            final(self).tuned_checkpoints@ == tuned_seq(old(self)@.checkpoints),
            final(self).checkpoints == old(self).checkpoints,
            final(self).current_checkpoint == old(self).current_checkpoint,
            final(self).all_mapped == old(self).all_mapped,
            final(self).boost_on == old(self).boost_on,
    {
        let n = self.checkpoints.len();
        let mut tuned: Vec<Point> = Vec::new();
        let mut i: usize = 0;
        while i < n
            invariant
                0 <= i <= n,
                n == self@.checkpoints.len(),
                n > 0,
                forall|j: int|
                    0 <= j < n ==> (#[trigger] self@.checkpoints[j]).checkpoint_in_range(),
                tuned@ =~= tuned_seq(self@.checkpoints).subrange(0, i as int),
            decreases n - i,
        {
            let next = self.checkpoints[i];
            let current = if i == 0 {
                self.checkpoints[n - 1]
            } else {
                self.checkpoints[i - 1]
            };
            let cardinal_direction = current.compare(&next, TUNE_THRESHOLD);
            let (x_shift, y_shift): (i64, i64) = match cardinal_direction {
                Cardinal::Left => (CARDINAL_SHIFT, 0),
                Cardinal::Right => (-CARDINAL_SHIFT, 0),
                Cardinal::Down => (0, -CARDINAL_SHIFT),
                Cardinal::Up => (0, CARDINAL_SHIFT),
                Cardinal::UpLeft => (DIAGONAL_SHIFT, DIAGONAL_SHIFT),
                Cardinal::UpRight => (-DIAGONAL_SHIFT, DIAGONAL_SHIFT),
                Cardinal::DownLeft => (DIAGONAL_SHIFT, -DIAGONAL_SHIFT),
                Cardinal::DownRight => (-DIAGONAL_SHIFT, -DIAGONAL_SHIFT),
                Cardinal::Neutral => (0, 0),
            };
            tuned.push(Point::new(next.x + x_shift, next.y + y_shift));
            proof {
                assert(tuned@ =~= tuned_seq(self@.checkpoints).subrange(0, i + 1));
            }
            i = i + 1;
        }
        proof {
            assert(tuned@ =~= tuned_seq(self@.checkpoints));
        }
        self.tuned_checkpoints = tuned;
    }

    /// Feeds one observed checkpoint: a repeated sighting closes the loop
    /// and computes the tuned points once; a new point is appended. A closed
    /// map is never mutated again.
    pub fn add(&mut self, checkpoint: Point)
        requires
            old(self).wf(),
            checkpoint.checkpoint_in_range(),
        ensures
            final(self)@ == old(self)@.add_model(checkpoint),
            final(self).wf(),
            old(self).all_mapped ==> *final(self) == *old(self),
    {
        if self.all_mapped {
            return;
        }
        if self.is_checkpoint_mapped(&checkpoint) {
            self.all_mapped = true;
            self.tune_checkpoints();
        } else {
            self.checkpoints.push(checkpoint);
        }
    }

    /// Advances the current index by one, wrapping to the front of the loop.
    pub fn next(&mut self)
        requires
            old(self).wf(),
        ensures
            final(self)@ == old(self)@.next_model(),
            final(self).wf(),
    {
        let len = self.checkpoints.len();
        if len == 0 || self.current_checkpoint >= len - 1 {
            self.current_checkpoint = 0;
        } else {
            self.current_checkpoint = self.current_checkpoint + 1;
        }
    }

    /// The current checkpoint paired with its tuned variant when tuning has
    /// run; a zero target while nothing has been learned yet.
    pub fn get_current(&self) -> (r: Target)
        requires
            self.wf(),
        ensures
            r == self@.current_target(),
            r.wf(),
    {
        if self.checkpoints.len() == 0 {
            return Target { original: Point::new(0, 0), tuned: None };
        }
        let original = self.checkpoints[self.current_checkpoint];
        let tuned = if self.current_checkpoint < self.tuned_checkpoints.len() {
            Some(self.tuned_checkpoints[self.current_checkpoint])
        } else {
            None
        };
        Target { original, tuned }
    }

    /// The checkpoint after the current one, cyclically: a peek one step
    /// past the target. The origin while nothing has been learned yet.
    pub fn get_next(&self) -> (r: Point)
        requires
            self.wf(),
        ensures
            r == self@.peek_next(),
            r.checkpoint_in_range(),
    {
        let len = self.checkpoints.len();
        if len == 0 {
            return Point::new(0, 0);
        }
        if self.current_checkpoint >= len - 1 {
            self.checkpoints[0]
        } else {
            self.checkpoints[self.current_checkpoint + 1]
        }
    }
}

impl Default for Checkpoints {
    /// An empty map: nothing discovered, index at the front, loop open.
    fn default() -> (r: Self)
        ensures
            r@.checkpoints.len() == 0,
            r@.tuned.len() == 0,
            r@.current == 0,
            !r@.all_mapped,
            r@.boost_on is None,
            r.wf(),
    {
        Self {
            checkpoints: Vec::new(),
            tuned_checkpoints: Vec::new(),
            current_checkpoint: 0,
            all_mapped: false,
            boost_on: None,
        }
    }
}

} // verus!
