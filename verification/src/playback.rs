//! The playback control source and the run-length trace codec: a recorded
//! drive is a sequence of control states, each held for its repeat count,
//! and expanding an encoded trace reproduces the original frame-by-frame
//! control triples exactly.

use vstd::prelude::*;

verus! {

use crate::car::CarComponent;
use crate::driver::{CarDriveState, triple_eq_s};
use crate::fx::{SCALE, fx_ok};

/// A recorded state a car can actually take: controls within their bands.
pub open spec fn control_state_ok(s: CarDriveState) -> bool {
    0 <= s.brake <= SCALE && 0 <= s.throttle <= SCALE && fx_ok(s.steer as int)
}

/// The control triple of one recorded state.
pub open spec fn triple_s(s: CarDriveState) -> (int, int, int) {
    (s.brake as int, s.throttle as int, s.steer as int)
}

/// The control triples of a frame sequence, in order.
pub open spec fn triples_s(frames: Seq<CarDriveState>) -> Seq<(int, int, int)> {
    frames.map_values(|s: CarDriveState| triple_s(s))
}

/// One state with its repeat count grown by one frame.
pub open spec fn bump_s(s: CarDriveState) -> CarDriveState {
    CarDriveState { brake: s.brake, throttle: s.throttle, steer: s.steer, update_id: (s.update_id
        + 1) as usize }
}

/// A recorded sequence expanded by repeat count: each state stands for
/// `update_id + 1` frames of its control triple.
pub open spec fn expand_s(states: Seq<CarDriveState>) -> Seq<(int, int, int)>
    decreases states.len(),
{
    if states.len() == 0 {
        Seq::empty()
    } else {
        Seq::new((states[0].update_id + 1) as nat, |i: int| triple_s(states[0])) + expand_s(
            states.drop_first(),
        )
    }
}

/// Run-length encoding of a frame-by-frame sequence: a run of equal
/// consecutive control triples collapses into one state whose repeat
/// count grows.
pub open spec fn encode_rle_s(frames: Seq<CarDriveState>) -> Seq<CarDriveState>
    decreases frames.len(),
{
    if frames.len() == 0 {
        Seq::empty()
    } else {
        let prev = encode_rle_s(frames.drop_last());
        let f = frames.last();
        if prev.len() > 0 && triple_eq_s(prev.last(), f) {
            prev.update(prev.len() - 1, bump_s(prev.last()))
        } else {
            prev.push(
                CarDriveState { brake: f.brake, throttle: f.throttle, steer: f.steer, update_id: 0 },
            )
        }
    }
}

/// Expansion distributes over appending one encoded state.
proof fn lemma_expand_push(s: Seq<CarDriveState>, x: CarDriveState)
    ensures
        expand_s(s.push(x)) == expand_s(s) + Seq::new(
            (x.update_id + 1) as nat,
            |i: int| triple_s(x),
        ),
    decreases s.len(),
{
    let rep = Seq::new((x.update_id + 1) as nat, |i: int| triple_s(x));
    if s.len() == 0 {
        assert(s.push(x)[0] == x);
        assert(s.push(x).drop_first() =~= Seq::<CarDriveState>::empty());
        assert(expand_s(s.push(x)) == Seq::new(
            ((s.push(x))[0].update_id + 1) as nat,
            |i: int| triple_s((s.push(x))[0]),
        ) + expand_s(s.push(x).drop_first()));
        assert(expand_s(Seq::<CarDriveState>::empty()) =~= Seq::<(int, int, int)>::empty());
        assert(expand_s(s.push(x)) =~= rep);
        assert(expand_s(s) + rep =~= rep);
    } else {
        assert(s.push(x)[0] == s[0]);
        assert(s.push(x).drop_first() =~= s.drop_first().push(x));
        lemma_expand_push(s.drop_first(), x);
        let rep0 = Seq::new((s[0].update_id + 1) as nat, |i: int| triple_s(s[0]));
        assert(expand_s(s.push(x)) == rep0 + (expand_s(s.drop_first()) + rep));
        assert(rep0 + (expand_s(s.drop_first()) + rep) =~= (rep0 + expand_s(s.drop_first()))
            + rep);
        assert(expand_s(s) == rep0 + expand_s(s.drop_first()));
    }
}

/// Every repeat count in an encoding stays below the number of frames
/// encoded.
proof fn lemma_encode_counts(frames: Seq<CarDriveState>)
    requires
        frames.len() <= usize::MAX,
    ensures
        forall|j: int|
            0 <= j < encode_rle_s(frames).len() ==> (#[trigger] encode_rle_s(frames)[j]).update_id
                < frames.len(),
    decreases frames.len(),
{
    if frames.len() == 0 {
    } else {
        let fs = frames.drop_last();
        lemma_encode_counts(fs);
        let prev = encode_rle_s(fs);
        let f = frames.last();
        if prev.len() > 0 && triple_eq_s(prev.last(), f) {
            assert(prev.last().update_id < fs.len());
        }
    }
}

/// Round trip: expanding a run-length encoding by repeat count gives back
/// exactly the control triples that were recorded, frame by frame.
pub proof fn lemma_rle_round_trip(frames: Seq<CarDriveState>)
    requires
        frames.len() <= usize::MAX,
    ensures
        expand_s(encode_rle_s(frames)) == triples_s(frames),
    decreases frames.len(),
{
    if frames.len() == 0 {
        assert(triples_s(frames) =~= Seq::<(int, int, int)>::empty());
    } else {
        let fs = frames.drop_last();
        let f = frames.last();
        lemma_rle_round_trip(fs);
        lemma_encode_counts(fs);
        let prev = encode_rle_s(fs);
        assert(triples_s(frames) =~= triples_s(fs).push(triple_s(f)));
        if prev.len() > 0 && triple_eq_s(prev.last(), f) {
            let last = prev.last();
            let bumped = bump_s(last);
            assert(last.update_id < fs.len() <= usize::MAX);
            let enc = prev.update(prev.len() - 1, bumped);
            assert(enc =~= prev.drop_last().push(bumped));
            lemma_expand_push(prev.drop_last(), bumped);
            lemma_expand_push(prev.drop_last(), last);
            assert(prev.drop_last().push(last) =~= prev);
            let rep_b = Seq::new((bumped.update_id + 1) as nat, |i: int| triple_s(bumped));
            let rep_l = Seq::new((last.update_id + 1) as nat, |i: int| triple_s(last));
            assert(triple_s(bumped) == triple_s(last));
            assert(triple_s(last) == triple_s(f));
            assert(rep_b =~= rep_l.push(triple_s(last)));
            assert(expand_s(enc) == expand_s(prev.drop_last()) + rep_b);
            assert(expand_s(prev.drop_last()) + rep_b =~= (expand_s(prev.drop_last()) + rep_l).push(
                triple_s(f),
            ));
            assert(expand_s(prev) == expand_s(prev.drop_last()) + rep_l);
            assert(expand_s(enc) =~= triples_s(fs).push(triple_s(f)));
        } else {
            let entry = CarDriveState {
                brake: f.brake,
                throttle: f.throttle,
                steer: f.steer,
                update_id: 0,
            };
            lemma_expand_push(prev, entry);
            let rep = Seq::new((entry.update_id + 1) as nat, |i: int| triple_s(entry));
            assert(rep =~= Seq::<(int, int, int)>::empty().push(triple_s(f)));
            assert(expand_s(prev) + rep =~= expand_s(prev).push(triple_s(f)));
            assert(expand_s(encode_rle_s(frames)) =~= triples_s(fs).push(triple_s(f)));
        }
    }
}

/// Run-length encode a frame-by-frame sequence of control states, exactly
/// as `encode_rle_s` says.
pub fn encode_trace(frames: &Vec<CarDriveState>) -> (r: Vec<CarDriveState>)
    ensures
        r@ == encode_rle_s(frames@),
{
    let mut r: Vec<CarDriveState> = Vec::new();
    let mut i: usize = 0;
    assert(frames@.take(0) =~= Seq::<CarDriveState>::empty());
    while i < frames.len()
        invariant
            i <= frames@.len(),
            r@ == encode_rle_s(frames@.take(i as int)),
            r@.len() > 0 ==> r@.last().update_id < i,
        decreases frames@.len() - i,
    {
        let f = frames[i];
        proof {
            assert(frames@.take(i + 1).drop_last() =~= frames@.take(i as int));
            assert(frames@.take(i + 1).last() == frames@[i as int]);
        }
        let n = r.len();
        if n > 0 && r[n - 1] == f {
            let count = r[n - 1].update_id;
            let bumped = CarDriveState {
                brake: r[n - 1].brake,
                throttle: r[n - 1].throttle,
                steer: r[n - 1].steer,
                update_id: count + 1,
            };
            r.set(n - 1, bumped);
            proof {
                assert(r@ =~= encode_rle_s(frames@.take(i + 1)));
            }
        } else {
            r.push(
                CarDriveState { brake: f.brake, throttle: f.throttle, steer: f.steer, update_id: 0 },
            );
            proof {
                assert(r@ =~= encode_rle_s(frames@.take(i + 1)));
            }
        }
        i = i + 1;
    }
    proof {
        assert(frames@.take(frames@.len() as int) =~= frames@);
    }
    r
}

/// Expand an encoded trace by repeat count into frame-by-frame control
/// states (with repeat counts of zero), exactly as `expand_s` says.
pub fn expand_trace(states: &Vec<CarDriveState>) -> (r: Vec<CarDriveState>)
    requires
        expand_s(states@).len() <= usize::MAX,
    ensures
        triples_s(r@) == expand_s(states@),
        forall|j: int| 0 <= j < r@.len() ==> (#[trigger] r@[j]).update_id == 0,
{
    let mut r: Vec<CarDriveState> = Vec::new();
    let mut i: usize = 0;
    assert(states@.take(0) =~= Seq::<CarDriveState>::empty());
    assert(triples_s(r@) =~= expand_s(states@.take(0)));
    while i < states.len()
        invariant
            i <= states@.len(),
            triples_s(r@) == expand_s(states@.take(i as int)),
            expand_s(states@).len() <= usize::MAX,
            forall|j: int| 0 <= j < r@.len() ==> (#[trigger] r@[j]).update_id == 0,
        decreases states@.len() - i,
    {
        let s = states[i];
        proof {
            lemma_expand_split(states@, i as int);
            assert(states@.skip(i as int)[0] == states@[i as int]);
            assert(states@.skip(i as int).len() > 0);
            assert(expand_s(states@.skip(i as int)).len() >= s.update_id + 1) by {
                assert(expand_s(states@.skip(i as int)) == Seq::new(
                    (s.update_id + 1) as nat,
                    |k: int| triple_s(s),
                ) + expand_s(states@.skip(i as int).drop_first()));
            }
        }
        let mut k: usize = 0;
        let ghost r_before = r@;
        assert(s.update_id < usize::MAX);
        while k <= s.update_id
            invariant
                k <= s.update_id + 1,
                s.update_id < usize::MAX,
                r@ == r_before + Seq::new(k as nat, |j: int| zeroed_s(s)),
                forall|j: int| 0 <= j < r_before.len() ==> (#[trigger] r_before[j]).update_id == 0,
            decreases s.update_id + 1 - k,
        {
            r.push(CarDriveState { brake: s.brake, throttle: s.throttle, steer: s.steer, update_id: 0 });
            proof {
                assert(r@ =~= r_before + Seq::new((k + 1) as nat, |j: int| zeroed_s(s)));
            }
            k = k + 1;
        }
        proof {
            assert(states@.take(i + 1) =~= states@.take(i as int).push(s));
            lemma_expand_push(states@.take(i as int), s);
            assert(triples_s(r@) =~= expand_s(states@.take(i as int)) + Seq::new(
                (s.update_id + 1) as nat,
                |j: int| triple_s(s),
            ));
            assert(triples_s(r@) =~= expand_s(states@.take(i + 1)));
        }
        i = i + 1;
    }
    proof {
        assert(states@.take(states@.len() as int) =~= states@);
    }
    r
}

/// The same control state with its repeat count cleared.
pub open spec fn zeroed_s(s: CarDriveState) -> CarDriveState {
    CarDriveState { brake: s.brake, throttle: s.throttle, steer: s.steer, update_id: 0 }
}

/// Expansion splits at any index: the front part and the back part
/// expand to the whole.
proof fn lemma_expand_split(states: Seq<CarDriveState>, i: int)
    requires
        0 <= i <= states.len(),
    ensures
        expand_s(states.take(i)) + expand_s(states.skip(i)) == expand_s(states),
    decreases i,
{
    if i == 0 {
        assert(states.take(0) =~= Seq::<CarDriveState>::empty());
        assert(states.skip(0) =~= states);
        assert(expand_s(states.take(0)) + expand_s(states.skip(0)) =~= expand_s(states));
    } else {
        lemma_expand_split(states.drop_first(), i - 1);
        assert(states.take(i)[0] == states[0]);
        assert(states.take(i).drop_first() =~= states.drop_first().take(i - 1));
        assert(states.skip(i) =~= states.drop_first().skip(i - 1));
        let rep0 = Seq::new((states[0].update_id + 1) as nat, |k: int| triple_s(states[0]));
        assert(expand_s(states.take(i)) == rep0 + expand_s(states.drop_first().take(i - 1)));
        assert((rep0 + expand_s(states.drop_first().take(i - 1))) + expand_s(
            states.drop_first().skip(i - 1),
        ) =~= rep0 + (expand_s(states.drop_first().take(i - 1)) + expand_s(
            states.drop_first().skip(i - 1),
        )));
        assert(expand_s(states) == rep0 + expand_s(states.drop_first()));
    }
}

/// The playback control source: replays a recorded control sequence by
/// holding each state for its repeat count before applying the next.
pub struct PlaybackDriver {
    pub state_stack: Vec<CarDriveState>,
    pub update_id: usize,
}

impl PlaybackDriver {
    /// Every state still to be replayed is one a car can take.
    pub open spec fn wf(self) -> bool {
        forall|j: int|
            0 <= j < self.state_stack@.len() ==> control_state_ok(#[trigger] self.state_stack@[j])
    }
    /// Build a playback driver from a recorded sequence: the sequence is
    /// reversed onto a stack, so the earliest state is applied first.
    pub fn new(state_queue: Vec<CarDriveState>) -> (r: PlaybackDriver)
        ensures
            r.state_stack@ == state_queue@.reverse(),
            r.update_id == 0,
            (forall|j: int|
                0 <= j < state_queue@.len() ==> control_state_ok(#[trigger] state_queue@[j]))
                ==> r.wf(),
    {
        let mut stack: Vec<CarDriveState> = Vec::new();
        let mut i: usize = state_queue.len();
        while i > 0
            invariant
                i <= state_queue@.len(),
                stack@.len() == state_queue@.len() - i,
                forall|j: int|
                    0 <= j < stack@.len() ==> #[trigger] stack@[j] == state_queue@[state_queue@.len()
                        - 1 - j],
            decreases i,
        {
            i = i - 1;
            stack.push(state_queue[i]);
        }
        proof {
            assert(stack@ =~= state_queue@.reverse());
        }
        PlaybackDriver { state_stack: stack, update_id: 0 }
    }

    /// One playback frame: when the top state's repeat count has been
    /// waited out, apply its control triple to the car and pop it;
    /// otherwise keep counting. An empty stack leaves everything alone.
    pub fn update(&mut self, car: &mut CarComponent)
        requires
            old(self).update_id < usize::MAX,
            old(self).wf(),
            old(car).wf(),
        ensures
            final(car).wf(),
            final(self).wf(),
            old(self).state_stack@.len() == 0 ==> *final(car) == *old(car) && *final(self) == *old(self),
            old(self).state_stack@.len() > 0 && old(self).state_stack@.last().update_id == old(self).update_id ==> final(car).steer == old(self).state_stack@.last().steer && final(car).brake == old(self).state_stack@.last().brake && final(car).throttle == old(self).state_stack@.last().throttle && final(self).state_stack@ == old(self).state_stack@.drop_last() && final(self).update_id == 0,
            old(self).state_stack@.len() > 0 && old(self).state_stack@.last().update_id != old(self).update_id ==> final(car).steer == old(car).steer && final(car).brake == old(car).brake && final(car).throttle == old(car).throttle && final(self).state_stack@ == old(self).state_stack@ && final(self).update_id == old(self).update_id + 1,
            final(car).config == old(car).config,
            final(car).position == old(car).position,
            final(car).velocity == old(car).velocity,
            final(car).acceleration == old(car).acceleration,
            final(car).heading == old(car).heading,
            final(car).angular_velocity == old(car).angular_velocity,
            final(car).wheel_roll == old(car).wheel_roll,
            final(car).terrain_height == old(car).terrain_height,
            final(car).front_susp == old(car).front_susp,
            final(car).rear_susp == old(car).rear_susp,
    {
        let n = self.state_stack.len();
        if n > 0 {
            let state = self.state_stack[n - 1];
            if state.update_id == self.update_id {
                car.steer = state.steer;
                car.brake = state.brake;
                car.throttle = state.throttle;
                self.state_stack.pop();
                self.update_id = 0;
            } else {
                self.update_id = self.update_id + 1;
            }
        }
    }
}

} // verus!
