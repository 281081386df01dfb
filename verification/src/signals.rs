use std::collections::{HashMap, HashSet};
use vstd::prelude::*;
use vstd::std_specs::cmp::PartialEqSpecImpl;

verus! {

broadcast use vstd::std_specs::hash::group_hash_axioms;

/// The identity of a unit signal.
#[derive(Debug, Clone, Copy, PartialEq, Eq, Hash, Structural)]
pub enum SignalId {
    /// Custom indexed action, usually for signal or weapon activation
    Action(u16),
    /// Desired facing direction in local space
    Facing,
    /// Desired movement direction in local space
    Movement,
}

/// The key under which a signal is stored: action indices keep their
/// number, the two named signals come after every action index.
pub open spec fn spec_signal_key(id: SignalId) -> u32 {
    match id {
        SignalId::Action(n) => n as u32,
        SignalId::Facing => 0x1_0000u32,
        SignalId::Movement => 0x1_0001u32,
    }
}

/// Distinct signals have distinct keys.
pub proof fn lemma_signal_key_injective(a: SignalId, b: SignalId)
    ensures
        spec_signal_key(a) == spec_signal_key(b) ==> a == b,
{
}

impl SignalId {
    /// The key under which the signal is stored.
    pub fn key(&self) -> (r: u32)
        ensures
            r == spec_signal_key(*self),
    {
        match self {
            SignalId::Action(n) => *n as u32,
            SignalId::Facing => 0x1_0000u32,
            SignalId::Movement => 0x1_0001u32,
        }
    }
}

/// Whether the single-precision float with bit pattern `bits` is a NaN.
pub open spec fn spec_is_nan(bits: u32) -> bool {
    (bits & 0x7f80_0000u32) == 0x7f80_0000u32 && (bits & 0x007f_ffffu32) != 0
}

/// Whether the single-precision float with bit pattern `bits` is `+0.0` or `-0.0`.
pub open spec fn spec_is_float_zero(bits: u32) -> bool {
    (bits & 0x7fff_ffffu32) == 0
}

/// Equality of two single-precision floats given by their bit patterns,
/// with NaN equal to NaN: two NaNs are equal, a NaN equals nothing else, and
/// otherwise the floats are equal when their bits are, or when both are zeros.
pub open spec fn spec_float_ord_eq(a: u32, b: u32) -> bool {
    if spec_is_nan(a) {
        spec_is_nan(b)
    } else {
        !spec_is_nan(b) && (a == b || (spec_is_float_zero(a) && spec_is_float_zero(b)))
    }
}

fn is_nan_bits(bits: u32) -> (r: bool)
    ensures
        r == spec_is_nan(bits),
{
    (bits & 0x7f80_0000u32) == 0x7f80_0000u32 && (bits & 0x007f_ffffu32) != 0
}

fn is_float_zero_bits(bits: u32) -> (r: bool)
    ensures
        r == spec_is_float_zero(bits),
{
    (bits & 0x7fff_ffffu32) == 0
}

fn float_ord_eq_bits(a: u32, b: u32) -> (r: bool)
    ensures
        r == spec_float_ord_eq(a, b),
{
    if is_nan_bits(a) {
        is_nan_bits(b)
    } else {
        !is_nan_bits(b) && (a == b || (is_float_zero_bits(a) && is_float_zero_bits(b)))
    }
}

/// The value of a signal. Floats are held by their IEEE-754 bit patterns
/// (`f32::to_bits`), so that equality follows the total float order used by
/// the game: NaN equals NaN, and `+0.0` equals `-0.0`.
#[derive(Debug, Clone, Copy)]
pub enum SignalValue {
    /// Empty (unset) signal
    Off,
    /// Scalar signal value, as the bits of an `f32`
    Scalar(u32),
    /// Vector signal value in local space, as the bits of its `f32` components
    Vector(u32, u32),
}

impl SignalValue {
    /// Whether the value counts as zero: `Off`, a zero scalar, or a vector
    /// whose two components are zero.
    pub open spec fn spec_is_zero(self) -> bool {
        match self {
            SignalValue::Off => true,
            SignalValue::Scalar(a) => spec_float_ord_eq(a, 0),
            SignalValue::Vector(x, y) => spec_float_ord_eq(x, 0) && spec_float_ord_eq(y, 0),
        }
    }

    /// Equality of signal values: same variant, and components equal under
    /// the total float order.
    pub open spec fn spec_eq(self, other: Self) -> bool {
        match (self, other) {
            (SignalValue::Off, SignalValue::Off) => true,
            (SignalValue::Scalar(a), SignalValue::Scalar(b)) => spec_float_ord_eq(a, b),
            (SignalValue::Vector(ax, ay), SignalValue::Vector(bx, by)) => spec_float_ord_eq(ax, bx)
                && spec_float_ord_eq(ay, by),
            _ => false,
        }
    }

    /// A vector value from the bit patterns of its components.
    pub fn new_vector(x_bits: u32, y_bits: u32) -> (r: Self)
        ensures
            r == SignalValue::Vector(x_bits, y_bits),
    {
        SignalValue::Vector(x_bits, y_bits)
    }

    /// Checks if the signal value is zero. `Off` is considered zero, `Scalar`
    /// is zero if its value is zero, and `Vector` is zero if both components
    /// are zero
    pub fn is_zero(&self) -> (r: bool)
        ensures
            r == self.spec_is_zero(),
    {
        match self {
            SignalValue::Off => true,
            SignalValue::Scalar(a) => float_ord_eq_bits(*a, 0),
            SignalValue::Vector(x, y) => float_ord_eq_bits(*x, 0) && float_ord_eq_bits(*y, 0),
        }
    }
}

impl Default for SignalValue {
    fn default() -> (r: Self)
        ensures
            r == SignalValue::Off,
    {
        SignalValue::Off
    }
}

impl PartialEq for SignalValue {
    fn eq(&self, other: &Self) -> (r: bool) {
        match (self, other) {
            (SignalValue::Off, SignalValue::Off) => true,
            (SignalValue::Scalar(a), SignalValue::Scalar(b)) => float_ord_eq_bits(*a, *b),
            (SignalValue::Vector(ax, ay), SignalValue::Vector(bx, by)) => float_ord_eq_bits(*ax, *bx)
                && float_ord_eq_bits(*ay, *by),
            _ => false,
        }
    }
}

impl PartialEqSpecImpl for SignalValue {
    open spec fn obeys_eq_spec() -> bool {
        true
    }

    open spec fn eq_spec(&self, other: &SignalValue) -> bool {
        self.spec_eq(*other)
    }
}

impl Eq for SignalValue {}

} // verus!

verus! {

/// The abstract state of a unit's signals: the value of each set signal,
/// and the signals that rose, fell or changed since the last tick.
pub struct UnitSignalsView {
    pub signals: Map<SignalId, SignalValue>,
    pub rising: Set<SignalId>,
    pub falling: Set<SignalId>,
    pub changed: Set<SignalId>,
}

impl UnitSignalsView {
    /// No set signal holds a zero value; a signal that rose since the last
    /// tick is set, and one that fell is not.
    pub open spec fn wf(self) -> bool {
        &&& forall|id: SignalId| #[trigger] self.signals.contains_key(id) ==> !self.signals[id].spec_is_zero()
        &&& forall|id: SignalId| #[trigger] self.rising.contains(id) ==> self.signals.contains_key(id)
        &&& forall|id: SignalId| #[trigger] self.falling.contains(id) ==> !self.signals.contains_key(id)
    }

    /// The value of a signal, `Off` when it is not set.
    pub open spec fn spec_get(self, id: SignalId) -> SignalValue {
        if self.signals.contains_key(id) {
            self.signals[id]
        } else {
            SignalValue::Off
        }
    }

    /// The state after unsetting `id`. A set signal is removed and marked
    /// as changed; if it rose since the last tick that rise is undone,
    /// otherwise it is marked as falling. An unset one leaves everything as
    /// it was.
    pub open spec fn after_unset(self, id: SignalId) -> Self {
        if self.signals.contains_key(id) {
            UnitSignalsView {
                signals: self.signals.remove(id),
                rising: self.rising.remove(id),
                falling: if self.rising.contains(id) {
                    self.falling
                } else {
                    self.falling.insert(id)
                },
                changed: self.changed.insert(id),
            }
        } else {
            self
        }
    }

    /// The state after setting `id` to `v`: a zero value unsets the signal.
    /// Otherwise the value is stored. A signal that was not set is marked as
    /// changed; if it fell since the last tick that fall is undone,
    /// otherwise it is marked as rising. A signal that held a different
    /// value is marked as changed.
    pub open spec fn after_set(self, id: SignalId, v: SignalValue) -> Self {
        if v.spec_is_zero() {
            self.after_unset(id)
        } else if !self.signals.contains_key(id) {
            UnitSignalsView {
                signals: self.signals.insert(id, v),
                rising: if self.falling.contains(id) {
                    self.rising
                } else {
                    self.rising.insert(id)
                },
                falling: self.falling.remove(id),
                changed: self.changed.insert(id),
            }
        } else {
            UnitSignalsView {
                signals: self.signals.insert(id, v),
                rising: self.rising,
                falling: self.falling,
                changed: if self.signals[id].spec_eq(v) {
                    self.changed
                } else {
                    self.changed.insert(id)
                },
            }
        }
    }

    /// The state after a tick: the signals stay, the edge and change marks are cleared.
    pub open spec fn after_tick(self) -> Self {
        UnitSignalsView {
            signals: self.signals,
            rising: Set::empty(),
            falling: Set::empty(),
            changed: Set::empty(),
        }
    }
}

/// The signals of a unit, with the edges and changes seen since the last tick.
#[derive(Debug)]
pub struct UnitSignals {
    signals: HashMap<u32, SignalValue>,
    rising_edge: HashSet<u32>,
    falling_edge: HashSet<u32>,
    changed: HashSet<u32>,
}

impl Default for UnitSignals {
    fn default() -> (r: Self)
        ensures
            r@.signals == Map::<SignalId, SignalValue>::empty(),
            r@.rising == Set::<SignalId>::empty(),
            r@.falling == Set::<SignalId>::empty(),
            r@.changed == Set::<SignalId>::empty(),
    {
        UnitSignals::new()
    }
}

impl View for UnitSignals {
    type V = UnitSignalsView;

    closed spec fn view(&self) -> UnitSignalsView {
        UnitSignalsView {
            signals: Map::new(|id: SignalId| self.has(spec_signal_key(id)), |id: SignalId| self.signals@[spec_signal_key(id)]),
            rising: Set::new(|id: SignalId| self.rising_edge@.contains(spec_signal_key(id)) && self.has(spec_signal_key(id))),
            falling: Set::new(|id: SignalId| self.falling_edge@.contains(spec_signal_key(id)) && !self.has(spec_signal_key(id))),
            changed: Set::new(|id: SignalId| self.changed@.contains(spec_signal_key(id))),
        }
    }
}

/// The stored parts of the signals keep their invariant: no zero value is
/// stored, a rising key is stored, and a falling one is not.
spec fn parts_ok(signals: Map<u32, SignalValue>, rising: Set<u32>, falling: Set<u32>) -> bool {
    &&& forall|k: u32| #[trigger] signals.contains_key(k) ==> !signals[k].spec_is_zero()
    &&& forall|k: u32| #[trigger] rising.contains(k) ==> signals.contains_key(k)
    &&& forall|k: u32| #[trigger] falling.contains(k) ==> !signals.contains_key(k)
}

/// Every unit's signals are well formed.
pub proof fn lemma_unit_signals_wf(s: &UnitSignals)
    ensures
        s@.wf(),
{
}

impl UnitSignals {
    /// A non-zero value is stored under key `k`.
    spec fn has(&self, k: u32) -> bool {
        self.signals@.contains_key(k) && !self.signals@[k].spec_is_zero()
    }

    #[verifier::type_invariant]
    spec fn parts_consistent(&self) -> bool {
        parts_ok(self.signals@, self.rising_edge@, self.falling_edge@)
    }

    /// No signal is set, and nothing has risen, fallen or changed.
    pub fn new() -> (r: Self)
        ensures
            r@.signals == Map::<SignalId, SignalValue>::empty(),
            r@.rising == Set::<SignalId>::empty(),
            r@.falling == Set::<SignalId>::empty(),
            r@.changed == Set::<SignalId>::empty(),
            r@.wf(),
    {
        let r = UnitSignals {
            signals: HashMap::new(),
            rising_edge: HashSet::new(),
            falling_edge: HashSet::new(),
            changed: HashSet::new(),
        };
        assert(r@.signals =~= Map::<SignalId, SignalValue>::empty());
        assert(r@.rising =~= Set::<SignalId>::empty());
        assert(r@.falling =~= Set::<SignalId>::empty());
        assert(r@.changed =~= Set::<SignalId>::empty());
        r
    }

    /// Takes the signals' state out, leaving no signal set.
    fn take(&mut self) -> (r: (HashMap<u32, SignalValue>, HashSet<u32>, HashSet<u32>, HashSet<u32>))
        ensures
            r.0@ == old(self).signals@,
            r.1@ == old(self).rising_edge@,
            r.2@ == old(self).falling_edge@,
            r.3@ == old(self).changed@,
            parts_ok(r.0@, r.1@, r.2@),
    {
        proof {
            use_type_invariant(&*self);
        }
        let mut taken = UnitSignals::new();
        std::mem::swap(&mut taken, self);
        let UnitSignals { signals, rising_edge, falling_edge, changed } = taken;
        (signals, rising_edge, falling_edge, changed)
    }

    /// Sets a signal to the given value. If the value is `Off` or zero, the signal is unset
    pub fn set(&mut self, id: SignalId, value: SignalValue)
        ensures
            final(self)@ == old(self)@.after_set(id, value),
            final(self)@.wf(),
    {
        if value.is_zero() {
            self.unset(id);
            return;
        }
        let ghost pre = self@;
        let key = id.key();
        let (mut signals, mut rising_edge, mut falling_edge, mut changed) = self.take();
        match signals.insert(key, value) {
            None => {
                if falling_edge.contains(&key) {
                    falling_edge.remove(&key);
                } else {
                    rising_edge.insert(key);
                }
                changed.insert(key);
            },
            Some(old) => {
                if old != value {
                    changed.insert(key);
                }
            },
        }
        *self = UnitSignals { signals, rising_edge, falling_edge, changed };
        proof {
            assert forall|i: SignalId| spec_signal_key(i) == key implies i == id by {
                lemma_signal_key_injective(i, id);
            }
            assert(self@.signals =~= pre.after_set(id, value).signals);
            assert(self@.rising =~= pre.after_set(id, value).rising);
            assert(self@.falling =~= pre.after_set(id, value).falling);
            assert(self@.changed =~= pre.after_set(id, value).changed);
        }
    }

    /// Unsets a signal
    pub fn unset(&mut self, id: SignalId)
        ensures
            final(self)@ == old(self)@.after_unset(id),
            final(self)@.wf(),
    {
        let ghost pre = self@;
        let key = id.key();
        let (mut signals, mut rising_edge, mut falling_edge, mut changed) = self.take();
        if signals.remove(&key).is_some() {
            changed.insert(key);
            if !rising_edge.remove(&key) {
                falling_edge.insert(key);
            }
        }
        *self = UnitSignals { signals, rising_edge, falling_edge, changed };
        proof {
            assert forall|i: SignalId| spec_signal_key(i) == key implies i == id by {
                lemma_signal_key_injective(i, id);
            }
            assert(self@.signals =~= pre.after_unset(id).signals);
            assert(self@.rising =~= pre.after_unset(id).rising);
            assert(self@.falling =~= pre.after_unset(id).falling);
            assert(self@.changed =~= pre.after_unset(id).changed);
        }
    }

    /// Gets the value of a signal, or `Off` if it is not set
    pub fn get(&self, id: SignalId) -> (r: SignalValue)
        ensures
            r == self@.spec_get(id),
    {
        proof {
            use_type_invariant(self);
        }
        match self.signals.get(&id.key()) {
            Some(v) => *v,
            None => SignalValue::Off,
        }
    }

    /// Checks if a signal was changed since the last tick
    pub fn is_changed(&self, id: &SignalId) -> (r: bool)
        ensures
            r == self@.changed.contains(*id),
    {
        self.changed.contains(&id.key())
    }

    /// Checks if a signal was `Off` the last tick and is now set
    pub fn is_rising_edge(&self, id: &SignalId) -> (r: bool)
        ensures
            r == self@.rising.contains(*id),
    {
        proof {
            use_type_invariant(self);
        }
        self.rising_edge.contains(&id.key())
    }

    /// Checks if a signal was set the last tick and is now `Off`
    pub fn is_falling_edge(&self, id: &SignalId) -> (r: bool)
        ensures
            r == self@.falling.contains(*id),
    {
        proof {
            use_type_invariant(self);
        }
        self.falling_edge.contains(&id.key())
    }

    /// Clears the edge and changed sets. Should be called at the end of each tick
    pub fn tick(&mut self)
        ensures
            final(self)@ == old(self)@.after_tick(),
            final(self)@.wf(),
    {
        let ghost pre = self@;
        let (signals, mut rising_edge, mut falling_edge, mut changed) = self.take();
        rising_edge.clear();
        falling_edge.clear();
        changed.clear();
        *self = UnitSignals { signals, rising_edge, falling_edge, changed };
        proof {
            assert(self@.signals =~= pre.after_tick().signals);
            assert(self@.rising =~= Set::<SignalId>::empty());
            assert(self@.falling =~= Set::<SignalId>::empty());
            assert(self@.changed =~= Set::<SignalId>::empty());
            use_type_invariant(&*self);
        }
    }
}

} // verus!

verus! {

/// Setting a signal and then reading it gives back the value set, or `Off`
/// when the value set was zero.
pub proof fn law_set_then_get(s: UnitSignalsView, id: SignalId, v: SignalValue)
    ensures
        s.after_set(id, v).spec_get(id) == (if v.spec_is_zero() { SignalValue::Off } else { v }),
{
}

/// Setting or unsetting one signal leaves every other signal, and its edge
/// and change marks, as they were.
pub proof fn law_other_signals_untouched(s: UnitSignalsView, id: SignalId, other: SignalId, v: SignalValue)
    requires
        other != id,
    ensures
        s.after_set(id, v).spec_get(other) == s.spec_get(other),
        s.after_set(id, v).rising.contains(other) == s.rising.contains(other),
        s.after_set(id, v).falling.contains(other) == s.falling.contains(other),
        s.after_set(id, v).changed.contains(other) == s.changed.contains(other),
        s.after_unset(id).spec_get(other) == s.spec_get(other),
        s.after_unset(id).rising.contains(other) == s.rising.contains(other),
        s.after_unset(id).falling.contains(other) == s.falling.contains(other),
        s.after_unset(id).changed.contains(other) == s.changed.contains(other),
{
}

/// Setting a signal to a zero value is the same as unsetting it.
pub proof fn law_set_zero_is_unset(s: UnitSignalsView, id: SignalId, v: SignalValue)
    requires
        v.spec_is_zero(),
    ensures
        s.after_set(id, v) == s.after_unset(id),
{
}

/// Setting the same value twice in a tick has the effect of setting it once.
pub proof fn law_set_idempotent(s: UnitSignalsView, id: SignalId, v: SignalValue)
    ensures
        s.after_set(id, v).after_set(id, v) == s.after_set(id, v),
{
    let once = s.after_set(id, v);
    let twice = once.after_set(id, v);
    if v.spec_is_zero() {
        assert(twice.signals =~= once.signals);
    } else {
        assert(twice.signals =~= once.signals);
        assert(twice.rising =~= once.rising);
        assert(twice.changed =~= once.changed);
    }
}

/// A signal rises when a non-zero value is set while it was unset and had
/// not fallen since the last tick; a fall since the last tick is undone
/// instead. It falls when it is unset while it was set and had not risen
/// since the last tick; a rise since the last tick is undone instead. A set
/// value that differs from the stored one, a set of an unset signal, or an
/// unset of a set one marks the signal as changed.
pub proof fn law_edges(s: UnitSignalsView, id: SignalId, v: SignalValue)
    ensures
        !v.spec_is_zero() ==> (s.after_set(id, v).rising.contains(id) <==> (s.rising.contains(id)
            || (!s.signals.contains_key(id) && !s.falling.contains(id)))),
        !v.spec_is_zero() ==> (s.after_set(id, v).falling.contains(id) <==> (s.falling.contains(id)
            && s.signals.contains_key(id))),
        s.after_unset(id).falling.contains(id) <==> (s.falling.contains(id) || (s.signals.contains_key(id)
            && !s.rising.contains(id))),
        s.after_unset(id).rising.contains(id) <==> (s.rising.contains(id) && !s.signals.contains_key(id)),
        s.after_set(id, v).changed.contains(id) <==> (s.changed.contains(id) || (v.spec_is_zero()
            && s.signals.contains_key(id)) || (!v.spec_is_zero() && !(s.signals.contains_key(id)
            && s.signals[id].spec_eq(v)))),
{
}

/// A signal set and unset again within one tick, from unset, shows no
/// edge; one unset and set again within one tick, from set, shows none
/// either.
pub proof fn law_round_trip_no_edge(s: UnitSignalsView, id: SignalId, v: SignalValue)
    requires
        s.wf(),
        !v.spec_is_zero(),
    ensures
        !s.signals.contains_key(id) && !s.rising.contains(id) && !s.falling.contains(id) ==> {
            let t = s.after_set(id, v).after_unset(id);
            !t.rising.contains(id) && !t.falling.contains(id)
        },
        s.signals.contains_key(id) && !s.rising.contains(id) && !s.falling.contains(id) ==> {
            let t = s.after_unset(id).after_set(id, v);
            !t.rising.contains(id) && !t.falling.contains(id)
        },
{
}

/// After unsetting a signal it reads `Off`.
pub proof fn law_unset_then_get(s: UnitSignalsView, id: SignalId)
    ensures
        s.after_unset(id).spec_get(id) == SignalValue::Off,
{
}

/// A tick keeps every signal's value and clears all edge and change marks.
pub proof fn law_tick(s: UnitSignalsView, id: SignalId)
    ensures
        s.after_tick().spec_get(id) == s.spec_get(id),
        !s.after_tick().rising.contains(id),
        !s.after_tick().falling.contains(id),
        !s.after_tick().changed.contains(id),
{
}

/// Every operation keeps the state well formed: no zero value is stored,
/// so a signal reads as zero exactly when it is `Off`; a rising signal is
/// set and a falling one is not.
pub proof fn law_well_formed_kept(s: UnitSignalsView, id: SignalId, other: SignalId, v: SignalValue)
    requires
        s.wf(),
    ensures
        s.after_set(id, v).wf(),
        s.after_unset(id).wf(),
        s.after_tick().wf(),
        s.spec_get(other).spec_is_zero() <==> s.spec_get(other) == SignalValue::Off,
{
}

/// One call on a unit's signals: a set, an unset or a tick.
pub enum SignalOp {
    Write(SignalId, SignalValue),
    Clear(SignalId),
    Tick,
}

/// The state after a sequence of calls, in order.
pub open spec fn spec_apply(s: UnitSignalsView, ops: Seq<SignalOp>) -> UnitSignalsView
    decreases ops.len(),
{
    if ops.len() == 0 {
        s
    } else {
        let t = spec_apply(s, ops.drop_last());
        match ops.last() {
            SignalOp::Write(id, v) => t.after_set(id, v),
            SignalOp::Clear(id) => t.after_unset(id),
            SignalOp::Tick => t.after_tick(),
        }
    }
}

/// Whether a call sets or unsets `id`.
pub open spec fn spec_touches(op: SignalOp, id: SignalId) -> bool {
    match op {
        SignalOp::Write(i, _) => i == id,
        SignalOp::Clear(i) => i == id,
        SignalOp::Tick => false,
    }
}

/// Calls that leave `id` alone, ticks among them, keep its value.
pub proof fn law_untouched_value_kept(s: UnitSignalsView, ops: Seq<SignalOp>, id: SignalId)
    requires
        forall|i: int| 0 <= i < ops.len() ==> !spec_touches(#[trigger] ops[i], id),
    ensures
        spec_apply(s, ops).spec_get(id) == s.spec_get(id),
    decreases ops.len(),
{
    if ops.len() > 0 {
        let rest = ops.drop_last();
        assert forall|i: int| 0 <= i < rest.len() implies !spec_touches(#[trigger] rest[i], id) by {
            assert(rest[i] == ops[i]);
        }
        law_untouched_value_kept(s, rest, id);
        assert(!spec_touches(ops[ops.len() - 1], id));
        let t = spec_apply(s, rest);
        match ops.last() {
            SignalOp::Write(i, v) => law_other_signals_untouched(t, i, id, v),
            SignalOp::Clear(i) => law_other_signals_untouched(t, i, id, SignalValue::Off),
            SignalOp::Tick => law_tick(t, id),
        }
    }
}

/// After a set of `id`, and any later calls that leave `id` alone, `id`
/// reads the value set, or `Off` when it was zero; after an unset it reads
/// `Off`.
pub proof fn law_last_write_wins(s: UnitSignalsView, id: SignalId, v: SignalValue, ops: Seq<SignalOp>)
    requires
        forall|i: int| 0 <= i < ops.len() ==> !spec_touches(#[trigger] ops[i], id),
    ensures
        spec_apply(s.after_set(id, v), ops).spec_get(id) == (if v.spec_is_zero() {
            SignalValue::Off
        } else {
            v
        }),
        spec_apply(s.after_unset(id), ops).spec_get(id) == SignalValue::Off,
{
    law_untouched_value_kept(s.after_set(id, v), ops, id);
    law_untouched_value_kept(s.after_unset(id), ops, id);
    law_set_then_get(s, id, v);
    law_unset_then_get(s, id);
}


/// Two floats that are not NaN, and not both zeros, are equal exactly when
/// their bit patterns are the same.
pub proof fn law_float_eq_is_bitwise(a: u32, b: u32)
    requires
        !((a & 0x7f80_0000u32) == 0x7f80_0000u32 && (a & 0x007f_ffffu32) != 0),
        !((b & 0x7f80_0000u32) == 0x7f80_0000u32 && (b & 0x007f_ffffu32) != 0),
        (a & 0x7fff_ffffu32) != 0 || (b & 0x7fff_ffffu32) != 0,
    ensures
        spec_float_ord_eq(a, b) <==> a == b,
{
}

/// A float that is neither NaN nor zero differs from its negation, the same
/// bits with the sign bit flipped; the negation is neither NaN nor zero.
pub proof fn law_negation_differs(a: u32)
    requires
        !((a & 0x7f80_0000u32) == 0x7f80_0000u32 && (a & 0x007f_ffffu32) != 0),
        (a & 0x7fff_ffffu32) != 0,
    ensures
        !spec_float_ord_eq(a, a ^ 0x8000_0000u32),
        !spec_is_nan(a ^ 0x8000_0000u32),
        !spec_is_float_zero(a ^ 0x8000_0000u32),
{
    let n = a ^ 0x8000_0000u32;
    assert(n != a) by (bit_vector)
        requires
            n == a ^ 0x8000_0000u32,
    ;
    assert((n & 0x7f80_0000u32) == (a & 0x7f80_0000u32) && (n & 0x007f_ffffu32) == (a
        & 0x007f_ffffu32) && (n & 0x7fff_ffffu32) == (a & 0x7fff_ffffu32)) by (bit_vector)
        requires
            n == a ^ 0x8000_0000u32,
    ;
    law_float_eq_is_bitwise(a, n);
}

/// Setting a signal that holds a scalar, neither NaN nor zero, to the
/// negation of that scalar stores the negation and marks the signal changed.
pub proof fn law_negated_scalar_is_change(s: UnitSignalsView, id: SignalId, a: u32)
    requires
        s.signals.contains_key(id),
        s.signals[id] == SignalValue::Scalar(a),
        !((a & 0x7f80_0000u32) == 0x7f80_0000u32 && (a & 0x007f_ffffu32) != 0),
        (a & 0x7fff_ffffu32) != 0,
    ensures
        s.after_set(id, SignalValue::Scalar(a ^ 0x8000_0000u32)).spec_get(id) == SignalValue::Scalar(
            a ^ 0x8000_0000u32,
        ),
        s.after_set(id, SignalValue::Scalar(a ^ 0x8000_0000u32)).changed.contains(id),
{
    law_negation_differs(a);
    assert(!spec_is_nan(0u32) && spec_is_float_zero(0u32)) by (bit_vector);
}

/// A scalar is zero exactly when its float is `+0.0` or `-0.0`, all bits
/// but the sign bit clear; a vector is zero exactly when both of its
/// components are; `Off` is zero.
pub proof fn law_zero_values(a: u32, b: u32)
    ensures
        SignalValue::Off.spec_is_zero(),
        SignalValue::Scalar(a).spec_is_zero() <==> (a & 0x7fff_ffffu32) == 0,
        SignalValue::Vector(a, b).spec_is_zero() <==> ((a & 0x7fff_ffffu32) == 0 && (b
            & 0x7fff_ffffu32) == 0),
{
    assert(!spec_is_nan(0u32) && spec_is_float_zero(0u32)) by (bit_vector);
    assert(spec_is_nan(a) ==> !spec_is_float_zero(a)) by (bit_vector);
    assert(spec_is_nan(b) ==> !spec_is_float_zero(b)) by (bit_vector);
    assert(a == 0u32 ==> spec_is_float_zero(a)) by (bit_vector);
    assert(b == 0u32 ==> spec_is_float_zero(b)) by (bit_vector);
}


} // verus!
