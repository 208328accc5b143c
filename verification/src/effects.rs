//! Text effects and sets of text effects.

use vstd::prelude::*;
use vstd::seq_lib::lemma_seq_contains_after_push;
use vstd::std_specs::convert::FromSpecImpl;

verus! {

/// A text effect.
#[derive(Clone, Copy, Debug, PartialEq, Eq, Structural)]
pub enum Effect {
    /// Bold text.
    Bold,
    /// Italic text.
    Italic,
    /// Underlined text.
    Underline,
    /// Struckthrough text.
    Strikethrough,
}

/// All available text effects, in the order in which they are declared.
pub const EFFECTS: [Effect; 4] = [
    Effect::Bold,
    Effect::Italic,
    Effect::Underline,
    Effect::Strikethrough,
];

/// All text effects in their declared order, as a sequence.
pub open spec fn all_effects() -> Seq<Effect> {
    seq![Effect::Bold, Effect::Italic, Effect::Underline, Effect::Strikethrough]
}

/// A set of text effects.
///
/// The four effects are independent of each other.  As a mathematical object, a value of this
/// type is the set of the effects whose flag is raised: see [`Effects::view`].
#[derive(Clone, Copy, Debug, PartialEq, Eq, Structural)]
pub struct Effects {
    /// Whether the bold text effect is set.
    pub is_bold: bool,
    /// Whether the italic text effect is set.
    pub is_italic: bool,
    /// Whether the underline text effect is set.
    pub is_underline: bool,
    /// Whether the strikethrough text effect is set.
    pub is_strikethrough: bool,
}

impl View for Effects {
    type V = Set<Effect>;

    /// The set of the effects that are set.
    open spec fn view(&self) -> Set<Effect> {
        Set::new(|e: Effect| self.has(e))
    }
}

impl Effects {
    /// The set without any effect.
    pub open spec fn none() -> Effects {
        Effects { is_bold: false, is_italic: false, is_underline: false, is_strikethrough: false }
    }

    /// Whether `effect` belongs to this set.
    pub open spec fn has(self, effect: Effect) -> bool {
        match effect {
            Effect::Bold => self.is_bold,
            Effect::Italic => self.is_italic,
            Effect::Underline => self.is_underline,
            Effect::Strikethrough => self.is_strikethrough,
        }
    }

    /// This set with `effect` put in (`set` is true) or taken out (`set` is false).
    pub open spec fn with(self, effect: Effect, set: bool) -> Effects {
        match effect {
            Effect::Bold => Effects { is_bold: set, ..self },
            Effect::Italic => Effects { is_italic: set, ..self },
            Effect::Underline => Effects { is_underline: set, ..self },
            Effect::Strikethrough => Effects { is_strikethrough: set, ..self },
        }
    }

    /// The set that holds exactly `effect`.
    pub open spec fn single(effect: Effect) -> Effects {
        Effects::none().with(effect, true)
    }

    /// The union of this set and `other`.
    pub open spec fn union(self, other: Effects) -> Effects {
        Effects {
            is_bold: self.is_bold || other.is_bold,
            is_italic: self.is_italic || other.is_italic,
            is_underline: self.is_underline || other.is_underline,
            is_strikethrough: self.is_strikethrough || other.is_strikethrough,
        }
    }

    /// The effects of this set in their declared order: what an iteration over it yields.
    pub open spec fn ordered(self) -> Seq<Effect> {
        all_effects().filter(|e: Effect| self.has(e))
    }

    /// Creates an empty set of text effects.
    pub fn new() -> (res: Effects)
        ensures
            res == Effects::none(),
            res@ == Set::<Effect>::empty(),
    {
        let res = Effects {
            is_bold: false,
            is_italic: false,
            is_underline: false,
            is_strikethrough: false,
        };
        assert(res@ =~= Set::<Effect>::empty());
        res
    }

    /// Creates an empty set of text effects.
    pub fn empty() -> (res: Effects)
        ensures
            res == Effects::none(),
            res@ == Set::<Effect>::empty(),
    {
        Effects::new()
    }

    /// Creates a set of text effects with only the given effect.
    pub fn only(effect: Effect) -> (res: Effects)
        ensures
            res == Effects::single(effect),
            res@ == set![effect],
    {
        let mut effects = Effects::new();
        effects.set(effect, true);
        assert(effects@ =~= set![effect]);
        effects
    }

    /// Sets or unsets the given text effect.
    pub fn set(&mut self, effect: Effect, set: bool)
        ensures
            *final(self) == old(self).with(effect, set),
            final(self)@ == if set {
                old(self)@.insert(effect)
            } else {
                old(self)@.remove(effect)
            },
    {
        match effect {
            Effect::Bold => self.is_bold = set,
            Effect::Italic => self.is_italic = set,
            Effect::Underline => self.is_underline = set,
            Effect::Strikethrough => self.is_strikethrough = set,
        }
        assert(set ==> self@ =~= old(self)@.insert(effect));
        assert(!set ==> self@ =~= old(self)@.remove(effect));
    }

    /// Checks whether the given effect is set.
    pub fn is_set(&self, effect: Effect) -> (res: bool)
        ensures
            res == self.has(effect),
            res == self@.contains(effect),
    {
        match effect {
            Effect::Bold => self.is_bold,
            Effect::Italic => self.is_italic,
            Effect::Underline => self.is_underline,
            Effect::Strikethrough => self.is_strikethrough,
        }
    }

    /// Combines this set of text effects with another set of text effects.
    pub fn and(&self, other: Effects) -> (res: Effects)
        ensures
            res == self.union(other),
            res@ == self@.union(other@),
    {
        let res = Effects {
            is_bold: self.is_bold || other.is_bold,
            is_italic: self.is_italic || other.is_italic,
            is_underline: self.is_underline || other.is_underline,
            is_strikethrough: self.is_strikethrough || other.is_strikethrough,
        };
        assert(res@ =~= self@.union(other@));
        res
    }

    /// Checks whether this set of text effects is empty.
    pub fn is_empty(&self) -> (res: bool)
        ensures
            res == (*self == Effects::none()),
            res == (self@ == Set::<Effect>::empty()),
    {
        proof {
            if self@ == Set::<Effect>::empty() {
                assert(!self@.contains(Effect::Bold));
                assert(!self@.contains(Effect::Italic));
                assert(!self@.contains(Effect::Underline));
                assert(!self@.contains(Effect::Strikethrough));
            } else if *self == Effects::none() {
                assert(self@ =~= Set::<Effect>::empty());
            }
        }
        !self.is_bold && !self.is_italic && !self.is_underline && !self.is_strikethrough
    }
}

impl Effects {
    /// Collects the given effects into a set.
    pub fn from_iter(effects: &[Effect]) -> (res: Effects)
        ensures
            res@ == effects@.to_set(),
            forall|e: Effect| res.has(e) == effects@.contains(e),
    {
        let mut res = Effects::new();
        let mut i: usize = 0;
        while i < effects.len()
            invariant
                i <= effects.len(),
                forall|e: Effect| res.has(e) == effects@.take(i as int).contains(e),
            decreases effects.len() - i,
        {
            let effect = effects[i];
            let ghost before = res;
            res.set(effect, true);
            i += 1;
            proof {
                let prev = effects@.take(i - 1);
                assert(effects@.take(i as int) =~= prev.push(effect));
                assert forall|e: Effect| res.has(e) == prev.push(effect).contains(e) by {
                    assert(before.has(e) == prev.contains(e));
                    lemma_seq_contains_after_push(prev, effect, e);
                }
            }
        }
        proof {
            assert(effects@.take(i as int) =~= effects@);
            assert(res@ =~= effects@.to_set());
        }
        res
    }

    /// Returns an iterator over the effects of this set, in their declared order.
    pub fn into_iter(self) -> (res: EffectsIter)
        ensures
            res.effects() == self,
            res@ == self.ordered(),
    {
        EffectsIter::from(self)
    }

    /// Returns the effects of this set, in their declared order.
    pub fn to_vec(self) -> (res: Vec<Effect>)
        ensures
            res@ == self.ordered(),
    {
        let mut res: Vec<Effect> = Vec::new();
        let mut iter = self.into_iter();
        let ghost all = iter@;
        loop
            invariant
                iter.effects() == self,
                all == self.ordered(),
                res@ + iter@ == all,
            decreases iter@.len(),
        {
            let ghost pending = iter@;
            match iter.next() {
                Some(effect) => {
                    res.push(effect);
                    assert(res@ + iter@ =~= all) by {
                        assert(pending =~= seq![effect] + pending.skip(1));
                    }
                },
                None => {
                    assert(res@ =~= all);
                    return res;
                },
            }
        }
    }
}

/// An iterator over text effects.
///
/// As a mathematical object it is the sequence of the effects that it has yet to yield.
#[derive(Clone, Copy, Debug, PartialEq)]
pub struct EffectsIter {
    effects: Effects,
    i: usize,
}

impl View for EffectsIter {
    type V = Seq<Effect>;

    /// The effects that this iterator has yet to yield.
    closed spec fn view(&self) -> Seq<Effect> {
        all_effects().skip(self.i as int).filter(|e: Effect| self.effects.has(e))
    }
}

impl EffectsIter {
    #[verifier::type_invariant]
    spec fn in_range(self) -> bool {
        self.i <= 4
    }

    /// The set that this iterator walks over.
    pub closed spec fn effects(self) -> Effects {
        self.effects
    }

    /// Returns the next effect of the set, or `None` when all have been yielded.
    ///
    /// The set itself is not changed, so a new iterator over it starts again.
    pub fn next(&mut self) -> (res: Option<Effect>)
        ensures
            final(self).effects() == old(self).effects(),
            match res {
                Some(effect) => old(self)@.len() > 0 && effect == old(self)@[0] && final(self)@
                    == old(self)@.skip(1),
                None => old(self)@.len() == 0 && final(self)@.len() == 0,
            },
    {
        proof {
            use_type_invariant(&*self);
        }
        let ghost has = |e: Effect| self.effects.has(e);
        while self.i < 4
            invariant
                self.i <= 4,
                self.effects == old(self).effects,
                has == (|e: Effect| old(self).effects.has(e)),
                self@ == old(self)@,
            decreases 4 - self.i,
        {
            let effect = EFFECTS[self.i];
            proof {
                lemma_filter_step(all_effects(), self.i as int, has);
            }
            self.i += 1;
            if self.effects.is_set(effect) {
                assert(old(self)@ =~= seq![effect] + self@);
                assert(self@ =~= old(self)@.skip(1));
                return Some(effect);
            }
        }
        proof {
            assert(all_effects().skip(4) =~= Seq::<Effect>::empty());
            reveal_with_fuel(Seq::filter, 1);
        }
        None
    }
}

impl FromSpecImpl<Effects> for EffectsIter {
    open spec fn obeys_from_spec() -> bool {
        true
    }

    closed spec fn from_spec(effects: Effects) -> EffectsIter {
        EffectsIter { effects, i: 0 }
    }
}

impl From<Effects> for EffectsIter {
    /// An iterator over the effects of the set, in their declared order, that has yielded
    /// none of them yet.
    fn from(effects: Effects) -> (res: EffectsIter)
        ensures
            res.effects() == effects,
            res@ == effects.ordered(),
    {
        let res = EffectsIter { effects, i: 0 };
        assert(all_effects().skip(0) =~= all_effects());
        res
    }
}

/// Filtering a sequence from the index `i` on looks at the item at `i` and then filters the
/// rest.
proof fn lemma_filter_step(s: Seq<Effect>, i: int, pred: spec_fn(Effect) -> bool)
    requires
        0 <= i < s.len(),
    ensures
        s.skip(i).filter(pred) == if pred(s[i]) {
            seq![s[i]] + s.skip(i + 1).filter(pred)
        } else {
            s.skip(i + 1).filter(pred)
        },
{
    let head = seq![s[i]];
    assert(s.skip(i) =~= head + s.skip(i + 1));
    Seq::filter_distributes_over_add(head, s.skip(i + 1), pred);
    assert(head.filter(pred) =~= if pred(s[i]) {
        head
    } else {
        Seq::empty()
    }) by {
        reveal_with_fuel(Seq::filter, 2);
        assert(head.drop_last() =~= Seq::<Effect>::empty());
    }
}

/// An iteration yields exactly the effects of the set, each once, in the declared order.
pub proof fn lemma_ordered(x: Effects)
    ensures
        forall|e: Effect| x.ordered().contains(e) == x.has(e),
        x.ordered().no_duplicates(),
        x.ordered().to_set() == x@,
        forall|i: int, j: int|
            0 <= i < j < x.ordered().len() ==> effect_rank(x.ordered()[i]) < effect_rank(
                x.ordered()[j],
            ),
{
    let pred = |e: Effect| x.has(e);
    let all = all_effects();
    lemma_filter_step(all, 0, pred);
    lemma_filter_step(all, 1, pred);
    lemma_filter_step(all, 2, pred);
    lemma_filter_step(all, 3, pred);
    assert(all.skip(0) =~= all);
    assert(all.skip(4).filter(pred) =~= Seq::<Effect>::empty()) by {
        reveal_with_fuel(Seq::filter, 1);
        assert(all.skip(4) =~= Seq::<Effect>::empty());
    }
    let slot = |e: Effect|
        if x.has(e) {
            seq![e]
        } else {
            Seq::<Effect>::empty()
        };
    let o = x.ordered();
    assert(o =~= slot(Effect::Bold) + slot(Effect::Italic) + slot(Effect::Underline) + slot(
        Effect::Strikethrough,
    ));
    let bold: int = if x.is_bold { 1 } else { 0 };
    let italic: int = if x.is_italic { 1 } else { 0 };
    let underline: int = if x.is_underline { 1 } else { 0 };
    assert forall|e: Effect| o.contains(e) == x.has(e) by {
        if x.has(e) {
            let k = match e {
                Effect::Bold => 0,
                Effect::Italic => bold,
                Effect::Underline => bold + italic,
                Effect::Strikethrough => bold + italic + underline,
            };
            assert(o[k] == e);
        }
        if o.contains(e) {
            let k = choose|k: int| 0 <= k < o.len() && o[k] == e;
            assert(x.has(o[k]));
        }
    }
    assert(o.to_set() =~= x@);
}

/// The place of an effect in the declared order.
pub open spec fn effect_rank(effect: Effect) -> int {
    match effect {
        Effect::Bold => 0,
        Effect::Italic => 1,
        Effect::Underline => 2,
        Effect::Strikethrough => 3,
    }
}

/// The constant [`EFFECTS`] holds every effect once, each at the place of its rank.
pub proof fn lemma_effects_constant()
    ensures
        EFFECTS@ == all_effects(),
        forall|e: Effect| 0 <= effect_rank(e) < 4 && #[trigger] all_effects()[effect_rank(e)] == e,
{
    assert(EFFECTS@ =~= all_effects());
}

impl Default for Effects {
    /// The empty set of text effects.
    fn default() -> (res: Effects)
        ensures
            res == Effects::none(),
    {
        Effects::new()
    }
}

impl FromSpecImpl<Effect> for Effects {
    open spec fn obeys_from_spec() -> bool {
        true
    }

    open spec fn from_spec(effect: Effect) -> Effects {
        Effects::single(effect)
    }
}

impl From<Effect> for Effects {
    /// The set that holds only `effect`.
    fn from(effect: Effect) -> (res: Effects)
        ensures
            res == Effects::single(effect),
    {
        let mut effects = Effects::new();
        effects.set(effect, true);
        effects
    }
}

/// A set of effects is known by its members: two values with the same view are equal.
pub proof fn lemma_view_injective(a: Effects, b: Effects)
    requires
        a@ == b@,
    ensures
        a == b,
{
    assert(a.is_bold == a@.contains(Effect::Bold) && b.is_bold == b@.contains(Effect::Bold));
    assert(a.is_italic == a@.contains(Effect::Italic) && b.is_italic == b@.contains(
        Effect::Italic,
    ));
    assert(a.is_underline == a@.contains(Effect::Underline) && b.is_underline == b@.contains(
        Effect::Underline,
    ));
    assert(a.is_strikethrough == a@.contains(Effect::Strikethrough) && b.is_strikethrough
        == b@.contains(Effect::Strikethrough));
}

/// The union on values is the union of sets on their views.
pub proof fn lemma_union_view(a: Effects, b: Effects)
    ensures
        a.union(b)@ == a@.union(b@),
        forall|e: Effect| a.union(b).has(e) == (a.has(e) || b.has(e)),
{
    assert(a.union(b)@ =~= a@.union(b@));
}

/// The empty set is the neutral element of the union, on both sides.
pub proof fn lemma_union_empty(x: Effects)
    ensures
        Effects::none().union(x) == x,
        x.union(Effects::none()) == x,
{
}

/// The union is idempotent.
pub proof fn lemma_union_idempotent(x: Effects)
    ensures
        x.union(x) == x,
{
}

/// The union is commutative.
pub proof fn lemma_union_commutative(a: Effects, b: Effects)
    ensures
        a.union(b) == b.union(a),
{
}

/// The union is associative.
pub proof fn lemma_union_associative(a: Effects, b: Effects, c: Effects)
    ensures
        a.union(b).union(c) == a.union(b.union(c)),
{
}

/// The effects are independent: to set or unset one changes the membership of no other.
pub proof fn lemma_with_independent(x: Effects, effect: Effect, set: bool, other: Effect)
    ensures
        x.with(effect, set).has(effect) == set,
        other != effect ==> x.with(effect, set).has(other) == x.has(other),
{
}

} // verus!
