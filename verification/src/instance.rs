//! Function instances and the typing environments they are interpreted in.

use vstd::prelude::*;

verus! {

/// Identity of a declared item, unique across all linked units.
pub type DefId = u64;

/// Identity of one compiled unit.
pub type CrateNum = u32;

/// A type argument as the host interned it: `key` is its identity, `text` its rendering.
#[derive(Debug)]
pub struct GenericArg {
    pub key: u64,
    pub text: String,
}

/// A trait-bound assumption as the host interned it: `key` is its identity, `text` its rendering.
#[derive(Debug)]
pub struct Predicate {
    pub key: u64,
    pub text: String,
}

/// The trait-bound assumptions in effect, in the order the host yields them.
#[derive(Debug)]
pub struct TypingEnv {
    pub caller_bounds: Vec<Predicate>,
}

/// A function symbol with substituted type arguments; `text` is the host's rendering of it.
#[derive(Debug)]
pub struct Instance {
    pub def_id: DefId,
    pub args: Vec<GenericArg>,
    pub text: String,
}

/// An instance paired with the environment that gives its arguments their meaning.
#[derive(Debug)]
pub struct PseudoCanonicalInput {
    pub typing_env: TypingEnv,
    pub value: Instance,
}

/// Some predicate in `bounds` has identity `key`.
pub open spec fn has_bound(bounds: Seq<Predicate>, key: u64) -> bool {
    exists|j: int| 0 <= j < bounds.len() && (#[trigger] bounds[j]).key == key
}

/// Every predicate of `a` occurs in `b`, whatever the order.
pub open spec fn bounds_within(a: Seq<Predicate>, b: Seq<Predicate>) -> bool {
    forall|i: int| 0 <= i < a.len() ==> has_bound(b, (#[trigger] a[i]).key)
}

/// The two argument lists name the same types, position by position.
pub open spec fn same_args(a: Seq<GenericArg>, b: Seq<GenericArg>) -> bool {
    a.len() == b.len() && forall|i: int| 0 <= i < a.len() ==> (#[trigger] a[i]).key == b[i].key
}

impl TypingEnv {
    /// Two environments are the same when they assume the same set of predicates.
    pub open spec fn same(&self, other: &TypingEnv) -> bool {
        bounds_within(self.caller_bounds@, other.caller_bounds@) && bounds_within(
            other.caller_bounds@,
            self.caller_bounds@,
        )
    }

    pub fn assumes(&self, key: u64) -> (r: bool)
        ensures
            r == has_bound(self.caller_bounds@, key),
    {
        let mut j: usize = 0;
        while j < self.caller_bounds.len()
            invariant
                j <= self.caller_bounds.len(),
                forall|k: int| 0 <= k < j ==> (#[trigger] self.caller_bounds@[k]).key != key,
            decreases self.caller_bounds.len() - j,
        {
            if self.caller_bounds[j].key == key {
                return true;
            }
            j += 1;
        }
        false
    }

    /// Whether every assumption of `self` is also one of `other`.
    pub fn is_within(&self, other: &TypingEnv) -> (r: bool)
        ensures
            r == bounds_within(self.caller_bounds@, other.caller_bounds@),
    {
        let mut i: usize = 0;
        while i < self.caller_bounds.len()
            invariant
                i <= self.caller_bounds.len(),
                forall|k: int|
                    0 <= k < i ==> has_bound(
                        other.caller_bounds@,
                        (#[trigger] self.caller_bounds@[k]).key,
                    ),
            decreases self.caller_bounds.len() - i,
        {
            if !other.assumes(self.caller_bounds[i].key) {
                assert(!has_bound(other.caller_bounds@, self.caller_bounds@[i as int].key));
                return false;
            }
            i += 1;
        }
        true
    }

    pub fn same_as(&self, other: &TypingEnv) -> (r: bool)
        ensures
            r == self.same(other),
    {
        self.is_within(other) && other.is_within(self)
    }
}

impl Instance {
    /// Two instances are the same when symbol and type arguments agree.
    pub open spec fn same(&self, other: &Instance) -> bool {
        self.def_id == other.def_id && same_args(self.args@, other.args@)
    }

    pub fn same_as(&self, other: &Instance) -> (r: bool)
        ensures
            r == self.same(other),
    {
        if self.def_id != other.def_id || self.args.len() != other.args.len() {
            return false;
        }
        let mut i: usize = 0;
        while i < self.args.len()
            invariant
                i <= self.args.len(),
                self.args.len() == other.args.len(),
                forall|k: int| 0 <= k < i ==> (#[trigger] self.args@[k]).key == other.args@[k].key,
            decreases self.args.len() - i,
        {
            if self.args[i].key != other.args[i].key {
                assert(self.args@[i as int].key != other.args@[i as int].key);
                return false;
            }
            i += 1;
        }
        true
    }
}

impl PseudoCanonicalInput {
    /// Equality of inputs looks at both halves: the environment, as a set of
    /// predicates, and the instance.
    pub open spec fn same(&self, other: &PseudoCanonicalInput) -> bool {
        self.typing_env.same(&other.typing_env) && self.value.same(&other.value)
    }

    pub fn same_as(&self, other: &PseudoCanonicalInput) -> (r: bool)
        ensures
            r == self.same(other),
    {
        self.value.same_as(&other.value) && self.typing_env.same_as(&other.typing_env)
    }
}

/// Every input equals itself.
pub proof fn lemma_same_reflexive(a: PseudoCanonicalInput)
    ensures
        a.same(&a),
{
}

/// Equality of inputs is symmetric.
pub proof fn lemma_same_symmetric(a: PseudoCanonicalInput, b: PseudoCanonicalInput)
    requires
        a.same(&b),
    ensures
        b.same(&a),
{
}

/// Equality of inputs is transitive.
pub proof fn lemma_same_transitive(
    a: PseudoCanonicalInput,
    b: PseudoCanonicalInput,
    c: PseudoCanonicalInput,
)
    requires
        a.same(&b),
        b.same(&c),
    ensures
        a.same(&c),
{
    assert forall|i: int| 0 <= i < a.typing_env.caller_bounds@.len() implies has_bound(
        c.typing_env.caller_bounds@,
        (#[trigger] a.typing_env.caller_bounds@[i]).key,
    ) by {
        let k = a.typing_env.caller_bounds@[i].key;
        assert(has_bound(b.typing_env.caller_bounds@, k));
        let j = choose|j: int|
            0 <= j < b.typing_env.caller_bounds@.len() && (
            #[trigger] b.typing_env.caller_bounds@[j]).key == k;
        assert(has_bound(c.typing_env.caller_bounds@, b.typing_env.caller_bounds@[j].key));
    }
    assert forall|i: int| 0 <= i < c.typing_env.caller_bounds@.len() implies has_bound(
        a.typing_env.caller_bounds@,
        (#[trigger] c.typing_env.caller_bounds@[i]).key,
    ) by {
        let k = c.typing_env.caller_bounds@[i].key;
        assert(has_bound(b.typing_env.caller_bounds@, k));
        let j = choose|j: int|
            0 <= j < b.typing_env.caller_bounds@.len() && (
            #[trigger] b.typing_env.caller_bounds@[j]).key == k;
        assert(has_bound(a.typing_env.caller_bounds@, b.typing_env.caller_bounds@[j].key));
    }
}

} // verus!
