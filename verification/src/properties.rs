//! The property engine: typed containers for device state, each with a
//! permission mode and an optional validity constraint, mutated through
//! one capability contract.
//!
//! Three variants share the [`Prop`] contract:
//! - [`Property`]: a value and a permission, no further constraint;
//! - [`RangeProperty`]: the value must stay within inclusive bounds;
//! - [`ChoiceProperty`]: the value must stay within a set of allowed values.
//!
//! Permission governs who may request a change, not whether the cache may
//! ever change: the client path (`update`) is permission-gated, while the
//! device path (`update_int`) bypasses the permission check but still
//! validates, so the cache never holds a value outside its declared domain.

use vstd::prelude::*;

use core::cmp::Ordering;
use vstd::std_specs::cmp::PartialEqSpec;
use vstd::std_specs::cmp::PartialOrdSpec;

verus! {

/// A property-level failure, reported verbatim to the caller.
#[derive(Clone, Copy, Debug, Eq, PartialEq, Structural)]
pub enum PropertyError {
    /// A client attempted to mutate a read-only property.
    CannotUpdateReadOnlyProp,
    /// The candidate value violates the property's declared domain.
    InvalidValue,
}

/// Access mode of a property; immutable after construction.
#[derive(Clone, Copy, Debug, Eq, Hash, PartialEq, Structural)]
pub enum Permission {
    ReadOnly,
    ReadWrite,
}

/// Inclusive bounds `[min, max]` for a [`RangeProperty`].
#[derive(Clone, Copy, Debug, Eq, Hash, PartialEq)]
pub struct Range<T> {
    pub min: T,
    pub max: T,
}

impl<T> Range<T> {
    pub fn new(min: T, max: T) -> (r: Self)
        ensures
            r.min == min,
            r.max == max,
    {
        Self { min, max }
    }

    pub fn max(&self) -> (r: &T)
        ensures
            *r == self.max,
    {
        &self.max
    }

    pub fn min(&self) -> (r: &T)
        ensures
            *r == self.min,
    {
        &self.min
    }
}

/// The capability contract shared by every property variant.
///
/// The spec members give each variant's mathematical model: its current
/// value, its permission, its validity domain, and the state reached by
/// committing a value. `obeys` records whether the value type's
/// comparisons follow their specifications (true for the integer and
/// boolean instantiations used by devices); the exact success/failure
/// clauses are stated under it, while the commit-or-unchanged clauses
/// hold unconditionally.
pub trait Prop<T>: Sized {
    /// The current value.
    spec fn spec_value(&self) -> T;

    /// The permission attached at construction.
    spec fn spec_permission(&self) -> Permission;

    /// The variant's validity domain.
    spec fn spec_valid(&self, v: T) -> bool;

    /// Whether the value type's comparisons follow their specifications.
    spec fn obeys(&self) -> bool;

    /// The state after committing `v`: the value is replaced, everything
    /// else is kept.
    spec fn spec_set(self, v: T) -> Self;

    /// What committing a value does to the model: it sets the value and
    /// keeps the permission, the domain and `obeys`; committing the same
    /// value twice is the same as committing it once.
    proof fn lemma_set(self, v: T)
        ensures
            self.spec_set(v).spec_value() == v,
            self.spec_set(v).spec_permission() == self.spec_permission(),
            forall|w: T| #[trigger] self.spec_set(v).spec_valid(w) == self.spec_valid(w),
            self.spec_set(v).obeys() == self.obeys(),
            self.spec_set(v).spec_set(v) == self.spec_set(v),
    ;

    /// Read the current value; no side effects.
    fn value(&self) -> (r: &T)
        ensures
            *r == self.spec_value(),
    ;

    /// Pure predicate: fails iff the permission is `ReadOnly`.
    fn update_allowed(&self) -> (r: Result<(), PropertyError>)
        ensures
            self.spec_permission() == Permission::ReadWrite ==> r == Ok::<(), PropertyError>(()),
            self.spec_permission() == Permission::ReadOnly ==> r == Err::<(), PropertyError>(
                PropertyError::CannotUpdateReadOnlyProp,
            ),
    ;

    /// Pure predicate: fails iff the candidate violates the variant's
    /// constraint.
    fn validate(&self, val: &T) -> (r: Result<(), PropertyError>)
        ensures
            self.obeys() ==> (r is Ok <==> self.spec_valid(*val)),
            r is Err ==> r == Err::<(), PropertyError>(PropertyError::InvalidValue),
    ;

    /// Client-facing path: checks permission, then validity, and commits
    /// only if both succeed; otherwise the property is left unchanged and
    /// the first failing check's error is returned.
    fn update(&mut self, value: T) -> (r: Result<(), PropertyError>)
        ensures
            old(self).spec_permission() == Permission::ReadOnly ==> r == Err::<
                (),
                PropertyError,
            >(PropertyError::CannotUpdateReadOnlyProp),
            r is Err ==> *final(self) == *old(self),
            r is Ok ==> *final(self) == old(self).spec_set(value),
            old(self).obeys() ==> {
                &&& (r is Ok <==> old(self).spec_permission() == Permission::ReadWrite
                    && old(self).spec_valid(value))
                &&& (old(self).spec_permission() == Permission::ReadWrite && !old(
                    self,
                ).spec_valid(value) ==> r == Err::<(), PropertyError>(PropertyError::InvalidValue))
            },
    ;

    /// Internal/trusted path used when synchronizing cached state from
    /// the physical device: skips the permission check but still
    /// validates, so the cache never holds an out-of-domain value.
    fn update_int(&mut self, value: T) -> (r: Result<(), PropertyError>)
        ensures
            r is Err ==> *final(self) == *old(self) && r == Err::<(), PropertyError>(
                PropertyError::InvalidValue,
            ),
            r is Ok ==> *final(self) == old(self).spec_set(value),
            old(self).obeys() ==> (r is Ok <==> old(self).spec_valid(value)),
    ;
}

/// The state a client-facing `update` leaves a property in: unchanged
/// unless the permission is `ReadWrite` and the candidate is valid.
pub open spec fn spec_updated<T, P: Prop<T>>(p: P, v: T) -> P {
    if p.spec_permission() == Permission::ReadWrite && p.spec_valid(v) {
        p.spec_set(v)
    } else {
        p
    }
}

/// Law: updating twice with the same value yields the same final state
/// as updating once, whatever the permission and whether or not the
/// value is valid.
pub proof fn lemma_update_idempotent<T, P: Prop<T>>(p: P, v: T)
    ensures
        spec_updated(spec_updated(p, v), v) == spec_updated(p, v),
{
    p.lemma_set(v);
}

/// A plain property: a value and a permission, every candidate valid.
#[derive(Clone, Copy, Debug, Eq, Hash, PartialEq)]
pub struct Property<T> {
    pub value: T,
    pub permission: Permission,
}

impl<T> Property<T> {
    pub fn new(value: T, permission: Permission) -> (r: Self)
        ensures
            r.value == value,
            r.permission == permission,
    {
        Self { value, permission }
    }
}

impl<T> Prop<T> for Property<T> {
    open spec fn spec_value(&self) -> T {
        self.value
    }

    open spec fn spec_permission(&self) -> Permission {
        self.permission
    }

    open spec fn spec_valid(&self, v: T) -> bool {
        true
    }

    open spec fn obeys(&self) -> bool {
        true
    }

    open spec fn spec_set(self, v: T) -> Self {
        Property { value: v, permission: self.permission }
    }

    proof fn lemma_set(self, v: T) {
    }

    fn value(&self) -> (r: &T) {
        &self.value
    }

    fn update_allowed(&self) -> (r: Result<(), PropertyError>) {
        match self.permission {
            Permission::ReadOnly => Err(PropertyError::CannotUpdateReadOnlyProp),
            Permission::ReadWrite => Ok(()),
        }
    }

    fn update(&mut self, value: T) -> (r: Result<(), PropertyError>) {
        match self.update_allowed() {
            Err(e) => Err(e),
            Ok(()) => match self.validate(&value) {
                Err(e) => Err(e),
                Ok(()) => {
                    self.value = value;
                    Ok(())
                },
            },
        }
    }

    fn update_int(&mut self, value: T) -> (r: Result<(), PropertyError>) {
        match self.validate(&value) {
            Err(e) => Err(e),
            Ok(()) => {
                self.value = value;
                Ok(())
            },
        }
    }

    fn validate(&self, val: &T) -> (r: Result<(), PropertyError>) {
        Ok(())
    }
}

/// A property whose value must stay within inclusive bounds.
#[derive(Clone, Copy, Debug, Eq, Hash, PartialEq)]
pub struct RangeProperty<T> {
    pub value: T,
    pub permission: Permission,
    pub range: Range<T>,
}

impl<T> RangeProperty<T> {
    pub fn new(value: T, permission: Permission, min: T, max: T) -> (r: Self)
        ensures
            r.value == value,
            r.permission == permission,
            r.range.min == min,
            r.range.max == max,
    {
        Self { value, permission, range: Range::new(min, max) }
    }
}

impl<T: PartialOrd> Prop<T> for RangeProperty<T> {
    open spec fn spec_value(&self) -> T {
        self.value
    }

    open spec fn spec_permission(&self) -> Permission {
        self.permission
    }

    open spec fn spec_valid(&self, v: T) -> bool {
        &&& self.range.min.partial_cmp_spec(&v) matches Some(
            Ordering::Less
            | Ordering::Equal,
        )
        &&& v.partial_cmp_spec(&self.range.max) matches Some(
            Ordering::Less
            | Ordering::Equal,
        )
    }

    open spec fn obeys(&self) -> bool {
        T::obeys_partial_cmp_spec()
    }

    open spec fn spec_set(self, v: T) -> Self {
        RangeProperty { value: v, permission: self.permission, range: self.range }
    }

    proof fn lemma_set(self, v: T) {
    }

    fn value(&self) -> (r: &T) {
        &self.value
    }

    fn update_allowed(&self) -> (r: Result<(), PropertyError>) {
        match self.permission {
            Permission::ReadOnly => Err(PropertyError::CannotUpdateReadOnlyProp),
            Permission::ReadWrite => Ok(()),
        }
    }

    fn update(&mut self, value: T) -> (r: Result<(), PropertyError>) {
        match self.update_allowed() {
            Err(e) => Err(e),
            Ok(()) => match self.validate(&value) {
                Err(e) => Err(e),
                Ok(()) => {
                    self.value = value;
                    Ok(())
                },
            },
        }
    }

    fn update_int(&mut self, value: T) -> (r: Result<(), PropertyError>) {
        match self.validate(&value) {
            Err(e) => Err(e),
            Ok(()) => {
                self.value = value;
                Ok(())
            },
        }
    }

    fn validate(&self, val: &T) -> (r: Result<(), PropertyError>) {
        if self.range.min.le(val) && val.le(&self.range.max) {
            Ok(())
        } else {
            Err(PropertyError::InvalidValue)
        }
    }
}

/// For integer bounds the validity domain is exactly `min <= v <= max`.
pub proof fn lemma_range_valid_int(p: RangeProperty<i64>, v: i64)
    ensures
        p.spec_valid(v) <==> p.range.min <= v <= p.range.max,
{
}

/// A property whose value must stay within an ordered set of allowed
/// values.
#[derive(Clone, Debug, Eq, Hash, PartialEq)]
pub struct ChoiceProperty<T: Clone> {
    pub value: T,
    pub permission: Permission,
    pub choices: Vec<T>,
}

impl<T: Clone + PartialEq> ChoiceProperty<T> {
    pub fn new(value: T, permission: Permission, choices: Vec<T>) -> (r: Self)
        ensures
            r.value == value,
            r.permission == permission,
            r.choices == choices,
    {
        Self { value, permission, choices }
    }
}

impl<T: Clone + PartialEq> Prop<T> for ChoiceProperty<T> {
    open spec fn spec_value(&self) -> T {
        self.value
    }

    open spec fn spec_permission(&self) -> Permission {
        self.permission
    }

    open spec fn spec_valid(&self, v: T) -> bool {
        exists|i: int| 0 <= i < self.choices@.len() && self.choices@[i].eq_spec(&v)
    }

    open spec fn obeys(&self) -> bool {
        T::obeys_eq_spec()
    }

    open spec fn spec_set(self, v: T) -> Self {
        ChoiceProperty { value: v, permission: self.permission, choices: self.choices }
    }

    proof fn lemma_set(self, v: T) {
        assert forall|w: T| #[trigger] self.spec_set(v).spec_valid(w) == self.spec_valid(w) by {
            assert(self.spec_set(v).choices == self.choices);
        }
    }

    fn value(&self) -> (r: &T) {
        &self.value
    }

    fn update_allowed(&self) -> (r: Result<(), PropertyError>) {
        match self.permission {
            Permission::ReadOnly => Err(PropertyError::CannotUpdateReadOnlyProp),
            Permission::ReadWrite => Ok(()),
        }
    }

    fn update(&mut self, value: T) -> (r: Result<(), PropertyError>) {
        match self.update_allowed() {
            Err(e) => Err(e),
            Ok(()) => match self.validate(&value) {
                Err(e) => Err(e),
                Ok(()) => {
                    self.value = value;
                    Ok(())
                },
            },
        }
    }

    fn update_int(&mut self, value: T) -> (r: Result<(), PropertyError>) {
        match self.validate(&value) {
            Err(e) => Err(e),
            Ok(()) => {
                self.value = value;
                Ok(())
            },
        }
    }

    fn validate(&self, val: &T) -> (r: Result<(), PropertyError>) {
        let n: usize = self.choices.len();
        let mut i: usize = 0;
        while i < n
            invariant
                n == self.choices@.len(),
                i <= n,
                T::obeys_eq_spec() ==> forall|j: int|
                    0 <= j < i ==> !self.choices@[j].eq_spec(val),
            decreases n - i,
        {
            if self.choices[i].eq(val) {
                return Ok(());
            }
            i += 1;
        }
        Err(PropertyError::InvalidValue)
    }
}

/// For integer choices the validity domain is exactly membership in the
/// choice sequence.
pub proof fn lemma_choice_valid_int(p: ChoiceProperty<i64>, v: i64)
    ensures
        p.spec_valid(v) <==> p.choices@.contains(v),
{
}

} // verus!
