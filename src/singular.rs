use vstd::prelude::*;

use core::fmt::Write;

use crate::clear::Clear;
use vstd::std_specs::cmp::{PartialEqSpec, PartialOrdSpec};
use vstd::std_specs::iter::IteratorSpec;
use vstd::string::StringExecFns;

verus! {

/// Where the backing allocation of a field stands.
enum Slot<T> {
    /// No value and no allocation.
    Empty,
    /// No value, but an allocation kept from an earlier value, ready for reuse.
    Retained(Box<T>),
    /// A value, in its own allocation.
    Present(Box<T>),
}

/// An optional value that keeps its allocation when cleared, so that filling
/// it again costs no allocation.
///
/// Its view is the value it logically holds; `allocation` is what its backing
/// storage holds, which outlives `clear`.
pub struct SingularField<T> {
    slot: Slot<T>,
}

impl<T> View for SingularField<T> {
    type V = Option<T>;

    closed spec fn view(&self) -> Option<T> {
        match self.slot {
            Slot::Present(b) => Some(*b),
            _ => None,
        }
    }
}

/// The elements of a sequence of at most one value.
pub open spec fn option_seq<T>(o: Option<T>) -> Seq<T> {
    match o {
        Some(v) => seq![v],
        None => Seq::empty(),
    }
}

/// Relies on `core::slice::from_ref`: a slice of length one over `x`.
#[verifier::external_body]
fn slice_of_ref<T>(x: &T) -> (r: &[T])
    ensures
        r@ == seq![*x],
{
    core::slice::from_ref(x)
}

/// Relies on `core::slice::from_mut`: a slice of length one over `x`, so
/// that writes through it land in `x`.
#[verifier::external_body]
fn slice_of_mut<T>(x: &mut T) -> (r: &mut [T])
    ensures
        r@ == seq![*old(x)],
        final(r)@.len() == 1,
        *final(x) == final(r)@[0],
{
    core::slice::from_mut(x)
}

/// `core::slice::IterMut`, carried through opaquely.
#[verifier::external_type_specification]
#[verifier::external_body]
#[verifier::reject_recursive_types(T)]
pub struct ExIterMut<'a, T: 'a>(core::slice::IterMut<'a, T>);

/// Relies on `<[T]>::iter_mut`: one mutable borrow of each element of the
/// slice, in order.
#[verifier::external_body]
fn slice_iter_mut<T>(s: &mut [T]) -> (r: core::slice::IterMut<'_, T>)
    ensures
        r.remaining().len() == old(s)@.len(),
        forall|i: int| 0 <= i < old(s)@.len() ==> *#[trigger] r.remaining()[i] == old(s)@[i],
        final(s)@.len() == old(s)@.len(),
{
    s.iter_mut()
}

/// Relies on the `Debug` impl of `T`, through `write!` into a `String`; what
/// it writes is up to that impl, and an error it reports stops the text short.
#[verifier::external_body]
fn debug_text<T: core::fmt::Debug>(v: &T) -> (r: String) {
    let mut s = String::new();
    let _ = write!(s, "{:?}", v);
    s
}

impl<T> SingularField<T> {
    /// What the backing allocation holds, whether or not the field is present.
    pub closed spec fn allocation(&self) -> Option<T> {
        match self.slot {
            Slot::Empty => None,
            Slot::Retained(b) => Some(*b),
            Slot::Present(b) => Some(*b),
        }
    }

    /// The field made by `some(v)`.
    pub closed spec fn spec_some(v: T) -> Self {
        SingularField { slot: Slot::Present(Box::new(v)) }
    }

    /// The field made by `none()`.
    pub closed spec fn spec_none() -> Self {
        SingularField { slot: Slot::Empty }
    }

    /// The field made by `from_option(o)`.
    pub open spec fn spec_from_option(o: Option<T>) -> Self {
        match o {
            Some(v) => Self::spec_some(v),
            None => Self::spec_none(),
        }
    }

    /// The field as `clear` leaves it.
    pub closed spec fn cleared(self) -> Self {
        match self.slot {
            Slot::Present(b) => SingularField { slot: Slot::Retained(b) },
            _ => self,
        }
    }

    /// The field as `take` leaves it.
    pub closed spec fn taken(self) -> Self {
        match self.slot {
            Slot::Present(_) => SingularField { slot: Slot::Empty },
            _ => self,
        }
    }

    /// The elements of `as_slice`: none when absent, the value when present.
    pub open spec fn spec_as_seq(&self) -> Seq<T> {
        option_seq(self@)
    }

    /// A field made from a value is present, and unwrapping it gives the value
    /// back.
    pub proof fn lemma_some_unwrap(v: T)
        ensures
            Self::spec_some(v)@ is Some,
            Self::spec_some(v)@->Some_0 == v,
            Self::spec_some(v).allocation() == Some(v),
    {
    }

    /// A present field's allocation holds its value.
    pub proof fn lemma_present_allocation(f: Self)
        requires
            f@ is Some,
        ensures
            f.allocation() == f@,
    {
    }

    /// A field made empty is absent.
    pub proof fn lemma_none_absent()
        ensures
            Self::spec_none()@ is None,
            Self::spec_none().allocation() is None,
    {
    }

    /// Turning an `Option` into a field and back gives the same `Option`.
    pub proof fn lemma_option_round_trip(o: Option<T>)
        ensures
            Self::spec_from_option(o)@ == o,
    {
    }

    /// Clearing twice in a row leaves the field as clearing once does.
    pub proof fn lemma_clear_idempotent(f: Self)
        ensures
            f.cleared().cleared() == f.cleared(),
    {
    }

    /// Taking the value out of a present field leaves it absent with no
    /// allocation, so that the next `set_default` builds a fresh default value.
    pub proof fn lemma_take_releases(f: Self)
        requires
            f@ is Some,
        ensures
            f.taken()@ is None,
            f.taken().allocation() is None,
    {
    }

    /// A present field whose value is `value`.
    pub fn some(value: T) -> (r: SingularField<T>)
        ensures
            r == Self::spec_some(value),
            r@ == Some(value),
            r.allocation() == Some(value),
    {
        SingularField { slot: Slot::Present(Box::new(value)) }
    }

    /// An absent field with no allocation.
    pub fn none() -> (r: SingularField<T>)
        ensures
            r == Self::spec_none(),
            r@ == None::<T>,
            r.allocation() == None::<T>,
    {
        SingularField { slot: Slot::Empty }
    }

    /// A present field for `Some`, an absent one for `None`.
    pub fn from_option(option: Option<T>) -> (r: SingularField<T>)
        ensures
            r == Self::spec_from_option(option),
            r@ == option,
            r.allocation() == option,
    {
        match option {
            Some(x) => Self::some(x),
            None => Self::none(),
        }
    }

    /// Whether the field logically holds a value.
    pub fn is_some(&self) -> (r: bool)
        ensures
            r == self@ is Some,
    {
        match self.slot {
            Slot::Present(_) => true,
            _ => false,
        }
    }

    /// Whether the field is absent, with or without a retained allocation.
    pub fn is_none(&self) -> (r: bool)
        ensures
            r == self@ is None,
    {
        !self.is_some()
    }

    /// The value, if present; a retained allocation is dropped.
    pub fn into_option(self) -> (r: Option<T>)
        ensures
            r == self@,
    {
        match self.slot {
            Slot::Present(b) => Some(*b),
            _ => None,
        }
    }

    /// A borrow of the value, if present.
    pub fn as_ref(&self) -> (r: Option<&T>)
        ensures
            r is Some == self@ is Some,
            r is Some ==> *r->Some_0 == self@->Some_0,
    {
        match &self.slot {
            Slot::Present(b) => Some(&**b),
            _ => None,
        }
    }

    /// A mutable borrow of the value, if present; writes through it change the
    /// value and its allocation alike.
    pub fn as_mut(&mut self) -> (r: Option<&mut T>)
        ensures
            r is Some == old(self)@ is Some,
            old(self)@ is None ==> *final(self) == *old(self),
            old(self)@ is Some ==> {
                &&& *r->Some_0 == old(self)@->Some_0
                &&& *final(self) == Self::spec_some(*final(r->Some_0))
            },
    {
        match &mut self.slot {
            Slot::Present(b) => Some(&mut **b),
            _ => None,
        }
    }

    /// A borrow of the value, which must be present.
    pub fn get_ref(&self) -> (r: &T)
        requires
            self@ is Some,
        ensures
            *r == self@->Some_0,
    {
        match &self.slot {
            Slot::Present(b) => &**b,
            _ => vstd::pervasive::unreached(),
        }
    }

    /// A mutable borrow of the value, which must be present.
    pub fn get_mut_ref(&mut self) -> (r: &mut T)
        requires
            old(self)@ is Some,
        ensures
            *r == old(self)@->Some_0,
            *final(self) == Self::spec_some(*final(r)),
            final(self)@ == Some(*final(r)),
    {
        match &mut self.slot {
            Slot::Present(b) => &mut **b,
            _ => vstd::pervasive::unreached(),
        }
    }

    /// The value as a slice: empty when absent, of length one when present.
    pub fn as_slice(&self) -> (r: &[T])
        ensures
            r@ == self.spec_as_seq(),
            r@.len() == (if self@ is Some { 1int } else { 0int }),
            self@ is Some ==> r@[0] == self@->Some_0,
    {
        match &self.slot {
            Slot::Present(b) => slice_of_ref(&**b),
            _ => &[],
        }
    }

    /// The value as a mutable slice: empty when absent, of length one when
    /// present, with writes landing in the value.
    pub fn as_mut_slice(&mut self) -> (r: &mut [T])
        ensures
            r@ == old(self).spec_as_seq(),
            final(r)@.len() == r@.len(),
            old(self)@ is None ==> *final(self) == *old(self),
            old(self)@ is Some ==> *final(self) == Self::spec_some(final(r)@[0]),
    {
        match &mut self.slot {
            Slot::Present(b) => slice_of_mut(&mut **b),
            _ => &mut [],
        }
    }

    /// An iterator over the value: it yields nothing when absent and the value
    /// once when present.
    pub fn iter(&self) -> (r: core::slice::Iter<'_, T>)
        ensures
            r.remaining() == self.spec_as_seq().as_ref(),
    {
        proof {
            broadcast use vstd::std_specs::slice::axiom_spec_slice_iter;
        }
        self.as_slice().iter()
    }

    /// An iterator of mutable borrows over the value: it yields nothing when
    /// absent and the value once when present.
    pub fn mut_iter(&mut self) -> (r: core::slice::IterMut<'_, T>)
        ensures
            r.remaining().len() == old(self).spec_as_seq().len(),
            old(self)@ is Some ==> *r.remaining()[0] == old(self)@->Some_0,
            final(self)@ is Some == old(self)@ is Some,
            old(self)@ is None ==> *final(self) == *old(self),
    {
        slice_iter_mut(self.as_mut_slice())
    }

    /// The value, which must be present.
    pub fn unwrap(self) -> (r: T)
        requires
            self@ is Some,
        ensures
            r == self@->Some_0,
    {
        match self.slot {
            Slot::Present(b) => *b,
            _ => vstd::pervasive::unreached(),
        }
    }

    /// The value if present, else `def`.
    pub fn unwrap_or(self, def: T) -> (r: T)
        ensures
            r == (match self@ {
                Some(v) => v,
                None => def,
            }),
    {
        match self.slot {
            Slot::Present(b) => *b,
            _ => def,
        }
    }

    /// The value if present; otherwise what `f` returns. `f` runs only when
    /// the field is absent.
    pub fn unwrap_or_else<F: FnOnce() -> T>(self, f: F) -> (r: T)
        requires
            self@ is None ==> call_requires(f, ()),
        ensures
            self@ is Some ==> r == self@->Some_0,
            self@ is None ==> call_ensures(f, (), r),
    {
        match self.slot {
            Slot::Present(b) => *b,
            _ => f(),
        }
    }

    /// Applies `f` to the value if present. On an absent field `f` is never
    /// called, and the result is absent.
    pub fn map<U, F: FnOnce(T) -> U>(self, f: F) -> (r: SingularField<U>)
        requires
            self@ is Some ==> call_requires(f, (self@->Some_0,)),
        ensures
            r@ is Some == self@ is Some,
            self@ is Some ==> call_ensures(f, (self@->Some_0,), r@->Some_0),
            r.allocation() == r@,
    {
        SingularField::from_option(
            match self.into_option() {
                Some(v) => Some(f(v)),
                None => None,
            },
        )
    }

    /// Moves the value out, if present, together with its allocation; the
    /// field is left absent with nothing to reuse.
    pub fn take(&mut self) -> (r: Option<T>)
        ensures
            r == old(self)@,
            *final(self) == old(self).taken(),
            final(self)@ == None::<T>,
            old(self)@ is Some ==> final(self).allocation() == None::<T>,
            old(self)@ is None ==> *final(self) == *old(self),
    {
        let mut slot = Slot::Empty;
        core::mem::swap(&mut self.slot, &mut slot);
        match slot {
            Slot::Present(b) => Some(*b),
            other => {
                self.slot = other;
                None
            },
        }
    }

    /// Marks the field absent; its allocation is kept for reuse.
    pub fn clear(&mut self)
        ensures
            *final(self) == old(self).cleared(),
            final(self)@ == None::<T>,
            final(self).allocation() == old(self).allocation(),
    {
        let mut slot = Slot::Empty;
        core::mem::swap(&mut self.slot, &mut slot);
        self.slot = match slot {
            Slot::Present(b) => Slot::Retained(b),
            other => other,
        };
    }
}

impl<T: Default + Clear> SingularField<T> {
    /// The value if present. Otherwise the retained allocation reset in
    /// place, or a fresh default value where there is none.
    pub fn unwrap_or_default(self) -> (r: T)
        ensures
            self@ is Some ==> r == self@->Some_0,
            self@ is None ==> r.is_cleared(),
            self@ is None ==> forall|d: T| call_ensures(T::default, (), d) ==> r == d,
            self.allocation() is None ==> call_ensures(T::default, (), r),
    {
        let r = match self.slot {
            Slot::Present(b) => *b,
            Slot::Retained(mut b) => {
                (*b).clear();
                *b
            },
            Slot::Empty => {
                let v = T::default();
                proof {
                    T::lemma_default_is_cleared(v);
                }
                v
            },
        };
        proof {
            if self@ is None {
                Self::lemma_is_default(r);
            }
        }
        r
    }

    /// A cleared value is what `default` returns.
    proof fn lemma_is_default(v: T)
        requires
            v.is_cleared(),
        ensures
            forall|d: T| call_ensures(T::default, (), d) ==> v == d,
    {
        assert forall|d: T| call_ensures(T::default, (), d) implies v == d by {
            T::lemma_default_is_cleared(d);
            T::lemma_cleared_unique(v, d);
        }
    }

    /// Makes the field present with default contents and borrows the value.
    /// An allocation already held, retained or present, is reset in place;
    /// only a field with none allocates.
    pub fn set_default(&mut self) -> (r: &mut T)
        ensures
            (*r).is_cleared(),
            forall|d: T| call_ensures(T::default, (), d) ==> *r == d,
            old(self).allocation() is None ==> call_ensures(T::default, (), *r),
            *final(self) == Self::spec_some(*final(r)),
            final(self)@ == Some(*final(r)),
    {
        let mut slot = Slot::Empty;
        core::mem::swap(&mut self.slot, &mut slot);
        let b = match slot {
            Slot::Empty => {
                let v = T::default();
                proof {
                    T::lemma_default_is_cleared(v);
                }
                Box::new(v)
            },
            Slot::Retained(mut b) => {
                (*b).clear();
                b
            },
            Slot::Present(mut b) => {
                (*b).clear();
                b
            },
        };
        proof {
            Self::lemma_is_default(*b);
        }
        self.slot = Slot::Present(b);
        self.get_mut_ref()
    }
}

impl<T> Default for SingularField<T> {
    /// An absent field with no allocation.
    fn default() -> (r: Self)
        ensures
            r == Self::spec_none(),
    {
        Self::none()
    }
}

impl<T: Clone> Clone for SingularField<T> {
    /// A copy of the logical value only: a retained allocation is not copied.
    fn clone(&self) -> (r: Self)
        ensures
            r@ is Some == self@ is Some,
            self@ is Some ==> cloned(self@->Some_0, r@->Some_0),
            r.allocation() == r@,
    {
        match &self.slot {
            Slot::Present(b) => Self::some((**b).clone()),
            _ => Self::none(),
        }
    }
}

/// Equality of two optional values, by `eq_spec` of the values.
pub open spec fn option_eq_spec<T: PartialEq>(a: Option<T>, b: Option<T>) -> bool {
    match (a, b) {
        (Some(x), Some(y)) => x.eq_spec(&y),
        (None, None) => true,
        _ => false,
    }
}

/// Order of two optional values: absent before present, present ones by
/// `partial_cmp_spec` of the values.
pub open spec fn option_partial_cmp_spec<T: PartialOrd>(a: Option<T>, b: Option<T>) -> Option<
    core::cmp::Ordering,
> {
    match (a, b) {
        (None, None) => Some(core::cmp::Ordering::Equal),
        (None, Some(_)) => Some(core::cmp::Ordering::Less),
        (Some(_), None) => Some(core::cmp::Ordering::Greater),
        (Some(x), Some(y)) => x.partial_cmp_spec(&y),
    }
}

impl<T: PartialEq> PartialEq for SingularField<T> {
    /// Compares the logical values; retained allocations play no part.
    fn eq(&self, other: &Self) -> (r: bool)
        ensures
            self@ is None || other@ is None ==> r == (self@ is None && other@ is None),
            self@ is Some && other@ is Some ==> call_ensures(
                T::eq,
                (&self@->Some_0, &other@->Some_0),
                r,
            ),
    {
        match (&self.slot, &other.slot) {
            (Slot::Present(a), Slot::Present(b)) => (**a).eq(&**b),
            (Slot::Present(_), _) => false,
            (_, Slot::Present(_)) => false,
            _ => true,
        }
    }
}

impl<T: PartialEq> vstd::std_specs::cmp::PartialEqSpecImpl for SingularField<T> {
    open spec fn obeys_eq_spec() -> bool {
        T::obeys_eq_spec()
    }

    open spec fn eq_spec(&self, other: &Self) -> bool {
        option_eq_spec(self@, other@)
    }
}

impl<T: Eq> Eq for SingularField<T> {
}

impl<T: PartialOrd> PartialOrd for SingularField<T> {
    /// Orders the logical values: an absent field comes before a present one.
    fn partial_cmp(&self, other: &Self) -> (r: Option<core::cmp::Ordering>)
        ensures
            self@ is None || other@ is None ==> r == option_partial_cmp_spec(self@, other@),
            self@ is Some && other@ is Some ==> call_ensures(
                T::partial_cmp,
                (&self@->Some_0, &other@->Some_0),
                r,
            ),
    {
        match (&self.slot, &other.slot) {
            (Slot::Present(a), Slot::Present(b)) => (**a).partial_cmp(&**b),
            (Slot::Present(_), _) => Some(core::cmp::Ordering::Greater),
            (_, Slot::Present(_)) => Some(core::cmp::Ordering::Less),
            _ => Some(core::cmp::Ordering::Equal),
        }
    }
}

impl<T: PartialOrd> vstd::std_specs::cmp::PartialOrdSpecImpl for SingularField<T> {
    open spec fn obeys_partial_cmp_spec() -> bool {
        T::obeys_partial_cmp_spec()
    }

    open spec fn partial_cmp_spec(&self, other: &Self) -> Option<core::cmp::Ordering> {
        option_partial_cmp_spec(self@, other@)
    }
}

impl<T: PartialEq> SingularField<T> {
    /// A present field, once cleared, equals a field made empty, though it
    /// still holds its allocation, and no longer equals what it was.
    pub proof fn lemma_clear_ignores_allocation(v: T)
        ensures
            Self::spec_some(v).cleared().eq_spec(&Self::spec_none()),
            !Self::spec_some(v).cleared().eq_spec(&Self::spec_some(v)),
            Self::spec_some(v).cleared().allocation() == Some(v),
    {
    }
}

impl<T: core::fmt::Debug> SingularField<T> {
    /// The field as text: `None` when absent, `Some(..)` around the value's
    /// debug text when present.
    pub fn to_debug_string(&self) -> (r: String)
        ensures
            self@ is None ==> r@ == "None"@,
            self@ is Some ==> exists|d: Seq<char>| r@ == "Some("@ + d + ")"@,
    {
        proof {
            reveal_strlit("None");
            reveal_strlit("Some(");
            reveal_strlit(")");
        }
        match &self.slot {
            Slot::Present(b) => {
                let mut r = "Some(".to_owned();
                let d = debug_text(&**b);
                r.append(d.as_str());
                r.append(")");
                assert(r@ == "Some("@ + d@ + ")"@);
                r
            },
            _ => "None".to_owned(),
        }
    }
}

} // verus!
