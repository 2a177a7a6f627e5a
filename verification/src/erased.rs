use vstd::prelude::*;

verus! {

/// A value whose concrete type is known only at run time.
///
/// The value sits in a `Box<dyn Any + Send>`, which Verus cannot hold in a
/// field it reads, so the struct is opaque to Verus. What it holds is told by
/// `holds`, in terms of what `take_value` can give back for it.
#[verifier::external_body]
pub struct ErasedValue {
    inner: Box<dyn core::any::Any + Send>,
}

/// `e` holds the value `v`, of type `T`: taking `e` back as a `T` can give
/// `v`, and nothing else.
pub open spec fn holds<T: 'static>(e: ErasedValue, v: T) -> bool {
    &&& call_ensures(take_value::<T>, (e,), Ok::<T, ErasedValue>(v))
    &&& forall|r: Result<T, ErasedValue>| #[trigger] call_ensures(take_value::<T>, (e,), r) ==> r == Ok::<T, ErasedValue>(v)
}

/// Boxes `value` as `dyn Any + Send` (`Box::new` and the unsizing cast): the
/// box holds `value`, as a `T`.
#[verifier::external_body]
pub fn erase_value<T: Send + 'static>(value: T) -> (r: ErasedValue)
    ensures
        holds(r, value),
{
    ErasedValue { inner: Box::new(value) }
}

/// `<dyn Any>::downcast_ref::<T>`: a reference to the held value when it is a
/// `T`, `None` otherwise.
#[verifier::external_body]
pub fn peek_value<T: 'static>(value: &ErasedValue) -> (r: Option<&T>)
    ensures
        forall|v: T| holds(*value, v) ==> r == Some(&v),
{
    value.inner.downcast_ref::<T>()
}

/// `Box::<dyn Any + Send>::downcast::<T>`: the held value when it is a `T`,
/// and otherwise the erased value itself, unchanged.
#[verifier::external_body]
pub fn take_value<T: 'static>(value: ErasedValue) -> (r: Result<T, ErasedValue>)
    ensures
        r matches Err(back) ==> back == value,
{
    match value.inner.downcast::<T>() {
        Ok(b) => Ok(*b),
        Err(inner) => Err(ErasedValue { inner }),
    }
}

} // verus!
