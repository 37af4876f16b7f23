//! The parameter binder: a deterministic, total mapping from a dynamically
//! typed value to a statement binding, given only the value's runtime tag.

use vstd::prelude::*;
use crate::values::{BoundModel, BoundParam, DynamicValue, NumberValue, ValueModel};

verus! {

/// Why a parameter could not be bound: the value is a number representable
/// neither as a 64-bit integer nor as a 64-bit float, or its tag is not
/// supported at all.
#[derive(Clone, Copy, Debug, PartialEq, Eq, Structural)]
pub enum BindError {
    InvalidNumber,
    UnsupportedType,
}

/// What binding one value yields: text binds as text, an integer-representable
/// number as integer, a float-representable number as float, a boolean as
/// boolean, null as SQL NULL typed as text; an unrepresentable number and an
/// unsupported tag fail, each with its own error.
pub open spec fn bind_spec(v: ValueModel) -> Result<BoundModel, BindError> {
    match v {
        ValueModel::Text(s) => Ok(BoundModel::Text(s)),
        ValueModel::Number(NumberValue::Integer(i)) => Ok(BoundModel::Integer(i)),
        ValueModel::Number(NumberValue::Float(bits)) => Ok(BoundModel::Float(bits)),
        ValueModel::Number(NumberValue::Unrepresentable) => Err(BindError::InvalidNumber),
        ValueModel::Boolean(b) => Ok(BoundModel::Boolean(b)),
        ValueModel::Null => Ok(BoundModel::NullText),
        ValueModel::Other => Err(BindError::UnsupportedType),
    }
}

/// What binding a whole parameter list yields: the bound values in order, or
/// the error of the leftmost value that fails to bind.
pub open spec fn bind_all_spec(vs: Seq<ValueModel>) -> Result<Seq<BoundModel>, BindError>
    decreases vs.len(),
{
    if vs.len() == 0 {
        Ok(Seq::empty())
    } else {
        match bind_spec(vs[0]) {
            Ok(b) => match bind_all_spec(vs.drop_first()) {
                Ok(rest) => Ok(seq![b] + rest),
                Err(e) => Err(e),
            },
            Err(e) => Err(e),
        }
    }
}

/// Bind one parameter value.
pub fn bind_param(v: &DynamicValue) -> (r: Result<BoundParam, BindError>)
    ensures
        match r {
            Ok(b) => bind_spec(v@) == Ok::<BoundModel, BindError>(b@),
            Err(e) => bind_spec(v@) == Err::<BoundModel, BindError>(e),
        },
{
    match v {
        DynamicValue::Text(s) => Ok(BoundParam::Text(s.clone())),
        DynamicValue::Number(NumberValue::Integer(i)) => Ok(BoundParam::Integer(*i)),
        DynamicValue::Number(NumberValue::Float(bits)) => Ok(BoundParam::Float(*bits)),
        DynamicValue::Number(NumberValue::Unrepresentable) => Err(BindError::InvalidNumber),
        DynamicValue::Boolean(b) => Ok(BoundParam::Boolean(*b)),
        DynamicValue::Null => Ok(BoundParam::NullText),
        DynamicValue::Other => Err(BindError::UnsupportedType),
    }
}

/// If every element of a list binds, binding the whole list yields the
/// elementwise bound values.
proof fn lemma_bind_all_ok(vs: Seq<ValueModel>, bs: Seq<BoundModel>)
    requires
        vs.len() == bs.len(),
        forall|j: int| 0 <= j < vs.len() ==> bind_spec(vs[j]) == Ok::<BoundModel, BindError>(bs[j]),
    ensures
        bind_all_spec(vs) == Ok::<Seq<BoundModel>, BindError>(bs),
    decreases vs.len(),
{
    if vs.len() == 0 {
        assert(bs =~= Seq::<BoundModel>::empty());
    } else {
        lemma_bind_all_ok(vs.drop_first(), bs.drop_first());
        assert(bs =~= seq![bs[0]] + bs.drop_first());
    }
}

/// If every element left of position `k` binds and the element at `k` fails,
/// binding the whole list yields exactly that element's error.
proof fn lemma_bind_all_err(vs: Seq<ValueModel>, k: int, e: BindError)
    requires
        0 <= k < vs.len(),
        forall|j: int| 0 <= j < k ==> bind_spec(vs[j]) is Ok,
        bind_spec(vs[k]) == Err::<BoundModel, BindError>(e),
    ensures
        bind_all_spec(vs) == Err::<Seq<BoundModel>, BindError>(e),
    decreases vs.len(),
{
    if k > 0 {
        lemma_bind_all_err(vs.drop_first(), k - 1, e);
    }
}

/// Bind a whole parameter list, left to right, stopping at the first value
/// that fails to bind.
pub fn bind_params(vs: &Vec<DynamicValue>) -> (r: Result<Vec<BoundParam>, BindError>)
    ensures
        match r {
            Ok(bs) => bind_all_spec(vs.deep_view()) == Ok::<Seq<BoundModel>, BindError>(
                bs.deep_view(),
            ),
            Err(e) => bind_all_spec(vs.deep_view()) == Err::<Seq<BoundModel>, BindError>(e),
        },
{
    let mut bound: Vec<BoundParam> = Vec::new();
    let mut i: usize = 0;
    while i < vs.len()
        invariant
            0 <= i <= vs.len(),
            bound.len() == i,
            forall|j: int| 0 <= j < i ==> bind_spec(vs.deep_view()[j]) == Ok::<
                BoundModel,
                BindError,
            >(bound.deep_view()[j]),
        decreases vs.len() - i,
    {
        match bind_param(&vs[i]) {
            Ok(b) => {
                bound.push(b);
            },
            Err(e) => {
                proof {
                    lemma_bind_all_err(vs.deep_view(), i as int, e);
                }
                return Err(e);
            },
        }
        i += 1;
    }
    proof {
        lemma_bind_all_ok(vs.deep_view(), bound.deep_view());
    }
    Ok(bound)
}

/// Binder totality: every value tag either binds deterministically or fails
/// with one of the two specified errors; no tag is silently dropped, and the
/// two errors arise exactly from an unrepresentable number and from an
/// unsupported tag.
pub proof fn lemma_binder_total(v: ValueModel)
    ensures
        bind_spec(v) is Ok || bind_spec(v) == Err::<BoundModel, BindError>(
            BindError::InvalidNumber,
        ) || bind_spec(v) == Err::<BoundModel, BindError>(BindError::UnsupportedType),
        bind_spec(v) == Err::<BoundModel, BindError>(BindError::InvalidNumber) <==> v
            == ValueModel::Number(NumberValue::Unrepresentable),
        bind_spec(v) == Err::<BoundModel, BindError>(BindError::UnsupportedType) <==> v
            == ValueModel::Other,
{
}

/// Numeric coercion: a number that fits a 64-bit integer binds as that
/// integer; a number carried as a 64-bit float binds as that float; a number
/// representable in neither form fails with the invalid-number error.
pub proof fn lemma_numeric_coercion(n: NumberValue)
    ensures
        n matches NumberValue::Integer(i) ==> bind_spec(ValueModel::Number(n)) == Ok::<
            BoundModel,
            BindError,
        >(BoundModel::Integer(i)),
        n matches NumberValue::Float(bits) ==> bind_spec(ValueModel::Number(n)) == Ok::<
            BoundModel,
            BindError,
        >(BoundModel::Float(bits)),
        n is Unrepresentable ==> bind_spec(ValueModel::Number(n)) == Err::<
            BoundModel,
            BindError,
        >(BindError::InvalidNumber),
{
}

} // verus!
