//! The structural wire value every contract value is projected onto, and the
//! trait that projects a value onto it and restores it from it.

use vstd::prelude::*;

verus! {

/// A structural wire value: the shape-only image of a contract value.
#[derive(Debug, PartialEq, Eq)]
pub enum WireValue {
    Text(String),
    Integer(u64),
    Boolean(bool),
    Sequence(Vec<WireValue>),
    Absent,
    Present(Box<WireValue>),
    Product(Vec<WireValue>),
    Variant { ordinal: u16, fields: Vec<WireValue> },
}

/// The mathematical model of a wire value.
pub enum WireModel {
    Text(Seq<char>),
    Integer(u64),
    Boolean(bool),
    Sequence(Seq<WireModel>),
    Absent,
    Present(Box<WireModel>),
    Product(Seq<WireModel>),
    Variant { ordinal: u16, fields: Seq<WireModel> },
}

impl WireValue {
    /// The model of this wire value.
    pub open spec fn model(&self) -> WireModel
        decreases self,
    {
        match self {
            WireValue::Text(s) => WireModel::Text(s@),
            WireValue::Integer(n) => WireModel::Integer(*n),
            WireValue::Boolean(b) => WireModel::Boolean(*b),
            WireValue::Sequence(vs) => WireModel::Sequence(models_of(vs@)),
            WireValue::Absent => WireModel::Absent,
            WireValue::Present(v) => WireModel::Present(Box::new(v.model())),
            WireValue::Product(vs) => WireModel::Product(models_of(vs@)),
            WireValue::Variant { ordinal, fields } => WireModel::Variant {
                ordinal: *ordinal,
                fields: models_of(fields@),
            },
        }
    }
}

/// The models of a sequence of wire values, element by element.
pub open spec fn models_of(vs: Seq<WireValue>) -> Seq<WireModel>
    decreases vs,
{
    if vs.len() == 0 {
        Seq::empty()
    } else {
        models_of(vs.subrange(0, vs.len() - 1)).push(vs[vs.len() - 1].model())
    }
}

/// The model of each element of a sequence of wire values, in order.
pub proof fn lemma_models_of(vs: Seq<WireValue>)
    ensures
        models_of(vs).len() == vs.len(),
        forall|i: int| 0 <= i < vs.len() ==> #[trigger] models_of(vs)[i] == vs[i].model(),
    decreases vs.len(),
{
    if vs.len() > 0 {
        lemma_models_of(vs.subrange(0, vs.len() - 1));
    }
}

/// The wire models of a sequence of values, element by element.
pub open spec fn wire_models<Value: WireShape>(values: Seq<Value>) -> Seq<WireModel> {
    values.map_values(|v: Value| v.wire_model())
}

/// A wire value that does not match the shape a contract type expects.
#[derive(Debug, Clone, Copy, PartialEq, Eq)]
pub struct WireShapeError;

/// A contract value with a structural wire projection.
///
/// `wire_model` is what `to_wire` produces; `decodes` holds of exactly the
/// wire models that `from_wire` accepts, and a value `from_wire` accepts
/// projects back onto the very model it was read from. Every value's own
/// projection is one that `from_wire` accepts, so writing a value out and
/// reading it back gives a value with the same projection.
pub trait WireShape: Sized {
    /// The model of the wire value this value projects onto.
    spec fn wire_model(&self) -> WireModel;

    /// The wire models that restore to a value of this type.
    spec fn decodes(model: WireModel) -> bool;

    fn to_wire(&self) -> (wire: WireValue)
        ensures
            wire.model() == self.wire_model(),
    ;

    fn from_wire(value: WireValue) -> (restored: Result<Self, WireShapeError>)
        ensures
            restored is Ok <==> Self::decodes(value.model()),
            restored matches Ok(v) ==> v.wire_model() == value.model(),
    ;

    /// Every value's own projection restores.
    proof fn lemma_projection_decodes(&self)
        ensures
            Self::decodes(self.wire_model()),
    ;
}

impl WireShape for String {
    open spec fn wire_model(&self) -> WireModel {
        WireModel::Text(self@)
    }

    open spec fn decodes(model: WireModel) -> bool {
        model is Text
    }

    fn to_wire(&self) -> (wire: WireValue) {
        WireValue::Text(self.clone())
    }

    fn from_wire(value: WireValue) -> (restored: Result<Self, WireShapeError>) {
        match value {
            WireValue::Text(text) => Ok(text),
            _ => Err(WireShapeError),
        }
    }

    proof fn lemma_projection_decodes(&self) {
    }
}

impl WireShape for u64 {
    open spec fn wire_model(&self) -> WireModel {
        WireModel::Integer(*self)
    }

    open spec fn decodes(model: WireModel) -> bool {
        model is Integer
    }

    fn to_wire(&self) -> (wire: WireValue) {
        WireValue::Integer(*self)
    }

    fn from_wire(value: WireValue) -> (restored: Result<Self, WireShapeError>) {
        match value {
            WireValue::Integer(n) => Ok(n),
            _ => Err(WireShapeError),
        }
    }

    proof fn lemma_projection_decodes(&self) {
    }
}

impl WireShape for bool {
    open spec fn wire_model(&self) -> WireModel {
        WireModel::Boolean(*self)
    }

    open spec fn decodes(model: WireModel) -> bool {
        model is Boolean
    }

    fn to_wire(&self) -> (wire: WireValue) {
        WireValue::Boolean(*self)
    }

    fn from_wire(value: WireValue) -> (restored: Result<Self, WireShapeError>) {
        match value {
            WireValue::Boolean(b) => Ok(b),
            _ => Err(WireShapeError),
        }
    }

    proof fn lemma_projection_decodes(&self) {
    }
}

/// A signed integer crosses the wire as the unsigned integer with the same
/// 64-bit pattern.
impl WireShape for i64 {
    open spec fn wire_model(&self) -> WireModel {
        WireModel::Integer(*self as u64)
    }

    open spec fn decodes(model: WireModel) -> bool {
        model is Integer
    }

    fn to_wire(&self) -> (wire: WireValue) {
        WireValue::Integer(*self as u64)
    }

    fn from_wire(value: WireValue) -> (restored: Result<Self, WireShapeError>) {
        match value {
            WireValue::Integer(n) => {
                let v = n as i64;
                assert(v as u64 == n) by (bit_vector)
                    requires
                        v == n as i64,
                ;
                Ok(v)
            },
            _ => Err(WireShapeError),
        }
    }

    proof fn lemma_projection_decodes(&self) {
    }
}

impl<Value: WireShape> WireShape for Vec<Value> {
    open spec fn wire_model(&self) -> WireModel {
        WireModel::Sequence(wire_models(self@))
    }

    open spec fn decodes(model: WireModel) -> bool {
        &&& model is Sequence
        &&& forall|i: int|
            0 <= i < model->Sequence_0.len() ==> Value::decodes(#[trigger] model->Sequence_0[i])
    }

    fn to_wire(&self) -> (wire: WireValue) {
        let mut out: Vec<WireValue> = Vec::new();
        let mut i: usize = 0;
        while i < self.len()
            invariant
                i <= self.len(),
                out.len() == i,
                forall|j: int| 0 <= j < i ==> #[trigger] out@[j].model() == self@[j].wire_model(),
            decreases self.len() - i,
        {
            let w = self[i].to_wire();
            out.push(w);
            i += 1;
        }
        proof {
            lemma_models_of(out@);
            assert(models_of(out@) =~= wire_models(self@));
        }
        WireValue::Sequence(out)
    }

    fn from_wire(value: WireValue) -> (restored: Result<Self, WireShapeError>) {
        let ghost whole = value.model();
        match value {
            WireValue::Sequence(values) => {
                let mut values = values;
                let ghost all = models_of(values@);
                assert(whole == WireModel::Sequence(all));
                proof {
                    lemma_models_of(values@);
                }
                let mut out: Vec<Value> = Vec::new();
                while values.len() > 0
                    invariant
                        whole == value.model(),
                        whole == WireModel::Sequence(all),
                        all.len() == out.len() + values.len(),
                        forall|j: int| 0 <= j < out.len() ==> #[trigger] out@[j].wire_model() == all[j],
                        forall|j: int| 0 <= j < out.len() ==> Value::decodes(#[trigger] all[j]),
                        forall|j: int|
                            0 <= j < values.len() ==> #[trigger] values@[j].model() == all[out.len() + j],
                    decreases values.len(),
                {
                    let ghost before = values@;
                    let v = values.remove(0);
                    assert(v.model() == all[out.len() as int]) by {
                        assert(before[0].model() == all[out.len() + 0]);
                    }
                    assert forall|j: int| 0 <= j < values.len() implies #[trigger] values@[j].model()
                        == all[out.len() + 1 + j] by {
                        assert(before[j + 1].model() == all[out.len() + (j + 1)]);
                    }
                    match Value::from_wire(v) {
                        Ok(x) => {
                            out.push(x);
                        },
                        Err(e) => {
                            assert(!Value::decodes(all[out.len() as int]));
                            assert(whole->Sequence_0[out.len() as int] == all[out.len() as int]);
                            assert(!Self::decodes(whole));
                            return Err(e);
                        },
                    }
                }
                assert(wire_models(out@) =~= all);
                Ok(out)
            },
            _ => Err(WireShapeError),
        }
    }

    proof fn lemma_projection_decodes(&self) {
        assert forall|i: int| 0 <= i < self@.len() implies Value::decodes(
            #[trigger] wire_models(self@)[i],
        ) by {
            self@[i].lemma_projection_decodes();
        }
    }
}

impl<Value: WireShape> WireShape for Option<Value> {
    open spec fn wire_model(&self) -> WireModel {
        match self {
            Some(v) => WireModel::Present(Box::new(v.wire_model())),
            None => WireModel::Absent,
        }
    }

    open spec fn decodes(model: WireModel) -> bool {
        match model {
            WireModel::Present(inner) => Value::decodes(*inner),
            WireModel::Absent => true,
            _ => false,
        }
    }

    fn to_wire(&self) -> (wire: WireValue) {
        match self {
            Some(v) => WireValue::Present(Box::new(v.to_wire())),
            None => WireValue::Absent,
        }
    }

    fn from_wire(value: WireValue) -> (restored: Result<Self, WireShapeError>) {
        match value {
            WireValue::Present(inner) => match Value::from_wire(*inner) {
                Ok(v) => Ok(Some(v)),
                Err(e) => Err(e),
            },
            WireValue::Absent => Ok(None),
            _ => Err(WireShapeError),
        }
    }

    proof fn lemma_projection_decodes(&self) {
        if let Some(v) = self {
            v.lemma_projection_decodes();
        }
    }
}

/// The single field of a variant that carries one payload.
pub(crate) fn one_field(fields: Vec<WireValue>) -> (field: Result<WireValue, WireShapeError>)
    ensures
        field is Ok <==> fields.len() == 1,
        field matches Ok(w) ==> w == fields@[0],
{
    if fields.len() != 1 {
        return Err(WireShapeError);
    }
    let mut fields = fields;
    Ok(fields.pop().unwrap())
}

/// A fresh value restored from the wire projection of `value`: the
/// projection of any contract value always restores, and the restored value
/// projects onto the same wire model.
pub fn wire_clone<Value: WireShape>(value: &Value) -> (copy: Value)
    ensures
        copy.wire_model() == value.wire_model(),
{
    let wire = value.to_wire();
    proof {
        value.lemma_projection_decodes();
    }
    let restored = Value::from_wire(wire);
    restored.unwrap()
}

} // verus!
