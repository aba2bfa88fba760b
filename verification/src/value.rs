//! The structured-value tree that every entity is decoded from and encoded to.
//!
//! A document (JSON or YAML) is handled at the level of its decoded value
//! tree: objects keep their fields as an insertion-ordered list of pairs, and
//! a number keeps its decimal text, so nothing is lost in a round trip.
use vstd::prelude::*;

verus! {

broadcast use vstd::std_specs::vec::group_vec_axioms, vstd::seq::group_seq_axioms;

/// A decoded document value: null, boolean, number (kept as its decimal
/// text), string, array, or object (an insertion-ordered field list).
pub enum Value {
    Null,
    Bool(bool),
    Num(String),
    Text(String),
    Arr(Vec<Value>),
    Obj(Vec<(String, Value)>),
}

/// The mathematical model of a [`Value`].
pub enum SpecValue {
    Null,
    Bool(bool),
    Num(Seq<char>),
    Text(Seq<char>),
    Arr(Seq<SpecValue>),
    Obj(Seq<(Seq<char>, SpecValue)>),
}

/// A field list of an object at the spec level.
pub type SpecFields = Seq<(Seq<char>, SpecValue)>;

pub open spec fn value_view(v: Value) -> SpecValue
    decreases v,
{
    match v {
        Value::Null => SpecValue::Null,
        Value::Bool(b) => SpecValue::Bool(b),
        Value::Num(s) => SpecValue::Num(s@),
        Value::Text(s) => SpecValue::Text(s@),
        Value::Arr(items) => SpecValue::Arr(
            Seq::new(
                items@.len(),
                |i: int|
                    if 0 <= i < items@.len() {
                        value_view(items@[i])
                    } else {
                        SpecValue::Null
                    },
            ),
        ),
        Value::Obj(fields) => SpecValue::Obj(
            Seq::new(
                fields@.len(),
                |i: int|
                    if 0 <= i < fields@.len() {
                        (fields@[i].0@, value_view(fields@[i].1))
                    } else {
                        (Seq::empty(), SpecValue::Null)
                    },
            ),
        ),
    }
}

impl View for Value {
    type V = SpecValue;

    open spec fn view(&self) -> SpecValue {
        value_view(*self)
    }
}

/// The spec-level field list of an exec field list.
pub open spec fn fields_view(fs: Seq<(String, Value)>) -> SpecFields {
    Seq::new(fs.len(), |i: int| (fs[i].0@, fs[i].1@))
}

pub broadcast proof fn lemma_obj_view(fields: Vec<(String, Value)>)
    ensures
        (#[trigger] Value::Obj(fields)@) == SpecValue::Obj(fields_view(fields@)),
{
    assert(Value::Obj(fields)@ matches SpecValue::Obj(fs) && fs =~= fields_view(fields@));
}

/// The spec-level element list of an exec array.
pub open spec fn items_view(items: Seq<Value>) -> Seq<SpecValue> {
    Seq::new(items.len(), |i: int| items[i]@)
}

pub broadcast proof fn lemma_arr_view(items: Vec<Value>)
    ensures
        (#[trigger] Value::Arr(items)@) == SpecValue::Arr(items_view(items@)),
{
    assert(Value::Arr(items)@ matches SpecValue::Arr(s) && s =~= items_view(items@));
}

impl Value {
    /// Structural copy of a value; the copy has the same model.
    pub fn deep_copy(&self) -> (r: Value)
        ensures
            r@ == self@,
        decreases *self,
    {
        match self {
            Value::Null => Value::Null,
            Value::Bool(b) => Value::Bool(*b),
            Value::Num(s) => Value::Num(s.clone()),
            Value::Text(s) => Value::Text(s.clone()),
            Value::Arr(items) => {
                let mut out: Vec<Value> = Vec::new();
                let mut i: usize = 0;
                while i < items.len()
                    invariant
                        *self == Value::Arr(*items),
                        i <= items.len(),
                        out@.len() == i as nat,
                        forall|j: int| 0 <= j < i ==> out@[j]@ == items@[j]@,
                    decreases items.len() - i,
                {
                    proof {
                        assert(decreases_to!(*self => self->Arr_0@[i as int]));
                    }
                    let c = items[i].deep_copy();
                    out.push(c);
                    i = i + 1;
                }
                proof {
                    lemma_arr_view(out);
                    assert(items_view(out@) =~= items_view(items@));
                    assert(self@ matches SpecValue::Arr(s) && s =~= items_view(items@));
                }
                Value::Arr(out)
            },
            Value::Obj(fields) => {
                let mut out: Vec<(String, Value)> = Vec::new();
                let mut i: usize = 0;
                while i < fields.len()
                    invariant
                        *self == Value::Obj(*fields),
                        i <= fields.len(),
                        out@.len() == i as nat,
                        forall|j: int|
                            0 <= j < i ==> out@[j].0@ == fields@[j].0@ && out@[j].1@
                                == fields@[j].1@,
                    decreases fields.len() - i,
                {
                    proof {
                        assert(decreases_to!(*self => self->Obj_0@[i as int].1));
                    }
                    let k = fields[i].0.clone();
                    let c = fields[i].1.deep_copy();
                    out.push((k, c));
                    i = i + 1;
                }
                proof {
                    lemma_obj_view(out);
                    assert(fields_view(out@) =~= fields_view(fields@));
                    assert(self@ matches SpecValue::Obj(s) && s =~= fields_view(fields@));
                }
                Value::Obj(out)
            },
        }
    }

    /// Structural equality of two values: true exactly when the models agree.
    pub fn deep_eq(&self, other: &Value) -> (r: bool)
        ensures
            r == (self@ == other@),
        decreases *self,
    {
        match (self, other) {
            (Value::Null, Value::Null) => true,
            (Value::Bool(a), Value::Bool(b)) => *a == *b,
            (Value::Num(a), Value::Num(b)) => str_eq(a.as_str(), b.as_str()),
            (Value::Text(a), Value::Text(b)) => str_eq(a.as_str(), b.as_str()),
            (Value::Arr(xs), Value::Arr(ys)) => {
                proof {
                    lemma_arr_view(*xs);
                    lemma_arr_view(*ys);
                }
                if xs.len() != ys.len() {
                    proof {
                        assert(items_view(xs@).len() != items_view(ys@).len());
                    }
                    false
                } else {
                    let mut i: usize = 0;
                    let mut ok: bool = true;
                    while i < xs.len()
                        invariant
                            *self == Value::Arr(*xs),
                            i <= xs.len(),
                            xs@.len() == ys@.len(),
                            ok == (forall|j: int| 0 <= j < i ==> xs@[j]@ == ys@[j]@),
                        decreases xs.len() - i,
                    {
                        proof {
                            assert(decreases_to!(*self => self->Arr_0@[i as int]));
                        }
                        let e = xs[i].deep_eq(&ys[i]);
                        ok = ok && e;
                        i = i + 1;
                    }
                    proof {
                        if ok {
                            assert(items_view(xs@) =~= items_view(ys@));
                        } else {
                            assert(items_view(xs@) != items_view(ys@)) by {
                                let j = choose|j: int| 0 <= j < xs@.len() && xs@[j]@ != ys@[j]@;
                                assert(items_view(xs@)[j] != items_view(ys@)[j]);
                            }
                        }
                    }
                    ok
                }
            },
            (Value::Obj(xs), Value::Obj(ys)) => {
                proof {
                    lemma_obj_view(*xs);
                    lemma_obj_view(*ys);
                }
                if xs.len() != ys.len() {
                    proof {
                        assert(fields_view(xs@).len() != fields_view(ys@).len());
                    }
                    false
                } else {
                    let mut i: usize = 0;
                    let mut ok: bool = true;
                    while i < xs.len()
                        invariant
                            *self == Value::Obj(*xs),
                            i <= xs.len(),
                            xs@.len() == ys@.len(),
                            ok == (forall|j: int|
                                0 <= j < i ==> xs@[j].0@ == ys@[j].0@ && xs@[j].1@ == ys@[j].1@),
                        decreases xs.len() - i,
                    {
                        proof {
                            assert(decreases_to!(*self => self->Obj_0@[i as int].1));
                        }
                        let ke = str_eq(xs[i].0.as_str(), ys[i].0.as_str());
                        let ve = xs[i].1.deep_eq(&ys[i].1);
                        ok = ok && ke && ve;
                        i = i + 1;
                    }
                    proof {
                        if ok {
                            assert(fields_view(xs@) =~= fields_view(ys@));
                        } else {
                            assert(fields_view(xs@) != fields_view(ys@)) by {
                                let j = choose|j: int|
                                    0 <= j < xs@.len() && !(xs@[j].0@ == ys@[j].0@ && xs@[j].1@
                                        == ys@[j].1@);
                                assert(fields_view(xs@)[j] != fields_view(ys@)[j]);
                            }
                        }
                    }
                    ok
                }
            },
            _ => {
                false
            },
        }
    }
}

/// String slice equality at the character level.
pub fn str_eq(a: &str, b: &str) -> (r: bool)
    ensures
        r == (a@ == b@),
{
    let sa: String = a.to_owned();
    let sb: String = b.to_owned();
    sa == sb
}

/// A value other than [`Value::Null`] never models as the null value.
pub proof fn lemma_view_not_null(v: &Value)
    requires
        !(*v is Null),
    ensures
        v@ != SpecValue::Null,
{
}

/// The model of a value has the same head constructor as the value.
pub broadcast proof fn lemma_view_variant(v: Value)
    ensures
        ((#[trigger] value_view(v)) is Null <==> v is Null),
        (value_view(v) is Bool <==> v is Bool),
        (value_view(v) is Num <==> v is Num),
        (value_view(v) is Text <==> v is Text),
        (value_view(v) is Arr <==> v is Arr),
        (value_view(v) is Obj <==> v is Obj),
{
}

/// The field-list model distributes over concatenation.
pub proof fn lemma_fields_view_concat(a: Seq<(String, Value)>, b: Seq<(String, Value)>)
    ensures
        fields_view(a + b) == fields_view(a) + fields_view(b),
{
    assert(fields_view(a + b) =~= fields_view(a) + fields_view(b));
}

} // verus!
