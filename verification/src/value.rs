//! Runtime values.

use crate::assoc::assoc_map;
use crate::assoc::find_last;
use crate::assoc::lemma_assoc_absent;
use crate::assoc::lemma_assoc_found;
use crate::assoc::lemma_assoc_push;
use crate::assoc::lemma_assoc_update;
use crate::ast::Function;
use crate::ast::Ident;
use crate::assoc::lemma_assoc_dom;
use crate::ast_clone::clone_function;
use crate::ast_eq::same_function;
use crate::ast_model::FunctionView;
use crate::text::decimal;
use crate::text::decimal_string;
use vstd::prelude::*;
use vstd::string::StringExecFns;

verus! {

/// The values a call hands to the function it calls, in order.
#[derive(Debug, PartialEq)]
pub struct ArgumentValues(pub Vec<Value>);

/// A callable value.
#[derive(Debug, PartialEq)]
pub enum FunctionValue {
    /// A function of the host, known by its number.
    Builtin(usize),
    /// A function literal together with the frame it was made in.
    Closure { body: Function, capture: usize },
}

/// A record value: named fields. A later field overrides an earlier field of
/// the same name.
#[derive(Debug, PartialEq)]
pub struct Record {
    pub fields: Vec<(String, Value)>,
}

/// A runtime value.
#[derive(Debug, PartialEq)]
pub enum Value {
    Nil,
    Boolean(bool),
    Integer(i32),
    String(String),
    Array(Vec<Value>),
    Record(Record),
    Function(FunctionValue),
}

/// The mathematical model of a runtime value.
pub enum ValueView {
    Nil,
    Boolean(bool),
    Integer(i32),
    String(Seq<char>),
    Array(Seq<ValueView>),
    Record(Map<Seq<char>, ValueView>),
    Builtin(usize),
    Closure(FunctionView, usize),
}

/// The dynamic type of a value.
#[derive(Debug, Clone, Copy, PartialEq, Eq, Structural)]
pub enum ValueType {
    Nil,
    Boolean,
    Integer,
    String,
    Array,
    Record,
    Function,
}

impl Value {
    pub open spec fn view(&self) -> ValueView
        decreases self,
    {
        match self {
            Value::Nil => ValueView::Nil,
            Value::Boolean(b) => ValueView::Boolean(*b),
            Value::Integer(i) => ValueView::Integer(*i),
            Value::String(s) => ValueView::String(s@),
            Value::Array(v) => ValueView::Array(
                Seq::new(
                    v@.len(),
                    |i: int|
                        if 0 <= i < v@.len() {
                            v@[i].view()
                        } else {
                            arbitrary()
                        },
                ),
            ),
            Value::Record(r) => ValueView::Record(assoc_map(r.field_models())),
            Value::Function(FunctionValue::Builtin(id)) => ValueView::Builtin(*id),
            Value::Function(FunctionValue::Closure { body, capture }) => ValueView::Closure(
                body.view(),
                *capture,
            ),
        }
    }

    /// The dynamic type of the value.
    pub open spec fn spec_type(&self) -> ValueType {
        type_of(self.view())
    }

    pub fn get_type(&self) -> (r: ValueType)
        ensures
            r == self.spec_type(),
    {
        match self {
            Value::Nil => ValueType::Nil,
            Value::Boolean(_) => ValueType::Boolean,
            Value::Integer(_) => ValueType::Integer,
            Value::String(_) => ValueType::String,
            Value::Array(_) => ValueType::Array,
            Value::Record(_) => ValueType::Record,
            Value::Function(f) => {
                match f {
                    FunctionValue::Builtin(_) => ValueType::Function,
                    FunctionValue::Closure { .. } => ValueType::Function,
                }
            },
        }
    }
}

/// The dynamic type of a value, read off its model.
pub open spec fn type_of(v: ValueView) -> ValueType {
    match v {
        ValueView::Nil => ValueType::Nil,
        ValueView::Boolean(_) => ValueType::Boolean,
        ValueView::Integer(_) => ValueType::Integer,
        ValueView::String(_) => ValueType::String,
        ValueView::Array(_) => ValueType::Array,
        ValueView::Record(_) => ValueType::Record,
        ValueView::Builtin(_) => ValueType::Function,
        ValueView::Closure(_, _) => ValueType::Function,
    }
}

/// The models of a sequence of values.
pub open spec fn values_view(s: Seq<Value>) -> Seq<ValueView> {
    Seq::new(s.len(), |i: int| s[i].view())
}

/// The named models of a sequence of fields.
pub open spec fn fields_view(s: Seq<(String, Value)>) -> Seq<(Seq<char>, ValueView)> {
    Seq::new(s.len(), |i: int| (s[i].0@, s[i].1.view()))
}

/// The model of an array value is the sequence of the models of its items.
pub proof fn lemma_array_view(v: Vec<Value>)
    ensures
        Value::Array(v).view() == ValueView::Array(values_view(v@)),
{
    assert(Value::Array(v).view()->Array_0 =~= values_view(v@));
}

/// The model of a record value is the map its fields stand for.
pub proof fn lemma_record_view(r: Record)
    ensures
        Value::Record(r).view() == ValueView::Record(r.view()),
{
    assert(r.field_models() =~= fields_view(r.fields@));
}

impl ArgumentValues {
    pub open spec fn view(&self) -> Seq<ValueView> {
        values_view(self.0@)
    }
}

impl Record {
    /// The fields as named models, in the order they are held.
    pub open spec fn field_models(&self) -> Seq<(Seq<char>, ValueView)>
        decreases self,
    {
        Seq::new(
            self.fields@.len(),
            |i: int|
                if 0 <= i < self.fields@.len() {
                    (self.fields@[i].0@, self.fields@[i].1.view())
                } else {
                    arbitrary()
                },
        )
    }

    pub open spec fn view(&self) -> Map<Seq<char>, ValueView> {
        assoc_map(fields_view(self.fields@))
    }

    /// A record without fields.
    pub fn new() -> (r: Record)
        ensures
            r.view() == Map::<Seq<char>, ValueView>::empty(),
    {
        let r = Record { fields: Vec::new() };
        r
    }

    /// Sets the field `name` to `value`, whether or not it was there.
    pub fn insert(&mut self, name: &Ident, value: Value)
        ensures
            final(self).view() == old(self).view().insert(name.symbol@, value.view()),
    {
        let ghost before = fields_view(self.fields@);
        let key = name.symbol.clone();
        match find_last(&self.fields, &key) {
            Some(i) => {
                proof {
                    lemma_assoc_update(before, key@, i as int, value.view());
                }
                self.fields.set(i, (key, value));
                assert(fields_view(self.fields@) =~= before.update(i as int, (key@, value.view())));
            },
            None => {
                proof {
                    lemma_assoc_push(before, key@, value.view());
                }
                self.fields.push((key, value));
                assert(fields_view(self.fields@) =~= before.push((key@, value.view())));
            },
        }
    }

    /// The value of the field `name`, if the record has it.
    pub fn get(&self, name: &Ident) -> (r: Option<&Value>)
        ensures
            match r {
                Some(v) => self.view().dom().contains(name.symbol@) && self.view()[name.symbol@] == v.view(),
                None => !self.view().dom().contains(name.symbol@),
            },
    {
        let ghost fv = fields_view(self.fields@);
        match find_last(&self.fields, &name.symbol) {
            Some(i) => {
                proof {
                    lemma_assoc_found(fv, name.symbol@, i as int);
                }
                Some(&self.fields[i].1)
            },
            None => {
                proof {
                    lemma_assoc_absent(fv, name.symbol@);
                }
                None
            },
        }
    }
}

/// A copy of a list of values, item by item.
pub fn clone_values(v: &Vec<Value>) -> (r: Vec<Value>)
    ensures
        values_view(r@) == values_view(v@),
    decreases v,
{
    let mut out: Vec<Value> = Vec::new();
    let mut i: usize = 0;
    while i < v.len()
        invariant
            i <= v.len(),
            out@.len() == i,
            forall|j: int| 0 <= j < i ==> (#[trigger] out@[j]).view() == v@[j].view(),
        decreases v.len() - i,
    {
        proof {
            vstd::std_specs::vec::axiom_vec_index_decreases(*v, i as int);
        }
        let e = clone_value(&v[i]);
        out.push(e);
        i = i + 1;
    }
    out
}

/// A copy of the fields of a record, field by field.
pub fn clone_value_fields(v: &Vec<(String, Value)>) -> (r: Vec<(String, Value)>)
    ensures
        fields_view(r@) == fields_view(v@),
    decreases v,
{
    let mut out: Vec<(String, Value)> = Vec::new();
    let mut i: usize = 0;
    while i < v.len()
        invariant
            i <= v.len(),
            out@.len() == i,
            forall|j: int|
                0 <= j < i ==> (#[trigger] out@[j]).0@ == v@[j].0@ && out@[j].1.view() == v@[j].1.view(),
        decreases v.len() - i,
    {
        proof {
            vstd::std_specs::vec::axiom_vec_index_decreases(*v, i as int);
        }
        let k = v[i].0.clone();
        let e = clone_value(&v[i].1);
        out.push((k, e));
        i = i + 1;
    }
    out
}

/// A copy of a value. Arrays and records are copied item by item; a closure
/// keeps the number of the frame it captured.
pub fn clone_value(v: &Value) -> (r: Value)
    ensures
        r.view() == v.view(),
    decreases v,
{
    match v {
        Value::Nil => Value::Nil,
        Value::Boolean(b) => Value::Boolean(*b),
        Value::Integer(i) => Value::Integer(*i),
        Value::String(s) => Value::String(s.clone()),
        Value::Array(items) => {
            let c = clone_values(items);
            proof {
                lemma_array_view(c);
                lemma_array_view(*items);
            }
            Value::Array(c)
        },
        Value::Record(rec) => {
            let c = Record { fields: clone_value_fields(&rec.fields) };
            proof {
                lemma_record_view(c);
                lemma_record_view(*rec);
            }
            Value::Record(c)
        },
        Value::Function(f) => {
            match f {
                FunctionValue::Builtin(id) => Value::Function(FunctionValue::Builtin(*id)),
                FunctionValue::Closure { body, capture } => Value::Function(
                    FunctionValue::Closure { body: clone_function(body), capture: *capture },
                ),
            }
        },
    }
}

/// Whether two lists of values are the same, item by item.
pub fn same_values(a: &Vec<Value>, b: &Vec<Value>) -> (r: bool)
    ensures
        r == (values_view(a@) == values_view(b@)),
    decreases a,
{
    if a.len() != b.len() {
        assert(values_view(a@).len() != values_view(b@).len());
        return false;
    }
    let mut i: usize = 0;
    while i < a.len()
        invariant
            i <= a.len(),
            a.len() == b.len(),
            forall|j: int| 0 <= j < i ==> (#[trigger] a@[j]).view() == b@[j].view(),
        decreases a.len() - i,
    {
        proof {
            vstd::std_specs::vec::axiom_vec_index_decreases(*a, i as int);
        }
        if !same_value(&a[i], &b[i]) {
            assert(values_view(a@)[i as int] != values_view(b@)[i as int]);
            return false;
        }
        i = i + 1;
    }
    assert(values_view(a@) =~= values_view(b@));
    true
}

/// Whether two records hold the same fields with the same values; the order
/// of the fields does not count.
pub fn same_record(a: &Record, b: &Record) -> (r: bool)
    ensures
        r == (a.view() == b.view()),
    decreases a,
{
    let ghost fa = fields_view(a.fields@);
    let ghost fb = fields_view(b.fields@);
    let mut j: usize = 0;
    while j < a.fields.len()
        invariant
            j <= a.fields@.len(),
            fa == fields_view(a.fields@),
            fb == fields_view(b.fields@),
            forall|k: int|
                0 <= k < j ==> b.view().dom().contains((#[trigger] fa[k]).0) && a.view()[fa[k].0] == b.view()[fa[k].0],
        decreases a.fields@.len() - j,
    {
        let name = &a.fields[j].0;
        match find_last(&a.fields, name) {
            None => {
            },
            Some(ia) => {
                proof {
                    lemma_assoc_found(fa, name@, ia as int);
                }
                match find_last(&b.fields, name) {
                    None => {
                        proof {
                            lemma_assoc_absent(fb, name@);
                        }
                        return false;
                    },
                    Some(ib) => {
                        proof {
                            lemma_assoc_found(fb, name@, ib as int);
                            vstd::std_specs::vec::axiom_vec_index_decreases(a.fields, ia as int);
                        }
                        if !same_value(&a.fields[ia].1, &b.fields[ib].1) {
                            return false;
                        }
                    },
                }
            },
        }
        j = j + 1;
    }
    let mut j: usize = 0;
    while j < b.fields.len()
        invariant
            j <= b.fields@.len(),
            fa == fields_view(a.fields@),
            fb == fields_view(b.fields@),
            forall|k: int| 0 <= k < j ==> a.view().dom().contains((#[trigger] fb[k]).0),
        decreases b.fields@.len() - j,
    {
        let name = &b.fields[j].0;
        assert(fb[j as int].0 == name@);
        proof {
            lemma_assoc_dom(fb, name@);
        }
        match find_last(&a.fields, name) {
            None => {
                proof {
                    lemma_assoc_absent(fa, name@);
                }
                return false;
            },
            Some(ia) => {
                proof {
                    assert(fa[ia as int].0 == name@);
                    lemma_assoc_dom(fa, name@);
                }
            },
        }
        j = j + 1;
    }
    proof {
        assert forall|k: Seq<char>| a.view().dom().contains(k) <==> b.view().dom().contains(k) by {
            lemma_assoc_dom(fa, k);
            lemma_assoc_dom(fb, k);
        }
        assert forall|k: Seq<char>| a.view().dom().contains(k) implies a.view()[k] == b.view()[k] by {
            lemma_assoc_dom(fa, k);
        }
        assert(a.view() =~= b.view());
    }
    true
}

/// Whether two values are the same: their models are equal. Arrays are
/// compared item by item, records field by field whatever the order, builtin
/// functions by number, closures by their literal and the frame they
/// captured.
pub fn same_value(a: &Value, b: &Value) -> (r: bool)
    ensures
        r == (a.view() == b.view()),
    decreases a,
{
    match (a, b) {
        (Value::Nil, Value::Nil) => true,
        (Value::Boolean(x), Value::Boolean(y)) => *x == *y,
        (Value::Integer(x), Value::Integer(y)) => *x == *y,
        (Value::String(x), Value::String(y)) => *x == *y,
        (Value::Array(x), Value::Array(y)) => {
            proof {
                lemma_array_view(*x);
                lemma_array_view(*y);
            }
            same_values(x, y)
        },
        (Value::Record(x), Value::Record(y)) => {
            proof {
                lemma_record_view(*x);
                lemma_record_view(*y);
            }
            same_record(x, y)
        },
        (Value::Function(f), Value::Function(g)) => {
            match (f, g) {
                (FunctionValue::Builtin(i), FunctionValue::Builtin(j)) => *i == *j,
                (
                    FunctionValue::Closure { body: x, capture: c },
                    FunctionValue::Closure { body: y, capture: d },
                ) => *c == *d && same_function(x, y),
                _ => false,
            }
        },
        _ => false,
    }
}

impl Clone for ArgumentValues {
    fn clone(&self) -> (r: ArgumentValues)
        ensures
            r.view() == self.view(),
    {
        ArgumentValues(clone_values(&self.0))
    }
}

impl Clone for Record {
    fn clone(&self) -> (r: Record)
        ensures
            r.view() == self.view(),
    {
        Record { fields: clone_value_fields(&self.fields) }
    }
}

impl Clone for FunctionValue {
    fn clone(&self) -> (r: FunctionValue)
        ensures
            Value::Function(r).view() == Value::Function(*self).view(),
    {
        match self {
            FunctionValue::Builtin(id) => FunctionValue::Builtin(*id),
            FunctionValue::Closure { body, capture } => FunctionValue::Closure {
                body: clone_function(body),
                capture: *capture,
            },
        }
    }
}

impl Clone for Value {
    fn clone(&self) -> (r: Value)
        ensures
            r.view() == self.view(),
    {
        clone_value(self)
    }
}

impl ValueType {
    /// The name of the type as diagnostics show it.
    pub open spec fn spec_name(self) -> Seq<char> {
        match self {
            ValueType::Nil => "nil"@,
            ValueType::Boolean => "bool"@,
            ValueType::Integer => "number"@,
            ValueType::String => "string"@,
            ValueType::Array => "array"@,
            ValueType::Record => "record"@,
            ValueType::Function => "function"@,
        }
    }

    pub fn name(&self) -> (r: &'static str)
        ensures
            r@ == self.spec_name(),
    {
        match self {
            ValueType::Nil => "nil",
            ValueType::Boolean => "bool",
            ValueType::Integer => "number",
            ValueType::String => "string",
            ValueType::Array => "array",
            ValueType::Record => "record",
            ValueType::Function => "function",
        }
    }
}

/// What the host offers to scripts: functions known by number.
///
/// A host may say that its calls are a function of the number and of the
/// arguments alone, and which function; evaluation with such a host is
/// determined by the program. Of a host that does not say so, nothing is
/// taken for granted.
pub trait BuiltinFunction {
    /// Whether the calls of this host are a function of the number and of
    /// the arguments alone.
    open spec fn obeys_result(&self) -> bool {
        false
    }

    /// The value that the function numbered `id` returns on `args`, for a
    /// host whose calls are a function.
    open spec fn result(&self, id: usize, args: Seq<ValueView>) -> ValueView {
        ValueView::Nil
    }

    fn call(&self, id: usize, args: ArgumentValues) -> (r: Value)
        ensures
            self.obeys_result() ==> r.view() == self.result(id, args.view()),
    ;
}

/// A host without functions: every call returns `nil`.
pub struct NoBuiltins;

impl BuiltinFunction for NoBuiltins {
    open spec fn obeys_result(&self) -> bool {
        true
    }

    open spec fn result(&self, id: usize, args: Seq<ValueView>) -> ValueView {
        ValueView::Nil
    }

    fn call(&self, id: usize, args: ArgumentValues) -> (r: Value) {
        Value::Nil
    }
}

/// The items from place `i` on as they are shown, each but the first after
/// `, `, appended to `acc`.
pub open spec fn debug_items(items: Seq<ValueView>, i: int, acc: Seq<char>) -> Seq<char>
    decreases items, items.len() - i,
{
    if i < 0 || i >= items.len() {
        acc
    } else if i == 0 {
        debug_items(items, i + 1, acc + debug_text(items[i]))
    } else {
        debug_items(items, i + 1, acc + ", "@ + debug_text(items[i]))
    }
}

/// A value as it is shown to the user: `nil`, `true`, a number in decimal,
/// a string in double quotes, an array in brackets with its items set apart
/// by `, `. Records and functions are not shown in full.
pub open spec fn debug_text(v: ValueView) -> Seq<char>
    decreases v, 0nat,
{
    match v {
        ValueView::Nil => "nil"@,
        ValueView::Boolean(b) => if b {
            "true"@
        } else {
            "false"@
        },
        ValueView::Integer(i) => decimal(i as int),
        ValueView::String(s) => "\""@ + s + "\""@,
        ValueView::Array(items) => debug_items(items, 0, "["@) + "]"@,
        ValueView::Record(_) => "[RECORD]"@,
        ValueView::Builtin(_) => "[FUNCTION]"@,
        ValueView::Closure(_, _) => "[FUNCTION]"@,
    }
}

impl Value {
    /// The value as it is shown to the user.
    pub fn to_debug(&self) -> (r: String)
        ensures
            r@ == debug_text(self.view()),
        decreases self,
    {
        match self {
            Value::Nil => String::from_str("nil"),
            Value::Boolean(b) => {
                if *b {
                    String::from_str("true")
                } else {
                    String::from_str("false")
                }
            },
            Value::Integer(i) => decimal_string(*i),
            Value::String(s) => {
                let mut out = String::from_str("\"");
                out.append(s.as_str());
                out.append("\"");
                out
            },
            Value::Array(items) => {
                proof {
                    lemma_array_view(*items);
                }
                let ghost models = values_view(items@);
                let mut out = String::from_str("[");
                let mut i: usize = 0;
                while i < items.len()
                    invariant
                        i <= items@.len(),
                        models == values_view(items@),
                        self is Array,
                        self->Array_0 == *items,
                        debug_items(models, 0, "["@) == debug_items(models, i as int, out@),
                    decreases items@.len() - i,
                {
                    proof {
                        vstd::std_specs::vec::axiom_vec_index_decreases(*items, i as int);
                    }
                    if i > 0 {
                        out.append(", ");
                    }
                    let item = items[i].to_debug();
                    out.append(item.as_str());
                    i = i + 1;
                }
                out.append("]");
                out
            },
            Value::Record(_) => String::from_str("[RECORD]"),
            Value::Function(f) => {
                match f {
                    FunctionValue::Builtin(_) => String::from_str("[FUNCTION]"),
                    FunctionValue::Closure { .. } => String::from_str("[FUNCTION]"),
                }
            },
        }
    }
}

} // verus!
