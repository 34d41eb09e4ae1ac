use vstd::prelude::*;

verus! {

/// A value as it stands in the body of a request.
#[derive(Debug, Clone, PartialEq, Eq)]
pub enum Value {
    /// A number.
    Integer(i64),
    /// A text.
    Text(String),
    /// Yes or no.
    Flag(bool),
}

/// What a `Value` holds: the number, the characters of the text, or the flag.
pub enum Datum {
    Integer(int),
    Text(Seq<char>),
    Flag(bool),
}

impl View for Value {
    type V = Datum;

    open spec fn view(&self) -> Datum {
        match *self {
            Value::Integer(n) => Datum::Integer(n as int),
            Value::Text(s) => Datum::Text(s@),
            Value::Flag(b) => Datum::Flag(b),
        }
    }
}

/// What a value holds, if there is one.
pub open spec fn datum_of(value: Option<Value>) -> Option<Datum> {
    match value {
        Some(value) => Some(value@),
        None => None,
    }
}

/// What a flag is sent as, if it is set.
pub open spec fn flag_datum(flag: Option<bool>) -> Option<Datum> {
    match flag {
        Some(flag) => Some(Datum::Flag(flag)),
        None => None,
    }
}

/// What a number is sent as, if it is set.
pub open spec fn integer_datum(number: Option<i32>) -> Option<Datum> {
    match number {
        Some(number) => Some(Datum::Integer(number as int)),
        None => None,
    }
}

/// The value of a parameter that is a flag: set where the flag is.
pub fn flag_value(flag: Option<bool>) -> (value: Option<Value>)
    ensures
        datum_of(value) == flag_datum(flag),
{
    match flag {
        Some(flag) => Some(Value::Flag(flag)),
        None => None,
    }
}

/// The value of a parameter that is a number: set where the number is.
pub fn integer_value(number: Option<i32>) -> (value: Option<Value>)
    ensures
        datum_of(value) == integer_datum(number),
{
    match number {
        Some(number) => Some(Value::Integer(number as i64)),
        None => None,
    }
}

/// One parameter of a request: the name it has on the wire, and its value
/// once it has been set. A required parameter is always set.
#[derive(Debug, Clone, PartialEq, Eq)]
pub struct Param {
    pub name: &'static str,
    pub value: Option<Value>,
}

impl View for Param {
    type V = (Seq<char>, Option<Datum>);

    open spec fn view(&self) -> (Seq<char>, Option<Datum>) {
        (self.name@, datum_of(self.value))
    }
}

/// One entry of the body of a request.
#[derive(Debug, Clone, PartialEq, Eq)]
pub struct Field {
    pub name: &'static str,
    pub value: Value,
}

impl View for Field {
    type V = (Seq<char>, Datum);

    open spec fn view(&self) -> (Seq<char>, Datum) {
        (self.name@, self.value@)
    }
}

/// The parameters of a request, each by its view.
pub open spec fn slots(params: Seq<Param>) -> Seq<(Seq<char>, Option<Datum>)> {
    params.map_values(|p: Param| p@)
}

/// The entries of a body, each by its view.
pub open spec fn entries(fields: Seq<Field>) -> Seq<(Seq<char>, Datum)> {
    fields.map_values(|f: Field| f@)
}

/// The body that a list of parameters is sent as: the parameters that are
/// set, in their order, each with its value. A parameter that is not set has
/// no entry at all.
pub open spec fn emitted(slots: Seq<(Seq<char>, Option<Datum>)>) -> Seq<(Seq<char>, Datum)>
    decreases slots.len(),
{
    if slots.len() == 0 {
        Seq::empty()
    } else {
        let before = emitted(slots.drop_last());
        match slots.last().1 {
            Some(datum) => before.push((slots.last().0, datum)),
            None => before,
        }
    }
}

/// What one parameter is sent as: its entry if it is set, and nothing if it
/// is not.
pub open spec fn entry(slot: (Seq<char>, Option<Datum>)) -> Seq<(Seq<char>, Datum)> {
    match slot.1 {
        Some(datum) => seq![(slot.0, datum)],
        None => Seq::empty(),
    }
}

/// The body of a list of parameters and one more is the body of the list,
/// followed by what the last parameter is sent as.
pub proof fn emitted_one_more(slots: Seq<(Seq<char>, Option<Datum>)>, slot: (Seq<char>, Option<Datum>))
    ensures
        emitted(slots.push(slot)) == emitted(slots) + entry(slot),
{
    assert(slots.push(slot).drop_last() =~= slots);
    assert(emitted(slots.push(slot)) =~= emitted(slots) + entry(slot));
}

/// Whether `body` has an entry under `key`.
pub open spec fn has_key(body: Seq<(Seq<char>, Datum)>, key: Seq<char>) -> bool {
    exists|i: int| 0 <= i < body.len() && (#[trigger] body[i]).0 == key
}

/// Whether `slots` has a parameter named `key` that is set.
pub open spec fn sets(slots: Seq<(Seq<char>, Option<Datum>)>, key: Seq<char>) -> bool {
    exists|i: int| 0 <= i < slots.len() && (#[trigger] slots[i]).0 == key && slots[i].1 is Some
}

/// A body holds an entry exactly where a parameter of that name is set to
/// that value.
pub proof fn emitted_entries_are_set_params(
    slots: Seq<(Seq<char>, Option<Datum>)>,
    key: Seq<char>,
    datum: Datum,
)
    ensures
        emitted(slots).contains((key, datum)) <==> slots.contains((key, Some(datum))),
    decreases slots.len(),
{
    if slots.len() > 0 {
        let front = slots.drop_last();
        emitted_entries_are_set_params(front, key, datum);
        let before = emitted(front);
        if emitted(slots).contains((key, datum)) {
            let i = choose|i: int| 0 <= i < emitted(slots).len() && emitted(slots)[i] == (key, datum);
            if i < before.len() {
                assert(before[i] == (key, datum));
                let j = choose|j: int| 0 <= j < front.len() && front[j] == (key, Some(datum));
                assert(slots[j] == (key, Some(datum)));
            } else {
                assert(slots[slots.len() - 1] == (key, Some(datum)));
            }
        }
        if slots.contains((key, Some(datum))) {
            let j = choose|j: int| 0 <= j < slots.len() && slots[j] == (key, Some(datum));
            if j < front.len() {
                assert(front[j] == (key, Some(datum)));
                let i = choose|i: int| 0 <= i < before.len() && before[i] == (key, datum);
                assert(emitted(slots)[i] == (key, datum));
            } else {
                assert(emitted(slots)[before.len() as int] == (key, datum));
            }
        }
    }
}

/// A parameter that is not set never appears as a key of the body: the body
/// has an entry under a key exactly where a parameter of that name is set.
pub proof fn emitted_keys_are_set_params(slots: Seq<(Seq<char>, Option<Datum>)>, key: Seq<char>)
    ensures
        has_key(emitted(slots), key) <==> sets(slots, key),
{
    let body = emitted(slots);
    if has_key(body, key) {
        let i = choose|i: int| 0 <= i < body.len() && (#[trigger] body[i]).0 == key;
        assert(body.contains((key, body[i].1)));
        emitted_entries_are_set_params(slots, key, body[i].1);
        let j = choose|j: int| 0 <= j < slots.len() && slots[j] == (key, Some(body[i].1));
        assert(slots[j].0 == key && slots[j].1 is Some);
    }
    if sets(slots, key) {
        let j = choose|j: int| 0 <= j < slots.len() && (#[trigger] slots[j]).0 == key && slots[j].1 is Some;
        let datum = slots[j].1->0;
        assert(slots[j] == (key, Some(datum)));
        assert(slots.contains((key, Some(datum))));
        emitted_entries_are_set_params(slots, key, datum);
        let i = choose|i: int| 0 <= i < body.len() && body[i] == (key, datum);
        assert(body[i].0 == key);
    }
}

/// The body of a request: an entry for each parameter that is set, and none
/// for one that is not.
pub fn emit(params: Vec<Param>) -> (body: Vec<Field>)
    ensures
        entries(body@) == emitted(slots(params@)),
{
    let mut body: Vec<Field> = Vec::new();
    let ghost all = slots(params@);
    assert(all.take(0) =~= Seq::empty());
    for param in iter: params
        invariant
            all == slots(iter.seq()),
            entries(body@) == emitted(all.take(iter.index() as int)),
    {
        let ghost done = all.take(iter.index() as int);
        let ghost next = all.take(iter.index() + 1);
        assert(next.drop_last() =~= done);
        assert(next.last() == param@);
        let ghost before = body@;
        match param.value {
            Some(value) => {
                body.push(Field { name: param.name, value });
                assert(entries(body@) =~= entries(before).push((param.name@, value@)));
            },
            None => {},
        }
    }
    assert(all.take(all.len() as int) =~= all);
    body
}

} // verus!
