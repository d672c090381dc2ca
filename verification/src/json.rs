//! A JSON value, as CloudFormation templates are made of.
use vstd::prelude::*;

verus! {

/// A JSON value. Objects keep their members in the order they were given.
pub enum Value {
    Null,
    Bool(bool),
    Number(i128),
    String(String),
    Array(Vec<Value>),
    Object(Vec<(String, Value)>),
}

/// What a [`Value`] holds, with its strings as sequences of characters.
pub enum JsonView {
    Null,
    Bool(bool),
    Number(int),
    String(Seq<char>),
    Array(Seq<JsonView>),
    Object(Seq<(Seq<char>, JsonView)>),
}

/// The view of a value.
pub open spec fn json_view(v: Value) -> JsonView
    decreases v, 1int,
{
    match v {
        Value::Null => JsonView::Null,
        Value::Bool(b) => JsonView::Bool(b),
        Value::Number(n) => JsonView::Number(n as int),
        Value::String(s) => JsonView::String(s@),
        Value::Array(items) => JsonView::Array(json_views(items@)),
        Value::Object(members) => JsonView::Object(member_views(members@)),
    }
}

/// The views of a sequence of values.
pub open spec fn json_views(s: Seq<Value>) -> Seq<JsonView>
    decreases s, 0int,
{
    if s.len() == 0 {
        Seq::empty()
    } else {
        json_views(s.drop_last()).push(json_view(s.last()))
    }
}

/// The views of the members of an object.
pub open spec fn member_views(s: Seq<(String, Value)>) -> Seq<(Seq<char>, JsonView)>
    decreases s, 0int,
{
    if s.len() == 0 {
        Seq::empty()
    } else {
        member_views(s.drop_last()).push((s.last().0@, json_view(s.last().1)))
    }
}

impl View for Value {
    type V = JsonView;

    open spec fn view(&self) -> JsonView {
        json_view(*self)
    }
}

impl Value {
    /// A copy of the value.
    #[verifier::loop_isolation(false)]
    pub fn deep_copy(&self) -> (r: Value)
        ensures
            r@ == self@,
        decreases self,
    {
        match self {
            Value::Null => Value::Null,
            Value::Bool(b) => Value::Bool(*b),
            Value::Number(n) => Value::Number(*n),
            Value::String(s) => Value::String(s.clone()),
            Value::Array(items) => {
                let mut out: Vec<Value> = Vec::new();
                let mut i: usize = 0;
                while i < items.len()
                    invariant
                        i <= items@.len(),
                        json_views(out@) == json_views(items@.take(i as int)),
                    decreases items@.len() - i,
                {
                    let ghost before = out@;
                    let item = items[i].deep_copy();
                    out.push(item);
                    assert(out@.drop_last() =~= before);
                    assert(items@.take(i + 1).drop_last() =~= items@.take(i as int));
                    i = i + 1;
                }
                assert(items@.take(items@.len() as int) =~= items@);
                Value::Array(out)
            },
            Value::Object(members) => {
                let mut out: Vec<(String, Value)> = Vec::new();
                let mut i: usize = 0;
                while i < members.len()
                    invariant
                        i <= members@.len(),
                        member_views(out@) == member_views(members@.take(i as int)),
                    decreases members@.len() - i,
                {
                    let ghost before = out@;
                    let (k, v) = &members[i];
                    let copied = v.deep_copy();
                    out.push((k.clone(), copied));
                    assert(out@.drop_last() =~= before);
                    assert(members@.take(i + 1).drop_last() =~= members@.take(i as int));
                    i = i + 1;
                }
                assert(members@.take(members@.len() as int) =~= members@);
                Value::Object(out)
            },
        }
    }
}

impl Clone for Value {
    fn clone(&self) -> (r: Self)
        ensures
            r@ == self@,
    {
        self.deep_copy()
    }
}

/// A value of the library as it appears in a CloudFormation template.
pub trait ToJson {
    /// The JSON that the template holds for the value.
    spec fn as_json(&self) -> JsonView;

    /// The value as JSON.
    fn to_json(&self) -> (r: Value)
        ensures
            r@ == self.as_json(),
    ;
}

impl ToJson for String {
    open spec fn as_json(&self) -> JsonView {
        JsonView::String(self@)
    }

    fn to_json(&self) -> (r: Value) {
        Value::String(self.clone())
    }
}

impl ToJson for bool {
    open spec fn as_json(&self) -> JsonView {
        JsonView::Bool(*self)
    }

    fn to_json(&self) -> (r: Value) {
        Value::Bool(*self)
    }
}

impl ToJson for u8 {
    open spec fn as_json(&self) -> JsonView {
        JsonView::Number(*self as int)
    }

    fn to_json(&self) -> (r: Value) {
        Value::Number(*self as i128)
    }
}

impl ToJson for u16 {
    open spec fn as_json(&self) -> JsonView {
        JsonView::Number(*self as int)
    }

    fn to_json(&self) -> (r: Value) {
        Value::Number(*self as i128)
    }
}

impl ToJson for u32 {
    open spec fn as_json(&self) -> JsonView {
        JsonView::Number(*self as int)
    }

    fn to_json(&self) -> (r: Value) {
        Value::Number(*self as i128)
    }
}

impl ToJson for u64 {
    open spec fn as_json(&self) -> JsonView {
        JsonView::Number(*self as int)
    }

    fn to_json(&self) -> (r: Value) {
        Value::Number(*self as i128)
    }
}

impl ToJson for Value {
    open spec fn as_json(&self) -> JsonView {
        self@
    }

    fn to_json(&self) -> (r: Value) {
        self.deep_copy()
    }
}

/// A missing value is `null`.
impl<T: ToJson> ToJson for Option<T> {
    open spec fn as_json(&self) -> JsonView {
        match self {
            Some(x) => x.as_json(),
            None => JsonView::Null,
        }
    }

    fn to_json(&self) -> (r: Value) {
        match self {
            Some(x) => x.to_json(),
            None => Value::Null,
        }
    }
}

/// The JSON of each element, in order.
pub open spec fn as_json_all<T: ToJson>(s: Seq<T>) -> Seq<JsonView> {
    s.map_values(|x: T| x.as_json())
}

/// A sequence is an array.
impl<T: ToJson> ToJson for Vec<T> {
    open spec fn as_json(&self) -> JsonView {
        JsonView::Array(as_json_all(self@))
    }

    fn to_json(&self) -> (r: Value) {
        let mut out: Vec<Value> = Vec::new();
        let mut i: usize = 0;
        while i < self.len()
            invariant
                i <= self@.len(),
                json_views(out@) == as_json_all(self@.take(i as int)),
            decreases self@.len() - i,
        {
            let ghost before = out@;
            let v = self[i].to_json();
            out.push(v);
            proof {
                assert(out@.drop_last() =~= before);
                assert(self@.take(i + 1).drop_last() =~= self@.take(i as int));
                assert(as_json_all(self@.take(i + 1)) =~= as_json_all(self@.take(i as int)).push(v@));
            }
            i = i + 1;
        }
        assert(self@.take(self@.len() as int) =~= self@);
        Value::Array(out)
    }
}

/// Pairs of a key and a value are an object with those members, in order.
pub open spec fn members_as_json<T: ToJson>(s: Seq<(String, T)>) -> Seq<(Seq<char>, JsonView)> {
    s.map_values(|p: (String, T)| (p.0@, p.1.as_json()))
}

/// The object whose members are the pairs, in order.
pub fn object_of<T: ToJson>(pairs: &Vec<(String, T)>) -> (r: Value)
    ensures
        r@ == JsonView::Object(members_as_json(pairs@)),
{
    let mut out: Vec<(String, Value)> = Vec::new();
    let mut i: usize = 0;
    while i < pairs.len()
        invariant
            i <= pairs@.len(),
            member_views(out@) == members_as_json(pairs@.take(i as int)),
        decreases pairs@.len() - i,
    {
        let ghost before = out@;
        let (k, v) = &pairs[i];
        let j = v.to_json();
        out.push((k.clone(), j));
        proof {
            assert(out@.drop_last() =~= before);
            assert(pairs@.take(i + 1).drop_last() =~= pairs@.take(i as int));
            assert(members_as_json(pairs@.take(i + 1)) =~= members_as_json(pairs@.take(i as int)).push((k@, j@)));
        }
        i = i + 1;
    }
    assert(pairs@.take(pairs@.len() as int) =~= pairs@);
    Value::Object(out)
}

/// Adds a member to an object under construction.
pub fn push_member(members: &mut Vec<(String, Value)>, key: &str, value: Value)
    ensures
        member_views(final(members)@) == member_views(old(members)@).push((key@, value@)),
{
    let ghost before = members@;
    members.push((String::from_str(key), value));
    assert(members@.drop_last() =~= before);
}

/// The member `key` holding `value`.
pub open spec fn member<T: ToJson>(key: Seq<char>, value: &T) -> Seq<(Seq<char>, JsonView)> {
    seq![(key, value.as_json())]
}

/// The member `key` holding the value, where there is one; no member otherwise.
pub open spec fn opt_member<T: ToJson>(key: Seq<char>, value: &Option<T>) -> Seq<(Seq<char>, JsonView)> {
    match value {
        Some(x) => seq![(key, x.as_json())],
        None => Seq::empty(),
    }
}

/// `j` is an object with the member `key` holding `value`.
pub open spec fn has_member(j: JsonView, key: Seq<char>, value: JsonView) -> bool {
    match j {
        JsonView::Object(members) => members.contains((key, value)),
        _ => false,
    }
}

/// Adds the member `key` holding `value` to an object under construction.
pub fn push_json<T: ToJson>(members: &mut Vec<(String, Value)>, key: &str, value: &T)
    ensures
        member_views(final(members)@) == member_views(old(members)@) + member(key@, value),
{
    let ghost before = members@;
    let v = value.to_json();
    members.push((String::from_str(key), v));
    assert(members@.drop_last() =~= before);
    assert(member_views(members@) =~= member_views(before) + member(key@, value));
}

/// Adds the member `key` holding the value, where there is one, to an object under construction.
pub fn push_opt_json<T: ToJson>(members: &mut Vec<(String, Value)>, key: &str, value: &Option<T>)
    ensures
        member_views(final(members)@) == member_views(old(members)@) + opt_member(key@, value),
{
    match value {
        Some(x) => push_json(members, key, x),
        None => {
            assert(member_views(members@) =~= member_views(members@) + opt_member(key@, value));
        },
    }
}

} // verus!
