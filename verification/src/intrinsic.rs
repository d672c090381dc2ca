//! CloudFormation's intrinsic functions and pseudo parameters, as JSON values.
use crate::json::{JsonView, Value};
use vstd::prelude::*;

verus! {

pub const AWS_ACCOUNT_PSEUDO_PARAM: &'static str = "AWS::AccountId";

pub const AWS_PARTITION_PSEUDO_PARAM: &'static str = "AWS::Partition";

pub const AWS_REGION_PSEUDO_PARAM: &'static str = "AWS::Region";

/// `{"Fn::GetAtt": [id, attribute]}`
pub open spec fn get_att_json(id: Seq<char>, attribute: Seq<char>) -> JsonView {
    JsonView::Object(seq![("Fn::GetAtt"@, JsonView::Array(seq![JsonView::String(id), JsonView::String(attribute)]))])
}

/// `{"Fn::GetAtt": [id, "Arn"]}`
pub open spec fn get_arn_json(id: Seq<char>) -> JsonView {
    get_att_json(id, "Arn"@)
}

/// `{"Ref": id}`
pub open spec fn get_ref_json(id: Seq<char>) -> JsonView {
    JsonView::Object(seq![("Ref"@, JsonView::String(id))])
}

/// `{"Fn::Join": [delimiter, elements]}`
pub open spec fn join_json(delimiter: Seq<char>, elements: Seq<JsonView>) -> JsonView {
    JsonView::Object(seq![("Fn::Join"@, JsonView::Array(seq![JsonView::String(delimiter), JsonView::Array(elements)]))])
}

/// A string as a JSON value.
pub fn string_value(s: &str) -> (r: Value)
    ensures
        r@ == JsonView::String(s@),
{
    Value::String(String::from_str(s))
}

/// A JSON object with one member.
pub fn single_member(key: &str, value: Value) -> (r: Value)
    ensures
        r@ == JsonView::Object(seq![(key@, value@)]),
{
    let mut members: Vec<(String, Value)> = Vec::new();
    members.push((String::from_str(key), value));
    let r = Value::Object(members);
    proof {
        reveal_with_fuel(crate::json::member_views, 2);
        assert(members@.drop_last() =~= Seq::<(String, Value)>::empty());
        assert(crate::json::member_views(members@) =~= seq![(key@, value@)]);
    }
    r
}

/// A JSON array of two values.
fn pair_array(a: Value, b: Value) -> (r: Value)
    ensures
        r@ == JsonView::Array(seq![a@, b@]),
{
    let mut items: Vec<Value> = Vec::new();
    items.push(a);
    items.push(b);
    let r = Value::Array(items);
    proof {
        reveal_with_fuel(crate::json::json_views, 3);
        assert(items@.drop_last().drop_last() =~= Seq::<Value>::empty());
        assert(items@.drop_last() =~= seq![a]);
        assert(crate::json::json_views(items@) =~= seq![a@, b@]);
    }
    r
}

/// The ARN attribute of the resource with logical id `id`.
pub fn get_arn(id: &str) -> (r: Value)
    ensures
        r@ == get_arn_json(id@),
{
    get_att(id, "Arn")
}

/// What `Ref` gives for the resource (or pseudo parameter) `id`.
pub fn get_ref(id: &str) -> (r: Value)
    ensures
        r@ == get_ref_json(id@),
{
    single_member("Ref", string_value(id))
}

/// The attribute `attribute` of the resource with logical id `id`.
pub fn get_att(id: &str, attribute: &str) -> (r: Value)
    ensures
        r@ == get_att_json(id@, attribute@),
{
    single_member("Fn::GetAtt", pair_array(string_value(id), string_value(attribute)))
}

/// The elements joined by `delimiter` once CloudFormation resolves them.
pub fn join(delimiter: &str, elements: Vec<Value>) -> (r: Value)
    ensures
        r@ == join_json(delimiter@, crate::json::json_views(elements@)),
{
    let array = Value::Array(elements);
    single_member("Fn::Join", pair_array(string_value(delimiter), array))
}

} // verus!
