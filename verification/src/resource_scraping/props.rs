//! Reading the properties of a resource from its scraped description.
use crate::text::{
    contains, contains_seq, replace_all, replace_seq, split_str, split_str_seq, starts_with, str_eq, trim, trim_seq,
    views,
};
use vstd::prelude::*;

verus! {

/// What the documentation says of a property: its name, its type in Rust, whether it may be left
/// out, and the rest of what it says.
pub struct PropInfo {
    pub name: String,
    pub type_as_string: String,
    pub optional: bool,
    pub comments: Vec<String>,
}

/// What a [`PropInfo`] holds, with its strings as sequences of characters.
pub struct PropInfoView {
    pub name: Seq<char>,
    pub type_as_string: Seq<char>,
    pub optional: bool,
    pub comments: Seq<Seq<char>>,
}

impl View for PropInfo {
    type V = PropInfoView;

    open spec fn view(&self) -> PropInfoView {
        PropInfoView {
            name: self.name@,
            type_as_string: self.type_as_string@,
            optional: self.optional,
            comments: views(self.comments@),
        }
    }
}

/// The views of the properties, in order.
pub open spec fn prop_views(s: Seq<PropInfo>) -> Seq<PropInfoView> {
    s.map_values(|p: PropInfo| p@)
}

/// The part of a scraped line before its first `;`.
pub open spec fn first_field(line: Seq<char>) -> Seq<char> {
    split_str_seq(line, ";"@)[0]
}

/// A scraped line describes a helper (a property type of its own) rather than a resource: its
/// first field holds `::` and a space.
pub open spec fn is_helper_line(line: Option<Seq<char>>) -> bool {
    match line {
        Some(l) => contains_seq(first_field(l), "::"@) && contains_seq(first_field(l), " "@),
        None => false,
    }
}

/// Whether the scraped line describes a helper; no line describes none.
pub fn is_helper(resource: Option<&str>) -> (r: bool)
    ensures
        r == is_helper_line(match resource {
            Some(l) => Some(l@),
            None => None,
        }),
{
    match resource {
        Some(line) => {
            proof {
                reveal_strlit(";");
            }
            let fields = split_str(line, ";");
            proof {
                crate::text::lemma_split_str_nonempty(line@, ";"@);
            }
            let value = fields[0].as_str();
            contains(value, "::") && contains(value, " ")
        },
        None => false,
    }
}

/// What `(?P<prefix>.*)<a href=\".+\">(?P<name>.+?)</a>` captures in `text`: what stands before the
/// link to a type, and the type's name; nothing where the pattern does not match.
pub uninterp spec fn custom_type_captures(text: Seq<char>) -> Option<(Seq<char>, Seq<char>)>;

/// The captures of the link to a custom type.
///
/// Calls `regex::Regex::captures` with the pattern `(?P<prefix>.*)<a href=\".+\">(?P<name>.+?)</a>`,
/// which compiles, and reads both groups, which take part in every match. The contract names what
/// the regex engine computes; what it states of the pattern's meaning is nothing more.
#[verifier::external_body]
fn capture_custom_type(text: &str) -> (r: Option<(String, String)>)
    ensures
        match r {
            Some((prefix, name)) => custom_type_captures(text@) == Some((prefix@, name@)),
            None => custom_type_captures(text@) is None,
        },
{
    let pattern = regex::Regex::new(r#"(?P<prefix>.*)<a href=\".+\">(?P<name>.+?)</a>"#).unwrap();
    match pattern.captures(text) {
        Some(caps) => Some((caps["prefix"].to_string(), caps["name"].to_string())),
        None => None,
    }
}

/// The Rust type for a documented type; `None` where a custom type cannot be read. Custom types
/// are a name, or `Array of` or `Object of` a name.
pub open spec fn rust_type_for(info: Seq<char>) -> Option<Seq<char>> {
    if info == "String"@ {
        Some("String"@)
    } else if info == "Integer"@ || info == "Number"@ {
        Some("u32"@)
    } else if info == "Boolean"@ {
        Some("bool"@)
    } else if info == "Json"@ {
        Some("Value"@)
    } else if info == "Array of String"@ {
        Some("Vec<String>"@)
    } else {
        match custom_type_captures(info) {
            None => None,
            Some((prefix, name)) => if prefix.len() == 0 {
                Some(name)
            } else if trim_seq(prefix) == "Array of"@ {
                Some("Vec<"@ + name + ">"@)
            } else {
                Some("HashMap<"@ + name + ", "@ + name + ">"@)
            },
        }
    }
}

/// A documented type names a custom type with a prefix that the generator does not know (it
/// stops there).
pub open spec fn unknown_type_prefix(info: Seq<char>) -> bool {
    &&& info != "String"@
    &&& info != "Integer"@
    &&& info != "Number"@
    &&& info != "Boolean"@
    &&& info != "Json"@
    &&& info != "Array of String"@
    &&& custom_type_captures(info) matches Some((prefix, name)) && prefix.len() != 0 && trim_seq(prefix) != "Array of"@
        && trim_seq(prefix) != "Object of"@
}

/// The Rust type for a documented type: `None` where the generator would stop at an unknown
/// prefix, else `Some` of the type or of nothing where a custom type cannot be read.
fn rust_type(info: &str) -> (r: Option<Option<String>>)
    ensures
        r is None <==> unknown_type_prefix(info@),
        r matches Some(t) ==> match t {
            Some(s) => rust_type_for(info@) == Some(s@),
            None => rust_type_for(info@) is None,
        },
{
    proof {
        reveal_strlit("String");
        reveal_strlit("Integer");
        reveal_strlit("Number");
        reveal_strlit("Boolean");
        reveal_strlit("Json");
        reveal_strlit("Array of String");
    }
    if str_eq(info, "String") {
        Some(Some(String::from_str("String")))
    } else if str_eq(info, "Integer") || str_eq(info, "Number") {
        Some(Some(String::from_str("u32")))
    } else if str_eq(info, "Boolean") {
        Some(Some(String::from_str("bool")))
    } else if str_eq(info, "Json") {
        Some(Some(String::from_str("Value")))
    } else if str_eq(info, "Array of String") {
        Some(Some(String::from_str("Vec<String>")))
    } else {
        match capture_custom_type(info) {
            None => Some(None),
            Some((prefix, name)) => {
                if prefix.unicode_len() == 0 {
                    Some(Some(name))
                } else {
                    let trimmed = trim(prefix.as_str());
                    if str_eq(trimmed.as_str(), "Array of") {
                        let mut t = String::from_str("Vec<");
                        t.append(name.as_str());
                        t.append(">");
                        Some(Some(t))
                    } else if str_eq(trimmed.as_str(), "Object of") {
                        let mut t = String::from_str("HashMap<");
                        t.append(name.as_str());
                        t.append(", ");
                        t.append(name.as_str());
                        t.append(">");
                        Some(Some(t))
                    } else {
                        None
                    }
                }
            },
        }
    }
}

/// What the parts of a property's description said so far.
pub struct DescriptionState {
    pub optional: bool,
    pub type_info: Seq<char>,
    pub comments: Seq<Seq<char>>,
}

/// Reading one trimmed part of a description: `Required: No` makes the property optional, `Type: `
/// gives its type, anything else is a comment. An unreadable custom type is an error.
pub open spec fn description_step(st: DescriptionState, part: Seq<char>) -> Result<DescriptionState, Seq<char>> {
    if part == "Required: No"@ {
        Ok(DescriptionState { optional: true, ..st })
    } else if "Type: "@.is_prefix_of(part) {
        match rust_type_for(replace_seq(part, "Type: "@, ""@)) {
            Some(t) => Ok(DescriptionState { type_info: t, ..st }),
            None => Err("failed to capture custom type information"@),
        }
    } else {
        Ok(DescriptionState { comments: st.comments.push(part), ..st })
    }
}

/// Reading the parts of a description in order, from a required property of no type; the first
/// error ends it.
pub open spec fn description_state(parts: Seq<Seq<char>>) -> Result<DescriptionState, Seq<char>>
    decreases parts.len(),
{
    if parts.len() == 0 {
        Ok(DescriptionState { optional: false, type_info: Seq::empty(), comments: Seq::empty() })
    } else {
        match description_state(parts.drop_last()) {
            Err(e) => Err(e),
            Ok(st) => description_step(st, trim_seq(parts.last())),
        }
    }
}

/// Reading the parts of a description reaches a type with a prefix the generator does not know.
pub open spec fn description_reaches_unknown_prefix(parts: Seq<Seq<char>>) -> bool
    decreases parts.len(),
{
    if parts.len() == 0 {
        false
    } else {
        ||| description_reaches_unknown_prefix(parts.drop_last())
        ||| (description_state(parts.drop_last()) is Ok && {
            let part = trim_seq(parts.last());
            &&& part != "Required: No"@
            &&& "Type: "@.is_prefix_of(part)
            &&& unknown_type_prefix(replace_seq(part, "Type: "@, ""@))
        })
    }
}

/// The property that the scraped text `prop` describes: its name before `===`, then its
/// description, whose parts `###` separates. Text without `===` is an error.
pub open spec fn prop_info_of(prop: Seq<char>) -> Result<PropInfoView, Seq<char>> {
    let pieces = split_str_seq(prop, "==="@);
    let name = pieces[0];
    if pieces.len() < 2 {
        Err("prop should have info part, after the = (prop name "@ + name + ")"@)
    } else {
        match description_state(split_str_seq(pieces[1], "###"@)) {
            Err(e) => Err(e),
            Ok(st) => Ok(
                PropInfoView { name, type_as_string: st.type_info, optional: st.optional, comments: st.comments },
            ),
        }
    }
}

/// Reading the property reaches a type with a prefix the generator does not know.
pub open spec fn prop_reaches_unknown_prefix(prop: Seq<char>) -> bool {
    let pieces = split_str_seq(prop, "==="@);
    pieces.len() >= 2 && description_reaches_unknown_prefix(split_str_seq(pieces[1], "###"@))
}

/// The properties, in order; the first error ends it.
pub open spec fn props_info_of(props: Seq<Seq<char>>) -> Result<Seq<PropInfoView>, Seq<char>>
    decreases props.len(),
{
    if props.len() == 0 {
        Ok(Seq::empty())
    } else {
        match props_info_of(props.drop_last()) {
            Err(e) => Err(e),
            Ok(done) => match prop_info_of(props.last()) {
                Err(e) => Err(e),
                Ok(p) => Ok(done.push(p)),
            },
        }
    }
}

/// Reading the properties reaches a type with a prefix the generator does not know.
pub open spec fn props_reach_unknown_prefix(props: Seq<Seq<char>>) -> bool
    decreases props.len(),
{
    if props.len() == 0 {
        false
    } else {
        ||| props_reach_unknown_prefix(props.drop_last())
        ||| (props_info_of(props.drop_last()) is Ok && prop_reaches_unknown_prefix(props.last()))
    }
}

/// The description of one property: `None` where it reaches an unknown type prefix.
fn prop_info_outcome(prop: &str) -> (r: Option<Result<PropInfo, String>>)
    ensures
        r is None <==> prop_reaches_unknown_prefix(prop@),
        r matches Some(res) ==> match res {
            Ok(p) => prop_info_of(prop@) == Ok::<PropInfoView, Seq<char>>(p@),
            Err(e) => prop_info_of(prop@) == Err::<PropInfoView, Seq<char>>(e@),
        },
{
    proof {
        reveal_strlit("===");
        reveal_strlit("###");
    }
    let pieces = split_str(prop, "===");
    proof {
        crate::text::lemma_split_str_nonempty(prop@, "==="@);
    }
    let name = pieces[0].clone();
    assert(views(pieces@)[0] == pieces@[0]@);
    if pieces.len() < 2 {
        let mut message = String::from_str("prop should have info part, after the = (prop name ");
        message.append(name.as_str());
        message.append(")");
        return Some(Err(message));
    }
    let parts = split_str(pieces[1].as_str(), "###");
    let ghost all = views(parts@);
    proof {
        assert(split_str_seq(prop@, "==="@).len() == pieces@.len());
        assert(views(pieces@)[1] == pieces@[1]@);
        assert(all == split_str_seq(split_str_seq(prop@, "==="@)[1], "###"@));
    }
    let mut optional = false;
    let mut type_info = String::new();
    let mut comments: Vec<String> = Vec::new();
    let mut k: usize = 0;
    assert(all.take(0) =~= Seq::<Seq<char>>::empty());
    assert(views(comments@) =~= Seq::<Seq<char>>::empty());
    assert(type_info@ =~= Seq::<char>::empty());
    while k < parts.len()
        invariant
            all == views(parts@),
            all == split_str_seq(split_str_seq(prop@, "==="@)[1], "###"@),
            split_str_seq(prop@, "==="@).len() >= 2,
            k <= parts@.len(),
            description_state(all.take(k as int)) == Ok::<DescriptionState, Seq<char>>(
                DescriptionState { optional, type_info: type_info@, comments: views(comments@) },
            ),
            !description_reaches_unknown_prefix(all.take(k as int)),
        decreases parts@.len() - k,
    {
        let ghost before = all.take(k as int);
        assert(all.take(k + 1).drop_last() =~= before);
        assert(all.take(k + 1).last() == parts@[k as int]@);
        let part = trim(parts[k].as_str());
        proof {
            reveal_strlit("Required: No");
            reveal_strlit("Type: ");
        }
        if str_eq(part.as_str(), "Required: No") {
            optional = true;
        } else if starts_with(part.as_str(), "Type: ") {
            let info = replace_all(part.as_str(), "Type: ", "");
            match rust_type(info.as_str()) {
                None => {
                    proof {
                        assert(description_reaches_unknown_prefix(all.take(k + 1)));
                        lemma_reach_stays(all, k + 1);
                    }
                    return None;
                },
                Some(None) => {
                    proof {
                        assert(!description_reaches_unknown_prefix(all.take(k + 1)));
                        assert(description_state(all.take(k + 1)) is Err);
                        lemma_state_error_stays(all, k + 1);
                    }
                    return Some(Err(String::from_str("failed to capture custom type information")));
                },
                Some(Some(t)) => {
                    type_info = t;
                },
            }
        } else {
            let ghost old_comments = comments@;
            comments.push(part);
            assert(views(comments@) =~= views(old_comments).push(part@));
        }
        k = k + 1;
    }
    assert(all.take(all.len() as int) =~= all);
    Some(Ok(PropInfo { name, type_as_string: type_info, optional, comments }))
}

/// Once reading a description reaches an unknown prefix, reading more of it does too.
proof fn lemma_reach_stays(all: Seq<Seq<char>>, k: int)
    requires
        0 <= k <= all.len(),
        description_reaches_unknown_prefix(all.take(k)),
    ensures
        description_reaches_unknown_prefix(all),
    decreases all.len() - k,
{
    if k == all.len() {
        assert(all.take(k) =~= all);
    } else {
        assert(all.take(k + 1).drop_last() =~= all.take(k));
        lemma_reach_stays(all, k + 1);
    }
}

/// Once reading the properties reaches an unknown prefix, reading more of them does too.
proof fn lemma_props_reach_stays(all: Seq<Seq<char>>, k: int)
    requires
        0 <= k <= all.len(),
        props_reach_unknown_prefix(all.take(k)),
    ensures
        props_reach_unknown_prefix(all),
    decreases all.len() - k,
{
    if k == all.len() {
        assert(all.take(k) =~= all);
    } else {
        assert(all.take(k + 1).drop_last() =~= all.take(k));
        lemma_props_reach_stays(all, k + 1);
    }
}

/// Once reading a description fails, reading more of it fails with the same error and reaches no
/// unknown prefix.
proof fn lemma_state_error_stays(all: Seq<Seq<char>>, k: int)
    requires
        0 <= k <= all.len(),
        description_state(all.take(k)) is Err,
        !description_reaches_unknown_prefix(all.take(k)),
    ensures
        description_state(all) == description_state(all.take(k)),
        !description_reaches_unknown_prefix(all),
    decreases all.len() - k,
{
    if k == all.len() {
        assert(all.take(k) =~= all);
    } else {
        assert(all.take(k + 1).drop_last() =~= all.take(k));
        lemma_state_error_stays(all, k + 1);
    }
}

/// The properties that the scraped texts describe, in order: `None` where the generator would stop
/// at a type with an unknown prefix, else what it reads, or the first error.
pub fn checked_props_info(props: &Vec<String>) -> (r: Option<Result<Vec<PropInfo>, String>>)
    ensures
        r is None <==> props_reach_unknown_prefix(views(props@)),
        r matches Some(res) ==> match res {
            Ok(ps) => props_info_of(views(props@)) == Ok::<Seq<PropInfoView>, Seq<char>>(prop_views(ps@)),
            Err(e) => props_info_of(views(props@)) == Err::<Seq<PropInfoView>, Seq<char>>(e@),
        },
{
    let ghost all = views(props@);
    let mut out: Vec<PropInfo> = Vec::new();
    let mut k: usize = 0;
    assert(all.take(0) =~= Seq::<Seq<char>>::empty());
    assert(prop_views(out@) =~= Seq::<PropInfoView>::empty());
    while k < props.len()
        invariant
            all == views(props@),
            k <= props@.len(),
            props_info_of(all.take(k as int)) == Ok::<Seq<PropInfoView>, Seq<char>>(prop_views(out@)),
            !props_reach_unknown_prefix(all.take(k as int)),
        decreases props@.len() - k,
    {
        let ghost before = all.take(k as int);
        assert(all.take(k + 1).drop_last() =~= before);
        assert(all.take(k + 1).last() == props@[k as int]@);
        match prop_info_outcome(props[k].as_str()) {
            None => {
                proof {
                    assert(props_reach_unknown_prefix(all.take(k + 1)));
                    lemma_props_reach_stays(all, k + 1);
                }
                return None;
            },
            Some(Err(e)) => {
                proof {
                    lemma_props_error_stays(all, k + 1);
                }
                return Some(Err(e));
            },
            Some(Ok(p)) => {
                let ghost old_out = out@;
                out.push(p);
                assert(prop_views(out@) =~= prop_views(old_out).push(p@));
            },
        }
        k = k + 1;
    }
    assert(all.take(all.len() as int) =~= all);
    Some(Ok(out))
}

/// Once reading the properties fails, reading more of them fails with the same error and reaches no
/// unknown prefix.
proof fn lemma_props_error_stays(all: Seq<Seq<char>>, k: int)
    requires
        0 <= k <= all.len(),
        props_info_of(all.take(k)) is Err,
        !props_reach_unknown_prefix(all.take(k)),
    ensures
        props_info_of(all) == props_info_of(all.take(k)),
        !props_reach_unknown_prefix(all),
    decreases all.len() - k,
{
    if k == all.len() {
        assert(all.take(k) =~= all);
    } else {
        assert(all.take(k + 1).drop_last() =~= all.take(k));
        lemma_props_error_stays(all, k + 1);
    }
}

/// The properties that the scraped texts describe, in order, or the first error.
pub fn props_info(props: &Vec<String>) -> (r: Result<Vec<PropInfo>, String>)
    requires
        !props_reach_unknown_prefix(views(props@)),
    ensures
        match r {
            Ok(ps) => props_info_of(views(props@)) == Ok::<Seq<PropInfoView>, Seq<char>>(prop_views(ps@)),
            Err(e) => props_info_of(views(props@)) == Err::<Seq<PropInfoView>, Seq<char>>(e@),
        },
{
    match checked_props_info(props) {
        Some(r) => r,
        None => {
            assert(false);
            Err(String::new())
        },
    }
}

} // verus!
