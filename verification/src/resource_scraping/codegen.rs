//! Rust source for the DTOs and builders of scraped resources.
use crate::resource_scraping::{PropInfo, PropInfoView};
use crate::text::{join, join_seq, views};
use vstd::prelude::*;

verus! {

/// What `snake_case` of the `change_case` crate makes of a name.
pub uninterp spec fn snake_case_of(name: Seq<char>) -> Seq<char>;

/// The name in snake case.
///
/// Calls `change_case::snake_case`, which splits the name into words and joins them in lower case
/// with `_`; the contract only names its result.
#[verifier::external_body]
fn snake_case(name: &str) -> (r: String)
    ensures
        r@ == snake_case_of(name@),
{
    change_case::snake_case(name)
}

/// The source of the enum that holds a resource's CloudFormation type.
pub open spec fn type_struct_source(type_enum_name: Seq<char>, resource_type: Seq<char>) -> Seq<char> {
    "\n        #[derive(Debug, Serialize, Deserialize)]\n        pub(crate) enum "@ + type_enum_name + " {\n            #[serde(rename = \""@ + resource_type + "\")]\n            "@ + type_enum_name + "\n        }\n    "@
}

/// The source of a resource's struct, with its reference struct and its methods.
pub open spec fn main_struct_source(struct_name: Seq<char>, type_enum_name: Seq<char>, properties_struct_name: Seq<char>) -> Seq<char> {
    "\n        ref_struct!("@ + struct_name + "Ref);\n        \n        #[derive(Debug, Serialize, Deserialize)]\n        pub struct "@ + struct_name + " {\n            #[serde(skip)]\n            pub(crate) id: Id,\n            #[serde(skip)]\n            pub(crate) resource_id: String,\n            #[serde(rename = \"Type\")]\n            pub(crate) r#type: "@ + type_enum_name + ",\n            #[serde(rename = \"Properties\")]\n            pub(crate) properties: "@ + properties_struct_name + "\n        }\n        dto_methods!("@ + struct_name + ");\n    "@
}

/// The sources that describe a resource itself: its type enum, then its struct.
pub open spec fn main_struct_sources(struct_name: Seq<char>, resource_type: Seq<char>, properties_struct_name: Seq<char>) -> Seq<Seq<char>> {
    seq![
        type_struct_source(struct_name + "Type"@, resource_type),
        main_struct_source(struct_name, struct_name + "Type"@, properties_struct_name),
    ]
}

/// The type enum and the struct of a resource.
pub fn main_struct(struct_name: &str, resource_type: &str, properties_struct_name: &str) -> (r: Vec<String>)
    ensures
        views(r@) == main_struct_sources(struct_name@, resource_type@, properties_struct_name@),
{
    let type_enum_name_string = crate::text::concat2(struct_name, "Type");
    let type_enum_name = type_enum_name_string.as_str();
    let mut out = String::from_str("\n        #[derive(Debug, Serialize, Deserialize)]\n        pub(crate) enum ");
    out.append(type_enum_name);
    out.append(" {\n            #[serde(rename = \"");
    out.append(resource_type);
    out.append("\")]\n            ");
    out.append(type_enum_name);
    out.append("\n        }\n    ");
    let code_for_type_struct = out;
    let mut out = String::from_str("\n        ref_struct!(");
    out.append(struct_name);
    out.append("Ref);\n        \n        #[derive(Debug, Serialize, Deserialize)]\n        pub struct ");
    out.append(struct_name);
    out.append(" {\n            #[serde(skip)]\n            pub(crate) id: Id,\n            #[serde(skip)]\n            pub(crate) resource_id: String,\n            #[serde(rename = \"Type\")]\n            pub(crate) r#type: ");
    out.append(type_enum_name);
    out.append(",\n            #[serde(rename = \"Properties\")]\n            pub(crate) properties: ");
    out.append(properties_struct_name);
    out.append("\n        }\n        dto_methods!(");
    out.append(struct_name);
    out.append(");\n    ");
    let code_for_main_struct = out;
    let mut sources: Vec<String> = Vec::new();
    sources.push(code_for_type_struct);
    sources.push(code_for_main_struct);
    assert(views(sources@) =~= main_struct_sources(struct_name@, resource_type@, properties_struct_name@));
    sources
}

/// The source of a property's field, with its serde attribute; optional properties are left out
/// of the JSON when they are missing.
pub open spec fn prop_source(p: PropInfoView) -> Seq<char> {
    if p.optional {
        "#[serde(rename = \""@ + p.name + "\", skip_serializing_if = \"Option::is_none\")]\npub(crate) "@ + snake_case_of(p.name) + ": Option<"@ + p.type_as_string + ">,"@
    } else {
        "#[serde(rename = \""@ + p.name + "\")]\npub(crate) "@ + snake_case_of(p.name) + ": "@ + p.type_as_string + ","@
    }
}

/// The sources of the properties' fields, in order.
pub open spec fn props_sources(ps: Seq<PropInfoView>) -> Seq<Seq<char>> {
    ps.map_values(|p: PropInfoView| prop_source(p))
}

/// The sources of the properties' fields, in order.
pub fn props(prop_infos: &Vec<PropInfo>) -> (r: Vec<String>)
    ensures
        views(r@) == props_sources(crate::resource_scraping::prop_views(prop_infos@)),
{
    let ghost all = crate::resource_scraping::prop_views(prop_infos@);
    let mut sources: Vec<String> = Vec::new();
    let mut k: usize = 0;
    while k < prop_infos.len()
        invariant
            all == crate::resource_scraping::prop_views(prop_infos@),
            k <= prop_infos@.len(),
            views(sources@) == props_sources(all.take(k as int)),
        decreases prop_infos@.len() - k,
    {
        let p = &prop_infos[k];
        let snake = snake_case(p.name.as_str());
        let source = if p.optional {
            let mut out = String::from_str("#[serde(rename = \"");
            out.append(p.name.as_str());
            out.append("\", skip_serializing_if = \"Option::is_none\")]\npub(crate) ");
            out.append(snake.as_str());
            out.append(": Option<");
            out.append(p.type_as_string.as_str());
            out.append(">,");
            out
        } else {
            let mut out = String::from_str("#[serde(rename = \"");
            out.append(p.name.as_str());
            out.append("\")]\npub(crate) ");
            out.append(snake.as_str());
            out.append(": ");
            out.append(p.type_as_string.as_str());
            out.append(",");
            out
        };
        let ghost before = sources@;
        sources.push(source);
        proof {
            assert(views(sources@) =~= views(before).push(source@));
            assert(all.take(k + 1) =~= all.take(k as int).push(all[k as int]));
            assert(props_sources(all.take(k + 1)) =~= props_sources(all.take(k as int)).push(prop_source(all[k as int])));
        }
        k = k + 1;
    }
    assert(all.take(all.len() as int) =~= all);
    sources
}

/// The declaration of a property's field in its builder, with what the documentation says of it.
pub open spec fn field_definition(p: PropInfoView) -> Seq<char> {
    if p.optional {
        snake_case_of(p.name) + ": Option<"@ + p.type_as_string + ">, // "@ + join_seq(p.comments, ", "@)
    } else {
        snake_case_of(p.name) + ": "@ + p.type_as_string + ", // "@ + join_seq(p.comments, ", "@)
    }
}

/// How the builder's constructor fills a property's field: optional ones start empty.
pub open spec fn field_init(p: PropInfoView) -> Seq<char> {
    if p.optional {
        snake_case_of(p.name) + ": None"@
    } else {
        snake_case_of(p.name)
    }
}

/// The constructor's parameters: one for each required property, in order.
pub open spec fn constructor_args(ps: Seq<PropInfoView>) -> Seq<Seq<char>>
    decreases ps.len(),
{
    if ps.len() == 0 {
        Seq::empty()
    } else {
        let p = ps.last();
        if p.optional {
            constructor_args(ps.drop_last())
        } else {
            constructor_args(ps.drop_last()).push(snake_case_of(p.name) + ": "@ + p.type_as_string)
        }
    }
}

/// The source of a setter of an optional property.
pub open spec fn optional_setter(p: PropInfoView) -> Seq<char> {
    "\n            pub fn "@ + snake_case_of(p.name) + "(self, "@ + snake_case_of(p.name) + ": "@ + p.type_as_string + ") -> Self {\n                Self {\n                    "@ + snake_case_of(p.name) + ": Some("@ + snake_case_of(p.name) + "),\n                    ..self\n                }\n            }\n            "@
}

/// The setters: one for each optional property, in order.
pub open spec fn optional_setters(ps: Seq<PropInfoView>) -> Seq<Seq<char>>
    decreases ps.len(),
{
    if ps.len() == 0 {
        Seq::empty()
    } else {
        let p = ps.last();
        if p.optional {
            optional_setters(ps.drop_last()).push(optional_setter(p))
        } else {
            optional_setters(ps.drop_last())
        }
    }
}

/// How `build` hands a property on.
pub open spec fn build_prop(p: PropInfoView) -> Seq<char> {
    snake_case_of(p.name) + ": self."@ + snake_case_of(p.name)
}

/// The source of `build`: a helper builds its value, a resource builds itself and returns its reference.
pub open spec fn build_method_source(struct_name: Seq<char>, props: Seq<char>, helper: bool) -> Seq<char> {
    if helper {
        "\n            pub fn build(self) -> "@ + struct_name + " {\n                "@ + struct_name + " {\n                    "@ + props + "\n                }\n            }\n        "@
    } else {
        "\n            pub fn build(self, stack_builder: &mut StackBuilder) -> "@ + struct_name + "Ref {\n                let resource_id = Resource::generate_id(\""@ + struct_name + "\");           \n                \n                let resource = "@ + struct_name + " {\n                     id: self.id,\n                     resource_id: resource_id.clone(),\n                     r#type: "@ + struct_name + "Type::"@ + struct_name + "Type,\n                     properties: "@ + struct_name + "Properties {\n                         "@ + props + "\n                     },\n                };\n                // stack_builder.add_resource(resource); // TODO add to Resource enum to activate!\n                \n                "@ + struct_name + "Ref::internal_new(resource_id)\n            }\n        "@
    }
}

/// `pieces`, with `first` before them for a resource.
pub open spec fn with_id(pieces: Seq<Seq<char>>, first: Seq<char>, helper: bool) -> Seq<Seq<char>> {
    if helper {
        pieces
    } else {
        seq![first] + pieces
    }
}

/// The source of a builder for a resource or a helper with the properties `ps`.
pub open spec fn builder_source(struct_name: Seq<char>, ps: Seq<PropInfoView>, helper: bool) -> Seq<char> {
    let defs = join_seq(with_id(ps.map_values(|p: PropInfoView| field_definition(p)), "id: Id,"@, helper), "\n"@);
    let args = join_seq(with_id(constructor_args(ps), "id: &str"@, helper), ","@);
    let inits = join_seq(with_id(ps.map_values(|p: PropInfoView| field_init(p)), "id: Id(id.to_string())"@, helper), ",\n"@);
    let setters = join_seq(optional_setters(ps), "\n"@);
    let build = build_method_source(struct_name, join_seq(ps.map_values(|p: PropInfoView| build_prop(p)), ",\n"@), helper);
    "\n        pub struct "@ + struct_name + "Builder {\n            "@ + defs + "\n        }\n        \n        impl "@ + struct_name + "Builder {\n            pub fn new("@ + args + ") -> Self {\n                Self {\n                    "@ + inits + "\n                }\n            }\n            \n            "@ + setters + "\n            \n            "@ + build + "\n        }\n    "@
}

/// The source of a builder for a resource or, where `helper` holds, for a helper.
pub fn builder(struct_name: &str, props: &Vec<PropInfo>, helper: bool) -> (r: String)
    ensures
        r@ == builder_source(struct_name@, crate::resource_scraping::prop_views(props@), helper),
{
    let ghost all = crate::resource_scraping::prop_views(props@);
    let mut definitions: Vec<String> = Vec::new();
    let mut initializers: Vec<String> = Vec::new();
    let mut arguments: Vec<String> = Vec::new();
    let mut setter_sources: Vec<String> = Vec::new();
    let mut build_props: Vec<String> = Vec::new();
    if !helper {
        definitions.push(String::from_str("id: Id,"));
        initializers.push(String::from_str("id: Id(id.to_string())"));
        arguments.push(String::from_str("id: &str"));
    }
    let ghost id_defs = views(definitions@);
    let ghost id_inits = views(initializers@);
    let ghost id_args = views(arguments@);
    assert(all.take(0) =~= Seq::<PropInfoView>::empty());
    let mut k: usize = 0;
    while k < props.len()
        invariant
            all == crate::resource_scraping::prop_views(props@),
            k <= props@.len(),
            id_defs == with_id(Seq::empty(), "id: Id,"@, helper),
            id_inits == with_id(Seq::empty(), "id: Id(id.to_string())"@, helper),
            id_args == with_id(Seq::empty(), "id: &str"@, helper),
            views(definitions@) == id_defs + all.take(k as int).map_values(|p: PropInfoView| field_definition(p)),
            views(initializers@) == id_inits + all.take(k as int).map_values(|p: PropInfoView| field_init(p)),
            views(arguments@) == id_args + constructor_args(all.take(k as int)),
            views(setter_sources@) == optional_setters(all.take(k as int)),
            views(build_props@) == all.take(k as int).map_values(|p: PropInfoView| build_prop(p)),
        decreases props@.len() - k,
    {
        let p = &props[k];
        let ghost pv = all[k as int];
        assert(pv == p@);
        let snake = snake_case(p.name.as_str());
        let comments = join(&p.comments, ", ");
        let definition = if p.optional {
            let mut out = String::from_str(snake.as_str());
            out.append(": Option<");
            out.append(p.type_as_string.as_str());
            out.append(">, // ");
            out.append(comments.as_str());
            out
        } else {
            let mut out = String::from_str(snake.as_str());
            out.append(": ");
            out.append(p.type_as_string.as_str());
            out.append(", // ");
            out.append(comments.as_str());
            out
        };
        let initializer = if p.optional {
            let mut out = String::from_str(snake.as_str());
            out.append(": None");
            out
        } else {
            snake.clone()
        };
        let ghost before_args = arguments@;
        let ghost before_setters = setter_sources@;
        if !p.optional {
            let mut out = String::from_str(snake.as_str());
            out.append(": ");
            out.append(p.type_as_string.as_str());
            arguments.push(out);
        } else {
            let mut out = String::from_str("\n            pub fn ");
            out.append(snake.as_str());
            out.append("(self, ");
            out.append(snake.as_str());
            out.append(": ");
            out.append(p.type_as_string.as_str());
            out.append(") -> Self {\n                Self {\n                    ");
            out.append(snake.as_str());
            out.append(": Some(");
            out.append(snake.as_str());
            out.append("),\n                    ..self\n                }\n            }\n            ");
            setter_sources.push(out);
        }
        let mut out = String::from_str(snake.as_str());
        out.append(": self.");
        out.append(snake.as_str());
        let ghost before_defs = definitions@;
        let ghost before_inits = initializers@;
        let ghost before_build = build_props@;
        definitions.push(definition);
        initializers.push(initializer);
        build_props.push(out);
        proof {
            let t = all.take(k as int);
            let t1 = all.take(k + 1);
            assert(t1.drop_last() =~= t);
            assert(t1.last() == pv);
            assert(t1 =~= t.push(pv));
            assert(views(definitions@) =~= views(before_defs).push(definition@));
            assert(views(initializers@) =~= views(before_inits).push(initializer@));
            assert(views(build_props@) =~= views(before_build).push(out@));
            assert(t1.map_values(|p: PropInfoView| field_definition(p)) =~= t.map_values(|p: PropInfoView| field_definition(p)).push(field_definition(pv)));
            assert(t1.map_values(|p: PropInfoView| field_init(p)) =~= t.map_values(|p: PropInfoView| field_init(p)).push(field_init(pv)));
            assert(t1.map_values(|p: PropInfoView| build_prop(p)) =~= t.map_values(|p: PropInfoView| build_prop(p)).push(build_prop(pv)));
            if !pv.optional {
                assert(views(arguments@) =~= views(before_args).push(arguments@.last()@));
            } else {
                assert(views(setter_sources@) =~= views(before_setters).push(setter_sources@.last()@));
            }
        }
        k = k + 1;
    }
    assert(all.take(all.len() as int) =~= all);
    proof {
        assert(with_id(all.map_values(|p: PropInfoView| field_definition(p)), "id: Id,"@, helper) =~= views(definitions@));
        assert(with_id(all.map_values(|p: PropInfoView| field_init(p)), "id: Id(id.to_string())"@, helper) =~= views(initializers@));
        assert(with_id(constructor_args(all), "id: &str"@, helper) =~= views(arguments@));
    }
    let defs = join(&definitions, "\n");
    let args = join(&arguments, ",");
    let inits = join(&initializers, ",\n");
    let setters = join(&setter_sources, "\n");
    let props_joined = join(&build_props, ",\n");
    let props_text = props_joined.as_str();
    let build = if helper {
        let mut out = String::from_str("\n            pub fn build(self) -> ");
        out.append(struct_name);
        out.append(" {\n                ");
        out.append(struct_name);
        out.append(" {\n                    ");
        out.append(props_text);
        out.append("\n                }\n            }\n        ");
        out
    } else {
        let mut out = String::from_str("\n            pub fn build(self, stack_builder: &mut StackBuilder) -> ");
        out.append(struct_name);
        out.append("Ref {\n                let resource_id = Resource::generate_id(\"");
        out.append(struct_name);
        out.append("\");           \n                \n                let resource = ");
        out.append(struct_name);
        out.append(" {\n                     id: self.id,\n                     resource_id: resource_id.clone(),\n                     r#type: ");
        out.append(struct_name);
        out.append("Type::");
        out.append(struct_name);
        out.append("Type,\n                     properties: ");
        out.append(struct_name);
        out.append("Properties {\n                         ");
        out.append(props_text);
        out.append("\n                     },\n                };\n                // stack_builder.add_resource(resource); // TODO add to Resource enum to activate!\n                \n                ");
        out.append(struct_name);
        out.append("Ref::internal_new(resource_id)\n            }\n        ");
        out
    };
    let mut out = String::from_str("\n        pub struct ");
    out.append(struct_name);
    out.append("Builder {\n            ");
    out.append(defs.as_str());
    out.append("\n        }\n        \n        impl ");
    out.append(struct_name);
    out.append("Builder {\n            pub fn new(");
    out.append(args.as_str());
    out.append(") -> Self {\n                Self {\n                    ");
    out.append(inits.as_str());
    out.append("\n                }\n            }\n            \n            ");
    out.append(setters.as_str());
    out.append("\n            \n            ");
    out.append(build.as_str());
    out.append("\n        }\n    ");
    out
}

} // verus!
