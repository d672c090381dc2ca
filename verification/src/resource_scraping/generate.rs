//! The sources of a group of resources, generated from the scraped lines that describe it: the
//! DTOs, the builders, and the module that holds them.
use crate::resource_scraping::{
    builder, builder_source, checked_props_info, first_field, is_helper, is_helper_line, main_struct,
    main_struct_sources, props, props_info_of, props_reach_unknown_prefix, props_sources,
};
use crate::text::{
    concat2, concat3, join, join_seq, lemma_split_str_nonempty, split_char, split_seq, split_str, split_str_seq,
    vec_contains, views,
};
use vstd::prelude::*;

verus! {

/// What `str::to_lowercase` of std makes of a text.
pub uninterp spec fn lowercase_of(text: Seq<char>) -> Seq<char>;

/// The text in lower case.
///
/// Calls `str::to_lowercase`, which maps each character to its lower case as Unicode defines it;
/// the contract only names the result.
#[verifier::external_body]
fn to_lowercase(text: &str) -> (r: String)
    ensures
        r@ == lowercase_of(text@),
{
    text.to_lowercase()
}

/// The imports at the head of the DTO file.
pub open spec fn dto_imports() -> Seq<char> {
    "use serde::{Deserialize, Serialize};\n        use serde_json::Value;\n        use crate::{dto_methods, ref_struct};\n        use crate::shared::Id;\n    "@
}

/// The source of a helper's struct with the given fields.
pub open spec fn helper_struct_source(name: Seq<char>, fields: Seq<char>) -> Seq<char> {
    "\n                    #[derive(Debug, Serialize, Deserialize)]\n                    pub struct "@ + name + " {\n                        "@ + fields + "\n                    }\n                "@
}

/// The source of a resource's properties struct with the given fields.
pub open spec fn properties_struct_source(name: Seq<char>, fields: Seq<char>) -> Seq<char> {
    "\n                #[derive(Debug, Serialize, Deserialize)]\n                pub struct "@ + name + " {\n                    "@ + fields + "\n                }\n            "@
}

/// The note written where a helper's name comes a second time.
pub open spec fn duplicate_helper_note(name: Seq<char>) -> Seq<char> {
    "// TODO encountered a helper with name "@ + name + " but one already exists - check whether they match"@
}

/// What generating has gathered: the names of the resources and helpers handled, the group's name,
/// and the pieces of the DTO and builder files.
pub struct GenState {
    pub resource_names: Seq<Seq<char>>,
    pub helper_names: Seq<Seq<char>>,
    pub group: Option<Seq<char>>,
    pub dto: Seq<Seq<char>>,
    pub builders: Seq<Seq<char>>,
}

/// Nothing handled yet; the DTO file starts with its imports.
pub open spec fn gen_start() -> GenState {
    GenState {
        resource_names: Seq::empty(),
        helper_names: Seq::empty(),
        group: None,
        dto: seq![dto_imports()],
        builders: Seq::empty(),
    }
}

/// The fields of a scraped line after its first: the descriptions of its properties.
pub open spec fn prop_fields(line: Seq<char>) -> Seq<Seq<char>> {
    split_str_seq(line, ";"@).drop_first()
}

/// The name a helper gets: its own, or, where a resource has that name, its own behind the last
/// part of its AWS prefix.
pub open spec fn helper_name(st: GenState, parts: Seq<Seq<char>>) -> Seq<char> {
    if st.resource_names.contains(parts[1]) {
        split_str_seq(parts[0], "::"@).last() + parts[1]
    } else {
        parts[1]
    }
}

/// One helper line. A name already handled leaves a note in both files; a new one adds its struct
/// and its builder.
pub open spec fn helper_step(st: GenState, line: Seq<char>) -> Result<GenState, Seq<char>> {
    let parts = split_seq(first_field(line), ' ');
    if parts.len() < 2 {
        Err("helper should contain a name for the struct behind a space"@)
    } else if st.helper_names.contains(parts[1]) {
        Ok(
            GenState {
                dto: st.dto.push(duplicate_helper_note(parts[1])),
                builders: st.builders.push(duplicate_helper_note(parts[1]) + "\n"@),
                ..st
            },
        )
    } else {
        let name = helper_name(st, parts);
        match props_info_of(prop_fields(line)) {
            Err(e) => Err(e),
            Ok(ps) => Ok(
                GenState {
                    helper_names: st.helper_names.push(name),
                    dto: st.dto.push(helper_struct_source(name, join_seq(props_sources(ps), "\n"@))),
                    builders: st.builders.push(builder_source(name, ps, true)),
                    ..st
                },
            ),
        }
    }
}

/// The generator stops at this helper line: at a property whose type has an unknown prefix.
pub open spec fn helper_step_stops(st: GenState, line: Seq<char>) -> bool {
    let parts = split_seq(first_field(line), ' ');
    &&& parts.len() >= 2
    &&& !st.helper_names.contains(parts[1])
    &&& props_reach_unknown_prefix(prop_fields(line))
}

/// One resource line. The first names the group (the second part of its type); each adds its type
/// enum, struct, properties struct and builder, under the last part of its type.
pub open spec fn resource_step(st: GenState, line: Seq<char>) -> Result<GenState, Seq<char>> {
    let rt = first_field(line);
    let parts = split_str_seq(rt, "::"@);
    if st.group is None && parts.len() < 2 {
        Err("resource type should have three parts after splitting"@)
    } else if st.group is None && parts.len() < 3 {
        Err("resource type should contain a name for the struct"@)
    } else {
        let name = parts.last();
        let properties_name = name + "Properties"@;
        match props_info_of(prop_fields(line)) {
            Err(e) => Err(e),
            Ok(ps) => Ok(
                GenState {
                    resource_names: st.resource_names.push(name),
                    helper_names: st.helper_names,
                    group: if st.group is None {
                        Some(parts[1])
                    } else {
                        st.group
                    },
                    dto: st.dto + main_struct_sources(name, rt, properties_name).push(
                        properties_struct_source(properties_name, join_seq(props_sources(ps), "\n"@)),
                    ),
                    builders: st.builders.push(builder_source(name, ps, false)),
                },
            ),
        }
    }
}

/// The generator stops at this resource line: at a property whose type has an unknown prefix.
pub open spec fn resource_step_stops(st: GenState, line: Seq<char>) -> bool {
    let parts = split_str_seq(first_field(line), "::"@);
    &&& !(st.group is None && parts.len() < 3)
    &&& props_reach_unknown_prefix(prop_fields(line))
}

/// One line: empty lines are skipped, the others describe a helper or a resource.
#[verifier::opaque]
pub open spec fn gen_step(st: GenState, line: Seq<char>) -> Result<GenState, Seq<char>> {
    if line.len() == 0 {
        Ok(st)
    } else if is_helper_line(Some(line)) {
        helper_step(st, line)
    } else {
        resource_step(st, line)
    }
}

/// The generator stops at this line.
#[verifier::opaque]
pub open spec fn gen_step_stops(st: GenState, line: Seq<char>) -> bool {
    &&& line.len() > 0
    &&& if is_helper_line(Some(line)) {
        helper_step_stops(st, line)
    } else {
        resource_step_stops(st, line)
    }
}

/// What generating gathers from the lines, in order; the first error ends it.
pub open spec fn gen_state(lines: Seq<Seq<char>>) -> Result<GenState, Seq<char>>
    decreases lines.len(),
{
    if lines.len() == 0 {
        Ok(gen_start())
    } else {
        match gen_state(lines.drop_last()) {
            Err(e) => Err(e),
            Ok(st) => gen_step(st, lines.last()),
        }
    }
}

/// The generator stops at one of the lines, before any error.
pub open spec fn gen_stops(lines: Seq<Seq<char>>) -> bool
    decreases lines.len(),
{
    &&& lines.len() > 0
    &&& {
        ||| gen_stops(lines.drop_last())
        ||| gen_state(lines.drop_last()) matches Ok(st) && gen_step_stops(st, lines.last())
    }
}

/// For each resource, the names that the builders import: its struct, reference, type enum and
/// properties struct.
pub open spec fn resource_imports(names: Seq<Seq<char>>) -> Seq<Seq<char>>
    decreases names.len(),
{
    if names.len() == 0 {
        Seq::empty()
    } else {
        let v = names.last();
        resource_imports(names.drop_last()) + seq![v, v + "Ref"@, v + "Type"@, v + "Properties"@]
    }
}

/// The imports at the head of the builder file of the module `module_name`.
pub open spec fn builder_imports(module_name: Seq<char>, st: GenState) -> Seq<Seq<char>> {
    seq![
        "use crate::"@ + module_name + "::{ "@ + join_seq(resource_imports(st.resource_names), ","@) + " };"@,
        "use crate::"@ + module_name + "::{ "@ + join_seq(st.helper_names, ", "@) + " };"@,
        "use crate::shared::Id;"@,
        "use serde_json::Value;"@,
        "use crate::stack::{Resource, StackBuilder};"@,
    ]
}

/// The root of a generated module.
pub open spec fn module_source() -> Seq<char> {
    "mod dto;\nmod builder;\n\npub use dto::*;\npub use builder::*;"@
}

/// The files of a generated group: the module's name (the group's name in lower case), its root,
/// the DTOs and the builders.
pub struct GroupSources {
    pub module_name: String,
    pub module: String,
    pub dto: String,
    pub builder: String,
}

/// What a [`GroupSources`] holds, as sequences of characters.
pub struct GroupSourcesView {
    pub module_name: Seq<char>,
    pub module: Seq<char>,
    pub dto: Seq<char>,
    pub builder: Seq<char>,
}

impl View for GroupSources {
    type V = GroupSourcesView;

    open spec fn view(&self) -> GroupSourcesView {
        GroupSourcesView { module_name: self.module_name@, module: self.module@, dto: self.dto@, builder: self.builder@ }
    }
}

/// The files made from what was gathered; none where no resource named the group.
pub open spec fn group_sources_of(st: GenState) -> Option<GroupSourcesView> {
    match st.group {
        None => None,
        Some(g) => Some(
            GroupSourcesView {
                module_name: lowercase_of(g),
                module: module_source(),
                dto: join_seq(st.dto, ""@),
                builder: join_seq(builder_imports(lowercase_of(g), st) + st.builders, "\n"@),
            },
        ),
    }
}

/// The view of generated files, where there are any.
pub open spec fn sources_view(o: Option<GroupSources>) -> Option<GroupSourcesView> {
    match o {
        Some(s) => Some(s@),
        None => None,
    }
}

/// What generating has gathered so far.
pub struct Generation {
    pub resource_names: Vec<String>,
    pub helper_names: Vec<String>,
    pub group: Option<String>,
    pub dto: Vec<String>,
    pub builders: Vec<String>,
}

impl View for Generation {
    type V = GenState;

    open spec fn view(&self) -> GenState {
        GenState {
            resource_names: views(self.resource_names@),
            helper_names: views(self.helper_names@),
            group: match self.group {
                Some(g) => Some(g@),
                None => None,
            },
            dto: views(self.dto@),
            builders: views(self.builders@),
        }
    }
}

/// The fields of a line after its first, with the first.
fn split_line(line: &str) -> (r: (String, Vec<String>))
    ensures
        r.0@ == first_field(line@),
        views(r.1@) == prop_fields(line@),
{
    proof {
        reveal_strlit(";");
        lemma_split_str_nonempty(line@, ";"@);
    }
    let mut fields = split_str(line, ";");
    let rest = fields.split_off(1);
    assert(views(rest@) =~= split_str_seq(line@, ";"@).drop_first());
    let first = fields[0].clone();
    (first, rest)
}

/// The fields of properties' sources, one a line.
fn fields_source(ps: &Vec<crate::resource_scraping::PropInfo>) -> (r: String)
    ensures
        r@ == join_seq(props_sources(crate::resource_scraping::prop_views(ps@)), "\n"@),
{
    let sources = props(ps);
    join(&sources, "\n")
}

/// Applies one helper line.
fn apply_helper(g: &mut Generation, line: &str) -> (r: Option<Result<(), String>>)
    ensures
        r is None <==> helper_step_stops(old(g)@, line@),
        r matches Some(res) ==> match res {
            Ok(_) => helper_step(old(g)@, line@) == Ok::<GenState, Seq<char>>(final(g)@),
            Err(e) => helper_step(old(g)@, line@) == Err::<GenState, Seq<char>>(e@),
        },
{
    let (first, rest) = split_line(line);
    let parts = split_char(first.as_str(), ' ');
    if parts.len() < 2 {
        return Some(Err(String::from_str("helper should contain a name for the struct behind a space")));
    }
    let ghost st = g@;
    let own = parts[1].as_str();
    if vec_contains(&g.helper_names, own) {
        let note = concat3("// TODO encountered a helper with name ", own, " but one already exists - check whether they match");
        let note_line = concat2(note.as_str(), "\n");
        let ghost (dto0, builders0) = (g.dto@, g.builders@);
        g.dto.push(note);
        g.builders.push(note_line);
        assert(views(g.dto@) =~= views(dto0).push(note@));
        assert(views(g.builders@) =~= views(builders0).push(note_line@));
        return Some(Ok(()));
    }
    let name = if vec_contains(&g.resource_names, own) {
        proof {
            reveal_strlit("::");
            lemma_split_str_nonempty(parts@[0]@, "::"@);
        }
        let prefix_parts = split_str(parts[0].as_str(), "::");
        let last = prefix_parts.len() - 1;
        concat2(prefix_parts[last].as_str(), own)
    } else {
        String::from_str(own)
    };
    assert(name@ == helper_name(st, split_seq(first_field(line@), ' ')));
    match checked_props_info(&rest) {
        None => None,
        Some(Err(e)) => Some(Err(e)),
        Some(Ok(ps)) => {
            let fields = fields_source(&ps);
            let mut src = String::from_str(
                "\n                    #[derive(Debug, Serialize, Deserialize)]\n                    pub struct ",
            );
            src.append(name.as_str());
            src.append(" {\n                        ");
            src.append(fields.as_str());
            src.append("\n                    }\n                ");
            let built = builder(name.as_str(), &ps, true);
            let ghost (names0, dto0, builders0) = (g.helper_names@, g.dto@, g.builders@);
            g.helper_names.push(name);
            g.dto.push(src);
            g.builders.push(built);
            assert(views(g.helper_names@) =~= views(names0).push(name@));
            assert(views(g.dto@) =~= views(dto0).push(src@));
            assert(views(g.builders@) =~= views(builders0).push(built@));
            Some(Ok(()))
        },
    }
}

/// Applies one resource line.
fn apply_resource(g: &mut Generation, line: &str) -> (r: Option<Result<(), String>>)
    ensures
        r is None <==> resource_step_stops(old(g)@, line@),
        r matches Some(res) ==> match res {
            Ok(_) => resource_step(old(g)@, line@) == Ok::<GenState, Seq<char>>(final(g)@),
            Err(e) => resource_step(old(g)@, line@) == Err::<GenState, Seq<char>>(e@),
        },
{
    let (first, rest) = split_line(line);
    proof {
        reveal_strlit("::");
        lemma_split_str_nonempty(first@, "::"@);
    }
    let parts = split_str(first.as_str(), "::");
    let unnamed = g.group.is_none();
    if unnamed && parts.len() < 2 {
        return Some(Err(String::from_str("resource type should have three parts after splitting")));
    }
    if unnamed && parts.len() < 3 {
        return Some(Err(String::from_str("resource type should contain a name for the struct")));
    }
    let name = parts[parts.len() - 1].clone();
    match checked_props_info(&rest) {
        None => None,
        Some(Err(e)) => Some(Err(e)),
        Some(Ok(ps)) => {
            let properties_name = concat2(name.as_str(), "Properties");
            let mut sources = main_struct(name.as_str(), first.as_str(), properties_name.as_str());
            let fields = fields_source(&ps);
            let mut src = String::from_str("\n                #[derive(Debug, Serialize, Deserialize)]\n                pub struct ");
            src.append(properties_name.as_str());
            src.append(" {\n                    ");
            src.append(fields.as_str());
            src.append("\n                }\n            ");
            let ghost main_sources = sources@;
            sources.push(src);
            assert(views(sources@) =~= views(main_sources).push(src@));
            let built = builder(name.as_str(), &ps, false);
            let ghost (names0, dto0, builders0) = (g.resource_names@, g.dto@, g.builders@);
            if unnamed {
                g.group = Some(parts[1].clone());
            }
            g.resource_names.push(name);
            g.dto.append(&mut sources);
            g.builders.push(built);
            assert(views(g.resource_names@) =~= views(names0).push(name@));
            assert(views(g.dto@) =~= views(dto0) + views(main_sources).push(src@));
            assert(views(g.builders@) =~= views(builders0).push(built@));
            Some(Ok(()))
        },
    }
}

/// Applies one line: empty lines are skipped.
fn apply_line(g: &mut Generation, line: &str) -> (r: Option<Result<(), String>>)
    ensures
        r is None <==> gen_step_stops(old(g)@, line@),
        r matches Some(res) ==> match res {
            Ok(_) => gen_step(old(g)@, line@) == Ok::<GenState, Seq<char>>(final(g)@),
            Err(e) => gen_step(old(g)@, line@) == Err::<GenState, Seq<char>>(e@),
        },
{
    reveal(gen_step);
    reveal(gen_step_stops);
    if line.unicode_len() == 0 {
        Some(Ok(()))
    } else if is_helper(Some(line)) {
        apply_helper(g, line)
    } else {
        apply_resource(g, line)
    }
}

/// The imports of the builders of the resources `names`.
fn resource_import_names(names: &Vec<String>) -> (r: Vec<String>)
    ensures
        views(r@) == resource_imports(views(names@)),
{
    let ghost all = views(names@);
    let mut out: Vec<String> = Vec::new();
    let mut k: usize = 0;
    assert(all.take(0) =~= Seq::<Seq<char>>::empty());
    while k < names.len()
        invariant
            all == views(names@),
            k <= names@.len(),
            views(out@) == resource_imports(all.take(k as int)),
        decreases names@.len() - k,
    {
        let v = names[k].as_str();
        let ghost before = out@;
        assert(all.take(k + 1).drop_last() =~= all.take(k as int));
        assert(all.take(k + 1).last() == v@);
        out.push(String::from_str(v));
        out.push(concat2(v, "Ref"));
        out.push(concat2(v, "Type"));
        out.push(concat2(v, "Properties"));
        assert(views(out@) =~= views(before) + seq![v@, v@ + "Ref"@, v@ + "Type"@, v@ + "Properties"@]);
        k = k + 1;
    }
    assert(all.take(all.len() as int) =~= all);
    out
}

/// The files made from what was gathered.
fn finish(g: &Generation) -> (r: Option<GroupSources>)
    ensures
        sources_view(r) == group_sources_of(g@),
{
    match &g.group {
        None => None,
        Some(group) => {
            let module_name = to_lowercase(group.as_str());
            let imports = resource_import_names(&g.resource_names);
            let mut first = String::from_str("use crate::");
            first.append(module_name.as_str());
            first.append("::{ ");
            first.append(join(&imports, ",").as_str());
            first.append(" };");
            let mut second = String::from_str("use crate::");
            second.append(module_name.as_str());
            second.append("::{ ");
            second.append(join(&g.helper_names, ", ").as_str());
            second.append(" };");
            let mut lines: Vec<String> = Vec::new();
            lines.push(first);
            lines.push(second);
            lines.push(String::from_str("use crate::shared::Id;"));
            lines.push(String::from_str("use serde_json::Value;"));
            lines.push(String::from_str("use crate::stack::{Resource, StackBuilder};"));
            let ghost head = lines@;
            assert(views(head) =~= builder_imports(module_name@, g@));
            let mut k: usize = 0;
            while k < g.builders.len()
                invariant
                    k <= g.builders@.len(),
                    views(lines@) == views(head) + views(g.builders@).take(k as int),
                decreases g.builders@.len() - k,
            {
                let ghost before = lines@;
                lines.push(g.builders[k].clone());
                assert(views(g.builders@).take(k + 1) =~= views(g.builders@).take(k as int).push(g.builders@[k as int]@));
                assert(views(lines@) =~= views(before).push(g.builders@[k as int]@));
                k = k + 1;
            }
            assert(views(g.builders@).take(g.builders@.len() as int) =~= views(g.builders@));
            let builder_file = join(&lines, "\n");
            let dto_file = join(&g.dto, "");
            Some(
                GroupSources {
                    module_name,
                    module: String::from_str("mod dto;\nmod builder;\n\npub use dto::*;\npub use builder::*;"),
                    dto: dto_file,
                    builder: builder_file,
                },
            )
        },
    }
}

/// The sources of the group of resources that the scraped lines describe (one resource or helper a
/// line, empty lines skipped): `None` where the generator stops at a property type with an unknown
/// prefix; else the files, none where no resource names the group, or the first error.
pub fn generate_group(contents: &str) -> (r: Option<Result<Option<GroupSources>, String>>)
    ensures
        r is None <==> gen_stops(split_seq(contents@, '\n')),
        r matches Some(res) ==> match res {
            Ok(out) => gen_state(split_seq(contents@, '\n')) matches Ok(st) && sources_view(out)
                == group_sources_of(st),
            Err(e) => gen_state(split_seq(contents@, '\n')) == Err::<GenState, Seq<char>>(e@),
        },
{
    let lines = split_char(contents, '\n');
    let ghost all = views(lines@);
    let mut g = Generation {
        resource_names: Vec::new(),
        helper_names: Vec::new(),
        group: None,
        dto: Vec::new(),
        builders: Vec::new(),
    };
    g.dto.push(String::from_str(
        "use serde::{Deserialize, Serialize};\n        use serde_json::Value;\n        use crate::{dto_methods, ref_struct};\n        use crate::shared::Id;\n    ",
    ));
    assert(g@ == gen_start()) by {
        assert(views(g.dto@) =~= seq![dto_imports()]);
        assert(views(g.resource_names@) =~= Seq::<Seq<char>>::empty());
        assert(views(g.helper_names@) =~= Seq::<Seq<char>>::empty());
        assert(views(g.builders@) =~= Seq::<Seq<char>>::empty());
    }
    assert(all.take(0) =~= Seq::<Seq<char>>::empty());
    let mut k: usize = 0;
    while k < lines.len()
        invariant
            all == views(lines@),
            all == split_seq(contents@, '\n'),
            k <= lines@.len(),
            gen_state(all.take(k as int)) == Ok::<GenState, Seq<char>>(g@),
            !gen_stops(all.take(k as int)),
        decreases lines@.len() - k,
    {
        let ghost before = g@;
        assert(all.take(k + 1).drop_last() =~= all.take(k as int));
        assert(all.take(k + 1).last() == lines@[k as int]@);
        match apply_line(&mut g, lines[k].as_str()) {
            None => {
                proof {
                    assert(gen_stops(all.take(k + 1)));
                    lemma_stops_stay(all, k + 1);
                }
                return None;
            },
            Some(Err(e)) => {
                proof {
                    assert(!gen_stops(all.take(k + 1)));
                    lemma_gen_error_stays(all, k + 1);
                }
                return Some(Err(e));
            },
            Some(Ok(())) => {},
        }
        k = k + 1;
    }
    assert(all.take(all.len() as int) =~= all);
    Some(Ok(finish(&g)))
}

/// Once the generator stops, it stops on longer input too.
proof fn lemma_stops_stay(all: Seq<Seq<char>>, k: int)
    requires
        0 <= k <= all.len(),
        gen_stops(all.take(k)),
    ensures
        gen_stops(all),
    decreases all.len() - k,
{
    if k == all.len() {
        assert(all.take(k) =~= all);
    } else {
        assert(all.take(k + 1).drop_last() =~= all.take(k));
        lemma_stops_stay(all, k + 1);
    }
}

/// Once generating fails, it fails with the same error on longer input, and does not stop.
proof fn lemma_gen_error_stays(all: Seq<Seq<char>>, k: int)
    requires
        0 <= k <= all.len(),
        gen_state(all.take(k)) is Err,
        !gen_stops(all.take(k)),
    ensures
        gen_state(all) == gen_state(all.take(k)),
        !gen_stops(all),
    decreases all.len() - k,
{
    if k == all.len() {
        assert(all.take(k) =~= all);
    } else {
        assert(all.take(k + 1).drop_last() =~= all.take(k));
        lemma_gen_error_stays(all, k + 1);
    }
}

/// The head of a file of DTOs alone, one piece a line.
pub open spec fn dto_file_head() -> Seq<Seq<char>> {
    seq![
        "use serde::{Deserialize, Serialize};"@,
        "use serde_json::Value;"@,
        "use crate::{dto_methods, ref_struct};"@,
        "use crate::shared::Id;"@,
        ""@,
    ]
}

/// The pieces of the DTOs of one resource, one a line: its type enum, its struct, and an empty
/// properties struct.
pub open spec fn dto_pieces(name: Seq<char>, resource_type: Seq<char>) -> Seq<Seq<char>> {
    let type_enum_name = name + "Type"@;
    let properties_name = name + "Properties"@;
    seq![
        "#[derive(Debug, Serialize, Deserialize)]"@,
        "pub(crate) enum "@ + type_enum_name + " {"@,
        "#[serde(rename = \""@ + resource_type + "\")]"@,
        type_enum_name + " }"@,
        "\nref_struct!("@ + name + "Ref);"@,
        "\n#[derive(Debug, Serialize, Deserialize)]"@,
        "pub struct "@ + name + " {"@,
        "#[serde(skip)]\npub(crate) id: Id,\n#[serde(skip)]\npub(crate) resource_id: String,"@,
        "#[serde(rename = \"Type\")]"@,
        "pub(crate) r#type: "@ + type_enum_name + ","@,
        "#[serde(rename = \"Properties\")]"@,
        "pub(crate) properties: "@ + properties_name + " }"@,
        "\ndto_methods!("@ + name + ");"@,
        "\n#[derive(Debug, Serialize, Deserialize)]\npub struct "@ + properties_name + " {"@,
        "}\n"@,
    ]
}

/// What the DTO generator has after the lines, in order: whether a resource came yet, and the
/// pieces; or the first error. The first resource's type needs three parts; each resource is named
/// by the last part of its type; empty lines are skipped.
pub open spec fn dto_fold(lines: Seq<Seq<char>>) -> Result<(bool, Seq<Seq<char>>), Seq<char>>
    decreases lines.len(),
{
    if lines.len() == 0 {
        Ok((false, dto_file_head()))
    } else {
        match dto_fold(lines.drop_last()) {
            Err(e) => Err(e),
            Ok((named, pieces)) => {
                let line = lines.last();
                let rt = first_field(line);
                let parts = split_str_seq(rt, "::"@);
                if line.len() == 0 {
                    Ok((named, pieces))
                } else if !named && parts.len() < 3 {
                    Err("resource type should contain a name for the struct"@)
                } else {
                    Ok((true, pieces + dto_pieces(parts.last(), rt)))
                }
            },
        }
    }
}

/// The DTO file for the resources that the scraped lines describe, or the first error.
pub fn dto_module_source(contents: &str) -> (r: Result<String, String>)
    ensures
        match r {
            Ok(text) => dto_fold(split_seq(contents@, '\n')) matches Ok((_, pieces)) && text@ == join_seq(
                pieces,
                "\n"@,
            ),
            Err(e) => dto_fold(split_seq(contents@, '\n')) == Err::<(bool, Seq<Seq<char>>), Seq<char>>(e@),
        },
{
    let lines = split_char(contents, '\n');
    let ghost all = views(lines@);
    let mut pieces: Vec<String> = Vec::new();
    pieces.push(String::from_str("use serde::{Deserialize, Serialize};"));
    pieces.push(String::from_str("use serde_json::Value;"));
    pieces.push(String::from_str("use crate::{dto_methods, ref_struct};"));
    pieces.push(String::from_str("use crate::shared::Id;"));
    pieces.push(String::from_str(""));
    assert(views(pieces@) =~= dto_file_head());
    let mut named = false;
    let mut k: usize = 0;
    assert(all.take(0) =~= Seq::<Seq<char>>::empty());
    while k < lines.len()
        invariant
            all == views(lines@),
            all == split_seq(contents@, '\n'),
            k <= lines@.len(),
            dto_fold(all.take(k as int)) == Ok::<(bool, Seq<Seq<char>>), Seq<char>>((named, views(pieces@))),
        decreases lines@.len() - k,
    {
        assert(all.take(k + 1).drop_last() =~= all.take(k as int));
        assert(all.take(k + 1).last() == lines@[k as int]@);
        let line = lines[k].as_str();
        if line.unicode_len() > 0 {
            let (first, _) = split_line(line);
            proof {
                reveal_strlit("::");
                lemma_split_str_nonempty(first@, "::"@);
            }
            let parts = split_str(first.as_str(), "::");
            if !named && parts.len() < 3 {
                proof {
                    lemma_dto_error_stays(all, k + 1);
                }
                return Err(String::from_str("resource type should contain a name for the struct"));
            }
            let name = parts[parts.len() - 1].as_str();
            let rt = first.as_str();
            let type_enum_name = concat2(name, "Type");
            let properties_name = concat2(name, "Properties");
            let ghost before = pieces@;
            pieces.push(String::from_str("#[derive(Debug, Serialize, Deserialize)]"));
            pieces.push(concat3("pub(crate) enum ", type_enum_name.as_str(), " {"));
            pieces.push(concat3("#[serde(rename = \"", rt, "\")]"));
            pieces.push(concat2(type_enum_name.as_str(), " }"));
            pieces.push(concat3("\nref_struct!(", name, "Ref);"));
            pieces.push(String::from_str("\n#[derive(Debug, Serialize, Deserialize)]"));
            pieces.push(concat3("pub struct ", name, " {"));
            pieces.push(String::from_str("#[serde(skip)]\npub(crate) id: Id,\n#[serde(skip)]\npub(crate) resource_id: String,"));
            pieces.push(String::from_str("#[serde(rename = \"Type\")]"));
            pieces.push(concat3("pub(crate) r#type: ", type_enum_name.as_str(), ","));
            pieces.push(String::from_str("#[serde(rename = \"Properties\")]"));
            pieces.push(concat3("pub(crate) properties: ", properties_name.as_str(), " }"));
            pieces.push(concat3("\ndto_methods!(", name, ");"));
            pieces.push(concat3("\n#[derive(Debug, Serialize, Deserialize)]\npub struct ", properties_name.as_str(), " {"));
            pieces.push(String::from_str("}\n"));
            assert(views(pieces@) =~= views(before) + dto_pieces(name@, rt@));
            named = true;
        }
        k = k + 1;
    }
    assert(all.take(all.len() as int) =~= all);
    Ok(join(&pieces, "\n"))
}

/// Once the DTO generator fails, it fails with the same error on longer input.
proof fn lemma_dto_error_stays(all: Seq<Seq<char>>, k: int)
    requires
        0 <= k <= all.len(),
        dto_fold(all.take(k)) is Err,
    ensures
        dto_fold(all) == dto_fold(all.take(k)),
    decreases all.len() - k,
{
    if k == all.len() {
        assert(all.take(k) =~= all);
    } else {
        assert(all.take(k + 1).drop_last() =~= all.take(k));
        lemma_dto_error_stays(all, k + 1);
    }
}

} // verus!
