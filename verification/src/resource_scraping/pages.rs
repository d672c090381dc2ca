//! What is read from the pages of CloudFormation's documentation, and the lines written from it.
use crate::stack::{keys_of, last_index_of, upsert};
use crate::text::{join, join_seq, replace_all, replace_seq, starts_with, str_eq, views};
use vstd::prelude::*;

verus! {

/// The groups of resources that are already supported, whose pages are skipped.
pub open spec fn ignored_categories() -> Seq<Seq<char>> {
    seq!["cfn-reference-shared.html"@, "AWS_SNS.html"@, "AWS_SQS.html"@]
}

/// A link relative to the documentation's directory: `./` taken out.
pub open spec fn relative_link(href: Seq<char>) -> Seq<char> {
    replace_seq(href, "./"@, ""@)
}

/// The links to the pages of groups of resources, in order, without the groups that are skipped.
pub open spec fn category_links(hrefs: Seq<Seq<char>>) -> Seq<Seq<char>>
    decreases hrefs.len(),
{
    if hrefs.len() == 0 {
        Seq::empty()
    } else {
        let rest = category_links(hrefs.drop_last());
        let link = relative_link(hrefs.last());
        if ignored_categories().contains(link) {
            rest
        } else {
            rest.push(link)
        }
    }
}

/// The links to the pages of groups of resources found in the list of resource types.
pub fn resource_category_links(hrefs: &Vec<String>) -> (r: Vec<String>)
    ensures
        views(r@) == category_links(views(hrefs@)),
{
    let ghost all = views(hrefs@);
    let mut out: Vec<String> = Vec::new();
    let mut k: usize = 0;
    while k < hrefs.len()
        invariant
            all == views(hrefs@),
            k <= hrefs@.len(),
            views(out@) == category_links(all.take(k as int)),
        decreases hrefs@.len() - k,
    {
        let link = replace_all(hrefs[k].as_str(), "./", "");
        let ghost before = out@;
        assert(all.take(k + 1).drop_last() =~= all.take(k as int));
        assert(all.take(k + 1).last() == hrefs@[k as int]@);
        let ignored = str_eq(link.as_str(), "cfn-reference-shared.html") || str_eq(link.as_str(), "AWS_SNS.html") || str_eq(
            link.as_str(),
            "AWS_SQS.html",
        );
        proof {
            let l = link@;
            assert(ignored_categories().contains(l) <==> (l == "cfn-reference-shared.html"@ || l == "AWS_SNS.html"@ || l
                == "AWS_SQS.html"@)) by {
                if ignored_categories().contains(l) {
                    let i = choose|i: int| 0 <= i < 3 && ignored_categories()[i] == l;
                }
                if l == "cfn-reference-shared.html"@ {
                    assert(ignored_categories()[0] == l);
                }
                if l == "AWS_SNS.html"@ {
                    assert(ignored_categories()[1] == l);
                }
                if l == "AWS_SQS.html"@ {
                    assert(ignored_categories()[2] == l);
                }
            }
        }
        if !ignored {
            out.push(link);
            assert(views(out@) =~= views(before).push(link@));
        }
        k = k + 1;
    }
    assert(all.take(all.len() as int) =~= all);
    out
}

/// The links to the pages of single resources, found in the page of a group, in order.
pub fn resource_links(hrefs: &Vec<String>) -> (r: Vec<String>)
    ensures
        views(r@) == views(hrefs@).map_values(|h: Seq<char>| relative_link(h)),
{
    let ghost all = views(hrefs@);
    let mut out: Vec<String> = Vec::new();
    let mut k: usize = 0;
    while k < hrefs.len()
        invariant
            all == views(hrefs@),
            k <= hrefs@.len(),
            views(out@) == all.take(k as int).map_values(|h: Seq<char>| relative_link(h)),
        decreases hrefs@.len() - k,
    {
        let link = replace_all(hrefs[k].as_str(), "./", "");
        let ghost before = out@;
        out.push(link);
        proof {
            assert(views(out@) =~= views(before).push(link@));
            assert(all.take(k + 1) =~= all.take(k as int).push(all[k as int]));
            assert(all.take(k + 1).map_values(|h: Seq<char>| relative_link(h)) =~= all.take(k as int).map_values(
                |h: Seq<char>| relative_link(h),
            ).push(relative_link(all[k as int])));
        }
        k = k + 1;
    }
    assert(all.take(all.len() as int) =~= all);
    out
}

/// A paragraph of a property's description without emphasis and line breaks.
pub open spec fn cleaned_info(info: Seq<char>) -> Seq<char> {
    replace_seq(replace_seq(replace_seq(info, "<em>"@, ""@), "</em>"@, ""@), "\n"@, ""@)
}

/// How far grouping the paragraphs of descriptions by property has come: the position of the next
/// name, the name whose paragraphs are being gathered, the groups so far, and the paragraphs gathered.
pub struct GroupingState {
    pub next_name: int,
    pub current: Option<Seq<char>>,
    pub groups: Seq<(Seq<char>, Seq<Seq<char>>)>,
    pub gathered: Seq<Seq<char>>,
}

/// The first name, if any, gathers the first paragraphs.
pub open spec fn grouping_start(names: Seq<Seq<char>>) -> GroupingState {
    GroupingState {
        next_name: 1,
        current: if names.len() > 0 {
            Some(names[0])
        } else {
            None
        },
        groups: Seq::empty(),
        gathered: Seq::empty(),
    }
}

/// One paragraph: one that starts with `Update` closes the description of the current property,
/// whose paragraphs then form its group, and the next name becomes current; any other is gathered.
/// An `Update` without a current property is an error.
pub open spec fn grouping_step(names: Seq<Seq<char>>, st: GroupingState, info: Seq<char>) -> Result<GroupingState, Seq<char>> {
    let clean = cleaned_info(info);
    if "Update"@.is_prefix_of(clean) {
        match st.current {
            None => Err("should be a prop name for every collection of info"@),
            Some(name) => Ok(
                GroupingState {
                    next_name: if 0 <= st.next_name < names.len() {
                        st.next_name + 1
                    } else {
                        st.next_name
                    },
                    current: if 0 <= st.next_name < names.len() {
                        Some(names[st.next_name])
                    } else {
                        None
                    },
                    groups: upsert(st.groups, name, st.gathered),
                    gathered: Seq::empty(),
                },
            ),
        }
    } else {
        Ok(GroupingState { gathered: st.gathered.push(clean), ..st })
    }
}

/// The grouping after the paragraphs, in order; the first error ends it.
pub open spec fn grouping(names: Seq<Seq<char>>, infos: Seq<Seq<char>>) -> Result<GroupingState, Seq<char>>
    decreases infos.len(),
{
    if infos.len() == 0 {
        Ok(grouping_start(names))
    } else {
        match grouping(names, infos.drop_last()) {
            Err(e) => Err(e),
            Ok(st) => grouping_step(names, st, infos.last()),
        }
    }
}

/// The views of groups of paragraphs by property name.
pub open spec fn group_views(s: Seq<(String, Vec<String>)>) -> Seq<(Seq<char>, Seq<Seq<char>>)> {
    s.map_values(|g: (String, Vec<String>)| (g.0@, views(g.1@)))
}

/// Sets the group of `name`, in place where it has one.
fn upsert_group(groups: &mut Vec<(String, Vec<String>)>, name: String, infos: Vec<String>)
    ensures
        group_views(final(groups)@) == upsert(group_views(old(groups)@), name@, views(infos@)),
{
    let ghost start = group_views(groups@);
    let mut i: usize = groups.len();
    assert(start.take(start.len() as int) =~= start);
    let mut found: Option<usize> = None;
    while i > 0
        invariant_except_break
            found is None,
        invariant
            i <= groups@.len(),
            start == group_views(groups@),
            last_index_of(keys_of(start), name@) == last_index_of(keys_of(start.take(i as int)), name@),
        ensures
            found matches Some(j) ==> j < groups@.len() && last_index_of(keys_of(start), name@) == j,
            found is None ==> last_index_of(keys_of(start), name@) < 0,
        decreases i,
    {
        let ghost t = start.take(i as int);
        assert(keys_of(t).last() == groups@[i - 1].0@);
        if str_eq(groups[i - 1].0.as_str(), name.as_str()) {
            found = Some(i - 1);
            break;
        }
        assert(keys_of(t).drop_last() =~= keys_of(start.take(i - 1)));
        i = i - 1;
        if i == 0 {
            assert(keys_of(start.take(0)) =~= Seq::<Seq<char>>::empty());
        }
    }
    let ghost idx = last_index_of(keys_of(start), name@);
    match found {
        Some(j) => {
            assert(idx == j as int);
            let ghost entry = (name@, views(infos@));
            groups.set(j, (name, infos));
            assert(group_views(groups@) =~= start.update(j as int, entry));
        },
        None => {
            let ghost entry = (name@, views(infos@));
            groups.push((name, infos));
            assert(group_views(groups@) =~= start.push(entry));
        },
    }
}

/// The paragraphs of the descriptions of a resource's properties, grouped by property name in the
/// order of the names; or the error where an `Update` paragraph has no property.
pub fn group_prop_infos(names: &Vec<String>, infos: &Vec<String>) -> (r: Result<Vec<(String, Vec<String>)>, String>)
    ensures
        match r {
            Ok(groups) => grouping(views(names@), views(infos@)) matches Ok(st) && group_views(groups@) == st.groups,
            Err(e) => grouping(views(names@), views(infos@)) == Err::<GroupingState, Seq<char>>(e@),
        },
{
    let ghost ns = views(names@);
    let ghost all = views(infos@);
    let mut next_name: usize = 1;
    let mut current: Option<String> = if names.len() > 0 {
        Some(names[0].clone())
    } else {
        None
    };
    let mut groups: Vec<(String, Vec<String>)> = Vec::new();
    let mut gathered: Vec<String> = Vec::new();
    assert(all.take(0) =~= Seq::<Seq<char>>::empty());
    assert(group_views(groups@) =~= Seq::<(Seq<char>, Seq<Seq<char>>)>::empty());
    assert(views(gathered@) =~= Seq::<Seq<char>>::empty());
    let mut k: usize = 0;
    while k < infos.len()
        invariant
            ns == views(names@),
            all == views(infos@),
            k <= infos@.len(),
            1 <= next_name,
            grouping(ns, all.take(k as int)) == Ok::<GroupingState, Seq<char>>(
                GroupingState {
                    next_name: next_name as int,
                    current: match current {
                        Some(c) => Some(c@),
                        None => None,
                    },
                    groups: group_views(groups@),
                    gathered: views(gathered@),
                },
            ),
        decreases infos@.len() - k,
    {
        assert(all.take(k + 1).drop_last() =~= all.take(k as int));
        assert(all.take(k + 1).last() == infos@[k as int]@);
        let a = replace_all(infos[k].as_str(), "<em>", "");
        let b = replace_all(a.as_str(), "</em>", "");
        let clean = replace_all(b.as_str(), "\n", "");
        if starts_with(clean.as_str(), "Update") {
            match current {
                None => {
                    proof {
                        lemma_grouping_error_stays(ns, all, k + 1);
                    }
                    return Err(String::from_str("should be a prop name for every collection of info"));
                },
                Some(name) => {
                    let done = gathered;
                    upsert_group(&mut groups, name, done);
                    gathered = Vec::new();
                    assert(views(gathered@) =~= Seq::<Seq<char>>::empty());
                    current = if next_name < names.len() {
                        assert(views(names@)[next_name as int] == names@[next_name as int]@);
                        let c = Some(names[next_name].clone());
                        next_name = next_name + 1;
                        c
                    } else {
                        None
                    };
                },
            }
        } else {
            let ghost before = gathered@;
            gathered.push(clean);
            assert(views(gathered@) =~= views(before).push(clean@));
        }
        k = k + 1;
    }
    assert(all.take(all.len() as int) =~= all);
    Ok(groups)
}

/// Once grouping fails, grouping more paragraphs fails with the same error.
proof fn lemma_grouping_error_stays(names: Seq<Seq<char>>, all: Seq<Seq<char>>, k: int)
    requires
        0 <= k <= all.len(),
        grouping(names, all.take(k)) is Err,
    ensures
        grouping(names, all) == grouping(names, all.take(k)),
    decreases all.len() - k,
{
    if k == all.len() {
        assert(all.take(k) =~= all);
    } else {
        assert(all.take(k + 1).drop_last() =~= all.take(k));
        lemma_grouping_error_stays(names, all, k + 1);
    }
}

/// A property with its paragraphs as it stands in a scraped line: `name===p1###p2...`.
pub open spec fn prop_entry(g: (Seq<char>, Seq<Seq<char>>)) -> Seq<char> {
    g.0 + "==="@ + join_seq(g.1, "###"@)
}

/// The scraped line of a resource: its name, then `;` and its properties separated by `;`.
pub open spec fn resource_line_of(name: Seq<char>, groups: Seq<(Seq<char>, Seq<Seq<char>>)>) -> Seq<char> {
    name + ";"@ + join_seq(groups.map_values(|g: (Seq<char>, Seq<Seq<char>>)| prop_entry(g)), ";"@)
}

/// The scraped line of a resource from its name and its properties' paragraphs.
pub fn resource_line(name: &str, groups: &Vec<(String, Vec<String>)>) -> (r: String)
    ensures
        r@ == resource_line_of(name@, group_views(groups@)),
{
    let ghost gs = group_views(groups@);
    let mut entries: Vec<String> = Vec::new();
    let mut k: usize = 0;
    while k < groups.len()
        invariant
            gs == group_views(groups@),
            k <= groups@.len(),
            views(entries@) == gs.take(k as int).map_values(|g: (Seq<char>, Seq<Seq<char>>)| prop_entry(g)),
        decreases groups@.len() - k,
    {
        let paragraphs = join(&groups[k].1, "###");
        let mut entry = String::from_str(groups[k].0.as_str());
        entry.append("===");
        entry.append(paragraphs.as_str());
        let ghost before = entries@;
        entries.push(entry);
        proof {
            assert(gs[k as int] == (groups@[k as int].0@, views(groups@[k as int].1@)));
            assert(views(entries@) =~= views(before).push(entry@));
            assert(gs.take(k + 1) =~= gs.take(k as int).push(gs[k as int]));
            assert(gs.take(k + 1).map_values(|g: (Seq<char>, Seq<Seq<char>>)| prop_entry(g)) =~= gs.take(
                k as int,
            ).map_values(|g: (Seq<char>, Seq<Seq<char>>)| prop_entry(g)).push(prop_entry(gs[k as int])));
        }
        k = k + 1;
    }
    assert(gs.take(gs.len() as int) =~= gs);
    let joined = join(&entries, ";");
    let mut out = String::from_str(name);
    out.append(";");
    out.append(joined.as_str());
    out
}

/// No link to a group that is skipped is kept, and each link kept is the relative form of one of
/// the links found.
pub proof fn skipped_categories_never_kept(hrefs: Seq<Seq<char>>)
    ensures
        forall|i: int|
            0 <= i < category_links(hrefs).len() ==> {
                &&& !ignored_categories().contains(#[trigger] category_links(hrefs)[i])
                &&& exists|j: int| 0 <= j < hrefs.len() && relative_link(hrefs[j]) == category_links(hrefs)[i]
            },
    decreases hrefs.len(),
{
    if hrefs.len() > 0 {
        let init = hrefs.drop_last();
        skipped_categories_never_kept(init);
        let rest = category_links(init);
        assert forall|i: int| 0 <= i < category_links(hrefs).len() implies {
            &&& !ignored_categories().contains(#[trigger] category_links(hrefs)[i])
            &&& exists|j: int| 0 <= j < hrefs.len() && relative_link(hrefs[j]) == category_links(hrefs)[i]
        } by {
            if i < rest.len() {
                let j = choose|j: int| 0 <= j < init.len() && relative_link(init[j]) == rest[i];
                assert(hrefs[j] == init[j]);
            } else {
                assert(relative_link(hrefs[hrefs.len() - 1]) == category_links(hrefs)[i]);
            }
        }
    }
}

} // verus!
