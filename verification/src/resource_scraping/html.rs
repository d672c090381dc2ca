//! What is read from the HTML pages of CloudFormation's documentation, through the `scraper` crate.
use crate::resource_scraping::{category_links, grouping, relative_link, resource_category_links, resource_links};
use crate::resource_scraping::group_prop_infos;
use crate::text::views;
use vstd::prelude::*;

verus! {

/// The views of optional strings, in order.
pub open spec fn opt_views(v: Seq<Option<String>>) -> Seq<Option<Seq<char>>> {
    v.map_values(|o: Option<String>| match o {
        Some(s) => Some(s@),
        None => None,
    })
}

/// Every link has a target.
pub open spec fn all_present(hrefs: Seq<Option<Seq<char>>>) -> bool {
    forall|i: int| 0 <= i < hrefs.len() ==> #[trigger] hrefs[i] is Some
}

/// The targets of links that all have one.
pub open spec fn present(hrefs: Seq<Option<Seq<char>>>) -> Seq<Seq<char>> {
    hrefs.map_values(|o: Option<Seq<char>>| o->0)
}

/// What the page of resource types links to from its first list: the `href` of each `li > p > a` in
/// its first `ul`, in order, where the link has one; nothing where the page has no list.
pub uninterp spec fn first_list_hrefs(html: Seq<char>) -> Option<Seq<Option<Seq<char>>>>;

/// The links of the first list of a page.
///
/// Parses the page with `scraper::Html::parse_document` and selects `ul`, then `li > p > a` in the
/// first match, reading `href` of each; the contract only names the result.
#[verifier::external_body]
fn select_first_list_hrefs(html: &str) -> (r: Option<Vec<Option<String>>>)
    ensures
        match r {
            Some(v) => first_list_hrefs(html@) == Some(opt_views(v@)),
            None => first_list_hrefs(html@) is None,
        },
{
    let document = scraper::Html::parse_document(html);
    let list = scraper::Selector::parse("ul").unwrap();
    let links = scraper::Selector::parse("li > p > a").unwrap();
    let ul = document.select(&list).next()?;
    let mut hrefs = Vec::new();
    for a in ul.select(&links) {
        hrefs.push(a.attr("href").map(String::from));
    }
    Some(hrefs)
}

/// What a page of a group of resources links to: the `href` of each
/// `#main-col-body > div.itemizedlist > ul > li > p > a`, in order, where the link has one.
pub uninterp spec fn group_page_hrefs(html: Seq<char>) -> Seq<Option<Seq<char>>>;

/// The links to the pages of single resources on the page of a group.
///
/// Parses the page with `scraper::Html::parse_document` and reads `href` of each element that
/// `#main-col-body > div.itemizedlist > ul > li > p > a` selects; the contract only names the result.
#[verifier::external_body]
fn select_group_page_hrefs(html: &str) -> (r: Vec<Option<String>>)
    ensures
        group_page_hrefs(html@) == opt_views(r@),
{
    let document = scraper::Html::parse_document(html);
    let links = scraper::Selector::parse("#main-col-body > div.itemizedlist > ul > li > p > a").unwrap();
    let mut hrefs = Vec::new();
    for a in document.select(&links) {
        hrefs.push(a.attr("href").map(String::from));
    }
    hrefs
}

/// The inner HTML of the first `h1` of a page, where it has one.
pub uninterp spec fn page_title(html: Seq<char>) -> Option<Seq<char>>;

/// The title of a resource's page.
///
/// Parses the page with `scraper::Html::parse_document` and takes the inner HTML of the first `h1`;
/// the contract only names the result.
#[verifier::external_body]
fn select_page_title(html: &str) -> (r: Option<String>)
    ensures
        page_title(html@) == match r {
            Some(t) => Some(t@),
            None => None,
        },
{
    let document = scraper::Html::parse_document(html);
    let title = scraper::Selector::parse("h1").unwrap();
    let h1 = document.select(&title).next()?;
    Some(h1.inner_html())
}

/// In the first `.variablelist > dl` of a page, where it has one: the inner HTML of each
/// `dt > span > code` (the properties' names) and of each `dd > p` (their paragraphs), in order.
pub uninterp spec fn first_variable_list(html: Seq<char>) -> Option<(Seq<Seq<char>>, Seq<Seq<char>>)>;

/// The names and paragraphs of the first list of properties of a resource's page.
///
/// Parses the page with `scraper::Html::parse_document`, takes the first `.variablelist > dl` and
/// reads the inner HTML of its `dt > span > code` and `dd > p` elements; the contract only names the
/// result.
#[verifier::external_body]
fn select_first_variable_list(html: &str) -> (r: Option<(Vec<String>, Vec<String>)>)
    ensures
        first_variable_list(html@) == match r {
            Some((names, infos)) => Some((views(names@), views(infos@))),
            None => None,
        },
{
    let document = scraper::Html::parse_document(html);
    let list = scraper::Selector::parse(".variablelist > dl").unwrap();
    let names = scraper::Selector::parse("dt > span > code").unwrap();
    let infos = scraper::Selector::parse("dd > p").unwrap();
    let dl = document.select(&list).next()?;
    let mut found = (Vec::new(), Vec::new());
    for n in dl.select(&names) {
        found.0.push(n.inner_html());
    }
    for p in dl.select(&infos) {
        found.1.push(p.inner_html());
    }
    Some(found)
}

/// The targets of the links, in order, where each has one.
fn all_targets(hrefs: Vec<Option<String>>) -> (r: Option<Vec<String>>)
    ensures
        match r {
            Some(v) => all_present(opt_views(hrefs@)) && views(v@) == present(opt_views(hrefs@)),
            None => !all_present(opt_views(hrefs@)),
        },
{
    let ghost all = opt_views(hrefs@);
    let mut out: Vec<String> = Vec::new();
    let mut k: usize = 0;
    while k < hrefs.len()
        invariant
            all == opt_views(hrefs@),
            k <= hrefs@.len(),
            forall|i: int| 0 <= i < k ==> #[trigger] all[i] is Some,
            views(out@) == present(all.take(k as int)),
        decreases hrefs@.len() - k,
    {
        match &hrefs[k] {
            Some(h) => {
                let ghost before = out@;
                out.push(h.clone());
                assert(views(out@) =~= views(before).push(h@));
                assert(present(all.take(k + 1)) =~= present(all.take(k as int)).push(h@));
            },
            None => {
                assert(all[k as int] is None);
                return None;
            },
        }
        k = k + 1;
    }
    assert(all.take(all.len() as int) =~= all);
    Some(out)
}

/// The links to the pages of groups of resources on the page of resource types, without the groups
/// that are skipped: `None` where the page has no list or a link in it has no target.
pub fn find_resource_categories(html: &str) -> (r: Option<Vec<String>>)
    ensures
        match first_list_hrefs(html@) {
            Some(hs) => if all_present(hs) {
                r matches Some(v) && views(v@) == category_links(present(hs))
            } else {
                r is None
            },
            None => r is None,
        },
{
    match select_first_list_hrefs(html) {
        None => None,
        Some(hrefs) => match all_targets(hrefs) {
            None => None,
            Some(targets) => Some(resource_category_links(&targets)),
        },
    }
}

/// The links to the pages of single resources on the page of a group, made relative; the error
/// where a link has no target.
pub fn get_specific_resource(html: &str) -> (r: Result<Vec<String>, String>)
    ensures
        if all_present(group_page_hrefs(html@)) {
            r matches Ok(v) && views(v@) == present(group_page_hrefs(html@)).map_values(
                |h: Seq<char>| relative_link(h),
            )
        } else {
            r matches Err(e) && e@ == "a element should have href"@
        },
{
    let hrefs = select_group_page_hrefs(html);
    match all_targets(hrefs) {
        None => Err(String::from_str("a element should have href")),
        Some(targets) => Ok(resource_links(&targets)),
    }
}

/// The name of a resource and the paragraphs of its properties, grouped by property, from its page;
/// or the first error: no title, no list of properties, or a paragraph of an update without a
/// property.
pub fn retrieve_resource_props(html: &str) -> (r: Result<(String, Vec<(String, Vec<String>)>), String>)
    ensures
        match page_title(html@) {
            None => r matches Err(e) && e@ == "resource should have a name"@,
            Some(name) => match first_variable_list(html@) {
                None => r matches Err(e) && e@ == "resource should have a list of props"@,
                Some((names, infos)) => match grouping(names, infos) {
                    Err(ge) => r matches Err(e) && e@ == ge,
                    Ok(st) => r matches Ok((n, groups)) && n@ == name && crate::resource_scraping::group_views(
                        groups@,
                    ) == st.groups,
                },
            },
        },
{
    let name = match select_page_title(html) {
        None => {
            return Err(String::from_str("resource should have a name"));
        },
        Some(n) => n,
    };
    let (names, infos) = match select_first_variable_list(html) {
        None => {
            return Err(String::from_str("resource should have a list of props"));
        },
        Some(list) => list,
    };
    match group_prop_infos(&names, &infos) {
        Err(e) => Err(e),
        Ok(groups) => Ok((name, groups)),
    }
}

} // verus!
