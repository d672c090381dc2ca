use vstd::prelude::*;
use crate::iam::dto::{Policy, Statement};
use crate::text::{contains, contains_seq, lemma_split_nonempty, replace_all, replace_seq, split_char, split_seq, starts_with, str_eq, trim, trim_seq, vec_contains, views};

verus! {

/// The names of the AWS services that have an SDK crate, one per line.
pub const AWS_SERVICES_LIST: &'static str = "accessanalyzer\nacm\nacmpca\namp\namplify\napigateway\napigatewaymanagement\napigatewayv2\nappconfig\nappconfigdata\nappflow\napplicationautoscaling\napprunner\nappsync\nathena\nauditmanager\nautoscaling\nbackup\nbatch\nbedrock\nbedrockagent\nbedrockagentruntime\nbedrockruntime\nbudgets\ncloud9\ncloudcontrol\nclouddirectory\ncloudformation\ncloudfront\ncloudhsmv2\ncloudsearch\ncloudtrail\ncloudwatch\ncloudwatchevents\ncloudwatchlogs\ncodeartifact\ncodebuild\ncodecommit\ncodedeploy\ncodepipeline\ncognitoidentity\ncognitoidentityprovider\ncomprehend\nconfig\nconnect\ncostexplorer\ndatasync\ndax\ndirectconnect\ndocdb\ndynamodb\ndynamodbstreams\nebs\nec2\necr\necrpublic\necs\nefs\neks\nelasticache\nelasticbeanstalk\nelasticloadbalancing\nelasticloadbalancingv2\nemr\neventbridge\nfirehose\nfsx\nglacier\nglue\nguardduty\niam\ninspector2\niot\nkafka\nkendra\nkinesis\nkinesisanalyticsv2\nkms\nlakeformation\nlambda\nlightsail\nmediaconvert\nmemorydb\nmq\nneptune\nopensearch\norganizations\npinpoint\npipes\npolly\nquicksight\nram\nrds\nrdsdata\nredshift\nredshiftdata\nrekognition\nresourcegroupstagging\nroute53\ns3\ns3control\nsagemaker\nscheduler\nsecretsmanager\nsecurityhub\nservicecatalog\nservicediscovery\nses\nsesv2\nsfn\nshield\nsns\nsqs\nssm\nsso\nsts\nsupport\nswf\ntextract\ntimestreamquery\ntimestreamwrite\ntranscribe\ntransfer\ntranslate\nwafv2\nworkspaces\nxray";

/// The known service names.
pub open spec fn aws_service_names() -> Seq<Seq<char>> {
    split_seq(AWS_SERVICES_LIST@, '\n')
}

/// The service an action belongs to: what stands before its first colon.
pub open spec fn action_service(action: Seq<char>) -> Seq<char> {
    split_seq(action, ':')[0]
}

/// The services of the actions of a statement, where the statement allows.
pub open spec fn statement_services(st: Statement) -> Seq<Seq<char>> {
    if st@.effect@ == "Allow"@ {
        st@.action@.map_values(|a: String| action_service(a@))
    } else {
        Seq::empty()
    }
}

/// The services of the actions that the statements allow, in order.
pub open spec fn statements_services(stmts: Seq<Statement>) -> Seq<Seq<char>>
    decreases stmts.len(),
{
    if stmts.len() == 0 {
        Seq::empty()
    } else {
        statements_services(stmts.drop_last()) + statement_services(stmts.last())
    }
}

/// The services of the actions that the policies allow, in order.
pub open spec fn policies_services(policies: Seq<Policy>) -> Seq<Seq<char>>
    decreases policies.len(),
{
    if policies.len() == 0 {
        Seq::empty()
    } else {
        policies_services(policies.drop_last()) + statements_services(
            policies.last()@.policy_document@.statements@,
        )
    }
}

/// The services, in order, that none of the policies has an allowed action of.
pub open spec fn missing_services(services: Seq<Seq<char>>, policies: Seq<Policy>) -> Seq<Seq<char>> {
    services.filter(|s: Seq<char>| !policies_services(policies).contains(s))
}

/// A service is reported missing exactly when the code needs it and no allowed action of the
/// policies is of it; the report keeps the order of the needed services.
pub proof fn missing_services_are_the_ungranted_ones(services: Seq<Seq<char>>, policies: Seq<Policy>)
    ensures
        forall|s: Seq<char>|
            #![trigger missing_services(services, policies).contains(s)]
            missing_services(services, policies).contains(s) <==> (services.contains(s)
                && !policies_services(policies).contains(s)),
        missing_services(services, policies).len() <= services.len(),
        policies_services(policies).len() == 0 ==> missing_services(services, policies) == services,
{
    let pred = |s: Seq<char>| !policies_services(policies).contains(s);
    let m = services.filter(pred);
    broadcast use vstd::seq_lib::group_filter_ensures;
    assert forall|s: Seq<char>| #![trigger m.contains(s)] m.contains(s) <==> (services.contains(s)
        && !policies_services(policies).contains(s)) by {
        if m.contains(s) {
            services.lemma_filter_contains_rev(pred, s);
            let k = choose|k: int| 0 <= k < m.len() && m[k] == s;
            assert(pred(m[k]));
        }
        if services.contains(s) && !policies_services(policies).contains(s) {
            let k = choose|k: int| 0 <= k < services.len() && services[k] == s;
            services.lemma_filter_contains(pred, k);
        }
    }
    if policies_services(policies).len() == 0 {
        lemma_filter_keeping_all(services, pred);
    }
}

/// A service is granted by the actions of the form `svc:rest`: where an allowed action
/// of one of the policies is the service name `svc` (which holds no colon) followed by a
/// colon and anything, `svc` counts as granted and is never reported missing.
pub proof fn allowed_action_grants_its_service(
    services: Seq<Seq<char>>,
    policies: Seq<Policy>,
    i: int,
    j: int,
    k: int,
    svc: Seq<char>,
    rest: Seq<char>,
)
    requires
        0 <= i < policies.len(),
        0 <= j < policies[i]@.policy_document@.statements@.len(),
        policies[i]@.policy_document@.statements@[j]@.effect@ == "Allow"@,
        0 <= k < policies[i]@.policy_document@.statements@[j]@.action@.len(),
        policies[i]@.policy_document@.statements@[j]@.action@[k]@ == svc + seq![':'] + rest,
        !svc.contains(':'),
    ensures
        policies_services(policies).contains(svc),
        !missing_services(services, policies).contains(svc),
{
    lemma_policies_services_contains(policies, i, j, k);
    lemma_split_before_first(svc, ':', rest);
    missing_services_are_the_ungranted_ones(services, policies);
}

/// Only allowed actions grant services: a service counts as granted only where an allowed
/// action of one of the policies is the service name itself or the service name (which
/// holds no colon) followed by a colon and anything.
pub proof fn granted_services_come_from_allowed_actions(policies: Seq<Policy>, svc: Seq<char>)
    requires
        policies_services(policies).contains(svc),
    ensures
        !svc.contains(':'),
        exists|i: int, j: int, k: int|
            #![trigger policies[i]@.policy_document@.statements@[j]@.action@[k]]
            0 <= i < policies.len() && 0 <= j < policies[i]@.policy_document@.statements@.len()
                && policies[i]@.policy_document@.statements@[j]@.effect@ == "Allow"@
                && 0 <= k < policies[i]@.policy_document@.statements@[j]@.action@.len()
                && names_service(policies[i]@.policy_document@.statements@[j]@.action@[k]@, svc),
{
    let (i, j, k) = lemma_policies_services_source(policies, svc);
    let a = policies[i]@.policy_document@.statements@[j]@.action@[k]@;
    lemma_split_first_piece(a, ':');
    if !a.contains(':') {
        assert(names_service(a, svc));
    } else {
        let rest = choose|rest: Seq<char>| a == split_seq(a, ':')[0] + seq![':'] + rest;
        assert(names_service(a, svc));
    }
}

/// The action `action` names the service `svc`: it is `svc` itself, or `svc`, a colon and
/// anything.
pub open spec fn names_service(action: Seq<char>, svc: Seq<char>) -> bool {
    action == svc || exists|rest: Seq<char>| action == svc + seq![':'] + rest
}

/// The first piece of a split is the whole text, where it holds no separator, or what
/// stands before its first separator.
proof fn lemma_split_first_piece(a: Seq<char>, sep: char)
    ensures
        !split_seq(a, sep)[0].contains(sep),
        !a.contains(sep) ==> split_seq(a, sep) == seq![a],
        a.contains(sep) ==> split_seq(a, sep).len() >= 2 && exists|rest: Seq<char>|
            a == split_seq(a, sep)[0] + seq![sep] + rest,
    decreases a.len(),
{
    if a.len() == 0 {
        assert(a =~= Seq::<char>::empty());
        assert(!a.contains(sep));
    } else {
        let d = a.drop_last();
        let c = a.last();
        lemma_split_first_piece(d, sep);
        assert(a =~= d.push(c));
        if d.contains(sep) {
            let w = choose|w: int| 0 <= w < d.len() && d[w] == sep;
            assert(a[w] == sep);
            let rest = choose|rest: Seq<char>| d == split_seq(d, sep)[0] + seq![sep] + rest;
            assert(a =~= split_seq(d, sep)[0] + seq![sep] + rest.push(c));
        } else {
            lemma_split_without_sep(d, sep);
            if c == sep {
                assert(a[a.len() - 1] == sep);
                assert(a =~= d + seq![sep] + Seq::<char>::empty());
            } else {
                assert(!a.contains(sep)) by {
                    if a.contains(sep) {
                        let w = choose|w: int| 0 <= w < a.len() && a[w] == sep;
                        assert(d[w] == sep);
                    }
                }
                assert(split_seq(a, sep) =~= seq![a]);
            }
        }
    }
}

/// Where a service is among those of the statements, an action that a statement allows is
/// of it.
proof fn lemma_statements_services_source(stmts: Seq<Statement>, svc: Seq<char>) -> (r: (int, int))
    requires
        statements_services(stmts).contains(svc),
    ensures
        0 <= r.0 < stmts.len(),
        stmts[r.0]@.effect@ == "Allow"@,
        0 <= r.1 < stmts[r.0]@.action@.len(),
        action_service(stmts[r.0]@.action@[r.1]@) == svc,
    decreases stmts.len(),
{
    broadcast use vstd::seq_lib::lemma_seq_concat_contains_all_elements;
    let init = stmts.drop_last();
    let mine = statement_services(stmts.last());
    assert(statements_services(stmts) == statements_services(init) + mine);
    if statements_services(init).contains(svc) {
        let (j, k) = lemma_statements_services_source(init, svc);
        assert(init[j] == stmts[j]);
        (j, k)
    } else {
        assert(mine.contains(svc));
        let k = choose|k: int| 0 <= k < mine.len() && mine[k] == svc;
        assert(stmts.last()@.effect@ == "Allow"@);
        (stmts.len() - 1, k)
    }
}

/// Where a service is among those of the policies, an action that one of their statements
/// allows is of it.
proof fn lemma_policies_services_source(policies: Seq<Policy>, svc: Seq<char>) -> (r: (int, int, int))
    requires
        policies_services(policies).contains(svc),
    ensures
        0 <= r.0 < policies.len(),
        0 <= r.1 < policies[r.0]@.policy_document@.statements@.len(),
        policies[r.0]@.policy_document@.statements@[r.1]@.effect@ == "Allow"@,
        0 <= r.2 < policies[r.0]@.policy_document@.statements@[r.1]@.action@.len(),
        action_service(policies[r.0]@.policy_document@.statements@[r.1]@.action@[r.2]@) == svc,
    decreases policies.len(),
{
    broadcast use vstd::seq_lib::lemma_seq_concat_contains_all_elements;
    let init = policies.drop_last();
    if policies_services(init).contains(svc) {
        let (i, j, k) = lemma_policies_services_source(init, svc);
        assert(init[i] == policies[i]);
        (i, j, k)
    } else {
        let (j, k) = lemma_statements_services_source(policies.last()@.policy_document@.statements@, svc);
        (policies.len() - 1, j, k)
    }
}

/// Splitting a text that holds no separator gives the text itself.
proof fn lemma_split_without_sep(x: Seq<char>, sep: char)
    requires
        !x.contains(sep),
    ensures
        split_seq(x, sep) == seq![x],
    decreases x.len(),
{
    if x.len() > 0 {
        let d = x.drop_last();
        assert(!d.contains(sep)) by {
            if d.contains(sep) {
                let w = choose|w: int| 0 <= w < d.len() && d[w] == sep;
                assert(x[w] == sep);
            }
        }
        lemma_split_without_sep(d, sep);
        assert(x[x.len() - 1] == x.last());
        assert(d.push(x.last()) =~= x);
        assert(split_seq(x, sep) =~= seq![x]);
    } else {
        assert(x =~= Seq::<char>::empty());
    }
}

/// The first piece of `x`, a separator and `y`, where `x` holds no separator, is `x`.
proof fn lemma_split_before_first(x: Seq<char>, sep: char, y: Seq<char>)
    requires
        !x.contains(sep),
    ensures
        split_seq(x + seq![sep] + y, sep).len() >= 2,
        split_seq(x + seq![sep] + y, sep)[0] == x,
    decreases y.len(),
{
    let s = x + seq![sep] + y;
    if y.len() == 0 {
        assert(s.drop_last() =~= x);
        lemma_split_without_sep(x, sep);
    } else {
        lemma_split_before_first(x, sep, y.drop_last());
        assert(s.drop_last() =~= x + seq![sep] + y.drop_last());
    }
}

/// The services of the statements include that of each action that a statement allows.
proof fn lemma_statements_services_contains(stmts: Seq<Statement>, j: int, k: int)
    requires
        0 <= j < stmts.len(),
        stmts[j]@.effect@ == "Allow"@,
        0 <= k < stmts[j]@.action@.len(),
    ensures
        statements_services(stmts).contains(action_service(stmts[j]@.action@[k]@)),
    decreases stmts.len(),
{
    broadcast use vstd::seq_lib::lemma_seq_concat_contains_all_elements;
    let target = action_service(stmts[j]@.action@[k]@);
    if j == stmts.len() - 1 {
        let mine = statement_services(stmts.last());
        assert(mine[k] == target);
        assert(mine.contains(target));
        assert(statements_services(stmts) == statements_services(stmts.drop_last()) + mine);
    } else {
        assert(stmts.drop_last()[j] == stmts[j]);
        lemma_statements_services_contains(stmts.drop_last(), j, k);
    }
}

/// The services of the policies include that of each action that one of their statements allows.
proof fn lemma_policies_services_contains(policies: Seq<Policy>, i: int, j: int, k: int)
    requires
        0 <= i < policies.len(),
        0 <= j < policies[i]@.policy_document@.statements@.len(),
        policies[i]@.policy_document@.statements@[j]@.effect@ == "Allow"@,
        0 <= k < policies[i]@.policy_document@.statements@[j]@.action@.len(),
    ensures
        policies_services(policies).contains(
            action_service(policies[i]@.policy_document@.statements@[j]@.action@[k]@),
        ),
    decreases policies.len(),
{
    broadcast use vstd::seq_lib::lemma_seq_concat_contains_all_elements;
    if i == policies.len() - 1 {
        lemma_statements_services_contains(policies.last()@.policy_document@.statements@, j, k);
    } else {
        assert(policies.drop_last()[i] == policies[i]);
        lemma_policies_services_contains(policies.drop_last(), i, j, k);
    }
}

/// Filtering by a predicate that holds of every element keeps the sequence.
proof fn lemma_filter_keeping_all(s: Seq<Seq<char>>, pred: spec_fn(Seq<char>) -> bool)
    requires
        forall|x: Seq<char>| #[trigger] pred(x),
    ensures
        s.filter(pred) == s,
    decreases s.len(),
{
    reveal(Seq::filter);
    if s.len() > 0 {
        lemma_filter_keeping_all(s.drop_last(), pred);
        assert(pred(s.last()));
        assert(s.drop_last().push(s.last()) =~= s);
    }
}

fn statement_services_into(st: &Statement, allow: &str, out: &mut Vec<String>)
    requires
        allow@ == "Allow"@,
    ensures
        views(final(out)@) == views(old(out)@) + statement_services(*st),
{
    if str_eq(st.effect.as_str(), allow) {
        let mut k: usize = 0;
        while k < st.action.len()
            invariant
                k <= st@.action@.len(),
                st@.effect@ == "Allow"@,
                views(out@) == views(old(out)@) + st@.action@.take(k as int).map_values(
                    |a: String| action_service(a@),
                ),
            decreases st@.action@.len() - k,
        {
            let parts = split_char(st.action[k].as_str(), ':');
            proof {
                lemma_split_nonempty(st@.action@[k as int]@, ':');
            }
            let ghost before = out@;
            out.push(parts[0].clone());
            assert(views(out@) =~= views(before).push(action_service(st@.action@[k as int]@)));
            assert(st@.action@.take(k + 1).map_values(|a: String| action_service(a@))
                =~= st@.action@.take(k as int).map_values(|a: String| action_service(a@)).push(
                action_service(st@.action@[k as int]@),
            ));
            k = k + 1;
        }
        assert(st@.action@.take(st@.action@.len() as int) =~= st@.action@);
    } else {
        assert(views(out@) =~= views(old(out)@) + Seq::<Seq<char>>::empty());
    }
}

/// The services, kept in order, that no statement with the effect "Allow" in `policies` has an
/// action of; the service of an action is what stands before its first colon.
pub fn find_missing_services(services: &[String], policies: &[Policy]) -> (r: Vec<String>)
    ensures
        views(r@) == missing_services(views(services@), policies@),
{
    let allow: String = crate::iam::builder::Effect::Allow.into();
    let mut in_actions: Vec<String> = Vec::new();
    let mut i: usize = 0;
    while i < policies.len()
        invariant
            i <= policies@.len(),
            allow@ == "Allow"@,
            views(in_actions@) == policies_services(policies@.take(i as int)),
        decreases policies@.len() - i,
    {
        let stmts = &policies[i].policy_document.statements;
        let ghost prefix = views(in_actions@);
        let mut j: usize = 0;
        while j < stmts.len()
            invariant
                j <= stmts@.len(),
                allow@ == "Allow"@,
                views(in_actions@) == prefix + statements_services(stmts@.take(j as int)),
            decreases stmts@.len() - j,
        {
            statement_services_into(&stmts[j], allow.as_str(), &mut in_actions);
            assert(stmts@.take(j + 1).drop_last() =~= stmts@.take(j as int));
            j = j + 1;
        }
        assert(stmts@.take(stmts@.len() as int) =~= stmts@);
        assert(policies@.take(i + 1).drop_last() =~= policies@.take(i as int));
        i = i + 1;
    }
    assert(policies@.take(policies@.len() as int) =~= policies@);
    let ghost allowed = policies_services(policies@);
    let mut out: Vec<String> = Vec::new();
    let mut k: usize = 0;
    while k < services.len()
        invariant
            k <= services@.len(),
            views(in_actions@) == allowed,
            allowed == policies_services(policies@),
            views(out@) == views(services@.take(k as int)).filter(|s: Seq<char>| !allowed.contains(s)),
        decreases services@.len() - k,
    {
        let found = vec_contains(&in_actions, services[k].as_str());
        let ghost before = out@;
        if !found {
            out.push(services[k].clone());
        }
        proof {
            let f = |s: Seq<char>| !allowed.contains(s);
            assert(views(services@.take(k + 1)).drop_last() =~= views(services@.take(k as int)));
            reveal(Seq::filter);
            if !found {
                assert(views(out@) =~= views(before).push(services@[k as int]@));
            } else {
                assert(views(out@) =~= views(before));
            }
        }
        k = k + 1;
    }
    assert(services@.take(services@.len() as int) =~= services@);
    out
}

/// The lines after the first one that mentions the dependencies header.
pub open spec fn after_dependencies_header(lines: Seq<Seq<char>>) -> Seq<Seq<char>>
    decreases lines.len(),
{
    if lines.len() == 0 {
        lines
    } else if contains_seq(lines[0], "[dependencies]"@) {
        lines.drop_first()
    } else {
        after_dependencies_header(lines.drop_first())
    }
}

/// The leading lines up to the first one that opens a new section.
pub open spec fn up_to_next_section(lines: Seq<Seq<char>>) -> Seq<Seq<char>>
    decreases lines.len(),
{
    if lines.len() == 0 || "["@.is_prefix_of(lines[0]) {
        Seq::empty()
    } else {
        seq![lines[0]] + up_to_next_section(lines.drop_first())
    }
}

/// The service named by a dependency line: its name before `=`, trimmed, without `aws-sdk-`.
pub open spec fn dependency_service(line: Seq<char>) -> Seq<char> {
    replace_seq(trim_seq(split_seq(line, '=')[0]), "aws-sdk-"@, ""@)
}

/// The services of the lines that mention `aws-sdk`, kept where they are known services.
pub open spec fn sdk_services(lines: Seq<Seq<char>>, known: Seq<Seq<char>>) -> Seq<Seq<char>>
    decreases lines.len(),
{
    if lines.len() == 0 {
        Seq::empty()
    } else {
        let rest = sdk_services(lines.drop_first(), known);
        let name = dependency_service(lines[0]);
        if contains_seq(lines[0], "aws-sdk"@) && known.contains(name) {
            seq![name] + rest
        } else {
            rest
        }
    }
}

/// The AWS services that a Cargo manifest depends on through an SDK crate.
pub open spec fn toml_services(content: Seq<char>) -> Seq<Seq<char>> {
    sdk_services(
        up_to_next_section(after_dependencies_header(split_seq(content, '\n'))),
        aws_service_names(),
    )
}

/// The AWS services, in order, whose SDK crates the `[dependencies]` section of a Cargo
/// manifest names; other sections, such as the development dependencies, are not read.
pub fn map_string_of_tom_dependencies_to_aws_services(file_content: &str) -> (r: Vec<String>)
    ensures
        views(r@) == toml_services(file_content@),
{
    let services = split_char(AWS_SERVICES_LIST, '\n');
    let lines = split_char(file_content, '\n');
    let ghost all = views(lines@);
    let mut i: usize = 0;
    assert(all.skip(0) =~= all);
    while i < lines.len() && !contains(lines[i].as_str(), "[dependencies]")
        invariant
            i <= lines@.len(),
            all == views(lines@),
            after_dependencies_header(all) == after_dependencies_header(all.skip(i as int)),
        decreases lines@.len() - i,
    {
        assert(all.skip(i as int).drop_first() =~= all.skip(i + 1));
        i = i + 1;
    }
    let mut out: Vec<String> = Vec::new();
    if i == lines.len() {
        assert(all.skip(i as int) =~= Seq::<Seq<char>>::empty());
        return out;
    }
    assert(all.skip(i as int).drop_first() =~= all.skip(i + 1));
    let ghost section = all.skip(i + 1);
    assert(after_dependencies_header(all) == section);
    let mut j: usize = i + 1;
    while j < lines.len() && !starts_with(lines[j].as_str(), "[")
        invariant
            i < j <= lines@.len(),
            all == views(lines@),
            views(services@) == aws_service_names(),
            section == all.skip(i + 1),
            views(out@) + sdk_services(up_to_next_section(all.skip(j as int)), aws_service_names())
                == sdk_services(up_to_next_section(section), aws_service_names()),
        decreases lines@.len() - j,
    {
        let ghost line = all[j as int];
        let ghost tail = up_to_next_section(all.skip(j + 1));
        assert(all.skip(j as int).drop_first() =~= all.skip(j + 1));
        assert(up_to_next_section(all.skip(j as int)) == seq![line] + tail);
        assert((seq![line] + tail).drop_first() =~= tail);
        let ghost before = out@;
        if contains(lines[j].as_str(), "aws-sdk") {
            let parts = split_char(lines[j].as_str(), '=');
            proof {
                lemma_split_nonempty(line, '=');
            }
            let name = trim(parts[0].as_str());
            let service = replace_all(name.as_str(), "aws-sdk-", "");
            if vec_contains(&services, service.as_str()) {
                out.push(service);
                assert(views(out@) =~= views(before) + seq![dependency_service(line)]);
            }
        }
        j = j + 1;
    }
    if j < lines.len() {
        assert(all.skip(j as int)[0] == all[j as int]);
    } else {
        assert(all.skip(j as int) =~= Seq::<Seq<char>>::empty());
    }
    assert(views(out@) + Seq::<Seq<char>>::empty() =~= views(out@));
    out
}

} // verus!
