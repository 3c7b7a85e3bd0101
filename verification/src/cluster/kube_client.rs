use crate::json::{count_json, json_get, member, member_views, nat_text, views, Json, JsonValue};
use vstd::prelude::*;

verus! {

// ---------------------------------------------------------------------------
// Pod failures.
/// What the failure analysis reads of a container state: whether the
/// container is (or was) waiting, and whether it terminated.
#[derive(Debug)]
pub struct ContainerStateRecord {
    pub waiting: bool,
    pub terminated: bool,
}

/// What the failure analysis reads of a container's status.
#[derive(Debug)]
pub struct ContainerStatusRecord {
    pub name: String,
    pub state: Option<ContainerStateRecord>,
    pub last_state: Option<ContainerStateRecord>,
}

/// What the failure analysis reads of a pod's status.
#[derive(Debug)]
pub struct PodStatusRecord {
    pub container_statuses: Option<Vec<ContainerStatusRecord>>,
}

/// What the failure analysis reads of a pod: its name and its status.
#[derive(Debug)]
pub struct PodRecord {
    pub name: Option<String>,
    pub status: Option<PodStatusRecord>,
}

/// One failure of a container.
pub open spec fn failure_json(pod: Seq<char>, container: Seq<char>, reason: Seq<char>) -> Json {
    Json::Object(
        seq![
            ("container"@, Json::Str(container)),
            ("pod"@, Json::Str(pod)),
            ("reason"@, Json::Str(reason)),
        ],
    )
}

/// The name a pod is reported under: its name, or the empty text.
pub open spec fn reported_name(p: PodRecord) -> Seq<char> {
    match p.name {
        Some(n) => n@,
        None => Seq::empty(),
    }
}

/// The failure that the last state of a container shows: one when it
/// terminated or waited.
pub open spec fn previous_state_failures(pod: Seq<char>, c: ContainerStatusRecord) -> Seq<Json> {
    if c.last_state matches Some(s) && (s.terminated || s.waiting) {
        seq![failure_json(pod, c.name@, "Previous state indicates failure"@)]
    } else {
        Seq::empty()
    }
}

/// The failure that the current state of a container shows: one when it is
/// waiting.
pub open spec fn current_state_failures(pod: Seq<char>, c: ContainerStatusRecord) -> Seq<Json> {
    if c.state matches Some(s) && s.waiting {
        seq![failure_json(pod, c.name@, "Currently waiting"@)]
    } else {
        Seq::empty()
    }
}

/// The failures of one container: that of its last state, then that of its
/// current state.
pub open spec fn container_failures(pod: Seq<char>, c: ContainerStatusRecord) -> Seq<Json> {
    previous_state_failures(pod, c) + current_state_failures(pod, c)
}

/// The failures of a sequence of containers of one pod, in order.
pub open spec fn statuses_failures(pod: Seq<char>, cs: Seq<ContainerStatusRecord>) -> Seq<Json>
    decreases cs.len(),
{
    if cs.len() == 0 {
        Seq::empty()
    } else {
        statuses_failures(pod, cs.drop_last()) + container_failures(pod, cs.last())
    }
}

/// The failures of a pod: those of its containers, when it has a status
/// that lists them.
pub open spec fn pod_failures(p: PodRecord) -> Seq<Json> {
    match p.status {
        Some(st) => match st.container_statuses {
            Some(cs) => statuses_failures(reported_name(p), cs@),
            None => Seq::empty(),
        },
        None => Seq::empty(),
    }
}

/// The failures of a sequence of pods, in order.
pub open spec fn pods_failures(pods: Seq<PodRecord>) -> Seq<Json>
    decreases pods.len(),
{
    if pods.len() == 0 {
        Seq::empty()
    } else {
        pods_failures(pods.drop_last()) + pod_failures(pods.last())
    }
}

/// The report of the failures in a namespace: the failures found, the
/// namespace, and how many pods were checked.
pub open spec fn failure_report(namespace: Seq<char>, pods: Seq<PodRecord>) -> Json {
    Json::Object(
        seq![
            ("failures"@, Json::Array(pods_failures(pods))),
            ("namespace"@, Json::Str(namespace)),
            ("total_pods_checked"@, Json::Number(nat_text(pods.len()))),
        ],
    )
}

fn failure_entry(pod: &String, container: &String, reason: &str) -> (r: JsonValue)
    ensures
        r@ == failure_json(pod@, container@, reason@),
{
    let members = vec![
        member("container", JsonValue::Str(container.clone())),
        member("pod", JsonValue::Str(pod.clone())),
        member("reason", JsonValue::text(reason)),
    ];
    let r = JsonValue::object(members);
    assert(member_views(members@) =~= failure_json(pod@, container@, reason@)->Object_0);
    r
}

fn push_failure(failures: &mut Vec<JsonValue>, entry: JsonValue)
    ensures
        views(final(failures)@) == views(old(failures)@).push(entry@),
{
    failures.push(entry);
    assert(views(failures@) =~= views(old(failures)@).push(entry@));
}

fn push_container_failures(pod: &String, c: &ContainerStatusRecord, failures: &mut Vec<JsonValue>)
    ensures
        views(final(failures)@) == views(old(failures)@) + container_failures(pod@, *c),
{
    let ghost start = views(failures@);
    let ghost first = previous_state_failures(pod@, *c);
    match &c.last_state {
        Some(s) => {
            if s.terminated || s.waiting {
                push_failure(failures, failure_entry(pod, &c.name, "Previous state indicates failure"));
            }
        },
        None => {},
    }
    assert(views(failures@) =~= start + first);
    match &c.state {
        Some(s) => {
            if s.waiting {
                push_failure(failures, failure_entry(pod, &c.name, "Currently waiting"));
            }
        },
        None => {},
    }
    assert(views(failures@) =~= start + container_failures(pod@, *c));
}

fn push_pod_failures(p: &PodRecord, failures: &mut Vec<JsonValue>)
    ensures
        views(final(failures)@) == views(old(failures)@) + pod_failures(*p),
{
    let name = match &p.name {
        Some(n) => n.clone(),
        None => String::new(),
    };
    match &p.status {
        Some(st) => match &st.container_statuses {
            Some(cs) => {
                let ghost start = views(failures@);
                let mut i: usize = 0;
                while i < cs.len()
                    invariant
                        i <= cs.len(),
                        name@ == reported_name(*p),
                        views(failures@) == start + statuses_failures(name@, cs@.take(i as int)),
                    decreases cs.len() - i,
                {
                    push_container_failures(&name, &cs[i], failures);
                    assert(cs@.take(i + 1).drop_last() =~= cs@.take(i as int));
                    assert(views(failures@) =~= start + statuses_failures(name@, cs@.take(i + 1)));
                    i += 1;
                }
                assert(cs@.take(cs.len() as int) =~= cs@);
            },
            None => {
                assert(views(failures@) =~= views(old(failures)@) + pod_failures(*p));
            },
        },
        None => {
            assert(views(failures@) =~= views(old(failures)@) + pod_failures(*p));
        },
    }
}

/// The report of the failures found among the pods of a namespace: for each
/// container, in order, a failure when its last state shows that it
/// terminated or waited and another when it is waiting now.
pub fn pod_failure_report(namespace: &str, pods: &Vec<PodRecord>) -> (r: JsonValue)
    ensures
        r@ == failure_report(namespace@, pods@),
{
    let mut failures: Vec<JsonValue> = Vec::new();
    let mut i: usize = 0;
    assert(views(failures@) =~= pods_failures(pods@.take(0)));
    while i < pods.len()
        invariant
            i <= pods.len(),
            views(failures@) == pods_failures(pods@.take(i as int)),
        decreases pods.len() - i,
    {
        push_pod_failures(&pods[i], &mut failures);
        assert(pods@.take(i + 1).drop_last() =~= pods@.take(i as int));
        i += 1;
    }
    assert(pods@.take(pods.len() as int) =~= pods@);
    let members = vec![
        member("failures", JsonValue::array(failures)),
        member("namespace", JsonValue::text(namespace)),
        member("total_pods_checked", count_json(pods.len())),
    ];
    let r = JsonValue::object(members);
    assert(member_views(members@) =~= failure_report(namespace@, pods@)->Object_0);
    r
}

/// A container that neither waits now nor shows a terminated or waiting
/// last state.
pub open spec fn healthy_container(c: ContainerStatusRecord) -> bool {
    &&& !(c.last_state matches Some(s) && (s.terminated || s.waiting))
    &&& !(c.state matches Some(s) && s.waiting)
}

/// A pod all of whose containers are healthy.
pub open spec fn healthy_pod(p: PodRecord) -> bool {
    p.status matches Some(st) && st.container_statuses matches Some(cs) ==> forall|i: int|
        0 <= i < cs.len() ==> healthy_container(#[trigger] cs@[i])
}

proof fn lemma_healthy_statuses(pod: Seq<char>, cs: Seq<ContainerStatusRecord>)
    requires
        forall|i: int| 0 <= i < cs.len() ==> healthy_container(#[trigger] cs[i]),
    ensures
        statuses_failures(pod, cs) == Seq::<Json>::empty(),
    decreases cs.len(),
{
    if cs.len() > 0 {
        lemma_healthy_statuses(pod, cs.drop_last());
        assert(healthy_container(cs[cs.len() - 1]));
        assert(container_failures(pod, cs.last()) =~= Seq::<Json>::empty());
        assert(statuses_failures(pod, cs) =~= Seq::<Json>::empty());
    }
}

/// Healthy pods are reported without any failure.
pub proof fn law_healthy_pods_have_no_failure(pods: Seq<PodRecord>)
    requires
        forall|i: int| 0 <= i < pods.len() ==> healthy_pod(#[trigger] pods[i]),
    ensures
        pods_failures(pods) == Seq::<Json>::empty(),
    decreases pods.len(),
{
    if pods.len() > 0 {
        law_healthy_pods_have_no_failure(pods.drop_last());
        let p = pods.last();
        assert(healthy_pod(pods[pods.len() - 1]));
        match p.status {
            Some(st) => match st.container_statuses {
                Some(cs) => lemma_healthy_statuses(reported_name(p), cs@),
                None => {},
            },
            None => {},
        }
        assert(pods_failures(pods) =~= Seq::<Json>::empty());
    }
}

/// The failures of two groups of pods are those of the first group, then
/// those of the second: each pod is reported on its own, in order.
pub proof fn law_failures_follow_pod_order(first: Seq<PodRecord>, second: Seq<PodRecord>)
    ensures
        pods_failures(first + second) == pods_failures(first) + pods_failures(second),
    decreases second.len(),
{
    if second.len() == 0 {
        assert(first + second =~= first);
        assert(pods_failures(first) + pods_failures(second) =~= pods_failures(first));
    } else {
        law_failures_follow_pod_order(first, second.drop_last());
        assert((first + second).drop_last() =~= first + second.drop_last());
        assert((first + second).last() == second.last());
        assert(pods_failures(first + second) =~= pods_failures(first) + pods_failures(second));
    }
}

proof fn lemma_contains_left(s: Seq<Json>, t: Seq<Json>, x: Json)
    requires
        s.contains(x),
    ensures
        (s + t).contains(x),
{
    let k = choose|k: int| 0 <= k < s.len() && s[k] == x;
    assert((s + t)[k] == x);
}

proof fn lemma_contains_right(s: Seq<Json>, t: Seq<Json>, x: Json)
    requires
        t.contains(x),
    ensures
        (s + t).contains(x),
{
    let k = choose|k: int| 0 <= k < t.len() && t[k] == x;
    assert((s + t)[s.len() + k] == x);
}

/// The condition under which a container is reported with a reason.
pub open spec fn shows(c: ContainerStatusRecord, reason: Seq<char>) -> bool {
    ||| reason == "Currently waiting"@ && c.state is Some && c.state->Some_0.waiting
    ||| reason == "Previous state indicates failure"@ && c.last_state is Some && (
    c.last_state->Some_0.terminated || c.last_state->Some_0.waiting)
}

proof fn lemma_container_reported(pod: Seq<char>, cs: Seq<ContainerStatusRecord>, j: int, reason: Seq<char>)
    requires
        0 <= j < cs.len(),
        shows(cs[j], reason),
    ensures
        statuses_failures(pod, cs).contains(failure_json(pod, cs[j].name@, reason)),
    decreases cs.len(),
{
    let entry = failure_json(pod, cs[j].name@, reason);
    let rest = cs.drop_last();
    if j == cs.len() - 1 {
        let c = cs.last();
        if reason == "Currently waiting"@ && c.state is Some && c.state->Some_0.waiting {
            assert(current_state_failures(pod, c)[0] == entry);
            lemma_contains_right(previous_state_failures(pod, c), current_state_failures(pod, c), entry);
        } else {
            assert(previous_state_failures(pod, c)[0] == entry);
            lemma_contains_left(previous_state_failures(pod, c), current_state_failures(pod, c), entry);
        }
        lemma_contains_right(statuses_failures(pod, rest), container_failures(pod, c), entry);
    } else {
        assert(rest[j] == cs[j]);
        lemma_container_reported(pod, rest, j, reason);
        lemma_contains_left(statuses_failures(pod, rest), container_failures(pod, cs.last()), entry);
    }
}

/// Every container of every pod is examined: a container that is waiting
/// now, or whose last state terminated or waited, is reported with its pod,
/// whatever its place among the pods and among its pod's containers.
pub proof fn law_every_failed_container_is_reported(pods: Seq<PodRecord>, i: int, j: int, reason: Seq<char>)
    requires
        0 <= i < pods.len(),
        pods[i].status is Some,
        pods[i].status->Some_0.container_statuses is Some,
        0 <= j < pods[i].status->Some_0.container_statuses->Some_0@.len(),
        shows(pods[i].status->Some_0.container_statuses->Some_0@[j], reason),
    ensures
        pods_failures(pods).contains(
            failure_json(
                reported_name(pods[i]),
                pods[i].status->Some_0.container_statuses->Some_0@[j].name@,
                reason,
            ),
        ),
    decreases pods.len(),
{
    let cs = pods[i].status->Some_0.container_statuses->Some_0@;
    let entry = failure_json(reported_name(pods[i]), cs[j].name@, reason);
    let rest = pods.drop_last();
    if i == pods.len() - 1 {
        lemma_container_reported(reported_name(pods[i]), cs, j, reason);
        lemma_contains_right(pods_failures(rest), pod_failures(pods.last()), entry);
    } else {
        assert(rest[i] == pods[i]);
        law_every_failed_container_is_reported(rest, i, j, reason);
        lemma_contains_left(pods_failures(rest), pod_failures(pods.last()), entry);
    }
}

/// Every failure reported names a pod that was checked, one of its
/// containers, and a reason that the container's states show.
pub proof fn law_every_failure_is_justified(pods: Seq<PodRecord>, k: int)
    requires
        0 <= k < pods_failures(pods).len(),
    ensures
        exists|i: int, j: int, reason: Seq<char>|
            0 <= i < pods.len() && pods[i].status is Some && pods[i].status->Some_0.container_statuses is Some
                && 0 <= j < pods[i].status->Some_0.container_statuses->Some_0@.len() && shows(
                pods[i].status->Some_0.container_statuses->Some_0@[j],
                reason,
            ) && pods_failures(pods)[k] == failure_json(
                reported_name(pods[i]),
                pods[i].status->Some_0.container_statuses->Some_0@[j].name@,
                reason,
            ),
    decreases pods.len(),
{
    let rest = pods.drop_last();
    let head = pods_failures(rest);
    if k < head.len() {
        law_every_failure_is_justified(rest, k);
        let (i, j, reason) = choose|i: int, j: int, reason: Seq<char>|
            0 <= i < rest.len() && rest[i].status is Some && rest[i].status->Some_0.container_statuses is Some
                && 0 <= j < rest[i].status->Some_0.container_statuses->Some_0@.len() && shows(
                rest[i].status->Some_0.container_statuses->Some_0@[j],
                reason,
            ) && head[k] == failure_json(
                reported_name(rest[i]),
                rest[i].status->Some_0.container_statuses->Some_0@[j].name@,
                reason,
            );
        assert(rest[i] == pods[i]);
        assert(pods_failures(pods)[k] == head[k]);
    } else {
        let p = pods.last();
        let i = pods.len() - 1;
        let cs = p.status->Some_0.container_statuses->Some_0@;
        lemma_statuses_justified(reported_name(p), cs, k - head.len());
        let (j, reason) = choose|j: int, reason: Seq<char>|
            0 <= j < cs.len() && shows(cs[j], reason) && statuses_failures(reported_name(p), cs)[k
                - head.len()] == failure_json(reported_name(p), cs[j].name@, reason);
        assert(pods_failures(pods)[k] == pod_failures(p)[k - head.len()]);
        assert(pods[i] == p);
    }
}

proof fn lemma_statuses_justified(pod: Seq<char>, cs: Seq<ContainerStatusRecord>, k: int)
    requires
        0 <= k < statuses_failures(pod, cs).len(),
    ensures
        exists|j: int, reason: Seq<char>|
            0 <= j < cs.len() && shows(cs[j], reason) && statuses_failures(pod, cs)[k] == failure_json(
                pod,
                cs[j].name@,
                reason,
            ),
    decreases cs.len(),
{
    let rest = cs.drop_last();
    let head = statuses_failures(pod, rest);
    let c = cs.last();
    let j = cs.len() - 1;
    if k < head.len() {
        lemma_statuses_justified(pod, rest, k);
        let (j0, reason) = choose|j0: int, reason: Seq<char>|
            0 <= j0 < rest.len() && shows(rest[j0], reason) && head[k] == failure_json(
                pod,
                rest[j0].name@,
                reason,
            );
        assert(rest[j0] == cs[j0]);
        assert(statuses_failures(pod, cs)[k] == head[k]);
    } else {
        let m = k - head.len();
        let prev = previous_state_failures(pod, c);
        assert(statuses_failures(pod, cs)[k] == container_failures(pod, c)[m]);
        if m < prev.len() {
            assert(shows(cs[j], "Previous state indicates failure"@));
            assert(statuses_failures(pod, cs)[k] == failure_json(pod, cs[j].name@, "Previous state indicates failure"@));
        } else {
            assert(shows(cs[j], "Currently waiting"@));
            assert(statuses_failures(pod, cs)[k] == failure_json(pod, cs[j].name@, "Currently waiting"@));
        }
    }
}

/// A Prometheus answer is accepted exactly when its HTTP status is a
/// success, 200 to 299; any other status, 4xx and 5xx included, is an error.
pub proof fn law_only_success_statuses_are_accepted(code: u16)
    ensures
        is_success_status(code) <==> (200 <= code && code < 300),
{
}

// ---------------------------------------------------------------------------
// Ingress status and metrics.
/// A configured address, or the default one when none is configured.
pub open spec fn configured_or(configured: Option<Seq<char>>, default: Seq<char>) -> Seq<char> {
    match configured {
        Some(c) => c,
        None => default,
    }
}

/// The view of an optional text.
pub open spec fn opt_string_view(o: Option<String>) -> Option<Seq<char>> {
    match o {
        Some(s) => Some(s@),
        None => None,
    }
}

/// The address of the Kubernetes API: the configured one (`KUBE_API_URL`),
/// or `http://localhost:8080`.
pub fn kube_api_base_url(configured: Option<String>) -> (r: String)
    ensures
        r@ == configured_or(opt_string_view(configured), "http://localhost:8080"@),
{
    match configured {
        Some(c) => c,
        None => String::from_str("http://localhost:8080"),
    }
}

/// The address of Prometheus: the configured one (`PROMETHEUS_URL`), or
/// `http://localhost:9090`.
pub fn prometheus_base_url(configured: Option<String>) -> (r: String)
    ensures
        r@ == configured_or(opt_string_view(configured), "http://localhost:9090"@),
{
    match configured {
        Some(c) => c,
        None => String::from_str("http://localhost:9090"),
    }
}

/// Where the APISIX routes of a namespace are listed.
pub open spec fn apisix_routes_url(base: Seq<char>, namespace: Seq<char>) -> Seq<char> {
    base + "/apis/apisix.apache.org/v1beta2/namespaces/"@ + namespace + "/apisixroutes"@
}

/// Where the cert-manager certificates of a namespace are listed.
pub open spec fn certificates_url(base: Seq<char>, namespace: Seq<char>) -> Seq<char> {
    base + "/apis/cert-manager.io/v1/namespaces/"@ + namespace + "/certificates"@
}

/// The addresses of the APISIX routes and of the certificates of a
/// namespace.
pub fn ingress_urls(base: &str, namespace: &str) -> (r: (String, String))
    ensures
        r.0@ == apisix_routes_url(base@, namespace@),
        r.1@ == certificates_url(base@, namespace@),
{
    let mut routes = String::from_str(base);
    routes.append("/apis/apisix.apache.org/v1beta2/namespaces/");
    routes.append(namespace);
    routes.append("/apisixroutes");
    let mut certificates = String::from_str(base);
    certificates.append("/apis/cert-manager.io/v1/namespaces/");
    certificates.append(namespace);
    certificates.append("/certificates");
    (routes, certificates)
}

/// The ingress status of a namespace: its APISIX routes and its
/// certificates, as the API gave them.
pub open spec fn ingress_status_json(routes: Json, certificates: Json) -> Json {
    Json::Object(seq![("apisix_routes"@, routes), ("certificates"@, certificates)])
}

/// Builds the ingress status of a namespace.
pub fn ingress_status(routes: JsonValue, certificates: JsonValue) -> (r: JsonValue)
    ensures
        r@ == ingress_status_json(routes@, certificates@),
{
    let ghost (rv, cv) = (routes@, certificates@);
    let members = vec![member("apisix_routes", routes), member("certificates", certificates)];
    let r = JsonValue::object(members);
    assert(member_views(members@) =~= ingress_status_json(rv, cv)->Object_0);
    r
}

/// Where Prometheus answers queries.
pub open spec fn prometheus_query_url(base: Seq<char>) -> Seq<char> {
    base + "/api/v1/query"@
}

/// The address of Prometheus' query endpoint.
pub fn metrics_query_url(base: &str) -> (r: String)
    ensures
        r@ == prometheus_query_url(base@),
{
    let mut url = String::from_str(base);
    url.append("/api/v1/query");
    url
}

/// An HTTP status of success: 200 to 299.
pub open spec fn is_success_status(code: u16) -> bool {
    200 <= code <= 299
}

/// The error for an answer of Prometheus whose HTTP status is not a success;
/// `status_text` is how the status is written (such as
/// `500 Internal Server Error`).
pub fn prometheus_status_error(code: u16, status_text: &str) -> (r: Option<String>)
    ensures
        is_success_status(code) <==> r is None,
        200 <= code <= 299 <==> r is None,
        r matches Some(m) ==> m@ == "Prometheus API error: "@ + status_text@,
{
    if 200 <= code && code <= 299 {
        None
    } else {
        let mut message = String::from_str("Prometheus API error: ");
        message.append(status_text);
        Some(message)
    }
}

/// The report of a namespace names the namespace, counts every pod that was
/// checked, and lists the failures found among them.
pub proof fn law_report_counts_every_pod(namespace: Seq<char>, pods: Seq<PodRecord>)
    ensures
        json_get(failure_report(namespace, pods), "namespace"@) == Some(Json::Str(namespace)),
        json_get(failure_report(namespace, pods), "total_pods_checked"@) == Some(
            Json::Number(nat_text(pods.len())),
        ),
        json_get(failure_report(namespace, pods), "failures"@) == Some(Json::Array(pods_failures(pods))),
{
    reveal_strlit("failures");
    reveal_strlit("namespace");
    reveal_strlit("total_pods_checked");
    assert("failures"@[0] != "namespace"@[0]);
    assert("failures"@[0] != "total_pods_checked"@[0]);
    assert("namespace"@[0] != "total_pods_checked"@[0]);
    let m = failure_report(namespace, pods)->Object_0;
    let m2 = m.drop_last();
    let m1 = m2.drop_last();
    assert(m2 =~= seq![m[0], m[1]]);
    assert(m1 =~= seq![m[0]]);
    assert(m1.drop_last() =~= Seq::<(Seq<char>, Json)>::empty());
    assert(m.last().0 != "namespace"@);
    assert(m.last().0 != "failures"@);
    assert(m2.last().0 != "failures"@);
    assert(crate::json::member_lookup(m1, "failures"@) == Some(Json::Array(pods_failures(pods))));
    assert(crate::json::member_lookup(m2, "failures"@) == Some(Json::Array(pods_failures(pods))));
    assert(crate::json::member_lookup(m2, "namespace"@) == Some(Json::Str(namespace)));
}

/// The ingress status holds the routes under `apisix_routes` and the
/// certificates under `certificates`, each as the API gave it.
pub proof fn law_ingress_status_keeps_both_listings(routes: Json, certificates: Json)
    ensures
        json_get(ingress_status_json(routes, certificates), "apisix_routes"@) == Some(routes),
        json_get(ingress_status_json(routes, certificates), "certificates"@) == Some(certificates),
{
    reveal_strlit("apisix_routes");
    reveal_strlit("certificates");
    assert("apisix_routes"@[0] != "certificates"@[0]);
    let m = ingress_status_json(routes, certificates)->Object_0;
    assert(m.drop_last() =~= seq![m[0]]);
    assert(m.last().0 != "apisix_routes"@);
    assert(crate::json::member_lookup(m.drop_last(), "apisix_routes"@) == Some(routes));
}

/// The listings asked for are those of the namespace given, under the
/// address given: the APISIX routes at
/// `<base>/apis/apisix.apache.org/v1beta2/namespaces/<namespace>/apisixroutes`
/// and the certificates at
/// `<base>/apis/cert-manager.io/v1/namespaces/<namespace>/certificates`;
/// two namespaces of the same length are never asked at the same address.
pub proof fn law_ingress_addresses_name_the_namespace(base: Seq<char>, ns: Seq<char>, other: Seq<char>)
    ensures
        apisix_routes_url(base, ns) == base + "/apis/apisix.apache.org/v1beta2/namespaces/"@ + ns
            + "/apisixroutes"@,
        certificates_url(base, ns) == base + "/apis/cert-manager.io/v1/namespaces/"@ + ns + "/certificates"@,
        ns.len() == other.len() && ns != other ==> apisix_routes_url(base, ns) != apisix_routes_url(
            base,
            other,
        ) && certificates_url(base, ns) != certificates_url(base, other),
{
    if ns.len() == other.len() && ns != other {
        if forall|k: int| 0 <= k < ns.len() ==> ns[k] == other[k] {
            assert(ns =~= other);
        }
        let k = choose|k: int| 0 <= k < ns.len() && ns[k] != other[k];
        let p1 = base + "/apis/apisix.apache.org/v1beta2/namespaces/"@;
        let s1 = "/apisixroutes"@;
        assert((p1 + ns)[p1.len() + k] == ns[k]);
        assert((p1 + other)[p1.len() + k] == other[k]);
        assert((p1 + ns + s1)[p1.len() + k] == ns[k]);
        assert((p1 + other + s1)[p1.len() + k] == other[k]);
        let p2 = base + "/apis/cert-manager.io/v1/namespaces/"@;
        let s2 = "/certificates"@;
        assert((p2 + ns)[p2.len() + k] == ns[k]);
        assert((p2 + other)[p2.len() + k] == other[k]);
        assert((p2 + ns + s2)[p2.len() + k] == ns[k]);
        assert((p2 + other + s2)[p2.len() + k] == other[k]);
    }
}

/// A configured address is used unchanged; without one, the local default.
pub proof fn law_configured_addresses_win(configured: Option<Seq<char>>, default: Seq<char>)
    ensures
        configured matches Some(c) ==> configured_or(configured, default) == c,
        configured is None ==> configured_or(configured, default) == default,
{
}

} // verus!
