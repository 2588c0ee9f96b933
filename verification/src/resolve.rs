//! Pod discovery and prefix resolution.
//!
//! A caller scans the socket base directory and hands in, for each immediate
//! subdirectory, its name and whether it holds the required control-socket
//! file.  The functions here decide everything else: which subdirectories
//! qualify as pods, the sorted listing, and how a user-supplied prefix maps
//! to exactly one pod — an exact match always wins, otherwise the prefix must
//! match exactly one candidate.

use crate::strutil::{
    id_order, is_prefix_of, join_strings, join_with, lemma_id_order_total, sort_ids, str_eq,
    str_starts_with,
};
use vstd::prelude::*;
use vstd::relations::sorted_by;
use vstd::seq_lib::to_multiset_contains;
use vstd::string::StringExecFns;

verus! {

/// One immediate subdirectory of the socket base directory, as a caller found
/// it on disk: its name and whether it contains the control-socket file.
pub struct PodEntry {
    pub name: String,
    pub has_socket: bool,
}

/// The names of the entries that hold the control-socket file, in the order
/// given.
pub open spec fn qualifying_ids(entries: Seq<PodEntry>) -> Seq<Seq<char>>
    decreases entries.len(),
{
    if entries.len() == 0 {
        Seq::empty()
    } else {
        let rest = qualifying_ids(entries.drop_last());
        if entries.last().has_socket {
            rest.push(entries.last().name@)
        } else {
            rest
        }
    }
}

/// The candidates that start with `prefix`, keeping their order.
pub open spec fn prefix_matches(pods: Seq<Seq<char>>, prefix: Seq<char>) -> Seq<Seq<char>>
    decreases pods.len(),
{
    if pods.len() == 0 {
        Seq::empty()
    } else {
        let rest = prefix_matches(pods.drop_last(), prefix);
        if is_prefix_of(prefix, pods.last()) {
            rest.push(pods.last())
        } else {
            rest
        }
    }
}

/// Lists the pods that a directory snapshot offers: every entry with the
/// control-socket file qualifies, no other does, and the result is sorted
/// lexicographically.  A missing base directory yields the empty listing, not
/// an error.
pub fn list_available_pods(dir_exists: bool, entries: &Vec<PodEntry>) -> (r: Vec<String>)
    ensures
        r.deep_view() == (if dir_exists {
            qualifying_ids(entries@).sort_by(id_order())
        } else {
            Seq::<Seq<char>>::empty()
        }),
{
    if !dir_exists {
        let r: Vec<String> = Vec::new();
        proof {
            assert(r.deep_view() =~= Seq::<Seq<char>>::empty());
        }
        return r;
    }
    let mut ids: Vec<String> = Vec::new();
    let n: usize = entries.len();
    let mut i: usize = 0;
    proof {
        assert(ids.deep_view() =~= qualifying_ids(entries@.take(0)));
    }
    while i < n
        invariant
            i <= n,
            n == entries@.len(),
            ids.deep_view() == qualifying_ids(entries@.take(i as int)),
        decreases n - i,
    {
        let ghost pre_dv = ids.deep_view();
        if entries[i].has_socket {
            ids.push(entries[i].name.clone());
        }
        proof {
            assert(entries@.take(i + 1).drop_last() =~= entries@.take(i as int));
            assert(entries@.take(i + 1).last() == entries@[i as int]);
            if entries@[i as int].has_socket {
                assert(ids.deep_view() =~= pre_dv.push(entries@[i as int].name@));
            }
        }
        i = i + 1;
    }
    proof {
        assert(entries@.take(n as int) =~= entries@);
    }
    sort_ids(ids)
}

/// A name qualifies exactly when some entry with the control-socket file
/// carries it.
pub proof fn lemma_qualifying_ids_contains(entries: Seq<PodEntry>, id: Seq<char>)
    ensures
        qualifying_ids(entries).contains(id) <==> exists|i: int|
            0 <= i < entries.len() && (#[trigger] entries[i]).has_socket && entries[i].name@
                == id,
    decreases entries.len(),
{
    if entries.len() > 0 {
        let prior = entries.drop_last();
        let rest = qualifying_ids(prior);
        let whole = qualifying_ids(entries);
        lemma_qualifying_ids_contains(prior, id);
        if entries.last().has_socket {
            assert(whole == rest.push(entries.last().name@));
            assert forall|k: int| 0 <= k < rest.len() implies whole[k] == rest[k] by {}
            if whole.contains(id) {
                let k = choose|k: int| 0 <= k < whole.len() && whole[k] == id;
                if k < rest.len() {
                    assert(rest.contains(id));
                } else {
                    assert(entries.last().name@ == id);
                    assert(entries[entries.len() - 1].has_socket);
                }
            }
            if exists|i: int|
                0 <= i < entries.len() && (#[trigger] entries[i]).has_socket && entries[i].name@
                    == id {
                let i = choose|i: int|
                    0 <= i < entries.len() && (#[trigger] entries[i]).has_socket
                        && entries[i].name@ == id;
                if i < entries.len() - 1 {
                    assert(prior[i] == entries[i]);
                    assert(rest.contains(id));
                    let k = choose|k: int| 0 <= k < rest.len() && rest[k] == id;
                    assert(whole[k] == id);
                } else {
                    assert(whole.last() == id);
                }
            }
        } else {
            assert(whole == rest);
            if exists|i: int|
                0 <= i < entries.len() && (#[trigger] entries[i]).has_socket && entries[i].name@
                    == id {
                let i = choose|i: int|
                    0 <= i < entries.len() && (#[trigger] entries[i]).has_socket
                        && entries[i].name@ == id;
                assert(i < entries.len() - 1);
                assert(prior[i] == entries[i]);
            }
        }
    }
}

/// The listing is sorted, and a pod stands in it exactly when some entry
/// with the control-socket file carries its name — entries lacking the file
/// are excluded.
pub proof fn lemma_listing_properties(entries: Seq<PodEntry>, id: Seq<char>)
    ensures
        sorted_by(qualifying_ids(entries).sort_by(id_order()), id_order()),
        qualifying_ids(entries).sort_by(id_order()).contains(id) <==> exists|i: int|
            0 <= i < entries.len() && (#[trigger] entries[i]).has_socket && entries[i].name@
                == id,
{
    lemma_id_order_total();
    let q = qualifying_ids(entries);
    let s = q.sort_by(id_order());
    q.lemma_sort_by_ensures(id_order());
    to_multiset_contains(q, id);
    to_multiset_contains(s, id);
    lemma_qualifying_ids_contains(entries, id);
}

/// Why a prefix failed to resolve.  The messages enumerate the candidates so
/// the next invocation can disambiguate.
#[derive(Debug)]
pub enum ResolveError {
    NotFound { message: String },
    AmbiguousPrefix { matches: Vec<String>, message: String },
}

/// Message used when the directory offers no pod at all.
pub open spec fn no_pods_message(socket_dir: Seq<char>) -> Seq<char> {
    "No pods found in "@ + socket_dir + ". Please check if any pods are running."@
}

/// Message used when no candidate starts with the prefix; it enumerates every
/// available pod.
pub open spec fn not_found_message(prefix: Seq<char>, available: Seq<Seq<char>>) -> Seq<char> {
    "No pod found with prefix \""@ + prefix + "\". Available pods:\n  "@ + join_with(
        available,
        "\n  "@,
    )
}

/// Message used when several candidates start with the prefix; it enumerates
/// every match.
pub open spec fn ambiguous_message(prefix: Seq<char>, pod_matches: Seq<Seq<char>>) -> Seq<char> {
    "Pod prefix \""@ + prefix + "\" matches multiple pods:\n  "@ + join_with(pod_matches, "\n  "@)
        + "\nPlease provide a more specific prefix."@
}

impl ResolveError {
    /// The human-readable account of the failure.
    pub fn message(&self) -> (r: &str)
        ensures
            r@ == (match self {
                ResolveError::NotFound { message } => message@,
                ResolveError::AmbiguousPrefix { message, .. } => message@,
            }),
    {
        match self {
            ResolveError::NotFound { message } => message.as_str(),
            ResolveError::AmbiguousPrefix { message, .. } => message.as_str(),
        }
    }
}

/// The index of the candidate that equals `id`, if any.
pub(crate) fn index_of_eq(pods: &Vec<String>, id: &str) -> (r: Option<usize>)
    ensures
        match r {
            Some(i) => i < pods@.len() && pods.deep_view()[i as int] == id@,
            None => forall|j: int| 0 <= j < pods@.len() ==> pods.deep_view()[j] != id@,
        },
{
    let n: usize = pods.len();
    let mut i: usize = 0;
    while i < n
        invariant
            i <= n,
            n == pods@.len(),
            forall|j: int| 0 <= j < i ==> pods.deep_view()[j] != id@,
        decreases n - i,
    {
        if str_eq(pods[i].as_str(), id) {
            return Some(i);
        }
        i = i + 1;
    }
    None
}

/// The candidates that start with `prefix`, in their given order.
pub(crate) fn collect_prefix_matches(pods: &Vec<String>, prefix: &str) -> (r: Vec<String>)
    ensures
        r.deep_view() == prefix_matches(pods.deep_view(), prefix@),
{
    let mut found: Vec<String> = Vec::new();
    let n: usize = pods.len();
    let mut i: usize = 0;
    proof {
        assert(found.deep_view() =~= prefix_matches(pods.deep_view().take(0), prefix@));
    }
    while i < n
        invariant
            i <= n,
            n == pods@.len(),
            found.deep_view() == prefix_matches(pods.deep_view().take(i as int), prefix@),
        decreases n - i,
    {
        let ghost pre_dv = found.deep_view();
        let ghost dv = pods.deep_view();
        if str_starts_with(pods[i].as_str(), prefix) {
            found.push(pods[i].clone());
        }
        proof {
            assert(dv.take(i + 1).drop_last() =~= dv.take(i as int));
            assert(dv.take(i + 1).last() == dv[i as int]);
            if is_prefix_of(prefix@, dv[i as int]) {
                assert(found.deep_view() =~= pre_dv.push(dv[i as int]));
            }
        }
        i = i + 1;
    }
    proof {
        assert(pods.deep_view().take(n as int) =~= pods.deep_view());
    }
    found
}

/// Resolves a pod identifier or unique prefix against the listed candidates.
///
/// An exact match always wins, even when other candidates share the prefix.
/// Otherwise, exactly one candidate starting with the prefix resolves to that
/// candidate; none fails with `NotFound`, two or more fail with
/// `AmbiguousPrefix` naming every match.
pub fn resolve_pod_id(socket_dir: &str, pod_prefix: &str, available_pods: &Vec<String>) -> (r:
    Result<String, ResolveError>)
    ensures
        ({
            let pods = available_pods.deep_view();
            let pre = pod_prefix@;
            let pod_matches = prefix_matches(pods, pre);
            &&& (r is Ok <==> pods.contains(pre) || pod_matches.len() == 1)
            &&& (pods.contains(pre) ==> (r matches Ok(id) && id@ == pre))
            &&& (!pods.contains(pre) && pod_matches.len() == 1 ==> (r matches Ok(id) && id@
                == pod_matches[0]))
            &&& (!pods.contains(pre) && pod_matches.len() == 0 ==> (r matches Err(e)
                && (e matches ResolveError::NotFound { message } && message@ == (if pods.len()
                == 0 {
                no_pods_message(socket_dir@)
            } else {
                not_found_message(pre, pods)
            }))))
            &&& (!pods.contains(pre) && pod_matches.len() >= 2 ==> (r matches Err(e)
                && (e matches ResolveError::AmbiguousPrefix { matches: m, message }
                && m.deep_view() == pod_matches && message@ == ambiguous_message(
                pre,
                pod_matches,
            ))))
        }),
{
    let ghost pods = available_pods.deep_view();
    let ghost pre = pod_prefix@;
    if let Some(i) = index_of_eq(available_pods, pod_prefix) {
        proof {
            assert(pods.contains(pre));
        }
        return Ok(String::from_str(pod_prefix));
    }
    proof {
        assert(!pods.contains(pre)) by {
            if pods.contains(pre) {
                let w = choose|w: int| 0 <= w < pods.len() && pods[w] == pre;
                assert(pods[w] == pre);
            }
        }
    }
    let pod_matches = collect_prefix_matches(available_pods, pod_prefix);
    if pod_matches.len() == 0 {
        let mut message = String::new();
        if available_pods.len() == 0 {
            message.append("No pods found in ");
            message.append(socket_dir);
            message.append(". Please check if any pods are running.");
            proof {
                assert(message@ =~= no_pods_message(socket_dir@));
            }
        } else {
            message.append("No pod found with prefix \"");
            message.append(pod_prefix);
            message.append("\". Available pods:\n  ");
            let joined = join_strings(available_pods, "\n  ");
            message.append(joined.as_str());
            proof {
                assert(message@ =~= not_found_message(pre, pods));
            }
        }
        Err(ResolveError::NotFound { message })
    } else if pod_matches.len() == 1 {
        let resolved = pod_matches[0].clone();
        Ok(resolved)
    } else {
        let mut message = String::new();
        message.append("Pod prefix \"");
        message.append(pod_prefix);
        message.append("\" matches multiple pods:\n  ");
        let joined = join_strings(&pod_matches, "\n  ");
        message.append(joined.as_str());
        message.append("\nPlease provide a more specific prefix.");
        proof {
            assert(message@ =~= ambiguous_message(pre, prefix_matches(pods, pre)));
        }
        Err(ResolveError::AmbiguousPrefix { matches: pod_matches, message })
    }
}

/// The control-socket path of a resolved pod.
pub fn socket_path_for(socket_dir: &str, pod_id: &str) -> (r: String)
    ensures
        r@ == socket_dir@ + "/"@ + pod_id@ + "/task.socket"@,
{
    let mut path = String::new();
    path.append(socket_dir);
    path.append("/");
    path.append(pod_id);
    path.append("/task.socket");
    proof {
        assert(path@ =~= socket_dir@ + "/"@ + pod_id@ + "/task.socket"@);
    }
    path
}

/// What a caller should add to a connection-failure report: the parent
/// directory is missing, or the pods that are available instead, or nothing.
pub enum ConnectHint {
    MissingParentDir,
    AvailablePods(Vec<String>),
    NoHint,
}

/// Decides how to enrich the report of a failed connection to a pod socket,
/// given whether the socket's parent directory exists and a fresh listing of
/// the available pods.
pub fn connect_hint(parent_exists: bool, pods: Vec<String>) -> (h: ConnectHint)
    ensures
        !parent_exists ==> h is MissingParentDir,
        parent_exists && pods@.len() > 0 ==> (h matches ConnectHint::AvailablePods(p) && p
            == pods),
        parent_exists && pods@.len() == 0 ==> h is NoHint,
{
    if !parent_exists {
        ConnectHint::MissingParentDir
    } else if pods.len() > 0 {
        ConnectHint::AvailablePods(pods)
    } else {
        ConnectHint::NoHint
    }
}

} // verus!
