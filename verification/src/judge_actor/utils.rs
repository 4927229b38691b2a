use crate::judge_actor::handler::JudgeEvent;
use crate::judge_actor::handler::JudgeEventView;
use crate::models::judge_servers::JudgeServerInfoView;
use crate::registry::distinct_urls;
use crate::registry::first_eligible;
use crate::registry::first_eligible_from;
use crate::registry::HEARTBEAT_TIMEOUT_SECS;
use crate::registry::is_eligible;
use crate::registry::JudgeServerInfos;
use crate::registry::lemma_first_eligible_from;
use vstd::prelude::*;
use vstd::string::StringExecFns;

verus! {

/// Endpoint and token of the server that a task is dispatched to at `now`:
/// those of the first eligible entry in registry order.
pub open spec fn chosen_server(servers: Seq<JudgeServerInfoView>, now: u64) -> Option<(Seq<char>, Seq<char>)> {
    match first_eligible(servers, now) {
        Some(i) => Some((servers[i].service_url, servers[i].token)),
        None => None,
    }
}

/// The server that is chosen is eligible, and stands in the registry before
/// every other eligible server. No server is chosen only where none is
/// eligible.
pub proof fn lemma_chosen_server_is_first_eligible(servers: Seq<JudgeServerInfoView>, now: u64)
    ensures
        match first_eligible(servers, now) {
            Some(i) => {
                &&& 0 <= i < servers.len()
                &&& is_eligible(servers[i], now)
                &&& forall|j: int| 0 <= j < i ==> !is_eligible(servers[j], now)
                &&& chosen_server(servers, now) == Some((servers[i].service_url, servers[i].token))
            },
            None => {
                &&& forall|j: int| 0 <= j < servers.len() ==> !is_eligible(servers[j], now)
                &&& chosen_server(servers, now).is_none()
            },
        },
{
    lemma_first_eligible_from(servers, now, 0);
}

/// A server whose last heartbeat is more than five seconds old is never
/// chosen, however healthy it is otherwise.
pub proof fn lemma_stale_server_is_not_chosen(servers: Seq<JudgeServerInfoView>, now: u64, i: int)
    requires
        distinct_urls(servers),
        0 <= i < servers.len(),
        now - servers[i].heartbeat_time > HEARTBEAT_TIMEOUT_SECS,
    ensures
        first_eligible(servers, now) != Some(i),
        chosen_server(servers, now).is_some() ==> chosen_server(servers, now).unwrap().0
            != servers[i].service_url,
{
    lemma_first_eligible_from(servers, now, 0);
}

/// Picks the server for the next task: the first entry, in registry order,
/// that is not deprecated, runs fewer tasks than twice its core count and has
/// sent a heartbeat within the last five seconds before `now`. First fit: the
/// load of the servers is not compared.
pub fn choose_judge_server(infos: &JudgeServerInfos, now: u64) -> (server: Option<(String, String)>)
    ensures
        match server {
            Some((url, token)) => chosen_server(infos@, now) == Some((url@, token@)),
            None => chosen_server(infos@, now).is_none(),
        },
{
    let mut i: usize = 0;
    while i < infos.len()
        invariant
            i <= infos@.len(),
            first_eligible(infos@, now) == first_eligible_from(infos@, now, i as int),
        decreases infos@.len() - i,
    {
        let info = infos.entry(i);
        let has_capacity = info.task_number as i64 + 1 <= 2 * (info.cpu_core as i64);
        let is_fresh = now <= info.heartbeat_time || now - info.heartbeat_time
            <= HEARTBEAT_TIMEOUT_SECS;
        if !info.is_deprecated && has_capacity && is_fresh {
            assert(is_eligible(infos@[i as int], now));
            return Some((info.service_url.clone(), info.token.clone()));
        }
        i += 1;
    }
    None
}

/// The request that the remote execution client reads: three lines, which
/// hold the token, the endpoint and the judge settings.
pub open spec fn judge_request_view(token: Seq<char>, url: Seq<char>, judge_setting: Seq<char>) -> Seq<char> {
    token + seq!['\n'] + url + seq!['\n'] + judge_setting + seq!['\n']
}

/// Writes the request for the remote execution client: the token, the
/// endpoint and the judge settings, each on a line of its own.
pub fn judge_request(token: &str, url: &str, judge_setting: &str) -> (request: String)
    ensures
        request@ == judge_request_view(token@, url@, judge_setting@),
{
    proof {
        reveal_strlit("\n");
    }
    let request = token.to_owned().concat("\n").concat(url).concat("\n").concat(judge_setting).concat(
        "\n",
    );
    assert(request@ =~= judge_request_view(token@, url@, judge_setting@));
    request
}

/// Address at which the judge server with the endpoint `url` takes judge
/// requests.
pub open spec fn judge_url_view(url: Seq<char>) -> Seq<char> {
    url + "/judge"@
}

/// The address at which the judge server with the endpoint `url` takes
/// judge requests.
pub fn judge_url(url: &str) -> (address: String)
    ensures
        address@ == judge_url_view(url@),
{
    url.to_owned().concat("/judge")
}

/// `line` without the white space at its two ends.
pub uninterp spec fn trimmed(line: Seq<char>) -> Seq<char>;

/// Calls `str::trim`. The contract gives what is left of `line` the name
/// `trimmed`: it depends on the line alone.
#[verifier::external_body]
fn trim(line: &str) -> (rest: &str)
    ensures
        rest@ == trimmed(line@),
{
    line.trim()
}

/// The event that reports a remote call to the worker: the line that the
/// remote execution client printed, without the white space around it. The
/// client prints an empty line where the call failed.
pub fn judge_answer(line: &str) -> (event: JudgeEvent)
    ensures
        event@ == JudgeEventView::Judged(trimmed(line@)),
{
    JudgeEvent::Judged(trim(line).to_owned())
}

} // verus!
