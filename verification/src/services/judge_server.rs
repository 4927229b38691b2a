use crate::judge_actor::utils::chosen_server;
use crate::models::judge_servers::JudgeServerInfo;
use crate::models::judge_servers::JudgeServerInfoView;
use crate::models::judge_servers::out_judge_server_info_view;
use crate::models::judge_servers::OutJudgeServerInfo;
use crate::registry::inserted;
use crate::registry::is_eligible;
use crate::registry::JudgeServerInfos;
use crate::registry::lemma_first_eligible_from;
use crate::registry::lemma_inserted_wf;
use crate::registry::lemma_position_from;
use crate::registry::lemma_position_of_entry;
use crate::registry::position;
use crate::registry::registry_wf;
use crate::registry::task_number_of;
use vstd::prelude::*;
use vstd::string::StringExecFns;

verus! {

/// The entry that a heartbeat leaves in the registry: what the server
/// reported, the time of the heartbeat, the outcome of the reachability probe,
/// and the task count that the registry held for the endpoint.
pub open spec fn heartbeat_entry(
    servers: Seq<JudgeServerInfoView>,
    judger_version: Seq<char>,
    hostname: Seq<char>,
    cpu_core: i32,
    memory: u32,
    cpu: u32,
    service_url: Seq<char>,
    token: Seq<char>,
    reachable: bool,
    now: u64,
) -> JudgeServerInfoView {
    JudgeServerInfoView {
        judger_version,
        hostname,
        cpu_core,
        memory,
        cpu,
        task_number: task_number_of(servers, service_url),
        service_url,
        token,
        heartbeat_time: now,
        is_deprecated: !reachable,
    }
}

/// A server whose heartbeat came with a failed probe is not chosen
/// afterwards, at whatever time the next choice is made.
pub proof fn lemma_unreachable_server_is_not_chosen(
    servers: Seq<JudgeServerInfoView>,
    judger_version: Seq<char>,
    hostname: Seq<char>,
    cpu_core: i32,
    memory: u32,
    cpu: u32,
    service_url: Seq<char>,
    token: Seq<char>,
    now: u64,
    later: u64,
)
    requires
        registry_wf(servers),
    ensures
        ({
            let entry = heartbeat_entry(
                servers,
                judger_version,
                hostname,
                cpu_core,
                memory,
                cpu,
                service_url,
                token,
                false,
                now,
            );
            let chosen = chosen_server(inserted(servers, entry), later);
            chosen.is_some() ==> chosen.unwrap().0 != service_url
        }),
{
    let entry = heartbeat_entry(
        servers,
        judger_version,
        hostname,
        cpu_core,
        memory,
        cpu,
        service_url,
        token,
        false,
        now,
    );
    let after = inserted(servers, entry);
    lemma_position_from(servers, service_url, 0);
    lemma_inserted_wf(servers, entry);
    lemma_first_eligible_from(after, later, 0);
    lemma_position_from(after, service_url, 0);
    let k = match position(servers, service_url) {
        Some(found) => found,
        None => servers.len() as int,
    };
    assert(after[k] == entry);
    lemma_position_of_entry(after, k);
}

/// Address of the health endpoint of the judge server with the endpoint
/// `url`.
pub open spec fn ping_url_view(url: Seq<char>) -> Seq<char> {
    url + "/ping"@
}

/// The address of the health endpoint of the judge server with the endpoint
/// `url`: the address that is probed when a heartbeat of the server
/// arrives.
pub fn ping_url(url: &str) -> (address: String)
    ensures
        address@ == ping_url_view(url@),
{
    url.to_owned().concat("/ping")
}

/// Records the heartbeat of a judge server, received at `now`.
///
/// `reachable` is the outcome of the probe of the server's own health
/// endpoint, made by the caller before this call. The entry of the endpoint
/// is replaced as a whole, but for the number of tasks in flight, which is
/// carried over. A server that failed the probe is stored as deprecated.
/// A heartbeat without a service endpoint changes nothing.
///
/// Returns whether the server is now eligible for dispatch, that is whether
/// the worker pool is to be woken.
pub fn record_server_info(
    infos: &mut JudgeServerInfos,
    judger_version: String,
    hostname: String,
    cpu_core: i32,
    memory: u32,
    cpu: u32,
    service_url: Option<String>,
    token: String,
    reachable: bool,
    now: u64,
) -> (wake: bool)
    ensures
        old(infos).wf() ==> final(infos).wf(),
        match service_url {
            Some(url) => {
                let entry = heartbeat_entry(
                    old(infos)@,
                    judger_version@,
                    hostname@,
                    cpu_core,
                    memory,
                    cpu,
                    url@,
                    token@,
                    reachable,
                    now,
                );
                &&& final(infos)@ == inserted(old(infos)@, entry)
                &&& wake == is_eligible(entry, now)
            },
            None => final(infos)@ == old(infos)@ && !wake,
        },
{
    match service_url {
        Some(url) => {
            proof {
                lemma_position_from(infos@, url@, 0);
            }
            let task_number = match infos.get(url.as_str()) {
                Some(known) => known.task_number,
                None => 0,
            };
            let wake = reachable && task_number as i64 + 1 <= 2 * (cpu_core as i64);
            infos.insert(
                JudgeServerInfo {
                    judger_version,
                    hostname,
                    cpu_core,
                    memory,
                    cpu,
                    task_number,
                    service_url: url,
                    token,
                    heartbeat_time: now,
                    is_deprecated: !reachable,
                },
            );
            wake
        },
        None => false,
    }
}

/// Lists at `now` what is shown of the known servers, in registry order.
pub fn server_info(infos: &JudgeServerInfos, now: u64) -> (list: Vec<OutJudgeServerInfo>)
    ensures
        list.deep_view() == Seq::new(
            infos@.len(),
            |i: int| out_judge_server_info_view(infos@[i], now),
        ),
{
    let mut list: Vec<OutJudgeServerInfo> = Vec::new();
    let mut i: usize = 0;
    while i < infos.len()
        invariant
            i <= infos@.len(),
            list.len() == i,
            forall|k: int| 0 <= k < i ==> (#[trigger] list@[k])@ == out_judge_server_info_view(infos@[k], now),
        decreases infos@.len() - i,
    {
        list.push(OutJudgeServerInfo::new(infos.entry(i).clone(), now));
        i += 1;
    }
    assert(list.deep_view() =~= Seq::new(
        infos@.len(),
        |i: int| out_judge_server_info_view(infos@[i], now),
    ));
    list
}

} // verus!
