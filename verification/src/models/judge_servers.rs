use vstd::prelude::*;

verus! {

/// What the registry knows of one judge server.
///
/// `memory` and `cpu` hold the utilisation samples of the last heartbeat as the
/// bit patterns of the single-precision numbers that the server reported.
/// `heartbeat_time` counts seconds since the Unix epoch.
pub struct JudgeServerInfo {
    pub judger_version: String,
    pub hostname: String,
    pub cpu_core: i32,
    pub memory: u32,
    pub cpu: u32,
    pub task_number: i32,
    pub service_url: String,
    pub token: String,
    pub heartbeat_time: u64,
    pub is_deprecated: bool,
}

/// Mathematical content of a [`JudgeServerInfo`].
pub ghost struct JudgeServerInfoView {
    pub judger_version: Seq<char>,
    pub hostname: Seq<char>,
    pub cpu_core: i32,
    pub memory: u32,
    pub cpu: u32,
    pub task_number: i32,
    pub service_url: Seq<char>,
    pub token: Seq<char>,
    pub heartbeat_time: u64,
    pub is_deprecated: bool,
}

impl View for JudgeServerInfo {
    type V = JudgeServerInfoView;

    open spec fn view(&self) -> JudgeServerInfoView {
        JudgeServerInfoView {
            judger_version: self.judger_version@,
            hostname: self.hostname@,
            cpu_core: self.cpu_core,
            memory: self.memory,
            cpu: self.cpu,
            task_number: self.task_number,
            service_url: self.service_url@,
            token: self.token@,
            heartbeat_time: self.heartbeat_time,
            is_deprecated: self.is_deprecated,
        }
    }
}

impl Clone for JudgeServerInfo {
    fn clone(&self) -> (copy: Self)
        ensures
            copy@ == self@,
    {
        JudgeServerInfo {
            judger_version: self.judger_version.clone(),
            hostname: self.hostname.clone(),
            cpu_core: self.cpu_core,
            memory: self.memory,
            cpu: self.cpu,
            task_number: self.task_number,
            service_url: self.service_url.clone(),
            token: self.token.clone(),
            heartbeat_time: self.heartbeat_time,
            is_deprecated: self.is_deprecated,
        }
    }
}

/// What is shown of a judge server: its registry entry, and the age of its
/// last heartbeat in seconds.
pub struct OutJudgeServerInfo {
    pub judger_version: String,
    pub hostname: String,
    pub cpu_core: i32,
    pub memory: u32,
    pub cpu: u32,
    pub task_number: i32,
    pub service_url: String,
    pub token: String,
    pub heartbeat_time: u64,
    pub last_heartbeat: i32,
    pub is_deprecated: bool,
}

/// Mathematical content of an [`OutJudgeServerInfo`].
pub ghost struct OutJudgeServerInfoView {
    pub info: JudgeServerInfoView,
    pub last_heartbeat: i32,
}

impl View for OutJudgeServerInfo {
    type V = OutJudgeServerInfoView;

    open spec fn view(&self) -> OutJudgeServerInfoView {
        OutJudgeServerInfoView {
            info: JudgeServerInfoView {
                judger_version: self.judger_version@,
                hostname: self.hostname@,
                cpu_core: self.cpu_core,
                memory: self.memory,
                cpu: self.cpu,
                task_number: self.task_number,
                service_url: self.service_url@,
                token: self.token@,
                heartbeat_time: self.heartbeat_time,
                is_deprecated: self.is_deprecated,
            },
            last_heartbeat: self.last_heartbeat,
        }
    }
}

impl DeepView for OutJudgeServerInfo {
    type V = OutJudgeServerInfoView;

    open spec fn deep_view(&self) -> OutJudgeServerInfoView {
        self@
    }
}

/// Seconds from the heartbeat at `heartbeat_time` to `now`, in 32 bits; none
/// where the heartbeat is not in the past.
pub open spec fn heartbeat_age(heartbeat_time: u64, now: u64) -> i32 {
    if now >= heartbeat_time {
        ((now - heartbeat_time) as u64) as i32
    } else {
        0
    }
}

/// What is shown at `now` of the server with the entry `info`.
pub open spec fn out_judge_server_info_view(info: JudgeServerInfoView, now: u64) -> OutJudgeServerInfoView {
    OutJudgeServerInfoView { info, last_heartbeat: heartbeat_age(info.heartbeat_time, now) }
}

impl OutJudgeServerInfo {
    /// What is shown at `now` of the server with the entry `info`.
    pub fn new(info: JudgeServerInfo, now: u64) -> (out: Self)
        ensures
            out@ == out_judge_server_info_view(info@, now),
    {
        let elapsed: u64 = if now >= info.heartbeat_time {
            now - info.heartbeat_time
        } else {
            0
        };
        OutJudgeServerInfo {
            judger_version: info.judger_version,
            hostname: info.hostname,
            cpu_core: info.cpu_core,
            memory: info.memory,
            cpu: info.cpu,
            task_number: info.task_number,
            service_url: info.service_url,
            token: info.token,
            heartbeat_time: info.heartbeat_time,
            last_heartbeat: elapsed as i32,
            is_deprecated: info.is_deprecated,
        }
    }
}

} // verus!
