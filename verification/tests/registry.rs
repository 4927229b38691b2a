use judge_dispatch::judge_actor::handler::JudgeEvent;
use judge_dispatch::judge_actor::utils::choose_judge_server;
use judge_dispatch::judge_actor::utils::judge_answer;
use judge_dispatch::judge_actor::utils::judge_request;
use judge_dispatch::judge_actor::utils::judge_url;
use judge_dispatch::registry::JudgeServerInfos;
use judge_dispatch::registry::HEARTBEAT_TIMEOUT_SECS;
use judge_dispatch::services::judge_server::ping_url;
use judge_dispatch::services::judge_server::record_server_info;
use judge_dispatch::services::judge_server::server_info;

fn heartbeat(infos: &mut JudgeServerInfos, url: &str, cores: i32, reachable: bool, now: u64) -> bool {
    record_server_info(
        infos,
        "1.0".to_owned(),
        "host".to_owned(),
        cores,
        0.5f32.to_bits(),
        0.25f32.to_bits(),
        Some(url.to_owned()),
        format!("token-{}", url),
        reachable,
        now,
    )
}

fn with_in_flight(cores: i32, in_flight: i32, now: u64) -> JudgeServerInfos {
    let mut infos = JudgeServerInfos::new();
    heartbeat(&mut infos, "http://a", cores, true, now);
    for _ in 0..in_flight {
        assert!(infos.reserve("http://a"));
    }
    infos
}

#[test]
fn new_registry_has_no_server() {
    let infos = JudgeServerInfos::new();
    assert_eq!(infos.len(), 0);
    assert_eq!(choose_judge_server(&infos, 0), None);
    assert!(infos.get("http://a").is_none());
    assert_eq!(infos.index_of("http://a"), None);
}

#[test]
fn heartbeat_adds_a_server() {
    let mut infos = JudgeServerInfos::new();
    let wake = heartbeat(&mut infos, "http://a", 4, true, 1000);
    assert!(wake);
    assert_eq!(infos.len(), 1);
    let info = infos.get("http://a").unwrap();
    assert_eq!(info.judger_version, "1.0");
    assert_eq!(info.hostname, "host");
    assert_eq!(info.cpu_core, 4);
    assert_eq!(f32::from_bits(info.memory), 0.5);
    assert_eq!(f32::from_bits(info.cpu), 0.25);
    assert_eq!(info.task_number, 0);
    assert_eq!(info.service_url, "http://a");
    assert_eq!(info.token, "token-http://a");
    assert_eq!(info.heartbeat_time, 1000);
    assert!(!info.is_deprecated);
}

#[test]
fn heartbeat_without_endpoint_changes_nothing() {
    let mut infos = JudgeServerInfos::new();
    heartbeat(&mut infos, "http://a", 4, true, 1000);
    let wake = record_server_info(
        &mut infos,
        "2.0".to_owned(),
        "other".to_owned(),
        8,
        0,
        0,
        None,
        "t".to_owned(),
        true,
        2000,
    );
    assert!(!wake);
    assert_eq!(infos.len(), 1);
    assert_eq!(infos.entry(0).heartbeat_time, 1000);
    assert_eq!(infos.entry(0).judger_version, "1.0");
}

#[test]
fn heartbeat_replaces_the_entry_and_keeps_the_tasks_in_flight() {
    let mut infos = JudgeServerInfos::new();
    heartbeat(&mut infos, "http://a", 4, true, 1000);
    heartbeat(&mut infos, "http://b", 2, true, 1000);
    assert!(infos.reserve("http://a"));
    assert!(infos.reserve("http://a"));
    let wake = record_server_info(
        &mut infos,
        "2.0".to_owned(),
        "renamed".to_owned(),
        8,
        1,
        2,
        Some("http://a".to_owned()),
        "fresh".to_owned(),
        true,
        1003,
    );
    assert!(wake);
    assert_eq!(infos.len(), 2);
    assert_eq!(infos.index_of("http://a"), Some(0));
    assert_eq!(infos.index_of("http://b"), Some(1));
    let info = infos.get("http://a").unwrap();
    assert_eq!(info.judger_version, "2.0");
    assert_eq!(info.hostname, "renamed");
    assert_eq!(info.cpu_core, 8);
    assert_eq!(info.memory, 1);
    assert_eq!(info.cpu, 2);
    assert_eq!(info.token, "fresh");
    assert_eq!(info.heartbeat_time, 1003);
    assert_eq!(info.task_number, 2);
    assert_eq!(infos.get("http://b").unwrap().task_number, 0);
}

#[test]
fn server_with_a_free_slot_is_chosen() {
    let infos = with_in_flight(4, 7, 1000);
    assert_eq!(infos.get("http://a").unwrap().task_number, 7);
    assert_eq!(
        choose_judge_server(&infos, 1000),
        Some(("http://a".to_owned(), "token-http://a".to_owned()))
    );
}

#[test]
fn server_at_twice_its_cores_is_not_chosen() {
    let infos = with_in_flight(4, 8, 1000);
    assert_eq!(infos.get("http://a").unwrap().task_number, 8);
    assert_eq!(choose_judge_server(&infos, 1000), None);
}

#[test]
fn server_without_cores_is_never_chosen() {
    let infos = with_in_flight(0, 0, 1000);
    assert_eq!(choose_judge_server(&infos, 1000), None);
    let infos = with_in_flight(-3, 0, 1000);
    assert_eq!(choose_judge_server(&infos, 1000), None);
}

#[test]
fn capacity_of_many_cores_does_not_overflow() {
    let infos = with_in_flight(i32::MAX, 3, 1000);
    assert!(choose_judge_server(&infos, 1000).is_some());
}

#[test]
fn heartbeat_of_five_seconds_is_fresh() {
    let infos = with_in_flight(4, 0, 1000);
    assert_eq!(HEARTBEAT_TIMEOUT_SECS, 5);
    assert!(choose_judge_server(&infos, 1000).is_some());
    assert!(choose_judge_server(&infos, 1005).is_some());
}

#[test]
fn heartbeat_of_six_seconds_is_stale() {
    let infos = with_in_flight(4, 0, 1000);
    assert_eq!(choose_judge_server(&infos, 1006), None);
    assert_eq!(choose_judge_server(&infos, u64::MAX), None);
}

#[test]
fn heartbeat_ahead_of_the_clock_is_fresh() {
    let infos = with_in_flight(4, 0, 1000);
    assert!(choose_judge_server(&infos, 990).is_some());
    assert!(choose_judge_server(&infos, 0).is_some());
}

#[test]
fn stale_server_is_chosen_again_after_a_heartbeat() {
    let mut infos = with_in_flight(4, 0, 1000);
    assert_eq!(choose_judge_server(&infos, 1010), None);
    assert!(heartbeat(&mut infos, "http://a", 4, true, 1010));
    assert!(choose_judge_server(&infos, 1010).is_some());
}

#[test]
fn failed_probe_deprecates_the_server_at_once() {
    let mut infos = JudgeServerInfos::new();
    assert!(heartbeat(&mut infos, "http://a", 4, true, 1000));
    assert!(choose_judge_server(&infos, 1001).is_some());
    let wake = heartbeat(&mut infos, "http://a", 4, false, 1001);
    assert!(!wake);
    assert!(infos.get("http://a").unwrap().is_deprecated);
    assert_eq!(choose_judge_server(&infos, 1001), None);
    assert_eq!(choose_judge_server(&infos, 1002), None);
}

#[test]
fn healthy_heartbeat_lifts_the_deprecation() {
    let mut infos = JudgeServerInfos::new();
    heartbeat(&mut infos, "http://a", 4, false, 1000);
    assert_eq!(choose_judge_server(&infos, 1000), None);
    assert!(heartbeat(&mut infos, "http://a", 4, true, 1001));
    assert!(!infos.get("http://a").unwrap().is_deprecated);
    assert!(choose_judge_server(&infos, 1001).is_some());
}

#[test]
fn heartbeat_of_a_full_server_does_not_wake() {
    let mut infos = with_in_flight(1, 2, 1000);
    assert!(!heartbeat(&mut infos, "http://a", 1, true, 1001));
    assert_eq!(infos.get("http://a").unwrap().task_number, 2);
    assert!(heartbeat(&mut infos, "http://a", 2, true, 1002));
}

#[test]
fn first_eligible_server_in_registry_order_is_chosen() {
    let mut infos = JudgeServerInfos::new();
    heartbeat(&mut infos, "http://a", 1, true, 1000);
    heartbeat(&mut infos, "http://b", 8, true, 1000);
    heartbeat(&mut infos, "http://c", 8, true, 1000);
    assert_eq!(choose_judge_server(&infos, 1000).unwrap().0, "http://a");
    assert!(infos.reserve("http://a"));
    assert_eq!(choose_judge_server(&infos, 1000).unwrap().0, "http://a");
    assert!(infos.reserve("http://a"));
    assert_eq!(choose_judge_server(&infos, 1000).unwrap().0, "http://b");
    heartbeat(&mut infos, "http://b", 8, false, 1000);
    assert_eq!(
        choose_judge_server(&infos, 1000),
        Some(("http://c".to_owned(), "token-http://c".to_owned()))
    );
    assert!(infos.release("http://a"));
    assert_eq!(choose_judge_server(&infos, 1000).unwrap().0, "http://a");
}

#[test]
fn reserve_and_release_count_tasks_in_flight() {
    let mut infos = with_in_flight(4, 0, 1000);
    assert!(infos.reserve("http://a"));
    assert!(infos.reserve("http://a"));
    assert_eq!(infos.get("http://a").unwrap().task_number, 2);
    assert!(infos.release("http://a"));
    assert_eq!(infos.get("http://a").unwrap().task_number, 1);
    assert!(infos.release("http://a"));
    assert_eq!(infos.get("http://a").unwrap().task_number, 0);
}

#[test]
fn tasks_in_flight_never_go_below_zero() {
    let mut infos = with_in_flight(4, 0, 1000);
    assert!(!infos.release("http://a"));
    assert_eq!(infos.get("http://a").unwrap().task_number, 0);
}

#[test]
fn unknown_endpoint_is_neither_reserved_nor_released() {
    let mut infos = with_in_flight(4, 1, 1000);
    assert!(!infos.reserve("http://b"));
    assert!(!infos.release("http://b"));
    assert_eq!(infos.len(), 1);
    assert_eq!(infos.get("http://a").unwrap().task_number, 1);
}

#[test]
fn two_workers_may_choose_the_same_server_before_either_reserves() {
    let mut infos = with_in_flight(1, 1, 1000);
    let first = choose_judge_server(&infos, 1000).unwrap();
    let second = choose_judge_server(&infos, 1000).unwrap();
    assert_eq!(first.0, "http://a");
    assert_eq!(second.0, "http://a");
    assert!(infos.reserve(&first.0));
    assert!(infos.reserve(&second.0));
    assert_eq!(infos.get("http://a").unwrap().task_number, 3);
    assert_eq!(choose_judge_server(&infos, 1000), None);
}

#[test]
fn server_list_shows_the_age_of_the_heartbeat() {
    let mut infos = JudgeServerInfos::new();
    heartbeat(&mut infos, "http://a", 4, true, 1000);
    heartbeat(&mut infos, "http://b", 2, false, 1004);
    assert!(infos.reserve("http://a"));
    let list = server_info(&infos, 1007);
    assert_eq!(list.len(), 2);
    assert_eq!(list[0].service_url, "http://a");
    assert_eq!(list[0].last_heartbeat, 7);
    assert_eq!(list[0].heartbeat_time, 1000);
    assert_eq!(list[0].task_number, 1);
    assert_eq!(list[0].cpu_core, 4);
    assert!(!list[0].is_deprecated);
    assert_eq!(f32::from_bits(list[0].memory), 0.5);
    assert_eq!(list[1].service_url, "http://b");
    assert_eq!(list[1].last_heartbeat, 3);
    assert!(list[1].is_deprecated);
    assert_eq!(list[1].token, "token-http://b");
    let early = server_info(&infos, 900);
    assert_eq!(early[0].last_heartbeat, 0);
}

#[test]
fn judge_request_has_three_lines() {
    assert_eq!(judge_request("tok", "http://a", "{\"src\":\"\"}"), "tok\nhttp://a\n{\"src\":\"\"}\n");
    assert_eq!(judge_request("", "", ""), "\n\n\n");
}

fn answer_of(line: &str) -> String {
    match judge_answer(line) {
        JudgeEvent::Judged(answer) => answer,
        _ => panic!("the report of a remote call was expected"),
    }
}

#[test]
fn judge_answer_is_the_line_without_the_white_space_around_it() {
    assert_eq!(answer_of("{\"err\":null}\n"), "{\"err\":null}");
    assert_eq!(answer_of("  \t{\"a\": 1}  \r\n"), "{\"a\": 1}");
    assert_eq!(answer_of("x"), "x");
}

#[test]
fn judge_answer_of_a_blank_line_is_empty() {
    assert_eq!(answer_of(""), "");
    assert_eq!(answer_of("\n"), "");
    assert_eq!(answer_of(" \t \r\n"), "");
}

#[test]
fn addresses_of_a_judge_server() {
    assert_eq!(ping_url("http://a:8080"), "http://a:8080/ping");
    assert_eq!(judge_url("http://a:8080"), "http://a:8080/judge");
    assert_eq!(ping_url(""), "/ping");
}
