use judge_dispatch::models::submissions::error_name;
use judge_dispatch::models::submissions::is_waiting;
use judge_dispatch::models::submissions::result_name;
use judge_dispatch::models::submissions::JudgeResult;
use judge_dispatch::models::submissions::JudgeResultData;
use judge_dispatch::models::submissions::PayloadError;
use judge_dispatch::models::submissions::RawJudgeData;
use judge_dispatch::models::submissions::RawJudgeResult;
use judge_dispatch::models::submissions::RawJudgeResultData;

fn case(result: i32, cpu_time: i32, real_time: i32, memory: i32) -> RawJudgeResultData {
    RawJudgeResultData {
        cpu_time,
        real_time,
        memory,
        signal: 0,
        exit_code: 0,
        error: 0,
        result,
        test_case: "1".to_owned(),
        output_md5: None,
        output: None,
    }
}

fn answer(cases: Vec<RawJudgeResultData>) -> RawJudgeResult {
    RawJudgeResult { err: None, data: RawJudgeData::Cases(cases) }
}

#[test]
fn error_codes_have_names() {
    assert_eq!(error_name(0), "SUCCESS");
    assert_eq!(error_name(-1), "INVALID_CONFIG");
    assert_eq!(error_name(-2), "CLONE_FAILED");
    assert_eq!(error_name(-3), "PTHREAD_FAILED");
    assert_eq!(error_name(-4), "WAIT_FAILED");
    assert_eq!(error_name(-5), "ROOT_REQUIRED");
    assert_eq!(error_name(-6), "LOAD_SECCOMP_FAILED");
    assert_eq!(error_name(-7), "SETRLIMIT_FAILED");
    assert_eq!(error_name(-8), "DUP2_FAILED");
    assert_eq!(error_name(-9), "SETUID_FAILED");
    assert_eq!(error_name(-10), "EXECVE_FAILED");
    assert_eq!(error_name(-11), "SPJ_ERROR");
}

#[test]
fn other_error_codes_are_unknown() {
    assert_eq!(error_name(1), "UNKNOWN_ERROR");
    assert_eq!(error_name(-12), "UNKNOWN_ERROR");
    assert_eq!(error_name(i32::MAX), "UNKNOWN_ERROR");
    assert_eq!(error_name(i32::MIN), "UNKNOWN_ERROR");
}

#[test]
fn result_codes_have_names() {
    assert_eq!(result_name(-1), "WRONG_ANSWER");
    assert_eq!(result_name(0), "SUCCESS");
    assert_eq!(result_name(1), "CPU_TIME_LIMIT_EXCEEDED");
    assert_eq!(result_name(2), "REAL_TIME_LIMIT_EXCEEDED");
    assert_eq!(result_name(3), "MEMORY_LIMIT_EXCEEDED");
    assert_eq!(result_name(4), "RUNTIME_ERROR");
    assert_eq!(result_name(5), "SYSTEM_ERROR");
}

#[test]
fn other_result_codes_are_unknown() {
    assert_eq!(result_name(6), "UNKNOWN_ERROR");
    assert_eq!(result_name(-2), "UNKNOWN_ERROR");
    assert_eq!(result_name(i32::MAX), "UNKNOWN_ERROR");
    assert_eq!(result_name(i32::MIN), "UNKNOWN_ERROR");
}

#[test]
fn test_case_passes_through_with_names() {
    let raw = RawJudgeResultData {
        cpu_time: 3,
        real_time: 5,
        memory: 1024,
        signal: 9,
        exit_code: 1,
        error: -11,
        result: 4,
        test_case: "2".to_owned(),
        output_md5: Some("abc".to_owned()),
        output: Some("out".to_owned()),
    };
    let copy = raw.clone();
    assert_eq!(copy.error, -11);
    assert_eq!(copy.test_case, "2");
    let data = JudgeResultData::from(raw);
    assert_eq!(data.cpu_time, 3);
    assert_eq!(data.real_time, 5);
    assert_eq!(data.memory, 1024);
    assert_eq!(data.signal, 9);
    assert_eq!(data.exit_code, 1);
    assert_eq!(data.error, "SPJ_ERROR");
    assert_eq!(data.result, "RUNTIME_ERROR");
    assert_eq!(data.test_case, "2");
    assert_eq!(data.output_md5, Some("abc".to_owned()));
    assert_eq!(data.output, Some("out".to_owned()));
}

#[test]
fn all_cases_passed_is_accepted() {
    let result = JudgeResult::try_from(answer(vec![
        case(0, 10, 20, 300),
        case(0, 30, 41, 200),
    ]))
    .unwrap();
    assert_eq!(result.err, None);
    assert_eq!(result.err_reason, None);
    assert_eq!(result.is_accepted, Some(true));
    assert_eq!(result.avg_real_time, Some(30));
    assert_eq!(result.max_time, Some(30));
    assert_eq!(result.max_memory, Some(300));
    let details = result.details.as_ref().unwrap();
    assert_eq!(details.len(), 2);
    assert_eq!(details[0].result, "SUCCESS");
    assert_eq!(details[0].error, "SUCCESS");
    assert_eq!(details[1].real_time, 41);
    assert_eq!(result.out_results(), Some(vec!["SUCCESS".to_owned()]));
}

#[test]
fn one_failed_case_is_not_accepted() {
    let result = JudgeResult::try_from(answer(vec![
        case(0, 1, 1, 1),
        case(-1, 1, 1, 1),
        case(0, 1, 1, 1),
    ]))
    .unwrap();
    assert_eq!(result.is_accepted, Some(false));
    assert_eq!(result.details.as_ref().unwrap()[1].result, "WRONG_ANSWER");
}

#[test]
fn average_rounds_towards_zero() {
    let result = JudgeResult::try_from(answer(vec![case(0, 0, 1, 0), case(0, 0, 2, 0)])).unwrap();
    assert_eq!(result.avg_real_time, Some(1));
    let result = JudgeResult::try_from(answer(vec![case(0, 0, -1, 0), case(0, 0, -2, 0)])).unwrap();
    assert_eq!(result.avg_real_time, Some(-1));
    let result = JudgeResult::try_from(answer(vec![case(0, 0, 7, 0)])).unwrap();
    assert_eq!(result.avg_real_time, Some(7));
}

#[test]
fn average_of_large_times_does_not_overflow() {
    let result = JudgeResult::try_from(answer(vec![
        case(0, 0, i32::MAX, 0),
        case(0, 0, i32::MAX, 0),
        case(0, 0, i32::MAX - 3, 0),
    ]))
    .unwrap();
    assert_eq!(result.avg_real_time, Some(i32::MAX - 1));
    let result = JudgeResult::try_from(answer(vec![
        case(0, 0, i32::MIN, 0),
        case(0, 0, i32::MIN, 0),
    ]))
    .unwrap();
    assert_eq!(result.avg_real_time, Some(i32::MIN));
}

#[test]
fn largest_time_and_memory_are_taken_over_all_cases() {
    let result = JudgeResult::try_from(answer(vec![
        case(0, 5, 0, 70),
        case(0, 9, 0, 10),
        case(0, 2, 0, 90),
    ]))
    .unwrap();
    assert_eq!(result.max_time, Some(9));
    assert_eq!(result.max_memory, Some(90));
    let result = JudgeResult::try_from(answer(vec![case(0, -5, 0, -70), case(0, -9, 0, -10)])).unwrap();
    assert_eq!(result.max_time, Some(-5));
    assert_eq!(result.max_memory, Some(-10));
}

#[test]
fn answer_without_cases_is_malformed() {
    assert_eq!(JudgeResult::try_from(answer(vec![])).err(), Some(PayloadError::NoCases));
}

#[test]
fn answer_without_error_needs_cases() {
    let raw = RawJudgeResult { err: None, data: RawJudgeData::Reason("why".to_owned()) };
    assert_eq!(JudgeResult::try_from(raw).err(), Some(PayloadError::CasesExpected));
    let raw = RawJudgeResult { err: None, data: RawJudgeData::Other };
    assert_eq!(JudgeResult::try_from(raw).err(), Some(PayloadError::CasesExpected));
}

#[test]
fn answer_with_error_needs_a_reason() {
    let raw = RawJudgeResult {
        err: Some("CompileError".to_owned()),
        data: RawJudgeData::Cases(vec![case(0, 1, 1, 1)]),
    };
    assert_eq!(JudgeResult::try_from(raw).err(), Some(PayloadError::ReasonExpected));
    let raw = RawJudgeResult { err: Some("CompileError".to_owned()), data: RawJudgeData::Other };
    assert_eq!(JudgeResult::try_from(raw).err(), Some(PayloadError::ReasonExpected));
}

#[test]
fn answer_with_error_has_no_verdict() {
    let raw = RawJudgeResult {
        err: Some("CompileError".to_owned()),
        data: RawJudgeData::Reason("main.c:1: error".to_owned()),
    };
    let result = JudgeResult::try_from(raw).unwrap();
    assert_eq!(result.err, Some("CompileError".to_owned()));
    assert_eq!(result.err_reason, Some("main.c:1: error".to_owned()));
    assert_eq!(result.is_accepted, None);
    assert!(result.details.is_none());
    assert_eq!(result.avg_real_time, None);
    assert_eq!(result.max_time, None);
    assert_eq!(result.max_memory, None);
    assert_eq!(result.out_results(), None);
}

#[test]
fn verdicts_are_listed_once_in_order_of_first_occurrence() {
    let result = JudgeResult::try_from(answer(vec![
        case(1, 0, 0, 0),
        case(0, 0, 0, 0),
        case(1, 0, 0, 0),
        case(-1, 0, 0, 0),
        case(0, 0, 0, 0),
        case(77, 0, 0, 0),
        case(99, 0, 0, 0),
    ]))
    .unwrap();
    assert_eq!(
        result.out_results(),
        Some(vec![
            "CPU_TIME_LIMIT_EXCEEDED".to_owned(),
            "SUCCESS".to_owned(),
            "WRONG_ANSWER".to_owned(),
            "UNKNOWN_ERROR".to_owned(),
        ])
    );
}

#[test]
fn only_the_waiting_state_waits() {
    assert!(is_waiting(&"Waiting".to_owned()));
    assert!(!is_waiting(&"Pending".to_owned()));
    assert!(!is_waiting(&"Finished".to_owned()));
    assert!(!is_waiting(&"waiting".to_owned()));
    assert!(!is_waiting(&"".to_owned()));
}
