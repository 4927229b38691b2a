use crate::models::languages::LanguageConfig;
use crate::models::languages::LanguageConfigView;
use crate::models::languages::SpjCompileConfig;
use crate::models::languages::SpjCompileConfigView;
use crate::models::languages::SpjConfig;
use crate::models::languages::SpjConfigView;
use crate::text::clone_optional_string;
use vstd::prelude::*;

verus! {

/// Input of one test case and the output expected for it.
#[derive(Debug)]
pub struct TestCase {
    pub input: String,
    pub output: String,
}

/// Mathematical content of a [`TestCase`].
pub ghost struct TestCaseView {
    pub input: Seq<char>,
    pub output: Seq<char>,
}

impl View for TestCase {
    type V = TestCaseView;

    open spec fn view(&self) -> TestCaseView {
        TestCaseView { input: self.input@, output: self.output@ }
    }
}

impl DeepView for TestCase {
    type V = TestCaseView;

    open spec fn deep_view(&self) -> TestCaseView {
        self@
    }
}

impl Clone for TestCase {
    fn clone(&self) -> (copy: Self)
        ensures
            copy@ == self@,
    {
        TestCase { input: self.input.clone(), output: self.output.clone() }
    }
}

/// What a judge server needs to judge one submission.
#[derive(Debug, Clone)]
pub struct JudgeSettings {
    pub language_config: LanguageConfig,
    pub src: String,
    pub max_cpu_time: i32,
    pub max_memory: i32,
    pub test_case_id: Option<String>,
    pub test_case: Option<Vec<TestCase>>,
    pub spj_version: Option<String>,
    pub spj_config: Option<SpjConfig>,
    pub spj_compile_config: Option<SpjCompileConfig>,
    pub spj_src: Option<String>,
    pub output: bool,
}

/// Mathematical content of a [`JudgeSettings`].
pub ghost struct JudgeSettingsView {
    pub language_config: LanguageConfigView,
    pub src: Seq<char>,
    pub max_cpu_time: i32,
    pub max_memory: i32,
    pub test_case_id: Option<Seq<char>>,
    pub test_case: Option<Seq<TestCaseView>>,
    pub spj_version: Option<Seq<char>>,
    pub spj_config: Option<SpjConfigView>,
    pub spj_compile_config: Option<SpjCompileConfigView>,
    pub spj_src: Option<Seq<char>>,
    pub output: bool,
}

impl View for JudgeSettings {
    type V = JudgeSettingsView;

    open spec fn view(&self) -> JudgeSettingsView {
        JudgeSettingsView {
            language_config: self.language_config@,
            src: self.src@,
            max_cpu_time: self.max_cpu_time,
            max_memory: self.max_memory,
            test_case_id: self.test_case_id.deep_view(),
            test_case: self.test_case.deep_view(),
            spj_version: self.spj_version.deep_view(),
            spj_config: self.spj_config.deep_view(),
            spj_compile_config: self.spj_compile_config.deep_view(),
            spj_src: self.spj_src.deep_view(),
            output: self.output,
        }
    }
}

/// Outcome of one test case as the judge server reports it, with the error
/// and the verdict as numbers.
#[derive(Debug)]
pub struct RawJudgeResultData {
    pub cpu_time: i32,
    pub real_time: i32,
    pub memory: i32,
    pub signal: i32,
    pub exit_code: i32,
    pub error: i32,
    pub result: i32,
    pub test_case: String,
    pub output_md5: Option<String>,
    pub output: Option<String>,
}

/// Mathematical content of a [`RawJudgeResultData`].
pub ghost struct RawJudgeResultDataView {
    pub cpu_time: i32,
    pub real_time: i32,
    pub memory: i32,
    pub signal: i32,
    pub exit_code: i32,
    pub error: i32,
    pub result: i32,
    pub test_case: Seq<char>,
    pub output_md5: Option<Seq<char>>,
    pub output: Option<Seq<char>>,
}

impl View for RawJudgeResultData {
    type V = RawJudgeResultDataView;

    open spec fn view(&self) -> RawJudgeResultDataView {
        RawJudgeResultDataView {
            cpu_time: self.cpu_time,
            real_time: self.real_time,
            memory: self.memory,
            signal: self.signal,
            exit_code: self.exit_code,
            error: self.error,
            result: self.result,
            test_case: self.test_case@,
            output_md5: self.output_md5.deep_view(),
            output: self.output.deep_view(),
        }
    }
}

impl DeepView for RawJudgeResultData {
    type V = RawJudgeResultDataView;

    open spec fn deep_view(&self) -> RawJudgeResultDataView {
        self@
    }
}

impl Clone for RawJudgeResultData {
    fn clone(&self) -> (copy: Self)
        ensures
            copy@ == self@,
    {
        RawJudgeResultData {
            cpu_time: self.cpu_time,
            real_time: self.real_time,
            memory: self.memory,
            signal: self.signal,
            exit_code: self.exit_code,
            error: self.error,
            result: self.result,
            test_case: self.test_case.clone(),
            output_md5: clone_optional_string(&self.output_md5),
            output: clone_optional_string(&self.output),
        }
    }
}

/// Outcome of one test case, with the error and the verdict by name.
#[derive(Debug)]
pub struct JudgeResultData {
    pub cpu_time: i32,
    pub real_time: i32,
    pub memory: i32,
    pub signal: i32,
    pub exit_code: i32,
    pub error: String,
    pub result: String,
    pub test_case: String,
    pub output_md5: Option<String>,
    pub output: Option<String>,
}

/// Mathematical content of a [`JudgeResultData`].
pub ghost struct JudgeResultDataView {
    pub cpu_time: i32,
    pub real_time: i32,
    pub memory: i32,
    pub signal: i32,
    pub exit_code: i32,
    pub error: Seq<char>,
    pub result: Seq<char>,
    pub test_case: Seq<char>,
    pub output_md5: Option<Seq<char>>,
    pub output: Option<Seq<char>>,
}

impl View for JudgeResultData {
    type V = JudgeResultDataView;

    open spec fn view(&self) -> JudgeResultDataView {
        JudgeResultDataView {
            cpu_time: self.cpu_time,
            real_time: self.real_time,
            memory: self.memory,
            signal: self.signal,
            exit_code: self.exit_code,
            error: self.error@,
            result: self.result@,
            test_case: self.test_case@,
            output_md5: self.output_md5.deep_view(),
            output: self.output.deep_view(),
        }
    }
}

impl DeepView for JudgeResultData {
    type V = JudgeResultDataView;

    open spec fn deep_view(&self) -> JudgeResultDataView {
        self@
    }
}

impl Clone for JudgeResultData {
    fn clone(&self) -> (copy: Self)
        ensures
            copy@ == self@,
    {
        JudgeResultData {
            cpu_time: self.cpu_time,
            real_time: self.real_time,
            memory: self.memory,
            signal: self.signal,
            exit_code: self.exit_code,
            error: self.error.clone(),
            result: self.result.clone(),
            test_case: self.test_case.clone(),
            output_md5: clone_optional_string(&self.output_md5),
            output: clone_optional_string(&self.output),
        }
    }
}

/// Name of the error that a judge server reports as `code`.
pub open spec fn error_name_view(code: i32) -> Seq<char> {
    if code == 0 {
        "SUCCESS"@
    } else if code == -1 {
        "INVALID_CONFIG"@
    } else if code == -2 {
        "CLONE_FAILED"@
    } else if code == -3 {
        "PTHREAD_FAILED"@
    } else if code == -4 {
        "WAIT_FAILED"@
    } else if code == -5 {
        "ROOT_REQUIRED"@
    } else if code == -6 {
        "LOAD_SECCOMP_FAILED"@
    } else if code == -7 {
        "SETRLIMIT_FAILED"@
    } else if code == -8 {
        "DUP2_FAILED"@
    } else if code == -9 {
        "SETUID_FAILED"@
    } else if code == -10 {
        "EXECVE_FAILED"@
    } else if code == -11 {
        "SPJ_ERROR"@
    } else {
        "UNKNOWN_ERROR"@
    }
}

/// Name of the verdict that a judge server reports as `code`.
pub open spec fn result_name_view(code: i32) -> Seq<char> {
    if code == -1 {
        "WRONG_ANSWER"@
    } else if code == 0 {
        "SUCCESS"@
    } else if code == 1 {
        "CPU_TIME_LIMIT_EXCEEDED"@
    } else if code == 2 {
        "REAL_TIME_LIMIT_EXCEEDED"@
    } else if code == 3 {
        "MEMORY_LIMIT_EXCEEDED"@
    } else if code == 4 {
        "RUNTIME_ERROR"@
    } else if code == 5 {
        "SYSTEM_ERROR"@
    } else {
        "UNKNOWN_ERROR"@
    }
}

/// The outcome of a test case with its error and verdict named.
pub open spec fn judge_result_data_view(raw: RawJudgeResultDataView) -> JudgeResultDataView {
    JudgeResultDataView {
        cpu_time: raw.cpu_time,
        real_time: raw.real_time,
        memory: raw.memory,
        signal: raw.signal,
        exit_code: raw.exit_code,
        error: error_name_view(raw.error),
        result: result_name_view(raw.result),
        test_case: raw.test_case,
        output_md5: raw.output_md5,
        output: raw.output,
    }
}

/// The name of the error that a judge server reports as `code`. A code
/// without a name of its own is an unknown error.
pub fn error_name(code: i32) -> (name: String)
    ensures
        name@ == error_name_view(code),
{
    let name = if code == 0 {
        "SUCCESS"
    } else if code == -1 {
        "INVALID_CONFIG"
    } else if code == -2 {
        "CLONE_FAILED"
    } else if code == -3 {
        "PTHREAD_FAILED"
    } else if code == -4 {
        "WAIT_FAILED"
    } else if code == -5 {
        "ROOT_REQUIRED"
    } else if code == -6 {
        "LOAD_SECCOMP_FAILED"
    } else if code == -7 {
        "SETRLIMIT_FAILED"
    } else if code == -8 {
        "DUP2_FAILED"
    } else if code == -9 {
        "SETUID_FAILED"
    } else if code == -10 {
        "EXECVE_FAILED"
    } else if code == -11 {
        "SPJ_ERROR"
    } else {
        "UNKNOWN_ERROR"
    };
    name.to_owned()
}

/// The name of the verdict that a judge server reports as `code`. A code
/// without a name of its own is an unknown error.
pub fn result_name(code: i32) -> (name: String)
    ensures
        name@ == result_name_view(code),
{
    let name = if code == -1 {
        "WRONG_ANSWER"
    } else if code == 0 {
        "SUCCESS"
    } else if code == 1 {
        "CPU_TIME_LIMIT_EXCEEDED"
    } else if code == 2 {
        "REAL_TIME_LIMIT_EXCEEDED"
    } else if code == 3 {
        "MEMORY_LIMIT_EXCEEDED"
    } else if code == 4 {
        "RUNTIME_ERROR"
    } else if code == 5 {
        "SYSTEM_ERROR"
    } else {
        "UNKNOWN_ERROR"
    };
    name.to_owned()
}

impl From<RawJudgeResultData> for JudgeResultData {
    /// Names the error and the verdict of a test case; the other fields pass
    /// through unchanged.
    fn from(raw: RawJudgeResultData) -> (data: Self)
        ensures
            data@ == judge_result_data_view(raw@),
    {
        JudgeResultData {
            cpu_time: raw.cpu_time,
            real_time: raw.real_time,
            memory: raw.memory,
            signal: raw.signal,
            exit_code: raw.exit_code,
            error: error_name(raw.error),
            result: result_name(raw.result),
            test_case: raw.test_case,
            output_md5: raw.output_md5,
            output: raw.output,
        }
    }
}

impl vstd::std_specs::convert::FromSpecImpl<RawJudgeResultData> for JudgeResultData {
    /// The conversion makes new strings, so what it returns is stated over
    /// views, in the contract of `from`.
    open spec fn obeys_from_spec() -> bool {
        false
    }

    open spec fn from_spec(raw: RawJudgeResultData) -> Self {
        arbitrary()
    }
}

/// What a judge server sent as the `data` of its answer.
#[derive(Debug, Clone)]
pub enum RawJudgeData {
    /// A list of outcomes, one for each test case.
    Cases(Vec<RawJudgeResultData>),
    /// A text: the reason of an error.
    Reason(String),
    /// Anything else.
    Other,
}

/// Mathematical content of a [`RawJudgeData`].
pub ghost enum RawJudgeDataView {
    Cases(Seq<RawJudgeResultDataView>),
    Reason(Seq<char>),
    Other,
}

impl View for RawJudgeData {
    type V = RawJudgeDataView;

    open spec fn view(&self) -> RawJudgeDataView {
        match self {
            RawJudgeData::Cases(cases) => RawJudgeDataView::Cases(cases.deep_view()),
            RawJudgeData::Reason(reason) => RawJudgeDataView::Reason(reason@),
            RawJudgeData::Other => RawJudgeDataView::Other,
        }
    }
}

/// Answer of a judge server to one judge request: the error that stopped
/// the judging, if any, and the data that goes with it.
#[derive(Debug, Clone)]
pub struct RawJudgeResult {
    pub err: Option<String>,
    pub data: RawJudgeData,
}

/// Mathematical content of a [`RawJudgeResult`].
pub ghost struct RawJudgeResultView {
    pub err: Option<Seq<char>>,
    pub data: RawJudgeDataView,
}

impl View for RawJudgeResult {
    type V = RawJudgeResultView;

    open spec fn view(&self) -> RawJudgeResultView {
        RawJudgeResultView { err: self.err.deep_view(), data: self.data@ }
    }
}

impl DeepView for RawJudgeResult {
    type V = RawJudgeResultView;

    open spec fn deep_view(&self) -> RawJudgeResultView {
        self@
    }
}

/// Result of judging one submission.
///
/// Without an error, `is_accepted` says whether every test case passed,
/// `details` lists the test cases, `avg_real_time` is the mean of their real
/// times, and `max_time` and `max_memory` are the largest CPU time and the
/// largest memory among them. With an error, `err` names it, `err_reason`
/// explains it, and the other fields are empty.
#[derive(Debug, Clone)]
pub struct JudgeResult {
    pub err: Option<String>,
    pub err_reason: Option<String>,
    pub is_accepted: Option<bool>,
    pub details: Option<Vec<JudgeResultData>>,
    pub avg_real_time: Option<i32>,
    pub max_time: Option<i32>,
    pub max_memory: Option<i32>,
}

/// Mathematical content of a [`JudgeResult`].
pub ghost struct JudgeResultView {
    pub err: Option<Seq<char>>,
    pub err_reason: Option<Seq<char>>,
    pub is_accepted: Option<bool>,
    pub details: Option<Seq<JudgeResultDataView>>,
    pub avg_real_time: Option<i32>,
    pub max_time: Option<i32>,
    pub max_memory: Option<i32>,
}

impl View for JudgeResult {
    type V = JudgeResultView;

    open spec fn view(&self) -> JudgeResultView {
        JudgeResultView {
            err: self.err.deep_view(),
            err_reason: self.err_reason.deep_view(),
            is_accepted: self.is_accepted,
            details: self.details.deep_view(),
            avg_real_time: self.avg_real_time,
            max_time: self.max_time,
            max_memory: self.max_memory,
        }
    }
}

/// Why the answer of a judge server is malformed.
#[derive(Debug, Clone, Copy, PartialEq, Eq, Structural)]
pub enum PayloadError {
    /// No error is named, and the data are no list of test cases.
    CasesExpected,
    /// No error is named, and the list of test cases is empty.
    NoCases,
    /// An error is named, and the data are no text.
    ReasonExpected,
}

/// Every test case has the verdict of success.
pub open spec fn all_accepted(cases: Seq<RawJudgeResultDataView>) -> bool {
    forall|i: int| 0 <= i < cases.len() ==> (#[trigger] cases[i]).result == 0
}

/// Sum of the real times of the test cases.
pub open spec fn total_real_time(cases: Seq<RawJudgeResultDataView>) -> int
    decreases cases.len(),
{
    if cases.len() == 0 {
        0
    } else {
        total_real_time(cases.drop_last()) + cases.last().real_time
    }
}

/// `total` divided by `count`, rounded towards zero.
pub open spec fn quotient(total: int, count: int) -> int {
    if total >= 0 {
        total / count
    } else {
        -((-total) / count)
    }
}

/// Largest CPU time among the test cases, of which there is at least one.
pub open spec fn max_cpu_time(cases: Seq<RawJudgeResultDataView>) -> int
    decreases cases.len(),
{
    if cases.len() <= 1 {
        cases[0].cpu_time as int
    } else if cases.last().cpu_time > max_cpu_time(cases.drop_last()) {
        cases.last().cpu_time as int
    } else {
        max_cpu_time(cases.drop_last())
    }
}

/// Largest memory among the test cases, of which there is at least one.
pub open spec fn max_memory(cases: Seq<RawJudgeResultDataView>) -> int
    decreases cases.len(),
{
    if cases.len() <= 1 {
        cases[0].memory as int
    } else if cases.last().memory > max_memory(cases.drop_last()) {
        cases.last().memory as int
    } else {
        max_memory(cases.drop_last())
    }
}

/// The test cases with their errors and verdicts named.
pub open spec fn named_cases(cases: Seq<RawJudgeResultDataView>) -> Seq<JudgeResultDataView> {
    Seq::new(cases.len(), |i: int| judge_result_data_view(cases[i]))
}

/// What an answer of a judge server means. It is malformed where the data
/// do not fit the error field, and where no error is named and no test case
/// is listed.
pub open spec fn judge_result_view(raw: RawJudgeResultView) -> Result<JudgeResultView, PayloadError> {
    match raw.err {
        None => match raw.data {
            RawJudgeDataView::Cases(cases) => if cases.len() == 0 {
                Err(PayloadError::NoCases)
            } else {
                Ok(
                    JudgeResultView {
                        err: None,
                        err_reason: None,
                        is_accepted: Some(all_accepted(cases)),
                        details: Some(named_cases(cases)),
                        avg_real_time: Some(
                            quotient(total_real_time(cases), cases.len() as int) as i32,
                        ),
                        max_time: Some(max_cpu_time(cases) as i32),
                        max_memory: Some(max_memory(cases) as i32),
                    },
                )
            },
            _ => Err(PayloadError::CasesExpected),
        },
        Some(err) => match raw.data {
            RawJudgeDataView::Reason(reason) => Ok(
                JudgeResultView {
                    err: Some(err),
                    err_reason: Some(reason),
                    is_accepted: None,
                    details: None,
                    avg_real_time: None,
                    max_time: None,
                    max_memory: None,
                },
            ),
            _ => Err(PayloadError::ReasonExpected),
        },
    }
}

/// An answer that names no error and lists `cases`.
pub open spec fn answer_with_cases(cases: Seq<RawJudgeResultDataView>) -> RawJudgeResultView {
    RawJudgeResultView { err: None, data: RawJudgeDataView::Cases(cases) }
}

/// The sum of the real times grows by the last case, and stays within the
/// range of as many 32-bit numbers.
pub proof fn lemma_total_real_time_bounds(cases: Seq<RawJudgeResultDataView>)
    ensures
        cases.len() * (i32::MIN as int) <= total_real_time(cases) <= cases.len() * (i32::MAX as int),
    decreases cases.len(),
{
    if cases.len() > 0 {
        lemma_total_real_time_bounds(cases.drop_last());
        assert((cases.len() - 1) * (i32::MIN as int) + (i32::MIN as int) == cases.len() * (
        i32::MIN as int)) by (nonlinear_arith);
        assert((cases.len() - 1) * (i32::MAX as int) + (i32::MAX as int) == cases.len() * (
        i32::MAX as int)) by (nonlinear_arith);
    }
}

/// The mean of 32-bit numbers is a 32-bit number.
pub proof fn lemma_quotient_bounds(total: int, count: int)
    requires
        count > 0,
        count * (i32::MIN as int) <= total <= count * (i32::MAX as int),
    ensures
        i32::MIN <= quotient(total, count) <= i32::MAX,
{
    if total >= 0 {
        assert(total / count <= i32::MAX) by (nonlinear_arith)
            requires
                count > 0,
                0 <= total <= count * (i32::MAX as int),
        ;
        assert(total / count >= 0) by (nonlinear_arith)
            requires
                count > 0,
                0 <= total,
        ;
    } else {
        let m = -total;
        assert(m / count <= -(i32::MIN as int)) by (nonlinear_arith)
            requires
                count > 0,
                0 <= m <= count * (-(i32::MIN as int)),
        ;
        assert(m / count >= 0) by (nonlinear_arith)
            requires
                count > 0,
                0 <= m,
        ;
    }
}

/// The largest CPU time is the CPU time of one of the cases, and no case has
/// a larger one.
pub proof fn lemma_max_cpu_time(cases: Seq<RawJudgeResultDataView>)
    requires
        cases.len() > 0,
    ensures
        exists|i: int| 0 <= i < cases.len() && (#[trigger] cases[i]).cpu_time == max_cpu_time(cases),
        forall|i: int| 0 <= i < cases.len() ==> (#[trigger] cases[i]).cpu_time <= max_cpu_time(cases),
    decreases cases.len(),
{
    if cases.len() > 1 {
        let rest = cases.drop_last();
        lemma_max_cpu_time(rest);
        let k = choose|i: int| 0 <= i < rest.len() && (#[trigger] rest[i]).cpu_time == max_cpu_time(rest);
        assert(cases[k] == rest[k]);
        assert forall|i: int| 0 <= i < cases.len() implies (#[trigger] cases[i]).cpu_time
            <= max_cpu_time(cases) by {
            if i < rest.len() {
                assert(cases[i] == rest[i]);
            }
        }
        if cases.last().cpu_time > max_cpu_time(rest) {
            assert(cases[cases.len() - 1].cpu_time == max_cpu_time(cases));
        } else {
            assert(cases[k].cpu_time == max_cpu_time(cases));
        }
    } else {
        assert(cases[0].cpu_time == max_cpu_time(cases));
    }
}

/// The largest memory is the memory of one of the cases, and no case has a
/// larger one.
pub proof fn lemma_max_memory(cases: Seq<RawJudgeResultDataView>)
    requires
        cases.len() > 0,
    ensures
        exists|i: int| 0 <= i < cases.len() && (#[trigger] cases[i]).memory == max_memory(cases),
        forall|i: int| 0 <= i < cases.len() ==> (#[trigger] cases[i]).memory <= max_memory(cases),
    decreases cases.len(),
{
    if cases.len() > 1 {
        let rest = cases.drop_last();
        lemma_max_memory(rest);
        let k = choose|i: int| 0 <= i < rest.len() && (#[trigger] rest[i]).memory == max_memory(rest);
        assert(cases[k] == rest[k]);
        assert forall|i: int| 0 <= i < cases.len() implies (#[trigger] cases[i]).memory
            <= max_memory(cases) by {
            if i < rest.len() {
                assert(cases[i] == rest[i]);
            }
        }
        if cases.last().memory > max_memory(rest) {
            assert(cases[cases.len() - 1].memory == max_memory(cases));
        } else {
            assert(cases[k].memory == max_memory(cases));
        }
    } else {
        assert(cases[0].memory == max_memory(cases));
    }
}

/// Reads the test cases of an answer without error: names their errors and
/// verdicts and computes the figures of the whole run.
fn summarize(cases: &Vec<RawJudgeResultData>) -> (result: JudgeResult)
    requires
        cases.len() > 0,
    ensures
        Ok::<JudgeResultView, PayloadError>(result@) == judge_result_view(answer_with_cases(cases.deep_view())),
{
    let ghost all = cases.deep_view();
    let mut details: Vec<JudgeResultData> = Vec::new();
    let mut is_accepted = true;
    let mut total: i128 = 0;
    let mut max_time: i32 = cases[0].cpu_time;
    let mut max_mem: i32 = cases[0].memory;
    let mut i: usize = 0;
    while i < cases.len()
        invariant
            i <= cases.len(),
            cases.len() > 0,
            all == cases.deep_view(),
            details.len() == i,
            forall|k: int| 0 <= k < i ==> (#[trigger] details@[k])@ == judge_result_data_view(all[k]),
            is_accepted == all_accepted(all.take(i as int)),
            total == total_real_time(all.take(i as int)),
            i > 0 ==> max_time == max_cpu_time(all.take(i as int)),
            i > 0 ==> max_mem == max_memory(all.take(i as int)),
            i == 0 ==> max_time == all[0].cpu_time && max_mem == all[0].memory,
        decreases cases.len() - i,
    {
        proof {
            lemma_total_real_time_bounds(all.take(i as int));
            assert(all.take(i + 1).drop_last() =~= all.take(i as int));
            assert(all.take(i + 1).last() == all[i as int]);
            assert(i * (i32::MIN as int) >= usize::MAX * (i32::MIN as int)) by (nonlinear_arith)
                requires
                    0 <= i <= usize::MAX,
            ;
            assert(i * (i32::MAX as int) <= usize::MAX * (i32::MAX as int)) by (nonlinear_arith)
                requires
                    0 <= i <= usize::MAX,
            ;
        }
        let case = &cases[i];
        if case.result != 0 {
            is_accepted = false;
        }
        total = total + case.real_time as i128;
        if i == 0 || case.cpu_time > max_time {
            max_time = case.cpu_time;
        }
        if i == 0 || case.memory > max_mem {
            max_mem = case.memory;
        }
        details.push(JudgeResultData::from(case.clone()));
        proof {
            assert(all_accepted(all.take(i + 1)) == (all_accepted(all.take(i as int))
                && all[i as int].result == 0)) by {
                if all_accepted(all.take(i as int)) && all[i as int].result == 0 {
                    assert forall|k: int| 0 <= k < all.take(i + 1).len() implies (
                    #[trigger] all.take(i + 1)[k]).result == 0 by {
                        if k < i {
                            assert(all.take(i as int)[k].result == 0);
                        }
                    }
                }
                if all_accepted(all.take(i + 1)) {
                    assert(all.take(i + 1)[i as int].result == 0);
                    assert forall|k: int| 0 <= k < all.take(i as int).len() implies (
                    #[trigger] all.take(i as int)[k]).result == 0 by {
                        assert(all.take(i + 1)[k].result == 0);
                    }
                }
            }
        }
        i += 1;
    }
    proof {
        assert(all.take(cases.len() as int) =~= all);
        lemma_total_real_time_bounds(all);
        lemma_quotient_bounds(total_real_time(all), all.len() as int);
        lemma_max_cpu_time(all);
        lemma_max_memory(all);
        assert(details.deep_view() =~= named_cases(all));
    }
    let avg = total / (cases.len() as i128);
    JudgeResult {
        err: None,
        err_reason: None,
        is_accepted: Some(is_accepted),
        details: Some(details),
        avg_real_time: Some(avg as i32),
        max_time: Some(max_time),
        max_memory: Some(max_mem),
    }
}

impl TryFrom<RawJudgeResult> for JudgeResult {
    type Error = PayloadError;

    /// Reads the answer of a judge server.
    ///
    /// An answer without an error must list at least one test case; the
    /// result names the error and the verdict of each, and says whether all
    /// passed, their mean real time, and their largest CPU time and memory.
    /// An answer with an error must give its reason as a text. Any other
    /// answer is malformed.
    fn try_from(raw: RawJudgeResult) -> (result: Result<Self, PayloadError>)
        ensures
            match judge_result_view(raw@) {
                Ok(view) => result.is_ok() && result.unwrap()@ == view,
                Err(error) => result == Err::<Self, PayloadError>(error),
            },
    {
        match raw.err {
            None => match raw.data {
                RawJudgeData::Cases(cases) => {
                    if cases.len() == 0 {
                        Err(PayloadError::NoCases)
                    } else {
                        Ok(summarize(&cases))
                    }
                },
                _ => Err(PayloadError::CasesExpected),
            },
            Some(err) => match raw.data {
                RawJudgeData::Reason(reason) => Ok(
                    JudgeResult {
                        err: Some(err),
                        err_reason: Some(reason),
                        is_accepted: None,
                        details: None,
                        avg_real_time: None,
                        max_time: None,
                        max_memory: None,
                    },
                ),
                _ => Err(PayloadError::ReasonExpected),
            },
        }
    }
}

impl vstd::std_specs::convert::TryFromSpecImpl<RawJudgeResult> for JudgeResult {
    /// The conversion makes new strings, so what it returns is stated over
    /// views, in the contract of `try_from`.
    open spec fn obeys_try_from_spec() -> bool {
        false
    }

    open spec fn try_from_spec(raw: RawJudgeResult) -> Result<Self, PayloadError> {
        arbitrary()
    }
}

/// Lifecycle state of a task. A task waits, is pending while a worker has it
/// judged, and is finished once its result is stored; a pending task whose
/// dispatch failed waits again.
#[derive(Debug, Clone, Copy, PartialEq, Eq, Structural)]
pub enum SubmissionState {
    Waiting,
    Pending,
    Finished,
}

impl SubmissionState {
    /// Name under which the task store holds the state.
    pub open spec fn name_view(self) -> Seq<char> {
        match self {
            SubmissionState::Waiting => "Waiting"@,
            SubmissionState::Pending => "Pending"@,
            SubmissionState::Finished => "Finished"@,
        }
    }

    /// The name under which the task store holds the state.
    pub fn name(&self) -> (name: String)
        ensures
            name@ == self.name_view(),
    {
        match self {
            SubmissionState::Waiting => "Waiting".to_owned(),
            SubmissionState::Pending => "Pending".to_owned(),
            SubmissionState::Finished => "Finished".to_owned(),
        }
    }
}

/// Whether `state`, as read from the task store, says that the task waits.
pub fn is_waiting(state: &String) -> (waiting: bool)
    ensures
        waiting == (state@ == SubmissionState::Waiting.name_view()),
{
    *state == SubmissionState::Waiting.name()
}

/// The verdicts of the test cases, each once, in the order in which they
/// first occur.
pub open spec fn distinct_results(details: Seq<JudgeResultDataView>) -> Seq<Seq<char>>
    decreases details.len(),
{
    if details.len() == 0 {
        Seq::empty()
    } else if distinct_results(details.drop_last()).contains(details.last().result) {
        distinct_results(details.drop_last())
    } else {
        distinct_results(details.drop_last()).push(details.last().result)
    }
}

/// `distinct_results` holds no verdict twice, and holds a verdict if and
/// only if a test case has it.
pub proof fn lemma_distinct_results(details: Seq<JudgeResultDataView>)
    ensures
        distinct_results(details).no_duplicates(),
        forall|name: Seq<char>|
            distinct_results(details).contains(name) <==> exists|i: int|
                0 <= i < details.len() && (#[trigger] details[i]).result == name,
    decreases details.len(),
{
    if details.len() > 0 {
        let rest = details.drop_last();
        let last = details.last().result;
        lemma_distinct_results(rest);
        let found = distinct_results(rest);
        let all = distinct_results(details);
        assert forall|name: Seq<char>| all.contains(name) implies exists|i: int|
            0 <= i < details.len() && (#[trigger] details[i]).result == name by {
            if found.contains(name) {
                let i = choose|i: int| 0 <= i < rest.len() && (#[trigger] rest[i]).result == name;
                assert(details[i] == rest[i]);
            } else {
                let k = choose|k: int| 0 <= k < all.len() && all[k] == name;
                if k < found.len() {
                    assert(found[k] == name);
                }
                assert(details[details.len() - 1].result == name);
            }
        }
        assert forall|name: Seq<char>|
            (exists|i: int| 0 <= i < details.len() && (#[trigger] details[i]).result == name)
            implies all.contains(name) by {
            let i = choose|i: int| 0 <= i < details.len() && (#[trigger] details[i]).result == name;
            if i < rest.len() {
                assert(rest[i].result == name);
            }
            if found.contains(name) {
                let k = choose|k: int| 0 <= k < found.len() && found[k] == name;
                assert(all[k] == name);
            } else {
                assert(all[found.len() as int] == name);
            }
        }
    }
}

/// Whether `names` holds `name`.
fn holds(names: &Vec<String>, name: &String) -> (found: bool)
    ensures
        found == names.deep_view().contains(name@),
{
    let mut i: usize = 0;
    while i < names.len()
        invariant
            i <= names.len(),
            forall|k: int| 0 <= k < i ==> names.deep_view()[k] != name@,
        decreases names.len() - i,
    {
        if names[i] == *name {
            assert(names.deep_view()[i as int] == name@);
            return true;
        }
        i += 1;
    }
    false
}

impl JudgeResult {
    /// The verdicts that occur among the test cases, each once, in the order
    /// in which they first occur; nothing for a result without test cases.
    pub fn out_results(&self) -> (names: Option<Vec<String>>)
        ensures
            names.deep_view() == match self@.details {
                Some(details) => Some(distinct_results(details)),
                None => None,
            },
    {
        match &self.details {
            Some(details) => {
                let ghost all = details.deep_view();
                let mut names: Vec<String> = Vec::new();
                let mut i: usize = 0;
                while i < details.len()
                    invariant
                        i <= details.len(),
                        all == details.deep_view(),
                        names.deep_view() == distinct_results(all.take(i as int)),
                    decreases details.len() - i,
                {
                    proof {
                        assert(all.take(i + 1).drop_last() =~= all.take(i as int));
                        assert(all.take(i + 1).last() == all[i as int]);
                    }
                    let ghost before = names.deep_view();
                    if !holds(&names, &details[i].result) {
                        names.push(details[i].result.clone());
                        assert(names.deep_view() =~= before.push(all[i as int].result));
                    }
                    i += 1;
                }
                assert(all.take(details.len() as int) =~= all);
                Some(names)
            },
            None => None,
        }
    }
}

} // verus!
