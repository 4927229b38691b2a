use crate::models::languages::get_lang_config;
use crate::models::languages::lang_config_view;
use crate::models::languages::spj_compile_config;
use crate::models::languages::spj_compile_config_view;
use crate::models::languages::spj_config;
use crate::models::languages::spj_config_view;
use crate::models::problems::ProblemSettings;
use crate::models::submissions::JudgeSettings;
use crate::models::submissions::JudgeSettingsView;
use crate::text::decimal;
use crate::text::decimal_string;
use crate::text::reads;
use vstd::prelude::*;

verus! {

/// The language compiles to machine code: it is C or C++.
pub open spec fn is_high_performance(language: Seq<char>) -> bool {
    language == "c"@ || language == "cpp"@
}

/// The judge settings of a new submission.
///
/// The limits are those of the problem for the kind of the language. The
/// test cases are those stored under the number of the problem. A problem
/// with a special judge brings the configuration and the source of the
/// judge; any other problem brings neither. The outputs are kept unless the
/// problem keeps them opaque.
pub open spec fn new_judge_settings_view(
    problem_id: i32,
    settings: ProblemSettings,
    src: Seq<char>,
    language: Seq<char>,
    spj_src: Option<Seq<char>>,
) -> JudgeSettingsView {
    JudgeSettingsView {
        language_config: lang_config_view(language),
        src,
        max_cpu_time: if is_high_performance(language) {
            settings.high_performance_max_cpu_time
        } else {
            settings.other_max_cpu_time
        },
        max_memory: if is_high_performance(language) {
            settings.high_performance_max_memory
        } else {
            settings.other_max_memory
        },
        test_case_id: Some(decimal(problem_id as int)),
        test_case: None,
        spj_version: Some("1"@),
        spj_config: if settings.is_spj {
            Some(spj_config_view())
        } else {
            None
        },
        spj_compile_config: if settings.is_spj {
            Some(spj_compile_config_view())
        } else {
            None
        },
        spj_src: if settings.is_spj {
            spj_src
        } else {
            None
        },
        output: !settings.opaque_output,
    }
}

/// Makes the judge settings of a new submission in `language` with the
/// source `src`, for the problem with the number `problem_id` and the
/// settings `settings`. `spj_src` is the source of the special judge of the
/// problem, where it has one.
pub fn new_judge_settings(
    problem_id: i32,
    settings: &ProblemSettings,
    src: String,
    language: &str,
    spj_src: Option<String>,
) -> (judge_settings: JudgeSettings)
    ensures
        judge_settings@ == new_judge_settings_view(
            problem_id,
            *settings,
            src@,
            language@,
            spj_src.deep_view(),
        ),
{
    let high_performance = reads(language, "c") || reads(language, "cpp");
    JudgeSettings {
        language_config: get_lang_config(language),
        src,
        max_cpu_time: if high_performance {
            settings.high_performance_max_cpu_time
        } else {
            settings.other_max_cpu_time
        },
        max_memory: if high_performance {
            settings.high_performance_max_memory
        } else {
            settings.other_max_memory
        },
        test_case_id: Some(decimal_string(problem_id)),
        test_case: None,
        spj_version: Some("1".to_owned()),
        spj_config: if settings.is_spj {
            Some(spj_config())
        } else {
            None
        },
        spj_compile_config: if settings.is_spj {
            Some(spj_compile_config())
        } else {
            None
        },
        spj_src: if settings.is_spj {
            spj_src
        } else {
            None
        },
        output: !settings.opaque_output,
    }
}

} // verus!
