use judge_dispatch::models::languages::c_lang_config;
use judge_dispatch::models::languages::cpp_lang_config;
use judge_dispatch::models::languages::default_env;
use judge_dispatch::models::languages::get_lang_config;
use judge_dispatch::models::languages::java_lang_config;
use judge_dispatch::models::languages::py2_lang_config;
use judge_dispatch::models::languages::py3_lang_config;
use judge_dispatch::models::languages::spj_compile_config;
use judge_dispatch::models::languages::spj_config;
use judge_dispatch::models::problems::ProblemSettings;
use judge_dispatch::services::submission::new_judge_settings;

fn common_env() -> Vec<String> {
    vec![
        "LANG=en_US.UTF-8".to_owned(),
        "LANGUAGE=en_US:en".to_owned(),
        "LC_ALL=en_US.UTF-8".to_owned(),
    ]
}

#[test]
fn default_environment() {
    assert_eq!(default_env(), common_env());
}

#[test]
fn c_configuration() {
    let config = c_lang_config();
    assert_eq!(config.compile.src_name, "main.c");
    assert_eq!(config.compile.exe_name, "main");
    assert_eq!(config.compile.max_cpu_time, 3000);
    assert_eq!(config.compile.max_real_time, 5000);
    assert_eq!(config.compile.max_memory, 134217728);
    assert_eq!(
        config.compile.compile_command,
        "/usr/bin/gcc -DONLINE_JUDGE -O2 -w -fmax-errors=3 -std=c99 {src_path} -lm -o {exe_path}"
    );
    assert_eq!(config.run.command, "{exe_path}");
    assert_eq!(config.run.seccomp_rule, Some("c_cpp".to_owned()));
    assert_eq!(config.run.env, common_env());
    assert_eq!(config.run.memory_limit_check_only, 0);
}

#[test]
fn cpp_configuration() {
    let config = cpp_lang_config();
    assert_eq!(config.compile.src_name, "main.cpp");
    assert_eq!(config.compile.exe_name, "main");
    assert_eq!(config.compile.max_cpu_time, 3000);
    assert_eq!(config.compile.max_real_time, 5000);
    assert_eq!(config.compile.max_memory, 134217728);
    assert_eq!(
        config.compile.compile_command,
        "/usr/bin/g++ -DONLINE_JUDGE -O2 -w -fmax-errors=3 -std=c++11 {src_path} -lm -o {exe_path}"
    );
    assert_eq!(config.run.command, "{exe_path}");
    assert_eq!(config.run.seccomp_rule, Some("c_cpp".to_owned()));
    assert_eq!(config.run.env, common_env());
    assert_eq!(config.run.memory_limit_check_only, 0);
}

#[test]
fn java_configuration() {
    let config = java_lang_config();
    assert_eq!(config.compile.src_name, "Main.java");
    assert_eq!(config.compile.exe_name, "Main");
    assert_eq!(config.compile.max_cpu_time, 5000);
    assert_eq!(config.compile.max_real_time, 10000);
    assert_eq!(config.compile.max_memory, -1);
    assert_eq!(
        config.compile.compile_command,
        "/usr/bin/javac {src_path} -d {exe_dir} -encoding UTF8"
    );
    assert_eq!(
        config.run.command,
        "/usr/bin/java -cp {exe_dir} -XX:MaxRAM={max_memory}k -Djava.security.manager -Dfile.encoding=UTF-8 -Djava.security.policy==/etc/java_policy -Djava.awt.headless=true Main"
    );
    assert_eq!(config.run.seccomp_rule, None);
    assert_eq!(config.run.env, common_env());
    assert_eq!(config.run.memory_limit_check_only, 1);
}

#[test]
fn python_2_configuration() {
    let config = py2_lang_config();
    assert_eq!(config.compile.src_name, "solution.py");
    assert_eq!(config.compile.exe_name, "solution.pyc");
    assert_eq!(config.compile.max_cpu_time, 3000);
    assert_eq!(config.compile.max_real_time, 5000);
    assert_eq!(config.compile.max_memory, 134217728);
    assert_eq!(config.compile.compile_command, "/usr/bin/python -m py_compile {src_path}");
    assert_eq!(config.run.command, "/usr/bin/python {exe_path}");
    assert_eq!(config.run.seccomp_rule, Some("general".to_owned()));
    assert_eq!(config.run.env, common_env());
    assert_eq!(config.run.memory_limit_check_only, 0);
}

#[test]
fn python_3_configuration() {
    let config = py3_lang_config();
    assert_eq!(config.compile.src_name, "solution.py");
    assert_eq!(config.compile.exe_name, "__pycache__/solution.cpython-36.pyc");
    assert_eq!(config.compile.max_cpu_time, 3000);
    assert_eq!(config.compile.max_real_time, 5000);
    assert_eq!(config.compile.max_memory, 134217728);
    assert_eq!(config.compile.compile_command, "/usr/bin/python3 -m py_compile {src_path}");
    assert_eq!(config.run.command, "/usr/bin/python3 {exe_path}");
    assert_eq!(config.run.seccomp_rule, Some("general".to_owned()));
    let mut env = common_env();
    env.push("PYTHONIOENCODING=UTF-8".to_owned());
    assert_eq!(config.run.env, env);
    assert_eq!(config.run.memory_limit_check_only, 0);
}

#[test]
fn special_judge_configuration() {
    let compile = spj_compile_config();
    assert_eq!(compile.src_name, "spj-{spj_version}.cpp");
    assert_eq!(compile.exe_name, "spj-{spj_version}");
    assert_eq!(compile.max_cpu_time, 3000);
    assert_eq!(compile.max_real_time, 5000);
    assert_eq!(compile.max_memory, 1073741824);
    assert_eq!(
        compile.compile_command,
        "/usr/bin/g++ -DONLINE_JUDGE -O2 -w -fmax-errors=3 -std=c99 {src_path} -lm -L /test_case/include -o {exe_path}"
    );
    let run = spj_config();
    assert_eq!(run.exe_name, "spj-{spj_version}");
    assert_eq!(run.command, "{exe_path} {in_file_path} {user_out_file_path}");
    assert_eq!(run.seccomp_rule, "c_cpp");
    let copy = run.clone();
    assert_eq!(copy.command, run.command);
}

#[test]
fn configuration_by_language_name() {
    assert_eq!(get_lang_config("c").compile.src_name, "main.c");
    assert_eq!(get_lang_config("cpp").compile.src_name, "main.cpp");
    assert_eq!(get_lang_config("java").compile.src_name, "Main.java");
    assert_eq!(get_lang_config("py2").compile.exe_name, "solution.pyc");
    assert_eq!(
        get_lang_config("py3").compile.exe_name,
        "__pycache__/solution.cpython-36.pyc"
    );
}

#[test]
fn unknown_language_is_judged_as_c() {
    assert_eq!(get_lang_config("rust").compile.src_name, "main.c");
    assert_eq!(get_lang_config("").compile.src_name, "main.c");
    assert_eq!(get_lang_config("CPP").compile.src_name, "main.c");
    assert_eq!(get_lang_config("py").compile.src_name, "main.c");
}

#[test]
fn configuration_copies_are_equal() {
    let config = get_lang_config("py3");
    let copy = config.clone();
    assert_eq!(copy.compile.src_name, config.compile.src_name);
    assert_eq!(copy.compile.compile_command, config.compile.compile_command);
    assert_eq!(copy.run.env, config.run.env);
    assert_eq!(copy.run.seccomp_rule, config.run.seccomp_rule);
}

fn limits(is_spj: bool, opaque_output: bool) -> ProblemSettings {
    ProblemSettings {
        is_spj,
        high_performance_max_cpu_time: 1000,
        high_performance_max_memory: 64,
        other_max_cpu_time: 3000,
        other_max_memory: 256,
        opaque_output,
        test_case_count: Some(3),
    }
}

#[test]
fn settings_of_a_compiled_language() {
    let settings = new_judge_settings(
        42,
        &limits(false, false),
        "int main(){}".to_owned(),
        "cpp",
        Some("ignored".to_owned()),
    );
    assert_eq!(settings.language_config.compile.src_name, "main.cpp");
    assert_eq!(settings.src, "int main(){}");
    assert_eq!(settings.max_cpu_time, 1000);
    assert_eq!(settings.max_memory, 64);
    assert_eq!(settings.test_case_id, Some("42".to_owned()));
    assert!(settings.test_case.is_none());
    assert_eq!(settings.spj_version, Some("1".to_owned()));
    assert!(settings.spj_config.is_none());
    assert!(settings.spj_compile_config.is_none());
    assert_eq!(settings.spj_src, None);
    assert!(settings.output);
    let c = new_judge_settings(1, &limits(false, false), "".to_owned(), "c", None);
    assert_eq!(c.max_cpu_time, 1000);
    assert_eq!(c.max_memory, 64);
}

#[test]
fn settings_of_another_language() {
    let settings = new_judge_settings(7, &limits(false, true), "print(1)".to_owned(), "py3", None);
    assert_eq!(settings.language_config.compile.src_name, "solution.py");
    assert_eq!(settings.max_cpu_time, 3000);
    assert_eq!(settings.max_memory, 256);
    assert_eq!(settings.test_case_id, Some("7".to_owned()));
    assert!(!settings.output);
    let unknown = new_judge_settings(7, &limits(false, true), "".to_owned(), "rust", None);
    assert_eq!(unknown.language_config.compile.src_name, "main.c");
    assert_eq!(unknown.max_cpu_time, 3000);
    assert_eq!(unknown.max_memory, 256);
}

#[test]
fn settings_of_a_problem_with_special_judge() {
    let settings = new_judge_settings(
        -3,
        &limits(true, false),
        "x".to_owned(),
        "java",
        Some("int main(){return 0;}".to_owned()),
    );
    assert_eq!(settings.test_case_id, Some("-3".to_owned()));
    assert_eq!(settings.spj_config.as_ref().unwrap().exe_name, "spj-{spj_version}");
    assert_eq!(
        settings.spj_compile_config.as_ref().unwrap().src_name,
        "spj-{spj_version}.cpp"
    );
    assert_eq!(settings.spj_src, Some("int main(){return 0;}".to_owned()));
    assert_eq!(settings.max_cpu_time, 3000);
}
