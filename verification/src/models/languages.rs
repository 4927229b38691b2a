use crate::text::clone_optional_string;
use crate::text::clone_strings;
use crate::text::reads;
use vstd::prelude::*;

verus! {

/// How the source of a submission is compiled on a judge server.
#[derive(Debug)]
pub struct CompileConfig {
    pub src_name: String,
    pub exe_name: String,
    pub max_cpu_time: i32,
    pub max_real_time: i32,
    pub max_memory: i32,
    pub compile_command: String,
}

/// Mathematical content of a [`CompileConfig`].
pub ghost struct CompileConfigView {
    pub src_name: Seq<char>,
    pub exe_name: Seq<char>,
    pub max_cpu_time: i32,
    pub max_real_time: i32,
    pub max_memory: i32,
    pub compile_command: Seq<char>,
}

impl View for CompileConfig {
    type V = CompileConfigView;

    open spec fn view(&self) -> CompileConfigView {
        CompileConfigView {
            src_name: self.src_name@,
            exe_name: self.exe_name@,
            max_cpu_time: self.max_cpu_time,
            max_real_time: self.max_real_time,
            max_memory: self.max_memory,
            compile_command: self.compile_command@,
        }
    }
}

impl Clone for CompileConfig {
    fn clone(&self) -> (copy: Self)
        ensures
            copy@ == self@,
    {
        CompileConfig {
            src_name: self.src_name.clone(),
            exe_name: self.exe_name.clone(),
            max_cpu_time: self.max_cpu_time,
            max_real_time: self.max_real_time,
            max_memory: self.max_memory,
            compile_command: self.compile_command.clone(),
        }
    }
}

/// How the compiled program is run on a judge server.
#[derive(Debug)]
pub struct RunConfig {
    pub command: String,
    pub seccomp_rule: Option<String>,
    pub env: Vec<String>,
    pub memory_limit_check_only: i32,
}

/// Mathematical content of a [`RunConfig`].
pub ghost struct RunConfigView {
    pub command: Seq<char>,
    pub seccomp_rule: Option<Seq<char>>,
    pub env: Seq<Seq<char>>,
    pub memory_limit_check_only: i32,
}

impl View for RunConfig {
    type V = RunConfigView;

    open spec fn view(&self) -> RunConfigView {
        RunConfigView {
            command: self.command@,
            seccomp_rule: self.seccomp_rule.deep_view(),
            env: self.env.deep_view(),
            memory_limit_check_only: self.memory_limit_check_only,
        }
    }
}

impl Clone for RunConfig {
    fn clone(&self) -> (copy: Self)
        ensures
            copy@ == self@,
    {
        RunConfig {
            command: self.command.clone(),
            seccomp_rule: clone_optional_string(&self.seccomp_rule),
            env: clone_strings(&self.env),
            memory_limit_check_only: self.memory_limit_check_only,
        }
    }
}

/// Compile and run configuration of one programming language.
#[derive(Debug)]
pub struct LanguageConfig {
    pub compile: CompileConfig,
    pub run: RunConfig,
}

/// Mathematical content of a [`LanguageConfig`].
pub ghost struct LanguageConfigView {
    pub compile: CompileConfigView,
    pub run: RunConfigView,
}

impl View for LanguageConfig {
    type V = LanguageConfigView;

    open spec fn view(&self) -> LanguageConfigView {
        LanguageConfigView { compile: self.compile@, run: self.run@ }
    }
}

impl Clone for LanguageConfig {
    fn clone(&self) -> (copy: Self)
        ensures
            copy@ == self@,
    {
        LanguageConfig { compile: self.compile.clone(), run: self.run.clone() }
    }
}

/// How a special-judge program is run.
#[derive(Debug)]
pub struct SpjConfig {
    pub exe_name: String,
    pub command: String,
    pub seccomp_rule: String,
}

/// Mathematical content of a [`SpjConfig`].
pub ghost struct SpjConfigView {
    pub exe_name: Seq<char>,
    pub command: Seq<char>,
    pub seccomp_rule: Seq<char>,
}

impl View for SpjConfig {
    type V = SpjConfigView;

    open spec fn view(&self) -> SpjConfigView {
        SpjConfigView {
            exe_name: self.exe_name@,
            command: self.command@,
            seccomp_rule: self.seccomp_rule@,
        }
    }
}

impl DeepView for SpjConfig {
    type V = SpjConfigView;

    open spec fn deep_view(&self) -> SpjConfigView {
        self@
    }
}

impl Clone for SpjConfig {
    fn clone(&self) -> (copy: Self)
        ensures
            copy@ == self@,
    {
        SpjConfig {
            exe_name: self.exe_name.clone(),
            command: self.command.clone(),
            seccomp_rule: self.seccomp_rule.clone(),
        }
    }
}

/// How a special-judge program is compiled.
#[derive(Debug)]
pub struct SpjCompileConfig {
    pub src_name: String,
    pub exe_name: String,
    pub max_cpu_time: i32,
    pub max_real_time: i32,
    pub max_memory: i32,
    pub compile_command: String,
}

/// Mathematical content of a [`SpjCompileConfig`].
pub ghost struct SpjCompileConfigView {
    pub src_name: Seq<char>,
    pub exe_name: Seq<char>,
    pub max_cpu_time: i32,
    pub max_real_time: i32,
    pub max_memory: i32,
    pub compile_command: Seq<char>,
}

impl View for SpjCompileConfig {
    type V = SpjCompileConfigView;

    open spec fn view(&self) -> SpjCompileConfigView {
        SpjCompileConfigView {
            src_name: self.src_name@,
            exe_name: self.exe_name@,
            max_cpu_time: self.max_cpu_time,
            max_real_time: self.max_real_time,
            max_memory: self.max_memory,
            compile_command: self.compile_command@,
        }
    }
}

impl DeepView for SpjCompileConfig {
    type V = SpjCompileConfigView;

    open spec fn deep_view(&self) -> SpjCompileConfigView {
        self@
    }
}

impl Clone for SpjCompileConfig {
    fn clone(&self) -> (copy: Self)
        ensures
            copy@ == self@,
    {
        SpjCompileConfig {
            src_name: self.src_name.clone(),
            exe_name: self.exe_name.clone(),
            max_cpu_time: self.max_cpu_time,
            max_real_time: self.max_real_time,
            max_memory: self.max_memory,
            compile_command: self.compile_command.clone(),
        }
    }
}

/// Environment that every language runs in.
pub open spec fn default_env_view() -> Seq<Seq<char>> {
    seq!["LANG=en_US.UTF-8"@, "LANGUAGE=en_US:en"@, "LC_ALL=en_US.UTF-8"@]
}

/// Configuration for C.
pub open spec fn c_lang_config_view() -> LanguageConfigView {
    LanguageConfigView {
        compile: CompileConfigView {
            src_name: "main.c"@,
            exe_name: "main"@,
            max_cpu_time: 3000,
            max_real_time: 5000,
            max_memory: 134217728,
            compile_command: "/usr/bin/gcc -DONLINE_JUDGE -O2 -w -fmax-errors=3 -std=c99 {src_path} -lm -o {exe_path}"@,
        },
        run: RunConfigView {
            command: "{exe_path}"@,
            seccomp_rule: Some("c_cpp"@),
            env: default_env_view(),
            memory_limit_check_only: 0,
        },
    }
}

/// Configuration for C++.
pub open spec fn cpp_lang_config_view() -> LanguageConfigView {
    LanguageConfigView {
        compile: CompileConfigView {
            src_name: "main.cpp"@,
            exe_name: "main"@,
            max_cpu_time: 3000,
            max_real_time: 5000,
            max_memory: 134217728,
            compile_command: "/usr/bin/g++ -DONLINE_JUDGE -O2 -w -fmax-errors=3 -std=c++11 {src_path} -lm -o {exe_path}"@,
        },
        run: RunConfigView {
            command: "{exe_path}"@,
            seccomp_rule: Some("c_cpp"@),
            env: default_env_view(),
            memory_limit_check_only: 0,
        },
    }
}

/// Configuration for Java. The compiler gets no memory limit.
pub open spec fn java_lang_config_view() -> LanguageConfigView {
    LanguageConfigView {
        compile: CompileConfigView {
            src_name: "Main.java"@,
            exe_name: "Main"@,
            max_cpu_time: 5000,
            max_real_time: 10000,
            max_memory: -1i32,
            compile_command: "/usr/bin/javac {src_path} -d {exe_dir} -encoding UTF8"@,
        },
        run: RunConfigView {
            command: "/usr/bin/java -cp {exe_dir} -XX:MaxRAM={max_memory}k -Djava.security.manager -Dfile.encoding=UTF-8 -Djava.security.policy==/etc/java_policy -Djava.awt.headless=true Main"@,
            seccomp_rule: None,
            env: default_env_view(),
            memory_limit_check_only: 1,
        },
    }
}

/// Configuration for Python 2.
pub open spec fn py2_lang_config_view() -> LanguageConfigView {
    LanguageConfigView {
        compile: CompileConfigView {
            src_name: "solution.py"@,
            exe_name: "solution.pyc"@,
            max_cpu_time: 3000,
            max_real_time: 5000,
            max_memory: 134217728,
            compile_command: "/usr/bin/python -m py_compile {src_path}"@,
        },
        run: RunConfigView {
            command: "/usr/bin/python {exe_path}"@,
            seccomp_rule: Some("general"@),
            env: default_env_view(),
            memory_limit_check_only: 0,
        },
    }
}

/// Configuration for Python 3: the common environment and the encoding of
/// the standard streams.
pub open spec fn py3_lang_config_view() -> LanguageConfigView {
    LanguageConfigView {
        compile: CompileConfigView {
            src_name: "solution.py"@,
            exe_name: "__pycache__/solution.cpython-36.pyc"@,
            max_cpu_time: 3000,
            max_real_time: 5000,
            max_memory: 134217728,
            compile_command: "/usr/bin/python3 -m py_compile {src_path}"@,
        },
        run: RunConfigView {
            command: "/usr/bin/python3 {exe_path}"@,
            seccomp_rule: Some("general"@),
            env: default_env_view().push("PYTHONIOENCODING=UTF-8"@),
            memory_limit_check_only: 0,
        },
    }
}

/// Configuration of the language named `language`. A name that is none of
/// `cpp`, `java`, `py2` and `py3` stands for C.
pub open spec fn lang_config_view(language: Seq<char>) -> LanguageConfigView {
    if language == "cpp"@ {
        cpp_lang_config_view()
    } else if language == "java"@ {
        java_lang_config_view()
    } else if language == "py2"@ {
        py2_lang_config_view()
    } else if language == "py3"@ {
        py3_lang_config_view()
    } else {
        c_lang_config_view()
    }
}

/// How every special-judge program is compiled.
pub open spec fn spj_compile_config_view() -> SpjCompileConfigView {
    SpjCompileConfigView {
        src_name: "spj-{spj_version}.cpp"@,
        exe_name: "spj-{spj_version}"@,
        max_cpu_time: 3000,
        max_real_time: 5000,
        max_memory: 1073741824,
        compile_command: "/usr/bin/g++ -DONLINE_JUDGE -O2 -w -fmax-errors=3 -std=c99 {src_path} -lm -L /test_case/include -o {exe_path}"@,
    }
}

/// How every special-judge program is run.
pub open spec fn spj_config_view() -> SpjConfigView {
    SpjConfigView {
        exe_name: "spj-{spj_version}"@,
        command: "{exe_path} {in_file_path} {user_out_file_path}"@,
        seccomp_rule: "c_cpp"@,
    }
}

/// The environment that every language runs in.
pub fn default_env() -> (env: Vec<String>)
    ensures
        env.deep_view() == default_env_view(),
{
    let mut env: Vec<String> = Vec::new();
    env.push("LANG=en_US.UTF-8".to_owned());
    env.push("LANGUAGE=en_US:en".to_owned());
    env.push("LC_ALL=en_US.UTF-8".to_owned());
    assert(env.deep_view() =~= default_env_view());
    env
}

/// The configuration for C.
pub fn c_lang_config() -> (config: LanguageConfig)
    ensures
        config@ == c_lang_config_view(),
{
    LanguageConfig {
        compile: CompileConfig {
            src_name: "main.c".to_owned(),
            exe_name: "main".to_owned(),
            max_cpu_time: 3000,
            max_real_time: 5000,
            max_memory: 128 * 1024 * 1024,
            compile_command: "/usr/bin/gcc -DONLINE_JUDGE -O2 -w -fmax-errors=3 -std=c99 {src_path} -lm -o {exe_path}".to_owned(),
        },
        run: RunConfig {
            command: "{exe_path}".to_owned(),
            seccomp_rule: Some("c_cpp".to_owned()),
            env: default_env(),
            memory_limit_check_only: 0,
        },
    }
}

/// The configuration with which special-judge programs are compiled.
pub fn spj_compile_config() -> (config: SpjCompileConfig)
    ensures
        config@ == spj_compile_config_view(),
{
    SpjCompileConfig {
        src_name: "spj-{spj_version}.cpp".to_owned(),
        exe_name: "spj-{spj_version}".to_owned(),
        max_cpu_time: 3000,
        max_real_time: 5000,
        max_memory: 1024 * 1024 * 1024,
        compile_command: "/usr/bin/g++ -DONLINE_JUDGE -O2 -w -fmax-errors=3 -std=c99 {src_path} -lm -L /test_case/include -o {exe_path}".to_owned(),
    }
}

/// The configuration with which special-judge programs are run.
pub fn spj_config() -> (config: SpjConfig)
    ensures
        config@ == spj_config_view(),
{
    SpjConfig {
        exe_name: "spj-{spj_version}".to_owned(),
        command: "{exe_path} {in_file_path} {user_out_file_path}".to_owned(),
        seccomp_rule: "c_cpp".to_owned(),
    }
}

/// The configuration for C++.
pub fn cpp_lang_config() -> (config: LanguageConfig)
    ensures
        config@ == cpp_lang_config_view(),
{
    LanguageConfig {
        compile: CompileConfig {
            src_name: "main.cpp".to_owned(),
            exe_name: "main".to_owned(),
            max_cpu_time: 3000,
            max_real_time: 5000,
            max_memory: 128 * 1024 * 1024,
            compile_command: "/usr/bin/g++ -DONLINE_JUDGE -O2 -w -fmax-errors=3 -std=c++11 {src_path} -lm -o {exe_path}".to_owned(),
        },
        run: RunConfig {
            command: "{exe_path}".to_owned(),
            seccomp_rule: Some("c_cpp".to_owned()),
            env: default_env(),
            memory_limit_check_only: 0,
        },
    }
}

/// The configuration for Java.
pub fn java_lang_config() -> (config: LanguageConfig)
    ensures
        config@ == java_lang_config_view(),
{
    LanguageConfig {
        compile: CompileConfig {
            src_name: "Main.java".to_owned(),
            exe_name: "Main".to_owned(),
            max_cpu_time: 5000,
            max_real_time: 10000,
            max_memory: -1,
            compile_command: "/usr/bin/javac {src_path} -d {exe_dir} -encoding UTF8".to_owned(),
        },
        run: RunConfig {
            command: "/usr/bin/java -cp {exe_dir} -XX:MaxRAM={max_memory}k -Djava.security.manager -Dfile.encoding=UTF-8 -Djava.security.policy==/etc/java_policy -Djava.awt.headless=true Main".to_owned(),
            seccomp_rule: None,
            env: default_env(),
            memory_limit_check_only: 1,
        },
    }
}

/// The configuration for Python 2.
pub fn py2_lang_config() -> (config: LanguageConfig)
    ensures
        config@ == py2_lang_config_view(),
{
    LanguageConfig {
        compile: CompileConfig {
            src_name: "solution.py".to_owned(),
            exe_name: "solution.pyc".to_owned(),
            max_cpu_time: 3000,
            max_real_time: 5000,
            max_memory: 128 * 1024 * 1024,
            compile_command: "/usr/bin/python -m py_compile {src_path}".to_owned(),
        },
        run: RunConfig {
            command: "/usr/bin/python {exe_path}".to_owned(),
            seccomp_rule: Some("general".to_owned()),
            env: default_env(),
            memory_limit_check_only: 0,
        },
    }
}

/// The configuration for Python 3.
pub fn py3_lang_config() -> (config: LanguageConfig)
    ensures
        config@ == py3_lang_config_view(),
{
    let mut env = default_env();
    env.push("PYTHONIOENCODING=UTF-8".to_owned());
    assert(env.deep_view() =~= default_env_view().push("PYTHONIOENCODING=UTF-8"@));
    LanguageConfig {
        compile: CompileConfig {
            src_name: "solution.py".to_owned(),
            exe_name: "__pycache__/solution.cpython-36.pyc".to_owned(),
            max_cpu_time: 3000,
            max_real_time: 5000,
            max_memory: 128 * 1024 * 1024,
            compile_command: "/usr/bin/python3 -m py_compile {src_path}".to_owned(),
        },
        run: RunConfig {
            command: "/usr/bin/python3 {exe_path}".to_owned(),
            seccomp_rule: Some("general".to_owned()),
            env,
            memory_limit_check_only: 0,
        },
    }
}

/// The configuration of the language named `language`: `c`, `cpp`, `java`,
/// `py2` or `py3`. Any other name gets the configuration for C.
pub fn get_lang_config(language: &str) -> (config: LanguageConfig)
    ensures
        config@ == lang_config_view(language@),
{
    if reads(language, "cpp") {
        cpp_lang_config()
    } else if reads(language, "java") {
        java_lang_config()
    } else if reads(language, "py2") {
        py2_lang_config()
    } else if reads(language, "py3") {
        py3_lang_config()
    } else {
        c_lang_config()
    }
}

} // verus!
