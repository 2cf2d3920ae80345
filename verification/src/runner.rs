//! Value types and policy of the sandboxed code-execution service that
//! shares the process: which languages are served, the commands and images
//! used for each, and the security screening applied to submitted code.
//! Actually spawning containers and processes is the embedding program's
//! business.

use vstd::prelude::*;

verus! {

#[derive(Clone, Copy, Debug, PartialEq, Eq, Structural)]
pub enum Language {
    Python,
    JavaScript,
    Rust,
    Go,
    Java,
    Cpp,
}

impl Language {
    /// Source-file extension for this language.
    pub fn extension(&self) -> (r: &'static str)
        ensures
            r@ == self.extension_spec(),
    {
        match self {
            Language::Python => "py",
            Language::JavaScript => "js",
            Language::Rust => "rs",
            Language::Go => "go",
            Language::Java => "java",
            Language::Cpp => "cpp",
        }
    }

    pub open spec fn extension_spec(self) -> Seq<char> {
        match self {
            Language::Python => "py"@,
            Language::JavaScript => "js"@,
            Language::Rust => "rs"@,
            Language::Go => "go"@,
            Language::Java => "java"@,
            Language::Cpp => "cpp"@,
        }
    }

    /// Container image code of this language runs in.
    pub fn docker_image(&self) -> (r: &'static str)
        ensures
            r@ == self.docker_image_spec(),
    {
        match self {
            Language::Python => "python:3.11-slim",
            Language::JavaScript => "node:20-alpine",
            Language::Rust => "rust:1.75-slim",
            Language::Go => "golang:1.21-alpine",
            Language::Java => "openjdk:17-slim",
            Language::Cpp => "gcc:13-bookworm",
        }
    }

    pub open spec fn docker_image_spec(self) -> Seq<char> {
        match self {
            Language::Python => "python:3.11-slim"@,
            Language::JavaScript => "node:20-alpine"@,
            Language::Rust => "rust:1.75-slim"@,
            Language::Go => "golang:1.21-alpine"@,
            Language::Java => "openjdk:17-slim"@,
            Language::Cpp => "gcc:13-bookworm"@,
        }
    }

    /// The compile step for this language, if it has one: the argument
    /// vector to run before execution, over the given source path.
    pub fn compile_command(&self, file_path: &str) -> (r: Option<Vec<String>>)
        ensures
            (*self == Language::Rust || *self == Language::Cpp || *self == Language::Java) <==> r
                is Some,
            *self == Language::Rust ==> compile_ok(r.unwrap()@, "rustc"@, file_path@, true),
            *self == Language::Cpp ==> compile_ok(r.unwrap()@, "g++"@, file_path@, true),
            *self == Language::Java ==> compile_ok(r.unwrap()@, "javac"@, file_path@, false),
    {
        match self {
            Language::Rust => {
                let mut v: Vec<String> = Vec::new();
                v.push(String::from_str("rustc"));
                v.push(String::from_str(file_path));
                v.push(String::from_str("-o"));
                v.push(String::from_str("/tmp/output"));
                Some(v)
            },
            Language::Cpp => {
                let mut v: Vec<String> = Vec::new();
                v.push(String::from_str("g++"));
                v.push(String::from_str(file_path));
                v.push(String::from_str("-o"));
                v.push(String::from_str("/tmp/output"));
                Some(v)
            },
            Language::Java => {
                let mut v: Vec<String> = Vec::new();
                v.push(String::from_str("javac"));
                v.push(String::from_str(file_path));
                Some(v)
            },
            _ => None,
        }
    }

    /// The run step for this language: the argument vector that executes
    /// the (possibly compiled) submission. For Java the class name is
    /// derived from the file path by the caller's convention, so the
    /// command is stated only up to its leading word there.
    pub fn run_command(&self, file_path: &str) -> (r: Vec<String>)
        ensures
            *self == Language::Python ==> r@.len() == 2 && r@[0]@ == "python3"@ && r@[1]@
                == file_path@,
            *self == Language::JavaScript ==> r@.len() == 2 && r@[0]@ == "node"@ && r@[1]@
                == file_path@,
            (*self == Language::Rust || *self == Language::Cpp) ==> r@.len() == 1 && r@[0]@
                == "/tmp/output"@,
            *self == Language::Go ==> r@.len() == 3 && r@[0]@ == "go"@ && r@[1]@ == "run"@
                && r@[2]@ == file_path@,
            *self == Language::Java ==> r@.len() == 2 && r@[0]@ == "java"@ && r@[1]@
                == java_class_name_of(file_path@),
    {
        match self {
            Language::Python => {
                let mut v: Vec<String> = Vec::new();
                v.push(String::from_str("python3"));
                v.push(String::from_str(file_path));
                v
            },
            Language::JavaScript => {
                let mut v: Vec<String> = Vec::new();
                v.push(String::from_str("node"));
                v.push(String::from_str(file_path));
                v
            },
            Language::Rust | Language::Cpp => {
                let mut v: Vec<String> = Vec::new();
                v.push(String::from_str("/tmp/output"));
                v
            },
            Language::Go => {
                let mut v: Vec<String> = Vec::new();
                v.push(String::from_str("go"));
                v.push(String::from_str("run"));
                v.push(String::from_str(file_path));
                v
            },
            Language::Java => {
                let class_name = java_class_of(file_path);
                let mut v: Vec<String> = Vec::new();
                v.push(String::from_str("java"));
                v.push(class_name);
                v
            },
        }
    }
}

/// The shape of a compile command: the tool, the source path, and — for
/// the natively compiled languages — the fixed output destination.
pub open spec fn compile_ok(v: Seq<String>, tool: Seq<char>, path: Seq<char>, with_output: bool) -> bool {
    if with_output {
        &&& v.len() == 4
        &&& v[0]@ == tool
        &&& v[1]@ == path
        &&& v[2]@ == "-o"@
        &&& v[3]@ == "/tmp/output"@
    } else {
        &&& v.len() == 2
        &&& v[0]@ == tool
        &&& v[1]@ == path
    }
}

/// The class name the Java submission convention derives from a source
/// path: the path with its extension and scratch-directory prefix
/// stripped, a pure function of the path alone.
pub uninterp spec fn java_class_name_of(path: Seq<char>) -> Seq<char>;

/// Relies on str's `replace`: strips every occurrence of the extension
/// and of the scratch directory prefix; the result depends on the path
/// alone.
#[verifier::external_body]
fn java_class_of(file_path: &str) -> (r: String)
    ensures
        r@ == java_class_name_of(file_path@),
{
    file_path.replace(".java", "").replace("/tmp/", "")
}

pub struct ExecutionRequest {
    pub language: Language,
    pub code: String,
    pub input: Option<String>,
    pub timeout_seconds: Option<u64>,
    pub memory_limit_mb: Option<u64>,
    pub use_docker: Option<bool>,
}

pub struct ExecutionResult {
    pub stdout: String,
    pub stderr: String,
    pub duration_ms: u128,
    pub exit_code: i32,
    pub error: Option<String>,
    pub execution_id: String,
    pub memory_used_kb: Option<u64>,
    pub compilation_output: Option<String>,
}

pub struct SecurityConfig {
    pub max_execution_time_secs: u64,
    pub max_memory_mb: u64,
    pub max_output_size_kb: u64,
    pub enable_network: bool,
    pub blacklisted_patterns: Vec<String>,
}

/// Code longer than this is refused outright.
pub const MAX_SUBMITTED_CODE_BYTES: usize = 100000;

/// Output longer than this is cut off.
pub const MAX_OUTPUT_LENGTH: usize = 100000;

/// Caps a submission's output at the fixed limit, marking the cut.
pub fn truncate_output(output: &str) -> (r: String)
    ensures
        output@.len() <= MAX_OUTPUT_LENGTH ==> r@ == output@,
        output@.len() > MAX_OUTPUT_LENGTH ==> r@ == output@.subrange(0, MAX_OUTPUT_LENGTH as int)
            + "\n\n[... Output truncated at 100KB ...]"@,
{
    if output.unicode_len() > MAX_OUTPUT_LENGTH {
        let truncated = output.substring_char(0, MAX_OUTPUT_LENGTH);
        String::from_str(truncated).concat("\n\n[... Output truncated at 100KB ...]")
    } else {
        String::from_str(output)
    }
}

impl Default for SecurityConfig {
    /// The stock limits, with the network off and the fixed pattern
    /// blacklist.
    fn default() -> (r: SecurityConfig)
        ensures
            r.max_execution_time_secs == 10,
            r.max_memory_mb == 256,
            r.max_output_size_kb == 1024,
            !r.enable_network,
            r.blacklisted_patterns@.len() == 8,
            r.blacklisted_patterns@[0]@ == "rm -rf"@,
    {
        let mut patterns: Vec<String> = Vec::new();
        patterns.push(String::from_str("rm -rf"));
        patterns.push(String::from_str(":(){ :|:& };:"));
        patterns.push(String::from_str("eval("));
        patterns.push(String::from_str("__import__('os')"));
        patterns.push(String::from_str("execve"));
        patterns.push(String::from_str("system("));
        patterns.push(String::from_str("/etc/passwd"));
        patterns.push(String::from_str("subprocess."));
        SecurityConfig {
            max_execution_time_secs: 10,
            max_memory_mb: 256,
            max_output_size_kb: 1024,
            enable_network: false,
            blacklisted_patterns: patterns,
        }
    }
}

/// Whether `p` occurs in `s` as a contiguous run.
pub open spec fn contains_seq(s: Seq<char>, p: Seq<char>) -> bool {
    exists|i: int| 0 <= i && i + p.len() <= s.len() && #[trigger] s.subrange(i, i + p.len()) == p
}

/// Relies on str's `contains`: true exactly when the needle occurs in the
/// haystack as a contiguous run of characters.
#[verifier::external_body]
fn str_contains(s: &str, pat: &str) -> (r: bool)
    ensures
        r == contains_seq(s@, pat@),
{
    s.contains(pat)
}

pub struct CodeRunner {
    pub security_config: SecurityConfig,
    pub container_manager: ContainerManager,
    pub temp_dir: String,
}

impl CodeRunner {
    /// A runner over the given limits, or the stock ones.
    pub fn new(security_config: Option<SecurityConfig>) -> (r: CodeRunner)
        ensures
            security_config matches Some(c) ==> r.security_config == c,
            security_config is None ==> r.security_config.max_execution_time_secs == 10
                && r.security_config.max_memory_mb == 256
                && r.security_config.blacklisted_patterns@.len() == 8,
            r.container_manager.spec_active_count() == 0,
            r.temp_dir@ == "/tmp/code-runner"@,
    {
        let config = match security_config {
            Some(c) => c,
            None => SecurityConfig::default(),
        };
        CodeRunner {
            security_config: config,
            container_manager: ContainerManager::new(),
            temp_dir: String::from_str("/tmp/code-runner"),
        }
    }

    /// Screens a submission: refused exactly when it holds a blacklisted
    /// pattern — the error names the first one found, in list order — or
    /// exceeds the size limit.
    pub fn validate_code(&self, code: &str) -> (r: Result<(), String>)
        ensures
            r is Ok <==> (code@.len() <= MAX_SUBMITTED_CODE_BYTES && forall|k: int|
                0 <= k < self.security_config.blacklisted_patterns@.len() ==> !contains_seq(
                    code@,
                    (#[trigger] self.security_config.blacklisted_patterns@[k])@,
                )),
    {
        if code.unicode_len() > MAX_SUBMITTED_CODE_BYTES {
            return Err(String::from_str("Code size exceeds 100KB limit"));
        }
        let n = self.security_config.blacklisted_patterns.len();
        let mut k: usize = 0;
        while k < n
            invariant
                n == self.security_config.blacklisted_patterns@.len(),
                0 <= k <= n,
                forall|j: int|
                    0 <= j < k ==> !contains_seq(
                        code@,
                        (#[trigger] self.security_config.blacklisted_patterns@[j])@,
                    ),
            decreases n - k,
        {
            let pattern = &self.security_config.blacklisted_patterns[k];
            if str_contains(code, pattern.as_str()) {
                return Err(
                    String::from_str("Security violation: code contains a forbidden pattern: ")
                        .concat(pattern.as_str()),
                );
            }
            k = k + 1;
        }
        Ok(())
    }
}

struct ContainerInfo {
    container_id: String,
    language: Language,
}

/// Bookkeeping of the containers currently running submissions.
pub struct ContainerManager {
    active_containers: Vec<ContainerInfo>,
}

impl ContainerManager {
    pub closed spec fn spec_active_count(self) -> nat {
        self.active_containers@.len()
    }

    pub fn new() -> (r: ContainerManager)
        ensures
            r.spec_active_count() == 0,
    {
        ContainerManager { active_containers: Vec::new() }
    }

    /// How many containers are live right now.
    pub fn get_active_count(&self) -> (r: usize)
        ensures
            r == self.spec_active_count(),
    {
        self.active_containers.len()
    }
}

} // verus!
