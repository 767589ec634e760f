//! Execution strategy resolver: a pure lookup that classifies a language
//! identifier as a precompiled binary, an interpreter plus a bundled script,
//! or not directly runnable. The table is the single source of truth for the
//! supported languages.

use vstd::prelude::*;

verus! {

/// How a language identifier is executed: a precompiled binary under the
/// resource directory, a named interpreter applied to a bundled script, or
/// nothing at all (the language needs a full build toolchain).
pub enum ExecMode {
    Binary(&'static str),
    Interpreter(&'static str, &'static str),
    NotRunnable,
}

/// The mathematical shape of an execution strategy: the same three variants,
/// with the names as character sequences.
pub enum StrategyView {
    Binary(Seq<char>),
    Interpreter(Seq<char>, Seq<char>),
    NotRunnable,
}

impl View for ExecMode {
    type V = StrategyView;

    open spec fn view(&self) -> StrategyView {
        match *self {
            ExecMode::Binary(name) => StrategyView::Binary(name@),
            ExecMode::Interpreter(program, script) => StrategyView::Interpreter(
                program@,
                script@,
            ),
            ExecMode::NotRunnable => StrategyView::NotRunnable,
        }
    }
}

/// The strategy table: which strategy each language identifier maps to.
/// Every identifier outside the table maps to `NotRunnable`.
pub open spec fn mode_of(lang: Seq<char>) -> StrategyView {
    if lang == "asm"@ {
        StrategyView::Binary("hello_asm"@)
    } else if lang == "c"@ {
        StrategyView::Binary("hello_c"@)
    } else if lang == "cpp"@ {
        StrategyView::Binary("hello_cpp"@)
    } else if lang == "zig"@ {
        StrategyView::Binary("hello_zig"@)
    } else if lang == "fortran"@ {
        StrategyView::Binary("hello_fortran"@)
    } else if lang == "rust"@ {
        StrategyView::Binary("hello_rust"@)
    } else if lang == "go"@ {
        StrategyView::Binary("hello_go"@)
    } else if lang == "d"@ {
        StrategyView::Binary("hello_d"@)
    } else if lang == "odin"@ {
        StrategyView::Binary("hello_odin"@)
    } else if lang == "python"@ {
        StrategyView::Interpreter("python3"@, "hello.py"@)
    } else if lang == "ruby"@ {
        StrategyView::Interpreter("ruby"@, "hello.rb"@)
    } else if lang == "lua"@ {
        StrategyView::Interpreter("lua"@, "hello.lua"@)
    } else if lang == "perl"@ {
        StrategyView::Interpreter("perl"@, "hello.pl"@)
    } else if lang == "javascript"@ {
        StrategyView::Interpreter("node"@, "hello.js"@)
    } else if lang == "typescript"@ {
        StrategyView::Interpreter("ts-node"@, "hello.ts"@)
    } else if lang == "php"@ {
        StrategyView::Interpreter("php"@, "hello.php"@)
    } else if lang == "bash"@ {
        StrategyView::Interpreter("bash"@, "hello.sh"@)
    } else if lang == "r"@ {
        StrategyView::Interpreter("Rscript"@, "hello.r"@)
    } else {
        StrategyView::NotRunnable
    }
}

/// Equality of two string slices, decided by their character sequences.
fn str_eq(a: &str, b: &str) -> (r: bool)
    ensures
        r == (a@ == b@),
{
    let sa = String::from_str(a);
    let sb = String::from_str(b);
    sa == sb
}

/// Classify a language identifier. A total, pure lookup: the result is exactly
/// what the strategy table `mode_of` says, for every input.
pub fn exec_mode(lang: &str) -> (m: ExecMode)
    ensures
        m@ == mode_of(lang@),
{
    if str_eq(lang, "asm") {
        ExecMode::Binary("hello_asm")
    } else if str_eq(lang, "c") {
        ExecMode::Binary("hello_c")
    } else if str_eq(lang, "cpp") {
        ExecMode::Binary("hello_cpp")
    } else if str_eq(lang, "zig") {
        ExecMode::Binary("hello_zig")
    } else if str_eq(lang, "fortran") {
        ExecMode::Binary("hello_fortran")
    } else if str_eq(lang, "rust") {
        ExecMode::Binary("hello_rust")
    } else if str_eq(lang, "go") {
        ExecMode::Binary("hello_go")
    } else if str_eq(lang, "d") {
        ExecMode::Binary("hello_d")
    } else if str_eq(lang, "odin") {
        ExecMode::Binary("hello_odin")
    } else if str_eq(lang, "python") {
        ExecMode::Interpreter("python3", "hello.py")
    } else if str_eq(lang, "ruby") {
        ExecMode::Interpreter("ruby", "hello.rb")
    } else if str_eq(lang, "lua") {
        ExecMode::Interpreter("lua", "hello.lua")
    } else if str_eq(lang, "perl") {
        ExecMode::Interpreter("perl", "hello.pl")
    } else if str_eq(lang, "javascript") {
        ExecMode::Interpreter("node", "hello.js")
    } else if str_eq(lang, "typescript") {
        ExecMode::Interpreter("ts-node", "hello.ts")
    } else if str_eq(lang, "php") {
        ExecMode::Interpreter("php", "hello.php")
    } else if str_eq(lang, "bash") {
        ExecMode::Interpreter("bash", "hello.sh")
    } else if str_eq(lang, "r") {
        ExecMode::Interpreter("Rscript", "hello.r")
    } else {
        ExecMode::NotRunnable
    }
}

/// Resolving is deterministic: any two results of classifying the same
/// identifier are the same strategy, on every call.
pub proof fn lemma_resolve_deterministic(lang: Seq<char>, m1: StrategyView, m2: StrategyView)
    requires
        m1 == mode_of(lang),
        m2 == mode_of(lang),
    ensures
        m1 == m2,
{
}

} // verus!
