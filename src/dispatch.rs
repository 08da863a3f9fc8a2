use vstd::prelude::*;
use crate::registry::{Config, RegistryModel};

verus! {

/// Why the proxy could not run the selected JDK's tool.
#[derive(Debug, PartialEq, Eq, Clone, Copy)]
pub enum DispatchError {
    /// No JDK is selected.
    NoSelection,
    /// The selected position addresses no entry.
    StaleSelection,
    /// The tool could not be started.
    SpawnFailed,
    /// Waiting for the started tool failed.
    WaitFailed,
}

/// How a started tool ended, as far as the proxy saw it.
#[derive(Debug, PartialEq, Eq, Clone, Copy)]
pub enum ChildOutcome {
    /// The tool could not be started.
    SpawnFailed,
    /// The tool was started, but waiting for it failed.
    WaitFailed,
    /// The tool ended, with its exit code when it reported one.
    Exited(Option<i32>),
}

/// The exit code of a tool that ended without reporting one (killed by a
/// signal).
pub const NO_CODE_EXIT: i32 = 1;

/// `s` up to, not including, its first `.`; all of `s` when it has none.
pub open spec fn is_stem(s: Seq<char>, stem: Seq<char>) -> bool {
    exists|k: int|
        0 <= k <= s.len() && stem == #[trigger] s.take(k) && (k == s.len() || s[k] == '.') && (forall|j: int|
            0 <= j < k ==> #[trigger] s[j] != '.')
}

/// The path components of the tool named `tool` (with `suffix` appended)
/// under the selected JDK: `<home>`, `bin`, `<tool><suffix>`.
pub open spec fn dispatch_target(r: RegistryModel, tool: Seq<char>, suffix: Seq<char>) -> Result<
    Seq<Seq<char>>,
    DispatchError,
> {
    match r.0 {
        None => Err(DispatchError::NoSelection),
        Some(i) => if i < r.1.len() {
            Ok(seq![r.1[i as int].1, "bin"@, tool + suffix])
        } else {
            Err(DispatchError::StaleSelection)
        },
    }
}

/// The texts of a list of strings.
pub open spec fn strings_of(v: Seq<String>) -> Seq<Seq<char>> {
    v.map_values(|s: String| s@)
}

/// The executable's own name without its extension: everything before the
/// first `.`.
pub fn file_name(executable_name: &str) -> (r: String)
    ensures
        is_stem(executable_name@, r@),
{
    let n = executable_name.unicode_len();
    let mut k: usize = 0;
    while k < n
        invariant
            k <= n,
            n == executable_name@.len(),
            forall|j: int| 0 <= j < k ==> #[trigger] executable_name@[j] != '.',
        ensures
            k <= n,
            k == n || executable_name@[k as int] == '.',
            forall|j: int| 0 <= j < k ==> #[trigger] executable_name@[j] != '.',
        decreases n - k,
    {
        if executable_name.get_char(k) == '.' {
            break;
        }
        k = k + 1;
    }
    let r = String::from_str(executable_name.substring_char(0, k));
    assert(r@ =~= executable_name@.take(k as int));
    assert(is_stem(executable_name@, r@)) by {
        assert(k == executable_name@.len() || executable_name@[k as int] == '.');
    }
    r
}

/// Resolves the tool to run: the path components of `tool` followed by
/// `exe_suffix`, under the `bin` directory of the selected JDK.
pub fn resolve_target(config: &Config, tool: &str, exe_suffix: &str) -> (r: Result<
    Vec<String>,
    DispatchError,
>)
    ensures
        match r {
            Ok(v) => dispatch_target(config@, tool@, exe_suffix@) == Ok::<
                Seq<Seq<char>>,
                DispatchError,
            >(strings_of(v@)),
            Err(e) => dispatch_target(config@, tool@, exe_suffix@) == Err::<
                Seq<Seq<char>>,
                DispatchError,
            >(e),
        },
        config.selected_jdk is None ==> r == Err::<Vec<String>, DispatchError>(
            DispatchError::NoSelection,
        ),
{
    let i = match config.selected_jdk {
        None => return Err(DispatchError::NoSelection),
        Some(i) => i,
    };
    if i >= config.jdk_info_list.len() {
        return Err(DispatchError::StaleSelection);
    }
    let home = config.jdk_info_list[i].path.clone();
    let bin = String::from_str("bin");
    let executable = String::from_str(tool).concat(exe_suffix);
    let mut v: Vec<String> = Vec::new();
    v.push(home);
    v.push(bin);
    v.push(executable);
    assert(strings_of(v@) =~= seq![config@.1[i as int].1, "bin"@, tool@ + exe_suffix@]);
    Ok(v)
}

/// The proxy's own exit code once the tool has run: the tool's code, or
/// `NO_CODE_EXIT` when it reported none; a failure to start or to wait for it
/// is an error.
pub fn exit_code_of(outcome: ChildOutcome) -> (r: Result<i32, DispatchError>)
    ensures
        r == match outcome {
            ChildOutcome::SpawnFailed => Err(DispatchError::SpawnFailed),
            ChildOutcome::WaitFailed => Err(DispatchError::WaitFailed),
            ChildOutcome::Exited(Some(c)) => Ok(c),
            ChildOutcome::Exited(None) => Ok(NO_CODE_EXIT),
        },
{
    match outcome {
        ChildOutcome::SpawnFailed => Err(DispatchError::SpawnFailed),
        ChildOutcome::WaitFailed => Err(DispatchError::WaitFailed),
        ChildOutcome::Exited(Some(c)) => Ok(c),
        ChildOutcome::Exited(None) => Ok(NO_CODE_EXIT),
    }
}

} // verus!
