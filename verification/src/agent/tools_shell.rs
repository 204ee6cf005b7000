use vstd::prelude::*;
use vstd::utf8::{encode_utf8, is_char_boundary};
use crate::agent::tool_trait::{ToolImportance, ToolOutput, ToolValue, token_estimate_of};
use crate::text::{
    chars_of, contains, has_prefix, push_signed_decimal, push_str, signed_decimal, slice_chars,
    str_contains, str_eq, str_starts_with, string_from_chars, to_string, trim, trim_bounds,
    utf8_len, utf8_prefix, byte_prefix,
};

verus! {

/// Runs shell commands in a workspace directory; common commands go through
/// `rtk` for compact output when it is installed.
pub struct ShellExec {
    pub workspace_dir: String,
    pub timeout_secs: u64,
    pub rtk_available: bool,
}

/// The command prefixes that are run through `rtk`, by index.
pub open spec fn rtk_prefix(i: int) -> Seq<char> {
    if i == 0 {
        "ls "@
    } else if i == 1 {
        "cat "@
    } else if i == 2 {
        "head "@
    } else if i == 3 {
        "tail "@
    } else if i == 4 {
        "grep "@
    } else if i == 5 {
        "rg "@
    } else if i == 6 {
        "find "@
    } else if i == 7 {
        "tree "@
    } else if i == 8 {
        "git "@
    } else if i == 9 {
        "cargo "@
    } else if i == 10 {
        "npm "@
    } else if i == 11 {
        "pytest "@
    } else if i == 12 {
        "go "@
    } else if i == 13 {
        "docker "@
    } else {
        "kubectl "@
    }
}

/// How many command prefixes go through `rtk`.
pub const RTK_PREFIX_COUNT: usize = 15;

/// The bare listing commands that go through `rtk`.
pub open spec fn rtk_listing(t: Seq<char>) -> bool {
    t == "ls"@ || t == "ls -la"@ || t == "ls -l"@ || t == "ls -a"@
}

/// Whether a trimmed command is one that `rtk` knows.
pub open spec fn rtk_known(t: Seq<char>) -> bool {
    ||| rtk_listing(t)
    ||| exists|i: int| 0 <= i < RTK_PREFIX_COUNT && #[trigger] has_prefix(t, rtk_prefix(i))
    ||| has_prefix(t, "read "@)
}

/// Whether a trimmed command runs `python`.
pub open spec fn is_python(t: Seq<char>) -> bool {
    t == "python"@ || has_prefix(t, "python "@)
}

/// The command that is run for `cmd`: a command `rtk` knows is prefixed with
/// `rtk` (trimmed), `python` becomes `python3`, anything else is unchanged.
pub open spec fn rtk_rewrite(rtk: bool, cmd: Seq<char>) -> Seq<char> {
    let t = trim(cmd);
    if !rtk {
        cmd
    } else if rtk_known(t) {
        "rtk "@ + t
    } else if is_python(t) {
        "python3"@ + t.subrange(6, t.len() as int)
    } else {
        cmd
    }
}

/// The deny-list of destructive command fragments, by index.
pub open spec fn deny_pattern(i: int) -> Seq<char> {
    if i == 0 {
        "rm -rf /"@
    } else if i == 1 {
        "rm -rf /*"@
    } else if i == 2 {
        "mkfs"@
    } else if i == 3 {
        "dd if="@
    } else if i == 4 {
        ":(){ :|:&"@
    } else if i == 5 {
        "> /dev/sda"@
    } else {
        "chmod -R 777 /"@
    }
}

/// How many fragments the deny-list holds.
pub const DENY_COUNT: usize = 7;

/// The first deny-list index, from `i` on, whose fragment occurs in `cmd`.
pub open spec fn first_denied(cmd: Seq<char>, i: int) -> Option<int>
    decreases DENY_COUNT - i,
{
    if i < 0 || i >= DENY_COUNT {
        None
    } else if contains(cmd, deny_pattern(i)) {
        Some(i)
    } else {
        first_denied(cmd, i + 1)
    }
}

/// The text of a finished command: stdout cut at 2000 bytes, then stderr cut
/// at 500 bytes after a separator, or `exit <code>` when both are empty.
pub open spec fn shell_text(stdout: Seq<char>, stderr: Seq<char>, exit_code: Option<i32>) -> Seq<
    char,
> {
    let out = if utf8_len(stdout) > 2000 {
        utf8_prefix(stdout, 2000) + "\n... (truncated)"@
    } else {
        stdout
    };
    let err = if stderr.len() == 0 {
        Seq::<char>::empty()
    } else {
        (if out.len() == 0 {
            Seq::<char>::empty()
        } else {
            "\n--- stderr ---\n"@
        }) + (if utf8_len(stderr) > 500 {
            utf8_prefix(stderr, 500)
        } else {
            stderr
        })
    };
    let all = out + err;
    if all.len() == 0 {
        "exit "@ + signed_decimal(
            match exit_code {
                Some(c) => c as int,
                None => -1,
            },
        )
    } else {
        all
    }
}

fn rtk_prefix_str(i: usize) -> (r: &'static str)
    requires
        i < RTK_PREFIX_COUNT,
    ensures
        r@ == rtk_prefix(i as int),
{
    if i == 0 {
        "ls "
    } else if i == 1 {
        "cat "
    } else if i == 2 {
        "head "
    } else if i == 3 {
        "tail "
    } else if i == 4 {
        "grep "
    } else if i == 5 {
        "rg "
    } else if i == 6 {
        "find "
    } else if i == 7 {
        "tree "
    } else if i == 8 {
        "git "
    } else if i == 9 {
        "cargo "
    } else if i == 10 {
        "npm "
    } else if i == 11 {
        "pytest "
    } else if i == 12 {
        "go "
    } else if i == 13 {
        "docker "
    } else {
        "kubectl "
    }
}

fn deny_pattern_str(i: usize) -> (r: &'static str)
    requires
        i < DENY_COUNT,
    ensures
        r@ == deny_pattern(i as int),
{
    if i == 0 {
        "rm -rf /"
    } else if i == 1 {
        "rm -rf /*"
    } else if i == 2 {
        "mkfs"
    } else if i == 3 {
        "dd if="
    } else if i == 4 {
        ":(){ :|:&"
    } else if i == 5 {
        "> /dev/sda"
    } else {
        "chmod -R 777 /"
    }
}

fn with_rtk(t: &str) -> (r: String)
    ensures
        r@ == "rtk "@ + t@,
{
    let mut r = to_string("rtk ");
    push_str(&mut r, t);
    r
}

impl ShellExec {
    /// A shell tool for `workspace_dir`; whether `rtk` is installed is found
    /// by the caller.
    pub fn new(workspace_dir: String, timeout_secs: u64, rtk_available: bool) -> (r: Self)
        ensures
            r.workspace_dir@ == workspace_dir@,
            r.timeout_secs == timeout_secs,
            r.rtk_available == rtk_available,
    {
        ShellExec { workspace_dir, timeout_secs, rtk_available }
    }

    /// Rewrite a command to go through `rtk` when it is one `rtk` knows.
    pub fn rewrite_with_rtk(&self, cmd: &str) -> (r: String)
        ensures
            r@ == rtk_rewrite(self.rtk_available, cmd@),
    {
        if !self.rtk_available {
            return to_string(cmd);
        }
        let v = chars_of(cmd);
        let (a, b) = trim_bounds(&v);
        let t = slice_chars(&v, a, b);
        let ts = string_from_chars(&t);
        let tstr = ts.as_str();
        assert(tstr@ == trim(cmd@));
        if str_eq(tstr, "ls") || str_eq(tstr, "ls -la") || str_eq(tstr, "ls -l") || str_eq(
            tstr,
            "ls -a",
        ) {
            return with_rtk(tstr);
        }
        let mut i: usize = 0;
        while i < RTK_PREFIX_COUNT
            invariant
                i <= RTK_PREFIX_COUNT,
                self.rtk_available,
                tstr@ == trim(cmd@),
                !rtk_listing(tstr@),
                forall|j: int| 0 <= j < i ==> !has_prefix(tstr@, #[trigger] rtk_prefix(j)),
            decreases RTK_PREFIX_COUNT - i,
        {
            if str_starts_with(tstr, rtk_prefix_str(i)) {
                assert(has_prefix(tstr@, rtk_prefix(i as int)));
                return with_rtk(tstr);
            }
            i += 1;
        }
        if str_starts_with(tstr, "read ") {
            return with_rtk(tstr);
        }
        assert(!rtk_known(tstr@));
        if str_eq(tstr, "python") || str_starts_with(tstr, "python ") {
            proof {
                reveal_strlit("python");
                reveal_strlit("python ");
            }
            let rest = slice_chars(&t, 6, t.len());
            let rest_s = string_from_chars(&rest);
            let mut r = to_string("python3");
            push_str(&mut r, rest_s.as_str());
            return r;
        }
        to_string(cmd)
    }

    /// The deny-list fragment that blocks `cmd`, the first one in list order.
    pub fn blocked_pattern(cmd: &str) -> (r: Option<&'static str>)
        ensures
            match first_denied(cmd@, 0) {
                Some(i) => r matches Some(p) && p@ == deny_pattern(i),
                None => r is None,
            },
    {
        let mut i: usize = 0;
        while i < DENY_COUNT
            invariant
                i <= DENY_COUNT,
                first_denied(cmd@, 0) == first_denied(cmd@, i as int),
            decreases DENY_COUNT - i,
        {
            let p = deny_pattern_str(i);
            if str_contains(cmd, p) {
                return Some(p);
            }
            i += 1;
        }
        None
    }

    /// Refuse a command that holds a deny-listed fragment.
    pub fn check_command(cmd: &str) -> (r: Result<(), String>)
        ensures
            match first_denied(cmd@, 0) {
                Some(i) => r matches Err(e) && e@ == "blocked: command matches deny-list '"@
                    + deny_pattern(i) + "'"@,
                None => r is Ok,
            },
    {
        match Self::blocked_pattern(cmd) {
            Some(p) => {
                let mut e = to_string("blocked: command matches deny-list '");
                push_str(&mut e, p);
                push_str(&mut e, "'");
                Err(e)
            },
            None => Ok(()),
        }
    }

    /// The tool output of a finished command, of low importance.
    pub fn command_output(stdout: &str, stderr: &str, exit_code: Option<i32>) -> (r: ToolOutput)
        requires
            utf8_len(stdout@) > 2000 ==> is_char_boundary(encode_utf8(stdout@), 2000),
            utf8_len(stderr@) > 500 ==> is_char_boundary(encode_utf8(stderr@), 500),
        ensures
            r.result matches ToolValue::Text(t) && t@ == shell_text(stdout@, stderr@, exit_code),
            r.summary is None,
            r.token_estimate == token_estimate_of(shell_text(stdout@, stderr@, exit_code)),
            r.importance == ToolImportance::Low,
    {
        let ghost out = if utf8_len(stdout@) > 2000 {
            utf8_prefix(stdout@, 2000) + "\n... (truncated)"@
        } else {
            stdout@
        };
        let mut result = String::new();
        if stdout.as_bytes().len() > 2000 {
            push_str(&mut result, byte_prefix(stdout, 2000));
            push_str(&mut result, "\n... (truncated)");
        } else if !stdout.is_empty() {
            push_str(&mut result, stdout);
        } else {
            assert(result@ =~= stdout@);
        }
        assert(result@ =~= out);
        let ghost sep = if out.len() == 0 {
            Seq::<char>::empty()
        } else {
            "\n--- stderr ---\n"@
        };
        let ghost tail = if utf8_len(stderr@) > 500 {
            utf8_prefix(stderr@, 500)
        } else {
            stderr@
        };
        if !stderr.is_empty() {
            if !result.as_str().is_empty() {
                push_str(&mut result, "\n--- stderr ---\n");
            }
            assert(result@ =~= out + sep);
            if stderr.as_bytes().len() > 500 {
                push_str(&mut result, byte_prefix(stderr, 500));
            } else {
                push_str(&mut result, stderr);
            }
            assert(result@ =~= out + (sep + tail));
        } else {
            assert(result@ =~= out + Seq::<char>::empty());
        }
        if result.as_str().is_empty() {
            let code: i64 = match exit_code {
                Some(c) => c as i64,
                None => -1,
            };
            result = to_string("exit ");
            push_signed_decimal(&mut result, code);
        }
        ToolOutput::text(result.as_str(), ToolImportance::Low)
    }
}

/// A command's error output always reaches the caller: the text ends with
/// stderr (cut at 500 bytes); with nothing on stdout the text is that cut
/// stderr; the text starts with the (cut) stdout; and it falls back to
/// `exit <code>` only when both outputs are empty.
pub proof fn lemma_shell_text_keeps_both_outputs(
    stdout: Seq<char>,
    stderr: Seq<char>,
    exit_code: Option<i32>,
)
    ensures
        ({
            let t = shell_text(stdout, stderr, exit_code);
            let cut_err = if utf8_len(stderr) > 500 {
                utf8_prefix(stderr, 500)
            } else {
                stderr
            };
            let cut_out = if utf8_len(stdout) > 2000 {
                utf8_prefix(stdout, 2000) + "\n... (truncated)"@
            } else {
                stdout
            };
            &&& cut_err.len() <= t.len() && t.subrange(t.len() - cut_err.len(), t.len() as int) == cut_err
            &&& stdout.len() == 0 && stderr.len() > 0 && cut_err.len() > 0 ==> t == cut_err
            &&& cut_out.len() > 0 ==> (cut_out.len() <= t.len() && t.subrange(0, cut_out.len() as int) == cut_out)
            &&& (stdout.len() == 0 && stderr.len() == 0) ==> t == "exit "@ + signed_decimal(
                match exit_code {
                    Some(c) => c as int,
                    None => -1,
                },
            )
        }),
{
    let t = shell_text(stdout, stderr, exit_code);
    assert(utf8_len(Seq::<char>::empty()) == 0) by {
        assert(encode_utf8(Seq::<char>::empty()) =~= Seq::<u8>::empty());
    }
    let cut_err = if utf8_len(stderr) > 500 {
        utf8_prefix(stderr, 500)
    } else {
        stderr
    };
    let cut_out = if utf8_len(stdout) > 2000 {
        utf8_prefix(stdout, 2000) + "\n... (truncated)"@
    } else {
        stdout
    };
    let sep = if cut_out.len() == 0 {
        Seq::<char>::empty()
    } else {
        "\n--- stderr ---\n"@
    };
    let err = if stderr.len() == 0 {
        Seq::<char>::empty()
    } else {
        sep + cut_err
    };
    let all = cut_out + err;
    if stderr.len() > 0 {
        assert(all =~= cut_out + sep + cut_err);
        assert(all.subrange(all.len() - cut_err.len(), all.len() as int) =~= cut_err);
        if stdout.len() == 0 {
            assert(cut_out =~= Seq::<char>::empty());
            assert(all =~= cut_err);
        }
    } else {
        assert(cut_err =~= Seq::<char>::empty());
        if stdout.len() == 0 {
            assert(cut_out =~= Seq::<char>::empty());
        }
    }
    assert(all.subrange(0, cut_out.len() as int) =~= cut_out);
    if all.len() == 0 {
        assert(t.subrange(t.len() - 0, t.len() as int) =~= Seq::<char>::empty());
    }
}

} // verus!
