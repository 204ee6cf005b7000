use vstd::prelude::*;
use crate::text::{
    chars_of, chars_start_with, contains, has_prefix, push_str, slice_chars, str_contains,
    string_from_chars, to_string,
};

verus! {

/// File access confined to a workspace directory.
pub struct FileOps {
    pub workspace_dir: String,
}

/// Reads a file of the workspace.
pub struct ReadFile {
    pub inner: FileOps,
}

/// Writes a file of the workspace.
pub struct WriteFile {
    pub inner: FileOps,
}

/// Lists a directory of the workspace.
pub struct ListDir {
    pub inner: FileOps,
}

/// Searches a file of the workspace.
pub struct GrepFile {
    pub inner: FileOps,
}

/// What the file system said about a requested path: the workspace root
/// (resolved where it exists), the error met resolving the path's parent, if
/// any, and the path resolved against the root.
#[derive(Debug, Clone)]
pub struct PathResolution {
    pub root: String,
    pub parent_error: Option<String>,
    pub resolved: String,
}

/// A Unix path is absolute when it starts at the root.
pub open spec fn is_absolute_path(p: Seq<char>) -> bool {
    p.len() > 0 && p[0] == '/'
}

/// Whether the resolved path `p` lies at or under `root`, compared by whole
/// path components (both are taken as resolved, without `.` or doubled `/`).
pub open spec fn path_within(root: Seq<char>, p: Seq<char>) -> bool {
    &&& has_prefix(p, root)
    &&& (p.len() == root.len() || (root.len() > 0 && root.last() == '/') || p[root.len() as int]
        == '/')
}

/// The outcome of checking a requested path against its resolution.
pub open spec fn file_path_check(path: Seq<char>, res: PathResolution) -> Result<
    Seq<char>,
    Seq<char>,
> {
    if contains(path, ".."@) {
        Err("path traversal rejected"@)
    } else if is_absolute_path(path) {
        Err("absolute path rejected"@)
    } else if res.parent_error is Some {
        Err("parent dir error: "@ + res.parent_error.unwrap()@)
    } else if !path_within(res.root@, res.resolved@) {
        Err("path escapes workspace"@)
    } else {
        Ok(res.resolved@)
    }
}

/// Whether `p` is an absolute path.
pub fn is_absolute(p: &str) -> (r: bool)
    ensures
        r == is_absolute_path(p@),
{
    let v = chars_of(p);
    v.len() > 0 && v[0] == '/'
}

/// Whether the resolved path `p` lies at or under `root`.
pub fn within(root: &str, p: &str) -> (r: bool)
    ensures
        r == path_within(root@, p@),
{
    let rv = chars_of(root);
    let pv = chars_of(p);
    if !chars_start_with(&pv, &rv) {
        return false;
    }
    pv.len() == rv.len() || (rv.len() > 0 && rv[rv.len() - 1] == '/') || pv[rv.len()] == '/'
}

impl FileOps {
    pub fn new(workspace_dir: String) -> (r: Self)
        ensures
            r.workspace_dir@ == workspace_dir@,
    {
        FileOps { workspace_dir }
    }

    /// Check a requested relative path: no `..`, not absolute, a parent that
    /// resolves, and a resolved path that stays in the workspace.
    pub fn validate_path(&self, path: &str, res: &PathResolution) -> (r: Result<String, String>)
        ensures
            match file_path_check(path@, *res) {
                Ok(p) => r matches Ok(q) && q@ == p,
                Err(e) => r matches Err(m) && m@ == e,
            },
    {
        if str_contains(path, "..") {
            return Err(to_string("path traversal rejected"));
        }
        if is_absolute(path) {
            return Err(to_string("absolute path rejected"));
        }
        if let Some(e) = &res.parent_error {
            let mut m = to_string("parent dir error: ");
            push_str(&mut m, e.as_str());
            return Err(m);
        }
        if !within(res.root.as_str(), res.resolved.as_str()) {
            return Err(to_string("path escapes workspace"));
        }
        Ok(res.resolved.clone())
    }
}

#[verifier::external_type_specification]
#[verifier::external_body]
pub struct ExRegex(regex::Regex);

/// Whether `regex::Regex::new` compiles `pattern`.
pub uninterp spec fn regex_compiles(pattern: Seq<char>) -> bool;

/// Whether the regular expression `pattern` matches somewhere in `text`
/// (`regex::Regex::is_match`).
pub uninterp spec fn regex_finds(pattern: Seq<char>, text: Seq<char>) -> bool;

/// A compiled regular expression, with the pattern it was compiled from.
pub struct CompiledPattern {
    re: regex::Regex,
    source: Ghost<Seq<char>>,
}

impl View for CompiledPattern {
    type V = Seq<char>;

    closed spec fn view(&self) -> Seq<char> {
        self.source@
    }
}

/// `regex::Regex::new`: compiles `pattern`, or gives the error's text; when
/// it compiles is named by `regex_compiles`, and the error text is not stated.
#[verifier::external_body]
fn compile_pattern(pattern: &str) -> (r: Result<CompiledPattern, String>)
    ensures
        r is Ok <==> regex_compiles(pattern@),
        r matches Ok(c) ==> c@ == pattern@,
{
    match regex::Regex::new(pattern) {
        Ok(re) => Ok(CompiledPattern { re, source: Ghost(pattern@) }),
        Err(e) => Err(e.to_string()),
    }
}

/// `regex::Regex::is_match`: whether the pattern matches somewhere in `text`.
#[verifier::external_body]
fn pattern_matches(p: &CompiledPattern, text: &str) -> (r: bool)
    ensures
        r == regex_finds(p@, text@),
{
    p.re.is_match(text)
}

/// A line without the carriage return that ended it before its line feed.
pub open spec fn strip_cr(line: Seq<char>) -> Seq<char> {
    if line.len() > 0 && line.last() == '\r' {
        line.drop_last()
    } else {
        line
    }
}

/// The lines of `t` up to position `n`: those ended by a line feed, and the
/// line in progress.
pub open spec fn split_lines(t: Seq<char>, n: int) -> (Seq<Seq<char>>, Seq<char>)
    decreases n,
{
    if n <= 0 {
        (Seq::empty(), Seq::empty())
    } else {
        let prev = split_lines(t, n - 1);
        if t[n - 1] == '\n' {
            (prev.0.push(strip_cr(prev.1)), Seq::empty())
        } else {
            (prev.0, prev.1.push(t[n - 1]))
        }
    }
}

/// The lines of `t` (`str::lines`): split at `\n` or `\r\n`, without the
/// terminators; a final line feed ends the last line rather than starting
/// an empty one.
pub open spec fn text_lines(t: Seq<char>) -> Seq<Seq<char>> {
    let last = split_lines(t, t.len() as int);
    if last.1.len() > 0 {
        last.0.push(last.1)
    } else {
        last.0
    }
}

/// A line of a file that matched a search: its number, from 1, and its text.
#[derive(Debug, Clone)]
pub struct GrepMatch {
    pub line: usize,
    pub text: String,
}

/// The lines among the first `n` of `lines` that `pattern` matches, with
/// their numbers, in order.
pub open spec fn grep_hits(pattern: Seq<char>, lines: Seq<Seq<char>>, n: int) -> Seq<
    (int, Seq<char>),
>
    decreases n,
{
    if n <= 0 {
        Seq::empty()
    } else {
        grep_hits(pattern, lines, n - 1) + if regex_finds(pattern, lines[n - 1]) {
            seq![(n, lines[n - 1])]
        } else {
            Seq::empty()
        }
    }
}

pub open spec fn grep_views(v: Seq<GrepMatch>) -> Seq<(int, Seq<char>)> {
    v.map_values(|m: GrepMatch| (m.line as int, m.text@))
}

/// The lines of `v`, split as `str::lines` splits.
fn lines_of(v: &Vec<char>) -> (r: Vec<String>)
    ensures
        r@.map_values(|s: String| s@) == text_lines(v@),
        r@.len() <= v@.len(),
{
    let mut done: Vec<String> = Vec::new();
    let mut cur: Vec<char> = Vec::new();
    let mut i: usize = 0;
    while i < v.len()
        invariant
            i <= v@.len(),
            done@.map_values(|s: String| s@) == split_lines(v@, i as int).0,
            cur@ == split_lines(v@, i as int).1,
            done@.len() + cur@.len() <= i,
        decreases v@.len() - i,
    {
        let c = v[i];
        if c == '\n' {
            let n = cur.len();
            let line = if n > 0 && cur[n - 1] == '\r' {
                slice_chars(&cur, 0, n - 1)
            } else {
                slice_chars(&cur, 0, n)
            };
            assert(cur@.subrange(0, n as int) =~= cur@);
            assert(n > 0 ==> cur@.subrange(0, n - 1) =~= cur@.drop_last());
            let ghost before = done@;
            done.push(string_from_chars(&line));
            assert(done@.map_values(|s: String| s@) =~= before.map_values(|s: String| s@).push(
                strip_cr(cur@),
            ));
            cur = Vec::new();
        } else {
            cur.push(c);
        }
        i += 1;
    }
    if cur.len() > 0 {
        let ghost before = done@;
        done.push(string_from_chars(&cur));
        assert(done@.map_values(|s: String| s@) =~= before.map_values(|s: String| s@).push(cur@));
    }
    done
}

impl GrepFile {
    /// The lines of `content` that the regular expression `pattern` matches,
    /// numbered from 1, in order; an error naming the pattern as invalid
    /// when it does not compile.
    pub fn matching_lines(content: &str, pattern: &str) -> (r: Result<Vec<GrepMatch>, String>)
        ensures
            r is Ok <==> regex_compiles(pattern@),
            r matches Ok(v) ==> grep_views(v@) == grep_hits(
                pattern@,
                text_lines(content@),
                text_lines(content@).len() as int,
            ),
            r matches Err(m) ==> has_prefix(m@, "invalid regex: "@),
    {
        let re = match compile_pattern(pattern) {
            Ok(re) => re,
            Err(e) => {
                let mut m = to_string("invalid regex: ");
                push_str(&mut m, e.as_str());
                proof {
                    reveal_strlit("invalid regex: ");
                    assert(m@.subrange(0, 15) =~= "invalid regex: "@);
                }
                return Err(m);
            },
        };
        let v = chars_of(content);
        let lines = lines_of(&v);
        let ghost ls = text_lines(content@);
        let mut out: Vec<GrepMatch> = Vec::new();
        let mut i: usize = 0;
        while i < lines.len()
            invariant
                i <= lines@.len(),
                lines@.len() <= v@.len(),
                v@ == content@,
                re@ == pattern@,
                lines@.map_values(|s: String| s@) == ls,
                ls == text_lines(content@),
                grep_views(out@) == grep_hits(pattern@, ls, i as int),
            decreases lines@.len() - i,
        {
            let line: &String = &lines[i];
            assert(line@ == ls[i as int]);
            let ghost before = out@;
            if pattern_matches(&re, line.as_str()) {
                out.push(GrepMatch { line: i + 1, text: line.clone() });
                assert(grep_views(out@) =~= grep_views(before).push((i + 1, ls[i as int])));
            } else {
                assert(out@ =~= before);
            }
            i += 1;
        }
        Ok(out)
    }
}

} // verus!
