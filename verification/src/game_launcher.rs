//! Game launch argument construction and path validation.
//!
//! Builds the command-line invocation for launching the game executable:
//! argument construction and syntactic validation only, no file system
//! access or process spawning.

use vstd::prelude::*;
use crate::config::{AppConfig, ConfigModel};
use crate::error::FsError;
use crate::text::{ascii_lower, ascii_lower_char, chars_of, string_of_range};

verus! {

/// The credentials of a game account that the launch needs.
#[derive(Clone, Debug)]
pub struct GameCredentials {
    pub account_id: String,
    /// One-time password handed to the game.
    pub otp: String,
}

/// The fully-resolved launch command ready for process spawning.
#[derive(Clone, Debug, PartialEq)]
pub struct LaunchCommand {
    /// Absolute path to the game executable.
    pub executable: String,
    /// Working directory (parent folder of the executable).
    pub working_dir: String,
    /// Command-line arguments passed to the executable.
    pub args: Vec<String>,
}

/// The control characters that a path may not hold: U+0000 to U+001F.
pub open spec fn is_c0_control(c: char) -> bool {
    c <= '\u{1F}'
}

/// Characters that a Windows path may not hold (`:`, `\` and `/` are allowed).
pub open spec fn forbidden_path_char(c: char) -> bool {
    is_c0_control(c) || c == '<' || c == '>' || c == '"' || c == '|' || c == '?' || c == '*'
}

/// Whether the text ends with `.exe` in any letter case.
pub open spec fn has_exe_suffix(p: Seq<char>) -> bool {
    p.len() >= 4 && ascii_lower(p).subrange(p.len() - 4, p.len() as int) == ".exe"@
}

/// A syntactically valid Windows `.exe` path: non-empty, ending with `.exe`
/// (case-insensitive), and without forbidden characters.
pub open spec fn valid_game_path(p: Seq<char>) -> bool {
    &&& p.len() > 0
    &&& has_exe_suffix(p)
    &&& forall|i: int| 0 <= i < p.len() ==> !forbidden_path_char(#[trigger] p[i])
}

/// Position of the last `\` or `/`, or -1 when there is none.
pub open spec fn last_separator(p: Seq<char>) -> int
    decreases p.len(),
{
    if p.len() == 0 {
        -1
    } else if p.last() == '\\' || p.last() == '/' {
        p.len() - 1
    } else {
        last_separator(p.drop_last())
    }
}

/// The part before the last path separator, or `.` when there is none.
pub open spec fn parent_dir(p: Seq<char>) -> Seq<char> {
    let k = last_separator(p);
    if k >= 0 {
        p.subrange(0, k)
    } else {
        "."@
    }
}

/// A path that holds any of `<`, `>`, `"`, `|`, `?`, `*` or a control
/// character U+0000 to U+001F is never a valid game path, whatever else it
/// holds; the drive colon and both separators are allowed.
pub proof fn lemma_forbidden_chars_refused(p: Seq<char>, i: int)
    requires
        0 <= i < p.len(),
    ensures
        (p[i] == '<' || p[i] == '>' || p[i] == '"' || p[i] == '|' || p[i] == '?' || p[i] == '*'
            || p[i] <= '\u{1F}') ==> !valid_game_path(p),
        !forbidden_path_char(':') && !forbidden_path_char('\\') && !forbidden_path_char('/'),
{
}

/// Exactly the named characters and U+0000 to U+001F are forbidden.
pub proof fn lemma_forbidden_chars_exact(c: char)
    ensures
        forbidden_path_char(c) <==> (c == '<' || c == '>' || c == '"' || c == '|' || c == '?'
            || c == '*' || (c as u32) <= 0x1F),
{
}

/// The `.exe` ending is recognised in any letter case, and nothing else is
/// taken for it.
pub proof fn lemma_exe_suffix_any_case(p: Seq<char>)
    ensures
        has_exe_suffix(p) <==> (p.len() >= 4 && p[p.len() - 4] == '.' && (p[p.len() - 3] == 'e'
            || p[p.len() - 3] == 'E') && (p[p.len() - 2] == 'x' || p[p.len() - 2] == 'X') && (p[p.len()
            - 1] == 'e' || p[p.len() - 1] == 'E')),
{
    reveal_strlit(".exe");
    assert(".exe"@.len() == 4);
    if p.len() >= 4 {
        let n = p.len() as int;
        let tail = ascii_lower(p).subrange(n - 4, n);
        assert(tail[0] == ascii_lower_char(p[n - 4]));
        assert(tail[1] == ascii_lower_char(p[n - 3]));
        assert(tail[2] == ascii_lower_char(p[n - 2]));
        assert(tail[3] == ascii_lower_char(p[n - 1]));
        if tail == ".exe"@ {
            assert(tail[0] == ".exe"@[0]);
            assert(tail[1] == ".exe"@[1]);
            assert(tail[2] == ".exe"@[2]);
            assert(tail[3] == ".exe"@[3]);
        }
        if p[n - 4] == '.' && (p[n - 3] == 'e' || p[n - 3] == 'E') && (p[n - 2] == 'x' || p[n - 2]
            == 'X') && (p[n - 1] == 'e' || p[n - 1] == 'E') {
            assert(tail =~= ".exe"@);
        }
    }
}

proof fn lemma_last_separator_after(a: Seq<char>, sep: char, b: Seq<char>)
    requires
        sep == '\\' || sep == '/',
        forall|i: int| 0 <= i < b.len() ==> #[trigger] b[i] != '\\' && b[i] != '/',
    ensures
        last_separator(a + seq![sep] + b) == a.len(),
    decreases b.len(),
{
    let p = a + seq![sep] + b;
    if b.len() == 0 {
        assert(p.last() == sep);
    } else {
        assert(p.last() == b.last());
        assert(p.drop_last() =~= a + seq![sep] + b.drop_last());
        lemma_last_separator_after(a, sep, b.drop_last());
    }
}

proof fn lemma_no_separator(p: Seq<char>)
    requires
        forall|i: int| 0 <= i < p.len() ==> #[trigger] p[i] != '\\' && p[i] != '/',
    ensures
        last_separator(p) == -1,
    decreases p.len(),
{
    if p.len() > 0 {
        assert(p.last() == p[p.len() - 1]);
        lemma_no_separator(p.drop_last());
    }
}

/// The working directory is everything before the last separator, `\` or
/// `/` alike, and `.` for a bare file name.
pub proof fn lemma_parent_dir_before_last_separator(a: Seq<char>, sep: char, b: Seq<char>)
    requires
        sep == '\\' || sep == '/',
        forall|i: int| 0 <= i < b.len() ==> #[trigger] b[i] != '\\' && b[i] != '/',
    ensures
        parent_dir(a + seq![sep] + b) == a,
        parent_dir(b) == "."@,
{
    lemma_last_separator_after(a, sep, b);
    assert((a + seq![sep] + b).subrange(0, a.len() as int) =~= a);
    lemma_no_separator(b);
}

fn is_c0_control_char(c: char) -> (r: bool)
    ensures
        r == is_c0_control(c),
{
    c <= '\u{1F}'
}

fn lower_ascii_char(c: char) -> (r: char)
    ensures
        r == ascii_lower_char(c),
{
    if 'A' <= c && c <= 'Z' {
        ((c as u8) + 32) as char
    } else {
        c
    }
}

/// Validate that `path` is a syntactically valid Windows `.exe` path.
///
/// Checks:
/// - Non-empty
/// - Ends with `.exe` (case-insensitive)
/// - Contains no invalid Windows filename characters (`< > " | ? *` and
///   control characters U+0000–U+001F). Note that `:` is allowed for drive letters and
///   `\` / `/` are valid path separators.
pub fn validate_game_path(path: &str) -> (r: Result<(), FsError>)
    ensures
        r is Ok <==> valid_game_path(path@),
        r matches Err(FsError::NotFound { path: p }) ==> p@ == path@,
{
    let v = chars_of(path);
    let n = v.len();
    if n == 0 {
        return Err(FsError::NotFound { path: String::new() });
    }
    if n < 4 {
        return Err(FsError::NotFound { path: path.to_owned() });
    }
    let c0 = lower_ascii_char(v[n - 4]);
    let c1 = lower_ascii_char(v[n - 3]);
    let c2 = lower_ascii_char(v[n - 2]);
    let c3 = lower_ascii_char(v[n - 1]);
    proof {
        reveal_strlit(".exe");
        assert(".exe"@.len() == 4);
        assert(ascii_lower(v@).subrange(n - 4, n as int) =~= seq![c0, c1, c2, c3]);
    }
    if !(c0 == '.' && c1 == 'e' && c2 == 'x' && c3 == 'e') {
        proof {
            if has_exe_suffix(v@) {
                assert(ascii_lower(v@).subrange(n - 4, n as int)[0] == ".exe"@[0]);
                assert(ascii_lower(v@).subrange(n - 4, n as int)[1] == ".exe"@[1]);
                assert(ascii_lower(v@).subrange(n - 4, n as int)[2] == ".exe"@[2]);
                assert(ascii_lower(v@).subrange(n - 4, n as int)[3] == ".exe"@[3]);
            }
        }
        return Err(FsError::NotFound { path: path.to_owned() });
    }
    assert(seq![c0, c1, c2, c3] =~= ".exe"@);
    let mut i: usize = 0;
    while i < n
        invariant
            i <= n == v.len(),
            v@ == path@,
            forall|j: int| 0 <= j < i ==> !forbidden_path_char(#[trigger] v@[j]),
        decreases n - i,
    {
        let c = v[i];
        if is_c0_control_char(c) || c == '<' || c == '>' || c == '"' || c == '|' || c == '?' || c
            == '*' {
            assert(forbidden_path_char(path@[i as int]));
            return Err(FsError::NotFound { path: path.to_owned() });
        }
        i = i + 1;
    }
    Ok(())
}

/// Extract the parent directory from a Windows-style path.
///
/// Handles both `\` and `/` separators. Falls back to `.` if no separator is
/// found.
pub fn extract_parent_dir(path: &str) -> (r: String)
    ensures
        r@ == parent_dir(path@),
{
    let v = chars_of(path);
    let mut k = v.len();
    assert(v@.subrange(0, k as int) =~= v@);
    while k > 0 && !(v[k - 1] == '\\' || v[k - 1] == '/')
        invariant
            k <= v.len(),
            v@ == path@,
            last_separator(v@) == last_separator(v@.subrange(0, k as int)),
        decreases k,
    {
        assert(v@.subrange(0, k as int).drop_last() =~= v@.subrange(0, k - 1));
        k = k - 1;
    }
    if k == 0 {
        assert(v@.subrange(0, 0) =~= Seq::<char>::empty());
        ".".to_owned()
    } else {
        assert(v@.subrange(0, k as int).last() == v@[k - 1]);
        string_of_range(&v, 0, k - 1)
    }
}

/// Build the full launch command from application config and game credentials.
///
/// The returned [`LaunchCommand`] contains:
/// - `executable` — the game path from config
/// - `working_dir` — the parent directory of the executable
/// - `args` — command-line arguments: the one-time password
///
/// Fails, naming the path, exactly when the game path is not a valid `.exe`
/// path.
pub fn build_launch_command(config: &AppConfig, credentials: &GameCredentials) -> (r: Result<
    LaunchCommand,
    FsError,
>)
    ensures
        r is Ok <==> valid_game_path(config.game_path@),
        r matches Ok(cmd) ==> {
            &&& cmd.executable@ == config.game_path@
            &&& cmd.working_dir@ == parent_dir(config.game_path@)
            &&& cmd.args.len() == 1
            &&& cmd.args[0]@ == credentials.otp@
        },
        r matches Err(FsError::NotFound { path: p }) ==> p@ == config.game_path@,
{
    match validate_game_path(config.game_path.as_str()) {
        Ok(()) => {},
        Err(e) => return Err(e),
    }
    let working_dir = extract_parent_dir(config.game_path.as_str());
    let mut args: Vec<String> = Vec::new();
    args.push(credentials.otp.clone());
    Ok(LaunchCommand { executable: config.game_path.clone(), working_dir, args })
}

} // verus!
