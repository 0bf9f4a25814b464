//! Process launcher: build a platform- and script-type-specific spawn
//! specification from a script path and an elevation flag.
//!
//! Script-type dispatch goes by file extension; an unrecognized extension
//! falls back to treating the path as directly executable. Elevation selects
//! a platform-appropriate privilege escalation path. The child is given a
//! sane executable search path and a terminal type.

use vstd::prelude::*;

verus! {

use vstd::string::{StringExecFns, StringSliceAdditionalSpecFns, StrSliceExecFns};
use crate::models::EngineError;
use crate::textnum::push_char;

/// The platform a spawn specification is built for, selected at
/// configuration time.
#[derive(Clone, Copy, Debug, PartialEq, Eq, Structural)]
pub enum Platform {
    MacOs,
    Linux,
    Windows,
}

/// How a script is run, decided by its file extension.
#[derive(Clone, Copy, Debug, PartialEq, Eq, Structural)]
pub enum ScriptKind {
    PowershellScript,
    BatchScript,
    Direct,
}

/// A spawn specification: interpreter binary, argument vector and
/// environment for the child process. The caller places the child in its own
/// process group so that later termination reaches the whole tree.
#[derive(Debug)]
pub struct SpawnSpec {
    pub program: String,
    pub args: Vec<String>,
    pub env: Vec<(String, String)>,
}

/// Path separator bytes: '/' and '\'.
pub open spec fn is_path_sep(c: u8) -> bool {
    c == 47 || c == 92
}

/// Index where the final path component starts.
pub open spec fn name_start(b: Seq<u8>) -> int
    decreases b.len(),
{
    if b.len() == 0 {
        0
    } else if is_path_sep(b.last()) {
        b.len() as int
    } else {
        name_start(b.drop_last())
    }
}

/// Index just after the last '.' of the final path component, or -1 when
/// the component has no extension (no '.', or '.' only as its first byte).
pub open spec fn ext_begin(b: Seq<u8>) -> int
    decreases b.len(),
{
    if b.len() == 0 {
        -1
    } else if is_path_sep(b.last()) {
        -1
    } else if b.last() == 46 {
        if b.len() - 1 > name_start(b) {
            b.len() as int
        } else {
            -1
        }
    } else {
        ext_begin(b.drop_last())
    }
}

/// The extension of the path's file name, without the leading dot; empty
/// when there is none.
pub open spec fn spec_extension(b: Seq<u8>) -> Seq<u8> {
    if ext_begin(b) < 0 {
        Seq::empty()
    } else {
        b.subrange(ext_begin(b), b.len() as int)
    }
}

/// ASCII lowercase of one byte.
pub open spec fn lower_byte(c: u8) -> u8 {
    if 65 <= c <= 90 {
        (c + 32) as u8
    } else {
        c
    }
}

/// ASCII lowercase of a byte sequence.
pub open spec fn lower_bytes(b: Seq<u8>) -> Seq<u8> {
    b.map_values(|c: u8| lower_byte(c))
}

/// The extension bytes of "ps1", "cmd" and "bat".
pub open spec fn ps1_bytes() -> Seq<u8> {
    seq![112u8, 115u8, 49u8]
}

pub open spec fn cmd_bytes() -> Seq<u8> {
    seq![99u8, 109u8, 100u8]
}

pub open spec fn bat_bytes() -> Seq<u8> {
    seq![98u8, 97u8, 116u8]
}

/// Script-type dispatch by lowercased file extension.
pub open spec fn spec_script_kind(b: Seq<u8>) -> ScriptKind {
    let ext = lower_bytes(spec_extension(b));
    if ext == ps1_bytes() {
        ScriptKind::PowershellScript
    } else if ext == cmd_bytes() || ext == bat_bytes() {
        ScriptKind::BatchScript
    } else {
        ScriptKind::Direct
    }
}

/// `s` with every single quote doubled, for embedding in a single-quoted
/// shell string.
pub open spec fn spec_quote_escaped(s: Seq<char>) -> Seq<char>
    decreases s.len(),
{
    if s.len() == 0 {
        Seq::empty()
    } else if s.last() == '\'' {
        spec_quote_escaped(s.drop_last()) + seq!['\'', '\'']
    } else {
        spec_quote_escaped(s.drop_last()).push(s.last())
    }
}

/// The executable search path handed to the child.
pub open spec fn spec_unix_path_env(platform: Platform) -> Seq<char> {
    if platform == Platform::MacOs {
        "/opt/homebrew/bin:/usr/local/bin:/usr/bin:/bin:/usr/sbin:/sbin"@
    } else {
        "/usr/local/bin:/usr/bin:/bin:/usr/local/sbin:/usr/sbin:/sbin"@
    }
}

/// Whether the path ends in ".app" (a macOS application bundle).
pub open spec fn spec_ends_with_app(b: Seq<u8>) -> bool {
    b.len() >= 4 && b.subrange(b.len() - 4, b.len() as int) == seq![46u8, 97u8, 112u8, 112u8]
}

/// Keeping a suffix of non-separator bytes does not move the start of the
/// final path component.
proof fn lemma_name_start_take(b: Seq<u8>, j: int)
    requires
        0 <= j <= b.len(),
        forall|k: int| j <= k < b.len() ==> !is_path_sep(#[trigger] b[k]),
    ensures
        name_start(b.take(j)) == name_start(b),
    decreases b.len() - j,
{
    if j == b.len() {
        assert(b.take(j) =~= b);
    } else {
        lemma_name_start_take(b, j + 1);
        assert(b.take(j + 1).last() == b[j]);
        assert(b.take(j + 1).drop_last() =~= b.take(j));
    }
}

/// The lowercased extension of a path's file name.
#[verifier::loop_isolation(false)]
fn extension_lower(path: &str) -> (r: Vec<u8>)
    ensures
        r@ == lower_bytes(spec_extension(path.spec_bytes())),
{
    let b = path.as_bytes();
    let n = b.len();
    let ghost bs = path.spec_bytes();
    // Find the start of the final path component.
    let mut i: usize = n;
    proof {
        assert(bs.take(n as int) =~= bs);
    }
    while i > 0 && !(b[i - 1] == 47 || b[i - 1] == 92)
        invariant
            i <= n,
            name_start(bs) == name_start(bs.take(i as int)),
            forall|k: int| i <= k < n ==> !is_path_sep(#[trigger] bs[k]),
        decreases i,
    {
        proof {
            assert(bs.take(i as int).last() == bs[i as int - 1]);
            assert(bs.take(i as int).drop_last() =~= bs.take(i as int - 1));
        }
        i = i - 1;
    }
    let ns = i;
    proof {
        if ns > 0 {
            assert(bs.take(ns as int).last() == bs[ns as int - 1]);
            assert(name_start(bs.take(ns as int)) == ns as int);
        } else {
            assert(bs.take(0) =~= Seq::<u8>::empty());
        }
        assert(name_start(bs) == ns as int);
    }
    // Find the last '.' of the component.
    let mut j: usize = n;
    proof {
        assert(bs.take(n as int) =~= bs);
    }
    while j > ns && b[j - 1] != 46
        invariant
            ns <= j <= n,
            ext_begin(bs) == ext_begin(bs.take(j as int)),
        decreases j,
    {
        proof {
            assert(bs.take(j as int).last() == bs[j as int - 1]);
            assert(bs.take(j as int).drop_last() =~= bs.take(j as int - 1));
        }
        j = j - 1;
    }
    let has_ext = if j == ns {
        proof {
            if ns > 0 {
                assert(bs.take(ns as int).last() == bs[ns as int - 1]);
            } else {
                assert(bs.take(0) =~= Seq::<u8>::empty());
            }
            assert(ext_begin(bs) == -1);
        }
        false
    } else {
        proof {
            assert(bs.take(j as int).last() == bs[j as int - 1]);
            lemma_name_start_take(bs, j as int);
            assert(name_start(bs.take(j as int)) == ns as int);
        }
        j - 1 > ns
    };
    let mut out: Vec<u8> = Vec::new();
    if !has_ext {
        proof {
            assert(spec_extension(bs) =~= Seq::<u8>::empty());
            assert(lower_bytes(spec_extension(bs)) =~= Seq::<u8>::empty());
        }
        return out;
    }
    proof {
        assert(ext_begin(bs) == j as int);
    }
    let mut k: usize = j;
    proof {
        assert(out@ =~= lower_bytes(bs.subrange(j as int, j as int)));
    }
    while k < n
        invariant
            j <= k <= n,
            out@ == lower_bytes(bs.subrange(j as int, k as int)),
        decreases n - k,
    {
        let c = b[k];
        let lc = if 65 <= c && c <= 90 {
            c + 32
        } else {
            c
        };
        out.push(lc);
        proof {
            assert(bs.subrange(j as int, k as int + 1) =~= bs.subrange(j as int, k as int).push(
                bs[k as int],
            ));
            assert(lower_bytes(bs.subrange(j as int, k as int + 1)) =~= lower_bytes(
                bs.subrange(j as int, k as int),
            ).push(lower_byte(bs[k as int])));
        }
        k = k + 1;
    }
    out
}

/// Whether `v` is exactly the three bytes `a`, `b`, `c`.
fn bytes3_eq(v: &Vec<u8>, a: u8, b: u8, c: u8) -> (r: bool)
    ensures
        r == (v@ == seq![a, b, c]),
{
    let r = v.len() == 3 && v[0] == a && v[1] == b && v[2] == c;
    proof {
        if r {
            assert(v@ =~= seq![a, b, c]);
        }
        if v@ == seq![a, b, c] {
            assert(v@.len() == 3);
            assert(v@[0] == a && v@[1] == b && v@[2] == c);
        }
    }
    r
}

/// Script-type dispatch by file extension.
pub fn script_kind(path: &str) -> (r: ScriptKind)
    ensures
        r == spec_script_kind(path.spec_bytes()),
{
    let ext = extension_lower(path);
    if bytes3_eq(&ext, 112, 115, 49) {
        ScriptKind::PowershellScript
    } else if bytes3_eq(&ext, 99, 109, 100) || bytes3_eq(&ext, 98, 97, 116) {
        ScriptKind::BatchScript
    } else {
        ScriptKind::Direct
    }
}

/// `s` with every single quote doubled.
#[verifier::loop_isolation(false)]
fn escape_single_quotes(s: &str) -> (r: String)
    ensures
        r@ == spec_quote_escaped(s@),
{
    let mut out = String::new();
    let n = s.unicode_len();
    let mut i: usize = 0;
    proof {
        assert(s@.take(0) =~= Seq::<char>::empty());
    }
    while i < n
        invariant
            i <= n,
            out@ == spec_quote_escaped(s@.take(i as int)),
        decreases n - i,
    {
        let c = s.get_char(i);
        proof {
            assert(s@.take(i as int + 1).last() == s@[i as int]);
            assert(s@.take(i as int + 1).drop_last() =~= s@.take(i as int));
        }
        if c == '\'' {
            push_char(&mut out, '\'');
            push_char(&mut out, '\'');
            proof {
                assert(out@ =~= spec_quote_escaped(s@.take(i as int)) + seq!['\'', '\'']);
            }
        } else {
            push_char(&mut out, c);
        }
        i = i + 1;
    }
    proof {
        assert(s@.take(n as int) =~= s@);
    }
    out
}

/// Build the spawn specification for a script run: interpreter selection by
/// platform and extension, optional elevation, executable search path and
/// terminal type for the child.
pub fn build_script_command(platform: Platform, script_path: &str, run_as_admin: bool) -> (r:
    SpawnSpec)
    ensures
        platform != Platform::Windows ==> {
            &&& r.env@.len() == 2
            &&& r.env@[0].0@ == "PATH"@ && r.env@[0].1@ == spec_unix_path_env(platform)
            &&& r.env@[1].0@ == "TERM"@ && r.env@[1].1@ == "xterm-256color"@
            &&& if run_as_admin {
                &&& r.program@ == "sudo"@
                &&& r.args@.len() == 2
                &&& r.args@[0]@ == "/bin/bash"@
                &&& r.args@[1]@ == script_path@
            } else {
                &&& r.program@ == "/bin/bash"@
                &&& r.args@.len() == 1
                &&& r.args@[0]@ == script_path@
            }
        },
        platform == Platform::Windows ==> {
            &&& r.env@.len() == 1
            &&& r.env@[0].0@ == "TERM"@ && r.env@[0].1@ == "xterm-256color"@
            &&& if run_as_admin {
                &&& r.program@ == "powershell.exe"@
                &&& r.args@.len() == 2
                &&& r.args@[0]@ == "-Command"@
                &&& r.args@[1]@ == "Start-Process -FilePath '"@ + spec_quote_escaped(script_path@)
                    + "' -Verb RunAs -Wait"@
            } else {
                match spec_script_kind(script_path.spec_bytes()) {
                    ScriptKind::PowershellScript => {
                        &&& r.program@ == "powershell.exe"@
                        &&& r.args@.len() == 4
                        &&& r.args@[0]@ == "-ExecutionPolicy"@
                        &&& r.args@[1]@ == "Bypass"@
                        &&& r.args@[2]@ == "-File"@
                        &&& r.args@[3]@ == script_path@
                    },
                    ScriptKind::BatchScript => {
                        &&& r.program@ == "cmd.exe"@
                        &&& r.args@.len() == 2
                        &&& r.args@[0]@ == "/C"@
                        &&& r.args@[1]@ == script_path@
                    },
                    ScriptKind::Direct => {
                        &&& r.program@ == script_path@
                        &&& r.args@.len() == 0
                    },
                }
            }
        },
{
    if matches!(platform, Platform::Windows) {
        let mut env: Vec<(String, String)> = Vec::new();
        env.push((String::from_str("TERM"), String::from_str("xterm-256color")));
        if run_as_admin {
            let mut command = String::from_str("Start-Process -FilePath '");
            let escaped = escape_single_quotes(script_path);
            command.append(escaped.as_str());
            command.append("' -Verb RunAs -Wait");
            let mut args: Vec<String> = Vec::new();
            args.push(String::from_str("-Command"));
            args.push(command);
            SpawnSpec { program: String::from_str("powershell.exe"), args, env }
        } else {
            match script_kind(script_path) {
                ScriptKind::PowershellScript => {
                    let mut args: Vec<String> = Vec::new();
                    args.push(String::from_str("-ExecutionPolicy"));
                    args.push(String::from_str("Bypass"));
                    args.push(String::from_str("-File"));
                    args.push(script_path.to_owned());
                    SpawnSpec { program: String::from_str("powershell.exe"), args, env }
                },
                ScriptKind::BatchScript => {
                    let mut args: Vec<String> = Vec::new();
                    args.push(String::from_str("/C"));
                    args.push(script_path.to_owned());
                    SpawnSpec { program: String::from_str("cmd.exe"), args, env }
                },
                ScriptKind::Direct => {
                    SpawnSpec {
                        program: script_path.to_owned(),
                        args: Vec::new(),
                        env,
                    }
                },
            }
        }
    } else {
        let path_env = if matches!(platform, Platform::MacOs) {
            String::from_str("/opt/homebrew/bin:/usr/local/bin:/usr/bin:/bin:/usr/sbin:/sbin")
        } else {
            String::from_str("/usr/local/bin:/usr/bin:/bin:/usr/local/sbin:/usr/sbin:/sbin")
        };
        let mut env: Vec<(String, String)> = Vec::new();
        env.push((String::from_str("PATH"), path_env));
        env.push((String::from_str("TERM"), String::from_str("xterm-256color")));
        if run_as_admin {
            let mut args: Vec<String> = Vec::new();
            args.push(String::from_str("/bin/bash"));
            args.push(script_path.to_owned());
            SpawnSpec { program: String::from_str("sudo"), args, env }
        } else {
            let mut args: Vec<String> = Vec::new();
            args.push(script_path.to_owned());
            SpawnSpec { program: String::from_str("/bin/bash"), args, env }
        }
    }
}

/// Build the command that opens a script in the configured editor. Fails
/// when no editor is configured. On macOS an ".app" bundle is opened through
/// the `open` launcher.
pub fn build_editor_command(platform: Platform, editor_path: &str, script_path: &str) -> (r: Result<
    SpawnSpec,
    EngineError,
>)
    ensures
        match r {
            Ok(spec) => {
                &&& editor_path@.len() > 0
                &&& spec.env@.len() == 0
                &&& if platform == Platform::MacOs && spec_ends_with_app(
                    editor_path.spec_bytes(),
                ) {
                    &&& spec.program@ == "open"@
                    &&& spec.args@.len() == 3
                    &&& spec.args@[0]@ == "-a"@
                    &&& spec.args@[1]@ == editor_path@
                    &&& spec.args@[2]@ == script_path@
                } else {
                    &&& spec.program@ == editor_path@
                    &&& spec.args@.len() == 1
                    &&& spec.args@[0]@ == script_path@
                }
            },
            Err(e) => e == EngineError::NoEditorConfigured && editor_path@.len() == 0,
        },
        r is Ok <==> editor_path@.len() > 0,
{
    if editor_path.is_empty() {
        return Err(EngineError::NoEditorConfigured);
    }
    let ends_app = if matches!(platform, Platform::MacOs) {
        let b = editor_path.as_bytes();
        let n = b.len();
        let ghost bs = editor_path.spec_bytes();
        let r = n >= 4 && b[n - 4] == 46 && b[n - 3] == 97 && b[n - 2] == 112 && b[n - 1] == 112;
        proof {
            if r {
                assert(bs.subrange(bs.len() - 4, bs.len() as int) =~= seq![
                    46u8,
                    97u8,
                    112u8,
                    112u8,
                ]);
            }
            if spec_ends_with_app(bs) {
                assert(bs.subrange(bs.len() - 4, bs.len() as int)[0] == bs[bs.len() - 4]);
                assert(bs.subrange(bs.len() - 4, bs.len() as int)[1] == bs[bs.len() - 3]);
                assert(bs.subrange(bs.len() - 4, bs.len() as int)[2] == bs[bs.len() - 2]);
                assert(bs.subrange(bs.len() - 4, bs.len() as int)[3] == bs[bs.len() - 1]);
            }
        }
        r
    } else {
        false
    };
    if ends_app {
        let mut args: Vec<String> = Vec::new();
        args.push(String::from_str("-a"));
        args.push(editor_path.to_owned());
        args.push(script_path.to_owned());
        Ok(SpawnSpec { program: String::from_str("open"), args, env: Vec::new() })
    } else {
        let mut args: Vec<String> = Vec::new();
        args.push(script_path.to_owned());
        Ok(SpawnSpec { program: editor_path.to_owned(), args, env: Vec::new() })
    }
}

} // verus!
