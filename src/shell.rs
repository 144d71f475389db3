//! Choosing and naming the shell a local session runs.
use vstd::prelude::*;
use crate::text::{chars_of, owned};

verus! {

/// The shell used when the environment names none.
pub open spec fn fallback_shell() -> Seq<char> {
    "/bin/sh"@
}

/// The shell a local session runs: the one the environment names, else `/bin/sh`.
pub fn default_shell_from(configured: Option<String>) -> (r: String)
    ensures
        configured matches Some(s) ==> r@ == s@,
        configured is None ==> r@ == fallback_shell(),
{
    match configured {
        Some(s) => s,
        None => owned("/bin/sh"),
    }
}

/// The last component of a `/`-separated path, ignoring empty and `.`
/// components; none if there is no component or the last one is `..`.
pub open spec fn last_component(p: Seq<char>) -> Option<(int, int)>
    decreases p.len(),
{
    if p.len() == 0 {
        None
    } else {
        let cut = last_slash(p);
        let tail = p.subrange(cut + 1, p.len() as int);
        if !(-1 <= cut < p.len()) {
            None
        } else if tail.len() == 0 || tail == seq!['.'] {
            last_component(p.subrange(0, if cut < 0 { 0 } else { cut }))
        } else if tail == seq!['.', '.'] {
            None
        } else {
            Some((cut + 1, p.len() as int))
        }
    }
}

/// The position of the last `/` in `p`, or -1.
pub open spec fn last_slash(p: Seq<char>) -> int
    decreases p.len(),
{
    if p.len() == 0 {
        -1
    } else if p.last() == '/' {
        p.len() - 1
    } else {
        last_slash(p.drop_last())
    }
}

proof fn lemma_last_slash(p: Seq<char>)
    ensures
        -1 <= last_slash(p) < p.len(),
        last_slash(p) >= 0 ==> p[last_slash(p)] == '/',
        forall|k: int| last_slash(p) < k < p.len() ==> p[k] != '/',
    decreases p.len(),
{
    if p.len() > 0 && p.last() != '/' {
        lemma_last_slash(p.drop_last());
        assert forall|k: int| last_slash(p) < k < p.len() implies p[k] != '/' by {
            if k < p.len() - 1 {
                assert(p[k] == p.drop_last()[k]);
            }
        }
    }
}

/// The name a shell is shown by: the last component of its path, or `shell`.
pub open spec fn shell_name(p: Seq<char>) -> Seq<char> {
    match last_component(p) {
        Some((a, b)) => p.subrange(a, b),
        None => "shell"@,
    }
}

/// Where the last component of `v[0..n]` lies.
fn find_last_component(v: &Vec<char>, n: usize) -> (r: Option<(usize, usize)>)
    requires
        n <= v@.len(),
    ensures
        r matches Some((a, b)) ==> last_component(v@.subrange(0, n as int)) == Some((a as int, b as int))
            && a <= b <= n,
        r is None ==> last_component(v@.subrange(0, n as int)) is None,
    decreases n,
{
    let ghost p = v@.subrange(0, n as int);
    if n == 0 {
        return None;
    }
    let mut i = n;
    assert(p.subrange(0, n as int) =~= p);
    while i > 0 && v[i - 1] != '/'
        invariant
            i <= n <= v@.len(),
            p == v@.subrange(0, n as int),
            last_slash(p) == last_slash(p.subrange(0, i as int)),
        decreases i,
    {
        proof {
            assert(p.subrange(0, i - 1) =~= p.subrange(0, i as int).drop_last());
        }
        i = i - 1;
    }
    proof {
        lemma_last_slash(p);
        if i > 0 {
            assert(p.subrange(0, i as int).last() == '/');
        }
        assert(last_slash(p) == i - 1);
    }
    let cut_plus_one = i;
    let len = n - cut_plus_one;
    proof {
        assert(p.subrange(i as int, n as int).len() == len);
    }
    if len == 0 || (len == 1 && v[cut_plus_one] == '.') {
        let next = if cut_plus_one == 0 {
            0
        } else {
            cut_plus_one - 1
        };
        proof {
            if len == 1 {
                assert(p.subrange(i as int, n as int) =~= seq!['.']);
            }
            assert(v@.subrange(0, next as int) =~= p.subrange(0, next as int));
        }
        return find_last_component(v, next);
    }
    if len == 2 && v[cut_plus_one] == '.' && v[cut_plus_one + 1] == '.' {
        assert(p.subrange(i as int, n as int) =~= seq!['.', '.']);
        return None;
    }
    proof {
        let tail = p.subrange(i as int, n as int);
        if len == 1 {
            assert(tail[0] != '.');
            assert(tail != seq!['.']);
        }
        if len == 2 {
            assert(tail != seq!['.', '.']) by {
                if tail == seq!['.', '.'] {
                    assert(tail[0] == v@[i as int] && tail[1] == v@[i + 1]);
                }
            }
        }
        assert(tail.len() > 0);
        if tail == seq!['.'] {
            assert(tail.len() == 1);
        }
    }
    Some((cut_plus_one, n))
}

/// The name a shell is shown by: the last component of its path, or `shell`.
pub fn get_shell_name(shell_path: &str) -> (r: String)
    ensures
        r@ == shell_name(shell_path@),
{
    let v = chars_of(shell_path);
    assert(v@.subrange(0, v@.len() as int) =~= v@);
    match find_last_component(&v, v.len()) {
        Some((a, b)) => crate::text::string_of_range(&v, a, b),
        None => owned("shell"),
    }
}

/// What to start for a local session: the program, its working directory, and
/// the environment assignments in the order they are applied (a later one
/// overrides an earlier one of the same name).
#[derive(Debug, Clone, PartialEq, Eq)]
pub struct LaunchPlan {
    pub program: String,
    pub cwd: Option<String>,
    pub env: Vec<(String, String)>,
}

/// The terminal type every local shell is told about.
pub open spec fn term_assignment() -> (Seq<char>, Seq<char>) {
    ("TERM"@, "xterm-256color"@)
}

/// The characters of a list of environment assignments.
pub open spec fn pairs_view(v: Seq<(String, String)>) -> Seq<(Seq<char>, Seq<char>)> {
    v.map_values(|p: (String, String)| (p.0@, p.1@))
}

/// The plan for a local shell: the requested shell, else `default_shell`; the
/// requested directory; TERM=xterm-256color first and then the caller's
/// overlay, so that the overlay wins on a conflict.
pub fn launch_plan(
    shell_path: Option<String>,
    default_shell: String,
    cwd: Option<String>,
    overlay: Vec<(String, String)>,
) -> (r: LaunchPlan)
    ensures
        r.program@ == (match shell_path {
            Some(s) => s@,
            None => default_shell@,
        }),
        r.cwd == cwd,
        pairs_view(r.env@) == seq![term_assignment()] + pairs_view(overlay@),
{
    let program = match shell_path {
        Some(s) => s,
        None => default_shell,
    };
    let mut env: Vec<(String, String)> = Vec::new();
    env.push((owned("TERM"), owned("xterm-256color")));
    let mut i: usize = 0;
    while i < overlay.len()
        invariant
            i <= overlay@.len(),
            pairs_view(env@) == seq![term_assignment()] + pairs_view(overlay@.take(i as int)),
        decreases overlay.len() - i,
    {
        let ghost before = env@;
        let (k, v) = &overlay[i];
        env.push((k.clone(), v.clone()));
        proof {
            assert(pairs_view(env@) =~= pairs_view(before).push((k@, v@)));
            assert(overlay@.take(i + 1) =~= overlay@.take(i as int).push(overlay@[i as int]));
            assert(pairs_view(overlay@.take(i + 1)) =~= pairs_view(overlay@.take(i as int)).push(
                (k@, v@),
            ));
        }
        i = i + 1;
    }
    assert(overlay@.take(overlay@.len() as int) =~= overlay@);
    LaunchPlan { program, cwd, env }
}

} // verus!
