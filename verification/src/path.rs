//! Path resolution inside a (possibly changed) root directory.
//!
//! Paths are modelled as sequences of characters. A path is read as a list of
//! components separated by `/`; empty components and `.` are dropped, and `..`
//! removes the component before it (or nothing, at the top).
use vstd::prelude::*;
use crate::text::{chars_copy, chars_eq, chars_extend, chars_starts_with, chars_to_string, str_chars};

verus! {

/// The one-character path `/`.
pub open spec fn slash_path() -> Seq<char> {
    seq!['/']
}

/// Whether a path starts with `/`.
pub open spec fn is_absolute(s: Seq<char>) -> bool {
    s.len() > 0 && s[0] == '/'
}

/// Whether a path ends with `/`.
pub open spec fn ends_with_slash(s: Seq<char>) -> bool {
    s.len() > 0 && s.last() == '/'
}

/// Whether `prefix` is a prefix of `s`.
pub open spec fn has_prefix(s: Seq<char>, prefix: Seq<char>) -> bool {
    prefix.len() <= s.len() && s.subrange(0, prefix.len() as int) == prefix
}

/// Folds one component into a stack of components: empty components and `.`
/// leave it unchanged, `..` removes its top (if any), anything else is pushed.
pub open spec fn apply_component(stack: Seq<Seq<char>>, comp: Seq<char>) -> Seq<Seq<char>> {
    if comp.len() == 0 || comp == seq!['.'] {
        stack
    } else if comp == seq!['.', '.'] {
        if stack.len() == 0 {
            stack
        } else {
            stack.drop_last()
        }
    } else {
        stack.push(comp)
    }
}

/// Reading a path left to right: the components folded so far, and the
/// component being read (the characters after the last `/`).
pub open spec fn scan_path(s: Seq<char>) -> (Seq<Seq<char>>, Seq<char>)
    decreases s.len(),
{
    if s.len() == 0 {
        (Seq::empty(), Seq::empty())
    } else {
        let prev = scan_path(s.drop_last());
        if s.last() == '/' {
            (apply_component(prev.0, prev.1), Seq::empty())
        } else {
            (prev.0, prev.1.push(s.last()))
        }
    }
}

/// The components that remain of a path once `.`, `..` and empty components are folded.
pub open spec fn path_components(s: Seq<char>) -> Seq<Seq<char>> {
    apply_component(scan_path(s).0, scan_path(s).1)
}

/// `/c1/c2/.../cn` for the components `c1 .. cn` (empty for no component).
pub open spec fn join_components(parts: Seq<Seq<char>>) -> Seq<char>
    decreases parts.len(),
{
    if parts.len() == 0 {
        Seq::empty()
    } else {
        join_components(parts.drop_last()) + seq!['/'] + parts.last()
    }
}

/// The normal absolute form of a path: its folded components joined under `/`.
pub open spec fn normalize_spec(s: Seq<char>) -> Seq<char> {
    let parts = path_components(s);
    if parts.len() == 0 {
        slash_path()
    } else {
        join_components(parts)
    }
}

/// Whether a path is in normal absolute form.
pub open spec fn is_normalized(s: Seq<char>) -> bool {
    normalize_spec(s) == s
}

/// The root directory in normal form: `default_root` stands for an empty root,
/// and a relative root is read from `/`.
pub open spec fn normalize_root_spec(root_dir: Seq<char>, default_root: Seq<char>) -> Seq<char> {
    if root_dir.len() == 0 {
        normalize_spec(default_root)
    } else if is_absolute(root_dir) {
        normalize_spec(root_dir)
    } else {
        normalize_spec(seq!['/'] + root_dir)
    }
}

/// An absolute path as seen from inside `root`: `/` is the root itself; a path
/// equal to the root or already below it stays as it is; any other path is
/// placed below the root.
pub open spec fn remap_spec(abs: Seq<char>, root: Seq<char>) -> Seq<char> {
    if root == slash_path() {
        abs
    } else if abs == slash_path() {
        root
    } else if abs == root {
        abs
    } else if has_prefix(abs, root.push('/')) {
        abs
    } else {
        normalize_spec(root + abs)
    }
}

/// The current directory as an absolute path inside `root`: an empty one is
/// the root, a relative one is read from the root.
pub open spec fn normalize_cwd_spec(cwd: Seq<char>, root: Seq<char>) -> Seq<char> {
    let normalized = if cwd.len() == 0 {
        root
    } else if is_absolute(cwd) {
        normalize_spec(cwd)
    } else {
        let base = if ends_with_slash(root) {
            root
        } else {
            root.push('/')
        };
        normalize_spec(base + cwd)
    };
    remap_spec(normalized, root)
}

/// The host path that a process with root `root_dir` and current directory
/// `cwd` names with `raw`.
pub open spec fn resolve_path_spec(
    raw: Seq<char>,
    root_dir: Seq<char>,
    cwd: Seq<char>,
    default_root: Seq<char>,
) -> Seq<char> {
    let root = normalize_root_spec(root_dir, default_root);
    if raw.len() == 0 {
        normalize_cwd_spec(cwd, root)
    } else if is_absolute(raw) {
        remap_spec(normalize_spec(raw), root)
    } else {
        let cwd_abs = normalize_cwd_spec(cwd, root);
        let joined = if ends_with_slash(cwd_abs) {
            cwd_abs
        } else {
            cwd_abs.push('/')
        };
        remap_spec(normalize_spec(joined + raw), root)
    }
}

/// The path that a process with root `root_dir` sees for the host path
/// `abs_path`, if that path lies inside the root.
pub open spec fn path_inside_root_spec(
    abs_path: Seq<char>,
    root_dir: Seq<char>,
    default_root: Seq<char>,
) -> Option<Seq<char>> {
    if !is_absolute(abs_path) {
        None
    } else {
        let root = normalize_root_spec(root_dir, default_root);
        let abs = normalize_spec(abs_path);
        if root == slash_path() {
            Some(abs)
        } else if abs == root {
            Some(slash_path())
        } else if has_prefix(abs, root.push('/')) {
            let rest = abs.subrange(root.len() as int, abs.len() as int);
            if rest.len() == 0 {
                Some(slash_path())
            } else {
                Some(rest)
            }
        } else {
            None
        }
    }
}

// ---------------------------------------------------------------------------
// Executable code
// ---------------------------------------------------------------------------

fn is_dot(comp: &[char]) -> (r: bool)
    ensures
        r == (comp@ == seq!['.']),
{
    if comp.len() == 1 && comp[0] == '.' {
        assert(comp@ =~= seq!['.']);
        true
    } else {
        false
    }
}

fn is_dot_dot(comp: &[char]) -> (r: bool)
    ensures
        r == (comp@ == seq!['.', '.']),
{
    if comp.len() == 2 && comp[0] == '.' && comp[1] == '.' {
        assert(comp@ =~= seq!['.', '.']);
        true
    } else {
        false
    }
}

fn fold_component(stack: &mut Vec<Vec<char>>, comp: Vec<char>)
    ensures
        final(stack).deep_view() == apply_component(old(stack).deep_view(), comp@),
{
    if comp.len() == 0 || is_dot(comp.as_slice()) {
        return;
    }
    if is_dot_dot(comp.as_slice()) {
        if stack.len() > 0 {
            let ghost before = stack.deep_view();
            let _ = stack.pop();
            assert(stack.deep_view() =~= before.drop_last());
        }
        return;
    }
    let ghost before = stack.deep_view();
    let ghost cv = comp@;
    assert(comp.deep_view() =~= cv);
    stack.push(comp);
    assert(stack.deep_view() =~= before.push(cv));
}

/// Normal absolute form of a path (see [`normalize_spec`]).
fn normalize_absolute(path: &[char]) -> (out: Vec<char>)
    ensures
        out@ == normalize_spec(path@),
{
    let mut stack: Vec<Vec<char>> = Vec::new();
    let mut cur: Vec<char> = Vec::new();
    let n = path.len();
    assert(stack.deep_view() =~= Seq::<Seq<char>>::empty());
    for i in 0..n
        invariant
            n == path@.len(),
            stack.deep_view() == scan_path(path@.take(i as int)).0,
            cur@ == scan_path(path@.take(i as int)).1,
    {
        assert(path@.take(i + 1).drop_last() == path@.take(i as int));
        let c = path[i];
        if c == '/' {
            fold_component(&mut stack, cur);
            cur = Vec::new();
        } else {
            cur.push(c);
        }
    }
    assert(path@.take(n as int) == path@);
    fold_component(&mut stack, cur);
    let mut out: Vec<char> = Vec::new();
    if stack.len() == 0 {
        out.push('/');
        assert(out@ =~= slash_path());
        return out;
    }
    let k = stack.len();
    for j in 0..k
        invariant
            k == stack@.len(),
            out@ == join_components(stack.deep_view().take(j as int)),
    {
        assert(stack.deep_view().take(j + 1).drop_last() =~= stack.deep_view().take(j as int));
        out.push('/');
        chars_extend(&mut out, stack[j].as_slice());
    }
    assert(stack.deep_view().take(k as int) =~= stack.deep_view());
    out
}

/// Normal form of the root directory (see [`normalize_root_spec`]).
fn normalize_root(root_dir: &[char], default_root: &[char]) -> (out: Vec<char>)
    ensures
        out@ == normalize_root_spec(root_dir@, default_root@),
{
    if root_dir.len() == 0 {
        normalize_absolute(default_root)
    } else if root_dir[0] == '/' {
        normalize_absolute(root_dir)
    } else {
        let mut prefixed: Vec<char> = Vec::new();
        prefixed.push('/');
        chars_extend(&mut prefixed, root_dir);
        assert(prefixed@ =~= seq!['/'] + root_dir@);
        normalize_absolute(prefixed.as_slice())
    }
}

/// An absolute path placed inside `root` (see [`remap_spec`]).
fn remap_absolute_into_root(abs_path: &[char], root_dir: &[char]) -> (out: Vec<char>)
    ensures
        out@ == remap_spec(abs_path@, root_dir@),
{
    let slash: [char; 1] = ['/'];
    assert(slash@ =~= slash_path());
    if chars_eq(root_dir, slash.as_slice()) {
        return chars_copy(abs_path);
    }
    if chars_eq(abs_path, slash.as_slice()) {
        return chars_copy(root_dir);
    }
    if chars_eq(abs_path, root_dir) {
        return chars_copy(abs_path);
    }
    let mut root_prefix = chars_copy(root_dir);
    root_prefix.push('/');
    if chars_starts_with(abs_path, root_prefix.as_slice()) {
        return chars_copy(abs_path);
    }
    let mut out = chars_copy(root_dir);
    chars_extend(&mut out, abs_path);
    normalize_absolute(out.as_slice())
}

/// The current directory as an absolute path inside `root` (see [`normalize_cwd_spec`]).
fn normalize_cwd_in_root(cwd: &[char], root_dir: &[char]) -> (out: Vec<char>)
    ensures
        out@ == normalize_cwd_spec(cwd@, root_dir@),
{
    let normalized = if cwd.len() == 0 {
        chars_copy(root_dir)
    } else if cwd[0] == '/' {
        normalize_absolute(cwd)
    } else {
        let mut base = chars_copy(root_dir);
        if !(base.len() > 0 && base[base.len() - 1] == '/') {
            base.push('/');
        }
        chars_extend(&mut base, cwd);
        normalize_absolute(base.as_slice())
    };
    remap_absolute_into_root(normalized.as_slice(), root_dir)
}

/// Resolves `raw_path` against the root directory `root_dir` (or
/// `default_root` when that is empty) and the current directory `cwd`.
///
/// The result is a host path in normal form that always lies inside the root
/// (see [`lemma_resolve_path_stays_inside_root`]).
pub fn resolve_path(raw_path: &str, root_dir: &str, cwd: &str, default_root: &str) -> (out: String)
    ensures
        out@ == resolve_path_spec(raw_path@, root_dir@, cwd@, default_root@),
{
    let raw = str_chars(raw_path);
    let root_dir_v = str_chars(root_dir);
    let cwd_v = str_chars(cwd);
    let default_v = str_chars(default_root);
    let root = normalize_root(root_dir_v.as_slice(), default_v.as_slice());
    if raw.len() == 0 {
        let r = normalize_cwd_in_root(cwd_v.as_slice(), root.as_slice());
        return chars_to_string(r.as_slice());
    }
    if raw[0] == '/' {
        let abs = normalize_absolute(raw.as_slice());
        let r = remap_absolute_into_root(abs.as_slice(), root.as_slice());
        return chars_to_string(r.as_slice());
    }
    let cwd_abs = normalize_cwd_in_root(cwd_v.as_slice(), root.as_slice());
    let mut joined = chars_copy(cwd_abs.as_slice());
    if !(joined.len() > 0 && joined[joined.len() - 1] == '/') {
        joined.push('/');
    }
    chars_extend(&mut joined, raw.as_slice());
    let abs = normalize_absolute(joined.as_slice());
    let r = remap_absolute_into_root(abs.as_slice(), root.as_slice());
    chars_to_string(r.as_slice())
}

/// The path that a process whose root is `root_dir` (or `default_root` when
/// that is empty) sees for the host path `abs_path`; `None` when `abs_path`
/// is relative or lies outside the root.
pub fn path_inside_root(abs_path: &str, root_dir: &str, default_root: &str) -> (out: Option<String>)
    ensures
        match out {
            Some(s) => path_inside_root_spec(abs_path@, root_dir@, default_root@) == Some(s@),
            None => path_inside_root_spec(abs_path@, root_dir@, default_root@) is None,
        },
{
    let abs_v = str_chars(abs_path);
    if !(abs_v.len() > 0 && abs_v[0] == '/') {
        return None;
    }
    let root_dir_v = str_chars(root_dir);
    let default_v = str_chars(default_root);
    let root = normalize_root(root_dir_v.as_slice(), default_v.as_slice());
    let abs = normalize_absolute(abs_v.as_slice());
    let slash: [char; 1] = ['/'];
    assert(slash@ =~= slash_path());
    if chars_eq(root.as_slice(), slash.as_slice()) {
        return Some(chars_to_string(abs.as_slice()));
    }
    if chars_eq(abs.as_slice(), root.as_slice()) {
        return Some(chars_to_string(slash.as_slice()));
    }
    let mut prefix = chars_copy(root.as_slice());
    prefix.push('/');
    if chars_starts_with(abs.as_slice(), prefix.as_slice()) {
        let mut rest: Vec<char> = Vec::new();
        let start = root.len();
        let end = abs.len();
        for i in start..end
            invariant
                start <= end,
                end == abs@.len(),
                rest@ == abs@.subrange(start as int, i as int),
        {
            rest.push(abs[i]);
            assert(abs@.subrange(start as int, i + 1) =~= abs@.subrange(start as int, i as int).push(abs@[i as int]));
        }
        if rest.len() == 0 {
            return Some(chars_to_string(slash.as_slice()));
        }
        return Some(chars_to_string(rest.as_slice()));
    }
    None
}

} // verus!
