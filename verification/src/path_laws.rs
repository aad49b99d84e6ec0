//! What holds of path resolution for every input.
use vstd::prelude::*;
use crate::path::{
    apply_component, ends_with_slash, has_prefix, is_absolute, is_normalized, join_components,
    normalize_cwd_spec, normalize_root_spec, normalize_spec, path_components, path_inside_root_spec,
    remap_spec, resolve_path_spec, scan_path, slash_path,
};

verus! {

/// A component that survives folding: non-empty, free of `/`, neither `.` nor `..`.
pub open spec fn clean_component(c: Seq<char>) -> bool {
    c.len() > 0 && !c.contains('/') && c != seq!['.'] && c != seq!['.', '.']
}

/// Every component of `p` survives folding.
pub open spec fn clean_components(p: Seq<Seq<char>>) -> bool {
    forall|i: int| 0 <= i < p.len() ==> clean_component(#[trigger] p[i])
}

/// Whether the host path `x` lies inside the normalized root `root`.
pub open spec fn lies_inside(x: Seq<char>, root: Seq<char>) -> bool {
    root == slash_path() || x == root || has_prefix(x, root.push('/'))
}

proof fn lemma_apply_keeps_clean(stack: Seq<Seq<char>>, comp: Seq<char>)
    requires
        clean_components(stack),
        !comp.contains('/'),
    ensures
        clean_components(apply_component(stack, comp)),
{
    let r = apply_component(stack, comp);
    if comp.len() == 0 || comp == seq!['.'] {
    } else if comp == seq!['.', '.'] {
        if stack.len() > 0 {
            assert forall|i: int| 0 <= i < r.len() implies clean_component(#[trigger] r[i]) by {
                assert(r[i] == stack[i]);
            }
        }
    } else {
        assert forall|i: int| 0 <= i < r.len() implies clean_component(#[trigger] r[i]) by {
            if i < stack.len() {
                assert(r[i] == stack[i]);
            }
        }
    }
}

proof fn lemma_scan_clean(s: Seq<char>)
    ensures
        clean_components(scan_path(s).0),
        !scan_path(s).1.contains('/'),
    decreases s.len(),
{
    if s.len() > 0 {
        let prev = scan_path(s.drop_last());
        lemma_scan_clean(s.drop_last());
        if s.last() == '/' {
            lemma_apply_keeps_clean(prev.0, prev.1);
            assert(!Seq::<char>::empty().contains('/'));
        } else {
            let cur = prev.1.push(s.last());
            assert forall|j: int| 0 <= j < cur.len() implies #[trigger] cur[j] != '/' by {
                if j < prev.1.len() {
                    assert(cur[j] == prev.1[j]);
                }
            }
        }
    }
}

/// The components of any path are clean.
pub proof fn lemma_components_clean(s: Seq<char>)
    ensures
        clean_components(path_components(s)),
{
    lemma_scan_clean(s);
    lemma_apply_keeps_clean(scan_path(s).0, scan_path(s).1);
}

proof fn lemma_scan_no_slash(s: Seq<char>, t: Seq<char>)
    requires
        !t.contains('/'),
    ensures
        scan_path(s + t) == (scan_path(s).0, scan_path(s).1 + t),
    decreases t.len(),
{
    if t.len() == 0 {
        assert(s + t =~= s);
        assert(scan_path(s).1 + t =~= scan_path(s).1);
    } else {
        let t2 = t.drop_last();
        assert forall|j: int| 0 <= j < t2.len() implies #[trigger] t2[j] != '/' by {
            assert(t2[j] == t[j]);
        }
        lemma_scan_no_slash(s, t2);
        assert((s + t).drop_last() =~= s + t2);
        assert((s + t).last() == t.last());
        assert(t[t.len() - 1] != '/');
        assert((scan_path(s).1 + t2).push(t.last()) =~= scan_path(s).1 + t);
    }
}

proof fn lemma_scan_join(p: Seq<Seq<char>>)
    requires
        clean_components(p),
    ensures
        p.len() == 0 ==> scan_path(join_components(p)) == (Seq::<Seq<char>>::empty(), Seq::<char>::empty()),
        p.len() > 0 ==> scan_path(join_components(p)) == (p.drop_last(), p.last()),
    decreases p.len(),
{
    if p.len() > 0 {
        let q = p.drop_last();
        let x = p.last();
        assert(clean_components(q)) by {
            assert forall|i: int| 0 <= i < q.len() implies clean_component(#[trigger] q[i]) by {
                assert(q[i] == p[i]);
            }
        }
        assert(clean_component(p[p.len() - 1]));
        lemma_scan_join(q);
        let a = join_components(q) + seq!['/'];
        assert(a.drop_last() =~= join_components(q));
        assert(a.last() == '/');
        if q.len() > 0 {
            assert(clean_component(q[q.len() - 1]));
            assert(q.drop_last().push(q.last()) =~= q);
        }
        assert(scan_path(a).0 == q);
        assert(scan_path(a).1 == Seq::<char>::empty());
        lemma_scan_no_slash(a, x);
        assert(join_components(p) == a + x);
        assert(Seq::<char>::empty() + x =~= x);
    }
}

/// Folding the joined form of clean components gives them back.
pub proof fn lemma_components_of_join(p: Seq<Seq<char>>)
    requires
        clean_components(p),
    ensures
        path_components(join_components(p)) == p,
{
    lemma_scan_join(p);
    if p.len() > 0 {
        assert(clean_component(p[p.len() - 1]));
        assert(p.drop_last().push(p.last()) =~= p);
    } else {
        assert(p =~= Seq::<Seq<char>>::empty());
    }
}

/// The joined form of clean components starts with `/` and is at least two characters long.
pub proof fn lemma_join_shape(p: Seq<Seq<char>>)
    requires
        clean_components(p),
        p.len() > 0,
    ensures
        join_components(p).len() >= 2,
        join_components(p)[0] == '/',
    decreases p.len(),
{
    let q = p.drop_last();
    assert(clean_component(p[p.len() - 1]));
    if q.len() > 0 {
        assert(clean_components(q)) by {
            assert forall|i: int| 0 <= i < q.len() implies clean_component(#[trigger] q[i]) by {
                assert(q[i] == p[i]);
            }
        }
        lemma_join_shape(q);
    } else {
        assert(join_components(q) =~= Seq::<char>::empty());
    }
}

/// Joining two lists of components one after the other is joining their concatenation.
pub proof fn lemma_join_append(r: Seq<Seq<char>>, a: Seq<Seq<char>>)
    ensures
        join_components(r) + join_components(a) == join_components(r + a),
    decreases a.len(),
{
    if a.len() == 0 {
        assert(r + a =~= r);
        assert(join_components(r) + join_components(a) =~= join_components(r));
    } else {
        lemma_join_append(r, a.drop_last());
        assert((r + a).drop_last() =~= r + a.drop_last());
        assert((r + a).last() == a.last());
        assert(join_components(r) + join_components(a) =~= join_components(r) + join_components(
            a.drop_last(),
        ) + seq!['/'] + a.last());
    }
}

/// `/` is in normal form and has no components.
pub proof fn lemma_slash_normalized()
    ensures
        path_components(slash_path()) == Seq::<Seq<char>>::empty(),
        is_normalized(slash_path()),
{
    let s = slash_path();
    assert(s.drop_last() =~= Seq::<char>::empty());
    assert(s.last() == '/');
    assert(scan_path(s.drop_last()) == (Seq::<Seq<char>>::empty(), Seq::<char>::empty()));
}

/// Normalizing twice is normalizing once.
pub proof fn lemma_normalize_idempotent(s: Seq<char>)
    ensures
        normalize_spec(normalize_spec(s)) == normalize_spec(s),
        is_normalized(normalize_spec(s)),
        is_absolute(normalize_spec(s)),
{
    let p = path_components(s);
    lemma_components_clean(s);
    if p.len() == 0 {
        lemma_slash_normalized();
    } else {
        lemma_components_of_join(p);
        lemma_join_shape(p);
    }
}

/// A normalized root is absolute.
pub proof fn lemma_root_normalized(root_dir: Seq<char>, default_root: Seq<char>)
    ensures
        is_normalized(normalize_root_spec(root_dir, default_root)),
        is_absolute(normalize_root_spec(root_dir, default_root)),
{
    if root_dir.len() == 0 {
        lemma_normalize_idempotent(default_root);
    } else if is_absolute(root_dir) {
        lemma_normalize_idempotent(root_dir);
    } else {
        lemma_normalize_idempotent(seq!['/'] + root_dir);
    }
}

/// A path in normal form other than `/` is the joined form of its (clean, non-empty) components.
proof fn lemma_normalized_shape(x: Seq<char>)
    requires
        is_normalized(x),
        x != slash_path(),
    ensures
        path_components(x).len() > 0,
        clean_components(path_components(x)),
        x == join_components(path_components(x)),
{
    lemma_components_clean(x);
}

/// Remapping a normalized path into a normalized root gives a normalized path inside the root.
pub proof fn lemma_remap_inside(abs: Seq<char>, root: Seq<char>)
    requires
        is_normalized(abs),
        is_normalized(root),
    ensures
        is_normalized(remap_spec(abs, root)),
        lies_inside(remap_spec(abs, root), root),
{
    if root == slash_path() {
    } else if abs == slash_path() {
    } else if abs == root {
    } else if has_prefix(abs, root.push('/')) {
    } else {
        let rr = path_components(root);
        let aa = path_components(abs);
        lemma_normalized_shape(root);
        lemma_normalized_shape(abs);
        lemma_join_append(rr, aa);
        assert(clean_components(rr + aa)) by {
            assert forall|i: int| 0 <= i < (rr + aa).len() implies clean_component(
                #[trigger] (rr + aa)[i],
            ) by {
                if i < rr.len() {
                    assert((rr + aa)[i] == rr[i]);
                } else {
                    assert((rr + aa)[i] == aa[i - rr.len()]);
                }
            }
        }
        lemma_components_of_join(rr + aa);
        assert(path_components(root + abs) == rr + aa);
        assert(normalize_spec(root + abs) == root + abs);
        lemma_normalize_idempotent(root + abs);
        lemma_join_shape(aa);
        let x = root + abs;
        assert(x.subrange(0, root.len() + 1int) =~= root.push('/'));
    }
}

/// Whatever path, root and current directory a process uses, the host path
/// that `resolve_path` gives is in normal form and lies inside the root: it
/// is never outside what `path_inside_root` maps back.
pub proof fn lemma_resolve_path_stays_inside_root(
    raw: Seq<char>,
    root_dir: Seq<char>,
    cwd: Seq<char>,
    default_root: Seq<char>,
)
    ensures
        is_normalized(resolve_path_spec(raw, root_dir, cwd, default_root)),
        is_absolute(resolve_path_spec(raw, root_dir, cwd, default_root)),
        lies_inside(
            resolve_path_spec(raw, root_dir, cwd, default_root),
            normalize_root_spec(root_dir, default_root),
        ),
        path_inside_root_spec(resolve_path_spec(raw, root_dir, cwd, default_root), root_dir, default_root) is Some,
{
    let root = normalize_root_spec(root_dir, default_root);
    lemma_root_normalized(root_dir, default_root);
    let r = resolve_path_spec(raw, root_dir, cwd, default_root);
    // the current directory inside the root
    let n = if cwd.len() == 0 {
        root
    } else if is_absolute(cwd) {
        normalize_spec(cwd)
    } else {
        let base = if ends_with_slash(root) {
            root
        } else {
            root.push('/')
        };
        normalize_spec(base + cwd)
    };
    if cwd.len() == 0 {
    } else if is_absolute(cwd) {
        lemma_normalize_idempotent(cwd);
    } else {
        let base = if ends_with_slash(root) {
            root
        } else {
            root.push('/')
        };
        lemma_normalize_idempotent(base + cwd);
    }
    lemma_remap_inside(n, root);
    if raw.len() == 0 {
    } else if is_absolute(raw) {
        lemma_normalize_idempotent(raw);
        lemma_remap_inside(normalize_spec(raw), root);
    } else {
        let cwd_abs = normalize_cwd_spec(cwd, root);
        let joined = if ends_with_slash(cwd_abs) {
            cwd_abs
        } else {
            cwd_abs.push('/')
        };
        lemma_normalize_idempotent(joined + raw);
        lemma_remap_inside(normalize_spec(joined + raw), root);
    }
    lemma_inside_maps_back(r, root_dir, default_root);
}

/// A normalized path that lies inside the normalized root is mapped back by `path_inside_root`.
proof fn lemma_inside_maps_back(r: Seq<char>, root_dir: Seq<char>, default_root: Seq<char>)
    requires
        is_normalized(r),
        lies_inside(r, normalize_root_spec(root_dir, default_root)),
    ensures
        is_absolute(r),
        path_inside_root_spec(r, root_dir, default_root) is Some,
{
    lemma_normalize_idempotent(r);
}

/// When `path_inside_root` maps a path back, what it gives is a path in normal form.
pub proof fn lemma_path_inside_root_normalized(
    abs_path: Seq<char>,
    root_dir: Seq<char>,
    default_root: Seq<char>,
)
    requires
        path_inside_root_spec(abs_path, root_dir, default_root) is Some,
    ensures
        is_normalized(path_inside_root_spec(abs_path, root_dir, default_root)->0),
{
    let root = normalize_root_spec(root_dir, default_root);
    let abs = normalize_spec(abs_path);
    lemma_root_normalized(root_dir, default_root);
    lemma_normalize_idempotent(abs_path);
    lemma_slash_normalized();
    if root == slash_path() {
    } else if abs == root {
    } else if has_prefix(abs, root.push('/')) {
        let rest = abs.subrange(root.len() as int, abs.len() as int);
        lemma_normalized_shape(root);
        if abs == slash_path() {
            assert(abs.len() == 1);
            assert(false);
        }
        lemma_normalized_shape(abs);
        let rr = path_components(root);
        let pp = path_components(abs);
        lemma_join_prefix(pp, rr);
        let k = rr.len();
        let aa = pp.subrange(k as int, pp.len() as int);
        assert(pp =~= rr + aa);
        lemma_join_append(rr, aa);
        assert(rest =~= join_components(aa));
        if aa.len() > 0 {
            assert(clean_components(aa)) by {
                assert forall|i: int| 0 <= i < aa.len() implies clean_component(#[trigger] aa[i]) by {
                    assert(aa[i] == pp[i + k]);
                }
            }
            lemma_components_of_join(aa);
            lemma_join_shape(aa);
        }
    }
}

/// Reading any prefix of the joined form of clean components `pp` has
/// folded only a proper prefix of `pp`.
proof fn lemma_scan_join_prefix(pp: Seq<Seq<char>>, i: int) -> (m: int)
    requires
        clean_components(pp),
        pp.len() > 0,
        0 <= i <= join_components(pp).len(),
    ensures
        0 <= m < pp.len(),
        scan_path(join_components(pp).take(i)).0 == pp.take(m),
    decreases pp.len(),
{
    let q = pp.drop_last();
    let x = pp.last();
    assert(clean_components(q)) by {
        assert forall|j: int| 0 <= j < q.len() implies clean_component(#[trigger] q[j]) by {
            assert(q[j] == pp[j]);
        }
    }
    assert(clean_component(pp[pp.len() - 1]));
    let jq = join_components(q);
    let full = join_components(pp);
    assert(full == jq + seq!['/'] + x);
    if i <= jq.len() {
        assert(full.take(i) =~= jq.take(i));
        if q.len() == 0 {
            assert(jq.take(i) =~= Seq::<char>::empty());
            assert(pp.take(0) =~= Seq::<Seq<char>>::empty());
            0
        } else {
            let m = lemma_scan_join_prefix(q, i);
            assert(q.take(m) =~= pp.take(m));
            m
        }
    } else {
        let a = jq + seq!['/'];
        assert(a.drop_last() =~= jq);
        assert(a.last() == '/');
        lemma_scan_join(q);
        if q.len() > 0 {
            assert(clean_component(q[q.len() - 1]));
            assert(q.drop_last().push(q.last()) =~= q);
        }
        assert(scan_path(a).0 == q);
        let t = x.take(i - jq.len() - 1);
        assert forall|j: int| 0 <= j < t.len() implies #[trigger] t[j] != '/' by {
            assert(t[j] == x[j]);
        }
        lemma_scan_no_slash(a, t);
        assert(full.take(i) =~= a + t);
        assert(pp.take(pp.len() - 1) =~= q);
        pp.len() - 1
    }
}

/// If the joined form of `pp` starts with the joined form of `rr` followed by
/// `/` (both clean, `rr` non-empty), then `rr` is a proper prefix of `pp`.
proof fn lemma_join_prefix(pp: Seq<Seq<char>>, rr: Seq<Seq<char>>)
    requires
        clean_components(pp),
        clean_components(rr),
        rr.len() > 0,
        has_prefix(join_components(pp), join_components(rr).push('/')),
    ensures
        rr.len() < pp.len(),
        pp.subrange(0, rr.len() as int) == rr,
{
    let y = join_components(rr).push('/');
    let x = join_components(pp);
    if pp.len() == 0 {
        lemma_join_shape(rr);
        assert(false);
    }
    let m = lemma_scan_join_prefix(pp, y.len() as int);
    assert(x.take(y.len() as int) == y);
    let a = y;
    assert(a.drop_last() =~= join_components(rr));
    lemma_scan_join(rr);
    assert(clean_component(rr[rr.len() - 1]));
    assert(rr.drop_last().push(rr.last()) =~= rr);
    assert(scan_path(a).0 == rr);
    assert(pp.take(m) == rr);
    assert(pp.subrange(0, rr.len() as int) =~= pp.take(m));
}

/// The path that `path_inside_root` gives for a host path inside the root
/// names, read back with `resolve_path` from any current directory, that
/// same host path (in normal form), provided it is `/` or does not itself
/// look like a path below the root.
pub proof fn lemma_inside_path_resolves_back(
    abs_path: Seq<char>,
    root_dir: Seq<char>,
    cwd: Seq<char>,
    default_root: Seq<char>,
)
    requires
        path_inside_root_spec(abs_path, root_dir, default_root) is Some,
        ({
            let p = path_inside_root_spec(abs_path, root_dir, default_root)->0;
            let root = normalize_root_spec(root_dir, default_root);
            p == slash_path() || (p != root && !has_prefix(p, root.push('/')))
        }),
    ensures
        resolve_path_spec(
            path_inside_root_spec(abs_path, root_dir, default_root)->0,
            root_dir,
            cwd,
            default_root,
        ) == normalize_spec(abs_path),
{
    let p = path_inside_root_spec(abs_path, root_dir, default_root)->0;
    let root = normalize_root_spec(root_dir, default_root);
    let abs = normalize_spec(abs_path);
    lemma_path_inside_root_normalized(abs_path, root_dir, default_root);
    lemma_normalize_idempotent(p);
    lemma_root_normalized(root_dir, default_root);
    lemma_normalize_idempotent(abs_path);
    lemma_slash_normalized();
    if root == slash_path() {
    } else if abs == root {
    } else {
        let rest = abs.subrange(root.len() as int, abs.len() as int);
        lemma_normalized_shape(root);
        lemma_normalized_shape(abs);
        let rr = path_components(root);
        let pp = path_components(abs);
        lemma_join_prefix(pp, rr);
        let k = rr.len();
        let aa = pp.subrange(k as int, pp.len() as int);
        assert(pp =~= rr + aa);
        lemma_join_append(rr, aa);
        assert(rest =~= join_components(aa));
        assert(clean_components(aa)) by {
            assert forall|i: int| 0 <= i < aa.len() implies clean_component(#[trigger] aa[i]) by {
                assert(aa[i] == pp[i + k]);
            }
        }
        lemma_join_shape(aa);
        assert(p == rest);
        assert(p != slash_path());
        assert(root + p == abs);
    }
}

/// Appending a normalized path other than `/` to a normalized root other
/// than `/` gives a path in normal form.
proof fn lemma_append_normalized(root: Seq<char>, abs: Seq<char>)
    requires
        is_normalized(abs),
        is_normalized(root),
        abs != slash_path(),
        root != slash_path(),
    ensures
        normalize_spec(root + abs) == root + abs,
        is_absolute(abs),
{
    let rr = path_components(root);
    let aa = path_components(abs);
    lemma_normalized_shape(root);
    lemma_normalized_shape(abs);
    lemma_join_append(rr, aa);
    assert(clean_components(rr + aa)) by {
        assert forall|i: int| 0 <= i < (rr + aa).len() implies clean_component(#[trigger] (rr + aa)[i]) by {
            if i < rr.len() {
                assert((rr + aa)[i] == rr[i]);
            } else {
                assert((rr + aa)[i] == aa[i - rr.len()]);
            }
        }
    }
    lemma_components_of_join(rr + aa);
    lemma_join_shape(aa);
}

/// A guest path resolved into the root and mapped back by `path_inside_root`
/// gives the guest path in normal form, from any current directory,
/// provided the root is `/`, the path is `/`, or its normal form does not
/// itself look like the root or a path below it.
pub proof fn lemma_guest_path_maps_back(
    guest: Seq<char>,
    root_dir: Seq<char>,
    cwd: Seq<char>,
    default_root: Seq<char>,
)
    requires
        is_absolute(guest),
        ({
            let root = normalize_root_spec(root_dir, default_root);
            let n = normalize_spec(guest);
            root == slash_path() || n == slash_path() || (n != root && !has_prefix(n, root.push('/')))
        }),
    ensures
        path_inside_root_spec(resolve_path_spec(guest, root_dir, cwd, default_root), root_dir, default_root)
            == Some(normalize_spec(guest)),
{
    let root = normalize_root_spec(root_dir, default_root);
    let n = normalize_spec(guest);
    lemma_root_normalized(root_dir, default_root);
    lemma_normalize_idempotent(guest);
    lemma_slash_normalized();
    if root == slash_path() {
    } else if n == slash_path() {
    } else {
        lemma_append_normalized(root, n);
        let x = root + n;
        assert(x.subrange(0, root.len() + 1int) =~= root.push('/'));
        assert(x.subrange(root.len() as int, x.len() as int) =~= n);
        assert(x != root);
    }
}

/// Reading one more component `c` after a `/`: an empty component or `.`
/// leaves the components of the path as they were, `..` removes the last
/// one (if any), and any other name is added at the end.
pub proof fn lemma_components_step(s: Seq<char>, c: Seq<char>)
    requires
        !c.contains('/'),
    ensures
        (c.len() == 0 || c == seq!['.']) ==> path_components(s.push('/') + c) == path_components(s),
        c == seq!['.', '.'] && path_components(s).len() > 0 ==> path_components(s.push('/') + c)
            == path_components(s).drop_last(),
        c == seq!['.', '.'] && path_components(s).len() == 0 ==> path_components(s.push('/') + c).len() == 0,
        c.len() > 0 && c != seq!['.'] && c != seq!['.', '.'] ==> path_components(s.push('/') + c)
            == path_components(s).push(c),
{
    let a = s.push('/');
    assert(a.drop_last() =~= s);
    assert(a.last() == '/');
    lemma_scan_no_slash(a, c);
    assert(scan_path(a) == (path_components(s), Seq::<char>::empty()));
    assert(Seq::<char>::empty() + c =~= c);
}

/// The normal form of a path is absolute and has the same components as
/// the path; a path with no components normalizes to `/`.
pub proof fn lemma_normalize_keeps_components(s: Seq<char>)
    ensures
        is_absolute(normalize_spec(s)),
        path_components(normalize_spec(s)) == path_components(s),
        path_components(s).len() == 0 ==> normalize_spec(s) == seq!['/'],
{
    lemma_normalize_idempotent(s);
    lemma_components_clean(s);
    if path_components(s).len() == 0 {
        lemma_slash_normalized();
    } else {
        lemma_components_of_join(path_components(s));
    }
}

} // verus!
