use crate::digits::push_char;
use vstd::prelude::*;

verus! {

/// The split of a path prefix into finished components and the component
/// still being read: scanning left to right, `/` closes the current component
/// (empty ones, as in `a//b` or a leading `/`, contribute nothing).
pub open spec fn spec_split_state(p: Seq<char>) -> (Seq<Seq<char>>, Seq<char>)
    decreases p.len(),
{
    if p.len() == 0 {
        (Seq::<Seq<char>>::empty(), Seq::<char>::empty())
    } else {
        let st = spec_split_state(p.drop_last());
        let c = p.last();
        if c == '/' {
            if st.1.len() == 0 {
                (st.0, Seq::<char>::empty())
            } else {
                (st.0.push(st.1), Seq::<char>::empty())
            }
        } else {
            (st.0, st.1.push(c))
        }
    }
}

/// The non-empty components of a path, in order: `/home//u/` has components
/// `home`, `u`.
pub open spec fn spec_components(p: Seq<char>) -> Seq<Seq<char>> {
    let st = spec_split_state(p);
    if st.1.len() == 0 {
        st.0
    } else {
        st.0.push(st.1)
    }
}

/// Whether a path is absolute: it starts with `/`.
pub open spec fn spec_is_abs(p: Seq<char>) -> bool {
    p.len() > 0 && p[0] == '/'
}

/// Components joined with `/` separators, without a leading or trailing one.
pub open spec fn spec_join(cs: Seq<Seq<char>>) -> Seq<char>
    decreases cs.len(),
{
    if cs.len() == 0 {
        Seq::<char>::empty()
    } else if cs.len() == 1 {
        cs[0]
    } else {
        spec_join(cs.drop_last()) + seq!['/'] + cs.last()
    }
}

/// A path rebuilt from an absoluteness flag and components.
pub open spec fn spec_unparse(abs: bool, cs: Seq<Seq<char>>) -> Seq<char> {
    if abs {
        seq!['/'] + spec_join(cs)
    } else {
        spec_join(cs)
    }
}

/// The parent directory of a path: the path without its last component, or
/// nothing when there is no component to drop (the root, or an empty path).
pub open spec fn spec_parent(p: Seq<char>) -> Option<Seq<char>> {
    if spec_components(p).len() == 0 {
        None
    } else {
        Some(spec_unparse(spec_is_abs(p), spec_components(p).drop_last()))
    }
}

/// Stripping a prefix path: defined when both sides agree on absoluteness and
/// the prefix's components lead the path's components; the remainder is the
/// rest of the components, joined relative (no leading `/`).
pub open spec fn spec_strip_prefix(p: Seq<char>, pre: Seq<char>) -> Option<Seq<char>> {
    if spec_is_abs(p) == spec_is_abs(pre) && spec_components(pre).is_prefix_of(
        spec_components(p),
    ) {
        Some(spec_join(spec_components(p).skip(spec_components(pre).len() as int)))
    } else {
        None
    }
}

/// A working directory with the home directory abbreviated to `~`: the home
/// prefix, when known and present, is replaced by `~`; otherwise the
/// directory is unchanged.
pub open spec fn spec_tilde(p: Seq<char>, home: Option<Seq<char>>) -> Seq<char> {
    match home {
        None => p,
        Some(h) => match spec_strip_prefix(p, h) {
            None => p,
            Some(rest) => if rest.len() == 0 {
                seq!['~']
            } else {
                seq!['~', '/'] + rest
            },
        },
    }
}

/// Splits a path into its non-empty components.
pub fn path_components(s: &str) -> (r: Vec<String>)
    ensures
        r.deep_view() == spec_components(s@),
{
    let len = s.unicode_len();
    let mut done: Vec<String> = Vec::new();
    let mut cur = String::new();
    let mut i: usize = 0;
    assert(s@.subrange(0, 0) =~= Seq::<char>::empty());
    while i < len
        invariant
            i <= len,
            len == s@.len(),
            done.deep_view() == spec_split_state(s@.subrange(0, i as int)).0,
            cur@ == spec_split_state(s@.subrange(0, i as int)).1,
        decreases len - i,
    {
        let ghost prefix = s@.subrange(0, i as int);
        let ghost next = s@.subrange(0, i as int + 1);
        assert(next.drop_last() =~= prefix);
        assert(next.last() == s@[i as int]);
        let c = s.get_char(i);
        if c == '/' {
            if cur.unicode_len() > 0 {
                let finished = cur;
                done.push(finished);
                cur = String::new();
                assert(done.deep_view() =~= spec_split_state(next).0);
            }
        } else {
            push_char(&mut cur, c);
            assert(cur@ =~= spec_split_state(next).1);
        }
        i = i + 1;
    }
    assert(s@.subrange(0, len as int) =~= s@);
    if cur.unicode_len() > 0 {
        done.push(cur);
        assert(done.deep_view() =~= spec_components(s@));
    }
    done
}

/// Joins the components with indices in `start .. end` with `/` separators.
pub fn join_range(cs: &Vec<String>, start: usize, end: usize) -> (r: String)
    requires
        start <= end <= cs@.len(),
    ensures
        r@ == spec_join(cs.deep_view().subrange(start as int, end as int)),
{
    let mut out = String::new();
    let mut j: usize = start;
    assert(cs.deep_view().subrange(start as int, start as int) =~= Seq::<Seq<char>>::empty());
    while j < end
        invariant
            start <= j <= end <= cs@.len(),
            cs.deep_view().len() == cs@.len(),
            out@ == spec_join(cs.deep_view().subrange(start as int, j as int)),
        decreases end - j,
    {
        let ghost before = cs.deep_view().subrange(start as int, j as int);
        let ghost after = cs.deep_view().subrange(start as int, j as int + 1);
        assert(after.drop_last() =~= before);
        assert(after.last() == cs.deep_view()[j as int]);
        if j > start {
            push_char(&mut out, '/');
        }
        out.append(cs[j].as_str());
        assert(out@ =~= spec_join(after));
        j = j + 1;
    }
    out
}

/// Whether the path starts with `/`.
pub fn path_is_abs(s: &str) -> (r: bool)
    ensures
        r == spec_is_abs(s@),
{
    s.unicode_len() > 0 && s.get_char(0) == '/'
}

/// The parent directory of a path, as [`spec_parent`] defines it.
pub fn parent_dir(s: &str) -> (r: Option<String>)
    ensures
        r matches Some(p) ==> spec_parent(s@) == Some(p@),
        r is None ==> spec_parent(s@) is None,
{
    let comps = path_components(s);
    if comps.len() == 0 {
        None
    } else {
        let n = comps.len() - 1;
        let joined = join_range(&comps, 0, n);
        assert(comps.deep_view().subrange(0, n as int) =~= comps.deep_view().drop_last());
        let mut out = String::new();
        if path_is_abs(s) {
            push_char(&mut out, '/');
        }
        out.append(joined.as_str());
        assert(out@ =~= spec_unparse(spec_is_abs(s@), spec_components(s@).drop_last()));
        Some(out)
    }
}

/// Strips a prefix path, as [`spec_strip_prefix`] defines it.
pub fn strip_path_prefix(p: &str, pre: &str) -> (r: Option<String>)
    ensures
        r matches Some(rest) ==> spec_strip_prefix(p@, pre@) == Some(rest@),
        r is None ==> spec_strip_prefix(p@, pre@) is None,
{
    if path_is_abs(p) != path_is_abs(pre) {
        return None;
    }
    let pc = path_components(p);
    let prc = path_components(pre);
    if prc.len() > pc.len() {
        assert(!spec_components(pre@).is_prefix_of(spec_components(p@)));
        return None;
    }
    let mut k: usize = 0;
    while k < prc.len()
        invariant
            k <= prc@.len() <= pc@.len(),
            pc.deep_view() == spec_components(p@),
            prc.deep_view() == spec_components(pre@),
            forall|m: int| 0 <= m < k ==> prc.deep_view()[m] == pc.deep_view()[m],
        decreases prc@.len() - k,
    {
        let same = prc[k] == pc[k];
        if !same {
            assert(prc.deep_view()[k as int] != pc.deep_view()[k as int]);
            assert(!spec_components(pre@).is_prefix_of(spec_components(p@)));
            return None;
        }
        k = k + 1;
    }
    assert(spec_components(pre@) =~= spec_components(p@).subrange(
        0,
        spec_components(pre@).len() as int,
    ));
    let rest = join_range(&pc, prc.len(), pc.len());
    assert(pc.deep_view().subrange(prc@.len() as int, pc@.len() as int) =~= spec_components(
        p@,
    ).skip(spec_components(pre@).len() as int));
    Some(rest)
}

/// Abbreviates the home directory to `~`, as [`spec_tilde`] defines it.
pub fn tilde_path(pwd: &str, home: &Option<String>) -> (r: String)
    ensures
        r@ == spec_tilde(
            pwd@,
            match home {
                Some(h) => Some(h@),
                None => None,
            },
        ),
{
    match home {
        None => String::from_str(pwd),
        Some(h) => match strip_path_prefix(pwd, h.as_str()) {
            None => String::from_str(pwd),
            Some(rest) => {
                let mut out = String::new();
                push_char(&mut out, '~');
                if rest.unicode_len() > 0 {
                    push_char(&mut out, '/');
                    out.append(rest.as_str());
                    assert(out@ =~= seq!['~', '/'] + rest@);
                }
                out
            },
        },
    }
}

} // verus!
