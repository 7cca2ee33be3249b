//! Path-string helpers: splitting a slash-separated path into its normal
//! components and expanding a leading home-directory marker.
//!
//! A path is modelled as the string of its characters.  Its components are
//! the non-empty segments between `/` separators, with `.` segments
//! dropped, as a path's normalized traversal reads them.  Parent (`..`)
//! segments are outside these functions' domain.

use vstd::prelude::*;

use crate::scan::find_char;
use crate::scan::find_char_from;
use crate::scan::lemma_find_char_props;

verus! {

/// The normal components of the path text from `pos` on: the non-empty,
/// non-`.` segments between the separators.
pub open spec fn path_components_from(s: Seq<char>, pos: int) -> Seq<Seq<char>>
    decreases s.len() - pos,
    via path_components_from_dec
{
    if pos < 0 || pos >= s.len() {
        Seq::empty()
    } else {
        let j = find_char(s, pos, '/');
        let seg = s.subrange(pos, j);
        let rest = if j < s.len() {
            path_components_from(s, j + 1)
        } else {
            Seq::empty()
        };
        if seg.len() > 0 && seg != seq!['.'] {
            seq![seg] + rest
        } else {
            rest
        }
    }
}

#[via_fn]
proof fn path_components_from_dec(s: Seq<char>, pos: int) {
    if 0 <= pos < s.len() {
        lemma_find_char_props(s, pos, '/');
    }
}

/// The normal components of a path text.
pub open spec fn path_components(s: Seq<char>) -> Seq<Seq<char>> {
    path_components_from(s, 0)
}

/// No component of the path is the parent marker `..`.
pub open spec fn no_parent_components(s: Seq<char>) -> bool {
    forall|i: int|
        0 <= i < path_components(s).len() ==> #[trigger] path_components(s)[i] != seq!['.', '.']
}

/// Splits a path text into its normal components.
fn split_path_components(path: &str) -> (r: Vec<String>)
    ensures
        r.deep_view() == path_components(path@),
{
    let slen = path.unicode_len();
    let mut out: Vec<String> = Vec::new();
    let mut pos: usize = 0;
    while pos < slen
        invariant
            slen == path@.len(),
            pos <= slen,
            path_components(path@) == out.deep_view() + path_components_from(path@, pos as int),
        decreases slen - pos,
    {
        let j = find_char_from(path, pos, '/');
        proof {
            lemma_find_char_props(path@, pos as int, '/');
        }
        let ghost old_out = out.deep_view();
        let keep = j > pos && !(j - pos == 1 && path.get_char(pos) == '.');
        proof {
            let seg = path@.subrange(pos as int, j as int);
            if j - pos == 1 && path@[pos as int] == '.' {
                assert(seg =~= seq!['.']);
            }
            if seg == seq!['.'] {
                assert(seg.len() == 1 && seg[0] == '.');
            }
            assert(keep == (seg.len() > 0 && seg != seq!['.']));
        }
        if keep {
            out.push(String::from_str(path.substring_char(pos, j)));
            proof {
                assert(out.deep_view() =~= old_out.push(path@.subrange(pos as int, j as int)));
            }
        }
        proof {
            let rest = if (j as int) < path@.len() {
                path_components_from(path@, j + 1)
            } else {
                Seq::<Seq<char>>::empty()
            };
            assert(old_out + path_components_from(path@, pos as int) =~= out.deep_view() + rest);
        }
        if j < slen {
            pos = j + 1;
        } else {
            pos = slen;
            proof {
                assert(path_components_from(path@, pos as int) =~= Seq::<Seq<char>>::empty());
            }
        }
    }
    proof {
        assert(path_components(path@) =~= out.deep_view() + path_components_from(
            path@,
            pos as int,
        ));
        assert(path_components(path@) =~= out.deep_view());
    }
    out
}

/// Splits an absolute path into its normal components.
pub fn split_abs_path(abs_path: &str) -> (r: Vec<String>)
    requires
        abs_path@.len() > 0,
        abs_path@[0] == '/',
        no_parent_components(abs_path@),
    ensures
        r.deep_view() == path_components(abs_path@),
{
    split_path_components(abs_path)
}

/// Splits a relative path into its normal components.
pub fn split_rel_path(rel_path: &str) -> (r: Vec<String>)
    requires
        rel_path@.len() == 0 || rel_path@[0] != '/',
        no_parent_components(rel_path@),
    ensures
        r.deep_view() == path_components(rel_path@),
{
    split_path_components(rel_path)
}

/// The first normal component of a path, if it has one.
pub fn first_subpath_as_string(path: &str) -> (r: Option<String>)
    requires
        no_parent_components(path@),
    ensures
        match r {
            Some(s) => path_components(path@).len() > 0 && s@ == path_components(path@)[0],
            None => path_components(path@).len() == 0,
        },
{
    let mut components = split_path_components(path);
    if components.len() > 0 {
        let ghost dv = components.deep_view();
        let s = components.remove(0);
        proof {
            assert(s@ == dv[0]);
        }
        Some(s)
    } else {
        None
    }
}

/// Where a component joins a base path: after a separator, unless the base
/// already ends with one.
pub open spec fn join_one(base: Seq<char>, comp: Seq<char>) -> Seq<char> {
    if base.len() > 0 && base[base.len() - 1] == '/' {
        base + comp
    } else {
        base + seq!['/'] + comp
    }
}

/// Each component of `comps` joined onto `base` in turn.
pub open spec fn join_all(base: Seq<char>, comps: Seq<Seq<char>>) -> Seq<char>
    decreases comps.len(),
{
    if comps.len() == 0 {
        base
    } else {
        join_all(join_one(base, comps[0]), comps.drop_first())
    }
}

/// Appends one path component to a base path.
pub(crate) fn join_push(out: &mut String, comp: &str)
    ensures
        final(out)@ == join_one(old(out)@, comp@),
{
    let len = out.as_str().unicode_len();
    proof {
        reveal_strlit("/");
    }
    if len > 0 && out.as_str().get_char(len - 1) == '/' {
        out.append(comp);
    } else {
        out.append("/");
        out.append(comp);
        proof {
            assert(out@ =~= old(out)@ + seq!['/'] + comp@);
        }
    }
}

/// Replaces a path's leading `~` component with the home directory,
/// joining the remaining components onto it.
pub fn expand_home_dir(rel_path_str: &str, home_dir: &str) -> (r: String)
    requires
        rel_path_str@.len() > 0,
        rel_path_str@[0] != '/',
        no_parent_components(rel_path_str@),
        path_components(rel_path_str@).len() > 0,
        path_components(rel_path_str@)[0] == seq!['~'],
    ensures
        r@ == join_all(home_dir@, path_components(rel_path_str@).drop_first()),
{
    let components = split_rel_path(rel_path_str);
    let ghost comps = path_components(rel_path_str@);
    let mut out = String::from_str(home_dir);
    let n = components.len();
    proof {
        assert(comps.subrange(1, n as int) =~= comps.drop_first());
    }
    let mut i: usize = 1;
    while i < n
        invariant
            n == components@.len(),
            1 <= i <= n,
            comps == components.deep_view(),
            comps.len() == n,
            join_all(home_dir@, comps.drop_first()) == join_all(
                out@,
                comps.subrange(i as int, n as int),
            ),
        decreases n - i,
    {
        let ghost pre = out@;
        proof {
            assert(comps[i as int] == components@[i as int]@);
        }
        join_push(&mut out, components[i].as_str());
        proof {
            let remaining = comps.subrange(i as int, n as int);
            assert(remaining[0] == comps[i as int]);
            assert(remaining.drop_first() =~= comps.subrange(i + 1, n as int));
            assert(join_all(pre, remaining) == join_all(out@, comps.subrange(i + 1, n as int)));
        }
        i += 1;
    }
    proof {
        assert(comps.subrange(1, n as int) =~= comps.drop_first());
        assert(comps.subrange(i as int, n as int).len() == 0);
        assert(join_all(out@, comps.subrange(i as int, n as int)) == out@);
    }
    out
}

} // verus!
