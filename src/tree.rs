use vstd::prelude::*;

verus! {

/// A source tree, as the files it holds: each path relative to the tree's root
/// (components joined by `/`) mapped to that file's bytes.
pub type Tree = Map<Seq<char>, Seq<u8>>;

pub open spec fn vcs_dir() -> Seq<char> {
    seq!['.', 'g', 'i', 't']
}

/// A relative path lies in version-control metadata when its first component is `.git`.
pub open spec fn is_vcs_path_spec(p: Seq<char>) -> bool {
    &&& p.len() >= 4
    &&& p.subrange(0, 4) == vcs_dir()
    &&& (p.len() == 4 || p[4] == '/')
}

/// The tree without its version-control metadata.
pub open spec fn without_vcs(t: Tree) -> Tree {
    t.restrict(t.dom().filter(|p: Seq<char>| !is_vcs_path_spec(p)))
}

/// Whether the relative path `p` lies in version-control metadata.
pub fn is_vcs_path(p: &str) -> (r: bool)
    ensures
        r == is_vcs_path_spec(p@),
{
    let n = p.unicode_len();
    if n < 4 {
        return false;
    }
    let c0 = p.get_char(0);
    let c1 = p.get_char(1);
    let c2 = p.get_char(2);
    let c3 = p.get_char(3);
    let head = c0 == '.' && c1 == 'g' && c2 == 'i' && c3 == 't';
    proof {
        if head {
            assert(p@.subrange(0, 4) =~= vcs_dir());
        } else {
            assert(p@.subrange(0, 4)[0] == c0);
            assert(p@.subrange(0, 4)[1] == c1);
            assert(p@.subrange(0, 4)[2] == c2);
            assert(p@.subrange(0, 4)[3] == c3);
        }
    }
    head && (n == 4 || p.get_char(4) == '/')
}

} // verus!
