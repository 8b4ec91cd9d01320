use vstd::prelude::*;
use vstd::string::*;

verus! {

/// The path `s` with a leading `~` replaced by the home directory `home`.
pub open spec fn expand_spec(s: Seq<char>, home: Seq<char>) -> Seq<char> {
    if s.len() > 0 && s[0] == '~' {
        home + s.skip(1)
    } else {
        s
    }
}

/// Replaces a leading `~` of `s` with the home directory `home`; any other
/// path is returned as it is.
pub fn expand(s: &str, home: &str) -> (r: String)
    ensures
        r@ == expand_spec(s@, home@),
{
    let n = s.unicode_len();
    if n > 0 && s.get_char(0) == '~' {
        let mut r = String::from_str(home);
        r.append(s.substring_char(1, n));
        r
    } else {
        String::from_str(s)
    }
}


/// The characters of `s`, one by one.
fn chars_of(s: &str) -> (v: Vec<char>)
    ensures
        v@ == s@,
{
    let n = s.unicode_len();
    let mut v: Vec<char> = Vec::new();
    let mut i: usize = 0;
    while i < n
        invariant
            n == s@.len(),
            i <= n,
            v@ == s@.subrange(0, i as int),
        decreases n - i,
    {
        v.push(s.get_char(i));
        i = i + 1;
        assert(v@ =~= s@.subrange(0, i as int));
    }
    assert(v@ =~= s@);
    v
}

/// The path of `path` relative to `root`, when `root` is `path` itself or one
/// of the directories that hold it.
pub open spec fn relative_spec(root: Seq<char>, path: Seq<char>) -> Option<Seq<char>> {
    if root.len() <= path.len() && path.subrange(0, root.len() as int) == root {
        let rest = path.skip(root.len() as int);
        if rest.len() == 0 || (root.len() > 0 && root.last() == '/') {
            Some(rest)
        } else if rest[0] == '/' {
            Some(rest.skip(1))
        } else {
            None
        }
    } else {
        None
    }
}

/// The directory `dir` joined with the relative path `rel`.
pub open spec fn join_spec(dir: Seq<char>, rel: Seq<char>) -> Seq<char> {
    if rel.len() == 0 {
        dir
    } else if dir.len() > 0 && dir.last() == '/' {
        dir + rel
    } else {
        dir + seq!['/'] + rel
    }
}

/// The path of `path` relative to `root`; `None` when `path` is neither
/// `root` nor under it.
pub fn relative_path(root: &str, path: &str) -> (r: Option<String>)
    ensures
        opt_chars(r) == relative_spec(root@, path@),
{
    let rc = chars_of(root);
    let p = chars_of(path);
    if rc.len() > p.len() {
        return None;
    }
    let mut i: usize = 0;
    while i < rc.len()
        invariant
            rc@ == root@,
            p@ == path@,
            rc.len() <= p.len(),
            i <= rc.len(),
            forall|k: int| 0 <= k < i ==> rc@[k] == p@[k],
        decreases rc.len() - i,
    {
        if rc[i] != p[i] {
            assert(p@.subrange(0, rc@.len() as int)[i as int] != rc@[i as int]);
            return None;
        }
        i = i + 1;
    }
    assert(p@.subrange(0, rc@.len() as int) =~= rc@);
    let n = p.len();
    let start: usize = if n == rc.len() || (rc.len() > 0 && rc[rc.len() - 1] == '/') {
        rc.len()
    } else if p[rc.len()] == '/' {
        rc.len() + 1
    } else {
        return None;
    };
    let rel = path.substring_char(start, n);
    assert(rel@ =~= relative_spec(root@, path@)->0);
    Some(String::from_str(rel))
}

/// The view of an optional string.
pub open spec fn opt_chars(s: Option<String>) -> Option<Seq<char>> {
    match s {
        Some(t) => Some(t@),
        None => None,
    }
}

/// The directory `dir` joined with the relative path `rel`.
pub fn join_path(dir: &str, rel: &str) -> (r: String)
    ensures
        r@ == join_spec(dir@, rel@),
{
    let rn = rel.unicode_len();
    if rn == 0 {
        return String::from_str(dir);
    }
    let mut r = String::from_str(dir);
    let dn = dir.unicode_len();
    if !(dn > 0 && dir.get_char(dn - 1) == '/') {
        r.append("/");
        proof {
            reveal_strlit("/");
        }
    }
    r.append(rel);
    assert(r@ =~= join_spec(dir@, rel@));
    r
}

/// Where the entry `path` of the source tree rooted at `source` belongs in the
/// destination tree rooted at `destination`: the destination joined with the
/// entry's path relative to the source. `None` when `path` is not under
/// `source`.
pub fn destination_for(source: &str, destination: &str, path: &str) -> (r: Option<String>)
    ensures
        match relative_spec(source@, path@) {
            Some(rel) => r is Some && r->0@ == join_spec(destination@, rel),
            None => r is None,
        },
{
    match relative_path(source, path) {
        Some(rel) => Some(join_path(destination, rel.as_str())),
        None => None,
    }
}

/// Whether the component `.git` starts at index `i` of the path `s`.
pub open spec fn git_at(s: Seq<char>, i: int) -> bool {
    &&& 0 <= i
    &&& i + 4 <= s.len()
    &&& s[i] == '.' && s[i + 1] == 'g' && s[i + 2] == 'i' && s[i + 3] == 't'
    &&& i == 0 || s[i - 1] == '/'
    &&& i + 4 == s.len() || s[i + 4] == '/'
}

/// Whether one of the `/`-separated components of `s` is `.git`.
pub open spec fn has_git_component(s: Seq<char>) -> bool {
    exists|i: int| git_at(s, i)
}

/// Whether the walk visits the entry at the relative path `rel` from the
/// source root: the root itself is not an entry, and an entry named `.git`,
/// a directory or a file such as a submodule's, is never visited, nor
/// anything inside it.
pub fn should_visit(rel: &str) -> (r: bool)
    ensures
        r == (rel@.len() > 0 && !has_git_component(rel@)),
{
    let s = chars_of(rel);
    let n = s.len();
    if n == 0 {
        return false;
    }
    let mut i: usize = 0;
    while i < n
        invariant
            n == s@.len(),
            s@ == rel@,
            i <= n,
            forall|k: int| 0 <= k < i ==> !git_at(s@, k),
        decreases n - i,
    {
        if n - i >= 4 && s[i] == '.' && s[i + 1] == 'g' && s[i + 2] == 'i' && s[i + 3] == 't'
            && (i == 0 || s[i - 1] == '/') && (i + 4 == n || s[i + 4] == '/') {
            assert(git_at(s@, i as int));
            return false;
        }
        i = i + 1;
    }
    assert forall|k: int| !git_at(s@, k) by {
        if 0 <= k < n {
        }
    }
    true
}


/// A path that runs through a `.git` directory, or is one, is never visited:
/// `prefix` is empty or ends with `/`, and `suffix` is empty or starts with
/// `/`.
pub proof fn lemma_git_never_visited(prefix: Seq<char>, suffix: Seq<char>)
    requires
        prefix.len() == 0 || prefix.last() == '/',
        suffix.len() == 0 || suffix[0] == '/',
    ensures
        has_git_component(prefix + seq!['.', 'g', 'i', 't'] + suffix),
{
    let s = prefix + seq!['.', 'g', 'i', 't'] + suffix;
    let i = prefix.len() as int;
    if i > 0 {
        assert(s[i - 1] == prefix.last());
    }
    assert(git_at(s, i));
}

} // verus!
