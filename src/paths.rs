//! Paths as sequences of characters, with `/` as the separator.
use vstd::prelude::*;

verus! {

/// Index of the last occurrence of `c` in `s`, or -1 when there is none.
pub open spec fn last_index_of(s: Seq<char>, c: char) -> int
    decreases s.len(),
{
    if s.len() == 0 {
        -1
    } else if s.last() == c {
        s.len() - 1
    } else {
        last_index_of(s.drop_last(), c)
    }
}

proof fn lemma_last_index_bounds(s: Seq<char>, c: char)
    ensures
        -1 <= last_index_of(s, c) < s.len(),
        last_index_of(s, c) >= 0 ==> s[last_index_of(s, c)] == c,
        forall|j: int| last_index_of(s, c) < j < s.len() ==> s[j] != c,
    decreases s.len(),
{
    if s.len() > 0 && s.last() != c {
        lemma_last_index_bounds(s.drop_last(), c);
        assert forall|j: int| last_index_of(s, c) < j < s.len() implies s[j] != c by {
            if j < s.len() - 1 {
                assert(s.drop_last()[j] == s[j]);
            }
        }
    }
}

/// The final component of a path: what follows its last separator.
pub open spec fn spec_file_name(p: Seq<char>) -> Seq<char> {
    p.subrange(last_index_of(p, '/') + 1, p.len() as int)
}

/// Position of the dot that starts the extension of a file name, if any.
/// A name that starts with its only dot, and the name `..`, have none.
pub open spec fn extension_dot(name: Seq<char>) -> Option<int> {
    let d = last_index_of(name, '.');
    if d <= 0 || name =~= seq!['.', '.'] {
        None
    } else {
        Some(d)
    }
}

/// The extension of a path: what follows the extension dot of its file name.
pub open spec fn spec_extension(p: Seq<char>) -> Option<Seq<char>> {
    let name = spec_file_name(p);
    match extension_dot(name) {
        Some(d) => Some(name.subrange(d + 1, name.len() as int)),
        None => None,
    }
}

/// `name` placed inside directory `dir`.
pub open spec fn spec_join(dir: Seq<char>, name: Seq<char>) -> Seq<char> {
    if name.len() > 0 && name[0] == '/' {
        name
    } else if dir.len() == 0 || dir.last() == '/' {
        dir + name
    } else {
        dir + seq!['/'] + name
    }
}

/// The path with `bak.` inserted right after the dot of its extension
/// (`dir/photo.png` becomes `dir/photo.bak.png`); none without an extension.
pub open spec fn spec_backup_path(p: Seq<char>) -> Option<Seq<char>> {
    let start = p.len() - spec_file_name(p).len();
    match extension_dot(spec_file_name(p)) {
        Some(d) => Some(
            p.subrange(0, start + d + 1) + seq!['b', 'a', 'k', '.'] + p.subrange(
                start + d + 1,
                p.len() as int,
            ),
        ),
        None => None,
    }
}

pub open spec fn ascii_lower(c: char) -> char {
    if 'A' <= c && c <= 'Z' {
        ((c as u32) + 32) as char
    } else {
        c
    }
}

/// Equal up to the case of ASCII letters.
pub open spec fn spec_eq_ignore_ascii_case(a: Seq<char>, b: Seq<char>) -> bool {
    a.len() == b.len() && forall|i: int| 0 <= i < a.len() ==> ascii_lower(a[i]) == ascii_lower(b[i])
}

fn find_last(s: &Vec<char>, c: char) -> (r: usize)
    ensures
        r as int == last_index_of(s@, c) + 1,
        r <= s.len(),
{
    let mut i: usize = s.len();
    proof {
        assert(s@.subrange(0, i as int) =~= s@);
    }
    while i > 0 && s[i - 1] != c
        invariant
            i <= s.len(),
            last_index_of(s@.subrange(0, i as int), c) == last_index_of(s@, c),
        decreases i,
    {
        proof {
            assert(s@.subrange(0, i as int).drop_last() =~= s@.subrange(0, i - 1));
        }
        i = i - 1;
    }
    i
}

fn copy_range(s: &Vec<char>, lo: usize, hi: usize, out: &mut Vec<char>)
    requires
        lo <= hi <= s.len(),
    ensures
        final(out)@ == old(out)@ + s@.subrange(lo as int, hi as int),
{
    let mut i: usize = lo;
    while i < hi
        invariant
            lo <= i <= hi <= s.len(),
            out@ == old(out)@ + s@.subrange(lo as int, i as int),
        decreases hi - i,
    {
        out.push(s[i]);
        proof {
            assert(s@.subrange(lo as int, i + 1) =~= s@.subrange(lo as int, i as int).push(s@[i as int]));
        }
        i = i + 1;
    }
}

/// The final component of `p`.
pub fn file_name(p: &Vec<char>) -> (r: Vec<char>)
    ensures
        r@ == spec_file_name(p@),
{
    let start = find_last(p, '/');
    let mut r: Vec<char> = Vec::new();
    copy_range(p, start, p.len(), &mut r);
    r
}

fn extension_dot_of(name: &Vec<char>) -> (r: Option<usize>)
    ensures
        match r {
            Some(d) => extension_dot(name@) == Some(d as int),
            None => extension_dot(name@) is None,
        },
{
    let d = find_last(name, '.');
    if d <= 1 {
        None
    } else if name.len() == 2 && name[0] == '.' && name[1] == '.' {
        proof {
            assert(name@ =~= seq!['.', '.']);
        }
        None
    } else {
        proof {
            assert(!(name@ =~= seq!['.', '.']));
        }
        Some(d - 1)
    }
}

/// The extension of `p`, without its dot.
pub fn extension(p: &Vec<char>) -> (r: Option<Vec<char>>)
    ensures
        match r {
            Some(e) => spec_extension(p@) == Some(e@),
            None => spec_extension(p@) is None,
        },
{
    let name = file_name(p);
    match extension_dot_of(&name) {
        Some(d) => {
            proof {
                lemma_last_index_bounds(name@, '.');
            }
            let mut e: Vec<char> = Vec::new();
            copy_range(&name, d + 1, name.len(), &mut e);
            proof {
                assert(e@ =~= name@.subrange(d + 1, name@.len() as int));
            }
            Some(e)
        },
        None => None,
    }
}

/// `name` placed inside directory `dir`; an absolute `name` stands alone.
pub fn join(dir: &Vec<char>, name: &Vec<char>) -> (r: Vec<char>)
    ensures
        r@ == spec_join(dir@, name@),
{
    let mut r: Vec<char> = Vec::new();
    if name.len() > 0 && name[0] == '/' {
        copy_range(name, 0, name.len(), &mut r);
        proof {
            assert(r@ =~= name@);
        }
        return r;
    }
    copy_range(dir, 0, dir.len(), &mut r);
    if dir.len() > 0 && dir[dir.len() - 1] != '/' {
        r.push('/');
    }
    copy_range(name, 0, name.len(), &mut r);
    proof {
        assert(dir@.subrange(0, dir@.len() as int) =~= dir@);
        assert(name@.subrange(0, name@.len() as int) =~= name@);
    }
    r
}

/// Where the backup of `p` goes, when `p` has an extension.
pub fn backup_path(p: &Vec<char>) -> (r: Option<Vec<char>>)
    ensures
        match r {
            Some(b) => spec_backup_path(p@) == Some(b@),
            None => spec_backup_path(p@) is None,
        },
{
    let name = file_name(p);
    match extension_dot_of(&name) {
        Some(d) => {
            proof {
                lemma_last_index_bounds(name@, '.');
                lemma_last_index_bounds(p@, '/');
            }
            let cut = p.len() - name.len() + d + 1;
            let mut r: Vec<char> = Vec::new();
            copy_range(p, 0, cut, &mut r);
            r.push('b');
            r.push('a');
            r.push('k');
            r.push('.');
            copy_range(p, cut, p.len(), &mut r);
            proof {
                assert(r@ =~= p@.subrange(0, cut as int) + seq!['b', 'a', 'k', '.'] + p@.subrange(
                    cut as int,
                    p@.len() as int,
                ));
            }
            Some(r)
        },
        None => None,
    }
}

fn lower(c: char) -> (r: char)
    ensures
        r == ascii_lower(c),
{
    if 'A' <= c && c <= 'Z' {
        (((c as u32) + 32) as u8) as char
    } else {
        c
    }
}

/// Whether `a` and `b` are equal up to the case of ASCII letters.
pub fn eq_ignore_ascii_case(a: &Vec<char>, b: &Vec<char>) -> (r: bool)
    ensures
        r == spec_eq_ignore_ascii_case(a@, b@),
{
    if a.len() != b.len() {
        return false;
    }
    let mut i: usize = 0;
    while i < a.len()
        invariant
            a.len() == b.len(),
            i <= a.len(),
            forall|j: int| 0 <= j < i ==> ascii_lower(a@[j]) == ascii_lower(b@[j]),
        decreases a.len() - i,
    {
        if lower(a[i]) != lower(b[i]) {
            return false;
        }
        i = i + 1;
    }
    true
}

} // verus!
