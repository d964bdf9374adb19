//! File-extension handling: the dispatcher routes on the lowercased
//! extension of the selected path.

use crate::tokens::chars_to_vec;
use vstd::prelude::*;

verus! {

/// The largest index at which `c` occurs in `s`, or `-1` when it does not.
pub open spec fn last_index_of(s: Seq<char>, c: char) -> int
    decreases s.len(),
{
    if s.len() == 0 {
        -1
    } else if s.last() == c {
        s.len() - 1
    } else {
        last_index_of(s.drop_last(), c)
    }
}

proof fn lemma_last_index_of_push(s: Seq<char>, x: char, c: char)
    ensures
        last_index_of(s.push(x), c) == if x == c {
            s.len() as int
        } else {
            last_index_of(s, c)
        },
{
    assert(s.push(x).drop_last() =~= s);
}

/// ASCII lowercasing, the case folding used on extensions.
pub open spec fn lower_char(c: char) -> char {
    if 0x41 <= c as u32 && c as u32 <= 0x5A {
        ((c as u32 + 0x20) as u8) as char
    } else {
        c
    }
}

pub open spec fn lower_seq(s: Seq<char>) -> Seq<char> {
    s.map_values(|c: char| lower_char(c))
}

/// Runtime counterpart of [`lower_char`].
pub fn to_lower(c: char) -> (r: char)
    ensures
        r == lower_char(c),
{
    let u = c as u32;
    if 0x41 <= u && u <= 0x5A {
        ((u + 0x20) as u8) as char
    } else {
        c
    }
}

/// The lowercased extension of `path`: what follows the last `.` of the
/// final `/`-separated component, or empty when that component has no `.`
/// past its first character.
pub open spec fn ext_of(path: Seq<char>) -> Seq<char> {
    let sep = last_index_of(path, '/');
    let dot = last_index_of(path, '.');
    if dot > sep + 1 {
        lower_seq(path.skip(dot + 1))
    } else {
        Seq::<char>::empty()
    }
}

/// Computes the lowercased extension of `path`, as [`ext_of`] gives it.
pub fn file_extension(path: &str) -> (ext: Vec<char>)
    ensures
        ext@ == ext_of(path@),
{
    let cs = chars_to_vec(path);
    let n = cs.len();
    let mut has_sep: bool = false;
    let mut sep: usize = 0;
    let mut has_dot: bool = false;
    let mut dot: usize = 0;
    let mut i: usize = 0;
    proof {
        assert(cs@.take(0) =~= Seq::<char>::empty());
    }
    while i < n
        invariant
            n == cs@.len(),
            i <= n,
            has_sep ==> sep < i && last_index_of(cs@.take(i as int), '/') == sep,
            !has_sep ==> last_index_of(cs@.take(i as int), '/') == -1,
            has_dot ==> dot < i && last_index_of(cs@.take(i as int), '.') == dot,
            !has_dot ==> last_index_of(cs@.take(i as int), '.') == -1,
        decreases n - i,
    {
        let c = cs[i];
        proof {
            assert(cs@.take(i as int + 1) =~= cs@.take(i as int).push(cs@[i as int]));
            lemma_last_index_of_push(cs@.take(i as int), cs@[i as int], '/');
            lemma_last_index_of_push(cs@.take(i as int), cs@[i as int], '.');
        }
        if c == '/' {
            has_sep = true;
            sep = i;
        } else if c == '.' {
            has_dot = true;
            dot = i;
        }
        i = i + 1;
    }
    proof {
        assert(cs@.take(n as int) =~= cs@);
    }
    let mut ext: Vec<char> = Vec::new();
    if !has_dot || (has_sep && dot <= sep + 1) || (!has_sep && dot == 0) {
        proof {
            assert(ext@ =~= ext_of(path@));
        }
        return ext;
    }
    let mut j: usize = dot + 1;
    proof {
        assert(ext@ =~= lower_seq(cs@.subrange(dot + 1, dot + 1)));
    }
    while j < n
        invariant
            n == cs@.len(),
            dot < j <= n,
            ext@ == lower_seq(cs@.subrange(dot + 1, j as int)),
        decreases n - j,
    {
        proof {
            assert(cs@.subrange(dot + 1, j as int + 1) =~= cs@.subrange(dot + 1, j as int).push(
                cs@[j as int],
            ));
            assert(lower_seq(cs@.subrange(dot + 1, j as int + 1)) =~= lower_seq(
                cs@.subrange(dot + 1, j as int),
            ).push(lower_char(cs@[j as int])));
        }
        let lc = to_lower(cs[j]);
        ext.push(lc);
        j = j + 1;
    }
    proof {
        assert(cs@.subrange(dot + 1, n as int) =~= cs@.skip(dot + 1));
    }
    ext
}

} // verus!
