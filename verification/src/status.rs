use vstd::prelude::*;

verus! {

/// The largest index at which `c` occurs in `s`, if any.
pub open spec fn find_last(s: Seq<char>, c: char) -> Option<int>
    decreases s.len(),
{
    if s.len() == 0 {
        Option::None
    } else if s.last() == c {
        Option::Some(s.len() - 1)
    } else {
        find_last(s.drop_last(), c)
    }
}

/// The file name of a path: everything after the last `/`, or the whole
/// path when it holds none.
pub open spec fn base_name(p: Seq<char>) -> Seq<char> {
    match find_last(p, '/') {
        Option::None => p,
        Option::Some(i) => p.subrange(i + 1, p.len() as int),
    }
}

/// A versioned file name split at its last `-` into tool name and version;
/// `None` when it holds no `-`.
pub open spec fn split_base(b: Seq<char>) -> Option<(Seq<char>, Seq<char>)> {
    match find_last(b, '-') {
        Option::None => Option::None,
        Option::Some(h) => Option::Some((b.take(h), b.skip(h + 1))),
    }
}

fn rfind_char(s: &str, c: char) -> (r: Option<usize>)
    ensures
        match r {
            Option::Some(i) => find_last(s@, c) == Option::Some(i as int) && i < s@.len(),
            Option::None => find_last(s@, c) is None,
        },
{
    let n: usize = s.unicode_len();
    let mut i: usize = n;
    proof {
        assert(s@.take(n as int) =~= s@);
    }
    while i > 0
        invariant
            i <= n,
            n == s@.len(),
            find_last(s@, c) == find_last(s@.take(i as int), c),
        decreases i,
    {
        let ch = s.get_char(i - 1);
        proof {
            assert(s@.take(i as int).last() == s@[i - 1]);
            assert(s@.take(i as int).drop_last() =~= s@.take(i - 1));
        }
        if ch == c {
            return Option::Some(i - 1);
        }
        i = i - 1;
    }
    Option::None
}

/// What a launcher's link target reveals: the target's file name, split at
/// its last `-`, names the active tool and version. `None` when the file
/// name holds no `-` at all.
pub fn split_target(target: &str) -> (r: Option<(String, String)>)
    ensures
        match r {
            Option::Some(p) => split_base(base_name(target@)) == Option::Some((p.0@, p.1@)),
            Option::None => split_base(base_name(target@)) is None,
        },
{
    let n: usize = target.unicode_len();
    let start: usize = match rfind_char(target, '/') {
        Option::Some(i) => i + 1,
        Option::None => 0,
    };
    let base = target.substring_char(start, n);
    proof {
        assert(base@ =~= base_name(target@));
    }
    let m: usize = base.unicode_len();
    match rfind_char(base, '-') {
        Option::None => Option::None,
        Option::Some(h) => {
            let t = base.substring_char(0, h);
            let v = base.substring_char(h + 1, m);
            proof {
                assert(t@ =~= base_name(target@).take(h as int));
                assert(v@ =~= base_name(target@).skip(h + 1));
            }
            Option::Some((String::from_str(t), String::from_str(v)))
        },
    }
}

} // verus!
