use vstd::prelude::*;

verus! {

/// Unicode `White_Space`: the characters on which a message is split.
pub open spec fn is_space(c: char) -> bool {
    let n = c as u32;
    (9 <= n && n <= 13) || n == 32 || n == 0x85 || n == 0xA0 || n == 0x1680
        || (0x2000 <= n && n <= 0x200A) || n == 0x2028 || n == 0x2029 || n == 0x202F
        || n == 0x205F || n == 0x3000
}

/// The word being built, as a list of zero or one words.
pub open spec fn flush(cur: Seq<char>) -> Seq<Seq<char>> {
    if cur.len() == 0 {
        seq![]
    } else {
        seq![cur]
    }
}

/// The words of `rest`, where `cur` is a word already begun before it.
pub open spec fn words_from(rest: Seq<char>, cur: Seq<char>) -> Seq<Seq<char>>
    decreases rest.len(),
{
    if rest.len() == 0 {
        flush(cur)
    } else if is_space(rest[0]) {
        flush(cur) + words_from(rest.drop_first(), seq![])
    } else {
        words_from(rest.drop_first(), cur.push(rest[0]))
    }
}

/// The maximal runs of non-space characters of `s`, in order.
pub open spec fn words(s: Seq<char>) -> Seq<Seq<char>> {
    words_from(s, seq![])
}

/// The words `ws` with a single space between neighbours.
pub open spec fn joined(ws: Seq<Seq<char>>) -> Seq<char>
    decreases ws.len(),
{
    if ws.len() == 0 {
        seq![]
    } else if ws.len() == 1 {
        ws[0]
    } else {
        joined(ws.drop_last()) + seq![' '] + ws.last()
    }
}

pub fn is_space_char(c: char) -> (r: bool)
    ensures
        r == is_space(c),
{
    let n = c as u32;
    (9 <= n && n <= 13) || n == 32 || n == 0x85 || n == 0xA0 || n == 0x1680
        || (0x2000 <= n && n <= 0x200A) || n == 0x2028 || n == 0x2029 || n == 0x202F
        || n == 0x205F || n == 0x3000
}

/// Splits `s` on runs of whitespace, dropping empty pieces.
pub fn split_words(s: &str) -> (r: Vec<String>)
    ensures
        r.deep_view() == words(s@),
{
    let n = s.unicode_len();
    let mut out: Vec<String> = Vec::new();
    let mut start: usize = 0;
    let mut i: usize = 0;
    proof {
        assert(s@.skip(0) =~= s@);
        assert(s@.subrange(0, 0) =~= seq![]);
        assert(out.deep_view() =~= seq![]);
        assert(seq![] + words(s@) =~= words(s@));
    }
    while i < n
        invariant
            n == s@.len(),
            start <= i <= n,
            words(s@) == out.deep_view() + words_from(
                s@.skip(i as int),
                s@.subrange(start as int, i as int),
            ),
        decreases n - i,
    {
        let c = s.get_char(i);
        let ghost rest = s@.skip(i as int);
        let ghost cur = s@.subrange(start as int, i as int);
        proof {
            assert(rest[0] == c);
            assert(rest.drop_first() =~= s@.skip(i + 1));
        }
        if is_space_char(c) {
            let ghost before = out.deep_view();
            if start < i {
                let w = String::from_str(s.substring_char(start, i));
                out.push(w);
                proof {
                    assert(out.deep_view() =~= before.push(cur));
                }
            } else {
                assert(cur =~= seq![]);
            }
            proof {
                assert(s@.subrange(i + 1, i + 1) =~= seq![]);
                assert(before + (flush(cur) + words_from(s@.skip(i + 1), seq![]))
                    =~= out.deep_view() + words_from(s@.skip(i + 1), seq![]));
            }
            start = i + 1;
        } else {
            proof {
                assert(cur.push(c) =~= s@.subrange(start as int, i + 1));
            }
        }
        i = i + 1;
    }
    let ghost before = out.deep_view();
    let ghost cur = s@.subrange(start as int, n as int);
    assert(s@.skip(n as int).len() == 0);
    if start < n {
        let w = String::from_str(s.substring_char(start, n));
        out.push(w);
        assert(out.deep_view() =~= before.push(cur));
    } else {
        assert(cur =~= seq![]);
        assert(before + flush(cur) =~= before);
    }
    out
}

/// Joins `ws[from..]` with a single space between neighbours.
pub fn join_words(ws: &Vec<String>, from: usize) -> (r: String)
    requires
        from <= ws.len(),
    ensures
        r@ == joined(ws.deep_view().skip(from as int)),
{
    let mut r = String::new();
    let mut k: usize = from;
    while k < ws.len()
        invariant
            from <= k <= ws.len(),
            r@ == joined(ws.deep_view().subrange(from as int, k as int)),
        decreases ws.len() - k,
    {
        let ghost before = ws.deep_view().subrange(from as int, k as int);
        let ghost after = ws.deep_view().subrange(from as int, k + 1);
        assert(after.drop_last() =~= before);
        if k > from {
            r.append(" ");
            proof {
                reveal_strlit(" ");
            }
        }
        r.append(ws[k].as_str());
        k = k + 1;
    }
    assert(ws.deep_view().subrange(from as int, ws.len() as int) =~= ws.deep_view().skip(
        from as int,
    ));
    r
}

} // verus!
