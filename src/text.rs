//! Character-level helpers on strings: whitespace, joining, truncation and
//! decimal rendering, each with the sequence it produces.

use vstd::prelude::*;

verus! {

/// The Unicode `White_Space` property.
pub open spec fn is_white_space_spec(c: char) -> bool {
    let u = c as u32;
    (0x9 <= u && u <= 0xD) || u == 0x20 || u == 0x85 || u == 0xA0 || u == 0x1680 || (0x2000
        <= u && u <= 0x200A) || u == 0x2028 || u == 0x2029 || u == 0x202F || u == 0x205F || u
        == 0x3000
}

/// The maximal runs of non-whitespace characters of `s`, in order.
pub open spec fn words(s: Seq<char>) -> Seq<Seq<char>>
    decreases s.len(),
{
    if s.len() == 0 {
        seq![]
    } else {
        let w = words(s.drop_last());
        let c = s.last();
        if is_white_space_spec(c) {
            w
        } else if s.len() > 1 && !is_white_space_spec(s[s.len() - 2]) {
            w.drop_last().push(w.last().push(c))
        } else {
            w.push(seq![c])
        }
    }
}

/// The parts joined with `sep` between each neighbouring pair.
pub open spec fn join(parts: Seq<Seq<char>>, sep: Seq<char>) -> Seq<char>
    decreases parts.len(),
{
    if parts.len() == 0 {
        seq![]
    } else if parts.len() == 1 {
        parts[0]
    } else {
        join(parts.drop_last(), sep) + sep + parts.last()
    }
}

/// The words of `s` joined by single spaces: whitespace runs collapsed, ends trimmed.
pub open spec fn collapse_white_space(s: Seq<char>) -> Seq<char> {
    join(words(s), seq![' '])
}

pub proof fn lemma_words_nonempty_after_word_char(s: Seq<char>)
    requires
        s.len() > 0,
        !is_white_space_spec(s.last()),
    ensures
        words(s).len() > 0,
    decreases s.len(),
{
    if s.len() > 1 && !is_white_space_spec(s[s.len() - 2]) {
        lemma_words_nonempty_after_word_char(s.drop_last());
    }
}

pub proof fn lemma_join_push(parts: Seq<Seq<char>>, x: Seq<char>, sep: Seq<char>)
    ensures
        join(parts.push(x), sep) == if parts.len() == 0 {
            x
        } else {
            join(parts, sep) + sep + x
        },
{
    assert(parts.push(x).drop_last() =~= parts);
}

pub proof fn lemma_join_extend_last(parts: Seq<Seq<char>>, c: char, sep: Seq<char>)
    requires
        parts.len() > 0,
    ensures
        join(parts.drop_last().push(parts.last().push(c)), sep) == join(parts, sep).push(c),
{
    let v = parts.drop_last();
    lemma_join_push(v, parts.last().push(c), sep);
    if v.len() > 0 {
        assert(join(parts, sep) == join(v, sep) + sep + parts.last());
        assert((join(v, sep) + sep + parts.last()).push(c) =~= join(v, sep) + sep + parts.last().push(
            c,
        ));
    }
}

pub fn is_white_space(c: char) -> (r: bool)
    ensures
        r == is_white_space_spec(c),
{
    let u = c as u32;
    (0x9 <= u && u <= 0xD) || u == 0x20 || u == 0x85 || u == 0xA0 || u == 0x1680 || (0x2000 <= u
        && u <= 0x200A) || u == 0x2028 || u == 0x2029 || u == 0x202F || u == 0x205F || u == 0x3000
}

/// Collapses every whitespace run of `s` to one space and trims both ends.
pub fn collapse_white_space_of(s: &str) -> (r: String)
    ensures
        r@ == collapse_white_space(s@),
{
    let n = s.unicode_len();
    let mut out = String::new();
    let mut has_word = false;
    let mut in_word = false;
    let mut i: usize = 0;
    while i < n
        invariant
            n == s@.len(),
            i <= n,
            out@ == join(words(s@.take(i as int)), seq![' ']),
            has_word == (words(s@.take(i as int)).len() > 0),
            in_word == (i > 0 && !is_white_space_spec(s@[i - 1])),
        decreases n - i,
    {
        let c = s.get_char(i);
        let ghost pre = s@.take(i as int);
        let ghost post = s@.take(i + 1);
        assert(post.drop_last() =~= pre);
        assert(post.last() == c);
        if is_white_space(c) {
            in_word = false;
        } else {
            let piece = s.substring_char(i, i + 1);
            assert(piece@ =~= seq![c]);
            if in_word {
                assert(post[post.len() - 2] == s@[i - 1]);
                proof {
                    lemma_words_nonempty_after_word_char(pre);
                    lemma_join_extend_last(words(pre), c, seq![' ']);
                }
                out.append(piece);
                assert(out@ =~= join(words(pre), seq![' ']).push(c));
            } else {
                proof {
                    lemma_join_push(words(pre), seq![c], seq![' ']);
                }
                if has_word {
                    out.append(" ");
                    proof { reveal_strlit(" "); }
                }
                out.append(piece);
                assert(out@ =~= join(words(post), seq![' ']));
                has_word = true;
            }
            in_word = true;
        }
        i = i + 1;
    }
    assert(s@.take(n as int) =~= s@);
    out
}

/// The character sequences that a list of strings holds.
pub open spec fn views(v: Seq<String>) -> Seq<Seq<char>> {
    v.map_values(|s: String| s@)
}

/// The first `n` characters of `s`, or all of it when it is shorter.
pub open spec fn truncated(s: Seq<char>, n: nat) -> Seq<char> {
    if n < s.len() {
        s.take(n as int)
    } else {
        s
    }
}

/// The decimal digit for `d`, for `d < 10`.
pub open spec fn digit(d: nat) -> char {
    seq!['0', '1', '2', '3', '4', '5', '6', '7', '8', '9'][d as int]
}

/// The decimal representation of `n`, without leading zeros.
pub open spec fn decimal(n: nat) -> Seq<char>
    decreases n,
{
    if n < 10 {
        seq![digit(n)]
    } else {
        decimal(n / 10).push(digit(n % 10))
    }
}

/// Joins `parts` with `sep` between neighbours.
pub fn join_of(parts: &Vec<String>, sep: &str) -> (r: String)
    ensures
        r@ == join(views(parts@), sep@),
{
    let mut out = String::new();
    let mut i: usize = 0;
    while i < parts.len()
        invariant
            i <= parts.len(),
            out@ == join(views(parts@.take(i as int)), sep@),
        decreases parts.len() - i,
    {
        let ghost pre = views(parts@.take(i as int));
        assert(views(parts@.take(i + 1)) =~= pre.push(parts@[i as int]@));
        proof {
            lemma_join_push(pre, parts@[i as int]@, sep@);
        }
        if i > 0 {
            out.append(sep);
        }
        out.append(parts[i].as_str());
        i = i + 1;
    }
    assert(parts@.take(parts.len() as int) =~= parts@);
    out
}

/// The first `n` characters of `s`.
pub fn truncate_chars(s: &str, n: usize) -> (r: String)
    ensures
        r@ == truncated(s@, n as nat),
{
    let len = s.unicode_len();
    let k = if n < len {
        n
    } else {
        len
    };
    let r = s.substring_char(0, k).to_owned();
    assert(r@ =~= truncated(s@, n as nat));
    r
}

/// The decimal representation of `n`.
pub fn decimal_of(n: usize) -> (r: String)
    ensures
        r@ == decimal(n as nat),
    decreases n,
{
    let digits = "0123456789";
    proof {
        reveal_strlit("0123456789");
    }
    if n < 10 {
        let r = digits.substring_char(n, n + 1).to_owned();
        assert(r@ =~= decimal(n as nat));
        r
    } else {
        let mut r = decimal_of(n / 10);
        let d = n % 10;
        let last = digits.substring_char(d, d + 1);
        r.append(last);
        assert(r@ =~= decimal(n as nat));
        r
    }
}

} // verus!
