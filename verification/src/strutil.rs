//! String-building helpers: lower-case hex encoding of byte sequences and
//! decimal rendering of unsigned integers, each proved against a direct
//! mathematical description of its output.

use vstd::prelude::*;

verus! {

/// The sixteen lower-case digit characters, in value order.
pub open spec fn digit_table() -> Seq<char> {
    seq!['0', '1', '2', '3', '4', '5', '6', '7', '8', '9', 'a', 'b', 'c', 'd', 'e', 'f']
}

/// The character for a digit value below sixteen.
pub open spec fn digit_char(d: nat) -> char {
    digit_table()[d as int]
}

/// Lower-case hex encoding of a byte sequence: two digits per byte,
/// high digit first.
pub open spec fn hex_of(bytes: Seq<u8>) -> Seq<char>
    decreases bytes.len(),
{
    if bytes.len() == 0 {
        Seq::empty()
    } else {
        hex_of(bytes.drop_last()) + seq![
            digit_char((bytes.last() / 16) as nat),
            digit_char((bytes.last() % 16) as nat),
        ]
    }
}

/// Decimal rendering of a natural number, most significant digit first,
/// with no leading zeros (a single `'0'` for zero).
pub open spec fn dec_of(n: nat) -> Seq<char>
    decreases n,
{
    if n < 10 {
        seq![digit_char(n)]
    } else {
        dec_of(n / 10) + seq![digit_char(n % 10)]
    }
}

/// A one-character string slice holding the digit character for `d`.
fn digit_str(d: u8) -> (s: &'static str)
    requires
        d < 16,
    ensures
        s@ == seq![digit_char(d as nat)],
{
    proof {
        reveal_strlit("0");
        reveal_strlit("1");
        reveal_strlit("2");
        reveal_strlit("3");
        reveal_strlit("4");
        reveal_strlit("5");
        reveal_strlit("6");
        reveal_strlit("7");
        reveal_strlit("8");
        reveal_strlit("9");
        reveal_strlit("a");
        reveal_strlit("b");
        reveal_strlit("c");
        reveal_strlit("d");
        reveal_strlit("e");
        reveal_strlit("f");
    }
    let s: &'static str = match d {
        0 => "0",
        1 => "1",
        2 => "2",
        3 => "3",
        4 => "4",
        5 => "5",
        6 => "6",
        7 => "7",
        8 => "8",
        9 => "9",
        10 => "a",
        11 => "b",
        12 => "c",
        13 => "d",
        14 => "e",
        _ => "f",
    };
    proof {
        assert(s@ =~= seq![digit_char(d as nat)]);
    }
    s
}

/// Renders `bytes` as lower-case hex, two digits per byte.
pub fn to_hex(bytes: &[u8]) -> (s: String)
    ensures
        s@ == hex_of(bytes@),
{
    let mut s = String::new();
    let mut i: usize = 0;
    while i < bytes.len()
        invariant
            i <= bytes@.len(),
            s@ == hex_of(bytes@.take(i as int)),
        decreases bytes@.len() - i,
    {
        let b = *vstd::slice::slice_index_get(bytes, i);
        s.append(digit_str(b / 16));
        s.append(digit_str(b % 16));
        proof {
            let t = bytes@.take(i + 1);
            assert(t.drop_last() =~= bytes@.take(i as int));
            assert(t.last() == bytes@[i as int]);
        }
        i = i + 1;
    }
    proof {
        assert(bytes@.take(bytes@.len() as int) =~= bytes@);
    }
    s
}

/// Renders `n` in decimal, most significant digit first.
pub fn u64_to_dec(n: u64) -> (s: String)
    ensures
        s@ == dec_of(n as nat),
    decreases n,
{
    if n < 10 {
        let mut s = String::new();
        s.append(digit_str(n as u8));
        s
    } else {
        let mut s = u64_to_dec(n / 10);
        s.append(digit_str((n % 10) as u8));
        s
    }
}

/// Hex encoding yields exactly two characters per byte.
pub proof fn lemma_hex_of_len(bytes: Seq<u8>)
    ensures
        hex_of(bytes).len() == 2 * bytes.len(),
    decreases bytes.len(),
{
    if bytes.len() != 0 {
        lemma_hex_of_len(bytes.drop_last());
    }
}

/// The position of the first occurrence of `c` in `s`, if any.
pub open spec fn first_index_of(s: Seq<char>, c: char) -> Option<int>
    decreases s.len(),
{
    if s.len() == 0 {
        Option::None
    } else if s[0] == c {
        Option::Some(0)
    } else {
        match first_index_of(s.skip(1), c) {
            Option::Some(i) => Option::Some(i + 1),
            Option::None => Option::None,
        }
    }
}

/// What a found index means: it points at the first occurrence of `c`.
pub proof fn lemma_first_index_of(s: Seq<char>, c: char)
    ensures
        match first_index_of(s, c) {
            Option::Some(i) => 0 <= i < s.len() && s[i] == c && forall|j: int|
                0 <= j < i ==> s[j] != c,
            Option::None => forall|j: int| 0 <= j < s.len() ==> s[j] != c,
        },
    decreases s.len(),
{
    if s.len() != 0 && s[0] != c {
        let t = s.skip(1);
        lemma_first_index_of(t, c);
        assert(forall|j: int| 0 <= j < t.len() ==> t[j] == s[j + 1]);
        match first_index_of(t, c) {
            Option::Some(i) => {
                assert(s[i + 1] == t[i]);
                assert forall|j: int| 0 <= j < i + 1 implies s[j] != c by {
                    if j > 0 {
                        assert(s[j] == t[j - 1]);
                    }
                }
            },
            Option::None => {
                assert forall|j: int| 0 <= j < s.len() implies s[j] != c by {
                    if j > 0 {
                        assert(s[j] == t[j - 1]);
                    }
                }
            },
        }
    }
}

/// An occurrence at `i` with none before it pins `first_index_of` down.
pub proof fn lemma_first_index_of_found(s: Seq<char>, c: char, i: int)
    requires
        0 <= i < s.len(),
        s[i] == c,
        forall|j: int| 0 <= j < i ==> s[j] != c,
    ensures
        first_index_of(s, c) == Option::Some(i),
    decreases i,
{
    if i > 0 {
        assert forall|j: int| 0 <= j < i - 1 implies s.skip(1)[j] != c by {
            assert(s.skip(1)[j] == s[j + 1]);
        }
        assert(s.skip(1)[i - 1] == s[i]);
        lemma_first_index_of_found(s.skip(1), c, i - 1);
    }
}

/// The two pieces around the first occurrence of `c` in `s`: what stands
/// before it and what stands after it, the occurrence itself dropped.
pub open spec fn split_first(s: Seq<char>, c: char) -> Option<(Seq<char>, Seq<char>)> {
    match first_index_of(s, c) {
        Option::Some(i) => Option::Some((s.take(i), s.skip(i + 1))),
        Option::None => Option::None,
    }
}

/// The pieces of `s` between the occurrences of `c`: one piece when `c`
/// does not occur, and one more piece per occurrence.
pub open spec fn split_all_of(s: Seq<char>, c: char) -> Seq<Seq<char>>
    decreases s.len(),
    via split_all_of_decreases
{
    match first_index_of(s, c) {
        Option::Some(i) => seq![s.take(i)] + split_all_of(s.skip(i + 1), c),
        Option::None => seq![s],
    }
}

#[via_fn]
proof fn split_all_of_decreases(s: Seq<char>, c: char) {
    lemma_first_index_of(s, c);
}

/// Splits `s` into the pieces between the occurrences of `c`: the whole
/// string when `c` does not occur, one more piece per occurrence.
pub fn split_all(s: &str, c: char) -> (r: Vec<String>)
    ensures
        r.deep_view() == split_all_of(s@, c),
{
    let mut pieces: Vec<String> = Vec::new();
    let mut rest: String = s.to_owned();
    loop
        invariant
            pieces.deep_view() + split_all_of(rest@, c) =~= split_all_of(s@, c),
        ensures
            pieces.deep_view() =~= split_all_of(s@, c),
        decreases rest@.len(),
    {
        proof {
            lemma_first_index_of(rest@, c);
        }
        let ghost prev = pieces.deep_view();
        let ghost before = rest@;
        match split_once_str(rest.as_str(), c) {
            Option::Some(p) => {
                pieces.push(p.0);
                rest = p.1;
                proof {
                    assert(pieces.deep_view() =~= prev.push(p.0@));
                    assert(split_all_of(before, c) == seq![p.0@] + split_all_of(rest@, c));
                    assert(pieces.deep_view() + split_all_of(rest@, c) =~= split_all_of(s@, c));
                }
            },
            Option::None => {
                pieces.push(rest);
                proof {
                    assert(pieces.deep_view() =~= prev.push(before));
                    assert(split_all_of(before, c) == seq![before]);
                    assert(pieces.deep_view() =~~= split_all_of(s@, c));
                }
                return pieces;
            },
        }
    }
}

/// Splits `s` at the first occurrence of `c`, which is dropped; `None`
/// when `c` does not occur in `s`.
pub fn split_once_str(s: &str, c: char) -> (r: Option<(String, String)>)
    ensures
        match r {
            Option::Some(p) => split_first(s@, c) == Option::Some((p.0@, p.1@)),
            Option::None => split_first(s@, c) is None,
        },
{
    let n = s.unicode_len();
    let mut i: usize = 0;
    while i < n
        invariant
            n == s@.len(),
            i <= n,
            forall|j: int| 0 <= j < i ==> s@[j] != c,
        decreases n - i,
    {
        if s.get_char(i) == c {
            proof {
                lemma_first_index_of_found(s@, c, i as int);
            }
            let before = s.substring_char(0, i).to_owned();
            let after = s.substring_char(i + 1, n).to_owned();
            proof {
                assert(before@ =~= s@.take(i as int));
                assert(after@ =~= s@.skip(i + 1));
            }
            return Option::Some((before, after));
        }
        i = i + 1;
    }
    proof {
        lemma_first_index_of(s@, c);
    }
    Option::None
}

} // verus!
