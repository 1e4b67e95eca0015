//! A text made of frames. A frame holds one piece of text of any content:
//! its length in characters as a decimal numeral, a colon, the piece
//! itself and a line feed.

use vstd::prelude::*;
use vstd::string::*;

use crate::text::{chars_of, decimal, digit_char, push_decimal, string_of, strings_view};

verus! {

/// Whether `c` is a decimal digit.
pub open spec fn is_digit(c: char) -> bool {
    c == '0' || c == '1' || c == '2' || c == '3' || c == '4' || c == '5' || c == '6' || c == '7'
        || c == '8' || c == '9'
}

/// The value of a decimal digit.
pub open spec fn digit_value(c: char) -> nat {
    if c == '0' {
        0
    } else if c == '1' {
        1
    } else if c == '2' {
        2
    } else if c == '3' {
        3
    } else if c == '4' {
        4
    } else if c == '5' {
        5
    } else if c == '6' {
        6
    } else if c == '7' {
        7
    } else if c == '8' {
        8
    } else {
        9
    }
}

/// Whether every character of `s` is a decimal digit.
pub open spec fn all_digits(s: Seq<char>) -> bool {
    forall|i: int| 0 <= i < s.len() ==> is_digit(#[trigger] s[i])
}

/// The number that the digits of `s` denote; zero for no digits.
pub open spec fn number(s: Seq<char>) -> nat
    decreases s.len(),
{
    if s.len() == 0 {
        0
    } else {
        number(s.drop_last()) * 10 + digit_value(s.last())
    }
}

/// The number that `s` denotes, where `s` is a decimal numeral of a number
/// that fits in 64 bits. Leading zeros are accepted.
pub open spec fn parse_number(s: Seq<char>) -> Option<nat> {
    if s.len() > 0 && all_digits(s) && number(s) <= u64::MAX {
        Some(number(s))
    } else {
        None
    }
}

/// The first position at or after `from` at which `s` holds `c`.
pub open spec fn find_char(s: Seq<char>, c: char, from: int) -> Option<int>
    decreases s.len() - from,
{
    if from < 0 || from >= s.len() {
        None
    } else if s[from] == c {
        Some(from)
    } else {
        find_char(s, c, from + 1)
    }
}

/// The frame of one piece of text.
pub open spec fn frame(piece: Seq<char>) -> Seq<char> {
    decimal(piece.len()) + seq![':'] + piece + seq!['\n']
}

/// The frames of the pieces, one after the other.
pub open spec fn frames(pieces: Seq<Seq<char>>) -> Seq<char>
    decreases pieces.len(),
{
    if pieces.len() == 0 {
        Seq::empty()
    } else {
        frame(pieces[0]) + frames(pieces.skip(1))
    }
}

/// The piece of the frame that `text` begins with, and what follows the
/// frame; `None` where `text` does not begin with a frame.
pub open spec fn unframe(text: Seq<char>) -> Option<(Seq<char>, Seq<char>)> {
    match find_char(text, ':', 0) {
        None => None,
        Some(k) => match parse_number(text.take(k)) {
            None => None,
            Some(n) => if k + 1 + n < text.len() && text[k + 1 + n] == '\n' {
                Some((text.subrange(k + 1, k + 1 + n), text.skip(k + n + 2)))
            } else {
                None
            },
        },
    }
}

/// The pieces of a text that is made of frames and nothing else.
pub open spec fn unframes(text: Seq<char>) -> Option<Seq<Seq<char>>>
    decreases text.len(),
{
    if text.len() == 0 {
        Some(Seq::empty())
    } else {
        match unframe(text) {
            None => None,
            Some((piece, rest)) => if rest.len() < text.len() {
                match unframes(rest) {
                    None => None,
                    Some(more) => Some(seq![piece] + more),
                }
            } else {
                None
            },
        }
    }
}

/// A decimal numeral is made of digits, of at least one, and denotes its
/// number.
pub proof fn lemma_decimal(n: nat)
    ensures
        decimal(n).len() >= 1,
        all_digits(decimal(n)),
        number(decimal(n)) == n,
    decreases n,
{
    if n < 10 {
        assert(decimal(n) =~= seq![digit_char(n)]);
        assert(decimal(n).drop_last() =~= Seq::<char>::empty());
        assert(number(decimal(n).drop_last()) == 0);
    } else {
        lemma_decimal(n / 10);
        let d = decimal(n / 10);
        assert(decimal(n) == d.push(digit_char(n % 10)));
        assert(decimal(n).drop_last() =~= d);
        assert(decimal(n).last() == digit_char(n % 10));
        assert forall|i: int| 0 <= i < decimal(n).len() implies is_digit(
            #[trigger] decimal(n)[i],
        ) by {
            if i < d.len() {
                assert(decimal(n)[i] == d[i]);
            }
        }
    }
}

/// The first occurrence of `c` from `from` on is at `k`, where `c` does
/// not occur between the two.
pub proof fn lemma_find_char(s: Seq<char>, c: char, from: int, k: int)
    requires
        0 <= from <= k < s.len(),
        s[k] == c,
        forall|i: int| from <= i < k ==> s[i] != c,
    ensures
        find_char(s, c, from) == Some(k),
    decreases k - from,
{
    if from < k {
        lemma_find_char(s, c, from + 1, k);
    }
}

/// A text that begins with the frame of a piece gives back the piece and
/// what follows the frame.
pub proof fn lemma_unframe(piece: Seq<char>, rest: Seq<char>)
    requires
        piece.len() <= u64::MAX,
    ensures
        unframe(frame(piece) + rest) == Some((piece, rest)),
{
    let d = decimal(piece.len());
    let text = frame(piece) + rest;
    let k = d.len() as int;
    lemma_decimal(piece.len());
    assert forall|i: int| 0 <= i < k implies text[i] != ':' by {
        assert(text[i] == d[i]);
        assert(is_digit(d[i]));
    }
    assert(text[k] == ':');
    lemma_find_char(text, ':', 0, k);
    assert(text.take(k) =~= d);
    let n = piece.len() as int;
    assert(text[k + 1 + n] == '\n');
    assert(text.subrange(k + 1, k + 1 + n) =~= piece);
    assert(text.skip(k + n + 2) =~= rest);
}

/// A text made of the frames of some pieces gives back the pieces.
pub proof fn lemma_unframes(pieces: Seq<Seq<char>>)
    requires
        forall|i: int| 0 <= i < pieces.len() ==> (#[trigger] pieces[i]).len() <= u64::MAX,
    ensures
        unframes(frames(pieces)) == Some(pieces),
    decreases pieces.len(),
{
    if pieces.len() == 0 {
    } else {
        let rest = frames(pieces.skip(1));
        lemma_unframe(pieces[0], rest);
        assert forall|i: int| 0 <= i < pieces.skip(1).len() implies (#[trigger] pieces.skip(
            1,
        )[i]).len() <= u64::MAX by {
            assert(pieces.skip(1)[i] == pieces[i + 1]);
        }
        lemma_unframes(pieces.skip(1));
        let text = frames(pieces);
        assert(text == frame(pieces[0]) + rest);
        lemma_decimal(pieces[0].len());
        assert(text.len() > rest.len());
        assert(seq![pieces[0]] + pieces.skip(1) =~= pieces);
    }
}

/// The frames of some pieces and one more are the frames of the pieces
/// and then the frame of that one.
pub proof fn lemma_frames_push(pieces: Seq<Seq<char>>, piece: Seq<char>)
    ensures
        frames(pieces.push(piece)) == frames(pieces) + frame(piece),
    decreases pieces.len(),
{
    if pieces.len() == 0 {
        assert(pieces.push(piece).skip(1) =~= Seq::<Seq<char>>::empty());
        assert(frames(Seq::<Seq<char>>::empty()) =~= Seq::<char>::empty());
        assert(frames(pieces) =~= Seq::<char>::empty());
        assert(frames(pieces.push(piece)) =~= frame(piece) + Seq::<char>::empty());
        assert(frame(piece) + Seq::<char>::empty() =~= Seq::<char>::empty() + frame(piece));
    } else {
        lemma_frames_push(pieces.skip(1), piece);
        assert(pieces.push(piece).skip(1) =~= pieces.skip(1).push(piece));
        assert(pieces.push(piece)[0] == pieces[0]);
        assert(frame(pieces[0]) + (frames(pieces.skip(1)) + frame(piece)) =~= (frame(pieces[0])
            + frames(pieces.skip(1))) + frame(piece));
    }
}


/// The number of a longer numeral is no less than that of its beginning.
pub proof fn lemma_number_grows(s: Seq<char>, k: int)
    requires
        0 <= k <= s.len(),
    ensures
        number(s.take(k)) <= number(s),
    decreases s.len() - k,
{
    if k == s.len() {
        assert(s.take(k) =~= s);
    } else {
        lemma_number_grows(s, k + 1);
        assert(s.take(k + 1).drop_last() =~= s.take(k));
    }
}

/// Appends the frame of `piece` to `out`.
pub fn push_frame(out: &mut String, piece: &str)
    ensures
        final(out)@ == old(out)@ + frame(piece@),
        piece@.len() <= usize::MAX,
{
    let n = piece.unicode_len();
    push_decimal(out, n as u64);
    out.append(":");
    out.append(piece);
    out.append("\n");
    proof {
        reveal_strlit(":");
        reveal_strlit("\n");
        assert(":"@ =~= seq![':']);
        assert("\n"@ =~= seq!['\n']);
        assert(out@ =~= old(out)@ + frame(piece@));
    }
}

/// The text made of the frames of the pieces.
pub fn join_frames(pieces: &Vec<String>) -> (r: String)
    ensures
        r@ == frames(strings_view(pieces@)),
        forall|i: int|
            0 <= i < pieces.len() ==> (#[trigger] strings_view(pieces@)[i]).len() <= usize::MAX,
{
    let mut out = String::new();
    let mut i: usize = 0;
    assert(strings_view(pieces@).take(0) =~= Seq::<Seq<char>>::empty());
    while i < pieces.len()
        invariant
            i <= pieces.len(),
            out@ == frames(strings_view(pieces@).take(i as int)),
            forall|j: int|
                0 <= j < i ==> (#[trigger] strings_view(pieces@)[j]).len() <= usize::MAX,
        decreases pieces.len() - i,
    {
        push_frame(&mut out, pieces[i].as_str());
        proof {
            let done = strings_view(pieces@).take(i as int);
            lemma_frames_push(done, pieces@[i as int]@);
            assert(done.push(pieces@[i as int]@) =~= strings_view(pieces@).take(i + 1));
        }
        i += 1;
    }
    assert(strings_view(pieces@).take(pieces.len() as int) =~= strings_view(pieces@));
    out
}

/// The value of the decimal digit `c`, if it is one.
fn digit_of(c: char) -> (r: Option<u64>)
    ensures
        match r {
            Some(d) => is_digit(c) && d == digit_value(c) && d < 10,
            None => !is_digit(c),
        },
{
    if c == '0' {
        Some(0)
    } else if c == '1' {
        Some(1)
    } else if c == '2' {
        Some(2)
    } else if c == '3' {
        Some(3)
    } else if c == '4' {
        Some(4)
    } else if c == '5' {
        Some(5)
    } else if c == '6' {
        Some(6)
    } else if c == '7' {
        Some(7)
    } else if c == '8' {
        Some(8)
    } else if c == '9' {
        Some(9)
    } else {
        None
    }
}

/// The number that the characters of `chars` from `from` up to `to`
/// denote: see `parse_number`.
pub fn parse_u64(chars: &Vec<char>, from: usize, to: usize) -> (r: Option<u64>)
    requires
        from <= to <= chars.len(),
    ensures
        match r {
            Some(n) => parse_number(chars@.subrange(from as int, to as int)) == Some(n as nat),
            None => parse_number(chars@.subrange(from as int, to as int)) is None,
        },
{
    let ghost s = chars@.subrange(from as int, to as int);
    if from == to {
        return None;
    }
    let mut acc: u64 = 0;
    let mut i: usize = from;
    assert(s.take(0) =~= Seq::<char>::empty());
    while i < to
        invariant
            from <= i <= to <= chars.len(),
            s == chars@.subrange(from as int, to as int),
            all_digits(s.take(i - from)),
            acc == number(s.take(i - from)),
        decreases to - i,
    {
        let ghost k = (i - from) as int;
        proof {
            assert(s.take(k + 1).drop_last() =~= s.take(k));
            assert(s.take(k + 1).last() == s[k]);
            assert(s[k] == chars@[i as int]);
            lemma_number_grows(s, k + 1);
        }
        let d = match digit_of(chars[i]) {
            Some(d) => d,
            None => {
                assert(!is_digit(s[k]));
                return None;
            },
        };
        let tens = match acc.checked_mul(10) {
            Some(t) => t,
            None => {
                return None;
            },
        };
        acc = match tens.checked_add(d) {
            Some(a) => a,
            None => {
                return None;
            },
        };
        proof {
            assert forall|j: int| 0 <= j < s.take(k + 1).len() implies is_digit(
                #[trigger] s.take(k + 1)[j],
            ) by {
                if j < k {
                    assert(s.take(k + 1)[j] == s.take(k)[j]);
                }
            }
        }
        i += 1;
    }
    assert(s.take(to - from) =~= s);
    Some(acc)
}

/// The pieces of a text that is made of frames and nothing else; `None`
/// for any other text.
pub fn split_frames(text: &str) -> (r: Option<Vec<String>>)
    ensures
        match r {
            Some(pieces) => unframes(text@) == Some(strings_view(pieces@)),
            None => unframes(text@) is None,
        },
{
    let chars = chars_of(text);
    let n = chars.len();
    let mut out: Vec<String> = Vec::new();
    let mut pos: usize = 0;
    assert(chars@.skip(0) =~= chars@);
    assert(Seq::<Seq<char>>::empty() + unframes(chars@)->0 =~= unframes(chars@)->0);
    assert(strings_view(out@) =~= Seq::<Seq<char>>::empty());
    while pos < n
        invariant
            pos <= n,
            n == chars.len(),
            chars@ == text@,
            unframes(text@) == (match unframes(chars@.skip(pos as int)) {
                Some(more) => Some(strings_view(out@) + more),
                None => None,
            }),
        decreases n - pos,
    {
        let ghost rest = chars@.skip(pos as int);
        let ghost before = strings_view(out@);
        // the colon that ends the length
        let mut j: usize = pos;
        while j < n && chars[j] != ':'
            invariant
                pos <= j <= n,
                n == chars.len(),
                rest == chars@.skip(pos as int),
                find_char(rest, ':', 0) == find_char(rest, ':', j - pos),
            decreases n - j,
        {
            assert(rest[j - pos] == chars@[j as int]);
            j += 1;
        }
        if j >= n {
            return None;
        }
        assert(rest[j - pos] == chars@[j as int]);
        let ghost k = (j - pos) as int;
        assert(find_char(rest, ':', 0) == Some(k));
        assert(rest.take(k) =~= chars@.subrange(pos as int, j as int));
        let len = match parse_u64(&chars, pos, j) {
            Some(len) => len,
            None => {
                return None;
            },
        };
        // what is left behind the colon must hold the piece and a line feed
        let left = n - j - 1;
        if len >= left as u64 {
            return None;
        }
        let start = j + 1;
        let end = start + len as usize;
        assert(rest[k + 1 + len] == chars@[end as int]);
        if chars[end] != '\n' {
            return None;
        }
        let mut piece: Vec<char> = Vec::new();
        let mut m: usize = start;
        while m < end
            invariant
                start <= m <= end < n,
                n == chars.len(),
                piece@ == chars@.subrange(start as int, m as int),
            decreases end - m,
        {
            piece.push(chars[m]);
            assert(chars@.subrange(start as int, m as int).push(chars@[m as int]) =~= chars@.subrange(
                start as int,
                m + 1,
            ));
            m += 1;
        }
        let piece_string = string_of(&piece);
        proof {
            assert(rest.subrange(k + 1, k + 1 + len) =~= piece@);
            assert(rest.skip(k + len + 2) =~= chars@.skip(end + 1));
            assert(unframe(rest) == Some((piece@, chars@.skip(end + 1))));
            assert(chars@.skip(end + 1).len() < rest.len());
        }
        out.push(piece_string);
        proof {
            assert(strings_view(out@) =~= before.push(piece@));
            match unframes(chars@.skip(end + 1)) {
                Some(more) => {
                    assert(before + (seq![piece@] + more) =~= before.push(piece@) + more);
                },
                None => {},
            }
        }
        pos = end + 1;
    }
    proof {
        assert(chars@.skip(pos as int) =~= Seq::<char>::empty());
        assert(strings_view(out@) + Seq::<Seq<char>>::empty() =~= strings_view(out@));
    }
    Some(out)
}

} // verus!
