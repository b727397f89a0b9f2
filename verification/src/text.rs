//! Text helpers. Each one works on the characters of a string and states its
//! result over the string's view.

use vstd::prelude::*;
use vstd::utf8::{
    decode_utf8, decode_utf8_encode_utf8, decode_utf8_split, encode_utf8, encode_utf8_decode_utf8,
    encode_utf8_valid_utf8, is_char_boundary, valid_utf8_split,
};

verus! {

/// `p` stands in `s` at position `i`.
pub open spec fn occurs_at(s: Seq<char>, p: Seq<char>, i: int) -> bool {
    &&& 0 <= i
    &&& i + p.len() <= s.len()
    &&& s.subrange(i, i + p.len()) == p
}

/// `p` stands somewhere in `s`.
pub open spec fn has_substring(s: Seq<char>, p: Seq<char>) -> bool {
    exists|i: int| occurs_at(s, p, i)
}

/// `i` is the leftmost position at which `p` stands in `s`.
pub open spec fn first_occurrence(s: Seq<char>, p: Seq<char>, i: int) -> bool {
    &&& occurs_at(s, p, i)
    &&& forall|j: int| 0 <= j < i ==> !occurs_at(s, p, j)
}

/// The part of `s` before the leftmost `p`, or all of `s` where there is none.
pub open spec fn before_first(s: Seq<char>, p: Seq<char>) -> Seq<char> {
    if has_substring(s, p) {
        s.take(choose|i: int| first_occurrence(s, p, i))
    } else {
        s
    }
}

/// The part of `s` after the leftmost `p`.
pub open spec fn after_first(s: Seq<char>, p: Seq<char>) -> Seq<char> {
    s.skip((choose|i: int| first_occurrence(s, p, i)) + p.len())
}

/// The second piece of `s` cut at each `p`: what stands between the first `p`
/// and the next one, or the end. There is none where `p` does not occur.
pub open spec fn second_piece(s: Seq<char>, p: Seq<char>) -> Option<Seq<char>> {
    if has_substring(s, p) {
        Some(before_first(after_first(s, p), p))
    } else {
        None
    }
}

/// An ASCII capital letter in lower case; any other character as it is.
pub open spec fn ascii_lower(c: char) -> char {
    if 'A' <= c <= 'Z' {
        ((c as u32) + 32) as char
    } else {
        c
    }
}

/// `a` and `b` differ at most in the case of ASCII letters.
pub open spec fn same_ignoring_ascii_case(a: Seq<char>, b: Seq<char>) -> bool {
    &&& a.len() == b.len()
    &&& forall|i: int| 0 <= i < a.len() ==> #[trigger] ascii_lower(a[i]) == ascii_lower(b[i])
}

/// The decimal digit of a number below ten.
pub open spec fn digit_text(d: nat) -> Seq<char> {
    if d == 0 {
        "0"@
    } else if d == 1 {
        "1"@
    } else if d == 2 {
        "2"@
    } else if d == 3 {
        "3"@
    } else if d == 4 {
        "4"@
    } else if d == 5 {
        "5"@
    } else if d == 6 {
        "6"@
    } else if d == 7 {
        "7"@
    } else if d == 8 {
        "8"@
    } else {
        "9"@
    }
}

/// A number in decimal notation, without leading zeros.
pub open spec fn decimal(n: nat) -> Seq<char>
    decreases n,
{
    if n < 10 {
        digit_text(n)
    } else {
        decimal(n / 10) + digit_text(n % 10)
    }
}

/// The pieces in order, with `sep` between each two.
pub open spec fn joined(pieces: Seq<Seq<char>>, sep: Seq<char>) -> Seq<char>
    decreases pieces.len(),
{
    if pieces.len() == 0 {
        Seq::empty()
    } else if pieces.len() == 1 {
        pieces[0]
    } else {
        joined(pieces.drop_last(), sep) + sep + pieces.last()
    }
}

/// The texts of a sequence of strings.
pub open spec fn texts(s: Seq<String>) -> Seq<Seq<char>> {
    s.map_values(|t: String| t@)
}

/// The text of an optional string.
pub open spec fn opt_text(s: Option<String>) -> Option<Seq<char>> {
    match s {
        Some(t) => Some(t@),
        None => None,
    }
}

/// `s` where it has no more than `limit` bytes in UTF-8, else its first `limit`
/// bytes and three dots.
pub open spec fn shortened(s: Seq<char>, limit: int) -> Seq<char> {
    if encode_utf8(s).len() > limit {
        decode_utf8(encode_utf8(s).take(limit)) + "..."@
    } else {
        s
    }
}

/// `s` can be cut after `limit` bytes, or does not need to be.
pub open spec fn can_shorten(s: Seq<char>, limit: int) -> bool {
    encode_utf8(s).len() > limit ==> is_char_boundary(encode_utf8(s), limit)
}

/// One text after another.
pub fn concat2(a: &str, b: &str) -> (r: String)
    ensures
        r@ == a@ + b@,
{
    let mut r: String = a.to_owned();
    r.append(b);
    r
}

/// Three texts, one after another.
pub fn concat3(a: &str, b: &str, c: &str) -> (r: String)
    ensures
        r@ == a@ + b@ + c@,
{
    let mut r: String = a.to_owned();
    r.append(b);
    r.append(c);
    r
}

/// The same text, where there is one.
pub fn copy_opt(s: &Option<String>) -> (r: Option<String>)
    ensures
        r == *s,
{
    match s {
        Some(text) => Some(text.clone()),
        None => None,
    }
}

/// The characters of `s`, one by one.
pub fn chars_of(s: &str) -> (r: Vec<char>)
    ensures
        r@ == s@,
{
    let mut r: Vec<char> = Vec::new();
    for c in it: s.chars()
        invariant
            r@ == s@.take(it.index() as int),
            it.seq() == s@,
    {
        r.push(c);
        assert(s@.take(it.index() + 1) == s@.take(it.index() as int).push(c));
    }
    assert(s@.take(s@.len() as int) == s@);
    r
}

/// Whether `a` and `b` hold the same characters.
pub fn same_text(a: &str, b: &str) -> (r: bool)
    ensures
        r == (a@ == b@),
{
    let x: &[u8] = a.as_bytes();
    let y: &[u8] = b.as_bytes();
    if x.len() != y.len() {
        return false;
    }
    let mut i: usize = 0;
    while i < x.len()
        invariant
            x.len() == y.len(),
            i <= x.len(),
            forall|j: int| 0 <= j < i ==> x[j] == y[j],
            x@ == encode_utf8(a@),
            y@ == encode_utf8(b@),
        decreases x.len() - i,
    {
        if x[i] != y[i] {
            assert(encode_utf8(a@)[i as int] != encode_utf8(b@)[i as int]);
            return false;
        }
        i += 1;
    }
    proof {
        assert(x@ =~= y@);
        encode_utf8_decode_utf8(a@);
        encode_utf8_decode_utf8(b@);
    }
    true
}

/// Whether `s` begins with `p`.
pub fn starts_with(s: &str, p: &str) -> (r: bool)
    ensures
        r == p@.is_prefix_of(s@),
{
    let x: Vec<char> = chars_of(s);
    let y: Vec<char> = chars_of(p);
    if y.len() > x.len() {
        return false;
    }
    let mut i: usize = 0;
    while i < y.len()
        invariant
            y.len() <= x.len(),
            i <= y.len(),
            forall|j: int| 0 <= j < i ==> x[j] == y[j],
            x@ == s@,
            y@ == p@,
        decreases y.len() - i,
    {
        if x[i] != y[i] {
            assert(s@.take(p@.len() as int)[i as int] != p@[i as int]);
            return false;
        }
        i += 1;
    }
    assert(p@ =~= s@.subrange(0, p@.len() as int));
    true
}

/// Whether `a` and `b` differ at most in the case of ASCII letters.
pub fn eq_ignore_ascii_case(a: &str, b: &str) -> (r: bool)
    ensures
        r == same_ignoring_ascii_case(a@, b@),
{
    let x: Vec<char> = chars_of(a);
    let y: Vec<char> = chars_of(b);
    if x.len() != y.len() {
        return false;
    }
    let mut i: usize = 0;
    while i < x.len()
        invariant
            x.len() == y.len(),
            i <= x.len(),
            forall|j: int| 0 <= j < i ==> ascii_lower(x[j]) == ascii_lower(y[j]),
            x@ == a@,
            y@ == b@,
        decreases x.len() - i,
    {
        if lower(x[i]) != lower(y[i]) {
            assert(ascii_lower(a@[i as int]) != ascii_lower(b@[i as int]));
            return false;
        }
        i += 1;
    }
    true
}

fn lower(c: char) -> (r: char)
    ensures
        r == ascii_lower(c),
{
    if 'A' <= c && c <= 'Z' {
        ((c as u8) + 32) as char
    } else {
        c
    }
}

/// The leftmost position of a text is unique.
pub proof fn first_occurrence_is_unique(s: Seq<char>, p: Seq<char>, i: int, j: int)
    requires
        first_occurrence(s, p, i),
        first_occurrence(s, p, j),
    ensures
        i == j,
{
}

/// The leftmost position at which `p` stands in `s`, in characters.
pub fn find(s: &str, p: &str) -> (r: Option<usize>)
    ensures
        match r {
            Some(i) => first_occurrence(s@, p@, i as int),
            None => !has_substring(s@, p@),
        },
{
    let x: Vec<char> = chars_of(s);
    let y: Vec<char> = chars_of(p);
    if y.len() > x.len() {
        return None;
    }
    let last: usize = x.len() - y.len();
    let mut i: usize = 0;
    loop
        invariant
            x@ == s@,
            y@ == p@,
            y.len() <= x.len(),
            last == x.len() - y.len(),
            i <= last,
            forall|j: int| 0 <= j < i ==> !occurs_at(s@, p@, j),
        decreases last - i,
    {
        let mut k: usize = 0;
        while k < y.len() && x[i + k] == y[k]
            invariant
                x@ == s@,
                y@ == p@,
                y.len() <= x.len(),
                i <= last,
                last == x.len() - y.len(),
                k <= y.len(),
                forall|j: int| 0 <= j < k ==> x[i + j] == y[j],
            decreases y.len() - k,
        {
            k += 1;
        }
        if k == y.len() {
            assert(s@.subrange(i as int, i + p@.len()) =~= p@);
            return Some(i);
        }
        assert(!occurs_at(s@, p@, i as int)) by {
            assert(s@.subrange(i as int, i + p@.len())[k as int] != p@[k as int]);
        }
        if i == last {
            return None;
        }
        i += 1;
    }
}

/// Whether `p` stands somewhere in `s`.
pub fn contains(s: &str, p: &str) -> (r: bool)
    ensures
        r == has_substring(s@, p@),
{
    find(s, p).is_some()
}

/// What stands in `s` between the first `p` and the next one, or the end.
pub fn piece_after(s: &str, p: &str) -> (r: Option<String>)
    requires
        p@.len() > 0,
    ensures
        opt_text(r) == second_piece(s@, p@),
{
    match find(s, p) {
        None => None,
        Some(i) => {
            let end: usize = s.unicode_len();
            let start: usize = i + p.unicode_len();
            let rest: &str = s.substring_char(start, end);
            proof {
                let c = choose|j: int| first_occurrence(s@, p@, j);
                first_occurrence_is_unique(s@, p@, i as int, c);
                assert(rest@ == after_first(s@, p@));
            }
            match find(rest, p) {
                None => Some(rest.to_owned()),
                Some(j) => {
                    proof {
                        let c = choose|k: int| first_occurrence(rest@, p@, k);
                        first_occurrence_is_unique(rest@, p@, j as int, c);
                        assert(rest@.subrange(0, j as int) =~= rest@.take(j as int));
                    }
                    Some(rest.substring_char(0, j).to_owned())
                },
            }
        },
    }
}

fn digit(d: u64) -> (r: &'static str)
    requires
        d < 10,
    ensures
        r@ == digit_text(d as nat),
{
    if d == 0 {
        "0"
    } else if d == 1 {
        "1"
    } else if d == 2 {
        "2"
    } else if d == 3 {
        "3"
    } else if d == 4 {
        "4"
    } else if d == 5 {
        "5"
    } else if d == 6 {
        "6"
    } else if d == 7 {
        "7"
    } else if d == 8 {
        "8"
    } else {
        "9"
    }
}

/// `n` in decimal notation.
pub fn number_text(n: u64) -> (r: String)
    ensures
        r@ == decimal(n as nat),
    decreases n,
{
    if n < 10 {
        digit(n).to_owned()
    } else {
        let mut r: String = number_text(n / 10);
        r.append(digit(n % 10));
        r
    }
}

/// The pieces in order, with `sep` between each two.
pub fn join(pieces: &Vec<String>, sep: &str) -> (r: String)
    ensures
        r@ == joined(texts(pieces@), sep@),
{
    let mut r: String = String::new();
    let mut i: usize = 0;
    while i < pieces.len()
        invariant
            i <= pieces.len(),
            r@ == joined(texts(pieces@.take(i as int)), sep@),
        decreases pieces.len() - i,
    {
        let ghost so_far = texts(pieces@.take(i as int));
        let ghost longer = texts(pieces@.take(i + 1));
        assert(longer.len() == i + 1);
        assert(longer.drop_last() =~= so_far);
        assert(longer.last() == pieces@[i as int]@);
        if i > 0 {
            r.append(sep);
        }
        r.append(pieces[i].as_str());
        assert(r@ =~= joined(longer, sep@));
        i += 1;
    }
    assert(pieces@.take(pieces.len() as int) =~= pieces@);
    r
}

/// Whether `s` is one of `list`.
pub fn listed(list: &Vec<String>, s: &str) -> (r: bool)
    ensures
        r == texts(list@).contains(s@),
{
    let mut i: usize = 0;
    while i < list.len()
        invariant
            i <= list.len(),
            forall|j: int| 0 <= j < i ==> list@[j]@ != s@,
        decreases list.len() - i,
    {
        if same_text(list[i].as_str(), s) {
            assert(texts(list@)[i as int] == s@);
            return true;
        }
        i += 1;
    }
    assert(!texts(list@).contains(s@)) by {
        if texts(list@).contains(s@) {
            let j = choose|j: int| 0 <= j < list@.len() && texts(list@)[j] == s@;
            assert(list@[j]@ == s@);
        }
    }
    false
}

/// `s`, cut after `limit` bytes and marked with three dots where it is longer.
pub fn shorten(s: &str, limit: usize) -> (r: String)
    requires
        can_shorten(s@, limit as int),
    ensures
        r@ == shortened(s@, limit as int),
{
    if s.as_bytes().len() > limit {
        let (head, _) = s.split_at(limit);
        proof {
            encode_utf8_decode_utf8(head@);
            assert(encode_utf8(s@).subrange(0, limit as int) =~= encode_utf8(s@).take(limit as int));
        }
        let mut r: String = head.to_owned();
        r.append("...");
        r
    } else {
        s.to_owned()
    }
}

/// `s` is made of `before`, `middle` and `after`, character by character, and of
/// nothing else.
pub open spec fn frames(
    s: Seq<char>,
    before: Seq<char>,
    middle: Seq<char>,
    after: Seq<char>,
) -> bool {
    &&& s.len() == before.len() + middle.len() + after.len()
    &&& forall|i: int| 0 <= i < before.len() ==> #[trigger] s[i] == before[i]
    &&& forall|i: int| 0 <= i < middle.len() ==> s[before.len() + i] == #[trigger] middle[i]
    &&& forall|i: int|
        0 <= i < after.len() ==> s[before.len() + middle.len() + i] == #[trigger] after[i]
}

/// The number that a row of decimal digits stands for.
pub open spec fn number_value(digits: Seq<char>) -> int
    decreases digits.len(),
{
    if digits.len() == 0 {
        0
    } else {
        10 * number_value(digits.drop_last()) + (digits.last() as int - '0' as int)
    }
}

/// A number is written in digits that stand for it, without a zero in front.
pub proof fn decimal_stands_for_its_number(n: nat)
    ensures
        number_value(decimal(n)) == n,
        decimal(n).len() > 0,
        forall|i: int| 0 <= i < decimal(n).len() ==> '0' <= #[trigger] decimal(n)[i] <= '9',
        n > 0 ==> decimal(n)[0] != '0',
        n == 0 ==> decimal(n).len() == 1,
    decreases n,
{
    lemma_digit(n % 10);
    reveal_with_fuel(number_value, 2);
    if n < 10 {
        assert(digit_text(n).drop_last() =~= Seq::empty());
    } else {
        decimal_stands_for_its_number(n / 10);
        assert(decimal(n).drop_last() =~= decimal(n / 10));
        assert(decimal(n).last() == digit_text(n % 10)[0]);
        assert forall|i: int| 0 <= i < decimal(n).len() implies '0' <= #[trigger] decimal(n)[i]
            <= '9' by {
            if i < decimal(n / 10).len() {
                assert(decimal(n)[i] == decimal(n / 10)[i]);
            }
        }
        assert(decimal(n)[0] == decimal(n / 10)[0]);
    }
}

proof fn lemma_digit(d: nat)
    requires
        d < 10,
    ensures
        digit_text(d).len() == 1,
        digit_text(d)[0] as int == d + '0' as int,
{
    reveal_strlit("0");
    reveal_strlit("1");
    reveal_strlit("2");
    reveal_strlit("3");
    reveal_strlit("4");
    reveal_strlit("5");
    reveal_strlit("6");
    reveal_strlit("7");
    reveal_strlit("8");
    reveal_strlit("9");
}

/// Different numbers are written differently.
pub proof fn different_numbers_look_different(a: nat, b: nat)
    requires
        a != b,
    ensures
        decimal(a) != decimal(b),
{
    decimal_stands_for_its_number(a);
    decimal_stands_for_its_number(b);
}

/// A list of pieces may be joined part by part, a single piece is joined as it
/// is, and no pieces give no text.
pub proof fn lists_are_joined_part_by_part(
    first: Seq<Seq<char>>,
    second: Seq<Seq<char>>,
    piece: Seq<char>,
    sep: Seq<char>,
)
    ensures
        joined(Seq::empty(), sep).len() == 0,
        joined(seq![piece], sep) == piece,
        first.len() > 0 && second.len() > 0 ==> joined(first + second, sep) == joined(first, sep)
            + sep + joined(second, sep),
    decreases second.len(),
{
    if first.len() > 0 && second.len() > 0 {
        let shorter = second.drop_last();
        assert((first + second).drop_last() =~= first + shorter);
        assert((first + second).last() == second.last());
        if shorter.len() > 0 {
            lists_are_joined_part_by_part(first, shorter, piece, sep);
        } else {
            assert(first + shorter =~= first);
        }
        assert(joined(first + second, sep) =~= joined(first, sep) + sep + joined(second, sep));
    }
}

/// The texts of a list are those of its strings, one for one and in order.
pub proof fn texts_are_those_of_the_strings(list: Seq<String>, s: String)
    ensures
        texts(list).len() == list.len(),
        forall|i: int| 0 <= i < list.len() ==> #[trigger] texts(list)[i] == list[i]@,
        opt_text(Some(s)) == Some(s@),
        opt_text(None) is None,
{
}

/// Two texts are the same but for case exactly where each letter of one is the
/// letter of the other, capital or small, and every other character is the same.
pub proof fn case_is_ignored_letter_by_letter(a: Seq<char>, b: Seq<char>)
    ensures
        same_ignoring_ascii_case(a, b) <==> a.len() == b.len() && forall|i: int|
            0 <= i < a.len() ==> {
                ||| #[trigger] a[i] == b[i]
                ||| 'A' <= a[i] <= 'Z' && b[i] as int == a[i] as int + 32
                ||| 'A' <= b[i] <= 'Z' && a[i] as int == b[i] as int + 32
            },
{
    if same_ignoring_ascii_case(a, b) {
        assert forall|i: int| 0 <= i < a.len() implies {
            ||| #[trigger] a[i] == b[i]
            ||| 'A' <= a[i] <= 'Z' && b[i] as int == a[i] as int + 32
            ||| 'A' <= b[i] <= 'Z' && a[i] as int == b[i] as int + 32
        } by {
            assert(ascii_lower(a[i]) == ascii_lower(b[i]));
        }
    }
    if a.len() == b.len() && forall|i: int|
        0 <= i < a.len() ==> {
            ||| #[trigger] a[i] == b[i]
            ||| 'A' <= a[i] <= 'Z' && b[i] as int == a[i] as int + 32
            ||| 'A' <= b[i] <= 'Z' && a[i] as int == b[i] as int + 32
        } {
        assert forall|i: int| 0 <= i < a.len() implies #[trigger] ascii_lower(a[i])
            == ascii_lower(b[i]) by {
            assert(a[i] == a[i]);
        }
    }
}

/// A text stands in another exactly where that can be cut into something, the
/// text, and something.
pub proof fn text_is_found_where_it_stands(s: Seq<char>, p: Seq<char>)
    ensures
        has_substring(s, p) <==> exists|head: Seq<char>, tail: Seq<char>|
            s == #[trigger] (head + p + tail),
{
    if has_substring(s, p) {
        let i = choose|i: int| occurs_at(s, p, i);
        let head = s.take(i);
        let tail = s.skip(i + p.len());
        assert(s =~= head + p + tail);
    }
    if exists|head: Seq<char>, tail: Seq<char>| s == #[trigger] (head + p + tail) {
        let (head, tail) = choose|head: Seq<char>, tail: Seq<char>|
            s == #[trigger] (head + p + tail);
        assert(s.subrange(head.len() as int, head.len() as int + p.len()) =~= p);
        assert(occurs_at(s, p, head.len() as int));
    }
}

/// The second piece of a text is what stands after the first mark, up to the next
/// one or to the end.
pub proof fn second_piece_stands_between_the_marks(
    head: Seq<char>,
    mark: Seq<char>,
    piece: Seq<char>,
    tail: Seq<char>,
)
    requires
        mark.len() > 0,
        forall|i: int| 0 <= i < head.len() ==> !occurs_at(head + mark + piece + tail, mark, i),
        forall|i: int| 0 <= i < piece.len() ==> !occurs_at(piece + tail, mark, i),
        tail.len() == 0 || mark.is_prefix_of(tail),
    ensures
        second_piece(head + mark + piece + tail, mark) == Some(piece),
{
    let s = head + mark + piece + tail;
    let rest = piece + tail;
    assert(s.subrange(head.len() as int, head.len() as int + mark.len()) =~= mark);
    assert(first_occurrence(s, mark, head.len() as int));
    let i = choose|i: int| first_occurrence(s, mark, i);
    first_occurrence_is_unique(s, mark, i, head.len() as int);
    assert(after_first(s, mark) =~= rest);
    if tail.len() > 0 {
        assert(rest.subrange(piece.len() as int, piece.len() as int + mark.len()) =~= tail.subrange(
            0,
            mark.len() as int,
        ));
        assert(first_occurrence(rest, mark, piece.len() as int));
        let j = choose|j: int| first_occurrence(rest, mark, j);
        first_occurrence_is_unique(rest, mark, j, piece.len() as int);
        assert(rest.take(piece.len() as int) =~= piece);
    } else {
        assert(rest =~= piece);
        assert(!has_substring(rest, mark));
    }
}

/// A text that is short enough is shown as it is. Of a longer one the bytes up to
/// the limit are shown, and three dots.
pub proof fn only_long_texts_are_shortened(s: Seq<char>, limit: int)
    requires
        limit >= 0,
        can_shorten(s, limit),
    ensures
        encode_utf8(s).len() <= limit ==> shortened(s, limit) == s,
        encode_utf8(s).len() > limit ==> ({
            let n = shortened(s, limit).len() - 3;
            &&& 0 <= n <= s.len()
            &&& shortened(s, limit).take(n) == s.take(n)
            &&& encode_utf8(s.take(n)).len() == limit
            &&& shortened(s, limit).skip(n) == "..."@
        }),
{
    reveal_strlit("...");
    if encode_utf8(s).len() > limit {
        let bytes = encode_utf8(s);
        let kept = decode_utf8(bytes.take(limit));
        encode_utf8_valid_utf8(s);
        encode_utf8_decode_utf8(s);
        valid_utf8_split(bytes, limit);
        decode_utf8_split(bytes, limit);
        decode_utf8_encode_utf8(bytes.take(limit));
        assert(bytes.subrange(0, limit) =~= bytes.take(limit));
        let n = shortened(s, limit).len() - 3;
        assert(n == kept.len());
        assert(shortened(s, limit).take(n) =~= kept);
        assert(s.take(n) =~= kept);
        assert(shortened(s, limit).skip(n) =~= "..."@);
    }
}

/// A number is shown by its digits, and a list by its pieces: one piece alone as
/// it is, and no piece as nothing.
pub proof fn numbers_and_lists_are_shown(
    n: u64,
    shown: String,
    pieces: &Vec<String>,
    sep: &str,
    list: String,
)
    requires
        call_ensures(number_text, (n,), shown),
        call_ensures(join, (pieces, sep), list),
    ensures
        number_value(shown@) == n,
        pieces@.len() == 0 ==> list@.len() == 0,
        pieces@.len() == 1 ==> list@ == pieces@[0]@,
        pieces@.len() == 2 ==> frames(list@, pieces@[0]@, sep@, pieces@[1]@),
{
    decimal_stands_for_its_number(n as nat);
    let t = texts(pieces@);
    assert(t.len() == pieces@.len());
    reveal_with_fuel(joined, 3);
    if pieces@.len() >= 1 {
        assert(t[0] == pieces@[0]@);
    }
    if pieces@.len() == 2 {
        assert(t[1] == pieces@[1]@);
        assert(t.drop_last() =~= seq![t[0]]);
    }
}

} // verus!
