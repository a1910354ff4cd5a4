//! Text that messages and names are made of: decimal and hexadecimal numerals, lists of numbers,
//! and the joining of pieces.

use vstd::prelude::*;

verus! {

/// The digit character of `d`, for `d` below 16.
pub open spec fn digit_char(d: nat) -> char {
    if d < 10 {
        (48 + d) as char
    } else {
        (87 + d) as char
    }
}

/// The numeral of `n` to the base `base`, most significant digit first.
pub open spec fn numeral(n: nat, base: nat) -> Seq<char>
    decreases n,
{
    if base < 2 || n < base {
        seq![digit_char(n)]
    } else {
        proof {
            assert(n / base < n) by (nonlinear_arith)
                requires
                    n >= base,
                    base >= 2,
            ;
        }
        numeral(n / base, base).push(digit_char(n % base))
    }
}

/// The decimal numeral of `n`.
pub open spec fn decimal(n: nat) -> Seq<char> {
    numeral(n, 10)
}

/// Different numbers have different decimal numerals.
pub proof fn decimal_is_injective(a: nat, b: nat)
    ensures
        a != b ==> decimal(a) != decimal(b),
    decreases a + b,
{
    if a != b && decimal(a) == decimal(b) {
        if a < 10 && b < 10 {
            assert(decimal(a)[0] == digit_char(a));
            assert(decimal(b)[0] == digit_char(b));
        } else if a < 10 {
            assert(numeral(b / 10, 10).len() >= 1) by {
                numeral_not_empty(b / 10);
            }
        } else if b < 10 {
            assert(numeral(a / 10, 10).len() >= 1) by {
                numeral_not_empty(a / 10);
            }
        } else {
            assert(decimal(a).last() == digit_char(a % 10));
            assert(decimal(b).last() == digit_char(b % 10));
            assert(decimal(a).drop_last() =~= decimal(a / 10));
            assert(decimal(b).drop_last() =~= decimal(b / 10));
            decimal_is_injective(a / 10, b / 10);
        }
    }
}

proof fn numeral_not_empty(n: nat)
    ensures
        numeral(n, 10).len() >= 1,
{
}

/// The decimal numeral of `i`, with a leading `-` where `i` is negative.
pub open spec fn signed_decimal(i: int) -> Seq<char> {
    if i < 0 {
        seq!['-'] + decimal((-i) as nat)
    } else {
        decimal(i as nat)
    }
}

/// The numbers of `s` in decimal, with `, ` between them.
pub open spec fn comma_list(s: Seq<int>) -> Seq<char>
    decreases s.len(),
{
    if s.len() == 0 {
        seq![]
    } else if s.len() == 1 {
        signed_decimal(s[0])
    } else {
        comma_list(s.drop_last()) + ", "@ + signed_decimal(s.last())
    }
}

/// A list of numbers is the list of their numerals.
pub proof fn comma_list_is_joined(s: Seq<int>)
    ensures
        comma_list(s) == comma_joined(s.map_values(|i: int| signed_decimal(i))),
    decreases s.len(),
{
    let numerals = s.map_values(|i: int| signed_decimal(i));
    if s.len() > 1 {
        comma_list_is_joined(s.drop_last());
        assert(numerals.drop_last() =~= s.drop_last().map_values(|i: int| signed_decimal(i)));
    }
}

/// The numbers of `s` as a bracketed list: `[1, 2, 3]`.
pub open spec fn bracket_list(s: Seq<int>) -> Seq<char> {
    "["@ + comma_list(s) + "]"@
}

fn digit_str(d: u64) -> (s: &'static str)
    requires
        d < 16,
    ensures
        s@ =~= seq![digit_char(d as nat)],
{
    proof {
        reveal_strlit("0");
        reveal_strlit("1");
        reveal_strlit("2");
        reveal_strlit("3");
        reveal_strlit("4");
        reveal_strlit("5");
        reveal_strlit("6");
        reveal_strlit("7");
        reveal_strlit("8");
        reveal_strlit("9");
        reveal_strlit("a");
        reveal_strlit("b");
        reveal_strlit("c");
        reveal_strlit("d");
        reveal_strlit("e");
        reveal_strlit("f");
    }
    if d == 0 {
        "0"
    } else if d == 1 {
        "1"
    } else if d == 2 {
        "2"
    } else if d == 3 {
        "3"
    } else if d == 4 {
        "4"
    } else if d == 5 {
        "5"
    } else if d == 6 {
        "6"
    } else if d == 7 {
        "7"
    } else if d == 8 {
        "8"
    } else if d == 9 {
        "9"
    } else if d == 10 {
        "a"
    } else if d == 11 {
        "b"
    } else if d == 12 {
        "c"
    } else if d == 13 {
        "d"
    } else if d == 14 {
        "e"
    } else {
        "f"
    }
}

/// The numeral of `n` to the base `base`.
pub fn numeral_text(n: u64, base: u64) -> (s: String)
    requires
        2 <= base <= 16,
    ensures
        s@ == numeral(n as nat, base as nat),
    decreases n,
{
    if n < base {
        let s = digit_str(n).to_owned();
        assert(s@ == numeral(n as nat, base as nat));
        s
    } else {
        assert(n / base < n) by (nonlinear_arith)
            requires
                n >= base,
                base >= 2,
        ;
        let mut s = numeral_text(n / base, base);
        s.append(digit_str(n % base));
        assert(s@ == numeral(n as nat, base as nat));
        s
    }
}

/// The decimal numeral of `n`.
pub fn decimal_text(n: u64) -> (s: String)
    ensures
        s@ == decimal(n as nat),
{
    numeral_text(n, 10)
}

/// The decimal numeral of `i`, with its sign where it is negative.
pub fn signed_decimal_text(i: i64) -> (s: String)
    ensures
        s@ == signed_decimal(i as int),
{
    if i < 0 {
        let magnitude: u64 = if i == i64::MIN {
            9_223_372_036_854_775_808u64
        } else {
            (-i) as u64
        };
        proof {
            reveal_strlit("-");
            assert("-"@ =~= seq!['-']);
        }
        join2("-", decimal_text(magnitude).as_str())
    } else {
        decimal_text(i as u64)
    }
}

/// The numbers of a list of `i64` as integers.
pub open spec fn ints(s: Seq<i64>) -> Seq<int> {
    s.map_values(|d: i64| d as int)
}

/// The list `[1, 2, 3]` of the numbers in `v`.
pub fn list_text(v: &Vec<i64>) -> (s: String)
    ensures
        s@ == bracket_list(ints(v@)),
{
    let mut out = String::new();
    let mut i: usize = 0;
    while i < v.len()
        invariant
            i <= v.len(),
            out@ == comma_list(ints(v@).take(i as int)),
        decreases v.len() - i,
    {
        proof {
            assert(ints(v@).take(i + 1).drop_last() =~= ints(v@).take(i as int));
        }
        if i > 0 {
            out.append(", ");
        }
        out.append(signed_decimal_text(v[i]).as_str());
        proof {
            if i == 0 {
                assert(out@ =~= signed_decimal(v@[0] as int));
            }
        }
        i = i + 1;
    }
    proof {
        assert(ints(v@).take(v@.len() as int) =~= ints(v@));
    }
    say("[").str(out.as_str()).str("]").text
}

/// `a` followed by `b`.
pub fn join2(a: &str, b: &str) -> (s: String)
    ensures
        s@ == a@ + b@,
{
    let mut s = a.to_owned();
    s.append(b);
    s
}

/// `parts` with `, ` between them, in brackets.
pub open spec fn bracketed(parts: Seq<Seq<char>>) -> Seq<char> {
    "["@ + comma_joined(parts) + "]"@
}

/// `parts` with `, ` between them.
pub open spec fn comma_joined(parts: Seq<Seq<char>>) -> Seq<char>
    decreases parts.len(),
{
    if parts.len() == 0 {
        seq![]
    } else if parts.len() == 1 {
        parts[0]
    } else {
        comma_joined(parts.drop_last()) + ", "@ + parts.last()
    }
}

/// The characters of each string of a list.
pub open spec fn texts(v: Seq<String>) -> Seq<Seq<char>> {
    v.map_values(|s: String| s@)
}

/// `parts` with `, ` between them, in brackets.
pub fn bracketed_text(parts: &Vec<String>) -> (s: String)
    ensures
        s@ == bracketed(texts(parts@)),
{
    let mut out = String::new();
    let mut i: usize = 0;
    while i < parts.len()
        invariant
            i <= parts.len(),
            out@ == comma_joined(texts(parts@).take(i as int)),
        decreases parts.len() - i,
    {
        proof {
            assert(texts(parts@).take(i + 1).drop_last() =~= texts(parts@).take(i as int));
        }
        if i > 0 {
            out.append(", ");
        }
        out.append(parts[i].as_str());
        proof {
            if i == 0 {
                assert(out@ =~= parts@[0]@);
            }
        }
        i = i + 1;
    }
    proof {
        assert(texts(parts@).take(parts@.len() as int) =~= texts(parts@));
    }
    say("[").str(out.as_str()).str("]").text
}

/// `parts`, each on a line of its own that starts with `indent` and ends in a comma.
pub open spec fn lined(parts: Seq<Seq<char>>, indent: Seq<char>) -> Seq<char>
    decreases parts.len(),
{
    if parts.len() == 0 {
        seq![]
    } else {
        lined(parts.drop_last(), indent) + "\n"@ + indent + parts.last() + ","@
    }
}

/// A list on lines of its own. The lines of the parts start with `inner`, the last with `outer`.
pub open spec fn lined_list(
    parts: Seq<Seq<char>>,
    inner: Seq<char>,
    outer: Seq<char>,
) -> Seq<char> {
    if parts.len() == 0 {
        "[]"@
    } else {
        "["@ + lined(parts, inner) + "\n"@ + outer + "]"@
    }
}

/// A list on lines of its own. The lines of the parts start with `inner`, the last with `outer`.
pub fn lined_list_text(parts: &Vec<String>, inner: &str, outer: &str) -> (s: String)
    ensures
        s@ == lined_list(texts(parts@), inner@, outer@),
{
    if parts.len() == 0 {
        return say("[]").text;
    }
    let mut out = String::new();
    let mut i: usize = 0;
    while i < parts.len()
        invariant
            i <= parts.len(),
            out@ == lined(texts(parts@).take(i as int), inner@),
        decreases parts.len() - i,
    {
        proof {
            assert(texts(parts@).take(i + 1).drop_last() =~= texts(parts@).take(i as int));
        }
        out.append("\n");
        out.append(inner);
        out.append(parts[i].as_str());
        out.append(",");
        i = i + 1;
    }
    proof {
        assert(texts(parts@).take(parts@.len() as int) =~= texts(parts@));
    }
    say("[").str(out.as_str()).str("\n").str(outer).str("]").text
}

/// A text that is put together piece by piece.
pub struct Message {
    pub text: String,
}

impl View for Message {
    type V = Seq<char>;

    open spec fn view(&self) -> Seq<char> {
        self.text@
    }
}

/// Begins a text.
pub fn say(s: &str) -> (m: Message)
    ensures
        m@ == s@,
{
    Message { text: s.to_owned() }
}

impl Message {
    /// Goes on with `s`.
    pub fn str(self, s: &str) -> (m: Message)
        ensures
            m@ == self@ + s@,
    {
        let mut text = self.text;
        text.append(s);
        Message { text }
    }

    /// Goes on with the decimal numeral of `n`.
    pub fn num(self, n: usize) -> (m: Message)
        ensures
            m@ == self@ + decimal(n as nat),
    {
        self.str(decimal_text(n as u64).as_str())
    }

    /// Goes on with the decimal numeral of `n`.
    pub fn num64(self, n: u64) -> (m: Message)
        ensures
            m@ == self@ + decimal(n as nat),
    {
        self.str(decimal_text(n).as_str())
    }

    /// Goes on with the decimal numeral of `n`.
    pub fn num32(self, n: u32) -> (m: Message)
        ensures
            m@ == self@ + decimal(n as nat),
    {
        self.str(decimal_text(n as u64).as_str())
    }

    /// Goes on with the decimal numeral of `i`.
    pub fn signed(self, i: i64) -> (m: Message)
        ensures
            m@ == self@ + signed_decimal(i as int),
    {
        self.str(signed_decimal_text(i).as_str())
    }

    /// Goes on with the list of the numbers in `v`.
    pub fn list(self, v: &Vec<i64>) -> (m: Message)
        ensures
            m@ == self@ + bracket_list(ints(v@)),
    {
        self.str(list_text(v).as_str())
    }

    /// Goes on with the list of the numbers in `v`.
    pub fn sizes(self, v: &Vec<usize>) -> (m: Message)
        ensures
            m@ == self@ + bracket_list(v@.map_values(|d: usize| d as int)),
    {
        let mut parts: Vec<String> = Vec::with_capacity(v.len());
        let mut i: usize = 0;
        while i < v.len()
            invariant
                i <= v.len(),
                parts@.len() == i,
                forall|k: int| 0 <= k < i ==> #[trigger] parts@[k]@ == signed_decimal(v@[k] as int),
            decreases v.len() - i,
        {
            parts.push(decimal_text(v[i] as u64));
            i = i + 1;
        }
        proof {
            comma_list_is_joined(v@.map_values(|d: usize| d as int));
            assert(texts(parts@) =~= v@.map_values(|d: usize| d as int).map_values(
                |i: int| signed_decimal(i),
            ));
        }
        self.str(bracketed_text(&parts).as_str())
    }

    /// Goes on with the list of the numbers in `v`.
    pub fn list64(self, v: &Vec<u64>) -> (m: Message)
        ensures
            m@ == self@ + bracket_list(v@.map_values(|d: u64| d as int)),
    {
        let mut parts: Vec<String> = Vec::with_capacity(v.len());
        let mut i: usize = 0;
        while i < v.len()
            invariant
                i <= v.len(),
                parts@.len() == i,
                forall|k: int| 0 <= k < i ==> #[trigger] parts@[k]@ == signed_decimal(v@[k] as int),
            decreases v.len() - i,
        {
            parts.push(decimal_text(v[i]));
            i = i + 1;
        }
        proof {
            comma_list_is_joined(v@.map_values(|d: u64| d as int));
            assert(texts(parts@) =~= v@.map_values(|d: u64| d as int).map_values(
                |i: int| signed_decimal(i),
            ));
        }
        self.str(bracketed_text(&parts).as_str())
    }

    /// Goes on with the list of the numbers in `v`.
    pub fn list32(self, v: &Vec<u32>) -> (m: Message)
        ensures
            m@ == self@ + bracket_list(ints32(v@)),
    {
        let mut wide: Vec<i64> = Vec::with_capacity(v.len());
        let mut i: usize = 0;
        while i < v.len()
            invariant
                i <= v.len(),
                wide@.len() == i,
                forall|k: int| 0 <= k < i ==> #[trigger] wide@[k] == v@[k],
            decreases v.len() - i,
        {
            wide.push(v[i] as i64);
            i = i + 1;
        }
        proof {
            assert(ints(wide@) =~= ints32(v@));
        }
        self.str(list_text(&wide).as_str())
    }
}

/// The numbers of a list of `u32` as integers.
pub open spec fn ints32(s: Seq<u32>) -> Seq<int> {
    s.map_values(|d: u32| d as int)
}

/// Whether two texts are the same.
pub fn same_text(a: &str, b: &str) -> (r: bool)
    ensures
        r == (a@ == b@),
{
    a.to_owned() == b.to_owned()
}

/// A character with capitals of the Latin alphabet made small.
pub open spec fn ascii_lower(c: char) -> char {
    if 'A' <= c <= 'Z' {
        (c as u32 + 32) as char
    } else {
        c
    }
}

/// A text with capitals of the Latin alphabet made small.
pub open spec fn ascii_lowercase(s: Seq<char>) -> Seq<char> {
    s.map_values(|c: char| ascii_lower(c))
}

/// Whether `word` stands in `s` from `at` on, whatever the case of its letters.
pub open spec fn word_at(s: Seq<char>, word: Seq<char>, at: int) -> bool {
    0 <= at && at + word.len() <= s.len() && ascii_lowercase(s.subrange(at, at + word.len()))
        == word
}

/// Whether `word` stands somewhere in `s`, whatever the case of its letters.
pub open spec fn has_word(s: Seq<char>, word: Seq<char>) -> bool {
    exists|at: int| #[trigger] word_at(s, word, at)
}

/// The characters of `s`.
pub fn chars_of(s: &str) -> (v: Vec<char>)
    ensures
        v@ == s@,
{
    let mut v: Vec<char> = Vec::new();
    let n: usize = s.unicode_len();
    let mut i: usize = 0;
    while i < n
        invariant
            i <= n,
            n == s@.len(),
            v@ == s@.take(i as int),
        decreases n - i,
    {
        v.push(s.get_char(i));
        proof {
            assert(s@.take(i + 1) =~= s@.take(i as int).push(s@[i as int]));
        }
        i = i + 1;
    }
    proof {
        assert(s@.take(s@.len() as int) =~= s@);
    }
    v
}

fn lower_of(c: char) -> (r: char)
    ensures
        r == ascii_lower(c),
{
    if 'A' <= c && c <= 'Z' {
        let small: u8 = c as u8 + 32;
        small as char
    } else {
        c
    }
}

/// Whether two texts are the same once the capitals of the first are made small.
pub fn same_ignoring_case(s: &str, lower: &str) -> (r: bool)
    ensures
        r == (ascii_lowercase(s@) == lower@),
{
    let a = chars_of(s);
    let b = chars_of(lower);
    if a.len() != b.len() {
        return false;
    }
    let mut i: usize = 0;
    while i < a.len()
        invariant
            i <= a.len(),
            a@ == s@,
            b@ == lower@,
            a@.len() == b@.len(),
            forall|k: int| 0 <= k < i ==> ascii_lower(#[trigger] a@[k]) == b@[k],
        decreases a.len() - i,
    {
        if lower_of(a[i]) != b[i] {
            proof {
                assert(ascii_lowercase(s@)[i as int] != lower@[i as int]);
            }
            return false;
        }
        i = i + 1;
    }
    assert(ascii_lowercase(s@) =~= lower@);
    true
}

/// Whether `word`, in small letters, stands somewhere in `s`, whatever the case there.
pub fn contains_ignoring_case(s: &str, word: &str) -> (r: bool)
    ensures
        r == has_word(s@, word@),
{
    let a = chars_of(s);
    let w = chars_of(word);
    let n: usize = a.len();
    if w.len() > n {
        return false;
    }
    let mut at: usize = 0;
    while at <= n - w.len()
        invariant
            n == a@.len(),
            a@ == s@,
            w@ == word@,
            w@.len() <= a@.len(),
            at <= a@.len() - w@.len() + 1,
            forall|k: int| 0 <= k < at ==> !word_at(s@, word@, k),
        decreases n + 1 - at,
    {
        let mut i: usize = 0;
        while i < w.len() && lower_of(a[at + i]) == w[i]
            invariant
                i <= w.len(),
                a@ == s@,
                w@ == word@,
                at + w@.len() <= a@.len() <= usize::MAX,
                forall|k: int| 0 <= k < i ==> ascii_lower(#[trigger] a@[at + k]) == w@[k],
            decreases w.len() - i,
        {
            i = i + 1;
        }
        let ghost part = ascii_lowercase(s@.subrange(at as int, at + word@.len()));
        if i == w.len() {
            proof {
                assert forall|k: int| 0 <= k < word@.len() implies part[k] == word@[k] by {
                    assert(ascii_lower(a@[at + k]) == w@[k]);
                }
                assert(part =~= word@);
                assert(word_at(s@, word@, at as int));
            }
            return true;
        }
        proof {
            assert(part[i as int] != word@[i as int]);
        }
        at = at + 1;
    }
    false
}

/// A word that is not empty does not stand in an empty text.
pub proof fn no_word_in_nothing()
    ensures
        !has_word(Seq::<char>::empty(), "scale"@),
        !has_word(Seq::<char>::empty(), "bias"@),
{
    reveal_strlit("scale");
    reveal_strlit("bias");
}

/// Whether a character is white space, as Unicode defines it.
pub open spec fn is_white(c: char) -> bool {
    let n = c as u32;
    ||| 9 <= n <= 13
    ||| n == 0x20
    ||| n == 0x85
    ||| n == 0xA0
    ||| n == 0x1680
    ||| 0x2000 <= n <= 0x200A
    ||| n == 0x2028
    ||| n == 0x2029
    ||| n == 0x202F
    ||| n == 0x205F
    ||| n == 0x3000
}

fn is_white_space(c: char) -> (b: bool)
    ensures
        b == is_white(c),
{
    let n: u32 = c as u32;
    (9 <= n && n <= 13) || n == 0x20 || n == 0x85 || n == 0xA0 || n == 0x1680 || (0x2000 <= n && n
        <= 0x200A) || n == 0x2028 || n == 0x2029 || n == 0x202F || n == 0x205F || n == 0x3000
}

/// The text from its first character on that is not white space.
pub open spec fn trimmed_start(s: Seq<char>) -> Seq<char>
    decreases s.len(),
{
    if s.len() > 0 && is_white(s[0]) {
        trimmed_start(s.subrange(1, s.len() as int))
    } else {
        s
    }
}

/// The text up to its last character that is not white space.
pub open spec fn trimmed_end(s: Seq<char>) -> Seq<char>
    decreases s.len(),
{
    if s.len() > 0 && is_white(s.last()) {
        trimmed_end(s.drop_last())
    } else {
        s
    }
}

/// The text without the white space before and after it.
pub open spec fn trimmed(s: Seq<char>) -> Seq<char> {
    trimmed_end(trimmed_start(s))
}

/// The text without the white space before and after it.
pub fn trim<'a>(s: &'a str) -> (t: &'a str)
    ensures
        t@ == trimmed(s@),
{
    let v = chars_of(s);
    let mut from: usize = 0;
    proof {
        assert(s@.subrange(0, s@.len() as int) =~= s@);
    }
    while from < v.len() && is_white_space(v[from])
        invariant
            from <= v.len(),
            v@ == s@,
            trimmed_start(s@) == trimmed_start(s@.subrange(from as int, s@.len() as int)),
        decreases v.len() - from,
    {
        proof {
            let rest = s@.subrange(from as int, s@.len() as int);
            assert(rest.subrange(1, rest.len() as int) =~= s@.subrange(from + 1, s@.len() as int));
        }
        from = from + 1;
    }
    let mut to: usize = v.len();
    while to > from && is_white_space(v[to - 1])
        invariant
            from <= to <= v.len(),
            v@ == s@,
            trimmed(s@) == trimmed_end(s@.subrange(from as int, to as int)),
        decreases to,
    {
        proof {
            let rest = s@.subrange(from as int, to as int);
            assert(rest.drop_last() =~= s@.subrange(from as int, to - 1));
        }
        to = to - 1;
    }
    s.substring_char(from, to)
}

/// The text without the letters `c` at its end.
pub open spec fn without_trailing(s: Seq<char>, c: char) -> Seq<char>
    decreases s.len(),
{
    if s.len() > 0 && s.last() == c {
        without_trailing(s.drop_last(), c)
    } else {
        s
    }
}

/// The text without the letters `c` at its end.
pub fn drop_trailing<'a>(s: &'a str, c: char) -> (t: &'a str)
    ensures
        t@ == without_trailing(s@, c),
{
    let v = chars_of(s);
    let mut to: usize = v.len();
    proof {
        assert(s@.subrange(0, s@.len() as int) =~= s@);
    }
    while to > 0 && v[to - 1] == c
        invariant
            to <= v.len(),
            v@ == s@,
            without_trailing(s@, c) == without_trailing(s@.subrange(0, to as int), c),
        decreases to,
    {
        proof {
            assert(s@.subrange(0, to as int).drop_last() =~= s@.subrange(0, to - 1));
        }
        to = to - 1;
    }
    s.substring_char(0, to)
}

/// The number that a text of decimal digits spells. A text without digits, or with anything else in
/// it, spells none.
pub open spec fn digits_value(s: Seq<char>) -> Option<nat>
    decreases s.len(),
{
    if s.len() == 0 || !('0' <= s.last() <= '9') {
        None
    } else if s.len() == 1 {
        Some((s[0] as u32 - '0' as u32) as nat)
    } else {
        match digits_value(s.drop_last()) {
            Some(n) => Some((10 * n + (s.last() as u32 - '0' as u32)) as nat),
            None => None,
        }
    }
}

/// The `u64` that a text spells: decimal digits, with at most one plus sign before them.
pub open spec fn u64_value(s: Seq<char>) -> Option<u64> {
    let digits = if s.len() > 0 && s[0] == '+' {
        s.subrange(1, s.len() as int)
    } else {
        s
    };
    match digits_value(digits) {
        Some(n) => if n <= u64::MAX {
            Some(n as u64)
        } else {
            None
        },
        None => None,
    }
}

/// A number only grows with further digits, and what is none stays none.
proof fn digits_grow(s: Seq<char>, k: int)
    requires
        1 <= k <= s.len(),
    ensures
        digits_value(s.take(k)) is None ==> digits_value(s) is None,
        digits_value(s) is Some ==> digits_value(s)->0 >= digits_value(s.take(k))->0,
    decreases s.len() - k,
{
    if k == s.len() {
        assert(s.take(k) =~= s);
    } else {
        assert(s.take(k + 1).drop_last() =~= s.take(k));
        digits_grow(s, k + 1);
    }
}

/// The `u64` that a text spells.
pub fn parse_u64(s: &str) -> (r: Option<u64>)
    ensures
        r == u64_value(s@),
{
    let v = chars_of(s);
    let from: usize = if v.len() > 0 && v[0] == '+' {
        1
    } else {
        0
    };
    let ghost digits = s@.subrange(from as int, s@.len() as int);
    proof {
        if from == 0 {
            assert(digits =~= s@);
        }
    }
    if from == v.len() {
        return None;
    }
    let mut n: u64 = 0;
    let mut i: usize = from;
    while i < v.len()
        invariant
            from <= i <= v.len(),
            v@ == s@,
            digits == s@.subrange(from as int, s@.len() as int),
            u64_value(s@) == (match digits_value(digits) {
                Some(n) => if n <= u64::MAX {
                    Some(n as u64)
                } else {
                    None
                },
                None => None,
            }),
            i > from ==> digits_value(digits.take(i - from)) == Some(n as nat),
            i == from ==> n == 0,
        decreases v.len() - i,
    {
        let c = v[i];
        let ghost part = digits.take(i + 1 - from);
        proof {
            assert(part.last() == c);
            assert(part.drop_last() =~= digits.take(i - from));
            digits_grow(digits, i + 1 - from);
        }
        if !('0' <= c && c <= '9') {
            return None;
        }
        let d: u64 = (c as u32 - '0' as u32) as u64;
        match n.checked_mul(10) {
            Some(ten) => match ten.checked_add(d) {
                Some(next) => {
                    n = next;
                },
                None => {
                    return None;
                },
            },
            None => {
                return None;
            },
        }
        i = i + 1;
    }
    proof {
        assert(digits.take(digits.len() as int) =~= digits);
    }
    Some(n)
}

/// The text that `{:?}` makes of a string: in quotes, with escapes where they are needed.
pub uninterp spec fn debug_quoted(s: Seq<char>) -> Seq<char>;

/// Formats a string with `{:?}`. The contract names what `<str as Debug>::fmt` of the standard
/// library writes; it is taken to depend on the characters of the string alone.
#[verifier::external_body]
pub(crate) fn quoted(s: &str) -> (r: String)
    ensures
        r@ == debug_quoted(s@),
{
    format!("{:?}", s)
}

} // verus!
