//! Decimal numbers and plain text pieces shared by the bot's messages and
//! file names.

use vstd::prelude::*;
use vstd::string::StrSliceExecFns;
use vstd::string::StringExecFns;

verus! {

/// The character that writes the decimal digit `d` (`0 <= d < 10`).
pub open spec fn digit_char(d: int) -> char {
    if d == 0 {
        '0'
    } else if d == 1 {
        '1'
    } else if d == 2 {
        '2'
    } else if d == 3 {
        '3'
    } else if d == 4 {
        '4'
    } else if d == 5 {
        '5'
    } else if d == 6 {
        '6'
    } else if d == 7 {
        '7'
    } else if d == 8 {
        '8'
    } else {
        '9'
    }
}

/// `n` written in decimal, most significant digit first, without leading zeros.
pub open spec fn dec(n: nat) -> Seq<char>
    decreases n,
{
    if n < 10 {
        seq![digit_char(n as int)]
    } else {
        dec(n / 10).push(digit_char((n % 10) as int))
    }
}

/// An ASCII decimal digit.
pub open spec fn is_digit(c: char) -> bool {
    '0' <= c && c <= '9'
}

/// The value of an ASCII decimal digit.
pub open spec fn digit_value(c: char) -> int {
    c as int - '0' as int
}

/// Every character of `s` is an ASCII decimal digit.
pub open spec fn all_digits(s: Seq<char>) -> bool {
    forall|i: int| 0 <= i < s.len() ==> #[trigger] is_digit(s[i])
}

/// The number that the digits `s` write in decimal.
pub open spec fn digits_value(s: Seq<char>) -> int
    decreases s.len(),
{
    if s.len() == 0 {
        0
    } else {
        digits_value(s.drop_last()) * 10 + digit_value(s.last())
    }
}

/// What remains of `s` once one leading `+` sign, if any, is taken off.
pub open spec fn unsigned_digits(s: Seq<char>) -> Seq<char> {
    if s.len() > 0 && s[0] == '+' {
        s.drop_first()
    } else {
        s
    }
}

/// The value of `s` read as an unsigned 64-bit decimal number: an optional
/// `+`, then at least one ASCII digit and nothing else, of a value that fits.
pub open spec fn parse_u64_spec(s: Seq<char>) -> Option<u64> {
    let d = unsigned_digits(s);
    if d.len() > 0 && all_digits(d) && digits_value(d) <= u64::MAX {
        Some(digits_value(d) as u64)
    } else {
        None
    }
}

proof fn lemma_digit_char(d: int)
    requires
        0 <= d < 10,
    ensures
        is_digit(digit_char(d)),
        digit_value(digit_char(d)) == d,
{
}

/// The decimal writing of `n` is a non-empty run of digits whose value is `n`.
pub proof fn lemma_dec_digits(n: nat)
    ensures
        dec(n).len() > 0,
        all_digits(dec(n)),
        digits_value(dec(n)) == n,
    decreases n,
{
    if n < 10 {
        lemma_digit_char(n as int);
        assert(dec(n).drop_last() =~= Seq::<char>::empty());
        assert(digits_value(Seq::<char>::empty()) == 0);
    } else {
        lemma_dec_digits(n / 10);
        lemma_digit_char((n % 10) as int);
        let s = dec(n);
        assert(s.drop_last() =~= dec(n / 10));
        assert(s.last() == digit_char((n % 10) as int));
        assert((n / 10) * 10 + n % 10 == n);
        assert forall|i: int| 0 <= i < s.len() implies #[trigger] is_digit(s[i]) by {
            if i < s.len() - 1 {
                assert(s[i] == dec(n / 10)[i]);
            }
        }
    }
}

/// The decimal writing of `n` is the one `n.to_string()` gives: a non-empty
/// run of ASCII digits of value `n`, with no leading zero unless `n` is zero,
/// which is written `0`.
pub proof fn lemma_dec_canonical(n: nat)
    ensures
        dec(n).len() > 0,
        all_digits(dec(n)),
        digits_value(dec(n)) == n,
        n == 0 ==> dec(n) == seq!['0'],
        n > 0 ==> dec(n)[0] != '0',
    decreases n,
{
    lemma_dec_digits(n);
    if n < 10 {
        lemma_digit_char(n as int);
        assert(digit_value(dec(n)[0]) == n);
        if n == 0 {
            assert(dec(n) =~= seq!['0']);
        }
    } else {
        lemma_dec_canonical(n / 10);
        lemma_dec_digits(n / 10);
        assert(dec(n)[0] == dec(n / 10)[0]);
    }
}

/// Reading a text as an unsigned 64-bit number: after at most one leading
/// `+`, a non-empty run of ASCII digits whose value fits gives that value,
/// and anything else gives nothing.
pub proof fn lemma_parse_u64_reads_digits(s: Seq<char>)
    ensures
        s.len() > 0 && s[0] == '+' && s.len() > 1 && all_digits(s.drop_first()) && digits_value(
            s.drop_first(),
        ) <= u64::MAX ==> parse_u64_spec(s) == Some(digits_value(s.drop_first()) as u64),
        s.len() > 0 && all_digits(s) && digits_value(s) <= u64::MAX ==> parse_u64_spec(s) == Some(
            digits_value(s) as u64,
        ),
        parse_u64_spec(s) matches Some(v) ==> (all_digits(s) && s.len() > 0 && v == digits_value(s))
            || (s.len() > 1 && s[0] == '+' && all_digits(s.drop_first()) && v == digits_value(
            s.drop_first(),
        )),
        s.len() == 0 ==> parse_u64_spec(s) is None,
        s == seq!['+'] ==> parse_u64_spec(s) is None,
        (exists|i: int| 0 < i < s.len() && !is_digit(#[trigger] s[i])) ==> parse_u64_spec(s) is None,
{
    if s.len() > 0 && all_digits(s) {
        assert(is_digit(s[0]));
        lemma_digits_value_nonneg(s);
    }
    if s.len() > 0 && all_digits(s.drop_first()) {
        lemma_digits_value_nonneg(s.drop_first());
    }
    if exists|i: int| 0 < i < s.len() && !is_digit(#[trigger] s[i]) {
        let i = choose|i: int| 0 < i < s.len() && !is_digit(#[trigger] s[i]);
        if s[0] == '+' {
            assert(s.drop_first()[i - 1] == s[i]);
        }
    }
}

/// Two numbers with the same decimal writing are equal.
pub proof fn lemma_dec_injective(a: nat, b: nat)
    requires
        dec(a) == dec(b),
    ensures
        a == b,
{
    lemma_dec_digits(a);
    lemma_dec_digits(b);
}

/// Reading back what `decimal` writes gives the number again.
pub proof fn lemma_parse_dec(n: u64)
    ensures
        parse_u64_spec(dec(n as nat)) == Some(n),
{
    lemma_dec_digits(n as nat);
    lemma_digit_char(0);
    assert(is_digit(dec(n as nat)[0]));
    assert(unsigned_digits(dec(n as nat)) == dec(n as nat));
}

/// Digits never lose value when more digits follow them.
proof fn lemma_digits_value_prefix(s: Seq<char>, k: int)
    requires
        0 <= k <= s.len(),
        all_digits(s),
    ensures
        0 <= digits_value(s.take(k)) <= digits_value(s),
    decreases s.len(),
{
    if k == s.len() {
        assert(s.take(k) =~= s);
        lemma_digits_value_nonneg(s);
    } else {
        let t = s.drop_last();
        assert(all_digits(t)) by {
            assert forall|i: int| 0 <= i < t.len() implies #[trigger] is_digit(t[i]) by {
                assert(is_digit(s[i]));
            }
        }
        lemma_digits_value_prefix(t, k);
        assert(t.take(k) =~= s.take(k));
        assert(is_digit(s[s.len() - 1]));
    }
}

proof fn lemma_digits_step(d: Seq<char>, k: int)
    requires
        0 <= k < d.len(),
        all_digits(d.take(k)),
        is_digit(d[k]),
    ensures
        all_digits(d.take(k + 1)),
        digits_value(d.take(k + 1)) == digits_value(d.take(k)) * 10 + digit_value(d[k]),
{
    let t = d.take(k + 1);
    assert(t.drop_last() =~= d.take(k));
    assert forall|j: int| 0 <= j < k + 1 implies #[trigger] is_digit(t[j]) by {
        if j < k {
            assert(t[j] == d.take(k)[j]);
        }
    }
}

proof fn lemma_digits_value_nonneg(s: Seq<char>)
    requires
        all_digits(s),
    ensures
        digits_value(s) >= 0,
    decreases s.len(),
{
    if s.len() > 0 {
        let t = s.drop_last();
        assert forall|i: int| 0 <= i < t.len() implies #[trigger] is_digit(t[i]) by {
            assert(is_digit(s[i]));
        }
        lemma_digits_value_nonneg(t);
        assert(is_digit(s[s.len() - 1]));
    }
}

fn digit_str(d: u64) -> (s: &'static str)
    requires
        d < 10,
    ensures
        s@ == seq![digit_char(d as int)],
{
    proof {
        reveal_strlit("0");
        reveal_strlit("1");
        reveal_strlit("2");
        reveal_strlit("3");
        reveal_strlit("4");
        reveal_strlit("5");
        reveal_strlit("6");
        reveal_strlit("7");
        reveal_strlit("8");
        reveal_strlit("9");
    }
    if d == 0 {
        "0"
    } else if d == 1 {
        "1"
    } else if d == 2 {
        "2"
    } else if d == 3 {
        "3"
    } else if d == 4 {
        "4"
    } else if d == 5 {
        "5"
    } else if d == 6 {
        "6"
    } else if d == 7 {
        "7"
    } else if d == 8 {
        "8"
    } else {
        "9"
    }
}

/// Writes `n` in decimal, as `n.to_string()` does.
pub fn decimal(n: u64) -> (s: String)
    ensures
        s@ == dec(n as nat),
    decreases n,
{
    if n < 10 {
        digit_str(n).to_owned()
    } else {
        let mut s = decimal(n / 10);
        s.append(digit_str(n % 10));
        s
    }
}

/// Reads `s` as an unsigned 64-bit decimal number, as `s.parse::<u64>().ok()`
/// does: `None` unless `s` is an optional `+` followed by one or more ASCII
/// digits whose value fits in a `u64`.
pub fn parse_u64(s: &str) -> (r: Option<u64>)
    ensures
        r == parse_u64_spec(s@),
{
    let len = s.unicode_len();
    let mut start: usize = 0;
    if len > 0 && s.get_char(0) == '+' {
        start = 1;
    }
    let ghost d = unsigned_digits(s@);
    assert(d =~= s@.subrange(start as int, len as int));
    if start == len {
        return None;
    }
    let mut acc: u64 = 0;
    let mut i: usize = start;
    while i < len
        invariant
            start <= i <= len,
            len == s@.len(),
            start < len,
            d == s@.subrange(start as int, len as int),
            d == unsigned_digits(s@),
            all_digits(d.take(i - start)),
            acc == digits_value(d.take(i - start)),
        decreases len - i,
    {
        let c = s.get_char(i);
        let ghost k: int = i - start;
        assert(d[k] == c);
        if !('0' <= c && c <= '9') {
            assert(!is_digit(d[k]));
            assert(!all_digits(d));
            return None;
        }
        let v: u64 = (c as u32 - '0' as u32) as u64;
        proof {
            lemma_digits_step(d, k);
        }
        let next = match acc.checked_mul(10) {
            Some(m) => m.checked_add(v),
            None => None,
        };
        match next {
            Some(n) => {
                acc = n;
            },
            None => {
                proof {
                    assert(acc * 10 + v > u64::MAX);
                    if all_digits(d) {
                        lemma_digits_value_prefix(d, k + 1);
                    }
                }
                return None;
            },
        }
        i = i + 1;
    }
    assert(d.take(len - start) =~= d);
    Some(acc)
}

/// Tells whether two strings hold the same characters.
pub fn str_equal(a: &str, b: &str) -> (r: bool)
    ensures
        r == (a@ == b@),
{
    let n = a.unicode_len();
    if n != b.unicode_len() {
        return false;
    }
    let mut i: usize = 0;
    while i < n
        invariant
            n == a@.len(),
            n == b@.len(),
            i <= n,
            forall|j: int| 0 <= j < i ==> a@[j] == b@[j],
        decreases n - i,
    {
        if a.get_char(i) != b.get_char(i) {
            return false;
        }
        i = i + 1;
    }
    assert(a@ =~= b@);
    true
}

/// The name `<channel>-<user>.<ext>` under which a run of `user` in
/// `channel` keeps a file with extension `ext`.
pub open spec fn file_name(channel: u64, user: u64, ext: Seq<char>) -> Seq<char> {
    dec(channel as nat) + seq!['-'] + dec(user as nat) + seq!['.'] + ext
}

/// Writes `<channel>-<user>.<ext>`, as `format!("{}-{}.{}", channel, user, ext)` does.
pub fn file_name_of(channel: u64, user: u64, ext: &str) -> (s: String)
    ensures
        s@ == file_name(channel, user, ext@),
{
    proof {
        reveal_strlit("-");
        reveal_strlit(".");
    }
    let mut s = decimal(channel);
    s.append("-");
    let u = decimal(user);
    s.append(u.as_str());
    s.append(".");
    s.append(ext);
    s
}

/// Two runs of digits, each followed by the same non-digit separator,
/// agree on the digits and on what follows when the whole texts agree.
pub proof fn lemma_split_at_separator(
    a1: Seq<char>,
    r1: Seq<char>,
    a2: Seq<char>,
    r2: Seq<char>,
    sep: char,
)
    requires
        all_digits(a1),
        all_digits(a2),
        !is_digit(sep),
        a1 + seq![sep] + r1 == a2 + seq![sep] + r2,
    ensures
        a1 == a2,
        r1 == r2,
{
    let t1 = a1 + seq![sep] + r1;
    let t2 = a2 + seq![sep] + r2;
    if a1.len() < a2.len() {
        assert(t1[a1.len() as int] == sep);
        assert(t2[a1.len() as int] == a2[a1.len() as int]);
        assert(is_digit(a2[a1.len() as int]));
    } else if a2.len() < a1.len() {
        assert(t2[a2.len() as int] == sep);
        assert(t1[a2.len() as int] == a1[a2.len() as int]);
        assert(is_digit(a1[a2.len() as int]));
    }
    assert(a1.len() == a2.len());
    assert(a1 =~= t1.take(a1.len() as int));
    assert(a2 =~= t2.take(a2.len() as int));
    assert(r1 =~= t1.skip(a1.len() as int + 1));
    assert(r2 =~= t2.skip(a2.len() as int + 1));
}

/// Different channels, users or extensions never share a file name.
pub proof fn lemma_file_name_injective(
    c1: u64,
    u1: u64,
    e1: Seq<char>,
    c2: u64,
    u2: u64,
    e2: Seq<char>,
)
    requires
        file_name(c1, u1, e1) == file_name(c2, u2, e2),
    ensures
        c1 == c2,
        u1 == u2,
        e1 == e2,
{
    lemma_dec_digits(c1 as nat);
    lemma_dec_digits(c2 as nat);
    lemma_dec_digits(u1 as nat);
    lemma_dec_digits(u2 as nat);
    let tail1 = dec(u1 as nat) + seq!['.'] + e1;
    let tail2 = dec(u2 as nat) + seq!['.'] + e2;
    assert(file_name(c1, u1, e1) =~= dec(c1 as nat) + seq!['-'] + tail1);
    assert(file_name(c2, u2, e2) =~= dec(c2 as nat) + seq!['-'] + tail2);
    lemma_split_at_separator(dec(c1 as nat), tail1, dec(c2 as nat), tail2, '-');
    lemma_split_at_separator(dec(u1 as nat), e1, dec(u2 as nat), e2, '.');
    lemma_dec_injective(c1 as nat, c2 as nat);
    lemma_dec_injective(u1 as nat, u2 as nat);
}

/// How Discord mentions a user: `<@user>`.
pub open spec fn mention_text(user: u64) -> Seq<char> {
    seq!['<', '@'] + dec(user as nat) + seq!['>']
}

/// A mention of `user`, as serenity's `MessageBuilder::user` writes it.
pub fn mention(user: u64) -> (s: String)
    ensures
        s@ == mention_text(user),
{
    proof {
        reveal_strlit("<@");
        reveal_strlit(">");
    }
    let mut s = "<@".to_owned();
    let d = decimal(user);
    s.append(d.as_str());
    s.append(">");
    s
}

/// A mention names its user: `<@`, the user's id in decimal without a
/// leading zero, which reads back as the id, and `>`.
pub proof fn lemma_mention_names_user(user: u64)
    ensures
        mention_text(user).len() >= 4,
        mention_text(user)[0] == '<',
        mention_text(user)[1] == '@',
        mention_text(user)[mention_text(user).len() - 1] == '>',
        parse_u64_spec(mention_text(user).subrange(2, mention_text(user).len() - 1)) == Some(user),
        user > 0 ==> mention_text(user)[2] != '0',
{
    lemma_dec_canonical(user as nat);
    lemma_parse_dec(user);
    let m = mention_text(user);
    assert(m.subrange(2, m.len() - 1) =~= dec(user as nat));
}

/// `content` in bold on a line of its own: `**content**` and a line break.
pub open spec fn bold_line_text(content: Seq<char>) -> Seq<char> {
    seq!['*', '*'] + content + seq!['*', '*', '\n']
}

/// Appends `content` in bold and a line break to `s`, as serenity's
/// `MessageBuilder::push_bold_line` does.
pub fn push_bold_line(s: &mut String, content: &str)
    ensures
        final(s)@ == old(s)@ + bold_line_text(content@),
{
    proof {
        reveal_strlit("**");
        reveal_strlit("**\n");
    }
    s.append("**");
    s.append(content);
    s.append("**\n");
    assert(s@ =~= old(s)@ + bold_line_text(content@));
}

} // verus!
