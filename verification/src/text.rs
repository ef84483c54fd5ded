use vstd::prelude::*;
use vstd::string::StrSliceExecFns;
use vstd::string::StringExecFns;

verus! {

/// The Unicode White_Space characters, the set that `str::trim` removes
/// from the ends of a string.
pub open spec fn is_blank(c: char) -> bool {
    ||| c == '\u{9}'
    ||| c == '\u{A}'
    ||| c == '\u{B}'
    ||| c == '\u{C}'
    ||| c == '\u{D}'
    ||| c == ' '
    ||| c == '\u{85}'
    ||| c == '\u{A0}'
    ||| c == '\u{1680}'
    ||| c == '\u{2000}'
    ||| c == '\u{2001}'
    ||| c == '\u{2002}'
    ||| c == '\u{2003}'
    ||| c == '\u{2004}'
    ||| c == '\u{2005}'
    ||| c == '\u{2006}'
    ||| c == '\u{2007}'
    ||| c == '\u{2008}'
    ||| c == '\u{2009}'
    ||| c == '\u{200A}'
    ||| c == '\u{2028}'
    ||| c == '\u{2029}'
    ||| c == '\u{202F}'
    ||| c == '\u{205F}'
    ||| c == '\u{3000}'
}

/// Decides `is_blank`.
pub fn blank(c: char) -> (b: bool)
    ensures
        b == is_blank(c),
{
    c == '\u{9}' || c == '\u{A}' || c == '\u{B}' || c == '\u{C}' || c == '\u{D}' || c == ' '
        || c == '\u{85}' || c == '\u{A0}' || c == '\u{1680}' || c == '\u{2000}' || c == '\u{2001}'
        || c == '\u{2002}' || c == '\u{2003}' || c == '\u{2004}' || c == '\u{2005}'
        || c == '\u{2006}' || c == '\u{2007}' || c == '\u{2008}' || c == '\u{2009}'
        || c == '\u{200A}' || c == '\u{2028}' || c == '\u{2029}' || c == '\u{202F}'
        || c == '\u{205F}' || c == '\u{3000}'
}

/// The suffix of `s` that remains once every leading blank is removed.
pub open spec fn trim_leading(s: Seq<char>) -> Seq<char>
    decreases s.len(),
{
    if s.len() > 0 && is_blank(s.first()) {
        trim_leading(s.drop_first())
    } else {
        s
    }
}

/// The prefix of `s` that remains once every trailing blank is removed.
pub open spec fn trim_trailing(s: Seq<char>) -> Seq<char>
    decreases s.len(),
{
    if s.len() > 0 && is_blank(s.last()) {
        trim_trailing(s.drop_last())
    } else {
        s
    }
}

/// `s` with blanks removed from both ends: what `str::trim` returns.
pub open spec fn trimmed(s: Seq<char>) -> Seq<char> {
    trim_trailing(trim_leading(s))
}

/// `s` with every newline character removed.
pub open spec fn drop_newlines(s: Seq<char>) -> Seq<char>
    decreases s.len(),
{
    if s.len() == 0 {
        s
    } else if s.last() == '\n' {
        drop_newlines(s.drop_last())
    } else {
        drop_newlines(s.drop_last()).push(s.last())
    }
}

/// `needle` occurs contiguously somewhere inside `hay`.
pub open spec fn contains_seq(hay: Seq<char>, needle: Seq<char>) -> bool {
    exists|i: int|
        0 <= i && i + needle.len() <= hay.len() && #[trigger] hay.subrange(i, i + needle.len())
            == needle
}

/// No newline character occurs in `s`.
pub open spec fn has_no_newline(s: Seq<char>) -> bool {
    forall|i: int| 0 <= i < s.len() ==> s[i] != '\n'
}

/// What trimming leaves never starts with a blank.
pub proof fn lemma_trim_leading_first(s: Seq<char>)
    ensures
        trim_leading(s).len() > 0 ==> !is_blank(trim_leading(s).first()),
    decreases s.len(),
{
    if s.len() > 0 && is_blank(s.first()) {
        lemma_trim_leading_first(s.drop_first());
    }
}

/// What trimming leaves never ends with a blank.
pub proof fn lemma_trim_trailing_last(s: Seq<char>)
    ensures
        trim_trailing(s).len() > 0 ==> !is_blank(trim_trailing(s).last()),
    decreases s.len(),
{
    if s.len() > 0 && is_blank(s.last()) {
        lemma_trim_trailing_last(s.drop_last());
    }
}

/// Trimming the tail does not move the head.
pub proof fn lemma_trim_trailing_first(s: Seq<char>)
    ensures
        trim_trailing(s).len() > 0 ==> s.len() > 0 && trim_trailing(s).first() == s.first(),
    decreases s.len(),
{
    if s.len() > 0 && is_blank(s.last()) {
        lemma_trim_trailing_first(s.drop_last());
    }
}

/// Law: trimming is idempotent.
pub proof fn lemma_trimmed_idempotent(s: Seq<char>)
    ensures
        trimmed(trimmed(s)) == trimmed(s),
{
    let a = trim_leading(s);
    let b = trim_trailing(a);
    lemma_trim_leading_first(s);
    lemma_trim_trailing_first(a);
    lemma_trim_trailing_last(a);
    assert(trim_leading(b) == b);
    assert(trim_trailing(b) == b);
}

/// Dropping newlines leaves none behind.
pub proof fn lemma_drop_newlines_free(s: Seq<char>)
    ensures
        has_no_newline(drop_newlines(s)),
    decreases s.len(),
{
    if s.len() > 0 {
        lemma_drop_newlines_free(s.drop_last());
    }
}

/// Dropping newlines from newline-free text changes nothing.
pub proof fn lemma_drop_newlines_noop(s: Seq<char>)
    requires
        has_no_newline(s),
    ensures
        drop_newlines(s) == s,
    decreases s.len(),
{
    if s.len() > 0 {
        assert forall|i: int| 0 <= i < s.drop_last().len() implies s.drop_last()[i] != '\n' by {
            assert(s.drop_last()[i] == s[i]);
        }
        lemma_drop_newlines_noop(s.drop_last());
        assert(s.drop_last().push(s.last()) =~= s);
    }
}

/// Trimming newline-free text leaves it newline-free.
pub proof fn lemma_trimmed_no_newline(s: Seq<char>)
    requires
        has_no_newline(s),
    ensures
        has_no_newline(trimmed(s)),
{
    lemma_trim_leading_no_newline(s);
    lemma_trim_trailing_no_newline(trim_leading(s));
}

proof fn lemma_trim_leading_no_newline(s: Seq<char>)
    requires
        has_no_newline(s),
    ensures
        has_no_newline(trim_leading(s)),
    decreases s.len(),
{
    if s.len() > 0 && is_blank(s.first()) {
        assert forall|i: int| 0 <= i < s.drop_first().len() implies s.drop_first()[i] != '\n' by {
            assert(s.drop_first()[i] == s[i + 1]);
        }
        lemma_trim_leading_no_newline(s.drop_first());
    }
}

proof fn lemma_trim_trailing_no_newline(s: Seq<char>)
    requires
        has_no_newline(s),
    ensures
        has_no_newline(trim_trailing(s)),
    decreases s.len(),
{
    if s.len() > 0 && is_blank(s.last()) {
        assert forall|i: int| 0 <= i < s.drop_last().len() implies s.drop_last()[i] != '\n' by {
            assert(s.drop_last()[i] == s[i]);
        }
        lemma_trim_trailing_no_newline(s.drop_last());
    }
}

/// The character for one decimal digit.
pub open spec fn digit_char(d: nat) -> char {
    if d == 0 {
        '0'
    } else if d == 1 {
        '1'
    } else if d == 2 {
        '2'
    } else if d == 3 {
        '3'
    } else if d == 4 {
        '4'
    } else if d == 5 {
        '5'
    } else if d == 6 {
        '6'
    } else if d == 7 {
        '7'
    } else if d == 8 {
        '8'
    } else {
        '9'
    }
}

/// The decimal numeral of `n`, most significant digit first.
pub open spec fn decimal(n: nat) -> Seq<char>
    decreases n,
{
    if n < 10 {
        seq![digit_char(n)]
    } else {
        decimal(n / 10).push(digit_char(n % 10))
    }
}

/// The one-character string for a decimal digit.
fn digit_str(d: u16) -> (r: &'static str)
    requires
        d < 10,
    ensures
        r@ == seq![digit_char(d as nat)],
{
    let s: &'static str = match d {
        0 => "0",
        1 => "1",
        2 => "2",
        3 => "3",
        4 => "4",
        5 => "5",
        6 => "6",
        7 => "7",
        8 => "8",
        _ => "9",
    };
    proof {
        reveal_strlit("0");
        reveal_strlit("1");
        reveal_strlit("2");
        reveal_strlit("3");
        reveal_strlit("4");
        reveal_strlit("5");
        reveal_strlit("6");
        reveal_strlit("7");
        reveal_strlit("8");
        reveal_strlit("9");
        assert(s@ =~= seq![digit_char(d as nat)]);
    }
    s
}

/// Writes `n` as its decimal numeral.
pub fn u16_to_decimal(n: u16) -> (r: String)
    ensures
        r@ == decimal(n as nat),
    decreases n,
{
    if n < 10 {
        digit_str(n).to_owned()
    } else {
        let mut s = u16_to_decimal(n / 10);
        s.append(digit_str(n % 10));
        proof {
            assert(decimal((n / 10) as nat) + seq![digit_char((n % 10) as nat)] =~= decimal(
                n as nat,
            ));
        }
        s
    }
}

/// Whether two strings hold the same characters.
pub fn str_eq(a: &str, b: &str) -> (r: bool)
    ensures
        r == (a@ == b@),
{
    let na = a.unicode_len();
    let nb = b.unicode_len();
    if na != nb {
        return false;
    }
    let mut i: usize = 0;
    while i < na
        invariant
            i <= na,
            na == a@.len(),
            nb == b@.len(),
            na == nb,
            forall|k: int| 0 <= k < i ==> a@[k] == b@[k],
        decreases na - i,
    {
        if a.get_char(i) != b.get_char(i) {
            return false;
        }
        i += 1;
    }
    proof {
        assert(a@ =~= b@);
    }
    true
}

/// Removing leading blanks from a prefix of blanks leaves the rest of the string.
pub proof fn lemma_trim_leading_subrange(s: Seq<char>, k: int)
    requires
        0 <= k <= s.len(),
        forall|i: int| 0 <= i < k ==> is_blank(s[i]),
        k < s.len() ==> !is_blank(s[k]),
    ensures
        trim_leading(s) == s.subrange(k, s.len() as int),
    decreases k,
{
    if k == 0 {
        assert(s.subrange(0, s.len() as int) =~= s);
    } else {
        assert(is_blank(s[0]));
        lemma_trim_leading_subrange(s.drop_first(), k - 1);
        assert(s.drop_first().subrange(k - 1, s.drop_first().len() as int) =~= s.subrange(
            k,
            s.len() as int,
        ));
    }
}

/// Removing trailing blanks from a suffix of blanks leaves the front of the string.
pub proof fn lemma_trim_trailing_subrange(s: Seq<char>, k: int)
    requires
        0 <= k <= s.len(),
        forall|i: int| k <= i < s.len() ==> is_blank(s[i]),
        k > 0 ==> !is_blank(s[k - 1]),
    ensures
        trim_trailing(s) == s.subrange(0, k),
    decreases s.len() - k,
{
    if k == s.len() {
        assert(s.subrange(0, s.len() as int) =~= s);
    } else {
        assert(is_blank(s.last()));
        lemma_trim_trailing_subrange(s.drop_last(), k);
        assert(s.drop_last().subrange(0, k) =~= s.subrange(0, k));
    }
}

} // verus!
