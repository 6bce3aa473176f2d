use vstd::prelude::*;
use vstd::string::{StrSliceExecFns, StringExecFns};

verus! {

/// The character of one decimal digit.
pub open spec fn digit_char(d: nat) -> char {
    (48 + d) as char
}

/// `n` written in decimal, without leading zeros.
pub open spec fn decimal(n: nat) -> Seq<char>
    decreases n,
{
    if n < 10 {
        seq![digit_char(n)]
    } else {
        decimal(n / 10).push(digit_char(n % 10))
    }
}

/// `i` written in decimal, with a leading minus sign where it is negative.
pub open spec fn signed_decimal(i: int) -> Seq<char> {
    if i < 0 {
        seq!['-'] + decimal((-i) as nat)
    } else {
        decimal(i as nat)
    }
}

/// The parts of `parts`, with `sep` between each two neighbours.
pub open spec fn joined(parts: Seq<Seq<char>>, sep: Seq<char>) -> Seq<char>
    decreases parts.len(),
{
    if parts.len() == 0 {
        seq![]
    } else if parts.len() == 1 {
        parts[0]
    } else {
        joined(parts.drop_last(), sep) + sep + parts.last()
    }
}

fn digit_text(d: u64) -> (text: &'static str)
    requires
        d < 10,
    ensures
        text@ == seq![digit_char(d as nat)],
{
    proof {
        reveal_strlit("0");
        reveal_strlit("1");
        reveal_strlit("2");
        reveal_strlit("3");
        reveal_strlit("4");
        reveal_strlit("5");
        reveal_strlit("6");
        reveal_strlit("7");
        reveal_strlit("8");
        reveal_strlit("9");
    }
    let text: &'static str = match d {
        0 => "0",
        1 => "1",
        2 => "2",
        3 => "3",
        4 => "4",
        5 => "5",
        6 => "6",
        7 => "7",
        8 => "8",
        _ => "9",
    };
    assert(text@ =~= seq![digit_char(d as nat)]);
    text
}

/// Writes an unsigned number in decimal.
pub fn decimal_text(n: u64) -> (text: String)
    ensures
        text@ == decimal(n as nat),
    decreases n,
{
    if n < 10 {
        digit_text(n).to_owned()
    } else {
        let mut text = decimal_text(n / 10);
        text.append(digit_text(n % 10));
        assert(text@ =~= decimal(n as nat / 10).push(digit_char(n as nat % 10)));
        text
    }
}

/// Writes a signed number in decimal.
pub fn signed_decimal_text(n: i32) -> (text: String)
    ensures
        text@ == signed_decimal(n as int),
{
    if n < 0 {
        proof {
            reveal_strlit("-");
        }
        let mut text = "-".to_owned();
        let magnitude: u64 = (-(n as i64)) as u64;
        text.append(decimal_text(magnitude).as_str());
        assert(text@ =~= signed_decimal(n as int));
        text
    } else {
        decimal_text(n as u64)
    }
}

/// `part` stands in `text`, at the place `at`.
pub open spec fn stands_at(text: Seq<char>, part: Seq<char>, at: int) -> bool {
    0 <= at && at + part.len() <= text.len() && text.subrange(at, at + part.len()) == part
}

/// `part` stands somewhere in `text`.
pub open spec fn has_part(text: Seq<char>, part: Seq<char>) -> bool {
    exists|at: int| #[trigger] stands_at(text, part, at)
}

fn matches_at(text: &Vec<char>, part: &Vec<char>, at: usize) -> (matches: bool)
    requires
        at + part@.len() <= text@.len(),
    ensures
        matches == stands_at(text@, part@, at as int),
{
    let mut k: usize = 0;
    while k < part.len()
        invariant
            at + part@.len() <= text@.len(),
            text@.len() == text.len(),
            k <= part@.len(),
            forall|j: int| 0 <= j < k ==> text@[at + j] == part@[j],
        decreases part@.len() - k,
    {
        if text[at + k] != part[k] {
            assert(text@.subrange(at as int, at + part@.len())[k as int] != part@[k as int]);
            return false;
        }
        k = k + 1;
    }
    assert(text@.subrange(at as int, at + part@.len()) =~= part@);
    true
}

/// The characters of `text`.
pub fn characters(text: &str) -> (chars: Vec<char>)
    ensures
        chars@ == text@,
{
    let mut chars: Vec<char> = Vec::new();
    let n = text.unicode_len();
    let mut i: usize = 0;
    while i < n
        invariant
            n == text@.len(),
            i <= n,
            chars@ =~= text@.subrange(0, i as int),
        decreases n - i,
    {
        chars.push(text.get_char(i));
        i = i + 1;
    }
    assert(text@.subrange(0, n as int) =~= text@);
    chars
}

/// Whether `part` stands somewhere in `text`.
pub fn contains_text(text: &str, part: &str) -> (found: bool)
    ensures
        found == has_part(text@, part@),
{
    let text_chars = characters(text);
    let part_chars = characters(part);
    if part_chars.len() > text_chars.len() {
        return false;
    }
    let last: usize = text_chars.len() - part_chars.len();
    let mut at: usize = 0;
    while at < last
        invariant
            text_chars@ == text@,
            part_chars@ == part@,
            last == text@.len() - part@.len(),
            at <= last,
            forall|j: int| 0 <= j < at ==> !#[trigger] stands_at(text@, part@, j),
        decreases last - at,
    {
        if matches_at(&text_chars, &part_chars, at) {
            return true;
        }
        at = at + 1;
    }
    matches_at(&text_chars, &part_chars, last)
}

/// Texts by their characters.
pub open spec fn texts(parts: Seq<String>) -> Seq<Seq<char>> {
    parts.map_values(|part: String| part@)
}

/// Joins `parts`, with `sep` between each two neighbours.
pub fn join(parts: &Vec<String>, sep: &str) -> (text: String)
    ensures
        text@ == joined(texts(parts@), sep@),
{
    let mut text = "".to_owned();
    proof {
        reveal_strlit("");
        assert(text@ =~= joined(texts(parts@.subrange(0, 0)), sep@));
    }
    let mut i: usize = 0;
    while i < parts.len()
        invariant
            i <= parts@.len(),
            text@ == joined(texts(parts@.subrange(0, i as int)), sep@),
        decreases parts@.len() - i,
    {
        let ghost before = text@;
        let ghost so_far = texts(parts@.subrange(0, i as int));
        let ghost next = texts(parts@.subrange(0, i + 1));
        assert(next.drop_last() =~= so_far);
        if i > 0 {
            text.append(sep);
        }
        text.append(parts[i].as_str());
        proof {
            if i == 0 {
                assert(so_far =~= seq![]);
                assert(text@ =~= next[0]);
            } else {
                assert(text@ =~= joined(so_far, sep@) + sep@ + next.last());
            }
        }
        i = i + 1;
    }
    assert(parts@.subrange(0, i as int) =~= parts@);
    text
}

/// What `std` writes for a text with `{:?}`: the text between quotes, with its special characters
/// escaped.
pub uninterp spec fn debug_text(text: Seq<char>) -> Seq<char>;

/// `std`'s `Debug` formatting of a `str`. Which characters are escaped, and how, is left to it.
#[verifier::external_body]
pub(crate) fn quoted(text: &str) -> (result: String)
    ensures
        result@ == debug_text(text@),
{
    format!("{:?}", text)
}

/// The number that decimal digits write.
pub open spec fn number_of(digits: Seq<char>) -> int
    decreases digits.len(),
{
    if digits.len() == 0 {
        0
    } else {
        10 * number_of(digits.drop_last()) + (digits.last() as int - '0' as int)
    }
}

proof fn lemma_decimal_is_read_back(n: nat)
    ensures
        decimal(n).len() > 0,
        number_of(decimal(n)) == n,
        forall|i: int| 0 <= i < decimal(n).len() ==> '0' <= #[trigger] decimal(n)[i] <= '9',
        n > 0 ==> decimal(n)[0] != '0',
        n < 10 ==> decimal(n).len() == 1,
    decreases n,
{
    if n < 10 {
        assert(decimal(n).drop_last() =~= seq![]);
        assert(number_of(decimal(n).drop_last()) == 0);
    } else {
        lemma_decimal_is_read_back(n / 10);
        assert(decimal(n).drop_last() =~= decimal(n / 10));
        assert forall|i: int| 0 <= i < decimal(n).len() implies '0' <= #[trigger] decimal(n)[i]
            <= '9' by {
            if i < decimal(n / 10).len() {
                assert(decimal(n)[i] == decimal(n / 10)[i]);
            }
        }
        assert(decimal(n)[0] == decimal(n / 10)[0]);
    }
}

/// A number is written in decimal digits that write it, without leading zeros.
pub proof fn written_number_is_read_back(n: u64, text: String)
    requires
        call_ensures(decimal_text, (n,), text),
    ensures
        number_of(text@) == n,
        text@.len() > 0,
        forall|i: int| 0 <= i < text@.len() ==> '0' <= #[trigger] text@[i] <= '9',
        n > 0 ==> text@[0] != '0',
        n < 10 ==> text@.len() == 1,
{
    lemma_decimal_is_read_back(n as nat);
}

/// A number is written with a minus sign exactly where it is negative, and with the digits of its
/// magnitude behind it.
pub proof fn written_sign_is_read_back(n: i32, text: String)
    requires
        call_ensures(signed_decimal_text, (n,), text),
    ensures
        n >= 0 ==> text@.len() > 0 && text@[0] != '-' && number_of(text@) == n,
        n < 0 ==> text@.len() > 1 && text@[0] == '-' && number_of(text@.skip(1)) == -n,
{
    if n < 0 {
        lemma_decimal_is_read_back((-n) as nat);
        assert(text@.skip(1) =~= decimal((-n) as nat));
    } else {
        lemma_decimal_is_read_back(n as nat);
    }
}

/// The characters of a text are its characters.
pub proof fn characters_are_those_of_the_text(text: &str, chars: Vec<char>)
    requires
        call_ensures(characters, (text,), chars),
    ensures
        chars@ == text@,
{
}

/// A text has a part exactly where it is the part with something, or nothing, before and behind it.
pub proof fn part_has_a_before_and_a_behind(
    text: &str,
    part: &str,
    found: bool,
    before: Seq<char>,
    behind: Seq<char>,
)
    requires
        call_ensures(contains_text, (text, part), found),
    ensures
        text@ == before + part@ + behind ==> found,
        found ==> exists|head: Seq<char>, tail: Seq<char>|
            text@ == #[trigger] (head + part@ + tail),
{
    if text@ == before + part@ + behind {
        let at = before.len() as int;
        assert(text@.subrange(at, at + part@.len()) =~= part@);
        assert(stands_at(text@, part@, at));
    }
    if found {
        let at = choose|at: int| #[trigger] stands_at(text@, part@, at);
        let head = text@.subrange(0, at);
        let tail = text@.subrange(at + part@.len(), text@.len() as int);
        assert(text@ =~= text@.subrange(0, at) + text@.subrange(at, at + part@.len())
            + text@.subrange(at + part@.len(), text@.len() as int));
        assert(text@ == head + part@ + tail);
    }
}

/// Joining nothing gives nothing, joining one text gives that text, and one more text comes behind
/// the others and one more separator.
pub proof fn joining_adds_one_by_one(
    parts: Vec<String>,
    more: Vec<String>,
    last: String,
    sep: &str,
    text: String,
    longer: String,
)
    requires
        more@ == parts@.push(last),
        call_ensures(join, (&parts, sep), text),
        call_ensures(join, (&more, sep), longer),
    ensures
        parts@.len() == 0 ==> text@.len() == 0 && longer@ == last@,
        parts@.len() > 0 ==> longer@ == text@ + sep@ + last@,
{
    assert(texts(more@).drop_last() =~= texts(parts@));
    assert(texts(more@).last() == last@);
}

} // verus!
