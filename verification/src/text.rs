//! Text the rest of the library is built from: joining, comparing and writing out numbers.

use vstd::prelude::*;

verus! {

/// Whether two optional texts are the same.
pub fn same_text(left: &Option<String>, right: &Option<String>) -> (same: bool)
    ensures
        same == (left.deep_view() == right.deep_view()),
{
    match (left, right) {
        (Some(l), Some(r)) => *l == *r,
        (None, None) => true,
        _ => false,
    }
}

/// Whether two lists hold the same texts in the same order.
pub fn same_texts(left: &Vec<String>, right: &Vec<String>) -> (same: bool)
    ensures
        same == (left.deep_view() == right.deep_view()),
{
    if left.len() != right.len() {
        assert(left.deep_view().len() != right.deep_view().len());
        return false;
    }
    let mut i: usize = 0;
    while i < left.len()
        invariant
            i <= left@.len(),
            left@.len() == right@.len(),
            forall|j: int| 0 <= j < i ==> left.deep_view()[j] == right.deep_view()[j],
        decreases left@.len() - i,
    {
        if left[i] != right[i] {
            assert(left.deep_view()[i as int] != right.deep_view()[i as int]);
            return false;
        }
        i += 1;
    }
    assert(left.deep_view() =~= right.deep_view());
    true
}

/// A copy of an optional text.
pub fn copy_text(text: &Option<String>) -> (copy: Option<String>)
    ensures
        copy == *text,
{
    match text {
        Some(t) => Some(t.clone()),
        None => None,
    }
}

/// A copy of a list of texts.
pub fn copy_texts(texts: &Vec<String>) -> (copy: Vec<String>)
    ensures
        copy@ == texts@,
        copy.deep_view() == texts.deep_view(),
{
    let mut copy: Vec<String> = Vec::new();
    let mut i: usize = 0;
    while i < texts.len()
        invariant
            i <= texts@.len(),
            copy@ == texts@.take(i as int),
        decreases texts@.len() - i,
    {
        copy.push(texts[i].clone());
        assert(texts@.take(i + 1) == texts@.take(i as int).push(texts@[i as int]));
        i += 1;
    }
    assert(texts@.take(i as int) == texts@);
    assert(copy.deep_view() =~= texts.deep_view());
    copy
}

/// The decimal digit `d`.
pub open spec fn digit(d: int) -> char {
    (d + 48) as char
}

/// A number in decimal, without leading zeros.
pub open spec fn decimal_digits(n: nat) -> Seq<char>
    decreases n,
{
    if n < 10 {
        seq![digit(n as int)]
    } else {
        decimal_digits(n / 10).push(digit((n % 10) as int))
    }
}

/// A number in decimal, a minus sign first where it is negative.
pub open spec fn decimal_text(n: int) -> Seq<char> {
    if n < 0 {
        seq!['-'] + decimal_digits((-n) as nat)
    } else {
        decimal_digits(n as nat)
    }
}

fn digit_text(d: u64) -> (text: &'static str)
    requires
        d < 10,
    ensures
        text@ == seq![digit(d as int)],
{
    proof {
        reveal_strlit("0");
        reveal_strlit("1");
        reveal_strlit("2");
        reveal_strlit("3");
        reveal_strlit("4");
        reveal_strlit("5");
        reveal_strlit("6");
        reveal_strlit("7");
        reveal_strlit("8");
        reveal_strlit("9");
    }
    match d {
        0 => "0",
        1 => "1",
        2 => "2",
        3 => "3",
        4 => "4",
        5 => "5",
        6 => "6",
        7 => "7",
        8 => "8",
        _ => "9",
    }
}

fn unsigned_decimal(n: u64) -> (text: String)
    ensures
        text@ == decimal_digits(n as nat),
    decreases n,
{
    if n < 10 {
        digit_text(n).to_owned()
    } else {
        let mut text = unsigned_decimal(n / 10);
        text.append(digit_text(n % 10));
        assert(text@ == decimal_digits((n / 10) as nat).push(digit((n % 10) as int)));
        text
    }
}

/// Writes a number out in decimal.
pub fn decimal(n: i64) -> (text: String)
    ensures
        text@ == decimal_text(n as int),
{
    if n < 0 {
        let mut text = "-".to_owned();
        proof {
            reveal_strlit("-");
        }
        let magnitude: u64 = (-(n + 1)) as u64 + 1;
        text.append(unsigned_decimal(magnitude).as_str());
        assert(text@ == decimal_text(n as int));
        text
    } else {
        unsigned_decimal(n as u64)
    }
}

/// The number that a text of digits stands for, the last digit counting one.
pub open spec fn number_read(text: Seq<char>) -> int
    decreases text.len(),
{
    if text.len() == 0 {
        0
    } else {
        10 * number_read(text.drop_last()) + (text.last() as int - '0' as int)
    }
}

/// Whether a text is how a number from zero on is written: digits only, and no zero in front of
/// another digit.
pub open spec fn is_written_number(text: Seq<char>) -> bool {
    &&& text.len() > 0
    &&& forall|i: int| 0 <= i < text.len() ==> '0' <= #[trigger] text[i] <= '9'
    &&& text.len() > 1 ==> text[0] != '0'
}

proof fn lemma_digits_read_back(n: nat)
    ensures
        is_written_number(decimal_digits(n)),
        number_read(decimal_digits(n)) == n,
        n > 0 ==> decimal_digits(n)[0] != '0',
    decreases n,
{
    let text = decimal_digits(n);
    if n < 10 {
        assert(text.drop_last() =~= Seq::empty());
        assert(number_read(Seq::<char>::empty()) == 0);
        assert(number_read(text) == 10 * number_read(text.drop_last()) + (text.last() as int
            - '0' as int));
    } else {
        lemma_digits_read_back(n / 10);
        assert(text.drop_last() =~= decimal_digits(n / 10));
        assert(text.last() == digit((n % 10) as int));
    }
}

/// A number that is written out reads back as itself: a minus sign where it is negative, and then
/// its magnitude in decimal digits without leading zeros.
pub proof fn decimal_reads_back(n: i64, text: String)
    requires
        call_ensures(decimal, (n,), text),
    ensures
        n >= 0 ==> is_written_number(text@) && number_read(text@) == n,
        n < 0 ==> {
            &&& text@.len() > 0
            &&& text@[0] == '-'
            &&& is_written_number(text@.drop_first())
            &&& number_read(text@.drop_first()) == -n
        },
{
    if n >= 0 {
        lemma_digits_read_back(n as nat);
    } else {
        lemma_digits_read_back((-n) as nat);
        assert(text@.drop_first() =~= decimal_digits((-n) as nat));
    }
}

} // verus!
