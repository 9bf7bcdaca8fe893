//! Text: trimming, byte lengths, decimal numbers, ordering and comparison.
use vstd::prelude::*;

verus! {

/// The number of bytes that `text` takes in UTF-8.
pub open spec fn byte_len(text: Seq<char>) -> nat {
    vstd::utf8::encode_utf8(text).len()
}

/// The characters with the Unicode property `White_Space`.
pub open spec fn is_white(c: char) -> bool {
    ||| '\u{9}' <= c <= '\u{d}'
    ||| c == ' '
    ||| c == '\u{85}'
    ||| c == '\u{a0}'
    ||| c == '\u{1680}'
    ||| '\u{2000}' <= c <= '\u{200a}'
    ||| c == '\u{2028}'
    ||| c == '\u{2029}'
    ||| c == '\u{202f}'
    ||| c == '\u{205f}'
    ||| c == '\u{3000}'
}

/// `text` without its leading white space.
pub open spec fn without_leading(text: Seq<char>) -> Seq<char>
    decreases text.len(),
{
    if text.len() > 0 && is_white(text[0]) {
        without_leading(text.drop_first())
    } else {
        text
    }
}

/// `text` without its trailing white space.
pub open spec fn without_trailing(text: Seq<char>) -> Seq<char>
    decreases text.len(),
{
    if text.len() > 0 && is_white(text.last()) {
        without_trailing(text.drop_last())
    } else {
        text
    }
}

/// `text` without the white space at its two ends.
pub open spec fn trimmed(text: Seq<char>) -> Seq<char> {
    without_trailing(without_leading(text))
}

/// The optional text, trimmed.
pub open spec fn trimmed_option(text: Option<Seq<char>>) -> Option<Seq<char>> {
    match text {
        Some(text) => Some(trimmed(text)),
        None => None,
    }
}

/// What an optional string holds.
pub open spec fn text_of(text: Option<String>) -> Option<Seq<char>> {
    match text {
        Some(text) => Some(text@),
        None => None,
    }
}

/// What the strings of a list hold.
pub open spec fn texts(list: Seq<String>) -> Seq<Seq<char>> {
    list.map_values(|text: String| text@)
}

/// Whether `text` is one of `list`.
pub open spec fn has_text(list: Seq<String>, text: Seq<char>) -> bool {
    exists|i: int| 0 <= i < list.len() && (#[trigger] list[i])@ == text
}

/// Whether no two strings of `list` hold the same text.
pub open spec fn distinct(list: Seq<String>) -> bool {
    forall|i: int, j: int|
        0 <= i < j < list.len() ==> (#[trigger] list[i])@ != (#[trigger] list[j])@
}

/// Whether `a` comes strictly before `b` in the order of code points.
pub open spec fn text_before(a: Seq<char>, b: Seq<char>) -> bool
    decreases a.len(),
{
    if b.len() == 0 {
        false
    } else if a.len() == 0 {
        true
    } else if a[0] == b[0] {
        text_before(a.drop_first(), b.drop_first())
    } else {
        a[0] < b[0]
    }
}

/// Whether no string of `list` comes strictly before an earlier one.
pub open spec fn in_order(list: Seq<String>) -> bool {
    forall|i: int, j: int|
        0 <= i < j < list.len() ==> !text_before((#[trigger] list[j])@, (#[trigger] list[i])@)
}

/// Whether `sorted` holds the strings of `list` in ascending order.
pub open spec fn sorted_from(sorted: Seq<String>, list: Seq<String>) -> bool {
    &&& in_order(sorted)
    &&& texts(sorted).to_multiset() == texts(list).to_multiset()
}

/// The decimal digit for a number below ten.
pub open spec fn digit(n: int) -> char {
    (('0' as int) + n) as char
}

/// The decimal digits of a natural number.
pub open spec fn decimal(n: nat) -> Seq<char>
    decreases n,
{
    if n < 10 {
        seq![digit(n as int)]
    } else {
        decimal(n / 10).push(digit((n % 10) as int))
    }
}

/// The decimal form of an integer.
pub open spec fn integer_text(n: int) -> Seq<char> {
    if n < 0 {
        seq!['-'] + decimal((-n) as nat)
    } else {
        decimal(n as nat)
    }
}

/// Whether `c` is an ASCII decimal digit.
pub open spec fn is_digit(c: char) -> bool {
    '0' <= c <= '9'
}

/// The number that a run of decimal digits stands for.
pub open spec fn digits_value(text: Seq<char>) -> int
    decreases text.len(),
{
    if text.len() == 0 {
        0
    } else {
        digits_value(text.drop_last()) * 10 + (text.last() as int - '0' as int)
    }
}

/// The characters of a text, in order.
pub fn chars_of(text: &str) -> (chars: Vec<char>)
    ensures
        chars@ == text@,
{
    let mut chars: Vec<char> = Vec::new();
    for c in iter: text.chars()
        invariant
            chars@ == text@.take(iter.index()),
            iter.seq() == text@,
    {
        chars.push(c);
        assert(text@.take(iter.index() + 1) =~= text@.take(iter.index()).push(c));
    }
    assert(text@.take(text@.len() as int) =~= text@);
    chars
}

/// Whether `c` has the Unicode property `White_Space`.
pub fn white(c: char) -> (answer: bool)
    ensures
        answer == is_white(c),
{
    ('\u{9}' <= c && c <= '\u{d}') || c == ' ' || c == '\u{85}' || c == '\u{a0}' || c == '\u{1680}'
        || ('\u{2000}' <= c && c <= '\u{200a}') || c == '\u{2028}' || c == '\u{2029}' || c
        == '\u{202f}' || c == '\u{205f}' || c == '\u{3000}'
}

/// Whether two texts are equal.
pub fn same(a: &str, b: &str) -> (answer: bool)
    ensures
        answer == (a@ == b@),
{
    let left = a.as_bytes();
    let right = b.as_bytes();
    if left.len() != right.len() {
        return false;
    }
    let mut i: usize = 0;
    while i < left.len()
        invariant
            i <= left.len(),
            left.len() == right.len(),
            left@ == vstd::utf8::encode_utf8(a@),
            right@ == vstd::utf8::encode_utf8(b@),
            forall|j: int| 0 <= j < i ==> left@[j] == right@[j],
        decreases left.len() - i,
    {
        if left[i] != right[i] {
            return false;
        }
        i = i + 1;
    }
    proof {
        assert(left@ =~= right@);
        vstd::utf8::encode_utf8_decode_utf8(a@);
        vstd::utf8::encode_utf8_decode_utf8(b@);
    }
    true
}

/// Whether two optional texts are equal.
pub fn same_option(a: &Option<String>, b: &Option<String>) -> (answer: bool)
    ensures
        answer == (text_of(*a) == text_of(*b)),
{
    match (a, b) {
        (Some(a), Some(b)) => same(a.as_str(), b.as_str()),
        (None, None) => true,
        _ => false,
    }
}

/// Whether an optional text is present and equal to `text`.
pub fn is_text(a: &Option<String>, text: &str) -> (answer: bool)
    ensures
        answer == (text_of(*a) == Some(text@)),
{
    match a {
        Some(a) => same(a.as_str(), text),
        None => false,
    }
}

/// Whether `text` is one of `list`.
pub fn contains_text(list: &Vec<String>, text: &str) -> (answer: bool)
    ensures
        answer == has_text(list@, text@),
{
    let mut i: usize = 0;
    while i < list.len()
        invariant
            i <= list.len(),
            forall|j: int| 0 <= j < i ==> (#[trigger] list@[j])@ != text@,
        decreases list.len() - i,
    {
        if same(list[i].as_str(), text) {
            return true;
        }
        i = i + 1;
    }
    false
}

/// Whether no two strings of `list` hold the same text.
pub fn all_distinct(list: &Vec<String>) -> (answer: bool)
    ensures
        answer == distinct(list@),
{
    let mut i: usize = 0;
    while i < list.len()
        invariant
            i <= list.len(),
            forall|k: int, j: int|
                0 <= k < j < i ==> (#[trigger] list@[k])@ != (#[trigger] list@[j])@,
        decreases list.len() - i,
    {
        let mut k: usize = 0;
        while k < i
            invariant
                k <= i < list.len(),
                forall|j: int| 0 <= j < k ==> (#[trigger] list@[j])@ != list@[i as int]@,
            decreases i - k,
        {
            if same(list[k].as_str(), list[i].as_str()) {
                return false;
            }
            k = k + 1;
        }
        i = i + 1;
    }
    true
}

/// The text without the white space at its two ends, as `str::trim` gives it.
pub fn trim(text: &str) -> (result: String)
    ensures
        result@ == trimmed(text@),
{
    let chars = chars_of(text);
    let mut start: usize = 0;
    assert(text@.skip(0) =~= text@);
    while start < chars.len() && white(chars[start])
        invariant
            start <= chars.len(),
            chars@ == text@,
            without_leading(text@) == without_leading(text@.skip(start as int)),
        decreases chars.len() - start,
    {
        assert(text@.skip(start as int).drop_first() =~= text@.skip(start + 1));
        start = start + 1;
    }
    let mut end: usize = chars.len();
    assert(text@.skip(start as int) =~= text@.subrange(start as int, end as int));
    assert(trimmed(text@) == without_trailing(text@.subrange(start as int, end as int)));
    while start < end && white(chars[end - 1])
        invariant
            start <= end <= chars.len(),
            chars@ == text@,
            trimmed(text@) == without_trailing(text@.subrange(start as int, end as int)),
        decreases end,
    {
        assert(text@.subrange(start as int, end as int).drop_last() =~= text@.subrange(
            start as int,
            end - 1,
        ));
        end = end - 1;
    }
    text.substring_char(start, end).to_owned()
}

/// The optional text, trimmed.
pub fn trim_option(text: &Option<String>) -> (result: Option<String>)
    ensures
        text_of(result) == trimmed_option(text_of(*text)),
{
    match text {
        Some(text) => Some(trim(text.as_str())),
        None => None,
    }
}

/// The two texts, one after the other.
pub fn join(a: &str, b: &str) -> (result: String)
    ensures
        result@ == a@ + b@,
{
    let mut result = a.to_owned();
    result.append(b);
    result
}

/// The decimal digit for a number below ten.
fn digit_text(n: u64) -> (result: &'static str)
    requires
        n < 10,
    ensures
        result@ == seq![digit(n as int)],
{
    proof {
        reveal_strlit("0");
        reveal_strlit("1");
        reveal_strlit("2");
        reveal_strlit("3");
        reveal_strlit("4");
        reveal_strlit("5");
        reveal_strlit("6");
        reveal_strlit("7");
        reveal_strlit("8");
        reveal_strlit("9");
    }
    let result = match n {
        0 => "0",
        1 => "1",
        2 => "2",
        3 => "3",
        4 => "4",
        5 => "5",
        6 => "6",
        7 => "7",
        8 => "8",
        _ => "9",
    };
    assert(result@ =~= seq![digit(n as int)]);
    result
}

/// The decimal form of a natural number.
pub fn decimal_text(n: u64) -> (result: String)
    ensures
        result@ == decimal(n as nat),
    decreases n,
{
    if n < 10 {
        digit_text(n).to_owned()
    } else {
        let head = decimal_text(n / 10);
        let tail = digit_text(n % 10);
        let result = join(head.as_str(), tail);
        assert(result@ =~= decimal(n as nat));
        result
    }
}

/// The decimal form of an integer.
pub fn integer_string(n: i64) -> (result: String)
    ensures
        result@ == integer_text(n as int),
{
    if n < 0 {
        let magnitude: u64 = (-(n as i128)) as u64;
        proof {
            reveal_strlit("-");
        }
        let digits = decimal_text(magnitude);
        let result = join("-", digits.as_str());
        assert(result@ =~= integer_text(n as int));
        result
    } else {
        decimal_text(n as u64)
    }
}

/// Whether `a` comes strictly before `b` in the order of code points.
pub fn comes_before(a: &str, b: &str) -> (answer: bool)
    ensures
        answer == text_before(a@, b@),
{
    let left = chars_of(a);
    let right = chars_of(b);
    let mut i: usize = 0;
    assert(a@.skip(0) =~= a@);
    assert(b@.skip(0) =~= b@);
    while i < left.len() && i < right.len() && left[i] == right[i]
        invariant
            i <= left.len(),
            i <= right.len(),
            left@ == a@,
            right@ == b@,
            text_before(a@, b@) == text_before(a@.skip(i as int), b@.skip(i as int)),
        decreases left.len() - i,
    {
        assert(a@.skip(i as int).drop_first() =~= a@.skip(i + 1));
        assert(b@.skip(i as int).drop_first() =~= b@.skip(i + 1));
        i = i + 1;
    }
    if i == right.len() {
        false
    } else if i == left.len() {
        true
    } else {
        left[i] < right[i]
    }
}

/// Text order is transitive.
pub proof fn lemma_text_before_transitive(a: Seq<char>, b: Seq<char>, c: Seq<char>)
    requires
        text_before(a, b),
        text_before(b, c),
    ensures
        text_before(a, c),
    decreases a.len(),
{
    if a.len() > 0 && b.len() > 0 && c.len() > 0 && a[0] == b[0] && b[0] == c[0] {
        lemma_text_before_transitive(a.drop_first(), b.drop_first(), c.drop_first());
    }
}

/// Of two different texts one comes before the other, and never both.
pub proof fn lemma_text_before_total(a: Seq<char>, b: Seq<char>)
    ensures
        a == b ==> !text_before(a, b),
        a != b ==> text_before(a, b) != text_before(b, a),
    decreases a.len(),
{
    if a.len() > 0 && b.len() > 0 && a[0] == b[0] {
        lemma_text_before_total(a.drop_first(), b.drop_first());
        if a.drop_first() == b.drop_first() {
            assert(a =~= b) by {
                assert forall|i: int| 0 <= i < a.len() implies a[i] == b[i] by {
                    if i > 0 {
                        assert(a.drop_first()[i - 1] == b.drop_first()[i - 1]);
                    }
                }
            }
        }
    } else if a.len() == 0 && b.len() == 0 {
        assert(a =~= b);
    }
}

/// The strings of `list` in ascending order of their code points.
pub fn sort_texts(list: &Vec<String>) -> (sorted: Vec<String>)
    ensures
        sorted_from(sorted@, list@),
{
    let mut sorted: Vec<String> = Vec::new();
    let mut i: usize = 0;
    assert(texts(sorted@) =~= texts(list@.take(0)));
    while i < list.len()
        invariant
            i <= list.len(),
            sorted@.len() == i,
            in_order(sorted@),
            texts(sorted@).to_multiset() == texts(list@.take(i as int)).to_multiset(),
        decreases list.len() - i,
    {
        let mut at: usize = sorted.len();
        while at > 0 && comes_before(list[i].as_str(), sorted[at - 1].as_str())
            invariant
                at <= sorted.len(),
                i < list.len(),
                in_order(sorted@),
                forall|k: int|
                    at <= k < sorted@.len() ==> text_before(list@[i as int]@, (#[trigger] sorted@[k])@),
            decreases at,
        {
            at = at - 1;
        }
        let ghost before = sorted@;
        let item = list[i].clone();
        sorted.insert(at, item);
        proof {
            lemma_insert_keeps_order(before, at as int, item);
            lemma_insert_adds(before, at as int, item);
            assert(texts(list@.take(i + 1)) =~= texts(list@.take(i as int)).push(list@[i as int]@));
            broadcast use vstd::seq_lib::group_to_multiset_ensures;
        }
        i = i + 1;
    }
    assert(list@.take(i as int) =~= list@);
    sorted
}

proof fn lemma_insert_keeps_order(list: Seq<String>, at: int, item: String)
    requires
        in_order(list),
        0 <= at <= list.len(),
        at > 0 ==> !text_before(item@, list[at - 1]@),
        forall|k: int| at <= k < list.len() ==> text_before(item@, (#[trigger] list[k])@),
    ensures
        in_order(list.insert(at, item)),
{
    let after = list.insert(at, item);
    assert forall|i: int, j: int| 0 <= i < j < after.len() implies !text_before(
        (#[trigger] after[j])@,
        (#[trigger] after[i])@,
    ) by {
        if i < at && j < at {
            assert(after[i] == list[i] && after[j] == list[j]);
        } else if i < at && j == at {
            assert(after[i] == list[i]);
            if i < at - 1 && text_before(item@, list[i]@) {
                // Either `list[i]` precedes `list[at - 1]` or they are equal.
                lemma_text_before_total(list[i]@, list[at - 1]@);
                if list[i]@ != list[at - 1]@ {
                    lemma_text_before_transitive(item@, list[i]@, list[at - 1]@);
                }
            }
        } else if i < at && j > at {
            assert(after[i] == list[i] && after[j] == list[j - 1]);
        } else if i == at {
            assert(after[j] == list[j - 1]);
            lemma_text_before_total(item@, list[j - 1]@);
        } else {
            assert(after[i] == list[i - 1] && after[j] == list[j - 1]);
        }
    }
}

proof fn lemma_insert_adds(list: Seq<String>, at: int, item: String)
    requires
        0 <= at <= list.len(),
    ensures
        texts(list.insert(at, item)).to_multiset() == texts(list).to_multiset().insert(item@),
{
    assert(texts(list.insert(at, item)) =~= texts(list).insert(at, item@));
    broadcast use vstd::seq_lib::group_to_multiset_ensures;
    vstd::seq_lib::to_multiset_insert(texts(list), at, item@);
}

} // verus!
