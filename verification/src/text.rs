//! Text as the assistant handles it: comparison, copies, and the few
//! operations of the standard library that are taken on trust.

use vstd::prelude::*;
use vstd::string::*;
use vstd::utf8::encode_utf8_decode_utf8;

verus! {

/// The texts that a sequence of strings holds, in order.
pub open spec fn texts(items: Seq<String>) -> Seq<Seq<char>> {
    Seq::new(items.len(), |i: int| items[i]@)
}

/// The texts that a sequence of string slices holds, in order.
pub open spec fn slice_texts(items: Seq<&str>) -> Seq<Seq<char>> {
    Seq::new(items.len(), |i: int| items[i]@)
}

/// What an optional string holds.
pub open spec fn optional_text(item: Option<String>) -> Option<Seq<char>> {
    match item {
        Some(s) => Some(s@),
        None => None,
    }
}

/// What an optional run of bytes holds.
pub open spec fn optional_bytes(item: Option<Vec<u8>>) -> Option<Seq<u8>> {
    match item {
        Some(b) => Some(b@),
        None => None,
    }
}

/// Whether `c` is whitespace: one of the characters to which Unicode gives
/// the property `White_Space`.
pub open spec fn is_space(c: char) -> bool {
    let code = c as u32;
    ||| 0x09 <= code <= 0x0D
    ||| code == 0x20
    ||| code == 0x85
    ||| code == 0xA0
    ||| code == 0x1680
    ||| 0x2000 <= code <= 0x200A
    ||| code == 0x2028
    ||| code == 0x2029
    ||| code == 0x202F
    ||| code == 0x205F
    ||| code == 0x3000
}

/// `text` without the whitespace at its start.
pub open spec fn without_leading_space(text: Seq<char>) -> Seq<char>
    decreases text.len(),
{
    if text.len() > 0 && is_space(text[0]) {
        without_leading_space(text.drop_first())
    } else {
        text
    }
}

/// `text` without the whitespace at its end.
pub open spec fn without_trailing_space(text: Seq<char>) -> Seq<char>
    decreases text.len(),
{
    if text.len() > 0 && is_space(text.last()) {
        without_trailing_space(text.drop_last())
    } else {
        text
    }
}

/// `text` without its leading and trailing whitespace.
pub open spec fn trimmed(text: Seq<char>) -> Seq<char> {
    without_trailing_space(without_leading_space(text))
}

/// The words of `rest`, read behind a word in progress that holds `current`
/// so far: whitespace ends the word in progress, any other character
/// extends it, and the end of the text ends it too.
pub open spec fn words_after(current: Seq<char>, rest: Seq<char>) -> Seq<Seq<char>>
    decreases rest.len(),
{
    let ended = if current.len() > 0 {
        seq![current]
    } else {
        Seq::<Seq<char>>::empty()
    };
    if rest.len() == 0 {
        ended
    } else if is_space(rest[0]) {
        ended + words_after(Seq::empty(), rest.drop_first())
    } else {
        words_after(current.push(rest[0]), rest.drop_first())
    }
}

/// The words of `text`: its runs of characters other than whitespace, in
/// order.
pub open spec fn words(text: Seq<char>) -> Seq<Seq<char>> {
    words_after(Seq::empty(), text)
}

/// The lowercase form of `text`, as `str::to_lowercase` of the standard
/// library gives it.
pub uninterp spec fn lowercased(text: Seq<char>) -> Seq<char>;

/// Every character of `text` is an ASCII character.
pub open spec fn all_ascii(text: Seq<char>) -> bool {
    forall|i: int| 0 <= i < text.len() ==> (text[i] as u32) < 128
}

/// The lowercase form of an ASCII character: the letters `A` to `Z` become
/// `a` to `z`, any other character stays as it is.
pub open spec fn ascii_lower(c: char) -> char {
    if 65 <= c as u32 <= 90 {
        ((c as u32 + 32) as u8) as char
    } else {
        c
    }
}

/// `text` with each character in its ASCII lowercase form.
pub open spec fn ascii_lowercased(text: Seq<char>) -> Seq<char> {
    Seq::new(text.len(), |i: int| ascii_lower(text[i]))
}

/// The lowercase form of `text`: character by character for a text of
/// ASCII characters, and what the standard library gives for any other.
pub open spec fn lowercase_of(text: Seq<char>) -> Seq<char> {
    if all_ascii(text) {
        ascii_lowercased(text)
    } else {
        lowercased(text)
    }
}

/// Calls `char::is_whitespace`. Trusted: the result is `true` exactly for
/// the characters with the Unicode property `White_Space`, which
/// [`is_space`] lists.
#[verifier::external_body]
pub(crate) fn is_whitespace(c: char) -> (space: bool)
    ensures
        space == is_space(c),
{
    c.is_whitespace()
}

/// Calls `str::to_lowercase`. Trusted: the result is named [`lowercased`], a
/// function of the text alone; of a text of ASCII characters it is the text
/// with `A` to `Z` replaced by `a` to `z`. Nothing more is claimed of it.
#[verifier::external_body]
pub(crate) fn to_lowercase(text: &str) -> (out: String)
    ensures
        out@ == lowercased(text@),
        all_ascii(text@) ==> out@ == ascii_lowercased(text@),
{
    text.to_lowercase()
}

/// The lowercase form of `text`.
pub fn lowercase(text: &str) -> (out: String)
    ensures
        out@ == lowercase_of(text@),
{
    to_lowercase(text)
}

/// Whether two strings hold the same text.
pub fn same_text(a: &str, b: &str) -> (same: bool)
    ensures
        same == (a@ == b@),
{
    let x = a.as_bytes();
    let y = b.as_bytes();
    proof {
        encode_utf8_decode_utf8(a@);
        encode_utf8_decode_utf8(b@);
    }
    if x.len() != y.len() {
        return false;
    }
    let mut i: usize = 0;
    while i < x.len()
        invariant
            i <= x.len(),
            x.len() == y.len(),
            x@ == a.spec_bytes(),
            y@ == b.spec_bytes(),
            forall|j: int| 0 <= j < i ==> x@[j] == y@[j],
        decreases x.len() - i,
    {
        if x[i] != y[i] {
            return false;
        }
        i = i + 1;
    }
    assert(x@ =~= y@);
    true
}

/// The items as owned strings.
pub fn owned_texts(items: &[&str]) -> (out: Vec<String>)
    ensures
        texts(out@) == slice_texts(items@),
{
    let mut out: Vec<String> = Vec::new();
    let mut i: usize = 0;
    while i < items.len()
        invariant
            i <= items@.len(),
            out@.len() == i,
            forall|j: int| 0 <= j < i ==> out@[j]@ == items@[j]@,
        decreases items@.len() - i,
    {
        out.push(items[i].to_owned());
        i = i + 1;
    }
    assert(texts(out@) =~= slice_texts(items@));
    out
}

/// The items as string slices.
pub fn borrowed_texts(items: &Vec<String>) -> (out: Vec<&str>)
    ensures
        slice_texts(out@) == texts(items@),
{
    let mut out: Vec<&str> = Vec::new();
    let mut i: usize = 0;
    while i < items.len()
        invariant
            i <= items@.len(),
            out@.len() == i,
            forall|j: int| 0 <= j < i ==> out@[j]@ == items@[j]@,
        decreases items@.len() - i,
    {
        out.push(items[i].as_str());
        i = i + 1;
    }
    assert(slice_texts(out@) =~= texts(items@));
    out
}

/// `head` followed by `tail`.
pub fn joined(head: &str, tail: &str) -> (out: String)
    ensures
        out@ == head@ + tail@,
{
    let mut out = head.to_owned();
    out.append(tail);
    out
}

/// A copy of `bytes`.
pub fn copy_bytes(bytes: &Vec<u8>) -> (out: Vec<u8>)
    ensures
        out@ == bytes@,
{
    let mut out: Vec<u8> = Vec::new();
    let mut i: usize = 0;
    while i < bytes.len()
        invariant
            i <= bytes.len(),
            out@ == bytes@.take(i as int),
        decreases bytes.len() - i,
    {
        out.push(bytes[i]);
        i = i + 1;
    }
    assert(bytes@.take(bytes.len() as int) =~= bytes@);
    out
}

/// Whitespace up to index `first`, and none at `first`, is what the start of
/// `text` loses.
proof fn lemma_leading_space(text: Seq<char>, first: int)
    requires
        0 <= first <= text.len(),
        forall|j: int| 0 <= j < first ==> is_space(text[j]),
        first < text.len() ==> !is_space(text[first]),
    ensures
        without_leading_space(text) == text.skip(first),
    decreases first,
{
    if first == 0 {
        assert(text.skip(0) =~= text);
    } else {
        let rest = text.drop_first();
        assert forall|j: int| 0 <= j < first - 1 implies is_space(rest[j]) by {
            assert(rest[j] == text[j + 1]);
        }
        lemma_leading_space(rest, first - 1);
        assert(rest.skip(first - 1) =~= text.skip(first));
    }
}

/// Whitespace from index `end` on, and none before `end`, is what the end of
/// `text` loses.
proof fn lemma_trailing_space(text: Seq<char>, end: int)
    requires
        0 <= end <= text.len(),
        forall|j: int| end <= j < text.len() ==> is_space(text[j]),
        end > 0 ==> !is_space(text[end - 1]),
    ensures
        without_trailing_space(text) == text.take(end),
    decreases text.len() - end,
{
    if end == text.len() {
        assert(text.take(end) =~= text);
    } else {
        let rest = text.drop_last();
        lemma_trailing_space(rest, end);
        assert(rest.take(end) =~= text.take(end));
    }
}

/// `text` without its leading and trailing whitespace.
pub fn trim(text: &str) -> (out: &str)
    ensures
        out@ == trimmed(text@),
{
    let n = text.unicode_len();
    let mut first: usize = n;
    let mut end: usize = 0;
    let mut i: usize = 0;
    for c in it: text.chars()
        invariant
            it.seq() == text@,
            i == it.index(),
            n == text@.len(),
            first == n ==> end == 0 && forall|j: int| 0 <= j < i ==> is_space(text@[j]),
            first != n ==> first < end <= i && !is_space(text@[first as int]) && !is_space(
                text@[end - 1],
            ) && (forall|j: int| 0 <= j < first ==> is_space(text@[j])) && (forall|j: int|
                end <= j < i ==> is_space(text@[j])),
    {
        if !is_whitespace(c) {
            if first == n {
                first = i;
            }
            end = i + 1;
        }
        i = i + 1;
    }
    if first == n {
        proof {
            lemma_leading_space(text@, n as int);
            assert(text@.skip(n as int) =~= Seq::<char>::empty());
            assert(text@.subrange(0, 0) =~= Seq::<char>::empty());
        }
        text.substring_char(0, 0)
    } else {
        proof {
            lemma_leading_space(text@, first as int);
            let kept = text@.skip(first as int);
            assert forall|j: int| end - first <= j < kept.len() implies is_space(kept[j]) by {
                assert(kept[j] == text@[first + j]);
            }
            assert(kept[end - first - 1] == text@[end - 1]);
            lemma_trailing_space(kept, end - first);
            assert(kept.take(end - first) =~= text@.subrange(first as int, end as int));
        }
        text.substring_char(first, end)
    }
}

/// The words of `line`: its runs of characters other than whitespace.
pub fn split_whitespace(line: &str) -> (out: Vec<String>)
    ensures
        texts(out@) == words(line@),
{
    let n = line.unicode_len();
    let mut out: Vec<String> = Vec::new();
    let mut start: usize = 0;
    let mut inside = false;
    let mut i: usize = 0;
    assert(line@.skip(0) =~= line@);
    assert(texts(out@) =~= Seq::<Seq<char>>::empty());
    assert(texts(out@) + words_after(Seq::empty(), line@.skip(0)) =~= words(line@));
    for c in it: line.chars()
        invariant
            it.seq() == line@,
            i == it.index(),
            n == line@.len(),
            inside ==> start < i,
            words(line@) == texts(out@) + words_after(
                if inside {
                    line@.subrange(start as int, i as int)
                } else {
                    Seq::<char>::empty()
                },
                line@.skip(i as int),
            ),
    {
        let ghost rest = line@.skip(i as int);
        let ghost listed = texts(out@);
        let ghost current = if inside {
            line@.subrange(start as int, i as int)
        } else {
            Seq::<char>::empty()
        };
        proof {
            assert(rest[0] == line@[i as int]);
            assert(rest.drop_first() =~= line@.skip(i + 1));
        }
        if is_whitespace(c) {
            if inside {
                out.push(line.substring_char(start, i).to_owned());
                inside = false;
                assert(texts(out@) =~= listed + seq![current]);
                assert(listed + (seq![current] + words_after(Seq::empty(), rest.drop_first()))
                    =~= (listed + seq![current]) + words_after(Seq::empty(), rest.drop_first()));
            } else {
                assert(Seq::<Seq<char>>::empty() + words_after(Seq::empty(), rest.drop_first())
                    =~= words_after(Seq::empty(), rest.drop_first()));
            }
        } else {
            if !inside {
                start = i;
                inside = true;
            }
            assert(current.push(rest[0]) =~= line@.subrange(start as int, i + 1));
        }
        i = i + 1;
    }
    if inside {
        let ghost listed = texts(out@);
        out.push(line.substring_char(start, n).to_owned());
        assert(texts(out@) =~= listed + seq![line@.subrange(start as int, n as int)]);
    } else {
        assert(texts(out@) + Seq::<Seq<char>>::empty() =~= texts(out@));
    }
    out
}

/// Trimming takes the whitespace around a text away and nothing else: of a
/// text that neither starts nor ends with whitespace, with whitespace before
/// and after it, it leaves that text.
pub proof fn lemma_trimmed_between(before: Seq<char>, core: Seq<char>, after: Seq<char>)
    requires
        forall|i: int| 0 <= i < before.len() ==> is_space(before[i]),
        forall|i: int| 0 <= i < after.len() ==> is_space(after[i]),
        core.len() > 0 ==> !is_space(core[0]) && !is_space(core.last()),
    ensures
        trimmed(before + core + after) == core,
{
    let text = before + core + after;
    let rest = core + after;
    if core.len() == 0 {
        lemma_leading_space(text, text.len() as int);
        assert(text.skip(text.len() as int) =~= Seq::<char>::empty());
        assert(core =~= Seq::<char>::empty());
    } else {
        lemma_leading_space(text, before.len() as int);
        assert(text.skip(before.len() as int) =~= rest);
        lemma_trailing_space(rest, core.len() as int);
        assert(rest.take(core.len() as int) =~= core);
    }
}

/// What trimming leaves neither starts nor ends with whitespace.
pub proof fn lemma_trimmed_ends(text: Seq<char>)
    ensures
        trimmed(text).len() > 0 ==> !is_space(trimmed(text)[0]) && !is_space(
            trimmed(text).last(),
        ),
{
    lemma_leading_kept(text);
    lemma_trailing_kept(without_leading_space(text));
}

/// What is left behind the leading whitespace is the end of the text, and
/// does not start with whitespace.
proof fn lemma_leading_kept(text: Seq<char>)
    ensures
        without_leading_space(text).len() > 0 ==> !is_space(without_leading_space(text)[0]),
        exists|n: int|
            0 <= n <= text.len() && without_leading_space(text) == #[trigger] text.skip(n),
    decreases text.len(),
{
    if text.len() > 0 && is_space(text[0]) {
        let rest = text.drop_first();
        lemma_leading_kept(rest);
        let n = choose|n: int|
            0 <= n <= rest.len() && without_leading_space(rest) == #[trigger] rest.skip(n);
        assert(rest.skip(n) =~= text.skip(n + 1));
    } else {
        assert(text.skip(0) =~= text);
    }
}

/// What is left before the trailing whitespace is the start of the text,
/// keeps its first character, and does not end with whitespace.
proof fn lemma_trailing_kept(text: Seq<char>)
    ensures
        without_trailing_space(text).len() > 0 ==> !is_space(without_trailing_space(text).last())
            && without_trailing_space(text)[0] == text[0],
    decreases text.len(),
{
    if text.len() > 0 && is_space(text.last()) {
        lemma_trailing_kept(text.drop_last());
    }
}

/// `word` holds a character, and none of its characters is whitespace.
pub open spec fn is_word(word: Seq<char>) -> bool {
    word.len() > 0 && forall|j: int| 0 <= j < word.len() ==> !is_space(word[j])
}

/// Every word of a text holds a character, and none of its characters is
/// whitespace.
pub proof fn lemma_words_hold_no_space(text: Seq<char>)
    ensures
        forall|i: int| 0 <= i < words(text).len() ==> is_word(#[trigger] words(text)[i]),
{
    lemma_words_after(Seq::empty(), text);
}

proof fn lemma_words_after(current: Seq<char>, rest: Seq<char>)
    requires
        forall|j: int| 0 <= j < current.len() ==> !is_space(current[j]),
    ensures
        forall|i: int|
            0 <= i < words_after(current, rest).len() ==> is_word(
                #[trigger] words_after(current, rest)[i],
            ),
    decreases rest.len(),
{
    let all = words_after(current, rest);
    let ended = if current.len() > 0 {
        seq![current]
    } else {
        Seq::<Seq<char>>::empty()
    };
    assert forall|i: int| 0 <= i < ended.len() implies is_word(#[trigger] ended[i]) by {
        assert(ended[i] == current);
    }
    if rest.len() == 0 {
        assert(all == ended);
    } else if is_space(rest[0]) {
        let tail = words_after(Seq::empty(), rest.drop_first());
        lemma_words_after(Seq::empty(), rest.drop_first());
        assert(all == ended + tail);
        assert forall|i: int| 0 <= i < all.len() implies is_word(#[trigger] all[i]) by {
            if i < ended.len() {
                assert(all[i] == ended[i]);
            } else {
                assert(all[i] == tail[i - ended.len()]);
            }
        }
    } else {
        let longer = current.push(rest[0]);
        assert forall|j: int| 0 <= j < longer.len() implies !is_space(longer[j]) by {
            if j < current.len() {
                assert(longer[j] == current[j]);
            }
        }
        lemma_words_after(longer, rest.drop_first());
        assert(all == words_after(longer, rest.drop_first()));
    }
}

/// Whether `c` is one of the ten decimal digits.
pub open spec fn is_digit(c: char) -> bool {
    48 <= c as u32 <= 57
}

/// Every character of `digits` is a decimal digit.
pub open spec fn all_digits(digits: Seq<char>) -> bool {
    forall|i: int| 0 <= i < digits.len() ==> is_digit(digits[i])
}

/// The number that the decimal digits spell.
pub open spec fn digits_value(digits: Seq<char>) -> int
    decreases digits.len(),
{
    if digits.len() == 0 {
        0
    } else {
        10 * digits_value(digits.drop_last()) + (digits.last() as u32 - 48)
    }
}

/// The number that `text` spells: an optional sign, then one decimal digit
/// or more and nothing else, for a number that an `i8` holds. `None` where
/// the text is not of that form or the number is out of range.
pub open spec fn spelled_i8(text: Seq<char>) -> Option<i8> {
    let negative = text.len() > 0 && text[0] == '-';
    let signed = text.len() > 0 && (text[0] == '-' || text[0] == '+');
    let digits = if signed {
        text.drop_first()
    } else {
        text
    };
    let value = if negative {
        -digits_value(digits)
    } else {
        digits_value(digits)
    };
    if digits.len() > 0 && all_digits(digits) && -128 <= value <= 127 {
        Some(value as i8)
    } else {
        None
    }
}

/// More digits never spell a smaller number.
proof fn lemma_digits_grow(digits: Seq<char>, n: int)
    requires
        all_digits(digits),
        0 <= n <= digits.len(),
    ensures
        0 <= digits_value(digits.take(n)) <= digits_value(digits),
    decreases digits.len(),
{
    if digits.len() == 0 {
        assert(digits.take(n) =~= digits);
    } else if n == digits.len() {
        assert(digits.take(n) =~= digits);
        lemma_digits_grow(digits.drop_last(), n - 1);
        assert(digits.drop_last().take(n - 1) =~= digits.take(n - 1));
        assert(is_digit(digits.last()));
    } else {
        let front = digits.drop_last();
        assert forall|i: int| 0 <= i < front.len() implies is_digit(front[i]) by {
            assert(front[i] == digits[i]);
        }
        lemma_digits_grow(front, n);
        assert(front.take(n) =~= digits.take(n));
        lemma_digits_grow(front, front.len() as int);
        assert(front.take(front.len() as int) =~= front);
        assert(is_digit(digits.last()));
    }
}

/// Reads `text` as a number that an `i8` holds.
pub fn parse_i8(text: &str) -> (number: Option<i8>)
    ensures
        number == spelled_i8(text@),
{
    let ghost whole = text@;
    let mut negative = false;
    let mut signed = false;
    let mut first = true;
    let mut any = false;
    let mut value: i32 = 0;
    for c in it: text.chars()
        invariant
            it.seq() == whole,
            whole == text@,
            first == (it.index() == 0),
            signed == (it.index() > 0 && (whole[0] == '-' || whole[0] == '+')),
            negative == (it.index() > 0 && whole[0] == '-'),
            any == (it.index() > if signed { 1int } else { 0int }),
            all_digits(whole.subrange(if signed { 1int } else { 0int }, it.index() as int)),
            value == digits_value(
                whole.subrange(if signed { 1int } else { 0int }, it.index() as int),
            ),
            0 <= value <= 128,
    {
        let ghost i = it.index() as int;
        let ghost start = if signed { 1int } else { 0int };
        let ghost read = whole.subrange(start, i);
        let ghost digits = if whole[0] == '-' || whole[0] == '+' {
            whole.drop_first()
        } else {
            whole
        };
        let code = c as u32;
        if first && (c == '-' || c == '+') {
            signed = true;
            negative = c == '-';
            assert(whole.subrange(1, 1) =~= whole.subrange(0, 0));
        } else if code >= 48 && code <= 57 {
            let ghost longer = whole.subrange(start, i + 1);
            proof {
                assert(longer.drop_last() =~= read);
                assert(longer.last() == c);
                assert forall|j: int| 0 <= j < longer.len() implies is_digit(longer[j]) by {
                    if j < read.len() {
                        assert(longer[j] == read[j]);
                    }
                }
            }
            value = value * 10 + (code - 48) as i32;
            any = true;
            if value > 128 {
                proof {
                    assert(longer =~= digits.take(i + 1 - start));
                    if all_digits(digits) {
                        lemma_digits_grow(digits, i + 1 - start);
                    }
                }
                return None;
            }
        } else {
            proof {
                assert(digits[i - start] == c);
                assert(!is_digit(digits[i - start]));
            }
            return None;
        }
        first = false;
    }
    let ghost start = if signed { 1int } else { 0int };
    let ghost digits = if signed {
        whole.drop_first()
    } else {
        whole
    };
    assert(whole.subrange(start, whole.len() as int) =~= digits);
    if !any {
        None
    } else if negative {
        Some((-value) as i8)
    } else if value == 128 {
        None
    } else {
        Some(value as i8)
    }
}

} // verus!
