//! Element references: `e` and a number, shown in snapshots as `[e12]`.
use crate::text::{chars_of, decimal, decimal_is_made_of_digits, text_between};
use vstd::prelude::*;
use vstd::string::*;

verus! {

/// An ASCII digit.
pub open spec fn is_digit(c: char) -> bool {
    '0' <= c && c <= '9'
}

/// `e` followed by at least one digit, and by nothing else.
pub open spec fn is_ref(s: Seq<char>) -> bool {
    &&& s.len() >= 2
    &&& s[0] == 'e'
    &&& forall|i: int| 1 <= i < s.len() ==> is_digit(#[trigger] s[i])
}

/// A reference stands in brackets in `s`, from the `[` at `start` to the `]`
/// at `end`.
pub open spec fn bracketed_ref(s: Seq<char>, start: int, end: int) -> bool {
    &&& 0 <= start < end < s.len()
    &&& s[start] == '['
    &&& s[end] == ']'
    &&& is_ref(s.subrange(start + 1, end))
}

/// A bracketed reference begins at `start`.
pub open spec fn ref_begins(s: Seq<char>, start: int) -> bool {
    exists|end: int| #[trigger] bracketed_ref(s, start, end)
}

/// The first `n` characters of `s`, with an `@` behind each `[` that begins a
/// bracketed reference of `s`.
pub open spec fn marked(s: Seq<char>, n: int) -> Seq<char>
    decreases n,
{
    if n <= 0 {
        Seq::empty()
    } else if ref_begins(s, n - 1) {
        marked(s, n - 1).push('[').push('@')
    } else {
        marked(s, n - 1).push(s[n - 1])
    }
}

/// The snapshot text with every bracketed reference `[e12]` shown as `[@e12]`
/// and every other character as it was.
pub open spec fn normalized(s: Seq<char>) -> Seq<char> {
    marked(s, s.len() as int)
}

/// What a selector names when one leading `@` is left out.
pub open spec fn without_at(selector: Seq<char>) -> Seq<char> {
    if selector.len() > 0 && selector[0] == '@' {
        selector.skip(1)
    } else {
        selector
    }
}

fn is_ref_from(chars: &Vec<char>, from: usize) -> (found: bool)
    requires
        from <= chars@.len(),
    ensures
        found == is_ref(chars@.skip(from as int)),
{
    let ghost tail = chars@.skip(from as int);
    if chars.len() - from < 2 || chars[from] != 'e' {
        return false;
    }
    let mut i: usize = from + 1;
    while i < chars.len()
        invariant
            from < i <= chars@.len(),
            tail == chars@.skip(from as int),
            forall|k: int| 1 <= k < i - from ==> is_digit(#[trigger] tail[k]),
        decreases chars@.len() - i,
    {
        if !(chars[i] >= '0' && chars[i] <= '9') {
            assert(!is_digit(tail[i - from]));
            return false;
        }
        i += 1;
    }
    true
}

/// Whether `value` is an element reference such as `e1` or `e204`.
pub fn is_camofox_ref(value: &str) -> (found: bool)
    ensures
        found == is_ref(value@),
{
    let chars = chars_of(value);
    assert(chars@.skip(0) == chars@);
    is_ref_from(&chars, 0)
}

/// The reference that `selector` names, with or without its leading `@`.
pub fn referenced(selector: &str) -> (found: Option<String>)
    ensures
        is_ref(without_at(selector@)) ==> (found matches Some(name) && name@ == without_at(selector@)),
        !is_ref(without_at(selector@)) ==> found is None,
{
    let chars = chars_of(selector);
    let from: usize = if chars.len() > 0 && chars[0] == '@' { 1 } else { 0 };
    assert(chars@.skip(from as int) == without_at(selector@));
    if is_ref_from(&chars, from) {
        assert(chars@.subrange(from as int, chars@.len() as int) == chars@.skip(from as int));
        Some(text_between(&chars, from, chars.len()))
    } else {
        None
    }
}

fn begins_ref(chars: &Vec<char>, start: usize) -> (found: bool)
    requires
        start < chars@.len(),
    ensures
        found == ref_begins(chars@, start as int),
{
    let ghost s = chars@;
    let ghost at = start as int;
    if chars[start] != '[' || chars.len() - start < 4 || chars[start + 1] != 'e' {
        assert forall|end: int| !#[trigger] bracketed_ref(s, at, end) by {
            if bracketed_ref(s, at, end) {
                let inner = s.subrange(at + 1, end);
                assert(inner[0] == s[at + 1]);
            }
        }
        return false;
    }
    let mut i: usize = start + 2;
    while i < chars.len() && chars[i] >= '0' && chars[i] <= '9'
        invariant
            s == chars@,
            at == start,
            start + 2 <= i <= s.len(),
            forall|k: int| start + 2 <= k < i ==> is_digit(#[trigger] s[k]),
        decreases s.len() - i,
    {
        i += 1;
    }
    let found = i > start + 2 && i < chars.len() && chars[i] == ']';
    proof {
        if found {
            let inner = s.subrange(at + 1, i as int);
            assert forall|k: int| 1 <= k < inner.len() implies is_digit(#[trigger] inner[k]) by {
                assert(inner[k] == s[at + 1 + k]);
            }
            assert(bracketed_ref(s, at, i as int));
        } else {
            assert forall|end: int| !#[trigger] bracketed_ref(s, at, end) by {
                if bracketed_ref(s, at, end) {
                    let inner = s.subrange(at + 1, end);
                    if end < i {
                        if end >= at + 2 {
                            assert(is_digit(s[end]));
                        }
                    } else if end > i {
                        assert(inner[i - at - 1] == s[i as int]);
                        assert(is_digit(inner[i - at - 1]));
                    }
                }
            }
        }
    }
    found
}

/// Rewrites the references of a snapshot the way selectors name them: `[e12]`
/// becomes `[@e12]`. Nothing else changes.
pub fn normalize_snapshot_refs(snapshot: &str) -> (shown: String)
    ensures
        shown@ == normalized(snapshot@),
{
    let chars = chars_of(snapshot);
    let mut shown = String::new();
    let mut i: usize = 0;
    while i < chars.len()
        invariant
            i <= chars@.len(),
            shown@ == marked(chars@, i as int),
        decreases chars@.len() - i,
    {
        if begins_ref(&chars, i) {
            shown.push('[');
            shown.push('@');
        } else {
            shown.push(chars[i]);
        }
        i += 1;
    }
    shown
}

/// What is shown of a prefix is a prefix of what is shown.
proof fn lemma_marked_prefix(s: Seq<char>, n: int, m: int)
    requires
        0 <= n <= m,
    ensures
        n <= marked(s, n).len() <= marked(s, m).len(),
        marked(s, m).take(marked(s, n).len() as int) == marked(s, n),
    decreases m,
{
    if n < m {
        lemma_marked_prefix(s, n, m - 1);
        let shorter = marked(s, m - 1);
        let k = marked(s, n).len() as int;
        assert(marked(s, m).take(k) == shorter.take(k));
    } else {
        assert(marked(s, m).take(marked(s, m).len() as int) == marked(s, m));
        if n > 0 {
            lemma_marked_prefix(s, n - 1, n - 1);
        }
    }
}

/// Where the character at `i` is found in the shown text, and what follows it.
proof fn lemma_marked_at(s: Seq<char>, i: int)
    requires
        0 <= i < s.len(),
    ensures
        marked(s, i).len() < normalized(s).len(),
        normalized(s)[marked(s, i).len() as int] == s[i],
        ref_begins(s, i) ==> {
            &&& marked(s, i + 1).len() == marked(s, i).len() + 2
            &&& marked(s, i).len() + 1 < normalized(s).len()
            &&& normalized(s)[marked(s, i).len() as int + 1] == '@'
        },
        !ref_begins(s, i) ==> marked(s, i + 1).len() == marked(s, i).len() + 1,
{
    let n = s.len() as int;
    let p = marked(s, i).len() as int;
    lemma_marked_prefix(s, i, i + 1);
    lemma_marked_prefix(s, i + 1, n);
    let upto = marked(s, i + 1);
    assert(normalized(s).take(upto.len() as int) == upto);
    assert(normalized(s)[p] == upto[p]);
    if ref_begins(s, i) {
        assert(normalized(s)[p + 1] == upto[p + 1]);
    }
}

/// Every shown character either stands for one of `s`, or is an `@` behind the
/// `[` of a bracketed reference.
proof fn lemma_marked_source(s: Seq<char>, j: int, n: int) -> (i: int)
    requires
        0 <= n <= s.len(),
        0 <= j < marked(s, n).len(),
    ensures
        0 <= i < n,
        marked(s, i).len() == j || (ref_begins(s, i) && marked(s, i).len() + 1 == j),
    decreases n,
{
    if j < marked(s, n - 1).len() {
        lemma_marked_source(s, j, n - 1)
    } else {
        n - 1
    }
}

/// A stretch without `[` is shown as it is.
proof fn lemma_marked_run(s: Seq<char>, i: int, j: int, len: int)
    requires
        0 <= i < s.len(),
        j == marked(s, i + 1).len(),
        0 <= len,
        j + len <= normalized(s).len(),
        forall|k: int| j <= k < j + len ==> #[trigger] normalized(s)[k] != '[',
    ensures
        i + 1 + len <= s.len(),
        marked(s, i + 1 + len).len() == j + len,
        forall|k: int| 0 <= k < len ==> #[trigger] s[i + 1 + k] == normalized(s)[j + k],
    decreases len,
{
    if len > 0 {
        lemma_marked_run(s, i, j, len - 1);
        let at = i + len;
        if at == s.len() {
            assert(false);
        }
        lemma_marked_at(s, at);
        assert(normalized(s)[j + len - 1] == s[at]);
        if ref_begins(s, at) {
            let end = choose|end: int| bracketed_ref(s, at, end);
            assert(bracketed_ref(s, at, end));
        }
        assert forall|k: int| 0 <= k < len implies #[trigger] s[i + 1 + k] == normalized(s)[j + k] by {
            if k == len - 1 {
                assert(i + 1 + k == at);
            }
        }
    }
}

/// A snapshot that shows no bracketed reference is left as it is.
pub proof fn text_without_refs_is_unchanged(s: Seq<char>)
    requires
        forall|i: int| !#[trigger] ref_begins(s, i),
    ensures
        normalized(s) == s,
{
    lemma_marked_plain(s, s.len() as int);
    assert(s.take(s.len() as int) == s);
}

proof fn lemma_marked_plain(s: Seq<char>, n: int)
    requires
        0 <= n <= s.len(),
        forall|i: int| !#[trigger] ref_begins(s, i),
    ensures
        marked(s, n) == s.take(n),
    decreases n,
{
    if n > 0 {
        lemma_marked_plain(s, n - 1);
        assert(s.take(n) == s.take(n - 1).push(s[n - 1]));
    } else {
        assert(s.take(0) == Seq::<char>::empty());
    }
}

/// A normalized snapshot shows no reference without its `@`.
pub proof fn no_unmarked_ref_remains(s: Seq<char>, j: int)
    ensures
        !ref_begins(normalized(s), j),
{
    let out = normalized(s);
    if ref_begins(out, j) {
        let end = choose|end: int| bracketed_ref(out, j, end);
        assert(bracketed_ref(out, j, end));
        let inner = out.subrange(j + 1, end);
        let i = lemma_marked_source(s, j, s.len() as int);
        lemma_marked_at(s, i);
        assert(inner[0] == out[j + 1]);
        let len = end - j;
        assert forall|k: int| j + 1 <= k < j + 1 + len implies #[trigger] out[k] != '[' by {
            if k < end {
                assert(out[k] == inner[k - j - 1]);
                assert(k - j - 1 >= 1 ==> is_digit(inner[k - j - 1]));
            }
        }
        lemma_marked_run(s, i, j + 1, len);
        let source_end = i + len;
        assert(s[i + 1 + (len - 1)] == out[j + 1 + (len - 1)]);
        let source = s.subrange(i + 1, source_end);
        assert forall|k: int| 0 <= k < source.len() implies #[trigger] source[k] == inner[k] by {
            assert(s[i + 1 + k] == out[j + 1 + k]);
        }
        assert(source == inner);
        assert(bracketed_ref(s, i, source_end));
        assert(ref_begins(s, i));
    }
}

/// Normalizing a snapshot that is normalized already changes nothing.
pub proof fn normalizing_twice_is_normalizing_once(s: Seq<char>)
    ensures
        normalized(normalized(s)) == normalized(s),
{
    assert forall|j: int| !#[trigger] ref_begins(normalized(s), j) by {
        no_unmarked_ref_remains(s, j);
    }
    text_without_refs_is_unchanged(normalized(s));
}

/// How many bracketed references begin among the first `n` characters of `s`.
pub open spec fn refs_before(s: Seq<char>, n: int) -> nat
    decreases n,
{
    if n <= 0 {
        0
    } else {
        refs_before(s, n - 1) + if ref_begins(s, n - 1) { 1nat } else { 0nat }
    }
}

proof fn lemma_marked_len(s: Seq<char>, n: int)
    requires
        0 <= n,
    ensures
        marked(s, n).len() == n + refs_before(s, n),
    decreases n,
{
    if n > 0 {
        lemma_marked_len(s, n - 1);
    }
}

/// Normalizing only inserts: every character of the snapshot is still there,
/// moved back by one place for each reference that begins before it, and the
/// text grows by one character for each reference.
pub proof fn normalizing_keeps_every_character(s: Seq<char>, i: int)
    requires
        0 <= i < s.len(),
    ensures
        i + refs_before(s, i) < normalized(s).len(),
        normalized(s)[i + refs_before(s, i)] == s[i],
        normalized(s).len() == s.len() + refs_before(s, s.len() as int),
{
    lemma_marked_len(s, i);
    lemma_marked_len(s, s.len() as int);
    lemma_marked_at(s, i);
}

/// The place of a bracketed reference in the normalized snapshot: `[@`, the
/// reference, `]`.
pub proof fn bracketed_ref_is_shown_with_at(s: Seq<char>, start: int, end: int)
    requires
        bracketed_ref(s, start, end),
    ensures
        ({
            let at = marked(s, start).len() as int;
            &&& at + 2 + (end - start) <= normalized(s).len()
            &&& normalized(s).subrange(at, at + 2 + (end - start)) == seq!['[', '@'] + s.subrange(
                start + 1,
                end + 1,
            )
        }),
{
    let at = marked(s, start).len() as int;
    let inner = s.subrange(start + 1, end);
    assert(ref_begins(s, start));
    lemma_marked_at(s, start);
    lemma_source_run(s, start, end, end - start);
    let shown = normalized(s).subrange(at, at + 2 + (end - start));
    let wanted = seq!['[', '@'] + s.subrange(start + 1, end + 1);
    assert forall|k: int| 0 <= k < wanted.len() implies #[trigger] shown[k] == wanted[k] by {
        if k >= 2 {
            let m = start + 1 + (k - 2);
            lemma_source_run(s, start, end, m - start - 1);
            lemma_marked_at(s, m);
        }
    }
    assert(shown == wanted);
}

proof fn lemma_source_run(s: Seq<char>, start: int, end: int, len: int)
    requires
        bracketed_ref(s, start, end),
        0 <= len <= end - start,
    ensures
        marked(s, start + 1 + len).len() == marked(s, start).len() + 2 + len,
        marked(s, start + 1 + len).len() <= normalized(s).len(),
    decreases len,
{
    let inner = s.subrange(start + 1, end);
    assert(ref_begins(s, start));
    lemma_marked_at(s, start);
    lemma_marked_prefix(s, start + 1 + len, s.len() as int);
    if len > 0 {
        lemma_source_run(s, start, end, len - 1);
        let at = start + len;
        lemma_marked_at(s, at);
        if at < end {
            assert(inner[at - start - 1] == s[at]);
            assert(at - start - 1 >= 1 ==> is_digit(inner[at - start - 1]));
        }
        if ref_begins(s, at) {
            let other = choose|other: int| bracketed_ref(s, at, other);
            assert(bracketed_ref(s, at, other));
        }
    }
}

/// A reference is `e` followed by one or more of the ten digits; nothing else
/// is one.
pub proof fn refs_are_e_and_digits(s: Seq<char>)
    ensures
        is_ref(s) <==> {
            &&& s.len() >= 2
            &&& s[0] == 'e'
            &&& forall|i: int|
                1 <= i < s.len() ==> set![
                    '0', '1', '2', '3', '4', '5', '6', '7', '8', '9',
                ].contains(#[trigger] s[i])
        },
{
}

/// `e` and a number is a reference, whatever the number.
pub proof fn e_and_a_number_is_a_ref(n: nat)
    ensures
        is_ref(seq!['e'] + decimal(n)),
{
    decimal_is_made_of_digits(n);
    let name = seq!['e'] + decimal(n);
    assert forall|i: int| 1 <= i < name.len() implies is_digit(#[trigger] name[i]) by {
        assert(name[i] == decimal(n)[i - 1]);
    }
}

/// What begins a reference in the second of two texts does so in the whole.
proof fn lemma_begins_in_second(a: Seq<char>, b: Seq<char>, k: int)
    requires
        0 <= k < b.len(),
    ensures
        ref_begins(a + b, a.len() + k) == ref_begins(b, k),
{
    let s = a + b;
    let n = a.len() as int;
    if ref_begins(b, k) {
        let end = choose|end: int| bracketed_ref(b, k, end);
        assert(s.subrange(n + k + 1, n + end) == b.subrange(k + 1, end));
        assert(bracketed_ref(s, n + k, n + end));
    }
    let start = n + k;
    if ref_begins(s, start) {
        let end = choose|end: int| bracketed_ref(s, start, end);
        assert(s.subrange(start + 1, end) == b.subrange(k + 1, end - n));
        assert(bracketed_ref(b, k, end - n));
    }
}

/// A `]` at the end of the first of two texts, or a `[` at the beginning of the
/// second, keeps references apart: none stands in both.
proof fn lemma_begins_in_first(a: Seq<char>, b: Seq<char>, k: int)
    requires
        (a.len() > 0 && a.last() == ']') || (b.len() > 0 && b[0] == '['),
        0 <= k < a.len(),
    ensures
        ref_begins(a + b, k) == ref_begins(a, k),
{
    let s = a + b;
    let n = a.len() as int;
    if ref_begins(a, k) {
        let end = choose|end: int| bracketed_ref(a, k, end);
        assert(s.subrange(k + 1, end) == a.subrange(k + 1, end));
        assert(bracketed_ref(s, k, end));
    }
    if ref_begins(s, k) {
        let end = choose|end: int| bracketed_ref(s, k, end);
        let inner = s.subrange(k + 1, end);
        if end >= n {
            if k < n - 1 {
                assert(inner[n - 1 - k - 1] == s[n - 1]);
                assert(n - 1 - k - 1 > 0 ==> is_digit(inner[n - 1 - k - 1]));
            }
            if end > n {
                assert(inner[n - k - 1] == s[n]);
                assert(n - k - 1 > 0 ==> is_digit(inner[n - k - 1]));
            }
        }
        assert(end < n);
        assert(s.subrange(k + 1, end) == a.subrange(k + 1, end));
        assert(bracketed_ref(a, k, end));
    }
}

proof fn lemma_marked_joined(a: Seq<char>, b: Seq<char>, n: int)
    requires
        (a.len() > 0 && a.last() == ']') || (b.len() > 0 && b[0] == '['),
        0 <= n <= a.len() + b.len(),
    ensures
        n <= a.len() ==> marked(a + b, n) == marked(a, n),
        n >= a.len() ==> marked(a + b, n) == normalized(a) + marked(b, n - a.len()),
    decreases n,
{
    if n > 0 {
        lemma_marked_joined(a, b, n - 1);
        if n <= a.len() {
            lemma_begins_in_first(a, b, n - 1);
        } else {
            lemma_begins_in_second(a, b, n - 1 - a.len());
        }
    }
}

/// Texts that a `]` or a `[` keeps apart can be normalized one by one.
pub proof fn normalizing_goes_part_by_part(a: Seq<char>, b: Seq<char>)
    requires
        (a.len() > 0 && a.last() == ']') || (b.len() > 0 && b[0] == '['),
    ensures
        normalized(a + b) == normalized(a) + normalized(b),
{
    lemma_marked_joined(a, b, (a.len() + b.len()) as int);
}

proof fn lemma_marked_ref(s: Seq<char>, n: int)
    requires
        bracketed_ref(s, 0, s.len() - 1),
        1 <= n <= s.len(),
    ensures
        marked(s, n) == seq!['[', '@'] + s.subrange(1, n),
    decreases n,
{
    if n == 1 {
        assert(marked(s, 0) == Seq::<char>::empty());
    } else {
        lemma_marked_ref(s, n - 1);
        let inner = s.subrange(1, s.len() - 1);
        if n < s.len() {
            assert(inner[n - 2] == s[n - 1]);
            assert(n - 2 > 0 ==> is_digit(inner[n - 2]));
        }
        assert(!ref_begins(s, n - 1));
        assert(s.subrange(1, n) == s.subrange(1, n - 1).push(s[n - 1]));
    }
}

/// Wherever `[e`, one or more digits and `]` stand in a snapshot, they are shown
/// as `[@e`, the same digits and `]`, and what stands before and behind them is
/// shown as it would be alone.
pub proof fn a_ref_is_marked_wherever_it_stands(
    before: Seq<char>,
    digits: Seq<char>,
    after: Seq<char>,
)
    requires
        digits.len() > 0,
        forall|i: int|
            0 <= i < digits.len() ==> set![
                '0', '1', '2', '3', '4', '5', '6', '7', '8', '9',
            ].contains(#[trigger] digits[i]),
    ensures
        normalized(before + "[e"@ + digits + "]"@ + after) == normalized(before) + "[@e"@ + digits
            + "]"@ + normalized(after),
{
    reveal_strlit("[e");
    reveal_strlit("[@e");
    reveal_strlit("]");
    let shown = "[e"@ + digits + "]"@;
    let name = shown.subrange(1, shown.len() - 1);
    assert forall|i: int| 1 <= i < name.len() implies is_digit(#[trigger] name[i]) by {
        assert(name[i] == digits[i - 1]);
    }
    assert(bracketed_ref(shown, 0, shown.len() - 1));
    lemma_marked_ref(shown, shown.len() as int);
    normalizing_goes_part_by_part(shown, after);
    normalizing_goes_part_by_part(before, shown + after);
    assert(before + "[e"@ + digits + "]"@ + after == before + (shown + after));
    assert(normalized(shown) == "[@e"@ + digits + "]"@);
    assert(normalized(before) + "[@e"@ + digits + "]"@ + normalized(after)
        == normalized(before) + (normalized(shown) + normalized(after)));
}

/// A snapshot in which `[e`, one or more digits and `]` stand nowhere is shown
/// as it is.
pub proof fn a_snapshot_without_refs_is_shown_as_it_is(s: Seq<char>)
    requires
        forall|before: Seq<char>, digits: Seq<char>, after: Seq<char>|
            digits.len() > 0 && (forall|i: int|
                0 <= i < digits.len() ==> set![
                    '0', '1', '2', '3', '4', '5', '6', '7', '8', '9',
                ].contains(#[trigger] digits[i])) ==> s != #[trigger] (before + "[e"@ + digits
                + "]"@ + after),
    ensures
        normalized(s) == s,
{
    reveal_strlit("[e");
    reveal_strlit("]");
    assert forall|start: int| !#[trigger] ref_begins(s, start) by {
        if ref_begins(s, start) {
            let end = choose|end: int| bracketed_ref(s, start, end);
            let name = s.subrange(start + 1, end);
            let before = s.take(start);
            let digits = s.subrange(start + 2, end);
            let after = s.skip(end + 1);
            assert(name[0] == s[start + 1]);
            assert forall|i: int| 0 <= i < digits.len() implies set![
                '0', '1', '2', '3', '4', '5', '6', '7', '8', '9',
            ].contains(#[trigger] digits[i]) by {
                assert(digits[i] == name[i + 1]);
            }
            assert(s == before + "[e"@ + digits + "]"@ + after);
        }
    }
    text_without_refs_is_unchanged(s);
}

} // verus!
