//! Small verified helpers over strings and lists of strings.

use vstd::prelude::*;
use vstd::string::*;
use vstd::utf8::*;

verus! {

/// The texts held by a list of strings, in order.
pub open spec fn texts(items: Seq<String>) -> Seq<Seq<char>> {
    items.map_values(|s: String| s@)
}

/// `parts` joined with `sep` between neighbours.
pub open spec fn joined(parts: Seq<Seq<char>>, sep: Seq<char>) -> Seq<char>
    decreases parts.len(),
{
    if parts.len() == 0 {
        Seq::empty()
    } else if parts.len() == 1 {
        parts[0]
    } else {
        joined(parts.drop_last(), sep) + sep + parts.last()
    }
}

/// The value paired with the first occurrence of `key` in `table`.
pub open spec fn assoc(table: Seq<(Seq<char>, Seq<char>)>, key: Seq<char>) -> Option<Seq<char>>
    decreases table.len(),
{
    if table.len() == 0 {
        None
    } else if table[0].0 == key {
        Some(table[0].1)
    } else {
        assoc(table.subrange(1, table.len() as int), key)
    }
}

/// A lookup finds a value exactly when some entry has the key, and the value
/// found is that of such an entry.
pub proof fn lemma_assoc_finds(table: Seq<(Seq<char>, Seq<char>)>, key: Seq<char>)
    ensures
        assoc(table, key) is Some <==> exists|i: int| 0 <= i < table.len() && table[i].0 == key,
        assoc(table, key) is Some ==> exists|i: int|
            0 <= i < table.len() && table[i].0 == key && assoc(table, key) == Some(table[i].1),
    decreases table.len(),
{
    if table.len() > 0 {
        if table[0].0 == key {
            assert(0 <= 0 < table.len() && table[0].0 == key && assoc(table, key) == Some(
                table[0].1,
            ));
        } else {
            let rest = table.subrange(1, table.len() as int);
            lemma_assoc_finds(rest, key);
            if assoc(rest, key) is Some {
                let i = choose|i: int|
                    0 <= i < rest.len() && rest[i].0 == key && assoc(rest, key) == Some(rest[i].1);
                assert(table[i + 1] == rest[i]);
                assert(0 <= i + 1 < table.len() && table[i + 1].0 == key && assoc(table, key)
                    == Some(table[i + 1].1));
            }
            if exists|i: int| 0 <= i < table.len() && table[i].0 == key {
                let i = choose|i: int| 0 <= i < table.len() && table[i].0 == key;
                assert(rest[i - 1] == table[i]);
            }
        }
    }
}

/// The (key, value) texts held by a list of string pairs, in order.
pub open spec fn pairs(items: Seq<(String, String)>) -> Seq<(Seq<char>, Seq<char>)> {
    items.map_values(|e: (String, String)| (e.0@, e.1@))
}

/// Whether two string slices hold the same text.
pub fn same_text(a: &str, b: &str) -> (r: bool)
    ensures
        r == (a@ == b@),
{
    let x = a.as_bytes();
    let y = b.as_bytes();
    proof {
        encode_utf8_decode_utf8(a@);
        encode_utf8_decode_utf8(b@);
    }
    if x.len() != y.len() {
        return false;
    }
    let mut i: usize = 0;
    while i < x.len()
        invariant
            i <= x.len(),
            x.len() == y.len(),
            forall|j: int| 0 <= j < i ==> x@[j] == y@[j],
            x@ == a.spec_bytes(),
            y@ == b.spec_bytes(),
            decode_utf8(a.spec_bytes()) == a@,
            decode_utf8(b.spec_bytes()) == b@,
        decreases x.len() - i,
    {
        if x[i] != y[i] {
            return false;
        }
        i += 1;
    }
    assert(x@ =~= y@);
    true
}

/// An owned copy of `s`.
pub fn owned(s: &str) -> (r: String)
    ensures
        r@ == s@,
{
    String::from_str(s)
}

/// Appends one line to `out`.
pub fn push_line(out: &mut Vec<String>, line: String)
    ensures
        texts(final(out)@) == texts(old(out)@).push(line@),
{
    out.push(line);
    assert(texts(out@) =~= texts(old(out)@).push(line@));
}

/// Appends a copy of `line` to `out`.
pub fn push_text(out: &mut Vec<String>, line: &str)
    ensures
        texts(final(out)@) == texts(old(out)@).push(line@),
{
    push_line(out, String::from_str(line));
}

/// Appends the line `a` followed by `b` to `out`.
pub fn push2(out: &mut Vec<String>, a: &str, b: &str)
    ensures
        texts(final(out)@) == texts(old(out)@).push(a@ + b@),
{
    let mut line = String::from_str(a);
    line.append(b);
    push_line(out, line);
}

/// Appends the line `a` followed by `b` and `c` to `out`.
pub fn push3(out: &mut Vec<String>, a: &str, b: &str, c: &str)
    ensures
        texts(final(out)@) == texts(old(out)@).push(a@ + b@ + c@),
{
    let mut line = String::from_str(a);
    line.append(b);
    line.append(c);
    push_line(out, line);
}

/// Appends the line made of the five parts to `out`.
pub fn push5(out: &mut Vec<String>, a: &str, b: &str, c: &str, d: &str, e: &str)
    ensures
        texts(final(out)@) == texts(old(out)@).push(a@ + b@ + c@ + d@ + e@),
{
    let mut line = String::from_str(a);
    line.append(b);
    line.append(c);
    line.append(d);
    line.append(e);
    push_line(out, line);
}

/// A list of one string.
pub fn list1(a: &str) -> (r: Vec<String>)
    ensures
        texts(r@) == seq![a@],
{
    let mut r: Vec<String> = Vec::new();
    push_text(&mut r, a);
    assert(texts(r@) =~= seq![a@]);
    r
}

/// A list of two strings.
pub fn list2(a: &str, b: &str) -> (r: Vec<String>)
    ensures
        texts(r@) == seq![a@, b@],
{
    let mut r: Vec<String> = Vec::new();
    push_text(&mut r, a);
    push_text(&mut r, b);
    assert(texts(r@) =~= seq![a@, b@]);
    r
}

/// Appends every line of `more` to `out`, in order.
pub fn push_all(out: &mut Vec<String>, more: Vec<String>)
    ensures
        texts(final(out)@) == texts(old(out)@) + texts(more@),
{
    let ghost before = texts(out@);
    let mut more = more;
    let ghost all = texts(more@);
    let n = more.len();
    let mut i: usize = 0;
    while i < n
        invariant
            i <= n,
            n == more.len(),
            texts(out@) == before + all.take(i as int),
            forall|j: int| i <= j < n ==> (#[trigger] more@[j])@ == all[j],
            all.len() == n,
        decreases n - i,
    {
        let mut line = String::new();
        std::mem::swap(&mut line, &mut more[i]);
        push_line(out, line);
        assert(all.take(i as int + 1) =~= all.take(i as int).push(all[i as int]));
        i += 1;
    }
    assert(all.take(n as int) =~= all);
}

/// The texts of `parts` joined with `sep` between neighbours.
pub fn join(parts: &Vec<String>, sep: &str) -> (r: String)
    ensures
        r@ == joined(texts(parts@), sep@),
{
    let mut r = String::new();
    let ghost all = texts(parts@);
    let mut i: usize = 0;
    while i < parts.len()
        invariant
            i <= parts.len(),
            all == texts(parts@),
            r@ == joined(all.take(i as int), sep@),
        decreases parts.len() - i,
    {
        if i > 0 {
            r.append(sep);
        }
        r.append(parts[i].as_str());
        proof {
            let next = all.take(i as int + 1);
            assert(next.drop_last() =~= all.take(i as int));
            assert(next.last() == parts@[i as int]@);
            if i == 0 {
                assert(r@ =~= next[0]);
            }
        }
        i += 1;
    }
    assert(all.take(parts.len() as int) =~= all);
    r
}

/// The text held by an optional string.
pub open spec fn opt_text(o: Option<String>) -> Option<Seq<char>> {
    match o {
        Some(s) => Some(s@),
        None => None,
    }
}

/// Whether some string of `items` holds the text of `key`.
pub fn contains_text(items: &Vec<String>, key: &str) -> (r: bool)
    ensures
        r == texts(items@).contains(key@),
{
    let mut i: usize = 0;
    while i < items.len()
        invariant
            i <= items.len(),
            forall|j: int| 0 <= j < i ==> texts(items@)[j] != key@,
        decreases items.len() - i,
    {
        if same_text(items[i].as_str(), key) {
            assert(texts(items@)[i as int] == key@);
            return true;
        }
        i += 1;
    }
    false
}

/// The value paired with the first occurrence of `key` among `entries`.
pub fn find_entry(entries: &Vec<(String, String)>, key: &str) -> (r: Option<String>)
    ensures
        opt_text(r) == assoc(pairs(entries@), key@),
{
    let ghost all = pairs(entries@);
    assert(all.subrange(0, all.len() as int) =~= all);
    let mut i: usize = 0;
    while i < entries.len()
        invariant
            i <= entries.len(),
            all == pairs(entries@),
            assoc(all, key@) == assoc(all.subrange(i as int, all.len() as int), key@),
        decreases entries.len() - i,
    {
        let ghost rest = all.subrange(i as int, all.len() as int);
        assert(rest[0] == (entries@[i as int].0@, entries@[i as int].1@));
        assert(rest.subrange(1, rest.len() as int) =~= all.subrange(i as int + 1, all.len() as int));
        if same_text(entries[i].0.as_str(), key) {
            return Some(entries[i].1.clone());
        }
        i += 1;
    }
    assert(all.subrange(entries.len() as int, all.len() as int).len() == 0);
    None
}

/// A copy of an optional string.
pub fn copy_opt(o: &Option<String>) -> (r: Option<String>)
    ensures
        opt_text(r) == opt_text(*o),
{
    match o {
        Some(s) => Some(s.clone()),
        None => None,
    }
}

/// The characters that count as white space.
pub open spec fn is_space(c: char) -> bool {
    let u = c as u32;
    (0x09 <= u <= 0x0d) || u == 0x20 || u == 0x85 || u == 0xa0 || u == 0x1680 || (0x2000 <= u
        <= 0x200a) || u == 0x2028 || u == 0x2029 || u == 0x202f || u == 0x205f || u == 0x3000
}

/// Whether a text holds nothing but white space.
pub open spec fn only_spaces(s: Seq<char>) -> bool {
    forall|i: int| 0 <= i < s.len() ==> is_space(#[trigger] s[i])
}

/// Whether a character counts as white space.
pub fn space(c: char) -> (r: bool)
    ensures
        r == is_space(c),
{
    let u = c as u32;
    (0x09 <= u && u <= 0x0d) || u == 0x20 || u == 0x85 || u == 0xa0 || u == 0x1680 || (0x2000 <= u
        && u <= 0x200a) || u == 0x2028 || u == 0x2029 || u == 0x202f || u == 0x205f || u == 0x3000
}

/// The numeral of one decimal digit.
pub open spec fn digit(d: nat) -> Seq<char> {
    if d == 0 {
        "0"@
    } else if d == 1 {
        "1"@
    } else if d == 2 {
        "2"@
    } else if d == 3 {
        "3"@
    } else if d == 4 {
        "4"@
    } else if d == 5 {
        "5"@
    } else if d == 6 {
        "6"@
    } else if d == 7 {
        "7"@
    } else if d == 8 {
        "8"@
    } else {
        "9"@
    }
}

/// The decimal numeral of a number.
pub open spec fn decimal(n: nat) -> Seq<char>
    decreases n,
{
    if n < 10 {
        digit(n)
    } else {
        decimal(n / 10) + digit(n % 10)
    }
}

fn digit_text(d: usize) -> (r: &'static str)
    requires
        d < 10,
    ensures
        r@ == digit(d as nat),
{
    if d == 0 {
        "0"
    } else if d == 1 {
        "1"
    } else if d == 2 {
        "2"
    } else if d == 3 {
        "3"
    } else if d == 4 {
        "4"
    } else if d == 5 {
        "5"
    } else if d == 6 {
        "6"
    } else if d == 7 {
        "7"
    } else if d == 8 {
        "8"
    } else {
        "9"
    }
}

/// The decimal numeral of a number.
pub fn numeral(n: usize) -> (r: String)
    ensures
        r@ == decimal(n as nat),
    decreases n,
{
    if n < 10 {
        String::from_str(digit_text(n))
    } else {
        let mut r = numeral(n / 10);
        r.append(digit_text(n % 10));
        r
    }
}

/// Whether `needle` stands somewhere in `hay`, byte for byte.
pub open spec fn occurs(hay: Seq<u8>, needle: Seq<u8>) -> bool {
    exists|i: int|
        0 <= i && i + needle.len() <= hay.len() && #[trigger] hay.subrange(
            i,
            i + needle.len(),
        ) == needle
}

/// Whether the text `needle` stands somewhere in the text `hay`: whether the
/// UTF-8 bytes of the one occur in those of the other.
pub open spec fn text_occurs(hay: Seq<char>, needle: Seq<char>) -> bool {
    occurs(encode_utf8(hay), encode_utf8(needle))
}

/// Whether `needle` stands somewhere in `hay`.
pub fn occurs_in(hay: &str, needle: &str) -> (r: bool)
    ensures
        r == text_occurs(hay@, needle@),
{
    let h = hay.as_bytes();
    let n = needle.as_bytes();
    if n.len() > h.len() {
        return false;
    }
    let last = h.len() - n.len();
    let mut i: usize = 0;
    while i <= last
        invariant
            i <= last + 1,
            last == h.len() - n.len(),
            n.len() <= h.len(),
            h@ == encode_utf8(hay@),
            n@ == encode_utf8(needle@),
            forall|k: int| 0 <= k < i ==> #[trigger] h@.subrange(k, k + n@.len()) != n@,
        decreases last + 1 - i,
    {
        let mut j: usize = 0;
        while j < n.len() && h[i + j] == n[j]
            invariant
                j <= n.len(),
                i <= last,
                last == h.len() - n.len(),
                n.len() <= h.len(),
                forall|k: int| 0 <= k < j ==> h@[i + k] == n@[k],
            decreases n.len() - j,
        {
            j += 1;
        }
        if j == n.len() {
            assert(h@.subrange(i as int, i + n@.len()) =~= n@);
            return true;
        }
        assert(h@.subrange(i as int, i + n@.len()) != n@) by {
            assert(h@.subrange(i as int, i + n@.len())[j as int] == h@[i + j]);
        }
        i += 1;
    }
    false
}

/// A text without the white space at its end.
pub open spec fn without_trailing_space(s: Seq<char>) -> Seq<char>
    decreases s.len(),
{
    if s.len() > 0 && is_space(s.last()) {
        without_trailing_space(s.drop_last())
    } else {
        s
    }
}

/// A text without the white space at its start.
pub open spec fn without_leading_space(s: Seq<char>) -> Seq<char>
    decreases s.len(),
{
    if s.len() > 0 && is_space(s[0]) {
        without_leading_space(s.skip(1))
    } else {
        s
    }
}

/// A text without the white space at either end.
pub open spec fn trimmed(s: Seq<char>) -> Seq<char> {
    without_leading_space(without_trailing_space(s))
}

/// A copy of `s` without the white space at either end.
pub fn trim(s: &str) -> (r: String)
    ensures
        r@ == trimmed(s@),
{
    let n = s.unicode_len();
    let mut end: usize = n;
    assert(s@.take(n as int) =~= s@);
    while end > 0 && space(s.get_char(end - 1))
        invariant
            end <= n,
            n == s@.len(),
            without_trailing_space(s@) == without_trailing_space(s@.take(end as int)),
        decreases end,
    {
        assert(s@.take(end as int).drop_last() =~= s@.take(end as int - 1));
        end -= 1;
    }
    let ghost body = s@.take(end as int);
    assert(without_trailing_space(s@) == body);
    let mut start: usize = 0;
    assert(body.skip(0) =~= body);
    while start < end && space(s.get_char(start))
        invariant
            start <= end <= n,
            n == s@.len(),
            body == s@.take(end as int),
            without_leading_space(body) == without_leading_space(body.skip(start as int)),
        decreases end - start,
    {
        assert(body.skip(start as int)[0] == s@[start as int]);
        assert(body.skip(start as int).skip(1) =~= body.skip(start as int + 1));
        start += 1;
    }
    proof {
        let rest = body.skip(start as int);
        if start < end {
            assert(rest[0] == s@[start as int]);
        }
        assert(without_leading_space(rest) == rest);
        assert(rest =~= s@.subrange(start as int, end as int));
    }
    String::from_str(s.substring_char(start, end))
}

} // verus!
