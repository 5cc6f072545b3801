//! Comparison of dotted version strings such as `3.3.0`, as used to decide
//! whether a published release is newer than the running one.
use vstd::prelude::*;

verus! {

/// Returns the characters of `s`.
pub fn chars_of(s: &str) -> (res: Vec<char>)
    ensures
        res@ == s@,
{
    broadcast use vstd::string::group_string_axioms;
    let mut res: Vec<char> = Vec::new();
    for c in it: s.chars()
        invariant
            res@ == it.seq().take(it.index()),
    {
        res.push(c);
    }
    res
}


/// The pieces of `s` between the occurrences of `sep`, in order, as
/// `str::split` yields them: one piece more than there are separators, empty
/// pieces included.
pub open spec fn split_pieces(s: Seq<char>, sep: char) -> Seq<Seq<char>>
    decreases s.len(),
{
    if s.len() == 0 {
        seq![Seq::<char>::empty()]
    } else {
        let pieces = split_pieces(s.drop_last(), sep);
        if s.last() == sep {
            pieces.push(Seq::<char>::empty())
        } else {
            pieces.update(pieces.len() - 1, pieces.last().push(s.last()))
        }
    }
}

/// Whether `c` is an ASCII decimal digit.
pub open spec fn is_digit(c: char) -> bool {
    '0' <= c && c <= '9'
}

/// The value of the decimal digit `c`.
pub open spec fn digit_value(c: char) -> nat {
    (c as int - '0' as int) as nat
}

/// The value of the decimal numeral `digits`, most significant digit first.
pub open spec fn decimal_value(digits: Seq<char>) -> nat
    decreases digits.len(),
{
    if digits.len() == 0 {
        0
    } else {
        decimal_value(digits.drop_last()) * 10 + digit_value(digits.last())
    }
}

/// Whether every character of `s` is a decimal digit.
pub open spec fn all_digits(s: Seq<char>) -> bool {
    forall|i: int| 0 <= i < s.len() ==> is_digit(#[trigger] s[i])
}

/// `s` without its leading `+`, where it has one.
pub open spec fn unsigned_digits(s: Seq<char>) -> Seq<char> {
    if s.len() > 0 && s[0] == '+' {
        s.drop_first()
    } else {
        s
    }
}

/// What `u32::from_str` gives for `s`, where `None` stands for an error: an
/// optional `+` followed by at least one decimal digit, whose value fits in a
/// `u32`.
pub open spec fn parse_u32(s: Seq<char>) -> Option<u32> {
    let digits = unsigned_digits(s);
    if digits.len() > 0 && all_digits(digits) && decimal_value(digits) <= u32::MAX {
        Some(decimal_value(digits) as u32)
    } else {
        None
    }
}

/// The values of those `pieces` that parse as a `u32`, in order.
pub open spec fn parsed_components(pieces: Seq<Seq<char>>) -> Seq<u32>
    decreases pieces.len(),
{
    if pieces.len() == 0 {
        Seq::<u32>::empty()
    } else {
        let rest = parsed_components(pieces.drop_last());
        match parse_u32(pieces.last()) {
            Some(n) => rest.push(n),
            None => rest,
        }
    }
}

/// The numeric components of the version string `v`: its dot-separated
/// pieces that parse as a `u32`, in order; the others are left out.
pub open spec fn version_components(v: Seq<char>) -> Seq<u32> {
    parsed_components(split_pieces(v, '.'))
}

/// Whether the components `latest` make a newer version than `current`: at
/// the first position where the two differ, `latest` has the greater
/// number; where one is a prefix of the other, the longer is the newer.
pub open spec fn components_newer(latest: Seq<u32>, current: Seq<u32>) -> bool
    decreases latest.len(),
{
    if latest.len() == 0 || current.len() == 0 {
        latest.len() > current.len()
    } else if latest[0] != current[0] {
        latest[0] > current[0]
    } else {
        components_newer(latest.drop_first(), current.drop_first())
    }
}

/// Whether the version string `latest` is newer than `current`.
pub open spec fn version_newer(latest: Seq<char>, current: Seq<char>) -> bool {
    components_newer(version_components(latest), version_components(current))
}

proof fn lemma_split_nonempty(s: Seq<char>, sep: char)
    ensures
        split_pieces(s, sep).len() >= 1,
    decreases s.len(),
{
    if s.len() > 0 {
        lemma_split_nonempty(s.drop_last(), sep);
    }
}

proof fn lemma_decimal_monotone(digits: Seq<char>, i: int)
    requires
        0 <= i <= digits.len(),
    ensures
        decimal_value(digits.take(i)) <= decimal_value(digits),
    decreases digits.len() - i,
{
    if i < digits.len() {
        lemma_decimal_monotone(digits, i + 1);
        assert(digits.take(i + 1).drop_last() =~= digits.take(i));
    } else {
        assert(digits.take(i) =~= digits);
    }
}

/// Parses `piece` as `u32::from_str` does.
pub fn parse_component(piece: &Vec<char>) -> (res: Option<u32>)
    ensures
        res == parse_u32(piece@),
{
    let len = piece.len();
    let start: usize = if len > 0 && piece[0] == '+' {
        1
    } else {
        0
    };
    let ghost digits = unsigned_digits(piece@);
    assert(digits =~= piece@.skip(start as int));
    if start >= len {
        return None;
    }
    let mut value: u64 = 0;
    let mut i: usize = start;
    while i < len
        invariant
            start <= i <= len,
            len == piece@.len(),
            digits =~= piece@.skip(start as int),
            digits == unsigned_digits(piece@),
            all_digits(digits.take(i - start)),
            value == decimal_value(digits.take(i - start)),
            value <= u32::MAX,
        decreases len - i,
    {
        let c = piece[i];
        assert(digits[i - start] == c);
        if !('0' <= c && c <= '9') {
            assert(!is_digit(digits[i - start]));
            return None;
        }
        let d: u64 = (c as u32 - '0' as u32) as u64;
        assert(digits.take(i - start + 1).drop_last() =~= digits.take(i - start));
        assert(digits.take(i - start + 1).last() == c);
        value = value * 10 + d;
        assert(value == decimal_value(digits.take(i - start + 1)));
        if value > 0xffff_ffff {
            proof {
                lemma_decimal_monotone(digits, i - start + 1);
            }
            return None;
        }
        i = i + 1;
    }
    assert(digits.take(i - start) =~= digits);
    Some(value as u32)
}

/// Returns the numeric components of the version string held in
/// `chars` from position `start` on.
pub fn components_from(chars: &Vec<char>, start: usize) -> (res: Vec<u32>)
    requires
        start <= chars@.len(),
    ensures
        res@ == version_components(chars@.skip(start as int)),
{
    let ghost s = chars@.skip(start as int);
    let len = chars.len();
    let mut parts: Vec<u32> = Vec::new();
    let mut current: Vec<char> = Vec::new();
    let mut i: usize = start;
    proof {
        assert(s.take(0) =~= Seq::<char>::empty());
    }
    while i < len
        invariant
            start <= i <= len,
            len == chars@.len(),
            s == chars@.skip(start as int),
            current@ == split_pieces(s.take(i - start), '.').last(),
            parts@ == parsed_components(split_pieces(s.take(i - start), '.').drop_last()),
        decreases len - i,
    {
        let c = chars[i];
        let ghost p = s.take(i - start);
        let ghost pieces = split_pieces(p, '.');
        proof {
            lemma_split_nonempty(p, '.');
            assert(s.take(i - start + 1).drop_last() =~= p);
            assert(s.take(i - start + 1).last() == c);
        }
        if c == '.' {
            proof {
                assert(pieces.push(Seq::<char>::empty()).drop_last() =~= pieces);
            }
            match parse_component(&current) {
                Some(n) => parts.push(n),
                None => {},
            }
            current = Vec::new();
        } else {
            proof {
                let next = pieces.update(pieces.len() - 1, pieces.last().push(c));
                assert(next.drop_last() =~= pieces.drop_last());
            }
            current.push(c);
        }
        i = i + 1;
    }
    proof {
        lemma_split_nonempty(s, '.');
        assert(s.take(i - start) =~= s);
    }
    match parse_component(&current) {
        Some(n) => parts.push(n),
        None => {},
    }
    parts
}

/// Decides whether the components `latest` make a newer version than
/// `current`.
pub fn newer_components(latest: &Vec<u32>, current: &Vec<u32>) -> (res: bool)
    ensures
        res == components_newer(latest@, current@),
{
    let n = if latest.len() < current.len() {
        latest.len()
    } else {
        current.len()
    };
    let mut i: usize = 0;
    assert(latest@.skip(0) =~= latest@);
    assert(current@.skip(0) =~= current@);
    while i < n
        invariant
            i <= n,
            n <= latest@.len(),
            n <= current@.len(),
            n == latest@.len() || n == current@.len(),
            components_newer(latest@, current@) == components_newer(
                latest@.skip(i as int),
                current@.skip(i as int),
            ),
        decreases n - i,
    {
        let l = latest[i];
        let c = current[i];
        proof {
            assert(latest@.skip(i as int)[0] == l);
            assert(current@.skip(i as int)[0] == c);
            assert(latest@.skip(i as int).drop_first() =~= latest@.skip(i + 1));
            assert(current@.skip(i as int).drop_first() =~= current@.skip(i + 1));
        }
        if l > c {
            return true;
        }
        if l < c {
            return false;
        }
        i = i + 1;
    }
    latest.len() > current.len()
}

/// Compares two dotted version strings such as `3.3.0` and `3.2.1`: returns
/// whether `latest` is newer than `current`.
pub fn is_newer_version(latest: &str, current: &str) -> (res: bool)
    ensures
        res == version_newer(latest@, current@),
{
    let latest_chars = chars_of(latest);
    let current_chars = chars_of(current);
    assert(latest_chars@.skip(0) =~= latest_chars@);
    assert(current_chars@.skip(0) =~= current_chars@);
    let latest_parts = components_from(&latest_chars, 0);
    let current_parts = components_from(&current_chars, 0);
    newer_components(&latest_parts, &current_parts)
}

/// `s` without its leading run of `c`, as `str::trim_start_matches` with a
/// character leaves it.
pub open spec fn trim_leading(s: Seq<char>, c: char) -> Seq<char>
    decreases s.len(),
{
    if s.len() > 0 && s[0] == c {
        trim_leading(s.drop_first(), c)
    } else {
        s
    }
}

/// Whether a release published under the tag `tag_name` (a version string
/// with any leading `v`s, such as `v3.4.0`) is newer than `current_version`.
pub open spec fn release_newer(tag_name: Seq<char>, current_version: Seq<char>) -> bool {
    version_newer(trim_leading(tag_name, 'v'), current_version)
}

/// Decides whether the release tagged `tag_name` is newer than
/// `current_version`; leading `v`s of the tag are not part of its version.
pub fn is_newer_release(tag_name: &str, current_version: &str) -> (res: bool)
    ensures
        res == release_newer(tag_name@, current_version@),
{
    let tag_chars = chars_of(tag_name);
    let current_chars = chars_of(current_version);
    let len = tag_chars.len();
    let mut start: usize = 0;
    assert(tag_chars@.skip(0) =~= tag_chars@);
    while start < len && tag_chars[start] == 'v'
        invariant
            start <= len,
            len == tag_chars@.len(),
            trim_leading(tag_chars@, 'v') == trim_leading(tag_chars@.skip(start as int), 'v'),
        decreases len - start,
    {
        assert(tag_chars@.skip(start as int).drop_first() =~= tag_chars@.skip(start + 1));
        start = start + 1;
    }
    assert(current_chars@.skip(0) =~= current_chars@);
    let latest_parts = components_from(&tag_chars, start);
    let current_parts = components_from(&current_chars, 0);
    newer_components(&latest_parts, &current_parts)
}

proof fn lemma_components_irreflexive(a: Seq<u32>)
    ensures
        !components_newer(a, a),
    decreases a.len(),
{
    if a.len() > 0 {
        lemma_components_irreflexive(a.drop_first());
    }
}

proof fn lemma_components_asymmetric(a: Seq<u32>, b: Seq<u32>)
    ensures
        components_newer(a, b) ==> !components_newer(b, a),
    decreases a.len(),
{
    if a.len() > 0 && b.len() > 0 && a[0] == b[0] {
        lemma_components_asymmetric(a.drop_first(), b.drop_first());
    }
}

proof fn lemma_components_transitive(a: Seq<u32>, b: Seq<u32>, c: Seq<u32>)
    ensures
        components_newer(a, b) && components_newer(b, c) ==> components_newer(a, c),
    decreases a.len(),
{
    if a.len() > 0 && b.len() > 0 && c.len() > 0 {
        lemma_components_transitive(a.drop_first(), b.drop_first(), c.drop_first());
    }
}

proof fn lemma_components_total(a: Seq<u32>, b: Seq<u32>)
    ensures
        a != b ==> components_newer(a, b) || components_newer(b, a),
    decreases a.len(),
{
    if a.len() == 0 && b.len() == 0 {
        assert(a =~= b);
    } else if a.len() > 0 && b.len() > 0 && a[0] == b[0] {
        lemma_components_total(a.drop_first(), b.drop_first());
        if a.drop_first() == b.drop_first() {
            assert(a =~= seq![a[0]] + a.drop_first());
            assert(b =~= seq![b[0]] + b.drop_first());
        }
    }
}

/// No version is newer than itself.
pub proof fn version_newer_irreflexive(v: Seq<char>)
    ensures
        !version_newer(v, v),
{
    lemma_components_irreflexive(version_components(v));
}

/// Of two versions, at most one is newer than the other.
pub proof fn version_newer_asymmetric(a: Seq<char>, b: Seq<char>)
    ensures
        version_newer(a, b) ==> !version_newer(b, a),
{
    lemma_components_asymmetric(version_components(a), version_components(b));
}

/// A version newer than one that is newer than a third is newer than the
/// third.
pub proof fn version_newer_transitive(a: Seq<char>, b: Seq<char>, c: Seq<char>)
    requires
        version_newer(a, b),
        version_newer(b, c),
    ensures
        version_newer(a, c),
{
    lemma_components_transitive(version_components(a), version_components(b), version_components(c));
}

/// Two versions whose numeric components differ are ordered: one of them is
/// newer than the other. Versions with the same numeric components are
/// neither newer nor older than each other.
pub proof fn version_newer_total(a: Seq<char>, b: Seq<char>)
    ensures
        version_components(a) != version_components(b) <==> (version_newer(a, b) || version_newer(
            b,
            a,
        )),
{
    lemma_components_total(version_components(a), version_components(b));
    if version_components(a) == version_components(b) {
        lemma_components_irreflexive(version_components(a));
    }
}

} // verus!
