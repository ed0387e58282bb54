//! The format of MCP `_meta` keys: an optional prefix of labels separated by
//! dots and ended by a slash, then a name.

use vstd::prelude::*;

use crate::json::outcome;
use crate::text::{cat3, chars};

pub mod laws;

verus! {

/// Whether a character is an ASCII letter.
pub open spec fn is_letter(c: char) -> bool {
    ('a' <= c && c <= 'z') || ('A' <= c && c <= 'Z')
}

/// Whether a character is an ASCII letter or digit.
pub open spec fn is_alphanumeric(c: char) -> bool {
    is_letter(c) || ('0' <= c && c <= '9')
}

/// Where a character first occurs in a text, or else the text's length.
pub open spec fn first_of(s: Seq<char>, c: char) -> int
    decreases s.len(),
{
    if s.len() == 0 || s[0] == c {
        0
    } else {
        1 + first_of(s.drop_first(), c)
    }
}

/// Where a character last occurs in a text, or else `-1`.
pub open spec fn last_of(s: Seq<char>, c: char) -> int
    decreases s.len(),
{
    if s.len() == 0 || s.last() == c {
        s.len() - 1
    } else {
        last_of(s.drop_last(), c)
    }
}

/// What is wrong with a label of a prefix, if anything.
pub open spec fn label_verdict(label: Seq<char>) -> Result<(), Seq<char>> {
    if label.len() == 0 {
        Err("empty prefix label"@)
    } else if !is_letter(label[0]) {
        Err("prefix label '"@ + label + "' must start with a letter"@)
    } else if label.len() == 1 {
        Ok(())
    } else if !is_alphanumeric(label.last()) {
        Err("prefix label '"@ + label + "' must end with a letter or digit"@)
    } else if exists|i: int| 1 <= i < label.len() - 1 && !is_label_interior(#[trigger] label[i]) {
        Err("prefix label '"@ + label + "' has invalid interior character"@)
    } else {
        Ok(())
    }
}

/// Whether a character may stand inside a label.
pub open spec fn is_label_interior(c: char) -> bool {
    is_alphanumeric(c) || c == '-'
}

/// Whether a character may stand inside a name.
pub open spec fn is_name_interior(c: char) -> bool {
    is_alphanumeric(c) || c == '-' || c == '_' || c == '.'
}

/// What is wrong with a name, if anything.
pub open spec fn name_verdict(name: Seq<char>) -> Result<(), Seq<char>> {
    if name.len() == 0 {
        Ok(())
    } else if !is_alphanumeric(name[0]) {
        Err("name '"@ + name + "' must begin with an alphanumeric character"@)
    } else if name.len() == 1 {
        Ok(())
    } else if !is_alphanumeric(name.last()) {
        Err("name '"@ + name + "' must end with an alphanumeric character"@)
    } else if exists|i: int| 1 <= i < name.len() - 1 && !is_name_interior(#[trigger] name[i]) {
        Err("name '"@ + name + "' has invalid interior character"@)
    } else {
        Ok(())
    }
}

/// What is wrong with the first bad one of the labels between the dots of a
/// text, if any is bad.
pub open spec fn labels_verdict(s: Seq<char>) -> Result<(), Seq<char>>
    decreases s.len(),
{
    let k = first_of(s, '.');
    if k < 0 || k >= s.len() {
        label_verdict(s)
    } else {
        match label_verdict(s.take(k)) {
            Ok(_) => labels_verdict(s.skip(k + 1)),
            Err(e) => Err(e),
        }
    }
}

/// What is wrong with a prefix, if anything.
pub open spec fn prefix_verdict(prefix: Seq<char>) -> Result<(), Seq<char>> {
    if prefix.len() == 0 {
        Err("prefix before '/' is empty"@)
    } else {
        labels_verdict(prefix)
    }
}

/// What is wrong with a key, if anything: the prefix is what stands before its
/// last slash, the name what stands after it.
pub open spec fn key_verdict(key: Seq<char>) -> Result<(), Seq<char>> {
    let k = last_of(key, '/');
    if key.len() == 0 {
        Err("empty key"@)
    } else if k < 0 {
        name_verdict(key)
    } else {
        match prefix_verdict(key.take(k)) {
            Ok(_) => name_verdict(key.skip(k + 1)),
            Err(e) => Err(e),
        }
    }
}

/// A character does not occur before its first occurrence.
proof fn first_of_bounds(s: Seq<char>, c: char)
    ensures
        0 <= first_of(s, c) <= s.len(),
        first_of(s, c) < s.len() ==> s[first_of(s, c)] == c,
        forall|i: int| 0 <= i < first_of(s, c) ==> s[i] != c,
    decreases s.len(),
{
    if s.len() > 0 && s[0] != c {
        first_of_bounds(s.drop_first(), c);
        let rest = s.drop_first();
        assert forall|i: int| 0 <= i < first_of(s, c) implies s[i] != c by {
            if i > 0 {
                assert(rest[i - 1] == s[i]);
            }
        }
        assert(first_of(s, c) < s.len() ==> rest[first_of(rest, c)] == s[first_of(s, c)]);
    }
}

/// An index before which a character does not occur, and at which it does or the
/// text ends, is where it first occurs.
proof fn first_of_is(s: Seq<char>, c: char, k: int)
    requires
        0 <= k <= s.len(),
        forall|i: int| 0 <= i < k ==> s[i] != c,
        k < s.len() ==> s[k] == c,
    ensures
        first_of(s, c) == k,
{
    first_of_bounds(s, c);
    if first_of(s, c) < k {
        assert(s[first_of(s, c)] != c);
    }
}

/// A character does not occur after its last occurrence.
proof fn last_of_bounds(s: Seq<char>, c: char)
    ensures
        -1 <= last_of(s, c) < s.len(),
        last_of(s, c) >= 0 ==> s[last_of(s, c)] == c,
        forall|i: int| last_of(s, c) < i < s.len() ==> s[i] != c,
    decreases s.len(),
{
    if s.len() > 0 && s.last() != c {
        last_of_bounds(s.drop_last(), c);
        let front = s.drop_last();
        assert forall|i: int| last_of(s, c) < i < s.len() implies s[i] != c by {
            if i < front.len() {
                assert(front[i] == s[i]);
            }
        }
    }
}

/// Whether a character is an ASCII letter.
fn letter(c: char) -> (r: bool)
    ensures
        r == is_letter(c),
{
    ('a' <= c && c <= 'z') || ('A' <= c && c <= 'Z')
}

/// Whether a character is an ASCII letter or digit.
fn alphanumeric(c: char) -> (r: bool)
    ensures
        r == is_alphanumeric(c),
{
    letter(c) || ('0' <= c && c <= '9')
}

/// Checks an MCP `_meta` key.
pub fn validate_mcp_meta_key(key: &str) -> (r: Result<(), String>)
    ensures
        outcome(r) == key_verdict(key@),
{
    let text = chars(key);
    if text.len() == 0 {
        return Err("empty key".to_owned());
    }
    let mut k: usize = text.len();
    while k > 0 && text[k - 1] != '/'
        invariant
            k <= text.len(),
            forall|i: int| k <= i < text@.len() ==> text@[i] != '/',
        decreases k,
    {
        k -= 1;
    }
    proof {
        last_of_bounds(key@, '/');
        if k > 0 {
            assert(key@[k - 1] == '/');
        }
        assert(last_of(key@, '/') == k - 1);
    }
    if k == 0 {
        validate_meta_name(key)
    } else {
        match validate_meta_prefix(key.substring_char(0, k - 1)) {
            Ok(_) => {
                assert(key@.skip(k as int) == key@.subrange(k as int, key@.len() as int));
                validate_meta_name(key.substring_char(k, text.len()))
            }
            Err(e) => Err(e),
        }
    }
}

/// Checks the prefix of an MCP `_meta` key.
pub fn validate_meta_prefix(prefix: &str) -> (r: Result<(), String>)
    ensures
        outcome(r) == prefix_verdict(prefix@),
{
    let text = chars(prefix);
    if text.len() == 0 {
        return Err("prefix before '/' is empty".to_owned());
    }
    let mut start: usize = 0;
    assert(prefix@.skip(0) == prefix@);
    loop
        invariant
            text@ == prefix@,
            start <= text.len(),
            prefix@.len() > 0,
            labels_verdict(prefix@) == labels_verdict(prefix@.skip(start as int)),
        decreases text.len() - start,
    {
        let mut end: usize = start;
        while end < text.len() && text[end] != '.'
            invariant
                start <= end <= text.len(),
                forall|i: int| start <= i < end ==> text@[i] != '.',
            decreases text.len() - end,
        {
            end += 1;
        }
        let ghost rest = prefix@.skip(start as int);
        proof {
            assert forall|i: int| 0 <= i < end - start implies rest[i] != '.' by {
                assert(rest[i] == text@[start + i]);
            }
            first_of_is(rest, '.', end - start);
            assert(rest.take(end - start) == prefix@.subrange(start as int, end as int));
            assert(end == text@.len() ==> rest.take(end - start) == rest);
            assert(end < text@.len() ==> rest.skip(end - start + 1) == prefix@.skip(end + 1));
        }
        match validate_meta_label(prefix.substring_char(start, end)) {
            Ok(_) => {}
            Err(e) => {
                return Err(e);
            }
        }
        if end == text.len() {
            return Ok(());
        }
        start = end + 1;
    }
}

/// Checks one label of a prefix.
pub fn validate_meta_label(label: &str) -> (r: Result<(), String>)
    ensures
        outcome(r) == label_verdict(label@),
{
    let text = chars(label);
    if text.len() == 0 {
        return Err("empty prefix label".to_owned());
    }
    if !letter(text[0]) {
        return Err(cat3("prefix label '", label, "' must start with a letter"));
    }
    if text.len() == 1 {
        return Ok(());
    }
    if !alphanumeric(text[text.len() - 1]) {
        return Err(cat3("prefix label '", label, "' must end with a letter or digit"));
    }
    let mut i: usize = 1;
    while i < text.len() - 1
        invariant
            1 <= i <= text.len() - 1,
            text@ == label@,
            text.len() > 1,
            is_letter(label@[0]),
            is_alphanumeric(label@.last()),
            forall|k: int| 1 <= k < i ==> is_label_interior(#[trigger] label@[k]),
        decreases text.len() - i,
    {
        if !(alphanumeric(text[i]) || text[i] == '-') {
            assert(!is_label_interior(label@[i as int]));
            return Err(cat3("prefix label '", label, "' has invalid interior character"));
        }
        i += 1;
    }
    Ok(())
}

/// Checks the name of an MCP `_meta` key, which may be empty.
pub fn validate_meta_name(name: &str) -> (r: Result<(), String>)
    ensures
        outcome(r) == name_verdict(name@),
{
    let text = chars(name);
    if text.len() == 0 {
        return Ok(());
    }
    if !alphanumeric(text[0]) {
        return Err(cat3("name '", name, "' must begin with an alphanumeric character"));
    }
    if text.len() == 1 {
        return Ok(());
    }
    if !alphanumeric(text[text.len() - 1]) {
        return Err(cat3("name '", name, "' must end with an alphanumeric character"));
    }
    let mut i: usize = 1;
    while i < text.len() - 1
        invariant
            1 <= i <= text.len() - 1,
            text@ == name@,
            text.len() > 1,
            is_alphanumeric(name@[0]),
            is_alphanumeric(name@.last()),
            forall|k: int| 1 <= k < i ==> is_name_interior(#[trigger] name@[k]),
        decreases text.len() - i,
    {
        let c = text[i];
        if !(alphanumeric(c) || c == '-' || c == '_' || c == '.') {
            assert(!is_name_interior(name@[i as int]));
            return Err(cat3("name '", name, "' has invalid interior character"));
        }
        i += 1;
    }
    Ok(())
}

/// Whether a text is a label: it starts with a letter, ends with a letter or digit,
/// and holds letters, digits and hyphens only.
pub open spec fn is_label(label: Seq<char>) -> bool {
    &&& label.len() > 0
    &&& is_letter(label[0])
    &&& is_alphanumeric(label.last())
    &&& forall|i: int| 0 <= i < label.len() ==> is_label_interior(#[trigger] label[i])
}

/// Whether a text is a name: it is empty, or starts and ends with a letter or digit and
/// holds letters, digits, hyphens, underscores and dots only.
pub open spec fn is_name(name: Seq<char>) -> bool {
    name.len() > 0 ==> {
        &&& is_alphanumeric(name[0])
        &&& is_alphanumeric(name.last())
        &&& forall|i: int| 0 <= i < name.len() ==> is_name_interior(#[trigger] name[i])
    }
}

/// Labels with dots between them.
pub open spec fn dotted(labels: Seq<Seq<char>>) -> Seq<char>
    decreases labels.len(),
{
    if labels.len() == 0 {
        Seq::empty()
    } else if labels.len() == 1 {
        labels[0]
    } else {
        labels[0] + seq!['.'] + dotted(labels.drop_first())
    }
}

/// Whether texts are labels, and there is at least one.
pub open spec fn are_labels(labels: Seq<Seq<char>>) -> bool {
    labels.len() > 0 && forall|i: int| 0 <= i < labels.len() ==> is_label(#[trigger] labels[i])
}

/// Whether a key is a name.
pub open spec fn is_bare_key(key: Seq<char>) -> bool {
    key.len() > 0 && is_name(key)
}

/// Whether a key is a prefix of labels, a slash and a name.
pub open spec fn is_prefixed_key(key: Seq<char>, labels: Seq<Seq<char>>, name: Seq<char>) -> bool {
    are_labels(labels) && is_name(name) && key == dotted(labels) + seq!['/'] + name
}

/// What stands between the dots of a text.
spec fn split_at_dots(s: Seq<char>) -> Seq<Seq<char>>
    decreases s.len(),
{
    let k = first_of(s, '.');
    if k < 0 || k >= s.len() {
        seq![s]
    } else {
        seq![s.take(k)] + split_at_dots(s.skip(k + 1))
    }
}

/// A label is found good if and only if it is a label.
proof fn good_label(label: Seq<char>)
    ensures
        label_verdict(label) is Ok <==> is_label(label),
{
    if label_verdict(label) is Ok {
        assert forall|i: int| 0 <= i < label.len() implies is_label_interior(#[trigger] label[i]) by {
            if 1 <= i < label.len() - 1 {
                assert(is_label_interior(label[i]));
            }
        }
    }
}

/// A name is found good if and only if it is a name.
proof fn good_name(name: Seq<char>)
    ensures
        name_verdict(name) is Ok <==> is_name(name),
{
    if name_verdict(name) is Ok {
        assert forall|i: int| 0 <= i < name.len() implies is_name_interior(#[trigger] name[i]) by {
            if 1 <= i < name.len() - 1 {
                assert(is_name_interior(name[i]));
            }
        }
    }
}

/// A text whose labels are found good is made of labels.
proof fn good_labels_are_labels(s: Seq<char>)
    requires
        labels_verdict(s) is Ok,
    ensures
        are_labels(split_at_dots(s)),
        dotted(split_at_dots(s)) == s,
    decreases s.len(),
{
    first_of_bounds(s, '.');
    let k = first_of(s, '.');
    let labels = split_at_dots(s);
    if k >= s.len() {
        good_label(s);
    } else {
        let rest = s.skip(k + 1);
        good_label(s.take(k));
        good_labels_are_labels(rest);
        assert(labels.drop_first() =~= split_at_dots(rest));
        assert forall|i: int| 0 <= i < labels.len() implies is_label(#[trigger] labels[i]) by {
            if i > 0 {
                assert(labels[i] == split_at_dots(rest)[i - 1]);
            }
        }
        assert(s =~= s.take(k) + seq!['.'] + rest);
    }
}

/// Labels are found good.
proof fn labels_are_good(labels: Seq<Seq<char>>)
    requires
        are_labels(labels),
    ensures
        labels_verdict(dotted(labels)) is Ok,
        dotted(labels).len() > 0,
        !dotted(labels).contains('/'),
    decreases labels.len(),
{
    let s = dotted(labels);
    let first = labels[0];
    assert(is_label(first));
    good_label(first);
    if labels.len() == 1 {
        first_of_is(s, '.', s.len() as int);
        assert(forall|i: int| 0 <= i < s.len() ==> is_label_interior(#[trigger] s[i]));
    } else {
        let rest = labels.drop_first();
        assert forall|i: int| 0 <= i < rest.len() implies is_label(#[trigger] rest[i]) by {
            assert(rest[i] == labels[i + 1]);
        }
        labels_are_good(rest);
        let k = first.len() as int;
        assert forall|i: int| 0 <= i < k implies s[i] != '.' by {
            assert(s[i] == first[i]);
            assert(is_label_interior(first[i]));
        }
        assert(s[k] == '.');
        first_of_is(s, '.', k);
        assert(s.take(k) =~= first);
        assert(s.skip(k + 1) =~= dotted(rest));
        assert forall|i: int| 0 <= i < s.len() implies s[i] != '/' by {
            if i < k {
                assert(s[i] == first[i]);
                assert(is_label_interior(first[i]));
            } else if i > k {
                assert(s[i] == dotted(rest)[i - k - 1]);
                assert(dotted(rest).contains(dotted(rest)[i - k - 1]));
            }
        }
    }
}

/// A text without a slash has no last slash.
proof fn no_last_slash(s: Seq<char>)
    requires
        forall|i: int| 0 <= i < s.len() ==> s[i] != '/',
    ensures
        last_of(s, '/') == -1,
{
    last_of_bounds(s, '/');
}

/// A key is valid if and only if it is a non-empty name, or labels separated by dots,
/// a slash and a name.
pub proof fn valid_keys_follow_the_format(key: Seq<char>)
    ensures
        key_verdict(key) is Ok <==> (is_bare_key(key) || exists|labels: Seq<Seq<char>>, name: Seq<char>|
            is_prefixed_key(key, labels, name)),
{
    last_of_bounds(key, '/');
    let k = last_of(key, '/');
    if key_verdict(key) is Ok {
        if k < 0 {
            good_name(key);
        } else {
            let prefix = key.take(k);
            let name = key.skip(k + 1);
            good_labels_are_labels(prefix);
            good_name(name);
            assert(key =~= prefix + seq!['/'] + name);
            assert(is_prefixed_key(key, split_at_dots(prefix), name));
        }
    }
    if is_bare_key(key) {
        assert forall|i: int| 0 <= i < key.len() implies key[i] != '/' by {
            assert(is_name_interior(key[i]));
        }
        no_last_slash(key);
        good_name(key);
    }
    if exists|labels: Seq<Seq<char>>, name: Seq<char>| is_prefixed_key(key, labels, name) {
        let (labels, name) = choose|labels: Seq<Seq<char>>, name: Seq<char>| is_prefixed_key(key, labels, name);
        let prefix = dotted(labels);
        labels_are_good(labels);
        good_name(name);
        assert(key[prefix.len() as int] == '/');
        assert forall|i: int| prefix.len() < i < key.len() implies key[i] != '/' by {
            assert(key[i] == name[i - prefix.len() - 1]);
            assert(is_name_interior(name[i - prefix.len() - 1]));
        }
        assert(k == prefix.len());
        assert(key.take(k) =~= prefix);
        assert(key.skip(k + 1) =~= name);
    }
}

} // verus!
