//! How `_meta` keys are spelled, and what is said of those that are not.

use vstd::prelude::*;

use crate::meta_key::{
    first_of_is, is_alphanumeric, is_label_interior, is_letter, is_name_interior, key_verdict, label_verdict,
    labels_verdict, last_of, last_of_bounds, name_verdict, prefix_verdict,
};

verus! {

/// Whether the code of a character is that of an ASCII letter.
pub open spec fn has_letter_code(c: char) -> bool {
    65 <= c as u32 <= 90 || 97 <= c as u32 <= 122
}

/// Whether the code of a character is that of an ASCII digit.
pub open spec fn has_digit_code(c: char) -> bool {
    48 <= c as u32 <= 57
}

/// A label begins with an ASCII letter, ends with one or a digit, and holds these and hyphens;
/// a name begins and ends with an ASCII letter or digit, and holds these, hyphens, underscores
/// and dots.
pub proof fn keys_are_spelled_in_ascii(c: char)
    ensures
        is_letter(c) <==> has_letter_code(c),
        is_alphanumeric(c) <==> has_letter_code(c) || has_digit_code(c),
        is_label_interior(c) <==> has_letter_code(c) || has_digit_code(c) || c == '-',
        is_name_interior(c) <==> has_letter_code(c) || has_digit_code(c) || c == '-' || c == '_' || c == '.',
{
}

/// What is said of a label is the first thing that is wrong with it: that it is empty, how it
/// starts, how it ends, or what is inside.
pub proof fn bad_labels_are_told_why(label: Seq<char>)
    ensures
        label.len() == 0 ==> label_verdict(label) == Err::<(), Seq<char>>("empty prefix label"@),
        label.len() > 0 ==> {
            let inside = forall|i: int| 1 <= i < label.len() - 1 ==> is_label_interior(#[trigger] label[i]);
            &&& !has_letter_code(label[0]) ==> label_verdict(label) == Err::<(), Seq<char>>(
                "prefix label '"@ + label + "' must start with a letter"@,
            )
            &&& has_letter_code(label[0]) && !is_alphanumeric(label.last()) ==> label_verdict(label) == Err::<
                (),
                Seq<char>,
            >("prefix label '"@ + label + "' must end with a letter or digit"@)
            &&& has_letter_code(label[0]) && is_alphanumeric(label.last()) && !inside ==> label_verdict(label) == Err::<
                (),
                Seq<char>,
            >("prefix label '"@ + label + "' has invalid interior character"@)
            &&& has_letter_code(label[0]) && is_alphanumeric(label.last()) && inside ==> label_verdict(label) is Ok
        },
{
    if label.len() > 0 {
        keys_are_spelled_in_ascii(label[0]);
        keys_are_spelled_in_ascii(label.last());
    }
    if label.len() == 1 {
        assert(label.last() == label[0]);
    }
}

/// What is said of a name is the first thing that is wrong with it: how it begins, how it
/// ends, or what is inside. Nothing is wrong with an empty one.
pub proof fn bad_names_are_told_why(name: Seq<char>)
    ensures
        name.len() == 0 ==> name_verdict(name) is Ok,
        name.len() > 0 ==> {
            let inside = forall|i: int| 1 <= i < name.len() - 1 ==> is_name_interior(#[trigger] name[i]);
            &&& !is_alphanumeric(name[0]) ==> name_verdict(name) == Err::<(), Seq<char>>(
                "name '"@ + name + "' must begin with an alphanumeric character"@,
            )
            &&& is_alphanumeric(name[0]) && !is_alphanumeric(name.last()) ==> name_verdict(name) == Err::<
                (),
                Seq<char>,
            >("name '"@ + name + "' must end with an alphanumeric character"@)
            &&& is_alphanumeric(name[0]) && is_alphanumeric(name.last()) && !inside ==> name_verdict(name) == Err::<
                (),
                Seq<char>,
            >("name '"@ + name + "' has invalid interior character"@)
            &&& is_alphanumeric(name[0]) && is_alphanumeric(name.last()) && inside ==> name_verdict(name) is Ok
        },
{
    if name.len() == 1 {
        assert(name.last() == name[0]);
    }
}

/// A key without a slash is a name. Of one with a slash, what comes before the last slash is
/// the prefix, of which any fault is told first, and what comes after it the name.
pub proof fn keys_are_judged_by_prefix_and_name(prefix: Seq<char>, name: Seq<char>)
    requires
        forall|i: int| 0 <= i < name.len() ==> name[i] != '/',
    ensures
        name.len() > 0 ==> key_verdict(name) == name_verdict(name),
        key_verdict(prefix + seq!['/'] + name) == (if prefix_verdict(prefix) is Err {
            prefix_verdict(prefix)
        } else {
            name_verdict(name)
        }),
{
    let key = prefix + seq!['/'] + name;
    last_of_bounds(name, '/');
    last_of_bounds(key, '/');
    assert(key[prefix.len() as int] == '/');
    assert forall|i: int| prefix.len() < i < key.len() implies key[i] != '/' by {
        assert(key[i] == name[i - prefix.len() - 1]);
    }
    assert(last_of(key, '/') == prefix.len());
    assert(key.take(prefix.len() as int) =~= prefix);
    assert(key.skip(prefix.len() as int + 1) =~= name);
}

/// A prefix is judged label by label, in order: what comes before its first dot, then what
/// comes after.
pub proof fn prefixes_are_judged_label_by_label(label: Seq<char>, rest: Seq<char>)
    requires
        forall|i: int| 0 <= i < label.len() ==> label[i] != '.',
    ensures
        label.len() > 0 ==> prefix_verdict(label) == label_verdict(label),
        prefix_verdict(label + seq!['.'] + rest) == (if label_verdict(label) is Err {
            label_verdict(label)
        } else if rest.len() == 0 {
            Err::<(), Seq<char>>("empty prefix label"@)
        } else {
            prefix_verdict(rest)
        }),
{
    let prefix = label + seq!['.'] + rest;
    let k = label.len() as int;
    first_of_is(label, '.', k);
    assert forall|i: int| 0 <= i < k implies prefix[i] != '.' by {
        assert(prefix[i] == label[i]);
    }
    assert(prefix[k] == '.');
    first_of_is(prefix, '.', k);
    assert(prefix.take(k) =~= label);
    assert(prefix.skip(k + 1) =~= rest);
    assert(labels_verdict(prefix) == (match label_verdict(label) {
        Ok(_) => labels_verdict(rest),
        Err(e) => Err(e),
    }));
    if rest.len() == 0 {
        first_of_is(rest, '.', 0);
    }
}

/// An empty key and an empty prefix are told to be so.
pub proof fn empty_keys_are_told(text: Seq<char>)
    ensures
        text.len() == 0 ==> key_verdict(text) == Err::<(), Seq<char>>("empty key"@),
        text.len() == 0 ==> prefix_verdict(text) == Err::<(), Seq<char>>("prefix before '/' is empty"@),
{
}

} // verus!
