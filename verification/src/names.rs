//! Names in the generated client, derived from the names of Rust items.
//!
//! A type is called in the client what it is called in Rust, without its
//! module path. A route is called after its handler function, in camel case.

use vstd::prelude::*;

use crate::text::{chars_of, split, text_of};
use crate::text::{lemma_split_nonempty, lemma_split_pieces_free, lemma_split_whole};

verus! {

// ---------------------------------------------------------------------------
// Type names
// ---------------------------------------------------------------------------

/// The characters that part one path from the next in a type's full name. A
/// path starts anew behind each of them, so none is part of a path.
pub open spec fn is_delimiter(ch: char) -> bool {
    ch == '<' || ch == '>' || ch == ',' || ch == ' ' || ch == '(' || ch == '[' || ch == '&'
}

fn parts_paths(ch: char) -> (parts: bool)
    ensures
        parts == is_delimiter(ch),
{
    ch == '<' || ch == '>' || ch == ',' || ch == ' ' || ch == '(' || ch == '[' || ch == '&'
}

/// A path separator stands at `i`.
pub open spec fn separator_at(s: Seq<char>, i: int) -> bool {
    0 <= i && i + 1 < s.len() && s[i] == ':' && s[i + 1] == ':'
}

/// The text holds no path separator.
pub open spec fn separator_free(s: Seq<char>) -> bool {
    forall|i: int| !#[trigger] separator_at(s, i)
}

/// How many characters stand before the first delimiter.
pub open spec fn delimiter_free_len(s: Seq<char>) -> int
    decreases s.len(),
{
    if s.len() == 0 || is_delimiter(s[0]) {
        0
    } else {
        1 + delimiter_free_len(s.skip(1))
    }
}

/// How many characters stand before the first path separator; all of them, if
/// there is none.
pub open spec fn separator_free_len(s: Seq<char>) -> int
    decreases s.len(),
{
    if s.len() == 0 || separator_at(s, 0) {
        0
    } else {
        1 + separator_free_len(s.skip(1))
    }
}

/// What is left of a path once every leading `module::` is taken off.
pub open spec fn base_name(path: Seq<char>) -> Seq<char>
    decreases path.len(),
{
    let at = separator_free_len(path);
    if 0 <= at && at + 2 <= path.len() {
        base_name(path.skip(at + 2))
    } else {
        path
    }
}

/// A full type name in which every path is replaced by its base name and every
/// delimiter stays in its place.
pub open spec fn stripped(s: Seq<char>) -> Seq<char>
    decreases s.len(),
{
    let at = delimiter_free_len(s);
    if 0 <= at < s.len() {
        base_name(s.take(at)).push(s[at]) + stripped(s.skip(at + 1))
    } else {
        base_name(s)
    }
}

proof fn lemma_delimiter_free_len(s: Seq<char>)
    ensures
        0 <= delimiter_free_len(s) <= s.len(),
        forall|i: int| 0 <= i < delimiter_free_len(s) ==> !is_delimiter(#[trigger] s[i]),
        delimiter_free_len(s) < s.len() ==> is_delimiter(s[delimiter_free_len(s)]),
    decreases s.len(),
{
    if s.len() > 0 && !is_delimiter(s[0]) {
        let rest = s.skip(1);
        lemma_delimiter_free_len(rest);
        assert forall|i: int| 0 <= i < delimiter_free_len(s) implies !is_delimiter(
            #[trigger] s[i],
        ) by {
            if i > 0 {
                assert(rest[i - 1] == s[i]);
            }
        }
    }
}

/// The first delimiter is where the first delimiter is.
proof fn lemma_first_delimiter(s: Seq<char>, at: int)
    requires
        0 <= at <= s.len(),
        forall|i: int| 0 <= i < at ==> !is_delimiter(#[trigger] s[i]),
        at < s.len() ==> is_delimiter(s[at]),
    ensures
        delimiter_free_len(s) == at,
{
    lemma_delimiter_free_len(s);
    let found = delimiter_free_len(s);
    if found < at {
        assert(!is_delimiter(s[found]));
    } else if at < found {
        assert(!is_delimiter(s[at]));
    }
}

proof fn lemma_separator_free_len(s: Seq<char>)
    ensures
        0 <= separator_free_len(s) <= s.len(),
        forall|i: int| 0 <= i < separator_free_len(s) ==> !#[trigger] separator_at(s, i),
        separator_free_len(s) < s.len() ==> separator_at(s, separator_free_len(s)),
    decreases s.len(),
{
    if s.len() > 0 && !separator_at(s, 0) {
        let rest = s.skip(1);
        lemma_separator_free_len(rest);
        assert forall|i: int| 0 <= i < separator_free_len(s) implies !#[trigger] separator_at(
            s,
            i,
        ) by {
            if i > 0 {
                assert(separator_at(rest, i - 1) == separator_at(s, i));
            }
        }
        if separator_free_len(s) < s.len() {
            assert(separator_at(rest, separator_free_len(rest)) == separator_at(
                s,
                separator_free_len(s),
            ));
        }
    }
}

/// The first separator is where the first separator is.
proof fn lemma_first_separator(s: Seq<char>, at: int)
    requires
        0 <= at <= s.len(),
        forall|i: int| 0 <= i < at ==> !#[trigger] separator_at(s, i),
        at < s.len() ==> separator_at(s, at),
    ensures
        separator_free_len(s) == at,
{
    lemma_separator_free_len(s);
    let found = separator_free_len(s);
    if found < at {
        assert(!separator_at(s, found));
    } else if at < found {
        assert(!separator_at(s, at));
    }
}

/// A path without separators is its own base name.
proof fn lemma_base_name_plain(s: Seq<char>)
    requires
        separator_free(s),
    ensures
        base_name(s) == s,
{
    assert forall|i: int| 0 <= i < s.len() implies !#[trigger] separator_at(s, i) by {}
    lemma_first_separator(s, s.len() as int);
}

/// A module in front of the first path does not show in the result.
proof fn lemma_stripped_module(s: Seq<char>, at: int)
    requires
        separator_at(s, at),
        forall|i: int| 0 <= i < at ==> !#[trigger] separator_at(s, i),
        forall|i: int| 0 <= i < at ==> !is_delimiter(#[trigger] s[i]),
    ensures
        stripped(s) == stripped(s.skip(at + 2)),
{
    let rest = s.skip(at + 2);
    let end = at + 2 + delimiter_free_len(rest);
    lemma_delimiter_free_len(rest);
    assert forall|i: int| 0 <= i < end implies !is_delimiter(#[trigger] s[i]) by {
        if i >= at + 2 {
            assert(rest[i - at - 2] == s[i]);
        }
    }
    if end < s.len() {
        assert(rest[end - at - 2] == s[end]);
    }
    lemma_first_delimiter(s, end);
    let path = s.take(end);
    assert(separator_at(path, at));
    assert forall|i: int| 0 <= i < at implies !#[trigger] separator_at(path, i) by {
        assert(!separator_at(s, i));
    }
    lemma_first_separator(path, at);
    assert(path.skip(at + 2) =~= rest.take(end - at - 2));
    if end < s.len() {
        assert(s.skip(end + 1) =~= rest.skip(end - at - 2 + 1));
    } else {
        assert(path =~= s);
        assert(rest.take(end - at - 2) =~= rest);
    }
}

/// A plain name up to the first delimiter shows as it is.
proof fn lemma_stripped_plain(s: Seq<char>, at: int)
    requires
        0 <= at <= s.len(),
        at < s.len() ==> is_delimiter(s[at]),
        forall|i: int| 0 <= i < at ==> !#[trigger] separator_at(s, i),
        forall|i: int| 0 <= i < at ==> !is_delimiter(#[trigger] s[i]),
    ensures
        at < s.len() ==> stripped(s) == s.take(at).push(s[at]) + stripped(s.skip(at + 1)),
        at == s.len() ==> stripped(s) == s,
{
    lemma_first_delimiter(s, at);
    let path = s.take(at);
    assert forall|i: int| !#[trigger] separator_at(path, i) by {
        if 0 <= i < at {
            assert(!separator_at(s, i));
        }
    }
    lemma_base_name_plain(path);
    assert(at == s.len() ==> path =~= s);
}

/// Strip module paths from a full type name.
///
/// `"alloc::vec::Vec<myapp::types::UserResponse>"` becomes `"Vec<UserResponse>"`.
pub fn strip_module_paths(full_name: &str) -> (name: String)
    ensures
        name@ == stripped(full_name@),
{
    let chars = chars_of(full_name);
    let ghost full = full_name@;
    let mut result = String::new();
    // Everything before `start` is accounted for in `result`.
    let mut start: usize = 0;
    let mut i: usize = 0;
    assert(full.skip(0) =~= full);
    assert(result@ + stripped(full) =~= stripped(full));
    while i < chars.len()
        invariant
            chars@ == full,
            start <= i <= chars@.len(),
            stripped(full) == result@ + stripped(full.skip(start as int)),
            forall|j: int| start <= j < i ==> !is_delimiter(#[trigger] full[j]),
            forall|j: int| start <= j < i ==> !#[trigger] separator_at(full, j),
        decreases chars@.len() - i,
    {
        let ghost rest = full.skip(start as int);
        let ghost at = i - start;
        proof {
            assert forall|j: int| 0 <= j < at implies !#[trigger] separator_at(rest, j) by {
                assert(separator_at(rest, j) == separator_at(full, j + start));
            }
            assert forall|j: int| 0 <= j < at implies !is_delimiter(#[trigger] rest[j]) by {
                assert(rest[j] == full[j + start]);
            }
        }
        let ch = chars[i];
        if ch == ':' && i + 1 < chars.len() && chars[i + 1] == ':' {
            proof {
                assert(separator_at(rest, at));
                lemma_stripped_module(rest, at);
                assert(rest.skip(at + 2) =~= full.skip(i + 2));
            }
            start = i + 2;
            i = i + 2;
        } else if parts_paths(ch) {
            let component = text_of(&chars, start, i);
            proof {
                assert(rest[at] == full[i as int]);
                lemma_stripped_plain(rest, at);
                assert(rest.take(at) =~= full.subrange(start as int, i as int));
                assert(rest.skip(at + 1) =~= full.skip(i + 1));
                assert(result@ + (component@.push(ch) + stripped(full.skip(i + 1))) =~= (result@
                    + component@).push(ch) + stripped(full.skip(i + 1)));
            }
            result.append(component.as_str());
            result.push(ch);
            start = i + 1;
            i = i + 1;
        } else {
            assert(!separator_at(full, i as int));
            i = i + 1;
        }
    }
    let component = text_of(&chars, start, i);
    proof {
        let rest = full.skip(start as int);
        assert forall|j: int| 0 <= j < rest.len() implies !#[trigger] separator_at(rest, j) by {
            assert(separator_at(rest, j) == separator_at(full, j + start));
        }
        assert forall|j: int| 0 <= j < rest.len() implies !is_delimiter(#[trigger] rest[j]) by {
            assert(rest[j] == full[j + start]);
        }
        lemma_stripped_plain(rest, rest.len() as int);
        assert(component@ =~= rest);
    }
    result.append(component.as_str());
    result
}

/// The name of a type in the client, from its full name in Rust.
pub fn type_string(full_name: &str) -> (name: String)
    ensures
        name@ == stripped(full_name@),
{
    strip_module_paths(full_name)
}

proof fn lemma_base_name_separator_free(path: Seq<char>)
    ensures
        separator_free(base_name(path)),
    decreases path.len(),
{
    lemma_separator_free_len(path);
    let at = separator_free_len(path);
    if at + 2 <= path.len() {
        lemma_base_name_separator_free(path.skip(at + 2));
    } else {
        assert forall|i: int| !#[trigger] separator_at(path, i) by {
            if 0 <= i < path.len() && at < path.len() {
                assert(separator_at(path, at));
            }
        }
    }
}

/// No module path is left in a type's name in the client.
pub proof fn stripped_has_no_separator(s: Seq<char>)
    ensures
        separator_free(stripped(s)),
    decreases s.len(),
{
    lemma_delimiter_free_len(s);
    let at = delimiter_free_len(s);
    if at < s.len() {
        let head = base_name(s.take(at));
        let tail = stripped(s.skip(at + 1));
        lemma_base_name_separator_free(s.take(at));
        stripped_has_no_separator(s.skip(at + 1));
        let whole = head.push(s[at]) + tail;
        assert forall|i: int| !#[trigger] separator_at(whole, i) by {
            if separator_at(whole, i) {
                if i + 1 < head.len() {
                    assert(separator_at(head, i));
                } else if i > head.len() {
                    assert(separator_at(tail, i - head.len() - 1));
                } else {
                    assert(whole[head.len() as int] == s[at]);
                }
            }
        }
    } else {
        lemma_base_name_separator_free(s);
    }
}

/// A name without module paths is left as it is.
pub proof fn stripped_keeps_plain_names(s: Seq<char>)
    requires
        separator_free(s),
    ensures
        stripped(s) == s,
    decreases s.len(),
{
    lemma_delimiter_free_len(s);
    let at = delimiter_free_len(s);
    assert forall|i: int| 0 <= i < at implies !#[trigger] separator_at(s, i) by {}
    lemma_stripped_plain(s, at);
    if at < s.len() {
        let rest = s.skip(at + 1);
        assert forall|i: int| !#[trigger] separator_at(rest, i) by {
            assert(!separator_at(s, i + at + 1));
        }
        stripped_keeps_plain_names(rest);
        assert(s.take(at).push(s[at]) + rest =~= s);
    }
}

/// Stripping a name a second time changes nothing.
pub proof fn stripped_is_idempotent(s: Seq<char>)
    ensures
        stripped(stripped(s)) == stripped(s),
{
    stripped_has_no_separator(s);
    stripped_keeps_plain_names(stripped(s));
}

/// Stripping acts piece by piece: what stands before a delimiter and what stands
/// behind it are stripped each on its own.
pub proof fn stripped_piece_by_piece(before: Seq<char>, delimiter: char, behind: Seq<char>)
    requires
        is_delimiter(delimiter),
    ensures
        stripped(before.push(delimiter) + behind) == stripped(before).push(delimiter) + stripped(
            behind,
        ),
    decreases before.len(),
{
    let whole = before.push(delimiter) + behind;
    let at = delimiter_free_len(before);
    lemma_delimiter_free_len(before);
    assert forall|i: int| 0 <= i < at implies !is_delimiter(#[trigger] whole[i]) by {
        assert(whole[i] == before[i]);
    }
    lemma_first_delimiter(whole, at);
    assert(whole.take(at) =~= before.take(at));
    if at < before.len() {
        let rest = before.skip(at + 1);
        stripped_piece_by_piece(rest, delimiter, behind);
        assert(whole.skip(at + 1) =~= rest.push(delimiter) + behind);
        let head = base_name(before.take(at)).push(before[at]);
        assert(head + (stripped(rest).push(delimiter) + stripped(behind)) =~= (head + stripped(
            rest,
        )).push(delimiter) + stripped(behind));
    } else {
        assert(before.take(at) =~= before);
        assert(whole.skip(at + 1) =~= behind);
    }
}

/// A module in front of a name never shows, whatever the module is called: a
/// module holds none of the characters that part one path from the next, and no
/// `::`.
pub proof fn modules_never_show(module: Seq<char>, name: Seq<char>)
    requires
        forall|i: int|
            0 <= i < module.len() ==> #[trigger] module[i] != '<' && module[i] != '>' && module[i]
                != ',' && module[i] != ' ' && module[i] != '(' && module[i] != '[' && module[i]
                != '&',
        forall|i: int|
            0 <= i < module.len() - 1 ==> !(#[trigger] module[i] == ':' && module[i + 1] == ':'),
        module.len() > 0 ==> module.last() != ':',
    ensures
        stripped(module + seq![':', ':'] + name) == stripped(name),
{
    let whole = module + seq![':', ':'] + name;
    let at = module.len() as int;
    assert(separator_at(whole, at));
    assert forall|i: int| 0 <= i < at implies !#[trigger] separator_at(whole, i) by {
        assert(whole[i] == module[i]);
        if i + 1 < at {
            assert(whole[i + 1] == module[i + 1]);
        }
    }
    assert forall|i: int| 0 <= i < at implies !is_delimiter(#[trigger] whole[i]) by {
        assert(whole[i] == module[i]);
    }
    lemma_stripped_module(whole, at);
    assert(whole.skip(at + 2) =~= name);
}

/// What stands before and what stands behind one of the characters that part
/// paths is stripped on its own, and the character stays.
pub proof fn paths_are_parted(before: Seq<char>, ch: char, behind: Seq<char>)
    requires
        ch == '<' || ch == '>' || ch == ',' || ch == ' ' || ch == '(' || ch == '[' || ch == '&',
    ensures
        stripped(before.push(ch) + behind) == stripped(before).push(ch) + stripped(behind),
{
    stripped_piece_by_piece(before, ch, behind);
}

/// A text without `::` is left as it is.
pub proof fn texts_without_modules_are_kept(s: Seq<char>)
    requires
        forall|i: int| 0 <= i < s.len() - 1 ==> !(#[trigger] s[i] == ':' && s[i + 1] == ':'),
    ensures
        stripped(s) == s,
{
    assert forall|i: int| !#[trigger] separator_at(s, i) by {
        if separator_at(s, i) {
            assert(s[i] == ':');
        }
    }
    stripped_keeps_plain_names(s);
}

/// A generic type is called what it is called alone, around what its argument
/// is called alone.
pub proof fn generic_types_are_named_around_their_argument(path: Seq<char>, argument: Seq<char>)
    ensures
        stripped(path.push('<') + argument.push('>')) == stripped(path).push('<') + stripped(
            argument,
        ).push('>'),
{
    let none = Seq::<char>::empty();
    stripped_piece_by_piece(path, '<', argument.push('>'));
    stripped_piece_by_piece(argument, '>', none);
    assert(argument.push('>') + none =~= argument.push('>'));
    assert(separator_free(none));
    stripped_keeps_plain_names(none);
    assert(stripped(argument).push('>') + none =~= stripped(argument).push('>'));
}

/// The name of a `Vec` or an `Option` holds the name of what is in it, at
/// whatever depth they are nested.
pub proof fn containers_are_named_around_their_argument(argument: Seq<char>)
    ensures
        stripped("alloc::vec::Vec<"@ + argument + ">"@) == "Vec<"@ + stripped(argument) + ">"@,
        stripped("core::option::Option<"@ + argument + ">"@) == "Option<"@ + stripped(argument)
            + ">"@,
{
    reveal_strlit(">");
    reveal_strlit("Vec<");
    reveal_strlit("Option<");
    reveal_strlit("alloc::vec::Vec<");
    reveal_strlit("core::option::Option<");
    let vec_path = "alloc::vec::Vec<"@.drop_last();
    let vec_rest = vec_path.skip(7);
    let vec_name = vec_rest.skip(5);
    assert(separator_at(vec_path, 5));
    lemma_stripped_module(vec_path, 5);
    assert(separator_at(vec_rest, 3));
    lemma_stripped_module(vec_rest, 3);
    assert(vec_name =~= "Vec<"@.drop_last());
    assert(separator_free(vec_name));
    stripped_keeps_plain_names(vec_name);
    generic_types_are_named_around_their_argument(vec_path, argument);
    assert("alloc::vec::Vec<"@ + argument + ">"@ =~= vec_path.push('<') + argument.push('>'));
    assert("Vec<"@ + stripped(argument) + ">"@ =~= vec_name.push('<') + stripped(argument).push(
        '>',
    ));
    let option_path = "core::option::Option<"@.drop_last();
    let option_rest = option_path.skip(6);
    let option_name = option_rest.skip(8);
    assert(separator_at(option_path, 4));
    lemma_stripped_module(option_path, 4);
    assert(separator_at(option_rest, 6));
    lemma_stripped_module(option_rest, 6);
    assert(option_name =~= "Option<"@.drop_last());
    assert(separator_free(option_name));
    stripped_keeps_plain_names(option_name);
    generic_types_are_named_around_their_argument(option_path, argument);
    assert("core::option::Option<"@ + argument + ">"@ =~= option_path.push('<') + argument.push(
        '>',
    ));
    assert("Option<"@ + stripped(argument) + ">"@ =~= option_name.push('<') + stripped(
        argument,
    ).push('>'));
}

// ---------------------------------------------------------------------------
// Handler names
// ---------------------------------------------------------------------------

/// Where the last path separator stands; -1 if there is none.
pub open spec fn last_separator(s: Seq<char>) -> int
    decreases s.len(),
{
    if s.len() < 2 {
        -1
    } else if separator_at(s, s.len() - 2) {
        s.len() - 2
    } else {
        last_separator(s.drop_last())
    }
}

/// The component stands for a compiler-made item, such as `{{closure}}`.
pub open spec fn is_synthetic(component: Seq<char>) -> bool {
    component.len() > 0 && component[0] == '{'
}

/// The last component of a path that is not compiler-made.
pub open spec fn last_written_component(path: Seq<char>) -> Option<Seq<char>>
    decreases path.len(),
{
    let at = last_separator(path);
    if 0 <= at && at + 2 <= path.len() {
        let component = path.skip(at + 2);
        if is_synthetic(component) {
            last_written_component(path.take(at))
        } else {
            Some(component)
        }
    } else if is_synthetic(path) {
        None
    } else {
        Some(path)
    }
}

/// The name of the function that the path leads to; the whole path, if each of
/// its components is compiler-made.
pub open spec fn handler_name(path: Seq<char>) -> Seq<char> {
    match last_written_component(path) {
        Some(component) => component,
        None => path,
    }
}

proof fn lemma_last_separator(s: Seq<char>)
    ensures
        -1 <= last_separator(s),
        last_separator(s) >= 0 ==> separator_at(s, last_separator(s)),
        forall|i: int| last_separator(s) < i ==> !#[trigger] separator_at(s, i),
    decreases s.len(),
{
    if s.len() >= 2 && !separator_at(s, s.len() - 2) {
        let front = s.drop_last();
        lemma_last_separator(front);
        assert forall|i: int| last_separator(s) < i implies !#[trigger] separator_at(s, i) by {
            if separator_at(s, i) {
                assert(separator_at(front, i));
            }
        }
    }
}

/// The last separator is where the last separator is.
proof fn lemma_is_last_separator(s: Seq<char>, at: int)
    requires
        -1 <= at,
        at >= 0 ==> separator_at(s, at),
        forall|i: int| at < i ==> !#[trigger] separator_at(s, i),
    ensures
        last_separator(s) == at,
{
    lemma_last_separator(s);
    let found = last_separator(s);
    if found < at {
        assert(!separator_at(s, at));
    } else if at < found {
        assert(!separator_at(s, found));
    }
}

/// Extract the function name from the full name of a function item's type.
///
/// `"myapp::plugins::email_password::register"` becomes `"register"`. Suffixes
/// like `::{{closure}}` are passed over.
pub fn handler_name_from_type_name(full_name: &str) -> (name: &str)
    ensures
        name@ == handler_name(full_name@),
{
    let chars = chars_of(full_name);
    let ghost full = full_name@;
    // The component that ends at `end` reaches back at least to `i`.
    let mut end: usize = chars.len();
    let mut i: usize = chars.len();
    assert(full.take(full.len() as int) =~= full);
    while i > 0
        invariant
            chars@ == full,
            full == full_name@,
            i <= end <= full.len(),
            last_written_component(full) == last_written_component(full.take(end as int)),
            forall|j: int| i <= j ==> !#[trigger] separator_at(full.take(end as int), j),
        decreases i,
    {
        let ghost path = full.take(end as int);
        i = i - 1;
        if chars[i] == ':' && i + 1 < end && chars[i + 1] == ':' {
            assert(separator_at(path, i as int));
            proof {
                lemma_is_last_separator(path, i as int);
                assert(path.skip(i + 2) =~= full.subrange(i + 2, end as int));
            }
            if i + 2 == end || chars[i + 2] != '{' {
                return full_name.substring_char(i + 2, end);
            }
            proof {
                assert(is_synthetic(path.skip(i + 2)));
                assert(path.take(i as int) =~= full.take(i as int));
            }
            end = i;
            assert forall|j: int| i <= j implies !#[trigger] separator_at(
                full.take(end as int),
                j,
            ) by {}
        } else {
            assert(!separator_at(path, i as int));
        }
    }
    proof {
        lemma_is_last_separator(full.take(end as int), -1);
        assert forall|j: int| -1 < j implies !#[trigger] separator_at(full.take(end as int), j) by {}
    }
    if end == 0 || chars[0] != '{' {
        full_name.substring_char(0, end)
    } else {
        full_name
    }
}

/// A compiler-made suffix does not change which function a path leads to.
pub proof fn synthetic_suffix_is_passed_over(path: Seq<char>, suffix: Seq<char>)
    requires
        last_written_component(path) is Some,
        is_synthetic(suffix),
        separator_free(suffix),
    ensures
        handler_name(path + seq![':', ':'] + suffix) == handler_name(path),
{
    let whole = path + seq![':', ':'] + suffix;
    let at = path.len() as int;
    assert(separator_at(whole, at));
    assert forall|i: int| at < i implies !#[trigger] separator_at(whole, i) by {
        if separator_at(whole, i) {
            if i == at + 1 {
                assert(whole[i + 1] == suffix[0]);
            } else {
                assert(separator_at(suffix, i - at - 2));
            }
        }
    }
    lemma_is_last_separator(whole, at);
    assert(whole.skip(at + 2) =~= suffix);
    assert(whole.take(at) =~= path);
}

/// A handler's name holds no path separator and is not compiler-made, unless
/// the whole path is.
pub proof fn handler_name_is_one_component(path: Seq<char>)
    requires
        last_written_component(path) is Some,
    ensures
        separator_free(handler_name(path)),
        !is_synthetic(handler_name(path)),
    decreases path.len(),
{
    lemma_last_separator(path);
    let at = last_separator(path);
    if at >= 0 {
        let component = path.skip(at + 2);
        if is_synthetic(component) {
            handler_name_is_one_component(path.take(at));
        } else {
            assert forall|i: int| !#[trigger] separator_at(component, i) by {
                if separator_at(component, i) {
                    assert(separator_at(path, i + at + 2));
                }
            }
        }
    } else {
        assert forall|i: int| !#[trigger] separator_at(path, i) by {}
    }
}

/// A text without `::` names its function itself.
pub proof fn single_components_are_kept(s: Seq<char>)
    requires
        forall|i: int| 0 <= i < s.len() - 1 ==> !(#[trigger] s[i] == ':' && s[i + 1] == ':'),
    ensures
        handler_name(s) == s,
{
    assert forall|i: int| -1 < i implies !#[trigger] separator_at(s, i) by {
        if separator_at(s, i) {
            assert(s[i] == ':');
        }
    }
    lemma_is_last_separator(s, -1);
}

proof fn lemma_last_component(path: Seq<char>, component: Seq<char>)
    requires
        forall|i: int|
            0 <= i < component.len() - 1 ==> !(#[trigger] component[i] == ':' && component[i + 1]
                == ':'),
        component.len() > 0 ==> component[0] != ':',
    ensures
        last_separator(path + seq![':', ':'] + component) == path.len(),
        (path + seq![':', ':'] + component).skip((path.len() + 2) as int) == component,
        (path + seq![':', ':'] + component).take(path.len() as int) == path,
{
    let whole = path + seq![':', ':'] + component;
    let at = path.len() as int;
    assert(separator_at(whole, at));
    assert forall|i: int| at < i implies !#[trigger] separator_at(whole, i) by {
        if separator_at(whole, i) {
            if i == at + 1 {
                assert(whole[i + 1] == component[0]);
            } else {
                assert(component[i - at - 2] == whole[i]);
                assert(component[i - at - 1] == whole[i + 1]);
            }
        }
    }
    lemma_is_last_separator(whole, at);
    assert(whole.skip(at + 2) =~= component);
    assert(whole.take(at) =~= path);
}

/// The last component of a path names the function, unless it starts with `{`.
pub proof fn the_last_component_is_the_name(path: Seq<char>, component: Seq<char>)
    requires
        forall|i: int|
            0 <= i < component.len() - 1 ==> !(#[trigger] component[i] == ':' && component[i + 1]
                == ':'),
        component.len() > 0 ==> component[0] != ':' && component[0] != '{',
    ensures
        handler_name(path + seq![':', ':'] + component) == component,
{
    lemma_last_component(path, component);
}

proof fn lemma_name_starts_with_brace(path: Seq<char>)
    ensures
        (last_written_component(path) is None) == (handler_name(path).len() > 0 && handler_name(
            path,
        )[0] == '{'),
    decreases path.len(),
{
    lemma_last_separator(path);
    let at = last_separator(path);
    if at >= 0 && is_synthetic(path.skip(at + 2)) {
        lemma_name_starts_with_brace(path.take(at));
        if last_written_component(path) is None {
            assert(handler_name(path.take(at)) == path.take(at));
            assert(path.take(at)[0] == path[0]);
        }
    }
}

/// A last component that starts with `{` is passed over: the function is the one
/// that the rest of the path leads to. If each component starts with `{`, the
/// whole path is the name.
pub proof fn braced_components_are_passed_over(path: Seq<char>, component: Seq<char>)
    requires
        forall|i: int|
            0 <= i < component.len() - 1 ==> !(#[trigger] component[i] == ':' && component[i + 1]
                == ':'),
        component.len() > 0,
        component[0] == '{',
    ensures
        ({
            let rest = handler_name(path);
            let whole = path + seq![':', ':'] + component;
            handler_name(whole) == if rest.len() > 0 && rest[0] == '{' {
                whole
            } else {
                rest
            }
        }),
{
    lemma_last_component(path, component);
    lemma_name_starts_with_brace(path);
}

// ---------------------------------------------------------------------------
// Camel case
// ---------------------------------------------------------------------------

/// An ASCII lower case letter made upper case; any other character as it is.
pub open spec fn ascii_upper(ch: char) -> char {
    if 'a' <= ch <= 'z' {
        (ch as u32 - 32) as char
    } else {
        ch
    }
}

/// A word with its first letter in upper case.
pub open spec fn capitalized(word: Seq<char>) -> Seq<char> {
    if word.len() == 0 {
        word
    } else {
        word.update(0, ascii_upper(word[0]))
    }
}

/// Words run together: the first as it is, each later one capitalized.
pub open spec fn camel_words(words: Seq<Seq<char>>) -> Seq<char>
    decreases words.len(),
{
    if words.len() == 0 {
        Seq::empty()
    } else if words.len() == 1 {
        words[0]
    } else {
        camel_words(words.drop_last()) + capitalized(words.last())
    }
}

/// A snake case name in camel case.
pub open spec fn camel(name: Seq<char>) -> Seq<char> {
    camel_words(split(name, '_'))
}

fn to_ascii_upper(ch: char) -> (upper: char)
    ensures
        upper == ascii_upper(ch),
{
    if 'a' <= ch && ch <= 'z' {
        (ch as u8 - 32) as char
    } else {
        ch
    }
}

/// What one more character adds.
proof fn lemma_camel_push(name: Seq<char>, ch: char)
    ensures
        split(name.push(ch), '_').len() >= 1,
        ch == '_' ==> camel(name.push(ch)) == camel(name) && split(name.push(ch), '_').len() > 1
            && split(name.push(ch), '_').last().len() == 0,
        ch != '_' ==> split(name.push(ch), '_').last().len() > 0,
        ch != '_' && split(name, '_').len() > 1 && split(name, '_').last().len() == 0
            ==> camel(name.push(ch)) == camel(name).push(ascii_upper(ch)),
        ch != '_' && !(split(name, '_').len() > 1 && split(name, '_').last().len() == 0)
            ==> camel(name.push(ch)) == camel(name).push(ch),
{
    let grown = name.push(ch);
    let words = split(name, '_');
    lemma_split_nonempty(name, '_');
    assert(grown.drop_last() =~= name);
    let after = split(grown, '_');
    if ch == '_' {
        assert(after.drop_last() =~= words);
        assert(camel(grown) =~= camel(name));
    } else {
        let word = words.last().push(ch);
        assert(after.drop_last() =~= words.drop_last());
        assert(after.last() == word);
        if words.len() == 1 {
            assert(words.last() == words[0]);
            assert(camel(grown) =~= camel(name).push(ch));
        } else if words.last().len() == 0 {
            assert(capitalized(word) =~= seq![ascii_upper(ch)]);
            assert(camel(grown) =~= camel(name).push(ascii_upper(ch)));
        } else {
            assert(capitalized(word) =~= capitalized(words.last()).push(ch));
            assert(camel(grown) =~= camel(name).push(ch));
        }
    }
}

/// Convert `snake_case` to `camelCase`.
///
/// `"forgot_password"` becomes `"forgotPassword"`, `"register"` stays
/// `"register"`.
pub fn snake_to_camel(s: &str) -> (name: String)
    ensures
        name@ == camel(s@),
{
    let mut result = String::new();
    let mut capitalize_next: bool = false;
    for ch in it: s.chars()
        invariant
            it.seq() == s@,
            result@ == camel(s@.take(it.index())),
            capitalize_next == (split(s@.take(it.index()), '_').len() > 1 && split(
                s@.take(it.index()),
                '_',
            ).last().len() == 0),
    {
        proof {
            assert(s@.take(it.index() + 1) =~= s@.take(it.index()).push(ch));
            lemma_camel_push(s@.take(it.index()), ch);
        }
        if ch == '_' {
            capitalize_next = true;
        } else if capitalize_next {
            result.push(to_ascii_upper(ch));
            capitalize_next = false;
        } else {
            result.push(ch);
        }
    }
    assert(s@.take(s@.len() as int) =~= s@);
    result
}

/// Derive a camel case client method name from the full name of a handler
/// function's type.
pub fn default_name_from_handler(full_name: &str) -> (name: String)
    ensures
        name@ == camel(handler_name(full_name@)),
{
    snake_to_camel(handler_name_from_type_name(full_name))
}

proof fn lemma_camel_words_no_underscore(words: Seq<Seq<char>>)
    requires
        forall|i: int| 0 <= i < words.len() ==> !(#[trigger] words[i]).contains('_'),
    ensures
        !camel_words(words).contains('_'),
    decreases words.len(),
{
    if words.len() == 1 {
        assert(!words[0].contains('_'));
    } else if words.len() > 1 {
        let front = words.drop_last();
        assert forall|i: int| 0 <= i < front.len() implies !(#[trigger] front[i]).contains('_') by {
            assert(front[i] == words[i]);
        }
        lemma_camel_words_no_underscore(front);
        let word = words[words.len() - 1];
        assert(!word.contains('_'));
        let whole = camel_words(front) + capitalized(word);
        assert forall|i: int| 0 <= i < whole.len() implies whole[i] != '_' by {
            if i < camel_words(front).len() {
                assert(whole[i] == camel_words(front)[i]);
            } else {
                let j = i - camel_words(front).len();
                assert(whole[i] == capitalized(word)[j]);
                assert(word[j] != '_');
            }
        }
    }
}

/// An underscore at the end of a name does not show.
pub proof fn camel_drops_an_underscore(name: Seq<char>)
    ensures
        camel(name.push('_')) == camel(name),
{
    lemma_camel_push(name, '_');
}

/// Behind an underscore a lower case ASCII letter becomes the upper case letter
/// with the code that is smaller by 32; any other character stays.
pub proof fn camel_raises_behind_an_underscore(name: Seq<char>, ch: char)
    requires
        ch != '_',
    ensures
        'a' <= ch <= 'z' ==> camel(name.push('_').push(ch)) == camel(name).push(
            (ch as u32 - 32) as char,
        ),
        !('a' <= ch <= 'z') ==> camel(name.push('_').push(ch)) == camel(name).push(ch),
{
    lemma_camel_push(name, '_');
    lemma_camel_push(name.push('_'), ch);
}

/// Behind any other character, and at the start of a name, a character stays.
pub proof fn camel_keeps_inside_a_word(name: Seq<char>, ch: char)
    requires
        ch != '_',
        name.len() > 0 ==> name.last() != '_',
    ensures
        camel(name.push(ch)) == camel(name).push(ch),
{
    if name.len() > 0 {
        lemma_camel_push(name.drop_last(), name.last());
        assert(name.drop_last().push(name.last()) =~= name);
    } else {
        assert(split(name, '_') =~= seq![Seq::<char>::empty()]);
    }
    lemma_camel_push(name, ch);
}

/// A name without its underscores.
pub open spec fn without_underscores(name: Seq<char>) -> Seq<char> {
    name.filter(|ch: char| ch != '_')
}

/// Converting a name drops its underscores and changes nothing else but the case
/// of ASCII letters, and that from lower to upper.
pub proof fn camel_changes_case_only(name: Seq<char>)
    ensures
        camel(name).len() == without_underscores(name).len(),
        forall|i: int|
            0 <= i < camel(name).len() ==> #[trigger] camel(name)[i] == without_underscores(
                name,
            )[i] || camel(name)[i] == ascii_upper(without_underscores(name)[i]),
    decreases name.len(),
{
    let kept = |ch: char| ch != '_';
    reveal(Seq::filter);
    if name.len() == 0 {
        assert(split(name, '_') =~= seq![Seq::<char>::empty()]);
    } else {
        let front = name.drop_last();
        camel_changes_case_only(front);
        lemma_camel_push(front, name.last());
        assert(front.push(name.last()) =~= name);
        assert(name.filter(kept) == if kept(name.last()) {
            front.filter(kept).push(name.last())
        } else {
            front.filter(kept)
        });
        assert forall|i: int| 0 <= i < camel(name).len() implies #[trigger] camel(name)[i]
            == without_underscores(name)[i] || camel(name)[i] == ascii_upper(
            without_underscores(name)[i],
        ) by {
            if i < camel(front).len() {
                assert(camel(name)[i] == camel(front)[i]);
                assert(without_underscores(name)[i] == without_underscores(front)[i]);
            }
        }
    }
}

/// A camel case name holds no underscore.
pub proof fn camel_has_no_underscore(name: Seq<char>)
    ensures
        !camel(name).contains('_'),
{
    lemma_split_pieces_free(name, '_');
    lemma_camel_words_no_underscore(split(name, '_'));
}

/// A name without underscores is left as it is.
pub proof fn camel_keeps_single_words(name: Seq<char>)
    requires
        !name.contains('_'),
    ensures
        camel(name) == name,
{
    lemma_split_whole(name, '_');
}

/// Converting a name a second time changes nothing.
pub proof fn camel_is_idempotent(name: Seq<char>)
    ensures
        camel(camel(name)) == camel(name),
{
    camel_has_no_underscore(name);
    camel_keeps_single_words(camel(name));
}

} // verus!
