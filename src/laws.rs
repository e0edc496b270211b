//! Facts that tie the queries together.
use vstd::prelude::*;
use crate::about::{
    executable_of, extension_of, file_type_defined, file_type_of, has_extension_of,
    has_some_extension_of, lemma_dot_is_allowed, lemma_last_dot_split, lemma_no_dot, image_name, name_of, valid_file_with_ext_of, valid_filename_of,
};
use crate::tables::default_invalid;
use crate::text::{has_any_of, lower_of, trim_of, views};

verus! {

/// Every query answers from the characters of its input alone: two texts
/// with the same characters, such as one text asked twice, get the same
/// answers.
pub proof fn lemma_answers_depend_on_text_alone(a: &str, b: &str, extensions: &[&str])
    requires
        a@ == b@,
    ensures
        has_any_of(a@, default_invalid()) == has_any_of(b@, default_invalid()),
        has_some_extension_of(a@) == has_some_extension_of(b@),
        extension_of(a@) == extension_of(b@),
        name_of(a@) == name_of(b@),
        valid_filename_of(a@) == valid_filename_of(b@),
        has_extension_of(a@, views(extensions@)) == has_extension_of(b@, views(extensions@)),
        valid_file_with_ext_of(a@, views(extensions@)) == valid_file_with_ext_of(
            b@,
            views(extensions@),
        ),
        executable_of(a@) == executable_of(b@),
        image_name(lower_of(a@)) == image_name(lower_of(b@)),
        file_type_defined(a@, lower_of(a@)) == file_type_defined(b@, lower_of(b@)),
        file_type_of(a@, lower_of(a@)) == file_type_of(b@, lower_of(b@)),
{
}

/// Only the last dot splits name from extension: whatever dots `name` holds,
/// a clean tail `tail` without dots after one more dot is the extension
/// (trimmed), and `name` is the name.
pub proof fn lemma_last_dot_decides(name: Seq<char>, tail: Seq<char>)
    requires
        !tail.contains('.'),
        !has_any_of(tail, default_invalid()),
    ensures
        has_some_extension_of(name + seq!['.'] + tail),
        extension_of(name + seq!['.'] + tail) == Some(trim_of(tail)),
        name_of(name + seq!['.'] + tail) == name,
{
    let s = name + seq!['.'] + tail;
    lemma_last_dot_split(s, name, tail);
    assert(s.skip(name.len() as int) =~= seq!['.'] + tail);
    lemma_dot_is_allowed(tail);
}

/// A text without a dot has no extension and is its own name.
pub proof fn lemma_no_dot_no_extension(s: Seq<char>)
    requires
        !s.contains('.'),
    ensures
        !has_some_extension_of(s),
        extension_of(s) is None,
        name_of(s) == s,
{
    lemma_no_dot(s);
}

} // verus!
