//! The filename queries: validity, extension and name, and classification.
use vstd::prelude::*;
use crate::kinds::{exec_kind, img_kind, ExecType, FileType, ImgType};
use crate::tables::{
    default_invalid, executable_formats, executable_table, image_formats, image_table,
    invalid_chars,
};
use crate::text::{
    chars_of, contains_char, ends_with_chars, has_any, has_any_of, is_suffix, listed, listed_in,
    lower_of, lowercase, split_last_dot, trim, trim_of, views,
};

verus! {

/// The position of the last `'.'` in `s`, if there is one.
pub open spec fn last_dot(s: Seq<char>) -> Option<int>
    decreases s.len(),
{
    if s.len() == 0 {
        None
    } else if s.last() == '.' {
        Some(s.len() - 1)
    } else {
        last_dot(s.drop_last())
    }
}

/// `s` has a dot, and the text from its last dot on holds no forbidden
/// character.
pub open spec fn has_some_extension_of(s: Seq<char>) -> bool {
    match last_dot(s) {
        Some(i) => !has_any_of(s.skip(i), default_invalid()),
        None => false,
    }
}

/// The trimmed text after the last dot, where `s` has an extension.
pub open spec fn extension_of(s: Seq<char>) -> Option<Seq<char>> {
    match last_dot(s) {
        Some(i) => if has_some_extension_of(s) {
            Some(trim_of(s.skip(i + 1)))
        } else {
            None
        },
        None => None,
    }
}

/// The text before the last dot where `s` has an extension, else all of `s`.
pub open spec fn name_of(s: Seq<char>) -> Seq<char> {
    match last_dot(s) {
        Some(i) => if has_some_extension_of(s) {
            s.take(i)
        } else {
            s
        },
        None => s,
    }
}

/// `s` begins with a space.
pub open spec fn starts_with_space(s: Seq<char>) -> bool {
    s.len() > 0 && s[0] == ' '
}

/// No forbidden character, no leading space, no replacement character.
pub open spec fn valid_filename_of(s: Seq<char>) -> bool {
    !has_any_of(s, default_invalid()) && !starts_with_space(s) && !s.contains('\u{FFFD}')
}

/// The lowercased extension of `s` is one of `exts`.
pub open spec fn has_extension_of(s: Seq<char>, exts: Seq<Seq<char>>) -> bool {
    match extension_of(s) {
        Some(e) => listed_in(lower_of(e), exts),
        None => false,
    }
}

/// `s` is a valid filename whose lowercased extension is one of `exts`.
pub open spec fn valid_file_with_ext_of(s: Seq<char>, exts: Seq<Seq<char>>) -> bool {
    valid_filename_of(s) && has_some_extension_of(s) && has_extension_of(s, exts)
}

/// The extension of `s`, as it stands, is in the executable table.
pub open spec fn executable_of(s: Seq<char>) -> bool {
    match extension_of(s) {
        Some(e) => listed_in(e, executable_formats()),
        None => false,
    }
}

/// `lowered` ends with one of the image formats.
pub open spec fn image_name(lowered: Seq<char>) -> bool {
    exists|i: int|
        0 <= i < image_formats().len() && is_suffix(#[trigger] image_formats()[i], lowered)
}

/// The family of the filename `s`, whose lowercase form is `lowered`.
pub open spec fn file_type_of(s: Seq<char>, lowered: Seq<char>) -> FileType {
    match extension_of(s) {
        Some(e) => if image_name(lowered) {
            match img_kind(e) {
                Some(k) => FileType::Image(k),
                None => FileType::Unknown,
            }
        } else if listed_in(e, executable_formats()) {
            match exec_kind(e) {
                Some(k) => FileType::Executable(k),
                None => FileType::Unknown,
            }
        } else {
            FileType::Unknown
        },
        None => FileType::Unknown,
    }
}

/// Where the lowercase form `lowered` of `s` marks an image, the extension of
/// `s` names an image format.
pub open spec fn file_type_defined(s: Seq<char>, lowered: Seq<char>) -> bool {
    match extension_of(s) {
        Some(e) => image_name(lowered) ==> img_kind(e) is Some,
        None => true,
    }
}

pub proof fn lemma_last_dot_split(s: Seq<char>, a: Seq<char>, b: Seq<char>)
    requires
        s == a + seq!['.'] + b,
        !b.contains('.'),
    ensures
        last_dot(s) == Some(a.len() as int),
        s.take(a.len() as int) == a,
        s.skip(a.len() as int + 1) == b,
    decreases b.len(),
{
    assert(s.take(a.len() as int) =~= a);
    assert(s.skip(a.len() as int + 1) =~= b);
    if b.len() > 0 {
        assert(s.last() == b[b.len() - 1]);
        assert(!b.drop_last().contains('.')) by {
            if b.drop_last().contains('.') {
                let k = choose|k: int| 0 <= k < b.drop_last().len() && b.drop_last()[k] == '.';
                assert(b[k] == '.');
            }
        }
        assert(s.drop_last() =~= a + seq!['.'] + b.drop_last());
        lemma_last_dot_split(s.drop_last(), a, b.drop_last());
    }
}

pub proof fn lemma_no_dot(s: Seq<char>)
    requires
        !s.contains('.'),
    ensures
        last_dot(s) is None,
    decreases s.len(),
{
    if s.len() > 0 {
        assert(s.last() == s[s.len() - 1]);
        assert(!s.drop_last().contains('.')) by {
            if s.drop_last().contains('.') {
                let k = choose|k: int| 0 <= k < s.drop_last().len() && s.drop_last()[k] == '.';
                assert(s[k] == '.');
            }
        }
        lemma_no_dot(s.drop_last());
    }
}

/// A leading dot adds no forbidden character.
pub proof fn lemma_dot_is_allowed(b: Seq<char>)
    ensures
        has_any_of(seq!['.'] + b, default_invalid()) == has_any_of(b, default_invalid()),
{
    let d = seq!['.'] + b;
    let set = default_invalid();
    assert forall|i: int| 0 <= i < set.len() implies d.contains(#[trigger] set[i]) == b.contains(
        set[i],
    ) by {
        if d.contains(set[i]) {
            let k = choose|k: int| 0 <= k < d.len() && d[k] == set[i];
            assert(k > 0);
            assert(b[k - 1] == set[i]);
        }
        if b.contains(set[i]) {
            let k = choose|k: int| 0 <= k < b.len() && b[k] == set[i];
            assert(d[k + 1] == set[i]);
        }
    }
}

/// Whether the lowercase filename `lowered` ends with one of the image formats.
pub fn is_image_name(lowered: &str) -> (r: bool)
    ensures
        r == image_name(lowered@),
{
    let v = chars_of(lowered);
    let table = image_table();
    let mut i: usize = 0;
    while i < 27
        invariant
            v@ == lowered@,
            views(table@) == image_formats(),
            i <= 27,
            forall|k: int| 0 <= k < i ==> !is_suffix(#[trigger] image_formats()[k], lowered@),
        decreases 27 - i,
    {
        let f = chars_of(table[i]);
        assert(f@ == image_formats()[i as int]);
        if ends_with_chars(&v, &f) {
            return true;
        }
        i += 1;
    }
    false
}

/// The family of `name`, whose lowercase form is `lowered`.
pub fn classify(name: &str, lowered: &str) -> (r: FileType)
    requires
        file_type_defined(name@, lowered@),
    ensures
        r == file_type_of(name@, lowered@),
{
    match name.get_extension() {
        Some(ext) => {
            if is_image_name(lowered) {
                FileType::Image(ImgType::get(ext))
            } else if name.is_executable() {
                FileType::Executable(ExecType::get(ext))
            } else {
                FileType::Unknown
            }
        },
        None => FileType::Unknown,
    }
}

/// The family of `name`, or `None` where its name marks an image whose
/// extension names no image format.
pub fn file_type_checked(name: &str) -> (r: Option<FileType>)
    ensures
        r is Some <==> file_type_defined(name@, lower_of(name@)),
        r matches Some(t) ==> t == file_type_of(name@, lower_of(name@)),
{
    let lowered = lowercase(name);
    let defined = match name.get_extension() {
        Some(ext) => !is_image_name(lowered.as_str()) || ImgType::parse(ext).is_some(),
        None => true,
    };
    if defined {
        Some(name.file_type())
    } else {
        None
    }
}

/// Queries on a filename.
pub trait AboutFile: View<V = Seq<char>> {
    /// Whether the text holds a character of `custom_chars`, or of the default
    /// forbidden set where none is given.
    fn has_invalid_chars(&self, custom_chars: Option<&[char]>) -> (r: bool)
        ensures
            r == has_any_of(
                self@,
                match custom_chars {
                    Some(c) => c@,
                    None => default_invalid(),
                },
            ),
    ;

    /// Whether the lowercased extension is one of `extensions`.
    fn has_extension(&self, extensions: &[&str]) -> (r: bool)
        ensures
            r == has_extension_of(self@, views(extensions@)),
    ;

    /// Whether there is a dot with no forbidden character from the last one on.
    fn has_some_extension(&self) -> (r: bool)
        ensures
            r == has_some_extension_of(self@),
    ;

    /// Whether the text holds U+FFFD.
    fn has_replacement_char(&self) -> (r: bool)
        ensures
            r == self@.contains('\u{FFFD}'),
    ;

    /// The trimmed text after the last dot, where there is an extension.
    fn get_extension(&self) -> (r: Option<&str>)
        ensures
            match r {
                Some(e) => extension_of(self@) == Some(e@),
                None => extension_of(self@) is None,
            },
    ;

    /// The text before the last dot where there is an extension, else all of it.
    fn get_name(&self) -> (r: &str)
        ensures
            r@ == name_of(self@),
    ;

    /// No forbidden character, no leading space and no replacement character.
    fn is_valid_filename(&self) -> (r: bool)
        ensures
            r == valid_filename_of(self@),
    ;

    /// A valid filename whose lowercased extension is one of `extensions`.
    fn is_valid_file_with_ext(&self, extensions: &[&str]) -> (r: bool)
        ensures
            r == valid_file_with_ext_of(self@, views(extensions@)),
    ;

    /// Whether the extension, case kept, is in the executable table.
    fn is_executable(&self) -> (r: bool)
        ensures
            r == executable_of(self@),
    ;

    /// A valid filename of an executable.
    fn is_valid_executable(&self) -> (r: bool)
        ensures
            r == (valid_filename_of(self@) && executable_of(self@)),
    ;

    /// Whether the lowercased text ends with an image format.
    fn is_image(&self) -> (r: bool)
        ensures
            r == image_name(lower_of(self@)),
    ;

    /// A valid filename of an image.
    fn is_valid_image(&self) -> (r: bool)
        ensures
            r == (image_name(lower_of(self@)) && valid_filename_of(self@)),
    ;

    /// The family of the filename and its format within it.
    fn file_type(&self) -> (r: FileType)
        requires
            file_type_defined(self@, lower_of(self@)),
        ensures
            r == file_type_of(self@, lower_of(self@)),
    ;
}

impl AboutFile for str {
    fn has_invalid_chars(&self, custom_chars: Option<&[char]>) -> (r: bool) {
        let v = chars_of(self);
        match custom_chars {
            Some(set) => has_any(&v, set),
            None => {
                let d = invalid_chars();
                has_any(&v, d.as_slice())
            },
        }
    }

    fn has_extension(&self, extensions: &[&str]) -> (r: bool) {
        match self.get_extension() {
            Some(ext) => {
                let lowered = lowercase(ext);
                listed(lowered.as_str(), extensions)
            },
            None => false,
        }
    }

    fn has_some_extension(&self) -> (r: bool) {
        match split_last_dot(self) {
            Some((a, b)) => {
                proof {
                    lemma_last_dot_split(self@, a@, b@);
                    assert(self@.skip(a@.len() as int) =~= seq!['.'] + b@);
                    lemma_dot_is_allowed(b@);
                }
                let v = chars_of(b);
                let d = invalid_chars();
                !has_any(&v, d.as_slice())
            },
            None => {
                proof {
                    lemma_no_dot(self@);
                }
                false
            },
        }
    }

    fn has_replacement_char(&self) -> (r: bool) {
        let v = chars_of(self);
        contains_char(&v, '\u{FFFD}')
    }

    fn get_extension(&self) -> (r: Option<&str>) {
        if self.has_some_extension() {
            match split_last_dot(self) {
                Some((a, b)) => {
                    proof {
                        lemma_last_dot_split(self@, a@, b@);
                    }
                    Some(trim(b))
                },
                None => {
                    proof {
                        lemma_no_dot(self@);
                    }
                    None
                },
            }
        } else {
            None
        }
    }

    fn get_name(&self) -> (r: &str) {
        if self.has_some_extension() {
            match split_last_dot(self) {
                Some((a, b)) => {
                    proof {
                        lemma_last_dot_split(self@, a@, b@);
                    }
                    a
                },
                None => {
                    proof {
                        lemma_no_dot(self@);
                    }
                    self
                },
            }
        } else {
            self
        }
    }

    fn is_valid_filename(&self) -> (r: bool) {
        let v = chars_of(self);
        let leading_space = v.len() > 0 && v[0] == ' ';
        let invalid = self.has_invalid_chars(None);
        let replacement = self.has_replacement_char();
        !invalid && !leading_space && !replacement
    }

    fn is_valid_file_with_ext(&self, extensions: &[&str]) -> (r: bool) {
        if self.is_valid_filename() && self.has_some_extension() {
            match self.get_extension() {
                Some(ext) => {
                    let lowered = lowercase(ext);
                    listed(lowered.as_str(), extensions)
                },
                None => false,
            }
        } else {
            false
        }
    }

    fn is_executable(&self) -> (r: bool) {
        match self.get_extension() {
            Some(ext) => {
                let table = executable_table();
                listed(ext, table.as_slice())
            },
            None => false,
        }
    }

    fn is_valid_executable(&self) -> (r: bool) {
        self.is_valid_filename() && self.is_executable()
    }

    fn is_image(&self) -> (r: bool) {
        let lowered = lowercase(self);
        is_image_name(lowered.as_str())
    }

    fn is_valid_image(&self) -> (r: bool) {
        self.is_image() && self.is_valid_filename()
    }

    fn file_type(&self) -> (r: FileType) {
        let lowered = lowercase(self);
        classify(self, lowered.as_str())
    }
}

} // verus!
