//! Names of catalogue files: `{domain}.{locale}.{ext}`.
use vstd::prelude::*;

use crate::error::Error;
use crate::loader::error::Error as LoadingError;
use crate::locale::locale_of_code;
use crate::locale::Locale;
use crate::table::text_eq;
use vstd::string::*;

verus! {

/// The last `.` of `s` before index `i`.
pub open spec fn last_dot(s: Seq<char>, i: int) -> Option<int>
    decreases i,
{
    if i <= 0 || i > s.len() {
        None
    } else if s[i - 1] == '.' {
        Some(i - 1)
    } else {
        last_dot(s, i - 1)
    }
}

/// Whether `e` is an `InvalidFilenameFormat` error with message `text`.
pub open spec fn is_file_name_error(e: Error, text: Seq<char>) -> bool {
    match e {
        Error::LoadingError(LoadingError::InvalidFilenameFormat(t)) => t@ == text,
        _ => false,
    }
}

/// The message for a stem without a `.`; `sync` picks the wording of the
/// loader that reads the directory without an async runtime.
pub open spec fn format_error_text(stem: Seq<char>, ext: Seq<char>, sync: bool) -> Seq<char> {
    (if sync {
        "invalid filename: format, expected `{domain}.{locale}.{ext}` but got `"@
    } else {
        "invalid filename: format, expected `{domain}.{locale}.{ext}` for `"@
    }) + stem + "."@ + ext + "`."@
}

/// What `catalogue_file` and `catalogue_file_sync` give.
pub open spec fn file_name_result(
    r: Result<(String, Locale), Error>,
    stem: Seq<char>,
    ext: Seq<char>,
    sync: bool,
) -> bool {
    match last_dot(stem, stem.len() as int) {
        None => r is Err && is_file_name_error(r->Err_0, format_error_text(stem, ext, sync)),
        Some(p) => match locale_of_code(stem.subrange(p + 1, stem.len() as int)) {
            Some(l) => r is Ok && r->Ok_0.0@ == stem.subrange(0, p) && r->Ok_0.1 == l,
            None => r is Err && is_file_name_error(
                r->Err_0,
                locale_error_text(stem.subrange(p + 1, stem.len() as int), stem, ext),
            ),
        },
    }
}

/// Whether `ext` is one of `extensions`.
pub fn is_listed(ext: &str, extensions: &Vec<String>) -> (r: bool)
    ensures
        r == exists|i: int| 0 <= i < extensions@.len() && #[trigger] extensions@[i]@ == ext@,
{
    let mut i: usize = 0;
    while i < extensions.len()
        invariant
            i <= extensions.len(),
            forall|j: int| 0 <= j < i ==> #[trigger] extensions@[j]@ != ext@,
        decreases extensions.len() - i,
    {
        if text_eq(extensions[i].as_str(), ext) {
            return true;
        }
        i = i + 1;
    }
    false
}

pub open spec fn locale_error_text(name: Seq<char>, stem: Seq<char>, ext: Seq<char>) -> Seq<char> {
    "invalid filename: locale, expected valid locale code, found `"@ + name + "` in `"@ + stem
        + "."@ + ext + "`."@
}

/// Reads the stem of a catalogue file, `{domain}.{locale}`, as its domain
/// and locale; `ext` is the extension, for the error message.
pub fn catalogue_file(stem: &str, ext: &str) -> (r: Result<(String, Locale), Error>)
    ensures
        file_name_result(r, stem@, ext@, false),
{
    read_file_name(stem, ext, false)
}

/// As `catalogue_file`, with the wording of the loader that reads the
/// directory without an async runtime.
pub fn catalogue_file_sync(stem: &str, ext: &str) -> (r: Result<(String, Locale), Error>)
    ensures
        file_name_result(r, stem@, ext@, true),
{
    read_file_name(stem, ext, true)
}

fn read_file_name(stem: &str, ext: &str, sync: bool) -> (r: Result<(String, Locale), Error>)
    ensures
        file_name_result(r, stem@, ext@, sync),
{
    let n = stem.unicode_len();
    let mut i = n;
    while i > 0 && stem.get_char(i - 1) != '.'
        invariant
            n == stem@.len(),
            i <= n,
            last_dot(stem@, n as int) == last_dot(stem@, i as int),
        decreases i,
    {
        i = i - 1;
    }
    if i == 0 {
        let mut t = String::new();
        if sync {
            t.append("invalid filename: format, expected `{domain}.{locale}.{ext}` but got `");
        } else {
            t.append("invalid filename: format, expected `{domain}.{locale}.{ext}` for `");
        }
        t.append(stem);
        t.append(".");
        t.append(ext);
        t.append("`.");
        return Err(Error::LoadingError(LoadingError::InvalidFilenameFormat(t)));
    }
    let p = i - 1;
    let name = stem.substring_char(p + 1, n);
    match Locale::try_from_str(name) {
        Ok(l) => Ok((stem.substring_char(0, p).to_owned(), l)),
        Err(_) => {
            let mut t = String::new();
            t.append("invalid filename: locale, expected valid locale code, found `");
            t.append(name);
            t.append("` in `");
            t.append(stem);
            t.append(".");
            t.append(ext);
            t.append("`.");
            Err(Error::LoadingError(LoadingError::InvalidFilenameFormat(t)))
        },
    }
}

} // verus!
