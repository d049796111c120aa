//! Where uploaded images are kept: the file of post `id` is named
//! `{id}.{ext}` inside the upload directory and served under `uploads/`.
//! Names are rebuilt from the post id and a fixed extension, never taken
//! from user input.

use vstd::prelude::*;
use crate::form::ValidatedPostForm;
use crate::image_ext::ImageExt;

verus! {

/// The decimal digit character for `d` (below 10).
pub open spec fn digit_char(d: nat) -> char {
    if d == 0 { '0' }
    else if d == 1 { '1' }
    else if d == 2 { '2' }
    else if d == 3 { '3' }
    else if d == 4 { '4' }
    else if d == 5 { '5' }
    else if d == 6 { '6' }
    else if d == 7 { '7' }
    else if d == 8 { '8' }
    else { '9' }
}

/// The decimal notation of a natural number, without leading zeros.
pub open spec fn decimal(n: nat) -> Seq<char>
    decreases n,
{
    if n < 10 {
        seq![digit_char(n)]
    } else {
        decimal(n / 10) + seq![digit_char(n % 10)]
    }
}

/// The decimal notation of an integer, with a leading `-` when negative.
pub open spec fn signed_decimal(n: int) -> Seq<char> {
    if n < 0 {
        seq!['-'] + decimal((-n) as nat)
    } else {
        decimal(n as nat)
    }
}

/// The file name of the image of post `id`: `{id}.{ext}`.
pub open spec fn spec_image_file_name(id: int, ext: ImageExt) -> Seq<char> {
    signed_decimal(id) + seq!['.'] + ext.spec_extension()
}

/// The path of the image of post `id` relative to the site root:
/// `uploads/{id}.{ext}`.
pub open spec fn spec_image_relative_path(id: int, ext: ImageExt) -> Seq<char> {
    "uploads/"@ + spec_image_file_name(id, ext)
}

/// The one-character string of a decimal digit.
fn digit_str(d: u64) -> (s: &'static str)
    requires
        d < 10,
    ensures
        s@ == seq![digit_char(d as nat)],
{
    proof {
        reveal_strlit("0");
        reveal_strlit("1");
        reveal_strlit("2");
        reveal_strlit("3");
        reveal_strlit("4");
        reveal_strlit("5");
        reveal_strlit("6");
        reveal_strlit("7");
        reveal_strlit("8");
        reveal_strlit("9");
    }
    if d == 0 { "0" }
    else if d == 1 { "1" }
    else if d == 2 { "2" }
    else if d == 3 { "3" }
    else if d == 4 { "4" }
    else if d == 5 { "5" }
    else if d == 6 { "6" }
    else if d == 7 { "7" }
    else if d == 8 { "8" }
    else { "9" }
}

/// Appends the decimal notation of `n` to `s`.
fn append_decimal(s: &mut String, n: u64)
    ensures
        final(s)@ == old(s)@ + decimal(n as nat),
    decreases n,
{
    if n >= 10 {
        append_decimal(s, n / 10);
        s.append(digit_str(n % 10));
        assert(decimal(n as nat) == decimal((n / 10) as nat) + seq![digit_char((n % 10) as nat)]);
    } else {
        s.append(digit_str(n));
    }
}

/// Appends the decimal notation of `n`, with a `-` when negative.
fn append_signed_decimal(s: &mut String, n: i64)
    ensures
        final(s)@ == old(s)@ + signed_decimal(n as int),
{
    if n < 0 {
        s.append("-");
        proof {
            reveal_strlit("-");
        }
        let m: u64 = ((-(n + 1)) as u64) + 1;
        assert(m as int == -(n as int));
        append_decimal(s, m);
    } else {
        append_decimal(s, n as u64);
    }
}

/// The file name under which the image of post `id` is stored:
/// `{id}.{ext}`, for example `5.jpg`.
pub fn image_file_name(id: i64, ext: ImageExt) -> (name: String)
    ensures
        name@ == spec_image_file_name(id as int, ext),
        name@ == signed_decimal(id as int) + seq!['.'] + ext.spec_extension(),
{
    let mut name = String::new();
    append_signed_decimal(&mut name, id);
    name.append(".");
    name.append(ext.as_str());
    proof {
        reveal_strlit(".");
    }
    name
}

/// The path that the image of post `id` is recorded and served under:
/// `uploads/{id}.{ext}`.
pub fn image_relative_path(id: i64, ext: ImageExt) -> (path: String)
    ensures
        path@ == spec_image_relative_path(id as int, ext),
        path@ == "uploads/"@ + signed_decimal(id as int) + seq!['.'] + ext.spec_extension(),
{
    let mut path = String::from_str("uploads/");
    let name = image_file_name(id, ext);
    path.append(name.as_str());
    path
}

/// The names that an image of post `id` may be stored under, one for each
/// kind; removing an old image removes all of them, whatever its kind.
pub fn image_file_candidates(id: i64) -> (names: Vec<String>)
    ensures
        names@.len() == 3,
        names@[0]@ == spec_image_file_name(id as int, ImageExt::Jpg),
        names@[1]@ == spec_image_file_name(id as int, ImageExt::Gif),
        names@[2]@ == spec_image_file_name(id as int, ImageExt::Png),
{
    let mut names: Vec<String> = Vec::new();
    names.push(image_file_name(id, ImageExt::Jpg));
    names.push(image_file_name(id, ImageExt::Gif));
    names.push(image_file_name(id, ImageExt::Png));
    names
}

/// What an edit does to the post's image.
#[derive(Debug, Clone, Copy, PartialEq, Eq, Structural)]
pub enum ImageChange {
    /// The image stays as it is.
    Keep,
    /// The image is replaced by a new one of the given kind.
    Replace(ImageExt),
    /// The image is removed.
    Remove,
}

/// The image change that an edit form asks for: a new image replaces the
/// old one (the removal box is then ignored); without a new image, a
/// ticked removal box removes it; otherwise the image is kept.
pub open spec fn spec_image_change(form: ValidatedPostForm) -> ImageChange {
    match form.image {
        Some(img) => ImageChange::Replace(img.extension),
        None => if form.delete_image {
            ImageChange::Remove
        } else {
            ImageChange::Keep
        },
    }
}

/// Decides what an edit does to the post's image.
pub fn image_change(form: &ValidatedPostForm) -> (c: ImageChange)
    ensures
        c == spec_image_change(*form),
        form.image matches Some(img) ==> c == ImageChange::Replace(img.extension),
        form.image is None && form.delete_image ==> c == ImageChange::Remove,
        form.image is None && !form.delete_image ==> c == ImageChange::Keep,
{
    match &form.image {
        Some(img) => ImageChange::Replace(img.extension),
        None => if form.delete_image {
            ImageChange::Remove
        } else {
            ImageChange::Keep
        },
    }
}

/// The update of the post's image column for a change: `None` leaves the
/// column as it is, `Some(None)` clears it, and `Some(Some(path))` records
/// the new image's path.
pub fn image_column_update(id: i64, change: ImageChange) -> (u: Option<Option<String>>)
    ensures
        match change {
            ImageChange::Keep => u is None,
            ImageChange::Remove => u == Some(None::<String>),
            ImageChange::Replace(ext) => (u matches Some(Some(p)) && p@
                == spec_image_relative_path(id as int, ext)),
        },
{
    match change {
        ImageChange::Keep => None,
        ImageChange::Remove => Some(None),
        ImageChange::Replace(ext) => Some(Some(image_relative_path(id, ext))),
    }
}

} // verus!
