//! Properties of the library that span its functions, proved over the
//! spec functions that their contracts use.

use vstd::prelude::*;
use crate::config::{default_allowed_mime, AppConfig};
use crate::database::spec_sqlite_file_path;
use crate::form::{form_errors, validated_from, FormError, PostFormInput, ValidatedPostForm};
use crate::image_ext::ImageExt;
use crate::query::{digits_value, is_digit, spec_page_from_raw};
use crate::storage::{
    decimal,
    digit_char,
    signed_decimal,
    spec_image_change,
    spec_image_file_name,
    spec_image_relative_path,
    ImageChange,
};

verus! {

/// Every image kind maps back from its own MIME type, and a MIME type maps
/// to a kind only if it is that kind's MIME type: the mapping is one to one.
pub proof fn law_mime_kind_one_to_one(m: Seq<char>, k: ImageExt)
    ensures
        ImageExt::spec_from_mime(k.spec_mime()) == Some(k),
        ImageExt::spec_from_mime(m) == Some(k) ==> m == k.spec_mime(),
{
    reveal_strlit("image/jpeg");
    reveal_strlit("image/gif");
    reveal_strlit("image/png");
    assert("image/jpeg"@.len() == 10 && "image/gif"@.len() == 9 && "image/png"@.len() == 9);
    assert("image/gif"@[6] == 'g' && "image/png"@[6] == 'p');
    assert("image/jpeg"@ != "image/gif"@);
    assert("image/jpeg"@ != "image/png"@);
    assert("image/gif"@ != "image/png"@);
}

/// A form that the rules accept meets them: whatever `infer` judged the
/// image to be, an accepted form has a title of 1 to 50 characters, a body
/// text of at most 500, and an image within the size limit whose kind's
/// MIME type is among the allowed ones.
pub proof fn law_accepted_form_meets_rules(
    form: ValidatedPostForm,
    input: PostFormInput,
    config: AppConfig,
    mime: Option<Seq<char>>,
)
    requires
        form_errors(input, config, mime).len() == 0,
        validated_from(form, input, config, mime),
    ensures
        form.meets_rules(config),
{
    if let Some(img) = form.image {
        if let Some(m) = mime {
            law_mime_kind_one_to_one(m, img.extension);
        }
    }
}

/// The MIME types allowed by default are exactly those that stand for an
/// image kind.
pub proof fn law_default_allowed_mime_are_the_kinds(m: Seq<char>)
    ensures
        default_allowed_mime().contains(m) <==> ImageExt::spec_from_mime(m) is Some,
{
    let d = default_allowed_mime();
    if ImageExt::spec_from_mime(m) is Some {
        if m == "image/jpeg"@ {
            assert(d[0] == m);
        } else if m == "image/gif"@ {
            assert(d[1] == m);
        } else {
            assert(d[2] == m);
        }
    }
}

/// Each decimal digit character belongs to exactly one digit value.
proof fn lemma_digit_char(a: nat, b: nat)
    requires
        a < 10,
        b < 10,
    ensures
        is_digit(digit_char(a)),
        digit_char(a) == digit_char(b) ==> a == b,
{
}

/// The decimal notation of a number is made of digits, and has at least
/// two of them from 10 on.
proof fn lemma_decimal_shape(n: nat)
    ensures
        decimal(n).len() >= 1,
        n >= 10 ==> decimal(n).len() >= 2,
        forall|i: int| 0 <= i < decimal(n).len() ==> is_digit(#[trigger] decimal(n)[i]),
    decreases n,
{
    if n >= 10 {
        lemma_decimal_shape(n / 10);
        lemma_digit_char(n % 10, 0);
        let p = decimal(n / 10);
        assert forall|i: int| 0 <= i < decimal(n).len() implies is_digit(#[trigger] decimal(n)[i]) by {
            if i < p.len() {
                assert(decimal(n)[i] == p[i]);
            }
        }
    } else {
        lemma_digit_char(n, 0);
    }
}

/// Different numbers have different decimal notations.
proof fn lemma_decimal_injective(a: nat, b: nat)
    requires
        decimal(a) == decimal(b),
    ensures
        a == b,
    decreases a,
{
    lemma_decimal_shape(a);
    lemma_decimal_shape(b);
    if a < 10 && b < 10 {
        lemma_digit_char(a, b);
        assert(decimal(a)[0] == digit_char(a));
        assert(decimal(b)[0] == digit_char(b));
    } else if a >= 10 && b >= 10 {
        let da = decimal(a);
        let db = decimal(b);
        assert(da.last() == digit_char(a % 10));
        assert(db.last() == digit_char(b % 10));
        lemma_digit_char(a % 10, b % 10);
        assert(da.drop_last() =~= decimal(a / 10));
        assert(db.drop_last() =~= decimal(b / 10));
        lemma_decimal_injective(a / 10, b / 10);
        assert(a == (a / 10) * 10 + a % 10);
        assert(b == (b / 10) * 10 + b % 10);
    } else if a < 10 {
        assert(decimal(a).len() == 1);
    } else {
        assert(decimal(b).len() == 1);
    }
}

/// Different integers have different signed decimal notations, none of
/// which holds a `/` or a `.`, and whose first character is a digit or `-`.
proof fn lemma_signed_decimal(a: int, b: int)
    ensures
        signed_decimal(a).len() >= 1,
        forall|i: int| 0 <= i < signed_decimal(a).len() ==> {
            let c = #[trigger] signed_decimal(a)[i];
            is_digit(c) || c == '-'
        },
        signed_decimal(a) == signed_decimal(b) ==> a == b,
{
    let na: nat = if a < 0 { (-a) as nat } else { a as nat };
    let nb: nat = if b < 0 { (-b) as nat } else { b as nat };
    lemma_decimal_shape(na);
    lemma_decimal_shape(nb);
    let sa = signed_decimal(a);
    let sb = signed_decimal(b);
    if a < 0 {
        assert forall|i: int| 0 <= i < sa.len() implies {
            let c = #[trigger] sa[i];
            is_digit(c) || c == '-'
        } by {
            if i > 0 {
                assert(sa[i] == decimal(na)[i - 1]);
            }
        }
    }
    if sa == sb {
        if a < 0 && b < 0 {
            assert(sa.drop_first() =~= decimal(na));
            assert(sb.drop_first() =~= decimal(nb));
            lemma_decimal_injective(na, nb);
        } else if a < 0 && b >= 0 {
            assert(is_digit(decimal(nb)[0]));
            assert(sa[0] == '-');
        } else if a >= 0 && b < 0 {
            assert(is_digit(decimal(na)[0]));
            assert(sb[0] == '-');
        } else {
            lemma_decimal_injective(na, nb);
        }
    }
}

/// The extension of each kind is three lower-case letters, and the kinds'
/// extensions differ.
proof fn lemma_extensions(e: ImageExt, f: ImageExt)
    ensures
        e.spec_extension().len() == 3,
        forall|i: int| 0 <= i < 3 ==> 'a' <= #[trigger] e.spec_extension()[i] <= 'z',
        e.spec_extension() == f.spec_extension() ==> e == f,
{
    reveal_strlit("jpg");
    reveal_strlit("gif");
    reveal_strlit("png");
    assert("jpg"@[0] != "gif"@[0] && "jpg"@[0] != "png"@[0] && "gif"@[0] != "png"@[0]);
}

/// Stored image names never leave the upload directory: the name of any
/// post's image holds no `/` and no backslash, holds no `..`, and does not start
/// with `.`.
pub proof fn law_image_file_name_stays_in_upload_dir(id: int, ext: ImageExt)
    ensures
        forall|i: int|
            0 <= i < spec_image_file_name(id, ext).len() ==> {
                let c = #[trigger] spec_image_file_name(id, ext)[i];
                c != '/' && c != '\\'
            },
        forall|i: int|
            0 <= i < spec_image_file_name(id, ext).len() - 1 ==> !(#[trigger] spec_image_file_name(
                id,
                ext,
            )[i] == '.' && spec_image_file_name(id, ext)[i + 1] == '.'),
        spec_image_file_name(id, ext)[0] != '.',
{
    lemma_signed_decimal(id, id);
    lemma_extensions(ext, ext);
    let s = signed_decimal(id);
    let name = spec_image_file_name(id, ext);
    assert forall|i: int| 0 <= i < name.len() implies {
        let c = #[trigger] name[i];
        c != '/' && c != '\\' && (c == '.' <==> i == s.len())
    } by {
        if i < s.len() {
            assert(name[i] == s[i]);
        } else if i > s.len() {
            assert(name[i] == ext.spec_extension()[i - s.len() - 1]);
        }
    }
    assert forall|i: int| 0 <= i < name.len() - 1 implies !(#[trigger] name[i] == '.' && name[i
        + 1] == '.') by {
        assert(name[i] == '.' <==> i == s.len());
        assert(name[i + 1] == '.' <==> i + 1 == s.len());
    }
    assert(name[0] == s[0]);
}

/// Two posts, or two kinds, never share an image file: distinct (post,
/// kind) pairs give distinct file names.
pub proof fn law_image_file_names_distinct(a: int, e: ImageExt, b: int, f: ImageExt)
    requires
        spec_image_file_name(a, e) == spec_image_file_name(b, f),
    ensures
        a == b,
        e == f,
{
    lemma_extensions(e, f);
    lemma_extensions(f, e);
    lemma_signed_decimal(a, b);
    let na = spec_image_file_name(a, e);
    let nb = spec_image_file_name(b, f);
    let sa = signed_decimal(a);
    let sb = signed_decimal(b);
    assert(na.len() == sa.len() + 4);
    assert(nb.len() == sb.len() + 4);
    assert(sa.len() == sb.len());
    assert(na.subrange(0, sa.len() as int) =~= sa);
    assert(nb.subrange(0, sb.len() as int) =~= sb);
    assert(na.subrange(sa.len() as int + 1, na.len() as int) =~= e.spec_extension());
    assert(nb.subrange(sb.len() as int + 1, nb.len() as int) =~= f.spec_extension());
}

/// The file of a database URL is what follows `sqlite://`: the URL names
/// the file `p` exactly when it is `sqlite://` followed by `p`, whatever its
/// length; a URL with another start names none.
pub proof fn law_sqlite_file_path_is_the_rest(url: Seq<char>, p: Seq<char>)
    ensures
        spec_sqlite_file_path(url) == Some(p) <==> url == "sqlite://"@ + p,
        spec_sqlite_file_path(url) is None <==> forall|q: Seq<char>| url != "sqlite://"@ + q,
{
    let sc = "sqlite://"@;
    if url == sc + p {
        assert(url.subrange(0, sc.len() as int) =~= sc);
        assert(url.subrange(sc.len() as int, url.len() as int) =~= p);
    }
    if spec_sqlite_file_path(url) == Some(p) {
        assert(url =~= sc + p);
    }
    if spec_sqlite_file_path(url) is None {
        assert forall|q: Seq<char>| url != sc + q by {
            if url == sc + q {
                assert(url.subrange(0, sc.len() as int) =~= sc);
            }
        }
    } else {
        let r = url.subrange(sc.len() as int, url.len() as int);
        assert(url =~= sc + r);
    }
}

/// An accepted form is the input as typed: the same title, the same body
/// text, the same removal flag, and, where an image was attached, the same
/// bytes; no image appears that was not attached.
pub proof fn law_accepted_form_keeps_the_input(
    form: ValidatedPostForm,
    input: PostFormInput,
    config: AppConfig,
    mime: Option<Seq<char>>,
)
    requires
        validated_from(form, input, config, mime),
    ensures
        form.title@ == input.title@,
        form.text@ == input.text@,
        form.delete_image == input.delete_image,
        input.image_bytes is None <==> form.image is None,
        form.image matches Some(img) ==> (input.image_bytes matches Some(b) && img.bytes@ == b@),
{
}

/// The value of a digit character is the digit it stands for.
proof fn lemma_digit_value(d: nat)
    requires
        d < 10,
    ensures
        (digit_char(d) as u32) - ('0' as u32) == d,
{
}

/// Reading back the decimal notation of a number gives the number.
pub proof fn law_digits_value_of_decimal(n: nat)
    ensures
        digits_value(decimal(n)) == n,
    decreases n,
{
    lemma_digit_value(n % 10);
    if n >= 10 {
        law_digits_value_of_decimal(n / 10);
        let d = decimal(n);
        assert(d.drop_last() =~= decimal(n / 10));
        assert(d.last() == digit_char(n % 10));
        assert(n == (n / 10) * 10 + n % 10);
        assert(digits_value(d) == digits_value(d.drop_last()) * 10 + ((d.last() as u32) - (
        '0' as u32)) as nat);
    } else {
        let d = decimal(n);
        assert(d.drop_last() =~= Seq::<char>::empty());
        assert(digits_value(Seq::<char>::empty()) == 0);
        assert(d.last() == digit_char(n));
        assert(digits_value(d) == digits_value(d.drop_last()) * 10 + ((d.last() as u32) - (
        '0' as u32)) as nat);
    }
}

/// A page value made of one or more ASCII digits, with or without one
/// leading `+`, gives the number those digits spell in decimal, whenever it
/// fits in `u32`.
pub proof fn law_page_reads_decimal_digits(s: Seq<char>)
    requires
        s.len() > 0,
        forall|i: int| 0 <= i < s.len() ==> '0' <= #[trigger] s[i] <= '9',
        digits_value(s) <= u32::MAX,
    ensures
        spec_page_from_raw(Some(s)) == digits_value(s),
        spec_page_from_raw(Some(seq!['+'] + s)) == digits_value(s),
{
    assert(s[0] != '+');
    assert forall|i: int| 0 <= i < s.len() implies is_digit(#[trigger] s[i]) by {
        assert('0' <= s[i] <= '9');
    }
    assert((seq!['+'] + s).drop_first() =~= s);
}

/// The page named by the decimal notation of any number up to `u32::MAX`
/// is that number: every page number can be asked for.
pub proof fn law_page_of_decimal(n: nat)
    requires
        n <= u32::MAX,
    ensures
        spec_page_from_raw(Some(decimal(n))) == n,
{
    lemma_decimal_shape(n);
    law_digits_value_of_decimal(n);
    assert forall|i: int| 0 <= i < decimal(n).len() implies '0' <= #[trigger] decimal(n)[i] <= '9' by {
        assert(is_digit(decimal(n)[i]));
    }
    law_page_reads_decimal_digits(decimal(n));
}

/// The name of a stored image spells the post id in decimal: reading back
/// what precedes its `.` gives the id, and what follows is the extension of
/// the image's kind.
pub proof fn law_image_file_name_spells_the_id(id: int, ext: ImageExt)
    ensures
        ({
            let name = spec_image_file_name(id, ext);
            let stem = name.subrange(0, name.len() - 4);
            &&& name.subrange(name.len() - 3, name.len() as int) == ext.spec_extension()
            &&& name[name.len() - 4] == '.'
            &&& id >= 0 ==> digits_value(stem) == id
            &&& id < 0 ==> stem[0] == '-' && digits_value(stem.drop_first()) == -id
        }),
{
    lemma_extensions(ext, ext);
    let name = spec_image_file_name(id, ext);
    let sd = signed_decimal(id);
    assert(name.len() == sd.len() + 4);
    assert(name.subrange(0, name.len() - 4) =~= sd);
    assert(name.subrange(name.len() - 3, name.len() as int) =~= ext.spec_extension());
    if id >= 0 {
        law_digits_value_of_decimal(id as nat);
    } else {
        law_digits_value_of_decimal((-id) as nat);
        assert(sd.drop_first() =~= decimal((-id) as nat));
    }
}

/// The path an image is recorded and served under is its stored file's
/// name inside `uploads/`.
pub proof fn law_relative_path_names_the_stored_file(id: int, ext: ImageExt)
    ensures
        spec_image_relative_path(id, ext) == "uploads/"@ + spec_image_file_name(id, ext),
{
}

/// Two posts, or two kinds, never share a recorded image path: distinct
/// (post, kind) pairs give distinct paths.
pub proof fn law_image_relative_paths_distinct(a: int, e: ImageExt, b: int, f: ImageExt)
    requires
        spec_image_relative_path(a, e) == spec_image_relative_path(b, f),
    ensures
        a == b,
        e == f,
{
    let pre = "uploads/"@;
    let pa = spec_image_relative_path(a, e);
    let pb = spec_image_relative_path(b, f);
    assert(pa.subrange(pre.len() as int, pa.len() as int) =~= spec_image_file_name(a, e));
    assert(pb.subrange(pre.len() as int, pb.len() as int) =~= spec_image_file_name(b, f));
    law_image_file_names_distinct(a, e, b, f);
}

/// What an edit does to the image: a new image replaces the old one and
/// carries its own kind, whether or not the removal box is ticked; without
/// a new image, a ticked box removes the image and an unticked one keeps it.
pub proof fn law_image_change_follows_the_form(form: ValidatedPostForm)
    ensures
        form.image matches Some(img) ==> spec_image_change(form) == ImageChange::Replace(
            img.extension,
        ),
        form.image is None && form.delete_image ==> spec_image_change(form)
            == ImageChange::Remove,
        form.image is None && !form.delete_image ==> spec_image_change(form)
            == ImageChange::Keep,
{
}

/// The form is accepted exactly when its title has 1 to 50 characters, its
/// body text at most 500, and an attached image is at most the size limit
/// and was judged to be of an allowed MIME type that names an image kind.
/// Each rule has its own error, reported exactly when the rule is broken.
pub proof fn law_form_rules(input: PostFormInput, config: AppConfig, mime: Option<Seq<char>>)
    ensures
        ({
            let errs = form_errors(input, config, mime);
            let t = input.title@.len();
            let image_ok = input.image_bytes matches Some(b) ==> {
                &&& b@.len() <= config.max_image_bytes
                &&& mime matches Some(m)
                &&& config.allowed_mime_view().contains(m)
                &&& ImageExt::spec_from_mime(m) is Some
            };
            &&& errs.len() == 0 <==> (1 <= t <= 50 && input.text@.len() <= 500 && image_ok)
            &&& errs.contains(FormError::TitleEmpty) <==> t == 0
            &&& errs.contains(FormError::TitleTooLong) <==> t > 50
            &&& errs.contains(FormError::TextTooLong) <==> input.text@.len() > 500
            &&& errs.contains(FormError::ImageTooLarge) <==> (input.image_bytes matches Some(b)
                && b@.len() > config.max_image_bytes)
            &&& errs.contains(FormError::ImageTypeNotAllowed) <==> (input.image_bytes matches Some(
                b) && b@.len() <= config.max_image_bytes && !image_ok)
        }),
{
    let errs = form_errors(input, config, mime);
    let te = crate::form::title_errors(input.title@);
    let xe = crate::form::text_errors(input.text@);
    let ie = crate::form::image_errors(crate::form::image_bytes_view(input), mime, config);
    assert(errs == te + xe + ie);
    assert forall|e: FormError| errs.contains(e) <==> (te.contains(e) || xe.contains(e)
        || ie.contains(e)) by {
        if errs.contains(e) {
            let i = choose|i: int| 0 <= i < errs.len() && errs[i] == e;
            if i < te.len() {
                assert(te[i] == e);
            } else if i < te.len() + xe.len() {
                assert(xe[i - te.len()] == e);
            } else {
                assert(ie[i - te.len() - xe.len()] == e);
            }
        }
        if te.contains(e) {
            let i = choose|i: int| 0 <= i < te.len() && te[i] == e;
            assert(errs[i] == e);
        }
        if xe.contains(e) {
            let i = choose|i: int| 0 <= i < xe.len() && xe[i] == e;
            assert(errs[te.len() + i] == e);
        }
        if ie.contains(e) {
            let i = choose|i: int| 0 <= i < ie.len() && ie[i] == e;
            assert(errs[te.len() + xe.len() + i] == e);
        }
    }
    if te.len() > 0 {
        assert(te.contains(te[0]));
    }
    if xe.len() > 0 {
        assert(xe.contains(xe[0]));
    }
    if ie.len() > 0 {
        assert(ie.contains(ie[0]));
    }
}

/// An accepted image's kind is the one its judged MIME type stands for.
pub proof fn law_accepted_image_kind_is_its_mime(
    form: ValidatedPostForm,
    input: PostFormInput,
    config: AppConfig,
    mime: Option<Seq<char>>,
)
    requires
        validated_from(form, input, config, mime),
    ensures
        form.image matches Some(img) ==> mime == Some(img.extension.spec_mime()),
{
    if let Some(img) = form.image {
        if let Some(m) = mime {
            law_mime_kind_one_to_one(m, img.extension);
        }
    }
}

} // verus!
