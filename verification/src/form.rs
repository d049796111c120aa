//! The post form: what a user submits, the rules it must meet, and the
//! validated form that the rest of the board works with.

use vstd::prelude::*;
use crate::config::AppConfig;
use crate::error::{AppError, AppResult};
use crate::image_ext::ImageExt;
use crate::laws::law_accepted_form_meets_rules;
use crate::sniff::{sniff_mime, sniffed_mime, SNIFF_LIMIT};
use crate::text::contains_str;

verus! {

/// Most characters a title may have.
pub const TITLE_MAX_CHARS: usize = 50;

/// Most characters a body text may have.
pub const TEXT_MAX_CHARS: usize = 500;

/// The raw input of the create and edit forms, before any check.
#[derive(Debug, Default, Clone)]
pub struct PostFormInput {
    /// Title as typed.
    pub title: String,
    /// Body text as typed; may be empty.
    pub text: String,
    /// The uploaded file's bytes; `None` when no image was attached.
    pub image_bytes: Option<Vec<u8>>,
    /// The uploaded file's original name, if any.
    pub image_filename: Option<String>,
    /// Whether the "remove the image" box was ticked (edit form only).
    pub delete_image: bool,
}

/// An image that passed the checks: within the size limit, and of an
/// allowed kind as judged from its content.
#[derive(Debug, Clone)]
pub struct ValidatedImage {
    /// The image's bytes.
    pub bytes: Vec<u8>,
    /// The kind found from the bytes.
    pub extension: ImageExt,
}

/// A form that passed every rule.
#[derive(Debug, Clone)]
pub struct ValidatedPostForm {
    /// Title, 1 to 50 characters.
    pub title: String,
    /// Body text, at most 500 characters.
    pub text: String,
    /// The checked image, if one was attached.
    pub image: Option<ValidatedImage>,
    /// Whether the image is to be removed (edit form only).
    pub delete_image: bool,
}

impl ValidatedPostForm {
    /// The form meets the board's rules under `config`: a title of 1 to 50
    /// characters, a body text of at most 500, and an image, if any, within
    /// the size limit and of a kind whose MIME type is allowed.
    pub open spec fn meets_rules(self, config: AppConfig) -> bool {
        &&& 1 <= self.title@.len() <= TITLE_MAX_CHARS
        &&& self.text@.len() <= TEXT_MAX_CHARS
        &&& self.image matches Some(img) ==> {
            &&& img.bytes@.len() <= config.max_image_bytes
            &&& config.allowed_mime_view().contains(img.extension.spec_mime())
        }
    }
}

/// A rule of the post form that the input broke.
#[derive(Debug, Clone, Copy, PartialEq, Eq, Structural)]
pub enum FormError {
    /// The title is empty.
    TitleEmpty,
    /// The title has more than 50 characters.
    TitleTooLong,
    /// The body text has more than 500 characters.
    TextTooLong,
    /// The image is larger than the configured limit.
    ImageTooLarge,
    /// The image's content is not of an allowed kind.
    ImageTypeNotAllowed,
}

impl FormError {
    /// The message shown to the user for the broken rule.
    pub open spec fn spec_message(self) -> Seq<char> {
        match self {
            FormError::TitleEmpty => "タイトルを入力してください"@,
            FormError::TitleTooLong => "タイトルは50文字以内で入力してください"@,
            FormError::TextTooLong => "本文は500文字以内で入力してください"@,
            FormError::ImageTooLarge => "画像のサイズが上限を超えています"@,
            FormError::ImageTypeNotAllowed => "画像は jpg / gif / png のみ投稿できます"@,
        }
    }

    /// Returns the message shown to the user for the broken rule.
    pub fn message(&self) -> (s: String)
        ensures
            s@ == self.spec_message(),
    {
        match self {
            FormError::TitleEmpty => String::from_str("タイトルを入力してください"),
            FormError::TitleTooLong => String::from_str("タイトルは50文字以内で入力してください"),
            FormError::TextTooLong => String::from_str("本文は500文字以内で入力してください"),
            FormError::ImageTooLarge => String::from_str("画像のサイズが上限を超えています"),
            FormError::ImageTypeNotAllowed => String::from_str("画像は jpg / gif / png のみ投稿できます"),
        }
    }
}

/// The broken title rules: a title is required and has at most 50 characters.
pub open spec fn title_errors(title: Seq<char>) -> Seq<FormError> {
    if title.len() == 0 {
        seq![FormError::TitleEmpty]
    } else if title.len() > TITLE_MAX_CHARS {
        seq![FormError::TitleTooLong]
    } else {
        seq![]
    }
}

/// The broken text rules: the body text has at most 500 characters.
pub open spec fn text_errors(text: Seq<char>) -> Seq<FormError> {
    if text.len() > TEXT_MAX_CHARS {
        seq![FormError::TextTooLong]
    } else {
        seq![]
    }
}

/// The verdict on an attached image of which the content was judged to be
/// of type `mime`: too large, of a kind that is not allowed, or accepted as
/// the kind its MIME type stands for.
pub open spec fn image_verdict(
    bytes: Seq<u8>,
    mime: Option<Seq<char>>,
    config: AppConfig,
) -> Result<ImageExt, FormError> {
    if bytes.len() > config.max_image_bytes {
        Err(FormError::ImageTooLarge)
    } else {
        match mime {
            Some(m) => if config.allowed_mime_view().contains(m) && ImageExt::spec_from_mime(m) is Some {
                Ok(ImageExt::spec_from_mime(m).unwrap())
            } else {
                Err(FormError::ImageTypeNotAllowed)
            },
            None => Err(FormError::ImageTypeNotAllowed),
        }
    }
}

/// The bytes of the attached image, if any, as a sequence.
pub open spec fn image_bytes_view(input: PostFormInput) -> Option<Seq<u8>> {
    match input.image_bytes {
        Some(b) => Some(b@),
        None => None,
    }
}

/// The broken image rules; no image breaks none.
pub open spec fn image_errors(
    bytes: Option<Seq<u8>>,
    mime: Option<Seq<char>>,
    config: AppConfig,
) -> Seq<FormError> {
    match bytes {
        Some(b) => match image_verdict(b, mime, config) {
            Ok(_) => seq![],
            Err(e) => seq![e],
        },
        None => seq![],
    }
}

/// Every rule the input breaks, in the order title, text, image, where
/// `mime` is what the image's content was judged to be.
pub open spec fn form_errors(
    input: PostFormInput,
    config: AppConfig,
    mime: Option<Seq<char>>,
) -> Seq<FormError> {
    title_errors(input.title@) + text_errors(input.text@) + image_errors(
        image_bytes_view(input),
        mime,
        config,
    )
}

/// The messages of a list of broken rules.
pub open spec fn error_messages(errors: Seq<FormError>) -> Seq<Seq<char>> {
    errors.map_values(|e: FormError| e.spec_message())
}

/// A list of strings as character sequences.
pub open spec fn strings_view(strings: Seq<String>) -> Seq<Seq<char>> {
    strings.map_values(|s: String| s@)
}

/// An optional string slice as an optional character sequence.
pub open spec fn opt_str_view(s: Option<&str>) -> Option<Seq<char>> {
    match s {
        Some(x) => Some(x@),
        None => None,
    }
}

/// `form` keeps the input's title, text and removal flag, and holds the
/// attached image, if any, with the kind that its verdict accepted.
pub open spec fn validated_from(
    form: ValidatedPostForm,
    input: PostFormInput,
    config: AppConfig,
    mime: Option<Seq<char>>,
) -> bool {
    &&& form.title@ == input.title@
    &&& form.text@ == input.text@
    &&& form.delete_image == input.delete_image
    &&& match input.image_bytes {
        None => form.image is None,
        Some(b) => match form.image {
            Some(img) => img.bytes@ == b@ && image_verdict(b@, mime, config) == Ok::<
                ImageExt,
                FormError,
            >(img.extension),
            None => false,
        },
    }
}

/// The leading part of an image that is handed to the sniffer: all of it
/// up to `SNIFF_LIMIT` bytes, else its first `SNIFF_LIMIT` bytes.
pub open spec fn sniff_prefix(bytes: Seq<u8>) -> Seq<u8> {
    if bytes.len() <= SNIFF_LIMIT {
        bytes
    } else {
        bytes.take(SNIFF_LIMIT as int)
    }
}

/// What the content of the input's image, if any, is sniffed to be, judged
/// from its leading part. An image over the size limit is not sniffed, and
/// nothing is sniffed where `usize` is narrower than 64 bits (there the
/// sniffer may overflow), so an image is then judged of no known kind.
pub open spec fn sniffed_for(input: PostFormInput, config: AppConfig) -> Option<Seq<char>> {
    match input.image_bytes {
        Some(b) => if b@.len() <= config.max_image_bytes && usize::BITS == 64 {
            sniffed_mime(sniff_prefix(b@))
        } else {
            None
        },
        None => None,
    }
}

/// Copies a byte vector.
fn copy_bytes(v: &Vec<u8>) -> (r: Vec<u8>)
    ensures
        r@ == v@,
{
    let mut r: Vec<u8> = Vec::new();
    let mut i: usize = 0;
    while i < v.len()
        invariant
            i <= v@.len(),
            r@ == v@.subrange(0, i as int),
        decreases v@.len() - i,
    {
        r.push(v[i]);
        i = i + 1;
    }
    assert(r@ =~= v@);
    r
}

/// Checks the form against the rules, given what the attached image's
/// content was judged to be (`mime`, as `infer` reports it). Every broken
/// rule gives one message, in the order title, text, image; the form is
/// accepted exactly when no rule is broken.
pub fn validate_with_mime(
    input: &PostFormInput,
    config: &AppConfig,
    mime: Option<&str>,
) -> (r: AppResult<ValidatedPostForm>)
    ensures
        r is Ok <==> form_errors(*input, *config, opt_str_view(mime)).len() == 0,
        r matches Ok(f) ==> validated_from(f, *input, *config, opt_str_view(mime)),
        r matches Ok(f) ==> f.meets_rules(*config),
        r matches Ok(f) ==> f.title@ == input.title@ && f.text@ == input.text@ && f.delete_image
            == input.delete_image,
        r matches Ok(f) ==> (input.image_bytes is None <==> f.image is None),
        r matches Ok(f) ==> (f.image matches Some(img) ==> input.image_bytes matches Some(b)
            && img.bytes@ == b@),
        r matches Err(e) ==> (e matches AppError::Validation(msgs) && strings_view(msgs@)
            == error_messages(form_errors(*input, *config, opt_str_view(mime)))),
{
    let ghost mv = opt_str_view(mime);
    let ghost errs = form_errors(*input, *config, mv);
    let mut errors: Vec<FormError> = Vec::new();

    let title_len = input.title.as_str().unicode_len();
    if title_len == 0 {
        errors.push(FormError::TitleEmpty);
    } else if title_len > TITLE_MAX_CHARS {
        errors.push(FormError::TitleTooLong);
    }
    assert(errors@ =~= title_errors(input.title@));

    let text_len = input.text.as_str().unicode_len();
    if text_len > TEXT_MAX_CHARS {
        errors.push(FormError::TextTooLong);
    }
    assert(errors@ =~= title_errors(input.title@) + text_errors(input.text@));

    let mut image: Option<ValidatedImage> = None;
    match &input.image_bytes {
        Some(bytes) => {
            if bytes.len() > config.max_image_bytes {
                errors.push(FormError::ImageTooLarge);
            } else {
                let mut accepted: Option<ImageExt> = None;
                match mime {
                    Some(m) => {
                        if contains_str(config.allowed_mime, m) {
                            accepted = ImageExt::from_mime(m);
                        }
                    },
                    None => {},
                }
                match accepted {
                    Some(ext) => {
                        image = Some(ValidatedImage { bytes: copy_bytes(bytes), extension: ext });
                    },
                    None => {
                        errors.push(FormError::ImageTypeNotAllowed);
                    },
                }
            }
        },
        None => {},
    }
    assert(errors@ =~= errs);

    if errors.len() == 0 {
        let form = ValidatedPostForm {
            title: input.title.clone(),
            text: input.text.clone(),
            image,
            delete_image: input.delete_image,
        };
        proof {
            law_accepted_form_meets_rules(form, *input, *config, mv);
        }
        Ok(form)
    } else {
        let mut msgs: Vec<String> = Vec::new();
        let mut i: usize = 0;
        while i < errors.len()
            invariant
                i <= errors@.len(),
                msgs@.len() == i,
                forall|j: int| 0 <= j < i ==> #[trigger] msgs@[j]@ == errors@[j].spec_message(),
            decreases errors@.len() - i,
        {
            let s = errors[i].message();
            msgs.push(s);
            i = i + 1;
        }
        assert(strings_view(msgs@) =~= error_messages(errors@));
        Err(AppError::Validation(msgs))
    }
}

/// Checks the form against the rules: the title is required and at most 50
/// characters, the body text at most 500 characters, and an attached image
/// at most the configured size and, judged by its content through `infer`
/// (its first `SNIFF_LIMIT` bytes, sniffed only when the size is within the
/// limit and `usize` has 64 bits), of an allowed kind. Fails with one
/// message per broken rule.
pub fn validate(input: &PostFormInput, config: &AppConfig) -> (r: AppResult<ValidatedPostForm>)
    ensures
        r is Ok <==> form_errors(*input, *config, sniffed_for(*input, *config)).len() == 0,
        r matches Ok(f) ==> validated_from(f, *input, *config, sniffed_for(*input, *config)),
        r matches Ok(f) ==> f.meets_rules(*config),
        r matches Ok(f) ==> f.title@ == input.title@ && f.text@ == input.text@ && f.delete_image
            == input.delete_image,
        r matches Ok(f) ==> (input.image_bytes is None <==> f.image is None),
        r matches Ok(f) ==> (f.image matches Some(img) ==> input.image_bytes matches Some(b)
            && img.bytes@ == b@),
        r matches Err(e) ==> (e matches AppError::Validation(msgs) && strings_view(msgs@)
            == error_messages(form_errors(*input, *config, sniffed_for(*input, *config)))),
{
    let mime = match &input.image_bytes {
        Some(bytes) => if bytes.len() <= config.max_image_bytes && usize::BITS == 64 {
            let n = if bytes.len() <= SNIFF_LIMIT { bytes.len() } else { SNIFF_LIMIT };
            let prefix = vstd::slice::slice_subrange(bytes.as_slice(), 0, n);
            proof {
                assert(prefix@ =~= sniff_prefix(bytes@));
            }
            sniff_mime(prefix)
        } else {
            None
        },
        None => None,
    };
    validate_with_mime(input, config, mime)
}

} // verus!
