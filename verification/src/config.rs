//! Settings shared by the whole application.

use vstd::prelude::*;

verus! {

/// Number of posts on one page of the list.
pub const DEFAULT_PAGE_SIZE: u32 = 20;

/// Largest accepted image, in bytes (5 MiB).
pub const DEFAULT_MAX_IMAGE_BYTES: usize = 5242880;

/// Application settings: paging and the limits on uploaded images.
#[derive(Debug, Clone)]
pub struct AppConfig {
    /// Posts per page of the list.
    pub page_size: u32,
    /// Upper bound, inclusive, on the size of an uploaded image in bytes.
    pub max_image_bytes: usize,
    /// The MIME types that an uploaded image may have.
    pub allowed_mime: &'static [&'static str],
}

/// The MIME types accepted by default, in order.
pub open spec fn default_allowed_mime() -> Seq<Seq<char>> {
    seq!["image/jpeg"@, "image/gif"@, "image/png"@]
}

impl AppConfig {
    /// The allowed MIME types as character sequences.
    pub open spec fn allowed_mime_view(&self) -> Seq<Seq<char>> {
        self.allowed_mime@.map_values(|m: &str| m@)
    }

    /// The built-in defaults: 20 posts a page, images up to 5 MiB,
    /// and JPEG, GIF and PNG images.
    pub fn from_env_or_default() -> (c: Self)
        ensures
            c.page_size == 20,
            c.max_image_bytes == 5 * 1024 * 1024,
            c.allowed_mime_view() == default_allowed_mime(),
    {
        let allowed: &'static [&'static str] = &["image/jpeg", "image/gif", "image/png"];
        AppConfig {
            page_size: DEFAULT_PAGE_SIZE,
            max_image_bytes: DEFAULT_MAX_IMAGE_BYTES,
            allowed_mime: allowed,
        }
    }
}

} // verus!
