//! The options of image generation and how they are read from text.

use vstd::prelude::*;
use base64::Engine;
use rand::Rng;
use crate::text::{invalid_choice, invalid_choice_text, lowercase_of, starts_with, str_eq, to_lowercase};

verus! {

/// The dimensions asked of a generated image.
#[derive(Debug, Copy, PartialEq, Eq, Structural)]
pub enum ImageSize {
    Auto,
    Square,
    Portrait,
    Landscape,
}

impl Clone for ImageSize {
    fn clone(&self) -> (r: Self)
        ensures
            r == *self,
    {
        *self
    }
}

/// The image size that a lowercase name stands for, if any.
pub open spec fn size_named(lower: Seq<char>) -> Option<ImageSize> {
    if lower == "auto"@ {
        Some(ImageSize::Auto)
    } else if lower == "1024x1024"@ {
        Some(ImageSize::Square)
    } else if lower == "1024x1536"@ {
        Some(ImageSize::Portrait)
    } else if lower == "1536x1024"@ {
        Some(ImageSize::Landscape)
    } else {
        None
    }
}

impl ImageSize {
    /// Reads the image size from `lower`, the lowercase form of the text
    /// `given`; the failure quotes `given`.
    pub fn from_lowercase(lower: &str, given: &str) -> (r: Result<Self, String>)
        ensures
            match size_named(lower@) {
                Some(value) => r == Ok::<Self, String>(value),
                None => r.is_err() && r.unwrap_err()@ == invalid_choice_text(
                    "image size"@,
                    given@,
                    "auto, 1024x1024, 1024x1536, 1536x1024"@,
                ),
            },
    {
        if str_eq(lower, "auto") {
            Ok(ImageSize::Auto)
        } else if str_eq(lower, "1024x1024") {
            Ok(ImageSize::Square)
        } else if str_eq(lower, "1024x1536") {
            Ok(ImageSize::Portrait)
        } else if str_eq(lower, "1536x1024") {
            Ok(ImageSize::Landscape)
        } else {
            Err(invalid_choice("image size", given, "auto, 1024x1024, 1024x1536, 1536x1024"))
        }
    }
}

impl core::str::FromStr for ImageSize {
    type Err = String;

    /// Reads the image size from its name, in any letter case, as
    /// [`parse_image_size`] does.
    fn from_str(s: &str) -> (r: Result<Self, String>)
        ensures
            match size_named(lowercase_of(s@)) {
                Some(value) => r == Ok::<Self, String>(value),
                None => r.is_err() && r.unwrap_err()@ == invalid_choice_text(
                    "image size"@,
                    s@,
                    "auto, 1024x1024, 1024x1536, 1536x1024"@,
                ),
            },
    {
        parse_image_size(s)
    }
}

/// Reads the image size from its name, in any letter case.
pub fn parse_image_size(s: &str) -> (r: Result<ImageSize, String>)
    ensures
        match size_named(lowercase_of(s@)) {
            Some(value) => r == Ok::<ImageSize, String>(value),
            None => r.is_err() && r.unwrap_err()@ == invalid_choice_text(
                "image size"@,
                s@,
                "auto, 1024x1024, 1024x1536, 1536x1024"@,
            ),
        },
{
    let lower = to_lowercase(s);
    ImageSize::from_lowercase(lower.as_str(), s)
}

/// The rendering quality asked of a generated image.
#[derive(Debug, Copy, PartialEq, Eq, Structural)]
pub enum ImageQuality {
    Auto,
    Low,
    Medium,
    High,
}

impl Clone for ImageQuality {
    fn clone(&self) -> (r: Self)
        ensures
            r == *self,
    {
        *self
    }
}

/// The image quality that a lowercase name stands for, if any.
pub open spec fn quality_named(lower: Seq<char>) -> Option<ImageQuality> {
    if lower == "auto"@ {
        Some(ImageQuality::Auto)
    } else if lower == "low"@ {
        Some(ImageQuality::Low)
    } else if lower == "medium"@ {
        Some(ImageQuality::Medium)
    } else if lower == "high"@ {
        Some(ImageQuality::High)
    } else {
        None
    }
}

impl ImageQuality {
    /// Reads the image quality from `lower`, the lowercase form of the text
    /// `given`; the failure quotes `given`.
    pub fn from_lowercase(lower: &str, given: &str) -> (r: Result<Self, String>)
        ensures
            match quality_named(lower@) {
                Some(value) => r == Ok::<Self, String>(value),
                None => r.is_err() && r.unwrap_err()@ == invalid_choice_text(
                    "image quality"@,
                    given@,
                    "auto, low, medium, high"@,
                ),
            },
    {
        if str_eq(lower, "auto") {
            Ok(ImageQuality::Auto)
        } else if str_eq(lower, "low") {
            Ok(ImageQuality::Low)
        } else if str_eq(lower, "medium") {
            Ok(ImageQuality::Medium)
        } else if str_eq(lower, "high") {
            Ok(ImageQuality::High)
        } else {
            Err(invalid_choice("image quality", given, "auto, low, medium, high"))
        }
    }
}

impl core::str::FromStr for ImageQuality {
    type Err = String;

    /// Reads the image quality from its name, in any letter case, as
    /// [`parse_image_quality`] does.
    fn from_str(s: &str) -> (r: Result<Self, String>)
        ensures
            match quality_named(lowercase_of(s@)) {
                Some(value) => r == Ok::<Self, String>(value),
                None => r.is_err() && r.unwrap_err()@ == invalid_choice_text(
                    "image quality"@,
                    s@,
                    "auto, low, medium, high"@,
                ),
            },
    {
        parse_image_quality(s)
    }
}

/// Reads the image quality from its name, in any letter case.
pub fn parse_image_quality(s: &str) -> (r: Result<ImageQuality, String>)
    ensures
        match quality_named(lowercase_of(s@)) {
            Some(value) => r == Ok::<ImageQuality, String>(value),
            None => r.is_err() && r.unwrap_err()@ == invalid_choice_text(
                "image quality"@,
                s@,
                "auto, low, medium, high"@,
            ),
        },
{
    let lower = to_lowercase(s);
    ImageQuality::from_lowercase(lower.as_str(), s)
}

/// The file format asked of a generated image.
#[derive(Debug, Copy, PartialEq, Eq, Structural)]
pub enum ImageFormat {
    Png,
    Jpeg,
    Webp,
}

impl Clone for ImageFormat {
    fn clone(&self) -> (r: Self)
        ensures
            r == *self,
    {
        *self
    }
}

/// The image format that a lowercase name stands for, if any.
pub open spec fn format_named(lower: Seq<char>) -> Option<ImageFormat> {
    if lower == "png"@ {
        Some(ImageFormat::Png)
    } else if lower == "jpeg"@ || lower == "jpg"@ {
        Some(ImageFormat::Jpeg)
    } else if lower == "webp"@ {
        Some(ImageFormat::Webp)
    } else {
        None
    }
}

impl ImageFormat {
    /// Reads the image format from `lower`, the lowercase form of the text
    /// `given`; the failure quotes `given`.
    pub fn from_lowercase(lower: &str, given: &str) -> (r: Result<Self, String>)
        ensures
            match format_named(lower@) {
                Some(value) => r == Ok::<Self, String>(value),
                None => r.is_err() && r.unwrap_err()@ == invalid_choice_text(
                    "image format"@,
                    given@,
                    "png, jpeg, webp"@,
                ),
            },
    {
        if str_eq(lower, "png") {
            Ok(ImageFormat::Png)
        } else if str_eq(lower, "jpeg") || str_eq(lower, "jpg") {
            Ok(ImageFormat::Jpeg)
        } else if str_eq(lower, "webp") {
            Ok(ImageFormat::Webp)
        } else {
            Err(invalid_choice("image format", given, "png, jpeg, webp"))
        }
    }
}

impl core::str::FromStr for ImageFormat {
    type Err = String;

    /// Reads the image format from its name, in any letter case, as
    /// [`parse_image_format`] does.
    fn from_str(s: &str) -> (r: Result<Self, String>)
        ensures
            match format_named(lowercase_of(s@)) {
                Some(value) => r == Ok::<Self, String>(value),
                None => r.is_err() && r.unwrap_err()@ == invalid_choice_text(
                    "image format"@,
                    s@,
                    "png, jpeg, webp"@,
                ),
            },
    {
        parse_image_format(s)
    }
}

/// Reads the image format from its name, in any letter case.
pub fn parse_image_format(s: &str) -> (r: Result<ImageFormat, String>)
    ensures
        match format_named(lowercase_of(s@)) {
            Some(value) => r == Ok::<ImageFormat, String>(value),
            None => r.is_err() && r.unwrap_err()@ == invalid_choice_text(
                "image format"@,
                s@,
                "png, jpeg, webp"@,
            ),
        },
{
    let lower = to_lowercase(s);
    ImageFormat::from_lowercase(lower.as_str(), s)
}

/// The background asked of a generated image.
#[derive(Debug, Copy, PartialEq, Eq, Structural)]
pub enum ImageBackground {
    Auto,
    Transparent,
    Opaque,
}

impl Clone for ImageBackground {
    fn clone(&self) -> (r: Self)
        ensures
            r == *self,
    {
        *self
    }
}

/// The image background that a lowercase name stands for, if any.
pub open spec fn background_named(lower: Seq<char>) -> Option<ImageBackground> {
    if lower == "auto"@ {
        Some(ImageBackground::Auto)
    } else if lower == "transparent"@ {
        Some(ImageBackground::Transparent)
    } else if lower == "opaque"@ {
        Some(ImageBackground::Opaque)
    } else {
        None
    }
}

impl ImageBackground {
    /// Reads the image background from `lower`, the lowercase form of the text
    /// `given`; the failure quotes `given`.
    pub fn from_lowercase(lower: &str, given: &str) -> (r: Result<Self, String>)
        ensures
            match background_named(lower@) {
                Some(value) => r == Ok::<Self, String>(value),
                None => r.is_err() && r.unwrap_err()@ == invalid_choice_text(
                    "image background"@,
                    given@,
                    "auto, transparent, opaque"@,
                ),
            },
    {
        if str_eq(lower, "auto") {
            Ok(ImageBackground::Auto)
        } else if str_eq(lower, "transparent") {
            Ok(ImageBackground::Transparent)
        } else if str_eq(lower, "opaque") {
            Ok(ImageBackground::Opaque)
        } else {
            Err(invalid_choice("image background", given, "auto, transparent, opaque"))
        }
    }
}

impl core::str::FromStr for ImageBackground {
    type Err = String;

    /// Reads the image background from its name, in any letter case, as
    /// [`parse_image_background`] does.
    fn from_str(s: &str) -> (r: Result<Self, String>)
        ensures
            match background_named(lowercase_of(s@)) {
                Some(value) => r == Ok::<Self, String>(value),
                None => r.is_err() && r.unwrap_err()@ == invalid_choice_text(
                    "image background"@,
                    s@,
                    "auto, transparent, opaque"@,
                ),
            },
    {
        parse_image_background(s)
    }
}

/// Reads the image background from its name, in any letter case.
pub fn parse_image_background(s: &str) -> (r: Result<ImageBackground, String>)
    ensures
        match background_named(lowercase_of(s@)) {
            Some(value) => r == Ok::<ImageBackground, String>(value),
            None => r.is_err() && r.unwrap_err()@ == invalid_choice_text(
                "image background"@,
                s@,
                "auto, transparent, opaque"@,
            ),
        },
{
    let lower = to_lowercase(s);
    ImageBackground::from_lowercase(lower.as_str(), s)
}

/// Whether an image is made anew or edited.
#[derive(Debug, Copy, PartialEq, Eq, Structural)]
pub enum ImageAction {
    Auto,
    Generate,
    Edit,
}

impl Clone for ImageAction {
    fn clone(&self) -> (r: Self)
        ensures
            r == *self,
    {
        *self
    }
}

/// The image action that a lowercase name stands for, if any.
pub open spec fn action_named(lower: Seq<char>) -> Option<ImageAction> {
    if lower == "auto"@ {
        Some(ImageAction::Auto)
    } else if lower == "generate"@ {
        Some(ImageAction::Generate)
    } else if lower == "edit"@ {
        Some(ImageAction::Edit)
    } else {
        None
    }
}

impl ImageAction {
    /// Reads the image action from `lower`, the lowercase form of the text
    /// `given`; the failure quotes `given`.
    pub fn from_lowercase(lower: &str, given: &str) -> (r: Result<Self, String>)
        ensures
            match action_named(lower@) {
                Some(value) => r == Ok::<Self, String>(value),
                None => r.is_err() && r.unwrap_err()@ == invalid_choice_text(
                    "image action"@,
                    given@,
                    "auto, generate, edit"@,
                ),
            },
    {
        if str_eq(lower, "auto") {
            Ok(ImageAction::Auto)
        } else if str_eq(lower, "generate") {
            Ok(ImageAction::Generate)
        } else if str_eq(lower, "edit") {
            Ok(ImageAction::Edit)
        } else {
            Err(invalid_choice("image action", given, "auto, generate, edit"))
        }
    }
}

impl core::str::FromStr for ImageAction {
    type Err = String;

    /// Reads the image action from its name, in any letter case, as
    /// [`parse_image_action`] does.
    fn from_str(s: &str) -> (r: Result<Self, String>)
        ensures
            match action_named(lowercase_of(s@)) {
                Some(value) => r == Ok::<Self, String>(value),
                None => r.is_err() && r.unwrap_err()@ == invalid_choice_text(
                    "image action"@,
                    s@,
                    "auto, generate, edit"@,
                ),
            },
    {
        parse_image_action(s)
    }
}

/// Reads the image action from its name, in any letter case.
pub fn parse_image_action(s: &str) -> (r: Result<ImageAction, String>)
    ensures
        match action_named(lowercase_of(s@)) {
            Some(value) => r == Ok::<ImageAction, String>(value),
            None => r.is_err() && r.unwrap_err()@ == invalid_choice_text(
                "image action"@,
                s@,
                "auto, generate, edit"@,
            ),
        },
{
    let lower = to_lowercase(s);
    ImageAction::from_lowercase(lower.as_str(), s)
}

/// Everything an image generation is configured with.
#[derive(Debug)]
pub struct ImageConfig {
    pub model: Option<String>,
    pub input_images: Option<Vec<String>>,
    pub size: Option<ImageSize>,
    pub quality: Option<ImageQuality>,
    pub output_format: Option<ImageFormat>,
    pub background: Option<ImageBackground>,
    pub action: Option<ImageAction>,
    pub compression: Option<u8>,
    /// The tools offered while the prompt is prepared, if any.
    pub tool_names: Option<Vec<String>>,
    /// The iteration ceiling while the prompt is prepared.
    pub max_iterations: Option<u32>,
}

impl Default for ImageConfig {
    fn default() -> (r: Self)
        ensures
            r.model is None,
            r.input_images is None,
            r.size is None,
            r.quality is None,
            r.output_format is None,
            r.background is None,
            r.action is None,
            r.compression is None,
            r.tool_names is None,
            r.max_iterations is None,
    {
        ImageConfig {
            model: None,
            input_images: None,
            size: None,
            quality: None,
            output_format: None,
            background: None,
            action: None,
            compression: None,
            tool_names: None,
            max_iterations: None,
        }
    }
}

/// The standard base64 text of a sequence of bytes, with padding, as the
/// `STANDARD` engine of the base64 crate writes it.
pub uninterp spec fn base64_of(data: Seq<u8>) -> Seq<char>;

/// `Engine::encode` of `base64::engine::general_purpose::STANDARD`. The
/// result is named by [`base64_of`]; nothing more is claimed of it.
#[verifier::external_body]
fn base64_encode(data: &[u8]) -> (r: String)
    ensures
        r@ == base64_of(data@),
{
    base64::engine::general_purpose::STANDARD.encode(data)
}

/// `Path::extension` of the path that `path` spells, where it is valid
/// text. How a path falls into parts depends on the platform, so nothing is
/// claimed of the result.
#[verifier::external_body]
fn extension_of(path: &str) -> (r: Option<String>) {
    std::path::Path::new(path).extension().and_then(|e| e.to_str()).map(|e| e.to_owned())
}

/// `Path::file_stem` of the path that `path` spells, where it is valid
/// text. How a path falls into parts depends on the platform, so nothing is
/// claimed of the result.
#[verifier::external_body]
fn file_stem_of(path: &str) -> (r: Option<String>) {
    std::path::Path::new(path).file_stem().and_then(|s| s.to_str()).map(|s| s.to_owned())
}

/// Five characters drawn by `rand::rng` from `rand::distr::Alphanumeric`.
/// Which ones is left to chance; there are five of them.
#[verifier::external_body]
fn random_suffix() -> (r: String)
    ensures
        r@.len() == 5,
{
    rand::rng().sample_iter(&rand::distr::Alphanumeric).take(5).map(char::from).collect()
}

/// Whether an image reference is an address on the web: it begins with
/// `http://` or `https://`.
pub fn is_remote(image_path: &str) -> (r: bool)
    ensures
        r == ("http://"@.is_prefix_of(image_path@) || "https://"@.is_prefix_of(image_path@)),
{
    starts_with(image_path, "http://") || starts_with(image_path, "https://")
}

/// The media type that goes with a file extension; PNG where the extension
/// is absent or unknown.
pub open spec fn mime_type_of(extension: Option<Seq<char>>) -> Seq<char> {
    match extension {
        Some(e) => if e == "png"@ {
            "image/png"@
        } else if e == "jpg"@ || e == "jpeg"@ {
            "image/jpeg"@
        } else if e == "gif"@ {
            "image/gif"@
        } else if e == "webp"@ {
            "image/webp"@
        } else {
            "image/png"@
        },
        None => "image/png"@,
    }
}

/// The media type that goes with a file extension.
pub fn mime_type_for(extension: Option<&str>) -> (r: &'static str)
    ensures
        r@ == mime_type_of(
            match extension {
                Some(e) => Some(e@),
                None => None,
            },
        ),
{
    match extension {
        Some(e) => {
            if str_eq(e, "png") {
                "image/png"
            } else if str_eq(e, "jpg") || str_eq(e, "jpeg") {
                "image/jpeg"
            } else if str_eq(e, "gif") {
                "image/gif"
            } else if str_eq(e, "webp") {
                "image/webp"
            } else {
                "image/png"
            }
        },
        None => "image/png",
    }
}

/// The data URL that embeds `encoded`, base64 text, as the media type
/// `mime_type`.
pub open spec fn data_url_text(mime_type: Seq<char>, encoded: Seq<char>) -> Seq<char> {
    "data:"@ + mime_type + ";base64,"@ + encoded
}

/// The data URL that embeds the bytes `data` of a file with the extension
/// `extension`.
pub fn data_url_for(extension: Option<&str>, data: &[u8]) -> (r: String)
    ensures
        r@ == data_url_text(
            mime_type_of(
                match extension {
                    Some(e) => Some(e@),
                    None => None,
                },
            ),
            base64_of(data@),
        ),
{
    let mut out = "data:".to_owned();
    out.append(mime_type_for(extension));
    out.append(";base64,");
    out.append(base64_encode(data).as_str());
    out
}

/// The data URL that embeds the contents `data` of the local file
/// `image_path`; the media type goes by the path's extension.
pub fn embed_image(image_path: &str, data: &[u8]) -> (r: String)
    ensures
        exists|extension: Option<Seq<char>>|
            r@ == data_url_text(#[trigger] mime_type_of(extension), base64_of(data@)),
{
    let extension = extension_of(image_path);
    let ghost seen = crate::provider::opt_text(extension);
    let out = match &extension {
        Some(e) => data_url_for(Some(e.as_str()), data),
        None => data_url_for(None, data),
    };
    assert(out@ == data_url_text(mime_type_of(seen), base64_of(data@)));
    out
}

/// The extension of a file in the format `format`; PNG where none is
/// given.
pub open spec fn extension_for(format: Option<ImageFormat>) -> Seq<char> {
    match format {
        Some(ImageFormat::Jpeg) => "jpg"@,
        Some(ImageFormat::Webp) => "webp"@,
        _ => "png"@,
    }
}

/// The file name made of a stem, a suffix in lowercase and the extension
/// of the format: `stem-suffix.ext`.
pub open spec fn output_filename_text(stem: Seq<char>, suffix: Seq<char>, format: Option<ImageFormat>) -> Seq<
    char,
> {
    stem + "-"@ + lowercase_of(suffix) + "."@ + extension_for(format)
}

/// The file name made of `stem`, `suffix` in lowercase and the extension of
/// `format`.
pub fn output_filename(stem: &str, suffix: &str, format: Option<ImageFormat>) -> (r: String)
    ensures
        r@ == output_filename_text(stem@, suffix@, format),
{
    let mut out = stem.to_owned();
    out.append("-");
    out.append(to_lowercase(suffix).as_str());
    out.append(".");
    out.append(
        match format {
            Some(ImageFormat::Jpeg) => "jpg",
            Some(ImageFormat::Webp) => "webp",
            _ => "png",
        },
    );
    out
}

/// A fresh name for an output file: the stem of the input path, or `image`
/// where there is none, then a random suffix of five characters and the
/// extension of the format.
pub fn generate_output_filename(input_path: Option<&str>, format: Option<ImageFormat>) -> (r: String)
    ensures
        exists|stem: Seq<char>, suffix: Seq<char>|
            suffix.len() == 5 && (input_path is None ==> stem == "image"@) && r@ == #[trigger] output_filename_text(
                stem,
                suffix,
                format,
            ),
{
    let stem = match input_path {
        Some(path) => match file_stem_of(path) {
            Some(stem) => stem,
            None => "image".to_owned(),
        },
        None => "image".to_owned(),
    };
    let suffix = random_suffix();
    let out = output_filename(stem.as_str(), suffix.as_str(), format);
    assert(suffix@.len() == 5 && out@ == output_filename_text(stem@, suffix@, format));
    out
}

} // verus!
