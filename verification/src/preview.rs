//! File preview data: mime-type classification by extension, size and
//! permission formatting, scroll state, and ASCII-art placeholders for
//! images. Reading file bytes is the embedder's job; it fills a
//! `FilePreview` with what it read and the classifications made here.

use vstd::prelude::*;
use crate::models::file_entry::{mode_chars, mode_to_rwx};
use crate::text::{dec_digits, digit_char, digit_str, ext_of, extension_of, lower_of, lowercase, str_eq, u64_to_string};

verus! {

/// A file preview: the classified content, the file's facts, and how far
/// the view is scrolled.
#[derive(Debug)]
pub struct FilePreview {
    pub content: PreviewContent,
    pub file_info: FileInfo,
    pub scroll_offset: usize,
}

/// What a preview shows.
#[derive(Debug)]
pub enum PreviewContent {
    Text(Vec<String>),
    Binary(Vec<u8>),
    Image(ImageInfo),
    Directory(Vec<String>),
    Error(String),
    Empty,
}

/// Facts about the previewed file.
#[derive(Debug)]
pub struct FileInfo {
    pub size: u64,
    /// Modification time in seconds, when known.
    pub modified: Option<u64>,
    pub permissions: Option<u32>,
    pub mime_type: String,
    pub line_count: Option<usize>,
}

/// Facts about a previewed image.
#[derive(Debug)]
pub struct ImageInfo {
    pub format: String,
    pub dimensions: Option<(u32, u32)>,
    pub ascii_art: Option<String>,
}

/// The mime type for a lower-cased extension, by the fixed table.
pub open spec fn mime_for_ext(e: Seq<char>) -> Seq<char> {
    if e == "txt"@ || e == "md"@ || e == "markdown"@ { "text/plain"@ }
    else if e == "rs"@ { "text/x-rust"@ }
    else if e == "py"@ { "text/x-python"@ }
    else if e == "js"@ || e == "mjs"@ { "text/javascript"@ }
    else if e == "ts"@ { "text/typescript"@ }
    else if e == "java"@ { "text/x-java"@ }
    else if e == "c"@ { "text/x-c"@ }
    else if e == "cpp"@ || e == "cc"@ || e == "cxx"@ { "text/x-c++"@ }
    else if e == "h"@ || e == "hpp"@ { "text/x-c-header"@ }
    else if e == "go"@ { "text/x-go"@ }
    else if e == "rb"@ { "text/x-ruby"@ }
    else if e == "php"@ { "text/x-php"@ }
    else if e == "sh"@ || e == "bash"@ { "text/x-shellscript"@ }
    else if e == "html"@ || e == "htm"@ { "text/html"@ }
    else if e == "css"@ { "text/css"@ }
    else if e == "xml"@ { "text/xml"@ }
    else if e == "json"@ { "application/json"@ }
    else if e == "yaml"@ || e == "yml"@ { "text/x-yaml"@ }
    else if e == "toml"@ { "text/x-toml"@ }
    else if e == "ini"@ || e == "cfg"@ || e == "conf"@ { "text/x-ini"@ }
    else if e == "log"@ { "text/x-log"@ }
    else if e == "jpg"@ || e == "jpeg"@ { "image/jpeg"@ }
    else if e == "png"@ { "image/png"@ }
    else if e == "gif"@ { "image/gif"@ }
    else if e == "bmp"@ { "image/bmp"@ }
    else if e == "svg"@ { "image/svg+xml"@ }
    else if e == "ico"@ { "image/x-icon"@ }
    else if e == "webp"@ { "image/webp"@ }
    else if e == "zip"@ { "application/zip"@ }
    else if e == "tar"@ { "application/x-tar"@ }
    else if e == "gz"@ || e == "gzip"@ { "application/gzip"@ }
    else if e == "bz2"@ { "application/x-bzip2"@ }
    else if e == "xz"@ { "application/x-xz"@ }
    else if e == "7z"@ { "application/x-7z-compressed"@ }
    else if e == "rar"@ { "application/x-rar"@ }
    else if e == "pdf"@ { "application/pdf"@ }
    else if e == "doc"@ || e == "docx"@ { "application/msword"@ }
    else if e == "xls"@ || e == "xlsx"@ { "application/vnd.ms-excel"@ }
    else if e == "ppt"@ || e == "pptx"@ { "application/vnd.ms-powerpoint"@ }
    else if e == "mp3"@ { "audio/mpeg"@ }
    else if e == "wav"@ { "audio/wav"@ }
    else if e == "ogg"@ { "audio/ogg"@ }
    else if e == "mp4"@ { "video/mp4"@ }
    else if e == "avi"@ { "video/x-msvideo"@ }
    else if e == "mkv"@ { "video/x-matroska"@ }
    else { "application/octet-stream"@ }
}

/// The mime type of a file name: the table applied to its lower-cased
/// extension; a name without an extension is an unknown binary.
pub open spec fn mime_of(name: Seq<char>) -> Seq<char> {
    match ext_of(name) {
        Some(e) => mime_for_ext(lower_of(e)),
        None => "application/octet-stream"@,
    }
}

/// Which unit a byte count is shown in: 0 bytes, 1 KB, 2 MB, 3 GB, 4 TB.
pub open spec fn size_unit(b: int) -> int {
    if b < 1024 { 0int }
    else if b < 1048576 { 1int }
    else if b < 1073741824 { 2int }
    else if b < 1099511627776 { 3int }
    else { 4int }
}

/// The divisor of each non-byte unit.
pub open spec fn unit_divisor(u: int) -> int {
    if u == 1 { 1024int }
    else if u == 2 { 1048576int }
    else if u == 3 { 1073741824int }
    else { 1099511627776int }
}

/// The suffix of each unit.
pub open spec fn unit_suffix(u: int) -> Seq<char> {
    if u == 0 { " B"@ }
    else if u == 1 { " KB"@ }
    else if u == 2 { " MB"@ }
    else if u == 3 { " GB"@ }
    else { " TB"@ }
}

/// A byte count in human form: plain bytes below 1024, else the value in
/// the largest unit with two rounded decimals.
pub open spec fn size_chars(b: int) -> Seq<char> {
    let u = size_unit(b);
    if u == 0 {
        dec_digits(b) + " B"@
    } else {
        let h = (b * 200 / unit_divisor(u) + 1) / 2;
        dec_digits(h / 100) + seq!['.'] + seq![digit_char(h % 100 / 10), digit_char(h % 10)]
            + unit_suffix(u)
    }
}

/// The placeholder art for an image extension: one drawing for raster
/// formats, one for vector graphics, none otherwise.
pub open spec fn placeholder_of(f: Seq<char>) -> Option<Seq<char>> {
    if f == "jpg"@ || f == "jpeg"@ || f == "png"@ || f == "gif"@ || f == "bmp"@ || f == "webp"@ {
        Some(raster_art())
    } else if f == "svg"@ {
        Some(vector_art())
    } else {
        None::<Seq<char>>
    }
}

/// The raster-image placeholder drawing.
pub open spec fn raster_art() -> Seq<char> {
    "\n    \u{250c}\u{2500}\u{2500}\u{2500}\u{2500}\u{2500}\u{2500}\u{2500}\u{2500}\u{2500}\u{2500}\u{2500}\u{2500}\u{2500}\u{2500}\u{2500}\u{2510}\n    \u{2502}   \u{1f5bc}\u{fe0f} IMAGE    \u{2502}\n    \u{2502}               \u{2502}\n    \u{2502}   [Preview    \u{2502}\n    \u{2502}    not yet    \u{2502}\n    \u{2502}   available]  \u{2502}\n    \u{2502}               \u{2502}\n    \u{2514}\u{2500}\u{2500}\u{2500}\u{2500}\u{2500}\u{2500}\u{2500}\u{2500}\u{2500}\u{2500}\u{2500}\u{2500}\u{2500}\u{2500}\u{2500}\u{2518}"@
}

/// The vector-graphics placeholder drawing.
pub open spec fn vector_art() -> Seq<char> {
    "\n    \u{250c}\u{2500}\u{2500}\u{2500}\u{2500}\u{2500}\u{2500}\u{2500}\u{2500}\u{2500}\u{2500}\u{2500}\u{2500}\u{2500}\u{2500}\u{2500}\u{2510}\n    \u{2502}   \u{1f4d0} SVG      \u{2502}\n    \u{2502}               \u{2502}\n    \u{2502}  <Vector>     \u{2502}\n    \u{2502}   Graphics    \u{2502}\n    \u{2502}               \u{2502}\n    \u{2514}\u{2500}\u{2500}\u{2500}\u{2500}\u{2500}\u{2500}\u{2500}\u{2500}\u{2500}\u{2500}\u{2500}\u{2500}\u{2500}\u{2500}\u{2500}\u{2518}"@
}

/// The greatest scroll offset a content allows.
pub open spec fn max_scroll_of(c: &PreviewContent) -> int {
    match c {
        PreviewContent::Text(lines) => if lines@.len() > 0 { lines@.len() - 1 } else { 0int },
        PreviewContent::Directory(entries) => if entries@.len() > 0 { entries@.len() - 1 } else { 0int },
        _ => 0int,
    }
}

impl FilePreview {
    /// The mime type of a file name, by the extension table. Directories
    /// are not files: the embedder labels them itself.
    pub fn detect_mime_type(name: &str) -> (r: String)
        ensures
            r@ == mime_of(name@),
    {
        match extension_of(name) {
            Some(e) => {
                let le = lowercase(e.as_str());
                let s = le.as_str();
                let m: &str = if str_eq(s, "txt") || str_eq(s, "md") || str_eq(s, "markdown") { "text/plain" }
                else if str_eq(s, "rs") { "text/x-rust" }
                else if str_eq(s, "py") { "text/x-python" }
                else if str_eq(s, "js") || str_eq(s, "mjs") { "text/javascript" }
                else if str_eq(s, "ts") { "text/typescript" }
                else if str_eq(s, "java") { "text/x-java" }
                else if str_eq(s, "c") { "text/x-c" }
                else if str_eq(s, "cpp") || str_eq(s, "cc") || str_eq(s, "cxx") { "text/x-c++" }
                else if str_eq(s, "h") || str_eq(s, "hpp") { "text/x-c-header" }
                else if str_eq(s, "go") { "text/x-go" }
                else if str_eq(s, "rb") { "text/x-ruby" }
                else if str_eq(s, "php") { "text/x-php" }
                else if str_eq(s, "sh") || str_eq(s, "bash") { "text/x-shellscript" }
                else if str_eq(s, "html") || str_eq(s, "htm") { "text/html" }
                else if str_eq(s, "css") { "text/css" }
                else if str_eq(s, "xml") { "text/xml" }
                else if str_eq(s, "json") { "application/json" }
                else if str_eq(s, "yaml") || str_eq(s, "yml") { "text/x-yaml" }
                else if str_eq(s, "toml") { "text/x-toml" }
                else if str_eq(s, "ini") || str_eq(s, "cfg") || str_eq(s, "conf") { "text/x-ini" }
                else if str_eq(s, "log") { "text/x-log" }
                else if str_eq(s, "jpg") || str_eq(s, "jpeg") { "image/jpeg" }
                else if str_eq(s, "png") { "image/png" }
                else if str_eq(s, "gif") { "image/gif" }
                else if str_eq(s, "bmp") { "image/bmp" }
                else if str_eq(s, "svg") { "image/svg+xml" }
                else if str_eq(s, "ico") { "image/x-icon" }
                else if str_eq(s, "webp") { "image/webp" }
                else if str_eq(s, "zip") { "application/zip" }
                else if str_eq(s, "tar") { "application/x-tar" }
                else if str_eq(s, "gz") || str_eq(s, "gzip") { "application/gzip" }
                else if str_eq(s, "bz2") { "application/x-bzip2" }
                else if str_eq(s, "xz") { "application/x-xz" }
                else if str_eq(s, "7z") { "application/x-7z-compressed" }
                else if str_eq(s, "rar") { "application/x-rar" }
                else if str_eq(s, "pdf") { "application/pdf" }
                else if str_eq(s, "doc") || str_eq(s, "docx") { "application/msword" }
                else if str_eq(s, "xls") || str_eq(s, "xlsx") { "application/vnd.ms-excel" }
                else if str_eq(s, "ppt") || str_eq(s, "pptx") { "application/vnd.ms-powerpoint" }
                else if str_eq(s, "mp3") { "audio/mpeg" }
                else if str_eq(s, "wav") { "audio/wav" }
                else if str_eq(s, "ogg") { "audio/ogg" }
                else if str_eq(s, "mp4") { "video/mp4" }
                else if str_eq(s, "avi") { "video/x-msvideo" }
                else if str_eq(s, "mkv") { "video/x-matroska" }
                else { "application/octet-stream" };
                String::from_str(m)
            },
            None => String::from_str("application/octet-stream"),
        }
    }

    /// The image preview for a file name: its lower-cased extension as the
    /// format, no probed dimensions, and the placeholder art for known
    /// image formats.
    pub fn preview_image_file(name: &str) -> (r: PreviewContent)
        ensures
            (match r {
                PreviewContent::Image(info) => {
                    &&& info.format@ == (match ext_of(name@) {
                        Some(e) => lower_of(e),
                        None => Seq::<char>::empty(),
                    })
                    &&& info.dimensions is None
                    &&& (match info.ascii_art {
                        Some(art) => placeholder_of(info.format@) == Some(art@),
                        None => placeholder_of(info.format@) is None,
                    })
                },
                _ => false,
            }),
    {
        let ext: String = match extension_of(name) {
            Some(e) => lowercase(e.as_str()),
            None => String::new(),
        };
        let art = Self::generate_ascii_placeholder(ext.as_str());
        PreviewContent::Image(ImageInfo {
            format: ext,
            dimensions: None,
            ascii_art: art,
        })
    }

    /// The placeholder drawing for an image format, when it has one.
    pub fn generate_ascii_placeholder(format: &str) -> (r: Option<String>)
        ensures
            (match r {
                Some(art) => placeholder_of(format@) == Some(art@),
                None => placeholder_of(format@) is None,
            }),
    {
        if str_eq(format, "jpg") || str_eq(format, "jpeg") || str_eq(format, "png")
            || str_eq(format, "gif") || str_eq(format, "bmp") || str_eq(format, "webp") {
            Some(String::from_str("\n    \u{250c}\u{2500}\u{2500}\u{2500}\u{2500}\u{2500}\u{2500}\u{2500}\u{2500}\u{2500}\u{2500}\u{2500}\u{2500}\u{2500}\u{2500}\u{2500}\u{2510}\n    \u{2502}   \u{1f5bc}\u{fe0f} IMAGE    \u{2502}\n    \u{2502}               \u{2502}\n    \u{2502}   [Preview    \u{2502}\n    \u{2502}    not yet    \u{2502}\n    \u{2502}   available]  \u{2502}\n    \u{2502}               \u{2502}\n    \u{2514}\u{2500}\u{2500}\u{2500}\u{2500}\u{2500}\u{2500}\u{2500}\u{2500}\u{2500}\u{2500}\u{2500}\u{2500}\u{2500}\u{2500}\u{2500}\u{2518}"))
        } else if str_eq(format, "svg") {
            Some(String::from_str("\n    \u{250c}\u{2500}\u{2500}\u{2500}\u{2500}\u{2500}\u{2500}\u{2500}\u{2500}\u{2500}\u{2500}\u{2500}\u{2500}\u{2500}\u{2500}\u{2500}\u{2510}\n    \u{2502}   \u{1f4d0} SVG      \u{2502}\n    \u{2502}               \u{2502}\n    \u{2502}  <Vector>     \u{2502}\n    \u{2502}   Graphics    \u{2502}\n    \u{2502}               \u{2502}\n    \u{2514}\u{2500}\u{2500}\u{2500}\u{2500}\u{2500}\u{2500}\u{2500}\u{2500}\u{2500}\u{2500}\u{2500}\u{2500}\u{2500}\u{2500}\u{2500}\u{2518}"))
        } else {
            None
        }
    }

    /// Scrolls the view up by the given number of lines, stopping at the
    /// top.
    pub fn scroll_up(&mut self, lines: usize)
        ensures
            final(self).scroll_offset == (if old(self).scroll_offset >= lines {
                (old(self).scroll_offset - lines) as usize
            } else {
                0usize
            }),
            final(self).content == old(self).content,
            final(self).file_info == old(self).file_info,
    {
        if self.scroll_offset >= lines {
            self.scroll_offset = self.scroll_offset - lines;
        } else {
            self.scroll_offset = 0;
        }
    }

    /// Scrolls the view down by the given number of lines, stopping at the
    /// content's last line.
    pub fn scroll_down(&mut self, lines: usize)
        ensures
            final(self).scroll_offset == (if old(self).scroll_offset + lines
                <= max_scroll_of(&old(self).content) {
                (old(self).scroll_offset + lines) as usize
            } else {
                max_scroll_of(&old(self).content) as usize
            }),
            final(self).content == old(self).content,
            final(self).file_info == old(self).file_info,
    {
        let max_offset: usize = match &self.content {
            PreviewContent::Text(text) => if text.len() > 0 { text.len() - 1 } else { 0 },
            PreviewContent::Directory(entries) => if entries.len() > 0 { entries.len() - 1 } else { 0 },
            _ => 0,
        };
        if lines <= max_offset && self.scroll_offset <= max_offset - lines {
            self.scroll_offset = self.scroll_offset + lines;
        } else {
            self.scroll_offset = max_offset;
        }
    }

    /// A byte count in human form, as `size_chars` describes: plain bytes
    /// below 1024, else two rounded decimals in the largest fitting unit.
    pub fn format_size(bytes: u64) -> (r: String)
        ensures
            r@ == size_chars(bytes as int),
    {
        proof {
            reveal_strlit(" B");
            reveal_strlit(" KB");
            reveal_strlit(" MB");
            reveal_strlit(" GB");
            reveal_strlit(" TB");
            reveal_strlit(".");
        }
        if bytes < 1024 {
            let mut s = u64_to_string(bytes);
            s.append(" B");
            return s;
        }
        let divisor: u64 = if bytes < 1048576 {
            1024
        } else if bytes < 1073741824 {
            1048576
        } else if bytes < 1099511627776 {
            1073741824
        } else {
            1099511627776
        };
        let suffix: &str = if bytes < 1048576 {
            " KB"
        } else if bytes < 1073741824 {
            " MB"
        } else if bytes < 1099511627776 {
            " GB"
        } else {
            " TB"
        };
        let wide: u128 = ((bytes as u128) * 200 / (divisor as u128) + 1) / 2;
        proof {
            let b = bytes as int;
            let d = divisor as int;
            vstd::arithmetic::div_mod::lemma_div_is_ordered_by_denominator(b * 200, 1024, d);
            vstd::arithmetic::div_mod::lemma_div_is_ordered(b * 200, 0xffffffffffffffffint * 200, 1024);
            assert(b * 200 / d <= 0xffffffffffffffffint * 200 / 1024);
            assert((b * 200 / d + 1) / 2 <= 0xffffffffffffffffint);
        }
        let h: u64 = wide as u64;
        let mut s = u64_to_string(h / 100);
        s.append(".");
        s.append(digit_str(h % 100 / 10));
        s.append(digit_str(h % 10));
        s.append(suffix);
        proof {
            assert(h % 100 / 10 == (h as int) % 100 / 10);
            assert(h % 10 == (h as int) % 10);
            assert(s@ =~= size_chars(bytes as int));
        }
        s
    }

    /// The nine-character symbolic form of a mode integer.
    pub fn format_permissions(mode: u32) -> (r: String)
        ensures
            r@ == mode_chars(mode as int),
    {
        mode_to_rwx(mode)
    }
}

} // verus!
