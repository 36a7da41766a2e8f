use vstd::prelude::*;

use crate::strings::{chars_eq, contains_chars, contains_seq, find_char_from, subvec, to_chars};

verus! {

/// The icon theme name for a MIME type (or `directory`).
pub open spec fn spec_icon_for_mime(m: Seq<char>) -> Seq<char> {
    if m == "directory"@ {
        "folder"@
    } else {
        let mt = m.subrange(0, find_char_from(m, '/', 0) as int);
        if mt == "image"@ {
            "image-x-generic"@
        } else if mt == "video"@ {
            "video-x-generic"@
        } else if mt == "audio"@ {
            "audio-x-generic"@
        } else if mt == "text"@ {
            "text-x-generic"@
        } else if mt == "application"@ {
            if contains_seq(m, "pdf"@) {
                "application-pdf"@
            } else if contains_seq(m, "zip"@) || contains_seq(m, "tar"@) || contains_seq(
                m,
                "compressed"@,
            ) {
                "package-x-generic"@
            } else if contains_seq(m, "spreadsheet"@) || contains_seq(m, "excel"@) {
                "x-office-spreadsheet"@
            } else if contains_seq(m, "document"@) || contains_seq(m, "word"@) {
                "x-office-document"@
            } else if contains_seq(m, "presentation"@) || contains_seq(m, "powerpoint"@) {
                "x-office-presentation"@
            } else {
                "application-x-executable"@
            }
        } else {
            "text-x-generic"@
        }
    }
}

/// Searches directories the shell hands over; the file listing itself is
/// the shell's business.
pub struct FileManager {
    pub search_dirs: Vec<String>,
}

impl FileManager {
    /// A manager over the directories the shell chose.
    pub fn new(search_dirs: Vec<String>) -> (m: FileManager)
        ensures
            m.search_dirs == search_dirs,
    {
        FileManager { search_dirs }
    }

    /// The icon theme name for a MIME type.
    pub fn get_icon_for_mime(mime: &str) -> (r: &'static str)
        ensures
            r@ == spec_icon_for_mime(mime@),
    {
        let mc = to_chars(mime);
        let dir_kw = to_chars("directory");
        if chars_eq(&mc, &dir_kw) {
            return "folder";
        }
        let slash = crate::strings::find_char_idx(&mc, '/', 0);
        let mt = subvec(&mc, 0, slash);
        let image_kw = to_chars("image");
        let video_kw = to_chars("video");
        let audio_kw = to_chars("audio");
        let text_kw = to_chars("text");
        let app_kw = to_chars("application");
        if chars_eq(&mt, &image_kw) {
            "image-x-generic"
        } else if chars_eq(&mt, &video_kw) {
            "video-x-generic"
        } else if chars_eq(&mt, &audio_kw) {
            "audio-x-generic"
        } else if chars_eq(&mt, &text_kw) {
            "text-x-generic"
        } else if chars_eq(&mt, &app_kw) {
            let pdf = to_chars("pdf");
            let zip = to_chars("zip");
            let tar = to_chars("tar");
            let compressed = to_chars("compressed");
            let spreadsheet = to_chars("spreadsheet");
            let excel = to_chars("excel");
            let document = to_chars("document");
            let word = to_chars("word");
            let presentation = to_chars("presentation");
            let powerpoint = to_chars("powerpoint");
            if contains_chars(&mc, &pdf) {
                "application-pdf"
            } else if contains_chars(&mc, &zip) || contains_chars(&mc, &tar) || contains_chars(
                &mc,
                &compressed,
            ) {
                "package-x-generic"
            } else if contains_chars(&mc, &spreadsheet) || contains_chars(&mc, &excel) {
                "x-office-spreadsheet"
            } else if contains_chars(&mc, &document) || contains_chars(&mc, &word) {
                "x-office-document"
            } else if contains_chars(&mc, &presentation) || contains_chars(&mc, &powerpoint) {
                "x-office-presentation"
            } else {
                "application-x-executable"
            }
        } else {
            "text-x-generic"
        }
    }
}

} // verus!
