//! Sound files that the server can play.
use vstd::prelude::*;

use crate::json::{Json, JsonValue};
use crate::schema::{FromJson, is_object, optional, optional_is, read_optional, read_required, required, required_is};

verus! {

/// A media file that may be played back.
#[derive(Debug, PartialEq)]
pub struct Sound {
    /// Sound's identifier.
    pub id: String,
    /// Text description of the sound, usually the words spoken.
    pub text: Option<String>,
    /// The formats and languages in which this sound is available.
    pub formats: Vec<FormatLanguage>,
}

impl FromJson for Sound {
    open spec fn accepts(j: Json) -> bool {
        &&& j is Object
        &&& required::<String>(j, "id"@)
        &&& optional::<String>(j, "text"@)
        &&& required::<Vec<FormatLanguage>>(j, "formats"@)
    }

    open spec fn decodes(j: Json, v: Sound) -> bool {
        &&& j is Object
        &&& required_is::<String>(j, "id"@, v.id)
        &&& optional_is::<String>(j, "text"@, v.text)
        &&& required_is::<Vec<FormatLanguage>>(j, "formats"@, v.formats)
    }

    fn from_json(j: &JsonValue) -> (r: Option<Sound>) {
        if !is_object(j) {
            return None;
        }
        let id = read_required::<String>(j, "id")?;
        let text = read_optional::<String>(j, "text")?;
        let formats = read_required::<Vec<FormatLanguage>>(j, "formats")?;
        Some(Sound {
            id,
            text,
            formats,
        })
    }
}

/// Identifies the format and language of a sound file
#[derive(Debug, PartialEq)]
pub struct FormatLanguage {
    pub language: String,
    pub format: String,
}

impl FromJson for FormatLanguage {
    open spec fn accepts(j: Json) -> bool {
        &&& j is Object
        &&& required::<String>(j, "language"@)
        &&& required::<String>(j, "format"@)
    }

    open spec fn decodes(j: Json, v: FormatLanguage) -> bool {
        &&& j is Object
        &&& required_is::<String>(j, "language"@, v.language)
        &&& required_is::<String>(j, "format"@, v.format)
    }

    fn from_json(j: &JsonValue) -> (r: Option<FormatLanguage>) {
        if !is_object(j) {
            return None;
        }
        let language = read_required::<String>(j, "language")?;
        let format = read_required::<String>(j, "format")?;
        Some(FormatLanguage {
            language,
            format,
        })
    }
}
} // verus!
