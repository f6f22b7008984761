//! Image suppliers described by configuration: how to ask one for an image,
//! and how to read the image reference out of its JSON answer.

use vstd::prelude::*;
use vstd::string::{StrSliceExecFns, StringExecFns};
use image::ImageFormat;
use crate::chance::random_u32;
use crate::cache::ImageCache;
use crate::format::{format_from_mime_type, format_of_path, mime_format, path_format};
use crate::json::{field_of, get_field, kind_of, parsed_json, JsonField, JsonKind, JsonValue};
use crate::picture::{ImageUrl, SearchParameters};
use crate::text::{clone_strings, is_safe_stem, stem_is_safe, views};
use crate::web::{is_url, url_is_valid};

verus! {

/// Where the identifier of an image comes from.
pub enum ImageId {
    /// From the field of the entry with this key, a string or a number.
    Key { key: String },
    /// From a random number, drawn for each entry that is read.
    Random,
}

/// Where the format of an image comes from.
pub enum ImageTypeDecodeMethod {
    /// From the MIME type in the field of the entry with this key.
    Key { key: String },
    /// From the extension of the image's url.
    Path,
}

/// Where the entry of an image lies in the answer.
pub enum ResponseResultLocation {
    /// In the array under this key: its first entry, or its first entry that
    /// the cache does not hold.
    Array { key: String },
    /// Under this key.
    Entry { key: String },
}

/// The formats of answers that can be read.
pub enum ResponseFormat {
    Json,
}

/// How to read a supplier's answer.
pub struct ResponseData {
    pub format: ResponseFormat,
    pub id: ImageId,
    pub location: ResponseResultLocation,
    pub image_url_key: String,
    pub image_type: ImageTypeDecodeMethod,
}

/// What a field was expected to hold.
#[derive(Clone, Copy, Debug, PartialEq, Eq, Structural)]
pub enum Expected {
    Text,
    TextOrNumber,
    Array,
    Object,
}

/// Why an answer could not be read.
#[derive(Debug)]
pub enum DecodeError {
    /// The body is not a JSON object.
    Malformed,
    /// A field that the schema names is not there.
    MissingField { key: String },
    /// A field that the schema names holds a value of another kind.
    WrongType { key: String, expected: Expected, actual: JsonKind },
    /// The entry that should describe the image is not an object.
    NotAnObject { actual: JsonKind },
    /// The array of entries is empty.
    NoEntries { key: String },
    /// The identifier cannot name a file: it is empty, holds a separator,
    /// or is a dot component.
    UnsafeIdentifier { key: String, identifier: String },
    /// The MIME type names no image format.
    UnknownMimeType { mime_type: String },
    /// The extension of the image's url names no image format.
    UnknownFormat { url: String },
    /// The image's url is no url.
    InvalidUrl { url: String },
}

impl Expected {
    /// The name of what was expected, as a text.
    pub open spec fn name_of(self) -> Seq<char> {
        match self {
            Expected::Text => "String"@,
            Expected::TextOrNumber => "String or Number"@,
            Expected::Array => "Array"@,
            Expected::Object => "Object"@,
        }
    }

    /// The name of what was expected.
    pub fn name(&self) -> (name: &'static str)
        ensures
            name@ == self.name_of(),
    {
        match self {
            Expected::Text => "String",
            Expected::TextOrNumber => "String or Number",
            Expected::Array => "Array",
            Expected::Object => "Object",
        }
    }
}

/// The message of a decoding error: the field at fault, and what it should
/// have held.
pub open spec fn fault_message(fault: DecodeFault) -> Seq<char> {
    match fault {
        DecodeFault::Malformed => "The response is not a JSON object"@,
        DecodeFault::MissingField { key } => "No value for key: "@ + key,
        DecodeFault::WrongType { key, expected, actual } => "Key: "@ + key + " not of type: "@
            + expected.name_of() + ", but of type: "@ + actual.name_of(),
        DecodeFault::NotAnObject { actual } => "Entry should be an object, but is of type: "@
            + actual.name_of(),
        DecodeFault::NoEntries { key } => "No entries in response array: "@ + key,
        DecodeFault::UnsafeIdentifier { key, identifier } => "Key for id: "@ + key
            + " holds no file name: "@ + identifier,
        DecodeFault::UnknownMimeType { mime_type } => "No valid file format for mime type: "@
            + mime_type,
        DecodeFault::UnknownFormat { url } => "No valid file format for url: "@ + url,
        DecodeFault::InvalidUrl { url } => "Not a valid url: "@ + url,
    }
}

impl DecodeError {
    /// The message of the error.
    pub fn message(&self) -> (text: String)
        ensures
            text@ == fault_message(self@),
    {
        match self {
            DecodeError::Malformed => String::from_str("The response is not a JSON object"),
            DecodeError::MissingField { key } => String::from_str("No value for key: ").concat(
                key.as_str(),
            ),
            DecodeError::WrongType { key, expected, actual } => String::from_str("Key: ").concat(
                key.as_str(),
            ).concat(" not of type: ").concat(expected.name()).concat(", but of type: ").concat(
                actual.name(),
            ),
            DecodeError::NotAnObject { actual } => String::from_str(
                "Entry should be an object, but is of type: ",
            ).concat(actual.name()),
            DecodeError::NoEntries { key } => String::from_str(
                "No entries in response array: ",
            ).concat(key.as_str()),
            DecodeError::UnsafeIdentifier { key, identifier } => String::from_str(
                "Key for id: ",
            ).concat(key.as_str()).concat(" holds no file name: ").concat(identifier.as_str()),
            DecodeError::UnknownMimeType { mime_type } => String::from_str(
                "No valid file format for mime type: ",
            ).concat(mime_type.as_str()),
            DecodeError::UnknownFormat { url } => String::from_str(
                "No valid file format for url: ",
            ).concat(url.as_str()),
            DecodeError::InvalidUrl { url } => String::from_str("Not a valid url: ").concat(
                url.as_str(),
            ),
        }
    }
}

/// A decoding error over plain sequences.
pub enum DecodeFault {
    Malformed,
    MissingField { key: Seq<char> },
    WrongType { key: Seq<char>, expected: Expected, actual: JsonKind },
    NotAnObject { actual: JsonKind },
    NoEntries { key: Seq<char> },
    UnsafeIdentifier { key: Seq<char>, identifier: Seq<char> },
    UnknownMimeType { mime_type: Seq<char> },
    UnknownFormat { url: Seq<char> },
    InvalidUrl { url: Seq<char> },
}

/// An image reference over plain sequences.
pub struct Reference {
    pub stem: Seq<char>,
    pub url: Seq<char>,
    pub format: ImageFormat,
}

impl View for DecodeError {
    type V = DecodeFault;

    open spec fn view(&self) -> DecodeFault {
        match *self {
            DecodeError::Malformed => DecodeFault::Malformed,
            DecodeError::MissingField { key } => DecodeFault::MissingField { key: key@ },
            DecodeError::WrongType { key, expected, actual } => DecodeFault::WrongType {
                key: key@,
                expected,
                actual,
            },
            DecodeError::NotAnObject { actual } => DecodeFault::NotAnObject { actual },
            DecodeError::NoEntries { key } => DecodeFault::NoEntries { key: key@ },
            DecodeError::UnsafeIdentifier { key, identifier } => DecodeFault::UnsafeIdentifier {
                key: key@,
                identifier: identifier@,
            },
            DecodeError::UnknownMimeType { mime_type } => DecodeFault::UnknownMimeType {
                mime_type: mime_type@,
            },
            DecodeError::UnknownFormat { url } => DecodeFault::UnknownFormat { url: url@ },
            DecodeError::InvalidUrl { url } => DecodeFault::InvalidUrl { url: url@ },
        }
    }
}

impl View for ImageUrl {
    type V = Reference;

    open spec fn view(&self) -> Reference {
        Reference { stem: self.stem(), url: self.url(), format: self.format() }
    }
}

/// The outcome of a decoding, over plain sequences.
pub open spec fn outcome_of(result: Result<ImageUrl, DecodeError>) -> Result<
    Reference,
    DecodeFault,
> {
    match result {
        Ok(reference) => Ok(reference@),
        Err(error) => Err(error@),
    }
}

/// The digit `d` as a character.
pub open spec fn digit_char(d: nat) -> char
    recommends
        d < 10,
{
    "0123456789"@[d as int]
}

/// A number in decimal digits.
pub open spec fn decimal(n: nat) -> Seq<char>
    decreases n,
{
    if n < 10 {
        seq![digit_char(n)]
    } else {
        decimal(n / 10).push(digit_char(n % 10))
    }
}

/// Writes a number in decimal digits.
pub fn decimal_text(n: u32) -> (text: String)
    ensures
        text@ == decimal(n as nat),
    decreases n,
{
    let digits = "0123456789";
    proof {
        reveal_strlit("0123456789");
    }
    let d: usize = (n % 10) as usize;
    let last = digits.substring_char(d, d + 1);
    assert(last@ =~= seq![digit_char(d as nat)]);
    if n < 10 {
        String::from_str(last)
    } else {
        let text = decimal_text(n / 10).concat(last);
        assert(text@ =~= decimal((n / 10) as nat).push(digit_char((n % 10) as nat)));
        text
    }
}

/// The numbers drawn so far, and `rest` for every draw after them.
pub open spec fn draws_of(drawn: Seq<u32>, rest: u32) -> spec_fn(int) -> u32 {
    |j: int|
        if 0 <= j < drawn.len() {
            drawn[j]
        } else {
            rest
        }
}

/// The identifier as a stem, where it can name a file; else the error that
/// names the identifier's field.
pub open spec fn safe_identifier(key: Seq<char>, identifier: Seq<char>) -> Result<
    Seq<char>,
    DecodeFault,
> {
    if is_safe_stem(identifier) {
        Ok(identifier)
    } else {
        Err(DecodeFault::UnsafeIdentifier { key, identifier })
    }
}

/// Takes an identifier for a stem, if it can name a file.
fn check_identifier(key: &String, identifier: &String) -> (stem: Result<String, DecodeError>)
    ensures
        match stem {
            Ok(s) => safe_identifier(key@, identifier@) == Ok::<Seq<char>, DecodeFault>(s@),
            Err(e) => safe_identifier(key@, identifier@) == Err::<Seq<char>, DecodeFault>(e@),
        },
{
    if stem_is_safe(identifier.as_str()) {
        Ok(identifier.clone())
    } else {
        Err(DecodeError::UnsafeIdentifier { key: key.clone(), identifier: identifier.clone() })
    }
}

/// Whether a character is a decimal digit.
pub open spec fn is_digit(c: char) -> bool {
    c == '0' || c == '1' || c == '2' || c == '3' || c == '4' || c == '5' || c == '6' || c == '7'
        || c == '8' || c == '9'
}

/// A number in decimal digits holds digits only, and at least one.
pub proof fn lemma_decimal_holds_digits(n: nat)
    ensures
        decimal(n).len() > 0,
        forall|i: int| 0 <= i < decimal(n).len() ==> is_digit(#[trigger] decimal(n)[i]),
    decreases n,
{
    reveal_strlit("0123456789");
    if n >= 10 {
        lemma_decimal_holds_digits(n / 10);
        assert(is_digit(digit_char(n % 10)));
    } else {
        assert(is_digit(digit_char(n)));
    }
}

/// A number in decimal digits can name a file.
pub proof fn lemma_decimal_is_safe(n: nat)
    ensures
        is_safe_stem(decimal(n)),
{
    let text = decimal(n);
    lemma_decimal_holds_digits(n);
    assert(is_digit(text[0]));
    if text.contains('/') {
        let i = choose|i: int| 0 <= i < text.len() && text[i] == '/';
        assert(is_digit(text[i]));
    }
    if text.contains('\\') {
        let i = choose|i: int| 0 <= i < text.len() && text[i] == '\\';
        assert(is_digit(text[i]));
    }
    if text == seq!['.'] {
        assert(seq!['.'][0] == '.');
    }
    if text == seq!['.', '.'] {
        assert(seq!['.', '.'][0] == '.');
    }
}

/// Reads image references out of JSON answers, by a fixed schema.
pub struct JsonResponseDecoder {
    pub id: ImageId,
    pub location: ResponseResultLocation,
    pub image_url_key: String,
    pub image_type: ImageTypeDecodeMethod,
}

/// The text of a field that has to hold a string.
pub open spec fn text_field(fields: Seq<JsonField>, key: Seq<char>) -> Result<
    Seq<char>,
    DecodeFault,
> {
    match field_of(fields, key) {
        None => Err(DecodeFault::MissingField { key }),
        Some(JsonValue::Text(text)) => Ok(text@),
        Some(other) => Err(
            DecodeFault::WrongType { key, expected: Expected::Text, actual: kind_of(other) },
        ),
    }
}

/// Reads a field that has to hold a string.
pub fn get_text<'a>(fields: &'a Vec<JsonField>, key: &str) -> (text: Result<&'a String, DecodeError>)
    ensures
        match text {
            Ok(t) => text_field(fields@, key@) == Ok::<Seq<char>, DecodeFault>(t@),
            Err(e) => text_field(fields@, key@) == Err::<Seq<char>, DecodeFault>(e@),
        },
{
    match get_field(fields, key) {
        None => Err(DecodeError::MissingField { key: String::from_str(key) }),
        Some(JsonValue::Text(text)) => Ok(text),
        Some(other) => Err(
            DecodeError::WrongType {
                key: String::from_str(key),
                expected: Expected::Text,
                actual: other.kind(),
            },
        ),
    }
}

impl JsonResponseDecoder {
    /// The stem that an entry gets: the text of the identifier field, or
    /// the number in it as printed, where that can name a file; with the
    /// random strategy, the number drawn, in decimal digits.
    pub open spec fn stem_outcome(self, fields: Seq<JsonField>, drawn: u32) -> Result<
        Seq<char>,
        DecodeFault,
    > {
        match self.id {
            ImageId::Random => Ok(decimal(drawn as nat)),
            ImageId::Key { key } => match field_of(fields, key@) {
                None => Err(DecodeFault::MissingField { key: key@ }),
                Some(JsonValue::Text(text)) => safe_identifier(key@, text@),
                Some(JsonValue::Number(number)) => safe_identifier(key@, number@),
                Some(other) => Err(
                    DecodeFault::WrongType {
                        key: key@,
                        expected: Expected::TextOrNumber,
                        actual: kind_of(other),
                    },
                ),
            },
        }
    }

    /// The format that an entry gets: the one of the url's extension, or the
    /// one that the MIME type field names.
    pub open spec fn format_outcome(self, fields: Seq<JsonField>, url: Seq<char>) -> Result<
        ImageFormat,
        DecodeFault,
    > {
        match self.image_type {
            ImageTypeDecodeMethod::Path => match path_format(url) {
                Some(format) => Ok(format),
                None => Err(DecodeFault::UnknownFormat { url }),
            },
            ImageTypeDecodeMethod::Key { key } => match text_field(fields, key@) {
                Err(fault) => Err(fault),
                Ok(mime_type) => match mime_format(mime_type) {
                    Some(format) => Ok(format),
                    None => Err(DecodeFault::UnknownMimeType { mime_type }),
                },
            },
        }
    }

    /// What decoding one entry comes to, `drawn` being the random number at
    /// hand: the entry has to be an object; identifier, url and format are
    /// read in that order, and the first that fails gives the error; last,
    /// the url has to parse.
    pub open spec fn entry_outcome(self, entry: JsonValue, drawn: u32) -> Result<
        Reference,
        DecodeFault,
    > {
        match entry {
            JsonValue::Object(fields) => match self.stem_outcome(fields@, drawn) {
                Err(fault) => Err(fault),
                Ok(stem) => match text_field(fields@, self.image_url_key@) {
                    Err(fault) => Err(fault),
                    Ok(url) => match self.format_outcome(fields@, url) {
                        Err(fault) => Err(fault),
                        Ok(format) => if is_url(url) {
                            Ok(Reference { stem, url, format })
                        } else {
                            Err(DecodeFault::InvalidUrl { url })
                        },
                    },
                },
            },
            other => Err(DecodeFault::NotAnObject { actual: kind_of(other) }),
        }
    }

    /// What the first entry of an array comes to.
    pub open spec fn first_outcome(self, key: Seq<char>, entries: Seq<JsonValue>, drawn: u32)
        -> Result<Reference, DecodeFault> {
        if entries.len() == 0 {
            Err(DecodeFault::NoEntries { key })
        } else {
            self.entry_outcome(entries[0], drawn)
        }
    }

    /// What scanning an array from entry `i` on comes to, `draws` giving the
    /// random number for each entry (and, at the array's length, the one for
    /// the fall-back): entries are decoded in order; one that fails gives
    /// the error; one whose stem the cache holds is passed over; the first
    /// whose stem it does not hold is the answer. Where every entry is
    /// passed over, the answer is the first entry.
    pub open spec fn scan_outcome(
        self,
        key: Seq<char>,
        entries: Seq<JsonValue>,
        cache: ImageCache,
        draws: spec_fn(int) -> u32,
        i: int,
    ) -> Result<Reference, DecodeFault>
        decreases entries.len() - i,
    {
        if i < 0 || i >= entries.len() {
            self.first_outcome(key, entries, draws(entries.len() as int))
        } else {
            match self.entry_outcome(entries[i], draws(i)) {
                Err(fault) => Err(fault),
                Ok(reference) => if cache.holds(reference.stem) {
                    self.scan_outcome(key, entries, cache, draws, i + 1)
                } else {
                    Ok(reference)
                },
            }
        }
    }

    /// What decoding a document comes to.
    pub open spec fn document_outcome(
        self,
        document: JsonValue,
        skip_cache: bool,
        cache: ImageCache,
        draws: spec_fn(int) -> u32,
    ) -> Result<Reference, DecodeFault> {
        match document {
            JsonValue::Object(fields) => match self.location {
                ResponseResultLocation::Array { key } => match field_of(fields@, key@) {
                    None => Err(DecodeFault::MissingField { key: key@ }),
                    Some(JsonValue::Array(entries)) => if skip_cache {
                        self.scan_outcome(key@, entries@, cache, draws, 0)
                    } else {
                        self.first_outcome(key@, entries@, draws(entries@.len() as int))
                    },
                    Some(other) => Err(
                        DecodeFault::WrongType {
                            key: key@,
                            expected: Expected::Array,
                            actual: kind_of(other),
                        },
                    ),
                },
                ResponseResultLocation::Entry { key } => match field_of(fields@, key@) {
                    None => Err(DecodeFault::MissingField { key: key@ }),
                    Some(entry) => self.entry_outcome(entry, draws(0)),
                },
            },
            _ => Err(DecodeFault::Malformed),
        }
    }

    /// The stem of an entry.
    fn decode_stem(&self, fields: &Vec<JsonField>, drawn: u32) -> (stem: Result<String, DecodeError>)
        ensures
            match stem {
                Ok(s) => self.stem_outcome(fields@, drawn) == Ok::<Seq<char>, DecodeFault>(s@)
                    && is_safe_stem(s@),
                Err(e) => self.stem_outcome(fields@, drawn) == Err::<Seq<char>, DecodeFault>(e@),
            },
    {
        proof {
            lemma_decimal_is_safe(drawn as nat);
        }
        match &self.id {
            ImageId::Random => Ok(decimal_text(drawn)),
            ImageId::Key { key } => match get_field(fields, key.as_str()) {
                None => Err(DecodeError::MissingField { key: key.clone() }),
                Some(JsonValue::Text(text)) => check_identifier(key, text),
                Some(JsonValue::Number(number)) => check_identifier(key, number),
                Some(other) => Err(
                    DecodeError::WrongType {
                        key: key.clone(),
                        expected: Expected::TextOrNumber,
                        actual: other.kind(),
                    },
                ),
            },
        }
    }

    /// The format of an entry.
    fn decode_format(&self, fields: &Vec<JsonField>, url: &str) -> (format: Result<
        ImageFormat,
        DecodeError,
    >)
        ensures
            match format {
                Ok(f) => self.format_outcome(fields@, url@) == Ok::<ImageFormat, DecodeFault>(f),
                Err(e) => self.format_outcome(fields@, url@) == Err::<ImageFormat, DecodeFault>(
                    e@,
                ),
            },
    {
        match &self.image_type {
            ImageTypeDecodeMethod::Path => match format_of_path(url) {
                Some(format) => Ok(format),
                None => Err(DecodeError::UnknownFormat { url: String::from_str(url) }),
            },
            ImageTypeDecodeMethod::Key { key } => match get_text(fields, key.as_str()) {
                Err(error) => Err(error),
                Ok(mime_type) => match format_from_mime_type(mime_type.as_str()) {
                    Some(format) => Ok(format),
                    None => Err(DecodeError::UnknownMimeType { mime_type: mime_type.clone() }),
                },
            },
        }
    }

    /// Decodes one entry of an answer into an image reference; `drawn` is
    /// the identifier to use where identifiers are drawn.
    pub fn decode_entry(&self, entry: &JsonValue, drawn: u32) -> (reference: Result<
        ImageUrl,
        DecodeError,
    >)
        ensures
            outcome_of(reference) == self.entry_outcome(*entry, drawn),
            reference matches Ok(r) ==> is_safe_stem(r.stem()),
    {
        proof {
            self.lemma_stem_is_safe(*entry, drawn);
        }
        match entry {
            JsonValue::Object(fields) => {
                let stem = match self.decode_stem(fields, drawn) {
                    Ok(stem) => stem,
                    Err(error) => return Err(error),
                };
                let url = match get_text(fields, self.image_url_key.as_str()) {
                    Ok(url) => url,
                    Err(error) => return Err(error),
                };
                let image_format = match self.decode_format(fields, url.as_str()) {
                    Ok(format) => format,
                    Err(error) => return Err(error),
                };
                if !url_is_valid(url.as_str()) {
                    return Err(DecodeError::InvalidUrl { url: url.clone() });
                }
                Ok(ImageUrl::assemble(stem, url.clone(), image_format))
            },
            other => Err(DecodeError::NotAnObject { actual: other.kind() }),
        }
    }

    /// A number for the next entry: drawn at random where identifiers are
    /// drawn, so that any number may come; 0 where they are read from a
    /// field, and no number is used.
    fn next_draw(&self) -> (number: u32)
        ensures
            self.id is Key ==> number == 0,
    {
        match &self.id {
            ImageId::Random => random_u32(),
            ImageId::Key { .. } => 0,
        }
    }

    /// Decodes the first entry of an array.
    fn decode_first(&self, key: &str, entries: &Vec<JsonValue>, drawn: u32) -> (reference: Result<
        ImageUrl,
        DecodeError,
    >)
        ensures
            outcome_of(reference) == self.first_outcome(key@, entries@, drawn),
            reference matches Ok(r) ==> is_safe_stem(r.stem()),
    {
        if entries.len() == 0 {
            return Err(DecodeError::NoEntries { key: String::from_str(key) });
        }
        self.decode_entry(&entries[0], drawn)
    }

    /// Scans an array for the first entry that the cache does not hold.
    fn decode_scan(&self, key: &str, entries: &Vec<JsonValue>, cache: &ImageCache) -> (reference:
        Result<ImageUrl, DecodeError>)
        ensures
            exists|draws: spec_fn(int) -> u32|
                outcome_of(reference) == #[trigger] self.scan_outcome(
                    key@,
                    entries@,
                    *cache,
                    draws,
                    0,
                ),
            reference matches Ok(r) ==> is_safe_stem(r.stem()),
    {
        let ghost mut drawn: Seq<u32> = Seq::empty();
        let mut i: usize = 0;
        while i < entries.len()
            invariant
                i <= entries.len(),
                drawn.len() == i,
                forall|j: int|
                    0 <= j < i ==> (#[trigger] self.entry_outcome(entries@[j], drawn[j])
                        matches Ok(r) && cache.holds(r.stem)),
            decreases entries.len() - i,
        {
            let number = self.next_draw();
            let decoded = self.decode_entry(&entries[i], number);
            proof {
                drawn = drawn.push(number);
            }
            let settled = match &decoded {
                Err(_) => true,
                Ok(reference) => cache.find(reference.get_stem()).is_err(),
            };
            if settled {
                proof {
                    self.lemma_scan_passes_over(
                        key@,
                        entries@,
                        *cache,
                        draws_of(drawn, 0),
                        i as int,
                    );
                }
                return decoded;
            }
            i = i + 1;
        }
        let number = self.next_draw();
        let reference = self.decode_first(key, entries, number);
        proof {
            self.lemma_scan_passes_over(key@, entries@, *cache, draws_of(drawn, number), i as int);
        }
        reference
    }

    /// A scan that passes over its first `i` entries continues at entry `i`.
    pub proof fn lemma_scan_passes_over(
        self,
        key: Seq<char>,
        entries: Seq<JsonValue>,
        cache: ImageCache,
        draws: spec_fn(int) -> u32,
        i: int,
    )
        requires
            0 <= i <= entries.len(),
            forall|j: int|
                0 <= j < i ==> (#[trigger] self.entry_outcome(entries[j], draws(j)) matches Ok(r)
                    && cache.holds(r.stem)),
        ensures
            self.scan_outcome(key, entries, cache, draws, 0) == self.scan_outcome(
                key,
                entries,
                cache,
                draws,
                i,
            ),
        decreases i,
    {
        if i > 0 {
            self.lemma_scan_passes_over(key, entries, cache, draws, i - 1);
            assert(self.entry_outcome(entries[i - 1], draws(i - 1)) is Ok);
        }
    }

    /// A scan answers with the first entry that the cache does not hold:
    /// where the entries before entry `i` decode to stems that the cache
    /// holds, and entry `i` to one that it does not, entry `i` is the answer.
    pub proof fn lemma_scan_answers_first_uncached(
        self,
        key: Seq<char>,
        entries: Seq<JsonValue>,
        cache: ImageCache,
        draws: spec_fn(int) -> u32,
        i: int,
    )
        requires
            0 <= i < entries.len(),
            forall|j: int|
                0 <= j < i ==> (#[trigger] self.entry_outcome(entries[j], draws(j)) matches Ok(r)
                    && cache.holds(r.stem)),
            self.entry_outcome(entries[i], draws(i)) matches Ok(r) && !cache.holds(r.stem),
        ensures
            self.scan_outcome(key, entries, cache, draws, 0) == self.entry_outcome(
                entries[i],
                draws(i),
            ),
    {
        self.lemma_scan_passes_over(key, entries, cache, draws, i);
    }

    /// A scan that finds every entry in the cache falls back to the first.
    pub proof fn lemma_scan_falls_back_to_first(
        self,
        key: Seq<char>,
        entries: Seq<JsonValue>,
        cache: ImageCache,
        draws: spec_fn(int) -> u32,
    )
        requires
            forall|j: int|
                0 <= j < entries.len() ==> (#[trigger] self.entry_outcome(entries[j], draws(j))
                    matches Ok(r) && cache.holds(r.stem)),
        ensures
            self.scan_outcome(key, entries, cache, draws, 0) == self.first_outcome(
                key,
                entries,
                draws(entries.len() as int),
            ),
    {
        self.lemma_scan_passes_over(key, entries, cache, draws, entries.len() as int);
    }

    /// Every stem that decoding gives can name a file: it is not empty,
    /// holds no separator, and is no dot component.
    pub proof fn lemma_stem_is_safe(self, entry: JsonValue, drawn: u32)
        ensures
            self.entry_outcome(entry, drawn) matches Ok(reference) ==> is_safe_stem(
                reference.stem,
            ),
    {
        lemma_decimal_is_safe(drawn as nat);
    }

    /// An entry without the field of the image's url never decodes: the
    /// outcome is an error, and it is the error that names that field unless
    /// the identifier already failed.
    pub proof fn lemma_missing_url_is_an_error(self, entry: JsonValue, drawn: u32)
        requires
            entry matches JsonValue::Object(fields) && field_of(fields@, self.image_url_key@)
                is None,
        ensures
            self.entry_outcome(entry, drawn) is Err,
            entry matches JsonValue::Object(fields) && (self.stem_outcome(fields@, drawn) is Ok
                ==> self.entry_outcome(entry, drawn) == Err::<Reference, DecodeFault>(
                DecodeFault::MissingField { key: self.image_url_key@ },
            )),
    {
    }

    /// Where identifiers are read from a field, the numbers drawn have no
    /// part in the outcome of an entry.
    pub proof fn lemma_keyed_entry_ignores_draws(self, entry: JsonValue, a: u32, b: u32)
        requires
            self.id is Key,
        ensures
            self.entry_outcome(entry, a) == self.entry_outcome(entry, b),
    {
    }

    /// Where identifiers are read from a field, the numbers drawn have no
    /// part in the outcome of a scan.
    pub proof fn lemma_keyed_scan_ignores_draws(
        self,
        key: Seq<char>,
        entries: Seq<JsonValue>,
        cache: ImageCache,
        a: spec_fn(int) -> u32,
        b: spec_fn(int) -> u32,
        i: int,
    )
        requires
            self.id is Key,
            0 <= i <= entries.len(),
        ensures
            self.scan_outcome(key, entries, cache, a, i) == self.scan_outcome(
                key,
                entries,
                cache,
                b,
                i,
            ),
        decreases entries.len() - i,
    {
        if i < entries.len() {
            self.lemma_keyed_entry_ignores_draws(entries[i], a(i), b(i));
            self.lemma_keyed_scan_ignores_draws(key, entries, cache, a, b, i + 1);
        } else if entries.len() > 0 {
            self.lemma_keyed_entry_ignores_draws(
                entries[0],
                a(entries.len() as int),
                b(entries.len() as int),
            );
        }
    }

    /// Where identifiers are read from a field, a document decodes to one
    /// outcome, whatever numbers are drawn.
    pub proof fn lemma_keyed_document_ignores_draws(
        self,
        document: JsonValue,
        skip_cache: bool,
        cache: ImageCache,
        a: spec_fn(int) -> u32,
        b: spec_fn(int) -> u32,
    )
        requires
            self.id is Key,
        ensures
            self.document_outcome(document, skip_cache, cache, a) == self.document_outcome(
                document,
                skip_cache,
                cache,
                b,
            ),
    {
        match document {
            JsonValue::Object(fields) => match self.location {
                ResponseResultLocation::Array { key } => match field_of(fields@, key@) {
                    Some(JsonValue::Array(entries)) => {
                        self.lemma_keyed_scan_ignores_draws(key@, entries@, cache, a, b, 0);
                        if entries@.len() > 0 {
                            self.lemma_keyed_entry_ignores_draws(
                                entries@[0],
                                a(entries@.len() as int),
                                b(entries@.len() as int),
                            );
                        }
                    },
                    _ => {},
                },
                ResponseResultLocation::Entry { key } => match field_of(fields@, key@) {
                    Some(entry) => {
                        self.lemma_keyed_entry_ignores_draws(entry, a(0), b(0));
                    },
                    None => {},
                },
            },
            _ => {},
        }
    }

    /// Decodes a document: the answer of a supplier, read as JSON.
    ///
    /// The result is what `document_outcome` gives for the numbers that
    /// were drawn; where identifiers are read from a field, no number has a
    /// part in it.
    pub fn decode_base(&self, data: &JsonValue, parameters: &SearchParameters, cache: &ImageCache)
        -> (reference: Result<ImageUrl, DecodeError>)
        ensures
            exists|draws: spec_fn(int) -> u32|
                outcome_of(reference) == #[trigger] self.document_outcome(
                    *data,
                    parameters.skip_cache,
                    *cache,
                    draws,
                ),
            reference matches Ok(r) ==> is_safe_stem(r.stem()),
    {
        let ghost mut draws: spec_fn(int) -> u32 = |j: int| 0u32;
        let reference = match data {
            JsonValue::Object(fields) => match &self.location {
                ResponseResultLocation::Array { key } => match get_field(fields, key.as_str()) {
                    None => Err(DecodeError::MissingField { key: key.clone() }),
                    Some(JsonValue::Array(entries)) => {
                        if parameters.skip_cache {
                            let scanned = self.decode_scan(key.as_str(), entries, cache);
                            proof {
                                draws = choose|drawn: spec_fn(int) -> u32|
                                    outcome_of(scanned) == #[trigger] self.scan_outcome(
                                        key@,
                                        entries@,
                                        *cache,
                                        drawn,
                                        0,
                                    );
                            }
                            scanned
                        } else {
                            let number = self.next_draw();
                            proof {
                                draws = |j: int| number;
                            }
                            self.decode_first(key.as_str(), entries, number)
                        }
                    },
                    Some(other) => Err(
                        DecodeError::WrongType {
                            key: key.clone(),
                            expected: Expected::Array,
                            actual: other.kind(),
                        },
                    ),
                },
                ResponseResultLocation::Entry { key } => match get_field(fields, key.as_str()) {
                    None => Err(DecodeError::MissingField { key: key.clone() }),
                    Some(entry) => {
                        let number = self.next_draw();
                        proof {
                            draws = |j: int| number;
                        }
                        self.decode_entry(entry, number)
                    },
                },
            },
            _ => Err(DecodeError::Malformed),
        };
        assert(outcome_of(reference) == self.document_outcome(
            *data,
            parameters.skip_cache,
            *cache,
            draws,
        ));
        reference
    }
}

impl JsonResponseDecoder {
    /// The decoder for a schema.
    pub fn from(value: ResponseData) -> (decoder: Self)
        ensures
            decoder.id == value.id,
            decoder.location == value.location,
            decoder.image_url_key == value.image_url_key,
            decoder.image_type == value.image_type,
    {
        JsonResponseDecoder {
            id: value.id,
            location: value.location,
            image_url_key: value.image_url_key,
            image_type: value.image_type,
        }
    }

    /// What decoding a body comes to: a body that `serde_json` does not
    /// accept is malformed; else the document in it is decoded.
    pub open spec fn body_outcome(
        self,
        body: Seq<u8>,
        skip_cache: bool,
        cache: ImageCache,
        draws: spec_fn(int) -> u32,
    ) -> Result<Reference, DecodeFault> {
        match parsed_json(body) {
            None => Err(DecodeFault::Malformed),
            Some(document) => self.document_outcome(document, skip_cache, cache, draws),
        }
    }

    /// Decodes the body of an answer.
    pub fn decode(&self, body: &[u8], parameters: &SearchParameters, cache: &ImageCache) -> (reference:
        Result<ImageUrl, DecodeError>)
        ensures
            exists|draws: spec_fn(int) -> u32|
                outcome_of(reference) == #[trigger] self.body_outcome(
                    body@,
                    parameters.skip_cache,
                    *cache,
                    draws,
                ),
            reference matches Ok(r) ==> is_safe_stem(r.stem()),
    {
        let ghost mut draws: spec_fn(int) -> u32 = |j: int| 0u32;
        let reference = match JsonValue::parse(body) {
            None => Err(DecodeError::Malformed),
            Some(document) => {
                let decoded = self.decode_base(&document, parameters, cache);
                proof {
                    draws = choose|drawn: spec_fn(int) -> u32|
                        outcome_of(decoded) == #[trigger] self.document_outcome(
                            document,
                            parameters.skip_cache,
                            *cache,
                            drawn,
                        );
                }
                decoded
            },
        };
        assert(outcome_of(reference) == self.body_outcome(
            body@,
            parameters.skip_cache,
            *cache,
            draws,
        ));
        reference
    }
}

/// Why a supplier gave no image reference: the request failed, or its
/// answer could not be read.
#[derive(Debug)]
pub enum SupplierError {
    /// The transport failed; the reason is kept as it came.
    Network(String),
    /// The answer does not fit the schema.
    Decode(DecodeError),
}

impl SupplierError {
    /// The message of the error, as a text.
    pub open spec fn message_of(self) -> Seq<char> {
        match self {
            SupplierError::Network(reason) => "The request to the supplier failed: "@ + reason@,
            SupplierError::Decode(error) => "The response of the supplier could not be read: "@
                + fault_message(error@),
        }
    }

    /// The message of the error.
    pub fn message(&self) -> (text: String)
        ensures
            text@ == self.message_of(),
    {
        match self {
            SupplierError::Network(reason) => String::from_str(
                "The request to the supplier failed: ",
            ).concat(reason.as_str()),
            SupplierError::Decode(error) => String::from_str(
                "The response of the supplier could not be read: ",
            ).concat(error.message().as_str()),
        }
    }
}

impl ResponseData {
    /// The decoder that reads answers by this schema.
    pub open spec fn decoder(self) -> JsonResponseDecoder {
        JsonResponseDecoder {
            id: self.id,
            location: self.location,
            image_url_key: self.image_url_key,
            image_type: self.image_type,
        }
    }

    /// Reads the answer to a search: a failed request is a network error
    /// with the reason it came with; a body is decoded by the schema, and a
    /// failure there is a decoding error.
    pub fn process_response(
        self,
        response: Result<Vec<u8>, String>,
        parameters: &SearchParameters,
        cache: &ImageCache,
    ) -> (reference: Result<ImageUrl, SupplierError>)
        ensures
            match response {
                Err(reason) => reference matches Err(SupplierError::Network(r)) && r@ == reason@,
                Ok(body) => exists|draws: spec_fn(int) -> u32|
                    #[trigger] self.decoder().body_outcome(
                        body@,
                        parameters.skip_cache,
                        *cache,
                        draws,
                    ) == match reference {
                        Ok(r) => Ok::<Reference, DecodeFault>(r@),
                        Err(SupplierError::Decode(e)) => Err::<Reference, DecodeFault>(e@),
                        Err(SupplierError::Network(_)) => arbitrary(),
                    } && !(reference matches Err(SupplierError::Network(_))),
            },
            reference matches Ok(r) ==> is_safe_stem(r.stem()),
    {
        let body = match response {
            Ok(body) => body,
            Err(reason) => return Err(SupplierError::Network(reason)),
        };
        match self.format {
            ResponseFormat::Json => {
                let decoder = JsonResponseDecoder::from(self);
                let decoded = decoder.decode(body.as_slice(), parameters, cache);
                proof {
                    let draws = choose|draws: spec_fn(int) -> u32|
                        outcome_of(decoded) == #[trigger] decoder.body_outcome(
                            body@,
                            parameters.skip_cache,
                            *cache,
                            draws,
                        );
                    assert(decoder == self.decoder());
                    assert(outcome_of(decoded) == self.decoder().body_outcome(
                        body@,
                        parameters.skip_cache,
                        *cache,
                        draws,
                    ));
                }
                match decoded {
                    Ok(reference) => Ok(reference),
                    Err(error) => Err(SupplierError::Decode(error)),
                }
            },
        }
    }
}

/// The parts joined into one text, with the separator between neighbours.
pub open spec fn joined(parts: Seq<Seq<char>>, separator: Seq<char>) -> Seq<char>
    decreases parts.len(),
{
    if parts.len() == 0 {
        Seq::empty()
    } else if parts.len() == 1 {
        parts[0]
    } else {
        joined(parts.drop_last(), separator) + separator + parts.last()
    }
}

/// Every part with the prefix before it.
pub open spec fn prefixed(parts: Seq<Seq<char>>, prefix: Seq<char>) -> Seq<Seq<char>> {
    parts.map_values(|part: Seq<char>| prefix + part)
}

/// The text of an optional setting: empty where it is not set.
pub open spec fn text_or_empty(setting: Option<String>) -> Seq<char> {
    match setting {
        Some(text) => text@,
        None => Seq::empty(),
    }
}

/// How a list of values goes into one query parameter.
pub struct QueryData {
    /// The name of the parameter.
    pub query: String,
    /// What goes before every value.
    pub prefix: Option<String>,
    /// What goes between two values.
    pub seperator: Option<String>,
}

impl QueryData {
    /// The value of the parameter for a list of values: each with the
    /// prefix before it, joined with the separator.
    pub open spec fn query_value(self, data: Seq<Seq<char>>) -> Seq<char> {
        joined(prefixed(data, text_or_empty(self.prefix)), text_or_empty(self.seperator))
    }

    /// The query parameter for a list of values: its name and its value.
    pub fn to_query_entry(self, data: Vec<String>) -> (entry: (String, String))
        ensures
            entry.0@ == self.query@,
            entry.1@ == self.query_value(views(data@)),
    {
        let ghost prefix = text_or_empty(self.prefix);
        let ghost separator = text_or_empty(self.seperator);
        let ghost parts = prefixed(views(data@), prefix);
        let mut value = String::new();
        let mut i: usize = 0;
        while i < data.len()
            invariant
                i <= data.len(),
                prefix == text_or_empty(self.prefix),
                separator == text_or_empty(self.seperator),
                parts == prefixed(views(data@), prefix),
                value@ == joined(parts.take(i as int), separator),
            decreases data.len() - i,
        {
            let ghost before = value@;
            if i > 0 {
                match &self.seperator {
                    Some(text) => value.append(text.as_str()),
                    None => {},
                }
            }
            match &self.prefix {
                Some(text) => value.append(text.as_str()),
                None => {},
            }
            value.append(data[i].as_str());
            proof {
                let now = parts.take(i + 1);
                assert(now.drop_last() =~= parts.take(i as int));
                assert(now.last() == prefix + data@[i as int]@);
                if i == 0 {
                    assert(value@ =~= now[0]);
                } else {
                    assert(value@ =~= before + separator + now.last());
                }
            }
            i = i + 1;
        }
        assert(parts.take(data@.len() as int) =~= parts);
        (self.query, value)
    }
}

/// The sort order to ask for: a query parameter that is sent as it is.
pub struct SortData {
    pub query: String,
    pub value: String,
}

/// A request to a supplier: a GET of the url with the query parameters.
pub struct SearchRequest {
    pub base_url: String,
    pub query: Vec<(String, String)>,
}

/// A search that is under way: the request to send, and the schema by
/// which its answer is read.
pub struct Search {
    pub request: SearchRequest,
    pub response: ResponseData,
}

/// A supplier of images: a web API, and how to talk to it.
pub struct UrlSupplier {
    pub base_url: String,
    pub response: ResponseData,
    pub tags: QueryData,
    pub aspect_ratio: QueryData,
    pub sort: SortData,
}

impl UrlSupplier {
    /// Starts a search: the request asks the supplier's url with three
    /// query parameters, in this order: the tags, the aspect ratios, and the
    /// sort order as configured.
    pub fn search(self, parameters: &SearchParameters) -> (search: Search)
        ensures
            search.request.base_url@ == self.base_url@,
            search.request.query@.len() == 3,
            search.request.query@[0].0@ == self.tags.query@,
            search.request.query@[0].1@ == self.tags.query_value(views(parameters.tags@)),
            search.request.query@[1].0@ == self.aspect_ratio.query@,
            search.request.query@[1].1@ == self.aspect_ratio.query_value(
                views(parameters.aspect_ratios@),
            ),
            search.request.query@[2].0@ == self.sort.query@,
            search.request.query@[2].1@ == self.sort.value@,
            search.response == self.response,
    {
        let mut query: Vec<(String, String)> = Vec::new();
        query.push(self.tags.to_query_entry(clone_strings(&parameters.tags)));
        query.push(self.aspect_ratio.to_query_entry(clone_strings(&parameters.aspect_ratios)));
        query.push((self.sort.query, self.sort.value));
        Search {
            request: SearchRequest { base_url: self.base_url, query },
            response: self.response,
        }
    }
}

} // verus!
