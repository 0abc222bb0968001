//! Validated wrappers for the attributes of a specification.

use vstd::prelude::*;
use vstd::string::*;
use vstd::utf8::*;

verus! {

/// The longest name accepted, in characters.
pub const MAX_NAME_CHARS: usize = 255;

/// The largest document accepted, in bytes of its UTF-8 encoding.
pub const MAX_CONTENT_BYTES: usize = 2048;

/// Why a name or a document was refused.
#[derive(Debug, Clone, Copy, PartialEq, Eq, Structural)]
pub enum ValidationError {
    EmptyName,
    NameTooLong,
    InvalidCharacters,
    EmptyContent,
    ContentTooLarge,
    InvalidYaml,
}

/// A character that may occur in a name: an ASCII letter or digit, or one of `-`, `_`, `.`.
pub open spec fn is_name_char(c: char) -> bool {
    ||| ('a' <= c && c <= 'z')
    ||| ('A' <= c && c <= 'Z')
    ||| ('0' <= c && c <= '9')
    ||| c == '-'
    ||| c == '_'
    ||| c == '.'
}

/// Every character of `name` may occur in a name.
pub open spec fn only_name_chars(name: Seq<char>) -> bool {
    forall|i: int| 0 <= i < name.len() ==> is_name_char(#[trigger] name[i])
}

/// The first rule that `name` breaks, if any: emptiness, then length, then the characters.
pub open spec fn name_error(name: Seq<char>) -> Option<ValidationError> {
    if name.len() == 0 {
        Some(ValidationError::EmptyName)
    } else if name.len() > MAX_NAME_CHARS {
        Some(ValidationError::NameTooLong)
    } else if !only_name_chars(name) {
        Some(ValidationError::InvalidCharacters)
    } else {
        None
    }
}

/// The number of bytes that `text` takes in UTF-8.
pub open spec fn byte_len(text: Seq<char>) -> nat {
    encode_utf8(text).len()
}

/// Whether the YAML parser accepts `text` as a document.
pub uninterp spec fn yaml_well_formed(text: Seq<char>) -> bool;

/// The first rule that a document breaks, if any, given whether it parses:
/// emptiness, then size, then well-formedness.
pub open spec fn content_verdict(content: Seq<char>, well_formed: bool) -> Option<ValidationError> {
    if content.len() == 0 {
        Some(ValidationError::EmptyContent)
    } else if byte_len(content) > MAX_CONTENT_BYTES {
        Some(ValidationError::ContentTooLarge)
    } else if !well_formed {
        Some(ValidationError::InvalidYaml)
    } else {
        None
    }
}

/// The first rule that `content` breaks, if any.
pub open spec fn content_error(content: Seq<char>) -> Option<ValidationError> {
    content_verdict(content, yaml_well_formed(content))
}

fn name_char(c: char) -> (b: bool)
    ensures
        b == is_name_char(c),
{
    ('a' <= c && c <= 'z') || ('A' <= c && c <= 'Z') || ('0' <= c && c <= '9') || c == '-'
        || c == '_' || c == '.'
}

fn all_name_chars(name: &str) -> (b: bool)
    ensures
        b == only_name_chars(name@),
{
    broadcast use vstd::string::group_string_axioms;

    for c in it: name.chars()
        invariant
            it.seq() == name@,
            forall|i: int| 0 <= i < it.index() ==> is_name_char(#[trigger] name@[i]),
    {
        if !name_char(c) {
            return false;
        }
    }
    true
}

/// Asks `serde_yaml::from_str` to read `text` as a `serde_yaml::Value` and reports
/// whether it succeeded. The parser's verdict is taken on trust and named
/// `yaml_well_formed`; nothing is claimed about which texts it accepts.
#[verifier::external_body]
fn parses_as_yaml(text: &str) -> (ok: bool)
    ensures
        ok == yaml_well_formed(text@),
{
    serde_yaml::from_str::<serde_yaml::Value>(text).is_ok()
}

/// Judges a document whose well-formedness is already known.
pub fn check_content(content: &str, well_formed: bool) -> (verdict: Option<ValidationError>)
    ensures
        verdict == content_verdict(content@, well_formed),
{
    if content.is_empty() {
        Some(ValidationError::EmptyContent)
    } else if content.as_bytes().len() > MAX_CONTENT_BYTES {
        Some(ValidationError::ContentTooLarge)
    } else if !well_formed {
        Some(ValidationError::InvalidYaml)
    } else {
        None
    }
}

/// The name of a specification: 1 to 255 characters out of `[A-Za-z0-9._-]`.
#[derive(Debug, PartialEq, Eq)]
pub struct SpecName(String);

impl View for SpecName {
    type V = Seq<char>;

    closed spec fn view(&self) -> Seq<char> {
        self.0@
    }
}

impl Clone for SpecName {
    fn clone(&self) -> (copy: Self)
        ensures
            copy@ == self@,
    {
        proof {
            use_type_invariant(self);
        }
        SpecName(self.0.clone())
    }
}

impl SpecName {
    #[verifier::type_invariant]
    spec fn valid(self) -> bool {
        name_error(self.0@) is None
    }

    /// Accepts `name` if it breaks no rule, and otherwise reports the first rule broken.
    pub fn new(name: String) -> (r: Result<Self, ValidationError>)
        ensures
            match name_error(name@) {
                Some(e) => r == Err::<Self, ValidationError>(e),
                None => r matches Ok(n) && n@ == name@,
            },
    {
        let chars = name.as_str().unicode_len();
        if chars == 0 {
            return Err(ValidationError::EmptyName);
        }
        if chars > MAX_NAME_CHARS {
            return Err(ValidationError::NameTooLong);
        }
        if !all_name_chars(name.as_str()) {
            return Err(ValidationError::InvalidCharacters);
        }
        Ok(SpecName(name))
    }

    /// The name as text. A name that exists breaks no rule.
    pub fn as_str(&self) -> (s: &str)
        ensures
            s@ == self@,
            name_error(self@) is None,
    {
        proof {
            use_type_invariant(self);
        }
        self.0.as_str()
    }

    /// An owned copy of the name's text.
    pub fn to_string(&self) -> (s: String)
        ensures
            s@ == self@,
    {
        self.0.clone()
    }
}

/// The YAML document of a specification: non-empty, at most 2048 bytes, and well-formed.
#[derive(Debug, PartialEq, Eq)]
pub struct SpecContent(String);

impl View for SpecContent {
    type V = Seq<char>;

    closed spec fn view(&self) -> Seq<char> {
        self.0@
    }
}

impl Clone for SpecContent {
    fn clone(&self) -> (copy: Self)
        ensures
            copy@ == self@,
    {
        proof {
            use_type_invariant(self);
        }
        SpecContent(self.0.clone())
    }
}

impl SpecContent {
    #[verifier::type_invariant]
    spec fn valid(self) -> bool {
        content_error(self.0@) is None
    }

    /// The first rule that `content` breaks, if any. The parser is asked only about
    /// documents that pass the other two rules.
    pub fn validate(content: &str) -> (verdict: Option<ValidationError>)
        ensures
            verdict == content_error(content@),
    {
        let well_formed = !content.is_empty() && content.as_bytes().len() <= MAX_CONTENT_BYTES
            && parses_as_yaml(content);
        check_content(content, well_formed)
    }

    /// Accepts `content` if it breaks no rule, and otherwise reports the first rule broken.
    pub fn new(content: String) -> (r: Result<Self, ValidationError>)
        ensures
            match content_error(content@) {
                Some(e) => r == Err::<Self, ValidationError>(e),
                None => r matches Ok(c) && c@ == content@,
            },
    {
        match Self::validate(content.as_str()) {
            Some(e) => Err(e),
            None => Ok(SpecContent(content)),
        }
    }

    /// The document as text. A document that exists breaks no rule.
    pub fn as_str(&self) -> (s: &str)
        ensures
            s@ == self@,
            content_error(self@) is None,
    {
        proof {
            use_type_invariant(self);
        }
        self.0.as_str()
    }
}

/// The number of a content-bearing revision; the first one is 1.
#[derive(Debug, Clone, Copy, PartialEq, Eq, Structural)]
pub struct Version(u32);

impl View for Version {
    type V = u32;

    closed spec fn view(&self) -> u32 {
        self.0
    }
}

impl Version {
    pub fn new(version: u32) -> (v: Self)
        ensures
            v@ == version,
    {
        Version(version)
    }

    pub fn initial() -> (v: Self)
        ensures
            v@ == 1,
    {
        Version(1)
    }

    /// The next revision. The last representable revision has no successor.
    pub fn increment(&self) -> (v: Self)
        requires
            self@ < u32::MAX,
        ensures
            v@ == self@ + 1,
    {
        Version(self.0 + 1)
    }

    pub fn as_u32(&self) -> (n: u32)
        ensures
            n == self@,
    {
        self.0
    }
}

} // verus!
