use vstd::prelude::*;

use crate::error::AppError;

verus! {

/// The project configuration: the one key `name`. It round-trips through
/// a one-line TOML document, `name = '<name>'`.
#[derive(Debug)]
pub struct Config {
    pub name: String,
}

impl Config {
    pub fn new(name: String) -> (r: Config)
        ensures
            r.name@ == name@,
    {
        Config { name }
    }
}

impl Clone for Config {
    fn clone(&self) -> (r: Config)
        ensures
            r == *self,
    {
        Config { name: self.name.clone() }
    }
}

impl PartialEq for Config {
    fn eq(&self, other: &Config) -> (r: bool) {
        self.name == other.name
    }
}

impl Eq for Config {
}

impl vstd::std_specs::cmp::PartialEqSpecImpl for Config {
    open spec fn obeys_eq_spec() -> bool {
        true
    }

    open spec fn eq_spec(&self, other: &Config) -> bool {
        self.name@ == other.name@
    }
}

// ---------------------------------------------------------------------------
// The document format.
// ---------------------------------------------------------------------------
/// What precedes the name in the serialized document: `name = '`.
pub open spec fn config_prefix() -> Seq<char> {
    seq!['n', 'a', 'm', 'e', ' ', '=', ' ', '\'']
}

/// What follows the name: the closing quote and a final newline.
pub open spec fn config_suffix() -> Seq<char> {
    seq!['\'', '\n']
}

/// The serialized form of a configuration named `name`.
pub open spec fn config_doc(name: Seq<char>) -> Seq<char> {
    config_prefix() + name + config_suffix()
}

/// A character that a TOML literal (single-quoted) string can carry:
/// tab, the printable ASCII range without the quote itself, and
/// anything beyond ASCII.
pub open spec fn literal_char(c: char) -> bool {
    c == '\t' || (32 <= c as int && c as int <= 126 && c != '\'') || c as int >= 128
}

/// A name the literal-quoted document carries losslessly.
pub open spec fn literal_safe(name: Seq<char>) -> bool {
    forall|i: int| 0 <= i < name.len() ==> literal_char(#[trigger] name[i])
}

/// What the TOML reader makes of a text: the string under its `name`
/// key, where the text is a TOML document carrying one, and nothing
/// otherwise. A function of the text alone.
pub uninterp spec fn toml_config_name(s: Seq<char>) -> Option<Seq<char>>;

/// The reading of `s` is `r`, and it honors the canonical form: were
/// `s` the canonical document of a literal-safe name, `r` carries
/// exactly that name.
pub open spec fn reads_canonical_doc(s: Seq<char>, r: Option<String>) -> bool {
    forall|n: Seq<char>|
        s == #[trigger] config_doc(n) && literal_safe(n) ==> (r matches Some(v) && v@ == n)
}

/// Relies on toml::from_str, toml::Value::get and toml::Value::as_str:
/// what they make of a text is a function of the text alone; and the
/// canonical document of a literal-safe name — a one-key TOML document
/// whose value is a literal string — deserializes to exactly that name.
#[verifier::external_body]
fn parse_toml_name(s: &str) -> (r: Option<String>)
    ensures
        r matches Some(v) ==> toml_config_name(s@) == Some(v@),
        r is None ==> toml_config_name(s@) is None,
        reads_canonical_doc(s@, r),
{
    match toml::from_str::<toml::Value>(s) {
        Ok(v) => v.get("name").and_then(|x| x.as_str()).map(String::from),
        Err(_) => None,
    }
}

impl Config {
    /// Serializes the configuration to its one-line TOML document, the
    /// name as a literal (single-quoted) string. A name outside the
    /// literal-safe set (a quote, a control character) cannot be
    /// carried by this quoting style: the document written for it does
    /// not parse back.
    pub fn to_toml_string(&self) -> (r: String)
        ensures
            r@ == config_doc(self.name@),
    {
        let mut s = String::from_str("name = '");
        proof {
            reveal_strlit("name = '");
            assert(s@ =~= config_prefix());
        }
        s.append(self.name.as_str());
        s.append("'\n");
        proof {
            reveal_strlit("'\n");
            assert(s@ =~= config_doc(self.name@));
        }
        s
    }

    /// Parses a configuration document with the TOML reader: any TOML
    /// text whose `name` key holds a string is accepted (quoting style,
    /// whitespace, comments and extra keys are the reader's business);
    /// everything else is invalid data.
    ///
    /// LAW (round trip): the last clause is the write-then-read law —
    /// on the exact document that `to_toml_string` writes for a
    /// literal-safe name, parsing yields that name back.
    pub fn from_toml_str(s: &str) -> (r: Result<Config, AppError>)
        ensures
            r matches Ok(c) ==> toml_config_name(s@) == Some(c.name@),
            r matches Err(e) ==> toml_config_name(s@) is None && e == AppError::InvalidData,
            forall|n: Seq<char>|
                s@ == #[trigger] config_doc(n) && literal_safe(n) ==> (r matches Ok(c) && c.name@
                    == n),
    {
        match parse_toml_name(s) {
            Some(name) => Ok(Config::new(name)),
            None => Err(AppError::InvalidData),
        }
    }
}

} // verus!
