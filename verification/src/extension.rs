//! The extension type, its canonical names and the conversions between them.

use crate::error::ValidFileExtensionsError;
use crate::lemmas::lemma_parse_name;
use crate::text::str_eq;
use core::str::FromStr;
use vstd::prelude::*;

verus! {

/// A file extension that the tool recognises.
///
/// The set is closed: every value is one of the twelve variants below, which
/// are listed in their canonical order.
#[derive(Clone, Copy, Debug, PartialEq, Eq, Structural, Hash, Ord)]
pub enum ValidFileExtensions {
    Msix,
    Msi,
    Appx,
    Exe,
    Zip,
    MsixBundle,
    AppxBundle,
    Otf,
    Ttf,
    Fnt,
    Ttc,
    Otc,
}

impl ValidFileExtensions {
    /// The canonical names of all extensions, in canonical order.
    pub const ALL: [&'static str; 12] = [
        "msix",
        "msi",
        "appx",
        "exe",
        "zip",
        "msixbundle",
        "appxbundle",
        "otf",
        "ttf",
        "fnt",
        "ttc",
        "otc",
    ];

    /// The canonical lowercase name of the extension.
    pub open spec fn name(self) -> Seq<char> {
        match self {
            Self::Msix => "msix"@,
            Self::Msi => "msi"@,
            Self::Appx => "appx"@,
            Self::Exe => "exe"@,
            Self::Zip => "zip"@,
            Self::MsixBundle => "msixbundle"@,
            Self::AppxBundle => "appxbundle"@,
            Self::Otf => "otf"@,
            Self::Ttf => "ttf"@,
            Self::Fnt => "fnt"@,
            Self::Ttc => "ttc"@,
            Self::Otc => "otc"@,
        }
    }

    /// The extension whose canonical name is exactly `text`, if there is one.
    ///
    /// Nothing is trimmed or folded: a leading dot, surrounding blanks or an
    /// upper-case letter make the text name no extension.
    pub open spec fn parse(text: Seq<char>) -> Option<Self> {
        if exists|v: Self| v.name() == text {
            Some(choose|v: Self| v.name() == text)
        } else {
            None
        }
    }

    /// The canonical names of all extensions, as a set.
    pub open spec fn names() -> Set<Seq<char>> {
        Set::new(|text: Seq<char>| exists|v: Self| v.name() == text)
    }

    /// The entries of [`Self::ALL`], in order, as character sequences.
    pub open spec fn listed_names() -> Seq<Seq<char>> {
        Seq::new(12, |i: int| Self::ALL@[i]@)
    }

    /// Whether `result` is the outcome of parsing `text`: the extension that
    /// `text` names, or else an error that carries `text` unchanged.
    pub open spec fn parses_to(
        text: Seq<char>,
        result: Result<Self, ValidFileExtensionsError>,
    ) -> bool {
        match result {
            Ok(v) => Self::parse(text) == Some(v),
            Err(e) => Self::parse(text) is None && e.extension@ == text,
        }
    }

    /// Returns the canonical name of the extension, without allocating.
    #[must_use]
    pub fn as_str(&self) -> (s: &'static str)
        ensures
            s@ == self.name(),
    {
        match self {
            Self::Msix => "msix",
            Self::Msi => "msi",
            Self::Appx => "appx",
            Self::Exe => "exe",
            Self::Zip => "zip",
            Self::MsixBundle => "msixbundle",
            Self::AppxBundle => "appxbundle",
            Self::Otf => "otf",
            Self::Ttf => "ttf",
            Self::Fnt => "fnt",
            Self::Ttc => "ttc",
            Self::Otc => "otc",
        }
    }

    /// Renders the extension for display: an owned copy of its canonical
    /// name, the same text that [`Self::as_str`] returns.
    #[must_use]
    pub fn to_string(&self) -> (text: String)
        ensures
            text@ == self.name(),
    {
        self.as_str().to_owned()
    }
}

impl AsRef<str> for ValidFileExtensions {
    #[inline]
    fn as_ref(&self) -> (s: &str)
        ensures
            s@ == self.name(),
    {
        self.as_str()
    }
}

impl FromStr for ValidFileExtensions {
    type Err = ValidFileExtensionsError;

    /// Parses the canonical name of an extension.
    ///
    /// Succeeds exactly on the twelve canonical names, compared byte for
    /// byte. Any other text is handed back inside the error.
    fn from_str(s: &str) -> (result: Result<Self, ValidFileExtensionsError>)
        ensures
            Self::parses_to(s@, result),
    {
        let result = if str_eq(s, "msix") {
            Ok(Self::Msix)
        } else if str_eq(s, "msi") {
            Ok(Self::Msi)
        } else if str_eq(s, "appx") {
            Ok(Self::Appx)
        } else if str_eq(s, "exe") {
            Ok(Self::Exe)
        } else if str_eq(s, "zip") {
            Ok(Self::Zip)
        } else if str_eq(s, "msixbundle") {
            Ok(Self::MsixBundle)
        } else if str_eq(s, "appxbundle") {
            Ok(Self::AppxBundle)
        } else if str_eq(s, "otf") {
            Ok(Self::Otf)
        } else if str_eq(s, "ttf") {
            Ok(Self::Ttf)
        } else if str_eq(s, "fnt") {
            Ok(Self::Fnt)
        } else if str_eq(s, "ttc") {
            Ok(Self::Ttc)
        } else if str_eq(s, "otc") {
            Ok(Self::Otc)
        } else {
            Err(ValidFileExtensionsError { extension: s.to_owned() })
        };
        proof {
            match result {
                Ok(v) => {
                    lemma_parse_name(v);
                },
                Err(_) => {
                    assert forall|v: Self| v.name() != s@ by {}
                },
            }
        }
        result
    }
}

} // verus!
