//! What holds of the extensions, their names and their order.

use crate::error::ValidFileExtensionsError;
use crate::extension::ValidFileExtensions;
use vstd::prelude::*;

verus! {

/// The characters of each canonical name.
proof fn lemma_name_spelling()
    ensures
        "msix"@ =~= seq!['m', 's', 'i', 'x'],
        "msi"@ =~= seq!['m', 's', 'i'],
        "appx"@ =~= seq!['a', 'p', 'p', 'x'],
        "exe"@ =~= seq!['e', 'x', 'e'],
        "zip"@ =~= seq!['z', 'i', 'p'],
        "msixbundle"@ =~= seq!['m', 's', 'i', 'x', 'b', 'u', 'n', 'd', 'l', 'e'],
        "appxbundle"@ =~= seq!['a', 'p', 'p', 'x', 'b', 'u', 'n', 'd', 'l', 'e'],
        "otf"@ =~= seq!['o', 't', 'f'],
        "ttf"@ =~= seq!['t', 't', 'f'],
        "fnt"@ =~= seq!['f', 'n', 't'],
        "ttc"@ =~= seq!['t', 't', 'c'],
        "otc"@ =~= seq!['o', 't', 'c'],
{
    reveal_strlit("msix");
    reveal_strlit("msi");
    reveal_strlit("appx");
    reveal_strlit("exe");
    reveal_strlit("zip");
    reveal_strlit("msixbundle");
    reveal_strlit("appxbundle");
    reveal_strlit("otf");
    reveal_strlit("ttf");
    reveal_strlit("fnt");
    reveal_strlit("ttc");
    reveal_strlit("otc");
}

/// Every canonical name is made of three to ten lowercase ASCII letters.
pub proof fn lemma_name_is_lowercase(v: ValidFileExtensions)
    ensures
        3 <= v.name().len() <= 10,
        forall|i: int| 0 <= i < v.name().len() ==> 'a' <= #[trigger] v.name()[i] <= 'z',
{
    lemma_name_spelling();
}

/// No two extensions share a canonical name.
pub proof fn lemma_name_injective(a: ValidFileExtensions, b: ValidFileExtensions)
    requires
        a.name() == b.name(),
    ensures
        a == b,
{
    lemma_name_spelling();
    if a != b {
        let x = a.name();
        let y = b.name();
        assert(x.len() != y.len() || x[0] != y[0] || x[1] != y[1] || x[2] != y[2]);
    }
}

/// Parsing the canonical name of an extension gives that extension back.
pub proof fn lemma_parse_name(v: ValidFileExtensions)
    ensures
        ValidFileExtensions::parse(v.name()) == Some(v),
{
    let w = choose|w: ValidFileExtensions| w.name() == v.name();
    lemma_name_injective(w, v);
}

/// Parsing is the inverse of naming: a text parses to an extension exactly
/// when it is that extension's canonical name, and to nothing exactly when
/// it is the canonical name of no extension.
pub proof fn lemma_parse_inverts_name(text: Seq<char>, v: ValidFileExtensions)
    ensures
        ValidFileExtensions::parse(text) == Some(v) <==> v.name() == text,
        ValidFileExtensions::parse(text) is None <==> !ValidFileExtensions::names().contains(
            text,
        ),
{
    if v.name() == text {
        lemma_parse_name(v);
    }
}

/// The list of names holds the canonical name of each extension at the
/// extension's position, holds nothing else, and holds nothing twice.
pub proof fn lemma_names_are_listed()
    ensures
        ValidFileExtensions::ALL@.len() == 12,
        forall|v: ValidFileExtensions|
            ValidFileExtensions::listed_names()[v.ordinal()] == #[trigger] v.name(),
        ValidFileExtensions::listed_names().no_duplicates(),
        ValidFileExtensions::listed_names().to_set() == ValidFileExtensions::names(),
{
    let listed = ValidFileExtensions::listed_names();
    let all = ValidFileExtensions::variants();
    assert forall|i: int| 0 <= i < 12 implies listed[i] == (#[trigger] all[i]).name() by {}
    assert forall|i: int, j: int|
        0 <= i < listed.len() && 0 <= j < listed.len() && i != j implies listed[i]
        != listed[j] by {
        if listed[i] == listed[j] {
            lemma_name_injective(all[i], all[j]);
        }
    }
    assert forall|text: Seq<char>|
        listed.to_set().contains(text) == ValidFileExtensions::names().contains(text) by {
        if listed.to_set().contains(text) {
            let i = choose|i: int| 0 <= i < listed.len() && listed[i] == text;
            assert(all[i].name() == text);
        }
        if ValidFileExtensions::names().contains(text) {
            let v = choose|v: ValidFileExtensions| v.name() == text;
            assert(listed[v.ordinal()] == text);
        }
    }
    assert(listed.to_set() =~= ValidFileExtensions::names());
}

/// Parsing has one outcome: two results of parsing the same text name the
/// same extension, or both reject the text and carry the same characters.
pub proof fn lemma_parse_outcome_unique(
    text: Seq<char>,
    first: Result<ValidFileExtensions, ValidFileExtensionsError>,
    second: Result<ValidFileExtensions, ValidFileExtensionsError>,
)
    requires
        ValidFileExtensions::parses_to(text, first),
        ValidFileExtensions::parses_to(text, second),
    ensures
        first is Ok <==> second is Ok,
        first is Ok ==> first->Ok_0 == second->Ok_0,
        first is Err ==> first->Err_0.extension@ == second->Err_0.extension@,
{
}

/// Rendering has one outcome: the borrowed and the owned rendering of equal
/// extensions hold the same characters.
pub proof fn lemma_renderings_agree(
    a: ValidFileExtensions,
    b: ValidFileExtensions,
    borrowed: &str,
    owned: String,
)
    requires
        a == b,
        borrowed@ == a.name(),
        owned@ == b.name(),
    ensures
        borrowed@ == owned@,
{
}

} // verus!
