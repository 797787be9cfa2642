//! Resolution of the annotation's option tokens into a generation mode.

use crate::diagnostics::{report, reported, Diagnostic};
use crate::text::texts;
use vstd::prelude::*;
use vstd::string::StringExecFns;

verus! {

/// How producers are held by the generated carrier.
#[derive(Clone, Copy, Debug, PartialEq, Eq, Structural)]
pub struct Mode {
    /// Producers are type-erased and shared rather than statically typed.
    pub polymorphic: bool,
    /// A partially filled carrier may be duplicated. Only with `polymorphic`.
    pub cloneable: bool,
}

/// The mode that a token list asks for: polymorphic if `poly` is among the
/// tokens, cloneable if `Clone` is there as well.
pub open spec fn resolved_mode(tokens: Seq<Seq<char>>) -> Mode {
    Mode {
        polymorphic: tokens.contains("poly"@),
        cloneable: tokens.contains("poly"@) && tokens.contains("Clone"@),
    }
}

/// The findings about a token list: `Clone` without `poly`, then any token
/// at all without `poly`.
pub open spec fn option_diagnostics(tokens: Seq<Seq<char>>) -> Seq<Diagnostic> {
    reported(
        !tokens.contains("poly"@) && tokens.contains("Clone"@),
        Diagnostic::DuplicationWithoutPoly,
    ) + reported(tokens.len() > 0 && !tokens.contains("poly"@), Diagnostic::UnacceptedOption)
}

/// Whether `word` is one of `tokens`.
pub fn has_token(tokens: &Vec<String>, word: &str) -> (found: bool)
    ensures
        found == texts(tokens@).contains(word@),
{
    let wanted = String::from_str(word);
    let mut i: usize = 0;
    while i < tokens.len()
        invariant
            i <= tokens.len(),
            wanted@ == word@,
            forall|j: int| 0 <= j < i ==> texts(tokens@)[j] != word@,
        decreases tokens.len() - i,
    {
        if tokens[i] == wanted {
            proof {
                assert(texts(tokens@)[i as int] == word@);
            }
            return true;
        }
        i += 1;
    }
    false
}

/// Resolves the option tokens of one annotation. Reports what it finds and
/// returns the mode in any case.
pub fn resolve_options(tokens: &Vec<String>, diagnostics: &mut Vec<Diagnostic>) -> (mode: Mode)
    ensures
        mode == resolved_mode(texts(tokens@)),
        final(diagnostics)@ == old(diagnostics)@ + option_diagnostics(texts(tokens@)),
{
    let polymorphic = has_token(tokens, "poly");
    let duplication = has_token(tokens, "Clone");
    report(diagnostics, !polymorphic && duplication, Diagnostic::DuplicationWithoutPoly);
    report(diagnostics, tokens.len() > 0 && !polymorphic, Diagnostic::UnacceptedOption);
    proof {
        assert(diagnostics@ =~= old(diagnostics)@ + option_diagnostics(texts(tokens@)));
    }
    Mode { polymorphic, cloneable: polymorphic && duplication }
}

} // verus!
