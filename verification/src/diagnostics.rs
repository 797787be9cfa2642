//! The findings that generation reports. Each is handed to the caller as a
//! value; the caller attaches it to the source location it concerns.

use vstd::prelude::*;
use vstd::string::StringExecFns;

verus! {

/// One finding about the annotated item or about the annotation's options.
/// None of them stops generation.
#[derive(Clone, Copy, Debug, PartialEq, Eq, Structural)]
pub enum Diagnostic {
    /// `Clone` was asked for without `poly`. Concerns the whole item.
    DuplicationWithoutPoly,
    /// Options were given, and `poly` is not among them. Concerns the whole item.
    UnacceptedOption,
    /// The annotated item is not a function. Concerns the whole item.
    NotAFunction,
    /// The function takes a receiver. Concerns the receiver.
    Receiver,
    /// The function's generics carry a where-clause. Concerns the clause.
    WhereClause,
    /// The input at position `input` is a reference without a stated lifetime.
    ElidedLifetime { input: usize },
}

impl Diagnostic {
    /// The wording of this finding.
    pub open spec fn message_text(self) -> Seq<char> {
        match self {
            Diagnostic::DuplicationWithoutPoly => "cannot implement duplication without polymorphic mode"@,
            Diagnostic::UnacceptedOption => "only the polymorphic option is accepted"@,
            Diagnostic::NotAFunction => "Only functions can be partially applied, for structs use the builder pattern"@,
            Diagnostic::Receiver => "cannot make methods partially applicable"@,
            Diagnostic::WhereClause => "part_app does not allow where clauses"@,
            Diagnostic::ElidedLifetime { .. } => "part_app does not support lifetime elision"@,
        }
    }

    /// The wording of this finding, for the reporting channel.
    pub fn message(&self) -> (text: String)
        ensures
            text@ == self.message_text(),
    {
        match self {
            Diagnostic::DuplicationWithoutPoly => String::from_str(
                "cannot implement duplication without polymorphic mode",
            ),
            Diagnostic::UnacceptedOption => String::from_str(
                "only the polymorphic option is accepted",
            ),
            Diagnostic::NotAFunction => String::from_str(
                "Only functions can be partially applied, for structs use the builder pattern",
            ),
            Diagnostic::Receiver => String::from_str("cannot make methods partially applicable"),
            Diagnostic::WhereClause => String::from_str("part_app does not allow where clauses"),
            Diagnostic::ElidedLifetime { .. } => String::from_str(
                "part_app does not support lifetime elision",
            ),
        }
    }
}

/// The sequence that holds `item` if `present`, and nothing otherwise.
pub open spec fn reported(present: bool, item: Diagnostic) -> Seq<Diagnostic> {
    if present {
        seq![item]
    } else {
        Seq::empty()
    }
}

/// Pushes `item` onto the sink if `present`.
pub fn report(diagnostics: &mut Vec<Diagnostic>, present: bool, item: Diagnostic)
    ensures
        final(diagnostics)@ == old(diagnostics)@ + reported(present, item),
{
    if present {
        diagnostics.push(item);
        proof {
            assert(diagnostics@ =~= old(diagnostics)@ + reported(present, item));
        }
    } else {
        proof {
            assert(diagnostics@ =~= old(diagnostics)@ + reported(present, item));
        }
    }
}

} // verus!
