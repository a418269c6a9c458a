//! The rule that decides whether a function declaration is a subclient
//! constructor: a public function whose body is a single statement and whose
//! return type is a path ending in a client type.
use vstd::prelude::*;

verus! {

/// The return type of a function declaration, as far as the rule reads it.
#[derive(Debug, Clone)]
pub enum ReturnTypeShape {
    /// No return type is written.
    Unit,
    /// A type path; `last_segment` is the identifier of its last segment.
    Path { last_segment: String },
    /// Any other type.
    Other,
}

/// A function declaration, as far as the rule reads it.
#[derive(Debug, Clone)]
pub struct FunctionShape {
    /// The function is declared `pub`.
    pub is_public: bool,
    /// The number of statements in the function's body.
    pub statement_count: usize,
    /// The function's return type.
    pub return_type: ReturnTypeShape,
}

/// `s` ends with `suffix`.
pub open spec fn ends_with_text(s: Seq<char>, suffix: Seq<char>) -> bool {
    suffix.len() <= s.len() && s.subrange(s.len() - suffix.len(), s.len() as int) == suffix
}

/// The declaration `shape` is a subclient constructor: public, with a single
/// statement, returning a type path whose last segment ends with `Client`.
pub open spec fn is_subclient(shape: FunctionShape) -> bool {
    &&& shape.is_public
    &&& shape.statement_count == 1
    &&& shape.return_type matches ReturnTypeShape::Path { last_segment } && ends_with_text(
        last_segment@,
        "Client"@,
    )
}

/// The rule, spelled out: a declaration is a subclient constructor exactly when
/// it is public, has one statement, and returns a type path whose last segment
/// ends with the six characters `C`, `l`, `i`, `e`, `n`, `t`. A last segment
/// such as `Deployment`, `Agent` or `Clients` is no client type.
pub proof fn lemma_subclient_rule(shape: FunctionShape)
    ensures
        is_subclient(shape) <==> {
            &&& shape.is_public
            &&& shape.statement_count == 1
            &&& shape.return_type is Path
            &&& shape.return_type->last_segment@.len() >= 6
            &&& shape.return_type->last_segment@.subrange(
                shape.return_type->last_segment@.len() - 6,
                shape.return_type->last_segment@.len() as int,
            ) == seq!['C', 'l', 'i', 'e', 'n', 't']
        },
{
    reveal_strlit("Client");
    assert("Client"@ =~= seq!['C', 'l', 'i', 'e', 'n', 't']);
}

/// Whether the text `s` ends with `suffix`.
pub fn text_ends_with(s: &str, suffix: &str) -> (r: bool)
    ensures
        r == ends_with_text(s@, suffix@),
{
    let n = s.unicode_len();
    let m = suffix.unicode_len();
    if m > n {
        return false;
    }
    let start = n - m;
    let mut i: usize = 0;
    while i < m
        invariant
            n == s@.len(),
            m == suffix@.len(),
            m <= n,
            start == n - m,
            i <= m,
            forall|j: int| 0 <= j < i ==> s@[start + j] == suffix@[j],
        decreases m - i,
    {
        if s.get_char(start + i) != suffix.get_char(i) {
            proof {
                assert(s@.subrange(start as int, n as int)[i as int] != suffix@[i as int]);
            }
            return false;
        }
        i += 1;
    }
    proof {
        assert(s@.subrange(start as int, n as int) =~= suffix@);
    }
    true
}

/// Whether a function declaration is a subclient constructor. `None` stands for
/// an item that does not parse as a function: it is not one.
pub fn is_subclient_declaration(declaration: &Option<FunctionShape>) -> (r: bool)
    ensures
        r == (match declaration {
            Some(shape) => is_subclient(*shape),
            None => false,
        }),
{
    let shape = match declaration {
        Some(shape) => shape,
        None => {
            return false;
        },
    };
    if !shape.is_public {
        return false;
    }
    if shape.statement_count != 1 {
        return false;
    }
    match &shape.return_type {
        ReturnTypeShape::Path { last_segment } => text_ends_with(last_segment.as_str(), "Client"),
        _ => false,
    }
}

} // verus!
