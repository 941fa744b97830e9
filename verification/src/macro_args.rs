//! The arguments of the snapshot macros: a name for the snapshot, a comma, then one
//! or more JavaScript file names as string literals, separated by commas.
use vstd::prelude::*;

verus! {

/// One token of a macro's input, as the argument grammar sees it.
pub enum MacroToken {
    /// An identifier that is not a keyword.
    Ident(String),
    /// A `,`.
    Comma,
    /// A string literal, by its value.
    Str(String),
    /// Anything else.
    Other,
}

/// A macro token, taken by the characters of its text.
pub enum TokenView {
    Ident(Seq<char>),
    Comma,
    Str(Seq<char>),
    Other,
}

impl View for MacroToken {
    type V = TokenView;

    open spec fn view(&self) -> TokenView {
        match self {
            MacroToken::Ident(s) => TokenView::Ident(s@),
            MacroToken::Comma => TokenView::Comma,
            MacroToken::Str(s) => TokenView::Str(s@),
            MacroToken::Other => TokenView::Other,
        }
    }
}

/// The parsed arguments: the snapshot's name and the files to run, in order.
pub struct SnapshotArgs {
    pub ident: String,
    pub filenames: Vec<String>,
}

/// Whether token `t` may stand at position `i`: the name first, then a comma, then
/// string literals and commas in turn.
pub open spec fn token_fits(i: int, t: TokenView) -> bool {
    if i == 0 {
        t is Ident
    } else if i % 2 == 1 {
        t is Comma
    } else {
        t is Str
    }
}

/// Whether the input may end after `n` tokens: right after a file name.
pub open spec fn may_end_at(n: int) -> bool {
    n >= 3 && n % 2 == 1
}

/// The input is well formed.
pub open spec fn well_formed_args(t: Seq<TokenView>) -> bool {
    (forall|i: int| 0 <= i < t.len() ==> token_fits(i, #[trigger] t[i])) && may_end_at(t.len() as int)
}

/// Where parsing stops on an ill-formed input: the first token out of place, or the
/// end of the input when it ends too early.
pub open spec fn error_position(t: Seq<TokenView>, p: int) -> bool {
    0 <= p <= t.len() && (forall|i: int| 0 <= i < p ==> token_fits(i, #[trigger] t[i])) && if p
        < t.len() {
        !token_fits(p, t[p])
    } else {
        !may_end_at(p)
    }
}

/// The text of an identifier or string token.
pub open spec fn token_text(t: TokenView) -> Seq<char> {
    match t {
        TokenView::Ident(s) => s,
        TokenView::Str(s) => s,
        _ => seq![],
    }
}

/// Parses a snapshot macro's arguments, or gives the position where they go wrong.
pub fn parse_snapshot_args(tokens: &Vec<MacroToken>) -> (r: Result<SnapshotArgs, usize>)
    ensures
        match r {
            Ok(args) => {
                let t = tokens@.map_values(|m: MacroToken| m@);
                &&& well_formed_args(t)
                &&& args.ident@ == token_text(t[0])
                &&& args.filenames@.len() == (t.len() - 1) / 2
                &&& forall|k: int| 0 <= k < args.filenames@.len() ==> #[trigger] args.filenames@[k]@
                    == token_text(t[2 * k + 2])
            },
            Err(p) => error_position(tokens@.map_values(|m: MacroToken| m@), p as int),
        },
{
    let ghost t = tokens@.map_values(|m: MacroToken| m@);
    let n = tokens.len();
    if n == 0 {
        return Err(0);
    }
    let ident = match &tokens[0] {
        MacroToken::Ident(s) => s.clone(),
        _ => {
            return Err(0);
        },
    };
    assert(t[0] == tokens@[0]@);
    let mut filenames: Vec<String> = Vec::new();
    let mut i: usize = 1;
    while i < n
        invariant
            n == tokens@.len(),
            t == tokens@.map_values(|m: MacroToken| m@),
            1 <= i <= n,
            i % 2 == 1,
            ident@ == token_text(t[0]),
            forall|j: int| 0 <= j < i ==> token_fits(j, #[trigger] t[j]),
            filenames@.len() == (i - 1) / 2,
            forall|k: int| 0 <= k < filenames@.len() ==> #[trigger] filenames@[k]@ == token_text(t[2 * k + 2]),
        decreases n - i,
    {
        assert(t[i as int] == tokens@[i as int]@);
        match &tokens[i] {
            MacroToken::Comma => {},
            _ => {
                return Err(i);
            },
        }
        if i + 1 >= n {
            return Err(i + 1);
        }
        assert(t[i + 1] == tokens@[i + 1]@);
        match &tokens[i + 1] {
            MacroToken::Str(s) => {
                filenames.push(s.clone());
            },
            _ => {
                return Err(i + 1);
            },
        }
        i = i + 2;
    }
    if i < 3 {
        return Err(i);
    }
    Ok(SnapshotArgs { ident, filenames })
}

/// A name followed by any number `k >= 1` of comma and string literal pairs is well
/// formed, whatever `k`, and parsing stops nowhere in it: it parses to the `k` file
/// names.
pub proof fn lemma_name_then_files_parse(t: Seq<TokenView>)
    requires
        t.len() >= 3,
        t.len() % 2 == 1,
        t[0] is Ident,
        forall|i: int| 1 <= i < t.len() && i % 2 == 1 ==> #[trigger] t[i] is Comma,
        forall|i: int| 2 <= i < t.len() && i % 2 == 0 ==> #[trigger] t[i] is Str,
    ensures
        well_formed_args(t),
        forall|p: int| !error_position(t, p),
        (t.len() - 1) / 2 >= 1,
{
    assert forall|i: int| 0 <= i < t.len() implies token_fits(i, #[trigger] t[i]) by {
        if i == 0 {
        } else if i % 2 == 1 {
        } else {
        }
    }
    assert forall|p: int| !error_position(t, p) by {
        if error_position(t, p) {
            lemma_error_means_ill_formed(t, p);
        }
    }
}

/// Only that shape is well formed: a well-formed input is a name, then one or more
/// comma and string literal pairs, and nothing else.
pub proof fn lemma_well_formed_is_name_then_files(t: Seq<TokenView>)
    requires
        well_formed_args(t),
    ensures
        t.len() >= 3,
        t.len() % 2 == 1,
        t[0] is Ident,
        forall|i: int| 1 <= i < t.len() && i % 2 == 1 ==> #[trigger] t[i] is Comma,
        forall|i: int| 2 <= i < t.len() && i % 2 == 0 ==> #[trigger] t[i] is Str,
{
    assert(token_fits(0, t[0]));
    assert forall|i: int| 1 <= i < t.len() && i % 2 == 1 implies #[trigger] t[i] is Comma by {
        assert(token_fits(i, t[i]));
    }
    assert forall|i: int| 2 <= i < t.len() && i % 2 == 0 implies #[trigger] t[i] is Str by {
        assert(token_fits(i, t[i]));
    }
}

/// Parsing fails exactly on ill-formed input: a position where parsing stops is
/// never found in a well-formed input.
pub proof fn lemma_error_means_ill_formed(t: Seq<TokenView>, p: int)
    requires
        error_position(t, p),
    ensures
        !well_formed_args(t),
{
    if p < t.len() {
        assert(!token_fits(p, t[p]));
    }
}

} // verus!
