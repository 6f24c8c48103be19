//! Token trees as plain values, and a cursor over them for the parsers of
//! the macro front ends.
//!
//! A token is an identifier, a punctuation character (joined or not to the
//! next one, so that `::` and `->` can be told from `:` and `-`), a literal, or
//! a delimited group holding further tokens.
use vstd::prelude::*;
use std::collections::VecDeque;
use crate::text::chars_of;

verus! {

/// The delimiter of a token group.
#[derive(Debug, Clone, Copy, PartialEq, Eq, Structural)]
pub enum Delim {
    Paren,
    Brace,
    Bracket,
    Invisible,
}

/// A token tree.
#[derive(Debug)]
pub enum Tok {
    /// An identifier or keyword, as written.
    Ident(String),
    /// A punctuation character; `true` when it is joined to the next one.
    Punct(char, bool),
    /// A literal, as written.
    Literal(String),
    /// A delimited group and the tokens inside it.
    Group(Delim, Vec<Tok>),
}

/// Why the tokens of a macro invocation do not follow its grammar.
#[derive(Debug, Clone, Copy, PartialEq, Eq, Structural)]
pub enum ParseError {
    /// An identifier was expected.
    ExpectedIdent,
    /// An identifier was expected and a reserved word was found.
    ReservedWord,
    /// The given punctuation was expected.
    ExpectedPunct(char),
    /// `->` was expected.
    ExpectedArrow,
    /// A group with the given delimiter was expected.
    ExpectedGroup(Delim),
    /// A type was expected.
    ExpectedType,
    /// An expression was expected.
    ExpectedExpression,
    /// A collection kind other than `Map` or `Queue` was given.
    ExpectedMapOrQueue,
    /// A section other than `key`, `states` or `transitions` was given.
    ExpectedSection,
    /// A `Queue` collection has no `key` declaration.
    QueueRequiresKey,
    /// Tokens were left over where the input should have ended.
    UnexpectedToken,
    /// `enum` was expected after a visibility.
    ExpectedEnum,
    /// An item other than an enum, an impl block or `type Context` was given.
    ExpectedItem,
    /// A method other than a `fn` was given in an impl block.
    ExpectedFn,
    /// A type alias other than `Context` was given.
    ExpectedContext,
    /// No enum of states was given.
    MissingEnum,
    /// No state is marked `#[initial]`.
    NoInitialState,
    /// More than one state is marked `#[initial]`.
    SeveralInitialStates,
    /// A transition's source or target is not a state name.
    ExpectedStateName,
    /// A transition's source is neither a state name nor a tuple of them.
    ExpectedStateNameOrTuple,
    /// `Result` is given without type arguments.
    ResultNeedsTypeArguments,
    /// `Result` is given without an error type.
    ResultNeedsErrorType,
    /// A transition's first parameter is not `self`.
    ExpectedSelf,
    /// A lifecycle hook's parameter is not `&self` or `&mut self`.
    ExpectedSelfReference,
    /// An attribute was expected to have its arguments in parentheses.
    ExpectedAttributeArguments,
}

/// A token tree as text: what a token means, whoever holds it.
#[verifier::ext_equal]
pub enum TokModel {
    Ident(Seq<char>),
    Punct(char, bool),
    Literal(Seq<char>),
    Group(Delim, Seq<TokModel>),
}

/// The text of a token tree.
pub open spec fn tok_model(t: Tok) -> TokModel
    decreases t,
{
    match t {
        Tok::Ident(s) => TokModel::Ident(s@),
        Tok::Punct(c, joint) => TokModel::Punct(c, joint),
        Tok::Literal(s) => TokModel::Literal(s@),
        Tok::Group(d, v) => {
            proof { vstd::std_specs::vec::axiom_vec_decreases_to_view(v); }
            TokModel::Group(d, toks_model(v@))
        },
    }
}

/// The text of a sequence of token trees.
pub open spec fn toks_model(s: Seq<Tok>) -> Seq<TokModel>
    decreases s,
{
    if s.len() == 0 {
        Seq::empty()
    } else {
        seq![tok_model(s[0])] + toks_model(s.drop_first())
    }
}

pub proof fn lemma_toks_model_len(s: Seq<Tok>)
    ensures
        toks_model(s).len() == s.len(),
        forall|i: int| 0 <= i < s.len() ==> #[trigger] toks_model(s)[i] == tok_model(s[i]),
    decreases s.len(),
{
    if s.len() > 0 {
        lemma_toks_model_len(s.drop_first());
        assert forall|i: int| 0 <= i < s.len() implies #[trigger] toks_model(s)[i] == tok_model(s[i]) by {
            if i > 0 {
                assert(s.drop_first()[i - 1] == s[i]);
            }
        }
    }
}

pub proof fn lemma_toks_model_push(s: Seq<Tok>, t: Tok)
    ensures
        toks_model(s.push(t)) == toks_model(s).push(tok_model(t)),
    decreases s.len(),
{
    if s.len() == 0 {
        assert(s.push(t).drop_first() =~= Seq::<Tok>::empty());
        assert(s.push(t)[0] == t);
        assert(toks_model(Seq::<Tok>::empty()) =~= Seq::<TokModel>::empty());
        assert(toks_model(s.push(t)) =~= seq![tok_model(t)]);
    } else {
        assert(s.push(t).drop_first() =~= s.drop_first().push(t));
        lemma_toks_model_push(s.drop_first(), t);
        assert(toks_model(s.push(t)) =~= toks_model(s).push(tok_model(t)));
    }
}

/// The token is the punctuation `c`.
pub open spec fn is_punct(t: Tok, c: char) -> bool {
    t matches Tok::Punct(p, _) && p == c
}

/// The token is the punctuation `c`, joined to the next one.
pub open spec fn is_joint_punct(t: Tok, c: char) -> bool {
    t matches Tok::Punct(p, joint) && p == c && joint
}

/// The token is the identifier `w`.
pub open spec fn is_word(t: Tok, w: Seq<char>) -> bool {
    t matches Tok::Ident(s) && s@ == w
}

/// The token is a group with delimiter `d`.
pub open spec fn is_group(t: Tok, d: Delim) -> bool {
    t matches Tok::Group(g, _) && g == d
}

/// The tokens inside a group token.
pub open spec fn group_inner(t: Tok) -> Seq<Tok> {
    match t {
        Tok::Group(_, inner) => inner@,
        _ => Seq::empty(),
    }
}

/// The text of an identifier token.
pub open spec fn ident_text(t: Tok) -> String {
    match t {
        Tok::Ident(s) => s,
        _ => arbitrary(),
    }
}

/// Words that cannot stand as a name: Rust's keywords, reserved words and `_`.
pub open spec fn is_reserved(w: Seq<char>) -> bool {
    w == "_"@ || w == "abstract"@ || w == "as"@ || w == "async"@ || w == "await"@ || w == "become"@
        || w == "box"@ || w == "break"@ || w == "const"@ || w == "continue"@ || w == "crate"@
        || w == "do"@ || w == "dyn"@ || w == "else"@ || w == "enum"@ || w == "extern"@
        || w == "false"@ || w == "final"@ || w == "fn"@ || w == "for"@ || w == "if"@
        || w == "impl"@ || w == "in"@ || w == "let"@ || w == "loop"@ || w == "macro"@
        || w == "match"@ || w == "mod"@ || w == "move"@ || w == "mut"@ || w == "override"@
        || w == "priv"@ || w == "pub"@ || w == "ref"@ || w == "return"@ || w == "Self"@
        || w == "self"@ || w == "static"@ || w == "struct"@ || w == "super"@ || w == "trait"@
        || w == "true"@ || w == "try"@ || w == "type"@ || w == "typeof"@ || w == "unsafe"@
        || w == "unsized"@ || w == "use"@ || w == "virtual"@ || w == "where"@ || w == "while"@
        || w == "yield"@
}

/// What reading a name from the front of `s` gives: the name, or why there is none.
pub open spec fn name_result(s: Seq<Tok>) -> Result<String, ParseError> {
    if s.len() == 0 || !(s[0] is Ident) {
        Err(ParseError::ExpectedIdent)
    } else if is_reserved(ident_text(s[0])@) {
        Err(ParseError::ReservedWord)
    } else {
        Ok(ident_text(s[0]))
    }
}

/// `::` at the front of `s`.
pub open spec fn colon2_at(s: Seq<Tok>) -> bool {
    s.len() >= 2 && is_joint_punct(s[0], ':') && is_punct(s[1], ':')
}

/// `->` at the front of `s`.
pub open spec fn arrow_at(s: Seq<Tok>) -> bool {
    s.len() >= 2 && is_joint_punct(s[0], '-') && is_punct(s[1], '>')
}

/// Whether two strings hold the same characters.
pub fn text_eq(a: &str, b: &str) -> (same: bool)
    ensures
        same == (a@ == b@),
{
    let x = chars_of(a);
    let y = chars_of(b);
    if x.len() != y.len() {
        return false;
    }
    let mut i: usize = 0;
    while i < x.len()
        invariant
            x@ == a@,
            y@ == b@,
            x@.len() == y@.len(),
            i <= x@.len(),
            forall|k: int| 0 <= k < i ==> x@[k] == y@[k],
        decreases x.len() - i,
    {
        if x[i] != y[i] {
            return false;
        }
        i += 1;
    }
    assert(x@ =~= y@);
    true
}

/// Whether a word is reserved (see [`is_reserved`]).
pub fn reserved_word(w: &str) -> (r: bool)
    ensures
        r == is_reserved(w@),
{
    text_eq(w, "_") || text_eq(w, "abstract") || text_eq(w, "as") || text_eq(w, "async")
        || text_eq(w, "await") || text_eq(w, "become") || text_eq(w, "box") || text_eq(w, "break")
        || text_eq(w, "const") || text_eq(w, "continue") || text_eq(w, "crate") || text_eq(w, "do")
        || text_eq(w, "dyn") || text_eq(w, "else") || text_eq(w, "enum") || text_eq(w, "extern")
        || text_eq(w, "false") || text_eq(w, "final") || text_eq(w, "fn") || text_eq(w, "for")
        || text_eq(w, "if") || text_eq(w, "impl") || text_eq(w, "in") || text_eq(w, "let")
        || text_eq(w, "loop") || text_eq(w, "macro") || text_eq(w, "match") || text_eq(w, "mod")
        || text_eq(w, "move") || text_eq(w, "mut") || text_eq(w, "override") || text_eq(w, "priv")
        || text_eq(w, "pub") || text_eq(w, "ref") || text_eq(w, "return") || text_eq(w, "Self")
        || text_eq(w, "self") || text_eq(w, "static") || text_eq(w, "struct") || text_eq(w, "super")
        || text_eq(w, "trait") || text_eq(w, "true") || text_eq(w, "try") || text_eq(w, "type")
        || text_eq(w, "typeof") || text_eq(w, "unsafe") || text_eq(w, "unsized") || text_eq(w, "use")
        || text_eq(w, "virtual") || text_eq(w, "where") || text_eq(w, "while") || text_eq(w, "yield")
}

/// Whether the token at position `i` is the punctuation `c`.
pub fn punct_at(s: &VecDeque<Tok>, i: usize, c: char) -> (b: bool)
    ensures
        b == (i < s@.len() && is_punct(s@[i as int], c)),
{
    if i < s.len() {
        match &s[i] {
            Tok::Punct(p, _) => *p == c,
            _ => false,
        }
    } else {
        false
    }
}

/// Whether the token at position `i` is the punctuation `c`, joined to the next one.
pub fn joint_punct_at(s: &VecDeque<Tok>, i: usize, c: char) -> (b: bool)
    ensures
        b == (i < s@.len() && is_joint_punct(s@[i as int], c)),
{
    if i < s.len() {
        match &s[i] {
            Tok::Punct(p, joint) => *p == c && *joint,
            _ => false,
        }
    } else {
        false
    }
}

/// Whether the token at position `i` is the identifier `w`.
pub fn word_at(s: &VecDeque<Tok>, i: usize, w: &str) -> (b: bool)
    ensures
        b == (i < s@.len() && is_word(s@[i as int], w@)),
{
    if i < s.len() {
        match &s[i] {
            Tok::Ident(x) => text_eq(x.as_str(), w),
            _ => false,
        }
    } else {
        false
    }
}

/// Whether the token at position `i` is an identifier.
pub fn ident_at(s: &VecDeque<Tok>, i: usize) -> (b: bool)
    ensures
        b == (i < s@.len() && s@[i as int] is Ident),
{
    if i < s.len() {
        match &s[i] {
            Tok::Ident(_) => true,
            _ => false,
        }
    } else {
        false
    }
}

/// Whether the token at position `i` is a group with delimiter `d`.
pub fn group_at(s: &VecDeque<Tok>, i: usize, d: Delim) -> (b: bool)
    ensures
        b == (i < s@.len() && is_group(s@[i as int], d)),
{
    if i < s.len() {
        match &s[i] {
            Tok::Group(g, _) => *g == d,
            _ => false,
        }
    } else {
        false
    }
}

/// Whether `::` stands at position `i`.
pub fn colon2_at_pos(s: &VecDeque<Tok>, i: usize) -> (b: bool)
    requires
        i <= s@.len(),
    ensures
        b == colon2_at(s@.skip(i as int)),
{
    i < s.len() && joint_punct_at(s, i, ':') && i + 1 < s.len() && punct_at(s, i + 1, ':')
}

/// Whether `->` stands at position `i`.
pub fn arrow_at_pos(s: &VecDeque<Tok>, i: usize) -> (b: bool)
    requires
        i <= s@.len(),
    ensures
        b == arrow_at(s@.skip(i as int)),
{
    i < s.len() && joint_punct_at(s, i, '-') && i + 1 < s.len() && punct_at(s, i + 1, '>')
}

/// A cursor over the given tokens, in the same order.
pub fn cursor_of(v: Vec<Tok>) -> (s: VecDeque<Tok>)
    ensures
        s@ == v@,
{
    let mut v = v;
    let mut s: VecDeque<Tok> = VecDeque::new();
    let ghost all = v@;
    while v.len() > 0
        invariant
            v@ + s@ == all,
        decreases v.len(),
    {
        let t = v.pop().unwrap();
        let ghost before = v@;
        s.push_front(t);
        proof {
            assert(v@ + s@ =~= all);
        }
    }
    assert(s@ =~= all);
    s
}

/// Drops the first `n` tokens.
pub fn skip_tokens(s: &mut VecDeque<Tok>, n: usize)
    requires
        n <= old(s)@.len(),
    ensures
        final(s)@ == old(s)@.skip(n as int),
{
    let mut k: usize = 0;
    while k < n
        invariant
            k <= n,
            n <= old(s)@.len(),
            s@ == old(s)@.skip(k as int),
        decreases n - k,
    {
        let _ = s.pop_front();
        assert(s@ =~= old(s)@.skip(k + 1));
        k += 1;
    }
}

/// Takes the first `n` tokens off the front, in order.
pub fn take_tokens(s: &mut VecDeque<Tok>, n: usize) -> (taken: Vec<Tok>)
    requires
        n <= old(s)@.len(),
    ensures
        taken@ == old(s)@.take(n as int),
        final(s)@ == old(s)@.skip(n as int),
{
    let mut taken: Vec<Tok> = Vec::new();
    let mut k: usize = 0;
    while k < n
        invariant
            k <= n,
            n <= old(s)@.len(),
            s@ == old(s)@.skip(k as int),
            taken@ == old(s)@.take(k as int),
        decreases n - k,
    {
        let t = s.pop_front().unwrap();
        taken.push(t);
        assert(s@ =~= old(s)@.skip(k + 1));
        assert(taken@ =~= old(s)@.take(k + 1));
        k += 1;
    }
    taken
}

/// Takes the identifier at the front as a name.
pub fn take_name(s: &mut VecDeque<Tok>) -> (r: Result<String, ParseError>)
    ensures
        r == name_result(old(s)@),
        r is Ok ==> final(s)@ == old(s)@.skip(1),
{
    if !ident_at(s, 0) {
        return Err(ParseError::ExpectedIdent);
    }
    let t = s.pop_front().unwrap();
    match t {
        Tok::Ident(x) => {
            if reserved_word(x.as_str()) {
                Err(ParseError::ReservedWord)
            } else {
                Ok(x)
            }
        },
        _ => Err(ParseError::ExpectedIdent),
    }
}

/// Takes the group at the front and gives a cursor over its tokens.
pub fn take_group(s: &mut VecDeque<Tok>) -> (inner: VecDeque<Tok>)
    requires
        old(s)@.len() > 0,
        old(s)@[0] is Group,
    ensures
        inner@ == group_inner(old(s)@[0]),
        final(s)@ == old(s)@.skip(1),
{
    let t = s.pop_front().unwrap();
    assert(s@ =~= old(s)@.skip(1));
    match t {
        Tok::Group(_, v) => cursor_of(v),
        _ => VecDeque::new(),
    }
}

} // verus!
