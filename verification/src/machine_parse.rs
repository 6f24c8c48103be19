//! The grammar of the `state_machine!` macro, as a function on token trees.
//!
//! ```text
//! machine    := (attr* item)*
//! item       := vis enum name { variant,* }
//!             | impl name { (attr* method)* }
//!             | type Context = type ;
//! variant    := attr* name ({ field,* })?
//! method     := fn name ( self : type (, name : type)* ,? ) -> type { body }
//!             | fn name ( & mut? self ) (-> type)? { body }     (with #[on_enter(S)] or #[on_exit(S)])
//! attr       := # [ ... ]
//! ```
//! A variant marked `#[initial]` is the initial state, and exactly one must be.
//! A transition's `self` type names its source states: one name, or a tuple
//! of them (nested tuples are flattened). Its return type names its target
//! state, either alone or as `Result<Target, Error>` (with any path before
//! `Result`); a `#[guard(expr)]` attribute gives it a guard.
use vstd::prelude::*;
use std::collections::VecDeque;
use crate::tokens::{
    Tok, Delim, ParseError, is_punct, is_joint_punct, is_word, is_group, group_inner, ident_text,
    name_result, colon2_at, arrow_at, punct_at, word_at, ident_at, group_at, colon2_at_pos,
    arrow_at_pos, skip_tokens, take_tokens, take_name, take_group, text_eq, cursor_of,
};
use crate::store_parse::{
    FieldModel, TypedField, field_list, fields_model, type_len, vis_len, angle_len,
    lemma_type_len_bounds, lemma_angle_len_bounds, parse_field_list, parse_field_def, type_len_at,
    vis_len_at, angle_len_at,
};

verus! {

/// The kind of a lifecycle hook.
#[derive(Debug, Clone, Copy, PartialEq, Eq, Structural)]
pub enum HookKind {
    OnEnter,
    OnExit,
}

// ---------------------------------------------------------------------------
// Attributes
// ---------------------------------------------------------------------------

/// Tokens of the outer attributes at the front of `s`.
pub open spec fn attrs_len(s: Seq<Tok>) -> Result<nat, ParseError>
    decreases s.len(),
{
    if s.len() > 0 && is_punct(s[0], '#') {
        if s.len() > 1 && is_group(s[1], Delim::Bracket) {
            match attrs_len(s.skip(2)) {
                Ok(n) => Ok(n + 2),
                Err(e) => Err(e),
            }
        } else {
            Err(ParseError::ExpectedGroup(Delim::Bracket))
        }
    } else {
        Ok(0)
    }
}

pub proof fn lemma_attrs_len_bounds(s: Seq<Tok>)
    ensures
        attrs_len(s) matches Ok(n) ==> n <= s.len(),
    decreases s.len(),
{
    if s.len() > 1 && is_punct(s[0], '#') && is_group(s[1], Delim::Bracket) {
        lemma_attrs_len_bounds(s.skip(2));
    }
}

/// The inside of an attribute's brackets has the single-segment path `w`.
pub open spec fn attr_named(inner: Seq<Tok>, w: Seq<char>) -> bool {
    inner.len() >= 1 && is_word(inner[0], w) && !colon2_at(inner.skip(1))
}

/// The inside of the first attribute named `w` among the attributes `s`.
pub open spec fn find_attr(s: Seq<Tok>, w: Seq<char>) -> Option<Seq<Tok>>
    decreases s.len(),
{
    if s.len() < 2 {
        None
    } else if attr_named(group_inner(s[1]), w) {
        Some(group_inner(s[1]))
    } else {
        find_attr(s.skip(2), w)
    }
}

/// The arguments of an attribute written `path(args)` (or with brackets or
/// braces in place of the parentheses).
pub open spec fn attr_args(inner: Seq<Tok>) -> Result<Seq<Tok>, ParseError> {
    if inner.len() == 2 && inner[1] is Group && !is_group(inner[1], Delim::Invisible) {
        Ok(group_inner(inner[1]))
    } else {
        Err(ParseError::ExpectedAttributeArguments)
    }
}

// ---------------------------------------------------------------------------
// Source and target states of a transition
// ---------------------------------------------------------------------------

/// The source states a `self` type names: a name, or a tuple of names, with
/// parentheses and nested tuples looked through.
pub open spec fn source_states(ty: Seq<Tok>) -> Result<Seq<String>, ParseError>
    decreases ty, 0nat,
{
    if ty.len() == 1 && ty[0] is Ident && !is_word(ty[0], "_"@) {
        Ok(seq![ident_text(ty[0])])
    } else if ty.len() == 1 && is_group(ty[0], Delim::Paren) {
        match ty[0] {
            Tok::Group(_, v) => {
                proof { vstd::std_specs::vec::axiom_vec_decreases_to_view(v); }
                let inner = v@;
                if inner.len() > 0 && type_len(inner) == Some(inner.len()) {
                    source_states(inner)
                } else {
                    tuple_sources(inner)
                }
            },
            _ => Err(ParseError::ExpectedStateNameOrTuple),
        }
    } else if ty.len() > 0 && (ty[0] is Ident || colon2_at(ty)) && !is_word(ty[0], "_"@) {
        Err(ParseError::ExpectedStateName)
    } else {
        Err(ParseError::ExpectedStateNameOrTuple)
    }
}

/// The source states named by the elements of a tuple type's inside.
pub open spec fn tuple_sources(s: Seq<Tok>) -> Result<Seq<String>, ParseError>
    decreases s, 1nat,
{
    if s.len() == 0 {
        Ok(Seq::empty())
    } else {
        match type_len(s) {
            None => Err(ParseError::ExpectedType),
            Some(n) => {
                proof {
                    lemma_type_len_bounds(s);
                    if n == s.len() {
                        assert(s.take(n as int) =~= s);
                    }
                }
                match source_states(s.take(n as int)) {
                    Err(e) => Err(e),
                    Ok(first) => {
                        let rest = s.skip(n as int);
                        if rest.len() == 0 {
                            Ok(first)
                        } else if !is_punct(rest[0], ',') {
                            Err(ParseError::ExpectedPunct(','))
                        } else {
                            match tuple_sources(rest.skip(1)) {
                                Err(e) => Err(e),
                                Ok(more) => Ok(first + more),
                            }
                        }
                    },
                }
            },
        }
    }
}

/// Tokens of a path's leading segments `name ::`, each three tokens.
pub open spec fn path_prefix_len(ty: Seq<Tok>) -> nat
    decreases ty.len(),
{
    if ty.len() >= 3 && ty[0] is Ident && colon2_at(ty.skip(1)) {
        3 + path_prefix_len(ty.skip(3))
    } else {
        0
    }
}

pub proof fn lemma_path_prefix_len_bound(ty: Seq<Tok>)
    ensures
        path_prefix_len(ty) <= ty.len(),
    decreases ty.len(),
{
    if ty.len() >= 3 && ty[0] is Ident && colon2_at(ty.skip(1)) {
        lemma_path_prefix_len_bound(ty.skip(3));
    }
}

/// The generic arguments of a return type whose last path segment is
/// `Result<...>`, if it is one.
pub open spec fn result_args(ty: Seq<Tok>) -> Option<Seq<Tok>> {
    let lead: int = if colon2_at(ty) { 2 } else { 0 };
    let r = ty.skip(lead).skip(path_prefix_len(ty.skip(lead)) as int);
    if r.len() >= 3 && is_word(r[0], "Result"@) && is_punct(r[1], '<') && angle_len(r.skip(2), 0) == Some(
        (r.len() - 2) as nat,
    ) {
        Some(r.subrange(2, r.len() - 1))
    } else {
        None
    }
}

/// Tokens of one generic argument: up to a `,` outside any `<...>`.
pub open spec fn arg_len(s: Seq<Tok>, depth: nat) -> nat
    decreases s.len(),
{
    if s.len() == 0 {
        0
    } else if arrow_at(s) {
        2 + arg_len(s.skip(2), depth)
    } else if is_punct(s[0], ',') && depth == 0 {
        0
    } else if is_punct(s[0], '<') {
        1 + arg_len(s.skip(1), depth + 1)
    } else if is_punct(s[0], '>') {
        1 + arg_len(s.skip(1), if depth > 0 { (depth - 1) as nat } else { 0 })
    } else {
        1 + arg_len(s.skip(1), depth)
    }
}

pub proof fn lemma_arg_len_bound(s: Seq<Tok>, depth: nat)
    ensures
        arg_len(s, depth) <= s.len(),
        arg_len(s, depth) < s.len() ==> is_punct(s[arg_len(s, depth) as int], ','),
    decreases s.len(),
{
    if s.len() == 0 {
    } else if arrow_at(s) {
        lemma_arg_len_bound(s.skip(2), depth);
        if arg_len(s, depth) < s.len() {
            assert(s[arg_len(s, depth) as int] == s.skip(2)[arg_len(s.skip(2), depth) as int]);
        }
    } else if is_punct(s[0], ',') && depth == 0 {
    } else {
        let d: nat = if is_punct(s[0], '<') {
            depth + 1
        } else if is_punct(s[0], '>') {
            if depth > 0 { (depth - 1) as nat } else { 0 }
        } else {
            depth
        };
        lemma_arg_len_bound(s.skip(1), d);
        assert(arg_len(s, depth) == 1 + arg_len(s.skip(1), d));
        if arg_len(s, depth) < s.len() {
            assert(s[arg_len(s, depth) as int] == s.skip(1)[arg_len(s.skip(1), d) as int]);
        }
    }
}

/// The target state a return type names, and the error type when it is
/// `Result<Target, Error>`.
pub open spec fn target_state(ty: Seq<Tok>) -> Result<(String, Option<Seq<Tok>>), ParseError>
    decreases ty,
{
    if ty.len() == 1 && is_group(ty[0], Delim::Paren) {
        match ty[0] {
            Tok::Group(_, v) => {
                proof { vstd::std_specs::vec::axiom_vec_decreases_to_view(v); }
                let inner = v@;
                if inner.len() > 0 && type_len(inner) == Some(inner.len()) {
                    target_state(inner)
                } else {
                    Err(ParseError::ExpectedStateName)
                }
            },
            _ => Err(ParseError::ExpectedStateName),
        }
    } else {
        match result_args(ty) {
            Some(args) => {
                let n1 = arg_len(args, 0);
                let rest = args.skip(n1 as int);
                let err = rest.skip(1);
                let n2 = arg_len(err, 0);
                if n1 == 0 {
                    Err(ParseError::ResultNeedsTypeArguments)
                } else if rest.len() == 0 || n2 == 0 {
                    Err(ParseError::ResultNeedsErrorType)
                } else if !(n1 == 1 && args[0] is Ident) {
                    Err(ParseError::ExpectedIdent)
                } else {
                    Ok((ident_text(args[0]), Some(err.take(n2 as int))))
                }
            },
            None => if ty.len() == 1 && ty[0] is Ident {
                Ok((ident_text(ty[0]), None))
            } else {
                Err(ParseError::ExpectedStateName)
            },
        }
    }
}

// ---------------------------------------------------------------------------
// The parsed definition and its model
// ---------------------------------------------------------------------------

/// A field of a state.
#[derive(Debug)]
pub struct StateField {
    pub name: String,
    pub ty: Vec<Tok>,
}

/// A state, its fields, and whether it is the initial state.
#[derive(Debug)]
pub struct State {
    pub name: String,
    pub fields: Vec<StateField>,
    pub is_initial: bool,
}

/// A transition from the impl block.
#[derive(Debug)]
pub struct Transition {
    pub name: String,
    pub source_states: Vec<String>,
    pub target_state: String,
    /// The error type when the transition returns `Result<Target, Error>`.
    pub error_type: Option<Vec<Tok>>,
    pub args: Vec<(String, Vec<Tok>)>,
    pub guard: Option<Vec<Tok>>,
    pub body: Vec<Tok>,
}

/// A lifecycle hook: code run on entering or on leaving a state.
#[derive(Debug)]
pub struct LifecycleHook {
    pub kind: HookKind,
    pub state: String,
    pub name: String,
    pub body: Vec<Tok>,
}

/// The context type, from `type Context = ...;`.
#[derive(Debug)]
pub struct ContextDef {
    pub ty: Vec<Tok>,
}

/// A whole state machine definition.
#[derive(Debug)]
pub struct StateMachine {
    pub vis: Vec<Tok>,
    pub name: String,
    pub states: Vec<State>,
    pub transitions: Vec<Transition>,
    pub hooks: Vec<LifecycleHook>,
    pub context: Option<ContextDef>,
}

/// Model of a [`State`].
pub struct MachineStateModel {
    pub name: String,
    pub fields: Seq<FieldModel>,
    pub is_initial: bool,
}

/// Model of a [`Transition`].
pub struct MachineTransitionModel {
    pub name: String,
    pub source_states: Seq<String>,
    pub target_state: String,
    pub error_type: Option<Seq<Tok>>,
    pub args: Seq<FieldModel>,
    pub guard: Option<Seq<Tok>>,
    pub body: Seq<Tok>,
}

/// Model of a [`LifecycleHook`].
pub struct HookModel {
    pub kind: HookKind,
    pub state: String,
    pub name: String,
    pub body: Seq<Tok>,
}

/// Model of a [`StateMachine`].
pub struct MachineModel {
    pub vis: Seq<Tok>,
    pub name: String,
    pub states: Seq<MachineStateModel>,
    pub transitions: Seq<MachineTransitionModel>,
    pub hooks: Seq<HookModel>,
    pub context: Option<Seq<Tok>>,
}

impl View for StateField {
    type V = FieldModel;

    open spec fn view(&self) -> FieldModel {
        FieldModel { name: self.name, ty: self.ty@ }
    }
}

/// The models of a list of state fields.
pub open spec fn state_fields_model(v: Seq<StateField>) -> Seq<FieldModel> {
    v.map_values(|f: StateField| f@)
}

/// The models of a list of arguments.
pub open spec fn args_model(v: Seq<(String, Vec<Tok>)>) -> Seq<FieldModel> {
    v.map_values(|a: (String, Vec<Tok>)| FieldModel { name: a.0, ty: a.1@ })
}

/// The model of an optional token list.
pub open spec fn opt_toks(o: Option<Vec<Tok>>) -> Option<Seq<Tok>> {
    match o {
        Some(v) => Some(v@),
        None => None,
    }
}

impl View for State {
    type V = MachineStateModel;

    open spec fn view(&self) -> MachineStateModel {
        MachineStateModel { name: self.name, fields: state_fields_model(self.fields@), is_initial: self.is_initial }
    }
}

impl View for Transition {
    type V = MachineTransitionModel;

    open spec fn view(&self) -> MachineTransitionModel {
        MachineTransitionModel {
            name: self.name,
            source_states: self.source_states@,
            target_state: self.target_state,
            error_type: opt_toks(self.error_type),
            args: args_model(self.args@),
            guard: opt_toks(self.guard),
            body: self.body@,
        }
    }
}

impl View for LifecycleHook {
    type V = HookModel;

    open spec fn view(&self) -> HookModel {
        HookModel { kind: self.kind, state: self.state, name: self.name, body: self.body@ }
    }
}

/// The models of a list of states.
pub open spec fn machine_states_model(v: Seq<State>) -> Seq<MachineStateModel> {
    v.map_values(|st: State| st@)
}

/// The models of a list of transitions.
pub open spec fn machine_transitions_model(v: Seq<Transition>) -> Seq<MachineTransitionModel> {
    v.map_values(|t: Transition| t@)
}

/// The models of a list of hooks.
pub open spec fn hooks_model(v: Seq<LifecycleHook>) -> Seq<HookModel> {
    v.map_values(|h: LifecycleHook| h@)
}

impl View for StateMachine {
    type V = MachineModel;

    open spec fn view(&self) -> MachineModel {
        MachineModel {
            vis: self.vis@,
            name: self.name,
            states: machine_states_model(self.states@),
            transitions: machine_transitions_model(self.transitions@),
            hooks: hooks_model(self.hooks@),
            context: match self.context {
                Some(c) => Some(c.ty@),
                None => None,
            },
        }
    }
}

// ---------------------------------------------------------------------------
// The grammar of items
// ---------------------------------------------------------------------------

/// A variant of the states enum at the front of `s`, and how many tokens it spans.
pub open spec fn variant_def(s: Seq<Tok>) -> Result<(MachineStateModel, nat), ParseError> {
    match attrs_len(s) {
        Err(e) => Err(e),
        Ok(a) => {
            let is_initial = find_attr(s.take(a as int), "initial"@) is Some;
            match name_result(s.skip(a as int)) {
                Err(e) => Err(e),
                Ok(name) => if s.len() > a + 1 && is_group(s[(a + 1) as int], Delim::Brace) {
                    match field_list(group_inner(s[(a + 1) as int])) {
                        Err(e) => Err(e),
                        Ok(fields) => Ok((MachineStateModel { name, fields, is_initial }, a + 2)),
                    }
                } else {
                    Ok((MachineStateModel { name, fields: Seq::empty(), is_initial }, a + 1))
                },
            }
        },
    }
}

pub proof fn lemma_variant_def_bounds(s: Seq<Tok>)
    ensures
        variant_def(s) matches Ok((_, n)) ==> 1 <= n <= s.len(),
{
    lemma_attrs_len_bounds(s);
}

/// All of `s` as variants separated by `,`, with an optional trailing `,`.
pub open spec fn variant_list(s: Seq<Tok>) -> Result<Seq<MachineStateModel>, ParseError>
    decreases s.len(),
{
    if s.len() == 0 {
        Ok(Seq::empty())
    } else {
        match variant_def(s) {
            Err(e) => Err(e),
            Ok((v, n)) => {
                proof { lemma_variant_def_bounds(s); }
                let rest = s.skip(n as int);
                if rest.len() == 0 {
                    Ok(seq![v])
                } else if !is_punct(rest[0], ',') {
                    Err(ParseError::ExpectedPunct(','))
                } else {
                    match variant_list(rest.skip(1)) {
                        Err(e) => Err(e),
                        Ok(vs) => Ok(seq![v] + vs),
                    }
                }
            },
        }
    }
}

/// The arguments after a transition's `self` parameter: `, name : type`
/// repeated, with an optional trailing `,`.
pub open spec fn arg_list(s: Seq<Tok>) -> Result<Seq<FieldModel>, ParseError>
    decreases s.len(),
{
    if s.len() == 0 {
        Ok(Seq::empty())
    } else if !is_punct(s[0], ',') {
        Err(ParseError::UnexpectedToken)
    } else if s.len() == 1 {
        Ok(Seq::empty())
    } else {
        match crate::store_parse::field_def(s.skip(1)) {
            Err(e) => Err(e),
            Ok((f, n)) => {
                proof { lemma_type_len_bounds(s.skip(1).skip(2)); }
                match arg_list(s.skip(1).skip(n as int)) {
                    Err(e) => Err(e),
                    Ok(more) => Ok(seq![f] + more),
                }
            },
        }
    }
}

/// The parameters of a transition: its source states and further arguments,
/// from the inside of its parentheses.
pub open spec fn transition_params(params: Seq<Tok>) -> Result<(Seq<String>, Seq<FieldModel>), ParseError> {
    if !(params.len() > 0 && is_word(params[0], "self"@)) {
        Err(ParseError::ExpectedSelf)
    } else if !(params.len() > 1 && is_punct(params[1], ':')) {
        Err(ParseError::ExpectedPunct(':'))
    } else {
        match source_alternatives(params.skip(2)) {
            Err(e) => Err(e),
            Ok((sources, n)) => match arg_list(params.skip(2).skip(n as int)) {
                Err(e) => Err(e),
                Ok(args) => Ok((sources, args)),
            },
        }
    }
}

/// The source states of a `self` type written as alternatives
/// `State1 | State2 | ...` (one alternative is the plain form): the states
/// each alternative names, in order, and how many tokens they span.
pub open spec fn source_alternatives(s: Seq<Tok>) -> Result<(Seq<String>, nat), ParseError>
    decreases s.len(),
{
    match type_len(s) {
        None => Err(ParseError::ExpectedType),
        Some(n) => match source_states(s.take(n as int)) {
            Err(e) => Err(e),
            Ok(first) => if s.len() > n && is_punct(s[n as int], '|') {
                match source_alternatives(s.skip(n as int + 1)) {
                    Err(e) => Err(e),
                    Ok((more, m)) => Ok((first + more, n + 1 + m)),
                }
            } else {
                Ok((first, n))
            },
        },
    }
}

pub proof fn lemma_source_alternatives_bound(s: Seq<Tok>)
    ensures
        source_alternatives(s) matches Ok((_, n)) ==> n <= s.len(),
    decreases s.len(),
{
    lemma_type_len_bounds(s);
    if let Some(n) = type_len(s) {
        if s.len() > n {
            lemma_source_alternatives_bound(s.skip(n as int + 1));
        }
    }
}

/// The return part `-> type` at the front of `s`: the target state, the
/// error type if there is one, and how many tokens it spans.
pub open spec fn transition_return(s: Seq<Tok>) -> Result<(String, Option<Seq<Tok>>, nat), ParseError> {
    if !arrow_at(s) {
        Err(ParseError::ExpectedArrow)
    } else {
        match type_len(s.skip(2)) {
            None => Err(ParseError::ExpectedType),
            Some(m) => match target_state(s.skip(2).take(m as int)) {
                Err(e) => Err(e),
                Ok((target, error_type)) => Ok((target, error_type, m + 2)),
            },
        }
    }
}

/// The guard expression of a transition, from the inside of its `#[guard(..)]`
/// attribute if it has one.
pub open spec fn guard_of(guard_attr: Option<Seq<Tok>>) -> Result<Option<Seq<Tok>>, ParseError> {
    match guard_attr {
        None => Ok(None),
        Some(inner) => match attr_args(inner) {
            Err(e) => Err(e),
            Ok(g) => if g.len() == 0 {
                Err(ParseError::ExpectedExpression)
            } else {
                Ok(Some(g))
            },
        },
    }
}

/// A transition method at the front of `s` (which starts with `fn`), with
/// the inside of its `#[guard(..)]` attribute if it has one.
pub open spec fn transition_fn(s: Seq<Tok>, guard_attr: Option<Seq<Tok>>) -> Result<(MachineTransitionModel, nat), ParseError> {
    match name_result(s.skip(1)) {
        Err(e) => Err(e),
        Ok(name) => if !(s.len() > 2 && is_group(s[2], Delim::Paren)) {
            Err(ParseError::ExpectedGroup(Delim::Paren))
        } else {
            match transition_params(group_inner(s[2])) {
                Err(e) => Err(e),
                Ok((sources, args)) => match transition_return(s.skip(3)) {
                    Err(e) => Err(e),
                    Ok((target, error_type, k)) => {
                        let b = 3 + k as int;
                        if !(s.len() > b && is_group(s[b], Delim::Brace)) {
                            Err(ParseError::ExpectedGroup(Delim::Brace))
                        } else {
                            match guard_of(guard_attr) {
                                Err(e) => Err(e),
                                Ok(guard) => Ok((
                                    MachineTransitionModel {
                                        name,
                                        source_states: sources,
                                        target_state: target,
                                        error_type,
                                        args,
                                        guard,
                                        body: group_inner(s[b]),
                                    },
                                    (b + 1) as nat,
                                )),
                            }
                        }
                    },
                },
            }
        },
    }
}

/// The parameter list of a lifecycle hook: `&self` or `&mut self`.
pub open spec fn hook_params_ok(p: Seq<Tok>) -> Result<(), ParseError> {
    if !(p.len() > 0 && is_punct(p[0], '&')) {
        Err(ParseError::ExpectedSelfReference)
    } else {
        let k: int = if p.len() > 1 && is_word(p[1], "mut"@) { 2 } else { 1 };
        if !(p.len() > k && is_word(p[k], "self"@)) {
            Err(ParseError::ExpectedSelf)
        } else if p.len() > k + 1 {
            Err(ParseError::UnexpectedToken)
        } else {
            Ok(())
        }
    }
}

/// The state a hook attribute names: `on_enter(State)` or `on_exit(State)`.
pub open spec fn hook_state(attr_inner: Seq<Tok>) -> Result<String, ParseError> {
    match attr_args(attr_inner) {
        Err(e) => Err(e),
        Ok(args) => match name_result(args) {
            Err(e) => Err(e),
            Ok(st) => if args.len() > 1 {
                Err(ParseError::UnexpectedToken)
            } else {
                Ok(st)
            },
        },
    }
}

/// Tokens of an optional return type `-> type` at the front of `s`.
pub open spec fn opt_return_len(s: Seq<Tok>) -> Result<nat, ParseError> {
    if arrow_at(s) {
        match type_len(s.skip(2)) {
            None => Err(ParseError::ExpectedType),
            Some(m) => Ok(m + 2),
        }
    } else {
        Ok(0)
    }
}

/// A lifecycle hook method at the front of `s` (which starts with `fn`).
pub open spec fn hook_fn(s: Seq<Tok>, attr_inner: Seq<Tok>, kind: HookKind) -> Result<(HookModel, nat), ParseError> {
    match hook_state(attr_inner) {
        Err(e) => Err(e),
        Ok(state) => match name_result(s.skip(1)) {
            Err(e) => Err(e),
            Ok(name) => if !(s.len() > 2 && is_group(s[2], Delim::Paren)) {
                Err(ParseError::ExpectedGroup(Delim::Paren))
            } else {
                match hook_params_ok(group_inner(s[2])) {
                    Err(e) => Err(e),
                    Ok(_) => match opt_return_len(s.skip(3)) {
                        Err(e) => Err(e),
                        Ok(k) => {
                            let b = 3 + k as int;
                            if !(s.len() > b && is_group(s[b], Delim::Brace)) {
                                Err(ParseError::ExpectedGroup(Delim::Brace))
                            } else {
                                Ok((HookModel { kind, state, name, body: group_inner(s[b]) }, (b + 1) as nat))
                            }
                        },
                    },
                }
            },
        },
    }
}

/// The methods of the impl block parsed so far.
pub struct MethodsModel {
    pub transitions: Seq<MachineTransitionModel>,
    pub hooks: Seq<HookModel>,
}

/// A method at the front of `s` added to `acc`, and how many tokens it spans.
pub open spec fn method_def(s: Seq<Tok>, acc: MethodsModel) -> Result<(MethodsModel, nat), ParseError> {
    match attrs_len(s) {
        Err(e) => Err(e),
        Ok(a) => {
            let attrs = s.take(a as int);
            let t = s.skip(a as int);
            if !(t.len() > 0 && is_word(t[0], "fn"@)) {
                Err(ParseError::ExpectedFn)
            } else {
                match find_attr(attrs, "on_enter"@) {
                    Some(inner) => match hook_fn(t, inner, HookKind::OnEnter) {
                        Err(e) => Err(e),
                        Ok((h, n)) => Ok((MethodsModel { hooks: acc.hooks.push(h), ..acc }, a + n)),
                    },
                    None => match find_attr(attrs, "on_exit"@) {
                        Some(inner) => match hook_fn(t, inner, HookKind::OnExit) {
                            Err(e) => Err(e),
                            Ok((h, n)) => Ok((MethodsModel { hooks: acc.hooks.push(h), ..acc }, a + n)),
                        },
                        None => match transition_fn(t, find_attr(attrs, "guard"@)) {
                            Err(e) => Err(e),
                            Ok((tr, n)) => Ok((MethodsModel { transitions: acc.transitions.push(tr), ..acc }, a + n)),
                        },
                    },
                }
            }
        },
    }
}

pub proof fn lemma_method_def_bounds(s: Seq<Tok>, acc: MethodsModel)
    ensures
        method_def(s, acc) matches Ok((_, n)) ==> 1 <= n <= s.len(),
{
    lemma_attrs_len_bounds(s);
}

/// All of `s` as methods, each added to `acc`.
pub open spec fn method_list(s: Seq<Tok>, acc: MethodsModel) -> Result<MethodsModel, ParseError>
    decreases s.len(),
{
    if s.len() == 0 {
        Ok(acc)
    } else {
        match method_def(s, acc) {
            Err(e) => Err(e),
            Ok((acc2, n)) => {
                proof { lemma_method_def_bounds(s, acc); }
                method_list(s.skip(n as int), acc2)
            },
        }
    }
}

/// The items of a definition parsed so far.
pub struct ItemsModel {
    pub vis: Seq<Tok>,
    pub name: Option<String>,
    pub states: Seq<MachineStateModel>,
    pub transitions: Seq<MachineTransitionModel>,
    pub hooks: Seq<HookModel>,
    pub context: Option<Seq<Tok>>,
}

/// The enum of states at the front of `t` (which starts with its visibility
/// or `enum`), added to `acc`, and how many tokens it spans.
pub open spec fn enum_item(t: Seq<Tok>, acc: ItemsModel) -> Result<(ItemsModel, nat), ParseError> {
    let v = vis_len(t) as int;
    if !(t.len() > v && is_word(t[v], "enum"@)) {
        Err(ParseError::ExpectedEnum)
    } else {
        match name_result(t.skip(v + 1)) {
            Err(e) => Err(e),
            Ok(name) => if !(t.len() > v + 2 && is_group(t[v + 2], Delim::Brace)) {
                Err(ParseError::ExpectedGroup(Delim::Brace))
            } else {
                match variant_list(group_inner(t[v + 2])) {
                    Err(e) => Err(e),
                    Ok(variants) => Ok((
                        ItemsModel { vis: t.take(v), name: Some(name), states: acc.states + variants, ..acc },
                        (v + 3) as nat,
                    )),
                }
            },
        }
    }
}

/// The impl block at the front of `t` (which starts with `impl`), its methods
/// added to `acc`, and how many tokens it spans.
pub open spec fn impl_item(t: Seq<Tok>, acc: ItemsModel) -> Result<(ItemsModel, nat), ParseError> {
    match name_result(t.skip(1)) {
        Err(e) => Err(e),
        Ok(_) => if !(t.len() > 2 && is_group(t[2], Delim::Brace)) {
            Err(ParseError::ExpectedGroup(Delim::Brace))
        } else {
            match method_list(group_inner(t[2]), MethodsModel { transitions: acc.transitions, hooks: acc.hooks }) {
                Err(e) => Err(e),
                Ok(m) => Ok((ItemsModel { transitions: m.transitions, hooks: m.hooks, ..acc }, 3nat)),
            }
        },
    }
}

/// The `type Context = ...;` item at the front of `t` (which starts with
/// `type`), set in `acc`, and how many tokens it spans.
pub open spec fn context_item(t: Seq<Tok>, acc: ItemsModel) -> Result<(ItemsModel, nat), ParseError> {
    match name_result(t.skip(1)) {
        Err(e) => Err(e),
        Ok(alias) => if alias@ != "Context"@ {
            Err(ParseError::ExpectedContext)
        } else if !(t.len() > 2 && is_punct(t[2], '=')) {
            Err(ParseError::ExpectedPunct('='))
        } else {
            match type_len(t.skip(3)) {
                None => Err(ParseError::ExpectedType),
                Some(n) => if !(t.len() > 3 + n && is_punct(t[3 + n as int], ';')) {
                    Err(ParseError::ExpectedPunct(';'))
                } else {
                    Ok((ItemsModel { context: Some(t.skip(3).take(n as int)), ..acc }, n + 4))
                },
            }
        },
    }
}

/// An item at the front of `t` (past its attributes) added to `acc`, and how
/// many tokens it spans.
pub open spec fn item_body(t: Seq<Tok>, acc: ItemsModel) -> Result<(ItemsModel, nat), ParseError> {
    if t.len() > 0 && (is_word(t[0], "pub"@) || is_word(t[0], "enum"@)) {
        enum_item(t, acc)
    } else if t.len() > 0 && is_word(t[0], "impl"@) {
        impl_item(t, acc)
    } else if t.len() > 0 && is_word(t[0], "type"@) {
        context_item(t, acc)
    } else {
        Err(ParseError::ExpectedItem)
    }
}

/// An item at the front of `s` added to `acc`, and how many tokens it spans.
pub open spec fn item_def(s: Seq<Tok>, acc: ItemsModel) -> Result<(ItemsModel, nat), ParseError> {
    match attrs_len(s) {
        Err(e) => Err(e),
        Ok(a) => match item_body(s.skip(a as int), acc) {
            Err(e) => Err(e),
            Ok((m, k)) => Ok((m, a + k)),
        },
    }
}

pub proof fn lemma_item_def_bounds(s: Seq<Tok>, acc: ItemsModel)
    ensures
        item_def(s, acc) matches Ok((_, n)) ==> 1 <= n <= s.len(),
{
    lemma_attrs_len_bounds(s);
}

/// All of `s` as items, each added to `acc`.
pub open spec fn item_list(s: Seq<Tok>, acc: ItemsModel) -> Result<ItemsModel, ParseError>
    decreases s.len(),
{
    if s.len() == 0 {
        Ok(acc)
    } else {
        match item_def(s, acc) {
            Err(e) => Err(e),
            Ok((acc2, n)) => {
                proof { lemma_item_def_bounds(s, acc); }
                item_list(s.skip(n as int), acc2)
            },
        }
    }
}

/// How many states are marked initial.
pub open spec fn initial_count(states: Seq<MachineStateModel>) -> nat
    decreases states.len(),
{
    if states.len() == 0 {
        0
    } else {
        initial_count(states.drop_last()) + if states.last().is_initial { 1nat } else { 0nat }
    }
}

/// What [`initial_count`] says of the states marked initial: none when it is
/// zero, exactly one when it is one.
pub proof fn lemma_initial_count(states: Seq<MachineStateModel>)
    ensures
        initial_count(states) == 0 ==> forall|j: int| 0 <= j < states.len() ==> !#[trigger] states[j].is_initial,
        initial_count(states) == 1 ==> exists|i: int| 0 <= i < states.len() && states[i].is_initial
            && forall|j: int| 0 <= j < states.len() && j != i ==> !#[trigger] states[j].is_initial,
    decreases states.len(),
{
    if states.len() > 0 {
        let pre = states.drop_last();
        lemma_initial_count(pre);
        assert forall|j: int| 0 <= j < pre.len() implies pre[j] == states[j] by {}
        if initial_count(states) == 1 {
            if states.last().is_initial {
                let i = states.len() - 1;
                assert forall|j: int| 0 <= j < states.len() && j != i implies !#[trigger] states[j].is_initial by {
                    assert(pre[j] == states[j]);
                }
            } else {
                let i = choose|i: int| 0 <= i < pre.len() && pre[i].is_initial
                    && forall|j: int| 0 <= j < pre.len() && j != i ==> !#[trigger] pre[j].is_initial;
                assert(states[i] == pre[i]);
                assert forall|j: int| 0 <= j < states.len() && j != i implies !#[trigger] states[j].is_initial by {
                    if j < pre.len() {
                        assert(pre[j] == states[j]);
                    }
                }
            }
        }
        if initial_count(states) == 0 {
            assert forall|j: int| 0 <= j < states.len() implies !#[trigger] states[j].is_initial by {
                if j < pre.len() {
                    assert(pre[j] == states[j]);
                }
            }
        }
    }
}

/// Every definition that parses marks exactly one of its states initial.
pub proof fn law_parsed_machine_has_one_initial_state(s: Seq<Tok>)
    ensures
        machine_def(s) matches Ok(m) ==> exists|i: int| 0 <= i < m.states.len() && m.states[i].is_initial
            && forall|j: int| 0 <= j < m.states.len() && j != i ==> !#[trigger] m.states[j].is_initial,
{
    if let Ok(m) = machine_def(s) {
        lemma_initial_count(m.states);
    }
}

/// No items seen yet.
pub open spec fn no_items() -> ItemsModel {
    ItemsModel {
        vis: Seq::empty(),
        name: None,
        states: Seq::empty(),
        transitions: Seq::empty(),
        hooks: Seq::empty(),
        context: None,
    }
}

/// What the tokens of a `state_machine!` invocation define: the machine, or
/// why they do not follow the grammar or name no single initial state.
pub open spec fn machine_def(s: Seq<Tok>) -> Result<MachineModel, ParseError> {
    match item_list(s, no_items()) {
        Err(e) => Err(e),
        Ok(items) => match items.name {
            None => Err(ParseError::MissingEnum),
            Some(name) => if initial_count(items.states) == 0 {
                Err(ParseError::NoInitialState)
            } else if initial_count(items.states) > 1 {
                Err(ParseError::SeveralInitialStates)
            } else {
                Ok(MachineModel {
                    vis: items.vis,
                    name,
                    states: items.states,
                    transitions: items.transitions,
                    hooks: items.hooks,
                    context: items.context,
                })
            },
        },
    }
}


// ---------------------------------------------------------------------------
// The parser
// ---------------------------------------------------------------------------

/// Tokens of the outer attributes starting at position `i`.
fn attrs_len_at(s: &VecDeque<Tok>, i: usize) -> (r: Result<usize, ParseError>)
    requires
        i <= s@.len(),
    ensures
        match attrs_len(s@.skip(i as int)) {
            Ok(n) => r matches Ok(k) && k == n && i + k <= s@.len(),
            Err(e) => r == Err::<usize, ParseError>(e),
        },
    decreases s@.len() - i,
{
    proof { lemma_attrs_len_bounds(s@.skip(i as int)); }
    let len = s.len();
    if punct_at(s, i, '#') {
        if group_at(s, i + 1, Delim::Bracket) {
            assert(s@.skip(i as int).skip(2) =~= s@.skip(i + 2));
            match attrs_len_at(s, i + 2) {
                Ok(n) => Ok(n + 2),
                Err(e) => Err(e),
            }
        } else {
            Err(ParseError::ExpectedGroup(Delim::Bracket))
        }
    } else {
        Ok(0)
    }
}

/// Whether the inside of an attribute's brackets has the single-segment path `w`.
fn attr_named_exec(inner: &Vec<Tok>, w: &str) -> (b: bool)
    ensures
        b == attr_named(inner@, w@),
{
    if inner.len() == 0 {
        return false;
    }
    let first = match &inner[0] {
        Tok::Ident(x) => text_eq(x.as_str(), w),
        _ => false,
    };
    if !first {
        return false;
    }
    let joint = inner.len() >= 3 && match &inner[1] {
        Tok::Punct(p, j) => *p == ':' && *j,
        _ => false,
    };
    let colon2 = joint && match &inner[2] {
        Tok::Punct(p, _) => *p == ':',
        _ => false,
    };
    assert(colon2 == colon2_at(inner@.skip(1)));
    !colon2
}

/// Position of the `#` of the first attribute named `w` among the attributes `attrs`.
fn find_attr_pos(attrs: &Vec<Tok>, w: &str) -> (r: Option<usize>)
    ensures
        match find_attr(attrs@, w@) {
            Some(inner) => r matches Some(p) && p + 1 < attrs@.len() && group_inner(attrs@[p + 1]) == inner,
            None => r is None,
        },
{
    let mut i: usize = 0;
    assert(attrs@.skip(0) =~= attrs@);
    while attrs.len() - i >= 2
        invariant
            i <= attrs@.len(),
            find_attr(attrs@.skip(i as int), w@) == find_attr(attrs@, w@),
        decreases attrs@.len() - i,
    {
        let named = match &attrs[i + 1] {
            Tok::Group(_, inner) => attr_named_exec(inner, w),
            _ => false,
        };
        assert(attrs@.skip(i as int)[1] == attrs@[i + 1]);
        if named {
            return Some(i);
        }
        assert(attrs@.skip(i as int).skip(2) =~= attrs@.skip(i + 2));
        i = i + 2;
    }
    None
}

/// Takes the group at position `p` and gives its tokens.
fn take_group_at(v: &mut Vec<Tok>, p: usize) -> (inner: Vec<Tok>)
    requires
        p < old(v)@.len(),
    ensures
        inner@ == group_inner(old(v)@[p as int]),
{
    let t = v.remove(p);
    match t {
        Tok::Group(_, inner) => inner,
        _ => Vec::new(),
    }
}

/// The arguments of an attribute, from the inside of its brackets.
fn parse_attr_args(inner: Vec<Tok>) -> (r: Result<Vec<Tok>, ParseError>)
    ensures
        match attr_args(inner@) {
            Ok(a) => r matches Ok(v) && v@ == a,
            Err(e) => r == Err::<Vec<Tok>, ParseError>(e),
        },
{
    if inner.len() != 2 {
        return Err(ParseError::ExpectedAttributeArguments);
    }
    let mut inner = inner;
    let ghost i0 = inner@;
    let t = inner.pop().unwrap();
    assert(t == i0[1]);
    match t {
        Tok::Group(d, v) => if d != Delim::Invisible {
            Ok(v)
        } else {
            Err(ParseError::ExpectedAttributeArguments)
        },
        _ => Err(ParseError::ExpectedAttributeArguments),
    }
}

/// Reads the source states that a `self` type names.
fn parse_source_states(ty: Vec<Tok>) -> (r: Result<Vec<String>, ParseError>)
    ensures
        match source_states(ty@) {
            Ok(v) => r matches Ok(x) && x@ == v,
            Err(e) => r == Err::<Vec<String>, ParseError>(e),
        },
    decreases ty@, 0nat,
{
    let ghost t0 = ty@;
    if ty.len() == 1 {
        let mut ty = ty;
        let t = ty.pop().unwrap();
        assert(t == t0[0]);
        match t {
            Tok::Ident(x) => {
                if text_eq(x.as_str(), "_") {
                    Err(ParseError::ExpectedStateNameOrTuple)
                } else {
                    let v = vec![x];
                    assert(v@ =~= seq![ident_text(t0[0])]);
                    Ok(v)
                }
            },
            Tok::Group(d, v) => {
                if d == Delim::Paren {
                    proof { vstd::std_specs::vec::axiom_vec_decreases_to_view(v); }
                    let ghost inner0 = v@;
                    let n = v.len();
                    let mut inner = cursor_of(v);
                    let whole = n > 0 && match type_len_at(&inner, 0) {
                        Some(k) => k == n,
                        None => false,
                    };
                    assert(inner@.skip(0) =~= inner@);
                    if whole {
                        let v2 = take_tokens(&mut inner, n);
                        assert(v2@ =~= inner0);
                        parse_source_states(v2)
                    } else {
                        parse_tuple_sources(&mut inner)
                    }
                } else {
                    Err(ParseError::ExpectedStateNameOrTuple)
                }
            },
            _ => Err(ParseError::ExpectedStateNameOrTuple),
        }
    } else if ty.len() == 0 {
        Err(ParseError::ExpectedStateNameOrTuple)
    } else {
        let c = cursor_of(ty);
        let named = (ident_at(&c, 0) || colon2_at_pos(&c, 0)) && !word_at(&c, 0, "_");
        assert(c@.skip(0) =~= c@);
        if named {
            Err(ParseError::ExpectedStateName)
        } else {
            Err(ParseError::ExpectedStateNameOrTuple)
        }
    }
}

/// Reads the source states named by the elements of a tuple type's inside.
fn parse_tuple_sources(s: &mut VecDeque<Tok>) -> (r: Result<Vec<String>, ParseError>)
    ensures
        match tuple_sources(old(s)@) {
            Ok(v) => r matches Ok(x) && x@ == v,
            Err(e) => r == Err::<Vec<String>, ParseError>(e),
        },
    decreases old(s)@, 1nat,
{
    let ghost s0 = s@;
    if s.len() == 0 {
        let v: Vec<String> = Vec::new();
        assert(v@ =~= Seq::<String>::empty());
        return Ok(v);
    }
    assert(s@.skip(0) =~= s@);
    let n = match type_len_at(s, 0) {
        Some(n) => n,
        None => return Err(ParseError::ExpectedType),
    };
    proof {
        lemma_type_len_bounds(s0);
        if n == s0.len() {
            assert(s0.take(n as int) =~= s0);
        }
    }
    let first_toks = take_tokens(s, n);
    let mut first = match parse_source_states(first_toks) {
        Ok(v) => v,
        Err(e) => return Err(e),
    };
    if s.len() == 0 {
        return Ok(first);
    }
    if !punct_at(s, 0, ',') {
        return Err(ParseError::ExpectedPunct(','));
    }
    let ghost rest = s@;
    skip_tokens(s, 1);
    assert(s@ =~= s0.subrange(n + 1, s0.len() as int));
    assert(s@ =~= rest.skip(1));
    let mut more = match parse_tuple_sources(s) {
        Ok(v) => v,
        Err(e) => return Err(e),
    };
    first.append(&mut more);
    Ok(first)
}


/// Tokens of a path's leading `name ::` segments starting at position `i`.
fn path_prefix_len_at(s: &VecDeque<Tok>, i: usize) -> (n: usize)
    requires
        i <= s@.len(),
    ensures
        n == path_prefix_len(s@.skip(i as int)),
        i + n <= s@.len(),
    decreases s@.len() - i,
{
    proof { lemma_path_prefix_len_bound(s@.skip(i as int)); }
    let len = s.len();
    if len - i >= 3 && ident_at(s, i) && colon2_at_pos(s, i + 1) {
        assert(s@.skip(i as int).skip(1) =~= s@.skip(i + 1));
        assert(s@.skip(i as int).skip(3) =~= s@.skip(i + 3));
        3 + path_prefix_len_at(s, i + 3)
    } else {
        0
    }
}

/// Tokens of one generic argument starting at position `i`.
fn arg_len_at(s: &VecDeque<Tok>, i: usize, depth: usize) -> (n: usize)
    requires
        i <= s@.len(),
        depth <= i,
    ensures
        n == arg_len(s@.skip(i as int), depth as nat),
        i + n <= s@.len(),
    decreases s@.len() - i,
{
    proof { lemma_arg_len_bound(s@.skip(i as int), depth as nat); }
    let len = s.len();
    if i >= len {
        return 0;
    }
    assert(s@.skip(i as int).skip(1) =~= s@.skip(i + 1));
    if arrow_at_pos(s, i) {
        assert(s@.skip(i as int).skip(2) =~= s@.skip(i + 2));
        2 + arg_len_at(s, i + 2, depth)
    } else if punct_at(s, i, ',') && depth == 0 {
        0
    } else if punct_at(s, i, '<') {
        1 + arg_len_at(s, i + 1, depth + 1)
    } else if punct_at(s, i, '>') {
        1 + arg_len_at(s, i + 1, if depth > 0 { depth - 1 } else { 0 })
    } else {
        1 + arg_len_at(s, i + 1, depth)
    }
}

/// Reads the target state, and the error type if there is one, from a return type.
fn parse_target_state(ty: Vec<Tok>) -> (r: Result<(String, Option<Vec<Tok>>), ParseError>)
    ensures
        match target_state(ty@) {
            Ok((name, err)) => r matches Ok((x, ev)) && x == name && opt_toks(ev) == err,
            Err(e) => r == Err::<(String, Option<Vec<Tok>>), ParseError>(e),
        },
    decreases ty@,
{
    let ghost t0 = ty@;
    let len = ty.len();
    if len == 1 {
        let is_paren = match &ty[0] {
            Tok::Group(d, _) => *d == Delim::Paren,
            _ => false,
        };
        if is_paren {
            let mut ty = ty;
            let t = ty.pop().unwrap();
            assert(t == t0[0]);
            match t {
                Tok::Group(_, v) => {
                    proof { vstd::std_specs::vec::axiom_vec_decreases_to_view(v); }
                    let ghost inner0 = v@;
                    let n = v.len();
                    let mut inner = cursor_of(v);
                    let whole = n > 0 && match type_len_at(&inner, 0) {
                        Some(k) => k == n,
                        None => false,
                    };
                    assert(inner@.skip(0) =~= inner@);
                    if whole {
                        let v2 = take_tokens(&mut inner, n);
                        assert(v2@ =~= inner0);
                        return parse_target_state(v2);
                    } else {
                        return Err(ParseError::ExpectedStateName);
                    }
                },
                _ => return Err(ParseError::ExpectedStateName),
            }
        }
    }
    let mut c = cursor_of(ty);
    assert(c@.skip(0) =~= c@);
    let lead: usize = if colon2_at_pos(&c, 0) { 2 } else { 0 };
    let ppl = path_prefix_len_at(&c, lead);
    let k = lead + ppl;
    let ghost r0 = t0.skip(lead as int).skip(ppl as int);
    assert(r0 =~= t0.skip(k as int));
    let is_result = len - k >= 3 && word_at(&c, k, "Result") && punct_at(&c, k + 1, '<') && match angle_len_at(&c, k + 2, 0) {
        Some(m) => m == len - k - 2,
        None => false,
    };
    if len - k >= 2 {
        assert(t0.skip(k as int).skip(2) =~= t0.skip(k + 2));
    }
    if !is_result {
        assert(result_args(t0) is None);
        if len == 1 && ident_at(&c, 0) {
            let x = match c.pop_front() {
                Some(Tok::Ident(x)) => x,
                _ => return Err(ParseError::ExpectedStateName),
            };
            return Ok((x, None));
        }
        return Err(ParseError::ExpectedStateName);
    }
    let ghost args0 = r0.subrange(2, r0.len() - 1);
    assert(result_args(t0) == Some(args0));
    skip_tokens(&mut c, k + 2);
    let args_v = take_tokens(&mut c, len - k - 3);
    assert(args_v@ =~= args0);
    let mut a = cursor_of(args_v);
    assert(a@.skip(0) =~= a@);
    let n1 = arg_len_at(&a, 0, 0);
    if n1 == 0 {
        return Err(ParseError::ResultNeedsTypeArguments);
    }
    let alen = a.len();
    if n1 == alen {
        return Err(ParseError::ResultNeedsErrorType);
    }
    assert(args0.skip(n1 as int).skip(1) =~= args0.skip(n1 + 1));
    let n2 = arg_len_at(&a, n1 + 1, 0);
    if n2 == 0 {
        return Err(ParseError::ResultNeedsErrorType);
    }
    if !(n1 == 1 && ident_at(&a, 0)) {
        return Err(ParseError::ExpectedIdent);
    }
    let x = match a.pop_front() {
        Some(Tok::Ident(x)) => x,
        _ => return Err(ParseError::ExpectedIdent),
    };
    assert(a@ =~= args0.skip(1));
    skip_tokens(&mut a, 1);
    assert(a@ =~= args0.skip(n1 + 1));
    let err = take_tokens(&mut a, n2);
    Ok((x, Some(err)))
}


/// The fields of a state, from the fields as parsed.
fn state_fields_of(v: Vec<TypedField>) -> (r: Vec<StateField>)
    ensures
        state_fields_model(r@) == fields_model(v@),
{
    let mut v = v;
    let ghost v0 = v@;
    let mut out: Vec<StateField> = Vec::new();
    while v.len() > 0
        invariant
            state_fields_model(out@) + fields_model(v@) == fields_model(v0),
        decreases v.len(),
    {
        let ghost before = v@;
        let f = v.remove(0);
        let ghost prev = out@;
        out.push(StateField { name: f.name, ty: f.ty });
        assert(fields_model(before) =~= seq![f@] + fields_model(v@));
        assert(state_fields_model(out@) =~= state_fields_model(prev).push(f@));
        assert(state_fields_model(out@) + fields_model(v@) =~= state_fields_model(prev) + fields_model(before));
    }
    assert(fields_model(v@) =~= Seq::<FieldModel>::empty());
    assert(state_fields_model(out@) =~= state_fields_model(out@) + fields_model(v@));
    out
}

/// Reads a variant of the states enum.
fn parse_variant(s: &mut VecDeque<Tok>) -> (r: Result<State, ParseError>)
    ensures
        match variant_def(old(s)@) {
            Ok((m, n)) => r matches Ok(st) && st@ == m && final(s)@ == old(s)@.skip(n as int),
            Err(e) => r == Err::<State, ParseError>(e),
        },
{
    let ghost s0 = s@;
    assert(s@.skip(0) =~= s@);
    let a = match attrs_len_at(s, 0) {
        Ok(a) => a,
        Err(e) => return Err(e),
    };
    let attrs = take_tokens(s, a);
    assert(attrs@ == s0.take(a as int));
    let is_initial = find_attr_pos(&attrs, "initial").is_some();
    assert(s@ =~= s0.skip(a as int));
    let name = match take_name(s) {
        Ok(n) => n,
        Err(e) => return Err(e),
    };
    assert(s@ =~= s0.skip(a + 1));
    if group_at(s, 0, Delim::Brace) {
        assert(s@[0] == s0[a + 1]);
        let mut inner = take_group(s);
        assert(inner@ == group_inner(s0[a + 1]));
        assert(s@ =~= s0.skip(a + 2));
        let fields = match parse_field_list(&mut inner) {
            Ok(f) => f,
            Err(e) => return Err(e),
        };
        let fields = state_fields_of(fields);
        Ok(State { name, fields, is_initial })
    } else {
        let fields: Vec<StateField> = Vec::new();
        assert(state_fields_model(fields@) =~= Seq::<FieldModel>::empty());
        Ok(State { name, fields, is_initial })
    }
}

/// Reads all of `s` as variants separated by `,`.
fn parse_variant_list(s: &mut VecDeque<Tok>) -> (r: Result<Vec<State>, ParseError>)
    ensures
        match variant_list(old(s)@) {
            Ok(ms) => r matches Ok(v) && machine_states_model(v@) == ms,
            Err(e) => r == Err::<Vec<State>, ParseError>(e),
        },
    decreases old(s)@.len(),
{
    let ghost s0 = s@;
    if s.len() == 0 {
        let v: Vec<State> = Vec::new();
        assert(machine_states_model(v@) =~= Seq::<MachineStateModel>::empty());
        return Ok(v);
    }
    proof { lemma_variant_def_bounds(s0); }
    let st = match parse_variant(s) {
        Ok(st) => st,
        Err(e) => return Err(e),
    };
    if s.len() == 0 {
        let v = vec![st];
        assert(machine_states_model(v@) =~= seq![st@]);
        return Ok(v);
    }
    if !punct_at(s, 0, ',') {
        return Err(ParseError::ExpectedPunct(','));
    }
    let ghost rest = s@;
    skip_tokens(s, 1);
    assert(s@ =~= rest.skip(1));
    let mut more = match parse_variant_list(s) {
        Ok(v) => v,
        Err(e) => return Err(e),
    };
    let ghost tail = more@;
    more.insert(0, st);
    assert(machine_states_model(more@) =~= seq![st@] + machine_states_model(tail));
    Ok(more)
}

/// Reads the arguments after a transition's `self` parameter.
fn parse_arg_list(s: &mut VecDeque<Tok>) -> (r: Result<Vec<(String, Vec<Tok>)>, ParseError>)
    ensures
        match arg_list(old(s)@) {
            Ok(ms) => r matches Ok(v) && args_model(v@) == ms,
            Err(e) => r == Err::<Vec<(String, Vec<Tok>)>, ParseError>(e),
        },
    decreases old(s)@.len(),
{
    let ghost s0 = s@;
    if s.len() == 0 {
        let v: Vec<(String, Vec<Tok>)> = Vec::new();
        assert(args_model(v@) =~= Seq::<FieldModel>::empty());
        return Ok(v);
    }
    if !punct_at(s, 0, ',') {
        return Err(ParseError::UnexpectedToken);
    }
    if s.len() == 1 {
        let v: Vec<(String, Vec<Tok>)> = Vec::new();
        assert(args_model(v@) =~= Seq::<FieldModel>::empty());
        return Ok(v);
    }
    skip_tokens(s, 1);
    proof { lemma_type_len_bounds(s0.skip(1).skip(2)); }
    let f = match parse_field_def(s) {
        Ok(f) => f,
        Err(e) => return Err(e),
    };
    let ghost fm = f@;
    let mut more = match parse_arg_list(s) {
        Ok(v) => v,
        Err(e) => return Err(e),
    };
    let ghost tail = more@;
    more.insert(0, (f.name, f.ty));
    assert(args_model(more@) =~= seq![fm] + args_model(tail));
    Ok(more)
}


/// All the tokens of a cursor, in order.
fn rest_of(s: VecDeque<Tok>) -> (v: Vec<Tok>)
    ensures
        v@ == s@,
{
    let mut s = s;
    let n = s.len();
    let v = take_tokens(&mut s, n);
    assert(v@ =~= s@.take(0).add(v@));
    v
}

/// Reads the source states of a `self` type written as alternatives
/// (see [`source_alternatives`]).
fn parse_source_alternatives(s: &mut VecDeque<Tok>) -> (r: Result<Vec<String>, ParseError>)
    ensures
        match source_alternatives(old(s)@) {
            Ok((v, n)) => r matches Ok(x) && x@ == v && final(s)@ == old(s)@.skip(n as int),
            Err(e) => r == Err::<Vec<String>, ParseError>(e),
        },
    decreases old(s)@.len(),
{
    let ghost s0 = s@;
    proof { lemma_source_alternatives_bound(s0); }
    assert(s@.skip(0) =~= s@);
    let n = match type_len_at(s, 0) {
        Some(n) => n,
        None => return Err(ParseError::ExpectedType),
    };
    let first_toks = take_tokens(s, n);
    let mut first = match parse_source_states(first_toks) {
        Ok(v) => v,
        Err(e) => return Err(e),
    };
    if !punct_at(s, 0, '|') {
        return Ok(first);
    }
    skip_tokens(s, 1);
    assert(s@ =~= s0.skip(n + 1));
    let mut more = match parse_source_alternatives(s) {
        Ok(v) => v,
        Err(e) => return Err(e),
    };
    proof {
        if let Ok((_, m)) = source_alternatives(s0.skip(n + 1)) {
            assert(s0.skip(n + 1).skip(m as int) =~= s0.skip(n + 1 + m));
        }
    }
    first.append(&mut more);
    Ok(first)
}

/// Reads a transition's parameters from the inside of its parentheses.
fn parse_transition_params(params: VecDeque<Tok>) -> (r: Result<(Vec<String>, Vec<(String, Vec<Tok>)>), ParseError>)
    ensures
        match transition_params(params@) {
            Ok((sources, args)) => r matches Ok((sv, av)) && sv@ == sources && args_model(av@) == args,
            Err(e) => r == Err::<(Vec<String>, Vec<(String, Vec<Tok>)>), ParseError>(e),
        },
{
    let mut params = params;
    if !word_at(&params, 0, "self") {
        return Err(ParseError::ExpectedSelf);
    }
    if !punct_at(&params, 1, ':') {
        return Err(ParseError::ExpectedPunct(':'));
    }
    skip_tokens(&mut params, 2);
    let sources = match parse_source_alternatives(&mut params) {
        Ok(v) => v,
        Err(e) => return Err(e),
    };
    let args = match parse_arg_list(&mut params) {
        Ok(v) => v,
        Err(e) => return Err(e),
    };
    Ok((sources, args))
}

/// Reads the return part `-> type` of a transition.
fn parse_transition_return(s: &mut VecDeque<Tok>) -> (r: Result<(String, Option<Vec<Tok>>), ParseError>)
    ensures
        match transition_return(old(s)@) {
            Ok((target, err, k)) => r matches Ok((x, ev)) && x == target && opt_toks(ev) == err
                && k <= old(s)@.len() && final(s)@ == old(s)@.skip(k as int),
            Err(e) => r == Err::<(String, Option<Vec<Tok>>), ParseError>(e),
        },
{
    let ghost s0 = s@;
    assert(s@.skip(0) =~= s@);
    if !arrow_at_pos(s, 0) {
        return Err(ParseError::ExpectedArrow);
    }
    skip_tokens(s, 2);
    assert(s@.skip(0) =~= s@);
    let m = match type_len_at(s, 0) {
        Some(m) => m,
        None => return Err(ParseError::ExpectedType),
    };
    let ret = take_tokens(s, m);
    assert(s@ =~= s0.skip(m + 2));
    parse_target_state(ret)
}

/// Reads a transition's guard from the inside of its `#[guard(..)]` attribute.
fn parse_guard(guard_attr: Option<Vec<Tok>>) -> (r: Result<Option<Vec<Tok>>, ParseError>)
    ensures
        match guard_of(opt_toks(guard_attr)) {
            Ok(g) => r matches Ok(gv) && opt_toks(gv) == g,
            Err(e) => r == Err::<Option<Vec<Tok>>, ParseError>(e),
        },
{
    match guard_attr {
        None => Ok(None),
        Some(inner) => match parse_attr_args(inner) {
            Err(e) => Err(e),
            Ok(g) => if g.len() == 0 {
                Err(ParseError::ExpectedExpression)
            } else {
                Ok(Some(g))
            },
        },
    }
}

/// Reads a transition method (the cursor starts at its `fn`), with the
/// inside of its `#[guard(..)]` attribute if it has one.
fn parse_transition_fn(s: &mut VecDeque<Tok>, guard_attr: Option<Vec<Tok>>) -> (r: Result<Transition, ParseError>)
    requires
        old(s)@.len() > 0,
    ensures
        match transition_fn(old(s)@, opt_toks(guard_attr)) {
            Ok((m, n)) => r matches Ok(tr) && tr@ == m && final(s)@ == old(s)@.skip(n as int),
            Err(e) => r == Err::<Transition, ParseError>(e),
        },
{
    let ghost s0 = s@;
    skip_tokens(s, 1);
    let name = match take_name(s) {
        Ok(n) => n,
        Err(e) => return Err(e),
    };
    assert(s@ =~= s0.skip(2));
    if !group_at(s, 0, Delim::Paren) {
        return Err(ParseError::ExpectedGroup(Delim::Paren));
    }
    let params = take_group(s);
    assert(s@ =~= s0.skip(3));
    let (source_states, args) = match parse_transition_params(params) {
        Ok(x) => x,
        Err(e) => return Err(e),
    };
    let ghost s3 = s@;
    let (target_state, error_type) = match parse_transition_return(s) {
        Ok(x) => x,
        Err(e) => return Err(e),
    };
    let ghost k = match transition_return(s3) {
        Ok((_, _, k)) => k,
        Err(_) => 0,
    };
    assert(s@ == s3.skip(k as int));
    assert(s3.skip(k as int) =~= s0.skip(3 + k as int));
    if !group_at(s, 0, Delim::Brace) {
        return Err(ParseError::ExpectedGroup(Delim::Brace));
    }
    let guard = match parse_guard(guard_attr) {
        Ok(g) => g,
        Err(e) => return Err(e),
    };
    let body_cursor = take_group(s);
    assert(s@ =~= s0.skip(3 + k as int + 1));
    let body = rest_of(body_cursor);
    Ok(Transition { name, source_states, target_state, error_type, args, guard, body })
}

/// Checks a lifecycle hook's parameter list: `&self` or `&mut self`.
fn check_hook_params(p: &VecDeque<Tok>) -> (r: Result<(), ParseError>)
    ensures
        r == hook_params_ok(p@),
{
    if !punct_at(p, 0, '&') {
        return Err(ParseError::ExpectedSelfReference);
    }
    let k: usize = if word_at(p, 1, "mut") { 2 } else { 1 };
    if !word_at(p, k, "self") {
        return Err(ParseError::ExpectedSelf);
    }
    if p.len() > k + 1 {
        return Err(ParseError::UnexpectedToken);
    }
    Ok(())
}

/// Reads the state a hook attribute names, from the inside of its brackets.
fn parse_hook_state(attr_inner: Vec<Tok>) -> (r: Result<String, ParseError>)
    ensures
        r == hook_state(attr_inner@),
{
    let args = match parse_attr_args(attr_inner) {
        Ok(a) => a,
        Err(e) => return Err(e),
    };
    let mut c = cursor_of(args);
    let st = match take_name(&mut c) {
        Ok(n) => n,
        Err(e) => return Err(e),
    };
    if c.len() > 0 {
        return Err(ParseError::UnexpectedToken);
    }
    Ok(st)
}

/// Skips an optional return type `-> type` at the front.
fn skip_opt_return(s: &mut VecDeque<Tok>) -> (r: Result<(), ParseError>)
    ensures
        match opt_return_len(old(s)@) {
            Ok(k) => r is Ok && k <= old(s)@.len() && final(s)@ == old(s)@.skip(k as int),
            Err(e) => r == Err::<(), ParseError>(e),
        },
{
    let ghost s0 = s@;
    assert(s@.skip(0) =~= s@);
    if arrow_at_pos(s, 0) {
        skip_tokens(s, 2);
        assert(s@.skip(0) =~= s@);
        let m = match type_len_at(s, 0) {
            Some(m) => m,
            None => return Err(ParseError::ExpectedType),
        };
        skip_tokens(s, m);
        assert(s@ =~= s0.skip(m + 2));
    } else {
        assert(s0.skip(0) =~= s0);
    }
    Ok(())
}

/// Reads a lifecycle hook method (the cursor starts at its `fn`), given the
/// inside of its `#[on_enter(..)]` or `#[on_exit(..)]` attribute.
fn parse_hook_fn(s: &mut VecDeque<Tok>, attr_inner: Vec<Tok>, kind: HookKind) -> (r: Result<LifecycleHook, ParseError>)
    requires
        old(s)@.len() > 0,
    ensures
        match hook_fn(old(s)@, attr_inner@, kind) {
            Ok((m, n)) => r matches Ok(h) && h@ == m && final(s)@ == old(s)@.skip(n as int),
            Err(e) => r == Err::<LifecycleHook, ParseError>(e),
        },
{
    let ghost s0 = s@;
    let state = match parse_hook_state(attr_inner) {
        Ok(st) => st,
        Err(e) => return Err(e),
    };
    skip_tokens(s, 1);
    let name = match take_name(s) {
        Ok(n) => n,
        Err(e) => return Err(e),
    };
    assert(s@ =~= s0.skip(2));
    if !group_at(s, 0, Delim::Paren) {
        return Err(ParseError::ExpectedGroup(Delim::Paren));
    }
    let params = take_group(s);
    assert(s@ =~= s0.skip(3));
    match check_hook_params(&params) {
        Ok(()) => {},
        Err(e) => return Err(e),
    }
    let ghost s3 = s@;
    match skip_opt_return(s) {
        Ok(()) => {},
        Err(e) => return Err(e),
    }
    let ghost k = match opt_return_len(s3) {
        Ok(k) => k,
        Err(_) => 0,
    };
    assert(s@ == s3.skip(k as int));
    assert(s3.skip(k as int) =~= s0.skip(3 + k as int));
    if !group_at(s, 0, Delim::Brace) {
        return Err(ParseError::ExpectedGroup(Delim::Brace));
    }
    let body_cursor = take_group(s);
    assert(s@ =~= s0.skip(3 + k as int + 1));
    let body = rest_of(body_cursor);
    Ok(LifecycleHook { kind, state, name, body })
}


/// The model of the methods read so far.
pub open spec fn methods_model(transitions: Seq<Transition>, hooks: Seq<LifecycleHook>) -> MethodsModel {
    MethodsModel { transitions: machine_transitions_model(transitions), hooks: hooks_model(hooks) }
}

/// Reads a method of the impl block and adds it to the transitions or the hooks.
fn parse_method(s: &mut VecDeque<Tok>, transitions: &mut Vec<Transition>, hooks: &mut Vec<LifecycleHook>) -> (r: Result<(), ParseError>)
    ensures
        match method_def(old(s)@, methods_model(old(transitions)@, old(hooks)@)) {
            Ok((m, n)) => r is Ok && methods_model(final(transitions)@, final(hooks)@) == m
                && final(s)@ == old(s)@.skip(n as int),
            Err(e) => r == Err::<(), ParseError>(e),
        },
{
    let ghost s0 = s@;
    let ghost t0 = transitions@;
    let ghost h0 = hooks@;
    assert(s@.skip(0) =~= s@);
    let a = match attrs_len_at(s, 0) {
        Ok(a) => a,
        Err(e) => return Err(e),
    };
    let mut attrs = take_tokens(s, a);
    let ghost attrs0 = attrs@;
    assert(attrs0 == s0.take(a as int));
    assert(s@ =~= s0.skip(a as int));
    if !word_at(s, 0, "fn") {
        return Err(ParseError::ExpectedFn);
    }
    let ghost t = s@;
    match find_attr_pos(&attrs, "on_enter") {
        Some(p) => {
            let inner = take_group_at(&mut attrs, p + 1);
            let h = match parse_hook_fn(s, inner, HookKind::OnEnter) {
                Ok(h) => h,
                Err(e) => return Err(e),
            };
            let ghost hm = h@;
            hooks.push(h);
            assert(hooks_model(hooks@) =~= hooks_model(h0).push(hm));
            let ghost n = match hook_fn(t, group_inner(attrs0[p + 1]), HookKind::OnEnter) {
                Ok((_, n)) => n,
                Err(_) => 0,
            };
            assert(s@ =~= s0.skip(a + n));
            Ok(())
        },
        None => match find_attr_pos(&attrs, "on_exit") {
            Some(p) => {
                let inner = take_group_at(&mut attrs, p + 1);
                let h = match parse_hook_fn(s, inner, HookKind::OnExit) {
                    Ok(h) => h,
                    Err(e) => return Err(e),
                };
                let ghost hm = h@;
                hooks.push(h);
                assert(hooks_model(hooks@) =~= hooks_model(h0).push(hm));
                let ghost n = match hook_fn(t, group_inner(attrs0[p + 1]), HookKind::OnExit) {
                    Ok((_, n)) => n,
                    Err(_) => 0,
                };
                assert(s@ =~= s0.skip(a + n));
                Ok(())
            },
            None => {
                let guard = match find_attr_pos(&attrs, "guard") {
                    Some(p) => Some(take_group_at(&mut attrs, p + 1)),
                    None => None,
                };
                let ghost g = opt_toks(guard);
                assert(g == find_attr(attrs0, "guard"@));
                let tr = match parse_transition_fn(s, guard) {
                    Ok(tr) => tr,
                    Err(e) => return Err(e),
                };
                let ghost tm = tr@;
                transitions.push(tr);
                assert(machine_transitions_model(transitions@) =~= machine_transitions_model(t0).push(tm));
                let ghost n = match transition_fn(t, g) {
                    Ok((_, n)) => n,
                    Err(_) => 0,
                };
                assert(s@ =~= s0.skip(a + n));
                Ok(())
            },
        },
    }
}

/// Reads all of `s` as methods of the impl block.
fn parse_method_list(s: &mut VecDeque<Tok>, transitions: &mut Vec<Transition>, hooks: &mut Vec<LifecycleHook>) -> (r: Result<(), ParseError>)
    ensures
        match method_list(old(s)@, methods_model(old(transitions)@, old(hooks)@)) {
            Ok(m) => r is Ok && methods_model(final(transitions)@, final(hooks)@) == m,
            Err(e) => r == Err::<(), ParseError>(e),
        },
    decreases old(s)@.len(),
{
    if s.len() == 0 {
        return Ok(());
    }
    proof { lemma_method_def_bounds(s@, methods_model(transitions@, hooks@)); }
    match parse_method(s, transitions, hooks) {
        Ok(()) => {},
        Err(e) => return Err(e),
    }
    parse_method_list(s, transitions, hooks)
}


/// The items of a definition read so far.
struct Items {
    vis: Vec<Tok>,
    name: Option<String>,
    states: Vec<State>,
    transitions: Vec<Transition>,
    hooks: Vec<LifecycleHook>,
    context: Option<Vec<Tok>>,
}

impl View for Items {
    type V = ItemsModel;

    closed spec fn view(&self) -> ItemsModel {
        ItemsModel {
            vis: self.vis@,
            name: self.name,
            states: machine_states_model(self.states@),
            transitions: machine_transitions_model(self.transitions@),
            hooks: hooks_model(self.hooks@),
            context: opt_toks(self.context),
        }
    }
}

/// The words that begin the items of a definition are distinct.
proof fn lemma_item_words_differ()
    ensures
        "pub"@ != "impl"@,
        "pub"@ != "type"@,
        "enum"@ != "impl"@,
        "enum"@ != "type"@,
        "impl"@ != "type"@,
{
    reveal_strlit("pub");
    reveal_strlit("enum");
    reveal_strlit("impl");
    reveal_strlit("type");
    assert("pub"@.len() == 3);
    assert("enum"@[0] == 'e' && "impl"@[0] == 'i' && "type"@[0] == 't');
}

/// Reads the enum of states (the cursor starts at its visibility or `enum`).
fn parse_enum_item(s: &mut VecDeque<Tok>, items: &mut Items) -> (r: Result<(), ParseError>)
    requires
        old(s)@.len() > 0,
    ensures
        match enum_item(old(s)@, old(items)@) {
            Ok((m, n)) => r is Ok && final(items)@ == m && final(s)@ == old(s)@.skip(n as int),
            Err(e) => r == Err::<(), ParseError>(e),
        },
{
    let ghost s0 = s@;
    assert(s0.skip(0) =~= s0);
    let v = vis_len_at(s);
    let vis = take_tokens(s, v);
    if !word_at(s, 0, "enum") {
        return Err(ParseError::ExpectedEnum);
    }
    skip_tokens(s, 1);
    assert(s@ =~= s0.skip(v + 1));
    let name = match take_name(s) {
        Ok(n) => n,
        Err(e) => return Err(e),
    };
    assert(s@ =~= s0.skip(v + 2));
    if !group_at(s, 0, Delim::Brace) {
        return Err(ParseError::ExpectedGroup(Delim::Brace));
    }
    let mut inner = take_group(s);
    assert(s@ =~= s0.skip(v + 3));
    let mut variants = match parse_variant_list(&mut inner) {
        Ok(v) => v,
        Err(e) => return Err(e),
    };
    let ghost st0 = items.states@;
    let ghost vs = variants@;
    items.vis = vis;
    items.name = Some(name);
    items.states.append(&mut variants);
    assert(machine_states_model(items.states@) =~= machine_states_model(st0) + machine_states_model(vs));
    Ok(())
}

/// Reads an impl block (the cursor starts at its `impl`).
fn parse_impl_item(s: &mut VecDeque<Tok>, items: &mut Items) -> (r: Result<(), ParseError>)
    requires
        old(s)@.len() > 0,
    ensures
        match impl_item(old(s)@, old(items)@) {
            Ok((m, n)) => r is Ok && final(items)@ == m && final(s)@ == old(s)@.skip(n as int),
            Err(e) => r == Err::<(), ParseError>(e),
        },
{
    let ghost s0 = s@;
    assert(s0.skip(0) =~= s0);
    skip_tokens(s, 1);
    match take_name(s) {
        Ok(_) => {},
        Err(e) => return Err(e),
    }
    assert(s@ =~= s0.skip(2));
    if !group_at(s, 0, Delim::Brace) {
        return Err(ParseError::ExpectedGroup(Delim::Brace));
    }
    let mut inner = take_group(s);
    assert(s@ =~= s0.skip(3));
    let mut transitions = Vec::new();
    let mut hooks = Vec::new();
    std::mem::swap(&mut transitions, &mut items.transitions);
    std::mem::swap(&mut hooks, &mut items.hooks);
    let r = parse_method_list(&mut inner, &mut transitions, &mut hooks);
    std::mem::swap(&mut transitions, &mut items.transitions);
    std::mem::swap(&mut hooks, &mut items.hooks);
    r
}

/// Reads a `type Context = ...;` item (the cursor starts at its `type`).
fn parse_context_item(s: &mut VecDeque<Tok>, items: &mut Items) -> (r: Result<(), ParseError>)
    requires
        old(s)@.len() > 0,
    ensures
        match context_item(old(s)@, old(items)@) {
            Ok((m, n)) => r is Ok && final(items)@ == m && final(s)@ == old(s)@.skip(n as int),
            Err(e) => r == Err::<(), ParseError>(e),
        },
{
    let ghost s0 = s@;
    assert(s0.skip(0) =~= s0);
    skip_tokens(s, 1);
    let alias = match take_name(s) {
        Ok(n) => n,
        Err(e) => return Err(e),
    };
    assert(s@ =~= s0.skip(2));
    if !text_eq(alias.as_str(), "Context") {
        return Err(ParseError::ExpectedContext);
    }
    if !punct_at(s, 0, '=') {
        return Err(ParseError::ExpectedPunct('='));
    }
    skip_tokens(s, 1);
    assert(s@ =~= s0.skip(3));
    assert(s@.skip(0) =~= s@);
    let n = match type_len_at(s, 0) {
        Some(n) => n,
        None => return Err(ParseError::ExpectedType),
    };
    let ty = take_tokens(s, n);
    assert(s@ =~= s0.skip(3 + n));
    if !punct_at(s, 0, ';') {
        return Err(ParseError::ExpectedPunct(';'));
    }
    skip_tokens(s, 1);
    assert(s@ =~= s0.skip(4 + n));
    items.context = Some(ty);
    Ok(())
}


/// Reads an item of the definition and adds what it defines to `items`.
fn parse_item(s: &mut VecDeque<Tok>, items: &mut Items) -> (r: Result<(), ParseError>)
    ensures
        match item_def(old(s)@, old(items)@) {
            Ok((m, n)) => r is Ok && final(items)@ == m && final(s)@ == old(s)@.skip(n as int),
            Err(e) => r == Err::<(), ParseError>(e),
        },
{
    let ghost s0 = s@;
    let ghost acc = items@;
    assert(s@.skip(0) =~= s@);
    let a = match attrs_len_at(s, 0) {
        Ok(a) => a,
        Err(e) => return Err(e),
    };
    skip_tokens(s, a);
    let ghost t = s@;
    proof { lemma_item_words_differ(); }
    let r = if word_at(s, 0, "pub") || word_at(s, 0, "enum") {
        parse_enum_item(s, items)
    } else if word_at(s, 0, "impl") {
        parse_impl_item(s, items)
    } else if word_at(s, 0, "type") {
        parse_context_item(s, items)
    } else {
        return Err(ParseError::ExpectedItem);
    };
    proof {
        if let Ok((_, n)) = item_body(t, acc) {
            assert(t.skip(n as int) =~= s0.skip(a + n));
        }
    }
    r
}

/// Reads all of `s` as items of the definition.
fn parse_item_list(s: &mut VecDeque<Tok>, items: &mut Items) -> (r: Result<(), ParseError>)
    ensures
        match item_list(old(s)@, old(items)@) {
            Ok(m) => r is Ok && final(items)@ == m,
            Err(e) => r == Err::<(), ParseError>(e),
        },
    decreases old(s)@.len(),
{
    if s.len() == 0 {
        return Ok(());
    }
    proof { lemma_item_def_bounds(s@, items@); }
    match parse_item(s, items) {
        Ok(()) => {},
        Err(e) => return Err(e),
    }
    parse_item_list(s, items)
}

/// How many states are marked initial.
fn count_initial(states: &Vec<State>) -> (c: usize)
    ensures
        c == initial_count(machine_states_model(states@)),
{
    let ghost m = machine_states_model(states@);
    let mut c: usize = 0;
    let mut i: usize = 0;
    assert(m.take(0) =~= Seq::<MachineStateModel>::empty());
    while i < states.len()
        invariant
            m == machine_states_model(states@),
            i <= states@.len(),
            c <= i,
            c == initial_count(m.take(i as int)),
        decreases states@.len() - i,
    {
        assert(m.take(i + 1).drop_last() =~= m.take(i as int));
        if states[i].is_initial {
            c = c + 1;
        }
        i = i + 1;
    }
    assert(m.take(i as int) =~= m);
    c
}

impl StateMachine {
    /// Reads a state machine definition from the tokens of a `state_machine!`
    /// invocation.
    pub fn parse(tokens: Vec<Tok>) -> (r: Result<StateMachine, ParseError>)
        ensures
            match machine_def(tokens@) {
                Ok(m) => r matches Ok(sm) && sm@ == m,
                Err(e) => r == Err::<StateMachine, ParseError>(e),
            },
    {
        let mut s = cursor_of(tokens);
        let mut items = Items {
            vis: Vec::new(),
            name: None,
            states: Vec::new(),
            transitions: Vec::new(),
            hooks: Vec::new(),
            context: None,
        };
        assert(machine_states_model(items.states@) =~= Seq::<MachineStateModel>::empty());
        assert(machine_transitions_model(items.transitions@) =~= Seq::<MachineTransitionModel>::empty());
        assert(hooks_model(items.hooks@) =~= Seq::<HookModel>::empty());
        assert(items.vis@ =~= Seq::<Tok>::empty());
        assert(items@ == no_items());
        match parse_item_list(&mut s, &mut items) {
            Ok(()) => {},
            Err(e) => return Err(e),
        }
        let Items { vis, name, states, transitions, hooks, context } = items;
        let name = match name {
            Some(n) => n,
            None => return Err(ParseError::MissingEnum),
        };
        let c = count_initial(&states);
        if c == 0 {
            return Err(ParseError::NoInitialState);
        }
        if c > 1 {
            return Err(ParseError::SeveralInitialStates);
        }
        let context = match context {
            Some(ty) => Some(ContextDef { ty }),
            None => None,
        };
        Ok(StateMachine { vis, name, states, transitions, hooks, context })
    }
}

} // verus!
